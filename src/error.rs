//! Errors of a run.
use vstd::prelude::*;
use vstd::string::StringExecFns;

verus! {

/// Declares `std::io::Error` so that [`ErrorKind::Io`] can carry it; nothing
/// inside a value of it is read, and no contract is assumed of it.
#[verifier::external_type_specification]
#[verifier::external_body]
pub struct ExIoError(std::io::Error);

pub type FlakyFinderResult<T> = Result<T, FlakyFinderError>;

/// The specific type of an error.
#[derive(Debug)]
pub enum ErrorKind {
    /// An I/O error that occurred while writing to the terminal.
    Io(std::io::Error),
    /// The run configuration was rejected before any trial ran.
    Config(String),
    /// The shell that runs the command could not be launched.
    Spawn(String),
    /// Yet undefined error.
    Other(String),
}

/// An error that can occur when running the command under test.
#[derive(Debug)]
pub struct FlakyFinderError(Box<ErrorKind>);

impl View for FlakyFinderError {
    type V = ErrorKind;

    closed spec fn view(&self) -> ErrorKind {
        *self.0
    }
}

/// The process exit status that reports an error of this kind.
pub open spec fn spec_exit_code(kind: ErrorKind) -> i32 {
    match kind {
        ErrorKind::Other(_) => 1,
        ErrorKind::Config(_) => 2,
        ErrorKind::Spawn(_) => 3,
        ErrorKind::Io(_) => 4,
    }
}

/// The message shown for an error of this kind, where it is fixed by the kind's text.
pub open spec fn spec_message(kind: ErrorKind) -> Seq<char> {
    match kind {
        ErrorKind::Config(s) => "Invalid configuration: "@ + s@,
        ErrorKind::Spawn(s) => "Fail to launch the command: "@ + s@,
        ErrorKind::Other(s) => "Unknown error encountered: '"@ + s@ + "'."@,
        ErrorKind::Io(_) => Seq::empty(),
    }
}

impl FlakyFinderError {
    /// A constructor for `FlakyFinderError`.
    pub fn new(kind: ErrorKind) -> (r: Self)
        ensures
            r@ == kind,
    {
        FlakyFinderError(Box::new(kind))
    }

    /// Helper function to build a new error with an [Other](ErrorKind::Other) ErrorKind.
    pub fn new_other(s: &str) -> (r: Self)
        ensures
            r@ matches ErrorKind::Other(m) && m@ == s@,
    {
        FlakyFinderError::new(ErrorKind::Other(s.to_owned()))
    }

    /// Builds a configuration error carrying `s` as its explanation.
    pub fn new_config(s: &str) -> (r: Self)
        ensures
            r@ matches ErrorKind::Config(m) && m@ == s@,
    {
        FlakyFinderError::new(ErrorKind::Config(s.to_owned()))
    }

    /// Builds a spawn error carrying `s` as its explanation.
    pub fn new_spawn(s: &str) -> (r: Self)
        ensures
            r@ matches ErrorKind::Spawn(m) && m@ == s@,
    {
        FlakyFinderError::new(ErrorKind::Spawn(s.to_owned()))
    }

    /// Return the specific type of this error.
    pub fn kind(&self) -> (r: &ErrorKind)
        ensures
            *r == self@,
    {
        &self.0
    }

    /// Unwrap this error into its underlying type.
    pub fn into_kind(self) -> (r: ErrorKind)
        ensures
            r == self@,
    {
        *self.0
    }

    /// The process exit status for this error: one distinct non-zero value per kind.
    pub fn exit_code(&self) -> (r: i32)
        ensures
            r == spec_exit_code(self@),
            r != 0,
    {
        match self.kind() {
            ErrorKind::Other(_) => 1,
            ErrorKind::Config(_) => 2,
            ErrorKind::Spawn(_) => 3,
            ErrorKind::Io(_) => 4,
        }
    }

    /// A human-readable description of this error.
    pub fn message(&self) -> (r: String)
        ensures
            !(self@ is Io) ==> r@ == spec_message(self@),
    {
        match self.kind() {
            ErrorKind::Io(err) => err.to_string(),
            ErrorKind::Config(s) => {
                let mut m = String::from_str("Invalid configuration: ");
                m.append(s.as_str());
                m
            },
            ErrorKind::Spawn(s) => {
                let mut m = String::from_str("Fail to launch the command: ");
                m.append(s.as_str());
                m
            },
            ErrorKind::Other(s) => {
                let mut m = String::from_str("Unknown error encountered: '");
                m.append(s.as_str());
                m.append("'.");
                m
            },
        }
    }
}

impl From<std::io::Error> for FlakyFinderError {
    fn from(err: std::io::Error) -> (r: Self) {
        FlakyFinderError::new(ErrorKind::Io(err))
    }
}

impl vstd::std_specs::convert::FromSpecImpl<std::io::Error> for FlakyFinderError {
    open spec fn obeys_from_spec() -> bool {
        true
    }

    closed spec fn from_spec(err: std::io::Error) -> Self {
        FlakyFinderError(Box::new(ErrorKind::Io(err)))
    }
}

} // verus!
