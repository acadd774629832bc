//! Building a [`FlakyFinder`] from its parameters.
use vstd::prelude::*;
use crate::finder::FlakyFinder;
use crate::model::{RunConfig, initial_state};

verus! {

/// Collects the parameters of a run.
pub struct FlakyFinderBuilder {
    /// The actual command that we need to test.
    cmd: String,
    /// How many workers run trials concurrently.
    nb_threads: u32,
    /// How many times we should run the command.
    runs: u64,
    /// Shall we stop on the first flaky test found or continue.
    should_continue: bool,
}

impl View for FlakyFinderBuilder {
    type V = RunConfig;

    closed spec fn view(&self) -> RunConfig {
        RunConfig {
            command: self.cmd@,
            total_runs: self.runs as nat,
            concurrency: self.nb_threads as nat,
            continue_on_failure: self.should_continue,
        }
    }
}

/// The parameters of a run that nothing overrides: an empty command, ten
/// runs, one worker, stopping at the first failure.
pub open spec fn default_config() -> RunConfig {
    RunConfig { command: Seq::empty(), total_runs: 10, concurrency: 1, continue_on_failure: false }
}

impl Default for FlakyFinderBuilder {
    fn default() -> (r: Self)
        ensures
            r@ == default_config(),
    {
        FlakyFinderBuilder { cmd: String::new(), nb_threads: 1, runs: 10, should_continue: false }
    }
}

impl FlakyFinderBuilder {
    /// A builder holding the default parameters.
    pub fn new() -> (r: Self)
        ensures
            r@ == default_config(),
    {
        Self::default()
    }

    /// The actual command of the process we are evaluating.
    pub fn cmd(&mut self, cmd: &str) -> (r: &mut Self)
        ensures
            r@ == (RunConfig { command: cmd@, ..old(self)@ }),
            *final(self) == *final(r),
    {
        self.cmd = cmd.to_owned();
        self
    }

    /// The number of concurrent workers used to evaluate the command.
    pub fn nb_threads(&mut self, nb_cpu: u32) -> (r: &mut Self)
        ensures
            r@ == (RunConfig { concurrency: nb_cpu as nat, ..old(self)@ }),
            *final(self) == *final(r),
    {
        self.nb_threads = nb_cpu;
        self
    }

    /// The number of measured runs.
    pub fn runs(&mut self, runs: u64) -> (r: &mut Self)
        ensures
            r@ == (RunConfig { total_runs: runs as nat, ..old(self)@ }),
            *final(self) == *final(r),
    {
        self.runs = runs;
        self
    }

    /// Whether the run continues past failures instead of stopping at the first.
    pub fn should_continue(&mut self, should_continue: bool) -> (r: &mut Self)
        ensures
            r@ == (RunConfig { continue_on_failure: should_continue, ..old(self)@ }),
            *final(self) == *final(r),
    {
        self.should_continue = should_continue;
        self
    }

    /// Builds a [`FlakyFinder`] with this configuration, before its warm-up.
    pub fn build(&self) -> (r: FlakyFinder)
        ensures
            r.wf(),
            r.config() == self@,
            r.state() == initial_state(),
            r.arrivals() == Seq::<crate::model::Trial>::empty(),
    {
        FlakyFinder::new(self.cmd.clone(), self.nb_threads, self.runs, self.should_continue)
    }
}

} // verus!
