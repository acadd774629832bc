//! The mathematical model of a run: trials, configuration, and the
//! aggregation of trial outcomes as a function of their arrival order.
use vstd::prelude::*;

verus! {

/// One complete execution of the command under test.
pub struct Trial {
    /// Ordinal of dispatch, not of completion.
    pub index: u64,
    /// Whether the command exited with a success status.
    pub success: bool,
    /// Everything the command wrote to its standard output.
    pub stdout: Vec<u8>,
    /// Everything the command wrote to its standard error.
    pub stderr: Vec<u8>,
}

/// The parameters governing one full run.
pub struct RunConfig {
    pub command: Seq<char>,
    pub total_runs: nat,
    pub concurrency: nat,
    pub continue_on_failure: bool,
}

/// A configuration on which a run may start.
pub open spec fn config_is_valid(c: RunConfig) -> bool {
    c.total_runs >= 1 && c.concurrency >= 1
}

/// What the aggregator knows after some trials have arrived.
pub struct RunState {
    /// Whether the warm-up trial has been seen (and discarded).
    pub warmed_up: bool,
    /// How many measured trials have been taken into account.
    pub consumed: nat,
    /// The failed measured trials, in arrival order.
    pub failures: Seq<Trial>,
    /// Whether consumption stopped at a failure.
    pub stopped: bool,
}

/// The state before anything has arrived, the warm-up included.
pub open spec fn initial_state() -> RunState {
    RunState { warmed_up: false, consumed: 0, failures: Seq::empty(), stopped: false }
}

/// No further trial is consumed: stopped at a failure, or all runs consumed.
pub open spec fn is_done(c: RunConfig, s: RunState) -> bool {
    s.stopped || s.consumed >= c.total_runs
}

/// Consumption of one arriving trial.
///
/// The first trial to arrive is the warm-up, which is discarded whatever its
/// outcome. Once done, arrivals are ignored. A success is counted and
/// dropped; a failure is counted and kept, and stops consumption unless the
/// run continues on failure.
pub open spec fn step(c: RunConfig, s: RunState, t: Trial) -> RunState {
    if !s.warmed_up {
        RunState { warmed_up: true, ..s }
    } else if is_done(c, s) {
        s
    } else if t.success {
        RunState { consumed: s.consumed + 1, ..s }
    } else {
        RunState {
            consumed: s.consumed + 1,
            failures: s.failures.push(t),
            stopped: !c.continue_on_failure,
            ..s
        }
    }
}

/// The state after the trials `ts` have arrived, in that order, the warm-up first.
pub open spec fn run(c: RunConfig, ts: Seq<Trial>) -> RunState
    decreases ts.len(),
{
    if ts.len() == 0 {
        initial_state()
    } else {
        step(c, run(c, ts.drop_last()), ts.last())
    }
}

/// The failure rate `failures / runs * 100`, in tenths of a percent, rounded
/// to the nearest tenth with halves rounded up.
pub open spec fn rate_tenths(failures: nat, runs: nat) -> nat
    recommends
        runs > 0,
{
    ((2000 * failures + runs) / (2 * runs)) as nat
}

/// `t` tenths of a percent is the nearest tenth to `failures / runs * 100`
/// (halves rounded up).
pub open spec fn is_rounded_rate(failures: nat, runs: nat, t: nat) -> bool {
    &&& 2 * runs * t <= 2000 * failures + runs
    &&& 2000 * failures + runs < 2 * runs * (t + 1)
}

} // verus!
