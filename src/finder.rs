//! The run engine: consumes trial outcomes and enforces the stop-or-continue policy.
use vstd::prelude::*;
use crate::error::{FlakyFinderError, FlakyFinderResult};
use crate::model::{
    Trial, RunConfig, RunState, config_is_valid, initial_state, is_done, step, run,
    rate_tenths,
};
use crate::report::{ReportPiece, failure_rate_tenths, report_layout, report_pieces};

verus! {

/// What consuming one arriving trial amounted to, for the progress display.
#[derive(Debug, PartialEq, Eq, Structural)]
pub enum Consumed {
    /// The trial was not counted: it was the warm-up, or consumption was over.
    Discarded,
    /// A successful measured trial.
    Passed,
    /// A failed measured trial, with the running failure rate in tenths of a
    /// percent to display when the run continues past failures.
    Failed(Option<u64>),
}

/// How consuming `t` in state `s` is reported.
pub open spec fn consumed_spec(c: RunConfig, s: RunState, t: Trial) -> Consumed {
    if !s.warmed_up || is_done(c, s) {
        Consumed::Discarded
    } else if t.success {
        Consumed::Passed
    } else if c.continue_on_failure {
        Consumed::Failed(Some(rate_tenths(s.failures.len() + 1, c.total_runs) as u64))
    } else {
        Consumed::Failed(None)
    }
}

/// One run of a command: its configuration and the aggregated outcomes.
pub struct FlakyFinder {
    /// The actual command that we need to test.
    cmd: String,
    /// The failed measured trials, in arrival order.
    outputs: Vec<Trial>,
    /// How many workers run trials concurrently.
    nb_threads: u32,
    /// How many times we should run the command.
    runs: u64,
    /// Shall we stop on the first flaky test found or continue.
    should_continue: bool,
    warmed_up: bool,
    consumed: u64,
    stopped: bool,
    /// Every trial handed to the aggregator, in arrival order.
    arrivals: Ghost<Seq<Trial>>,
}

impl FlakyFinder {
    /// The configuration of this run.
    pub closed spec fn config(&self) -> RunConfig {
        RunConfig {
            command: self.cmd@,
            total_runs: self.runs as nat,
            concurrency: self.nb_threads as nat,
            continue_on_failure: self.should_continue,
        }
    }

    /// The aggregated state of this run.
    pub closed spec fn state(&self) -> RunState {
        RunState {
            warmed_up: self.warmed_up,
            consumed: self.consumed as nat,
            failures: self.outputs@,
            stopped: self.stopped,
        }
    }

    /// Every trial handed to the aggregator so far, the warm-up first.
    pub closed spec fn arrivals(&self) -> Seq<Trial> {
        self.arrivals@
    }

    /// The state is the one the model gives for the trials that arrived,
    /// and the failure count never exceeds the consumed count nor the run count.
    pub closed spec fn wf(&self) -> bool {
        &&& self.state() == run(self.config(), self.arrivals())
        &&& self.outputs@.len() <= self.consumed <= self.runs
    }

    /// A run of `cmd` with the given parameters, before its warm-up.
    pub fn new(cmd: String, nb_threads: u32, runs: u64, should_continue: bool) -> (r: Self)
        ensures
            r.wf(),
            r.config() == (RunConfig {
                command: cmd@,
                total_runs: runs as nat,
                concurrency: nb_threads as nat,
                continue_on_failure: should_continue,
            }),
            r.state() == initial_state(),
            r.arrivals() == Seq::<Trial>::empty(),
    {
        FlakyFinder {
            cmd,
            outputs: Vec::new(),
            nb_threads,
            runs,
            should_continue,
            warmed_up: false,
            consumed: 0,
            stopped: false,
            arrivals: Ghost(Seq::empty()),
        }
    }

    /// The command under test.
    pub fn cmd(&self) -> (r: &String)
        ensures
            r@ == self.config().command,
    {
        &self.cmd
    }

    /// How many measured runs are asked for.
    pub fn runs(&self) -> (r: u64)
        ensures
            r == self.config().total_runs,
    {
        self.runs
    }

    /// How many workers run trials concurrently.
    pub fn nb_threads(&self) -> (r: u32)
        ensures
            r == self.config().concurrency,
    {
        self.nb_threads
    }

    /// Whether the run continues past failures.
    pub fn should_continue(&self) -> (r: bool)
        ensures
            r == self.config().continue_on_failure,
    {
        self.should_continue
    }

    /// The failed measured trials, in arrival order.
    pub fn outputs(&self) -> (r: &Vec<Trial>)
        ensures
            r@ == self.state().failures,
    {
        &self.outputs
    }

    /// How many measured trials failed.
    pub fn failure_count(&self) -> (r: usize)
        ensures
            r == self.state().failures.len(),
    {
        self.outputs.len()
    }

    /// How many measured trials have been taken into account.
    pub fn consumed(&self) -> (r: u64)
        ensures
            r == self.state().consumed,
    {
        self.consumed
    }

    /// Rejects a configuration on which no run may start: fewer than one run,
    /// or fewer than one worker.
    pub fn check_config(&self) -> (r: FlakyFinderResult<()>)
        ensures
            r is Ok <==> config_is_valid(self.config()),
            r matches Err(e) ==> e@ is Config,
    {
        if self.runs < 1 {
            Err(FlakyFinderError::new_config("the number of runs has to be > 0"))
        } else if self.nb_threads < 1 {
            Err(FlakyFinderError::new_config("the number of threads has to be > 0"))
        } else {
            Ok(())
        }
    }

    /// Whether the next trial to arrive is the warm-up.
    pub fn needs_warm_up(&self) -> (r: bool)
        ensures
            r == !self.state().warmed_up,
    {
        !self.warmed_up
    }

    /// Whether one more measured trial would be consumed.
    pub fn wants_more(&self) -> (r: bool)
        requires
            self.wf(),
        ensures
            r == (self.state().warmed_up && !is_done(self.config(), self.state())),
    {
        self.warmed_up && !self.stopped && self.consumed < self.runs
    }

    /// Consumes one arriving trial: the warm-up is discarded, a success is
    /// counted, a failure is counted and kept, and stops consumption unless
    /// the run continues past failures.
    pub fn on_trial(&mut self, trial: Trial) -> (r: Consumed)
        requires
            old(self).wf(),
        ensures
            final(self).wf(),
            final(self).config() == old(self).config(),
            final(self).arrivals() == old(self).arrivals().push(trial),
            final(self).state() == step(old(self).config(), old(self).state(), trial),
            r == consumed_spec(old(self).config(), old(self).state(), trial),
    {
        let ghost t = trial;
        proof {
            let ts = self.arrivals@.push(t);
            assert(ts.drop_last() =~= self.arrivals@);
        }
        self.arrivals = Ghost(self.arrivals@.push(t));
        if !self.warmed_up {
            self.warmed_up = true;
            Consumed::Discarded
        } else if self.stopped || self.consumed >= self.runs {
            Consumed::Discarded
        } else if trial.success {
            self.consumed = self.consumed + 1;
            Consumed::Passed
        } else {
            self.consumed = self.consumed + 1;
            self.outputs.push(trial);
            if self.should_continue {
                let rate = failure_rate_tenths(self.outputs.len() as u64, self.runs);
                Consumed::Failed(Some(rate))
            } else {
                self.stopped = true;
                Consumed::Failed(None)
            }
        }
    }

    /// The failure rate of the trials consumed so far, over the configured
    /// run count, in tenths of a percent.
    pub fn percent_of_error_found(&self) -> (r: u64)
        requires
            self.wf(),
            self.config().total_runs > 0,
        ensures
            r == rate_tenths(self.state().failures.len(), self.config().total_runs),
    {
        failure_rate_tenths(self.outputs.len() as u64, self.runs)
    }

    /// The report of this run: a success line if nothing failed, else the
    /// failure rate followed by each failure's output.
    pub fn show_errors(&self) -> (r: Vec<ReportPiece>)
        requires
            self.wf(),
        ensures
            r@ == report_pieces(
                self.state().failures.len(),
                if self.state().failures.len() == 0 {
                    0
                } else {
                    rate_tenths(self.state().failures.len(), self.config().total_runs) as u64
                },
            ),
    {
        let n = self.outputs.len();
        let rate: u64 = if n == 0 {
            0
        } else {
            failure_rate_tenths(n as u64, self.runs)
        };
        report_layout(n, rate)
    }
}

} // verus!
