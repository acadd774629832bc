//! Facts about every run, proved over the model that the engine follows.
use vstd::prelude::*;
use vstd::arithmetic::div_mod::{lemma_fundamental_div_mod, lemma_mod_pos_bound};
use crate::model::{
    Trial, RunConfig, initial_state, is_done, step, run, rate_tenths,
    is_rounded_rate,
};
use crate::report::{ReportPiece, report_pieces};

verus! {

/// The state after the first `k` arrivals is the consumption of the `k`-th
/// arrival in the state after the first `k - 1`.
proof fn lemma_run_prefix(c: RunConfig, ts: Seq<Trial>, k: int)
    requires
        1 <= k <= ts.len(),
    ensures
        run(c, ts.take(k)) == step(c, run(c, ts.take(k - 1)), ts[k - 1]),
{
    assert(ts.take(k).drop_last() =~= ts.take(k - 1));
}

/// Whatever arrives, the failures are at most the consumed trials, which are
/// at most the configured run count.
pub proof fn lemma_failures_bounded(c: RunConfig, ts: Seq<Trial>)
    ensures
        run(c, ts).failures.len() <= run(c, ts).consumed <= c.total_runs,
    decreases ts.len(),
{
    if ts.len() > 0 {
        lemma_failures_bounded(c, ts.drop_last());
    }
}

/// Once consumption is over, later arrivals change nothing.
pub proof fn lemma_done_is_final(c: RunConfig, ts: Seq<Trial>, j: int, k: int)
    requires
        0 <= j <= k <= ts.len(),
        run(c, ts.take(j)).warmed_up,
        is_done(c, run(c, ts.take(j))),
    ensures
        run(c, ts.take(k)) == run(c, ts.take(j)),
    decreases k - j,
{
    if k > j {
        lemma_done_is_final(c, ts, j, k - 1);
        lemma_run_prefix(c, ts, k);
    }
}

/// When every trial succeeds, whatever the order of arrival (so whatever the
/// concurrency), no failure is recorded and the report is the success line.
pub proof fn lemma_all_pass(c: RunConfig, ts: Seq<Trial>, rate: u64)
    requires
        forall|i: int| 0 <= i < ts.len() ==> #[trigger] ts[i].success,
    ensures
        run(c, ts).failures.len() == 0,
        report_pieces(run(c, ts).failures.len(), rate) == seq![ReportPiece::Success],
    decreases ts.len(),
{
    if ts.len() > 0 {
        let p = ts.drop_last();
        assert forall|i: int| 0 <= i < p.len() implies #[trigger] p[i].success by {
            assert(p[i] == ts[i]);
        }
        lemma_all_pass(c, p, rate);
        assert(ts.last().success);
    }
}

/// When every trial fails, after the first `k` arrivals (the warm-up first):
/// the measured trials consumed are `k - 1`, capped at the run count when the
/// run continues past failures and at one when it does not; each of them is a
/// recorded failure; and consumption has stopped exactly when it does not
/// continue and one failure is in.
pub proof fn lemma_all_fail_prefix(c: RunConfig, ts: Seq<Trial>, k: int)
    requires
        c.total_runs >= 1,
        1 <= k <= ts.len(),
        forall|i: int| 0 <= i < ts.len() ==> !(#[trigger] ts[i].success),
    ensures
        ({
            let s = run(c, ts.take(k));
            let cap: int = if c.continue_on_failure { c.total_runs as int } else { 1 };
            &&& s.warmed_up
            &&& s.consumed == if k - 1 < cap { k - 1 } else { cap }
            &&& s.failures.len() == s.consumed
            &&& s.stopped == (!c.continue_on_failure && k >= 2)
        }),
    decreases k,
{
    lemma_run_prefix(c, ts, k);
    if k == 1 {
        assert(ts.take(0) =~= Seq::<Trial>::empty());
    } else {
        lemma_all_fail_prefix(c, ts, k - 1);
        assert(!ts[k - 1].success);
    }
}

/// A command that always fails, in a run that stops at the first failure:
/// exactly one failure is recorded, one measured trial is consumed, and from
/// that trial on nothing more is asked for, so no later trial is dispatched.
pub proof fn lemma_stop_at_first_failure(c: RunConfig, ts: Seq<Trial>)
    requires
        c.total_runs >= 1,
        !c.continue_on_failure,
        ts.len() >= 2,
        forall|i: int| 0 <= i < ts.len() ==> !(#[trigger] ts[i].success),
    ensures
        forall|k: int|
            2 <= k <= ts.len() ==> {
                let s = #[trigger] run(c, ts.take(k));
                &&& s.failures.len() == 1
                &&& s.consumed == 1
                &&& is_done(c, s)
            },
{
    assert forall|k: int| 2 <= k <= ts.len() implies {
        let s = #[trigger] run(c, ts.take(k));
        &&& s.failures.len() == 1
        &&& s.consumed == 1
        &&& is_done(c, s)
    } by {
        lemma_all_fail_prefix(c, ts, k);
    }
}

/// A command that always fails, in a run that continues past failures: once
/// the warm-up and the configured number of trials have arrived, every run is
/// a recorded failure and the rate is 100.0%.
pub proof fn lemma_continue_records_all(c: RunConfig, ts: Seq<Trial>)
    requires
        c.total_runs >= 1,
        c.continue_on_failure,
        ts.len() >= c.total_runs + 1,
        forall|i: int| 0 <= i < ts.len() ==> !(#[trigger] ts[i].success),
    ensures
        run(c, ts).failures.len() == c.total_runs,
        rate_tenths(run(c, ts).failures.len(), c.total_runs) == 1000,
{
    lemma_all_fail_prefix(c, ts, ts.len() as int);
    assert(ts.take(ts.len() as int) =~= ts);
    let n = c.total_runs;
    assert((2000 * n + n) / (2 * n) == 1000) by {
        lemma_fundamental_div_mod((2000 * n + n) as int, (2 * n) as int);
        lemma_mod_pos_bound((2000 * n + n) as int, (2 * n) as int);
        let q = (2000 * n + n) as int / (2 * n) as int;
        let m = (2000 * n + n) as int % (2 * n) as int;
        assert(q == 1000) by (nonlinear_arith)
            requires 2000 * n + n == 2 * n * q + m, 0 <= m < 2 * n, n >= 1;
    }
}

/// The warm-up's outcome has no effect: whatever the warm-up trial, the
/// trials that follow it lead to the same state, and the warm-up alone
/// records no failure and consumes no run.
pub proof fn lemma_warm_up_discarded(c: RunConfig, w1: Trial, w2: Trial, ts: Seq<Trial>)
    ensures
        run(c, seq![w1] + ts) == run(c, seq![w2] + ts),
        run(c, seq![w1]).failures.len() == 0,
        run(c, seq![w1]).consumed == 0,
    decreases ts.len(),
{
    let (a1, a2) = (seq![w1], seq![w2]);
    assert(a1.drop_last() =~= Seq::<Trial>::empty());
    assert(a2.drop_last() =~= Seq::<Trial>::empty());
    assert(run(c, Seq::<Trial>::empty()) == initial_state());
    assert(a1.last() == w1 && a2.last() == w2);
    assert(run(c, a1) == step(c, initial_state(), w1));
    assert(run(c, a2) == step(c, initial_state(), w2));
    if ts.len() == 0 {
        assert(a1 + ts =~= a1);
        assert(a2 + ts =~= a2);
    } else {
        lemma_warm_up_discarded(c, w1, w2, ts.drop_last());
        assert((a1 + ts).drop_last() =~= a1 + ts.drop_last());
        assert((a2 + ts).drop_last() =~= a2 + ts.drop_last());
        assert((a1 + ts).last() == ts.last());
        assert((a2 + ts).last() == ts.last());
    }
}

/// The reported rate is the nearest tenth of a percent to
/// `failures / runs * 100`, and it is the only one.
pub proof fn lemma_rate_is_rounded(failures: nat, runs: nat, t: nat)
    requires
        runs > 0,
    ensures
        is_rounded_rate(failures, runs, rate_tenths(failures, runs)),
        is_rounded_rate(failures, runs, t) ==> t == rate_tenths(failures, runs),
{
    let x = (2000 * failures + runs) as int;
    let d = (2 * runs) as int;
    lemma_fundamental_div_mod(x, d);
    lemma_mod_pos_bound(x, d);
    let q = x / d;
    let m = x % d;
    assert(d * q <= x < d * (q + 1)) by (nonlinear_arith)
        requires x == d * q + m, 0 <= m < d;
    assert(q >= 0) by (nonlinear_arith)
        requires d * (q + 1) > x, x >= 0, d > 0;
    assert(2 * runs * q == d * q);
    assert(2 * runs * (q + 1) == d * (q + 1));
    if is_rounded_rate(failures, runs, t) {
        assert(t == q) by (nonlinear_arith)
            requires d * t <= x < d * (t + 1), d * q <= x < d * (q + 1), d > 0;
    }
}

} // verus!
