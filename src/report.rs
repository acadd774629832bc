//! The failure rate and the layout of the final report.
use vstd::prelude::*;
use vstd::arithmetic::div_mod::{lemma_fundamental_div_mod, lemma_mod_pos_bound};
use crate::model::{rate_tenths, is_rounded_rate};

verus! {

/// The failure rate of `failures` failed trials out of `runs`, in tenths of a
/// percent rounded to the nearest tenth: `500` stands for `50.0%`.
pub fn failure_rate_tenths(failures: u64, runs: u64) -> (r: u64)
    requires
        runs > 0,
        failures <= runs,
    ensures
        r == rate_tenths(failures as nat, runs as nat),
        is_rounded_rate(failures as nat, runs as nat, r as nat),
        r <= 1000,
{
    let num: u128 = 2000 * (failures as u128) + (runs as u128);
    let den: u128 = 2 * (runs as u128);
    let q: u128 = num / den;
    proof {
        let (x, d) = (num as int, den as int);
        lemma_fundamental_div_mod(x, d);
        lemma_mod_pos_bound(x, d);
        let (qi, m) = (x / d, x % d);
        assert(d * qi <= x < d * (qi + 1)) by (nonlinear_arith)
            requires x == d * qi + m, 0 <= m < d;
        assert(qi <= 1000) by (nonlinear_arith)
            requires d * qi <= x, x == 2000 * failures + runs, d == 2 * runs, failures <= runs, runs > 0;
        assert(2 * runs * qi == d * qi);
        assert(2 * runs * (qi + 1) == d * (qi + 1));
    }
    q as u64
}

/// One piece of the final report, in printing order.
#[derive(Debug, PartialEq, Eq, Structural)]
pub enum ReportPiece {
    /// No failure was found.
    Success,
    /// The overall failure rate, in tenths of a percent.
    Header(u64),
    /// The captured standard output, then standard error, of the failure at this position.
    Output(usize),
    /// The banner between the outputs of two consecutive failures.
    Separator,
}

/// The outputs of the first `k` failures, a separator between consecutive ones.
pub open spec fn output_pieces(k: nat) -> Seq<ReportPiece>
    decreases k,
{
    if k == 0 {
        Seq::empty()
    } else if k == 1 {
        seq![ReportPiece::Output(0)]
    } else {
        output_pieces((k - 1) as nat) + seq![ReportPiece::Separator, ReportPiece::Output((k - 1) as usize)]
    }
}

/// The report of a run with `failures` failures at the given rate: a success
/// line if there are none, else the rate followed by each failure's output.
pub open spec fn report_pieces(failures: nat, rate: u64) -> Seq<ReportPiece> {
    if failures == 0 {
        seq![ReportPiece::Success]
    } else {
        seq![ReportPiece::Header(rate)] + output_pieces(failures)
    }
}

/// Lays out the report of a run with `failures` failures at the given rate.
pub fn report_layout(failures: usize, rate: u64) -> (r: Vec<ReportPiece>)
    ensures
        r@ == report_pieces(failures as nat, rate),
{
    if failures == 0 {
        return vec![ReportPiece::Success];
    }
    let mut r: Vec<ReportPiece> = vec![ReportPiece::Header(rate), ReportPiece::Output(0)];
    let mut k: usize = 1;
    assert(r@ == seq![ReportPiece::Header(rate)] + output_pieces(1));
    while k < failures
        invariant
            1 <= k <= failures,
            r@ == seq![ReportPiece::Header(rate)] + output_pieces(k as nat),
        decreases failures - k,
    {
        r.push(ReportPiece::Separator);
        r.push(ReportPiece::Output(k));
        k = k + 1;
        assert(r@ == seq![ReportPiece::Header(rate)] + output_pieces(k as nat));
    }
    r
}

} // verus!
