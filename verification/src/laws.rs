//! Laws of the simulation model, stated and proved once for all inputs.
//!
//! Each law is phrased over the spec functions of [`crate::sim`] that the
//! simulator's own contracts speak of, so it carries over directly to every
//! sequence the executable simulator returns.

use vstd::prelude::*;
use crate::calculator::{simulation_post, CalcError, PathYearlyData, ROICalculator};
use crate::models::PathCalculationParams;
use crate::sim::{lemma_state_step_monotone, spec_record, spec_state};
use crate::RATE_SCALE;

verus! {

/// Law: the cumulative cash, cumulative investment balance, cumulative
/// invested principal and cumulative cost paid never decrease across the
/// simulated sequence — contributions and returns are never negative, and
/// disposable income is clamped at zero from below.
pub proof fn lemma_cumulatives_monotone(
    p: PathCalculationParams,
    portion: int,
    rate: int,
    y1: nat,
    y2: nat,
)
    requires
        p.wf(),
        0 <= portion <= RATE_SCALE,
        rate >= 0,
        y1 <= y2,
    ensures
        spec_record(p, portion, rate, y1).cumulative_cash <= spec_record(
            p,
            portion,
            rate,
            y2,
        ).cumulative_cash,
        spec_record(p, portion, rate, y1).cumulative_investment_balance <= spec_record(
            p,
            portion,
            rate,
            y2,
        ).cumulative_investment_balance,
        spec_record(p, portion, rate, y1).cumulative_investment_principal <= spec_record(
            p,
            portion,
            rate,
            y2,
        ).cumulative_investment_principal,
        spec_state(p, portion, rate, y1).cost_paid <= spec_state(p, portion, rate, y2).cost_paid,
    decreases y2 - y1,
{
    if y1 < y2 {
        lemma_cumulatives_monotone(p, portion, rate, y1, (y2 - 1) as nat);
        lemma_state_step_monotone(p, portion, rate, y2);
    }
}

/// Law: every record's net worth equals its cumulative cash plus its
/// cumulative investment balance, minus the cumulative cost paid so far;
/// the subtraction term is zero when no one-time cost is configured.
pub proof fn lemma_net_worth_identity(
    p: PathCalculationParams,
    portion: int,
    rate: int,
    year: nat,
)
    ensures
        spec_record(p, portion, rate, year).net_worth == spec_record(
            p,
            portion,
            rate,
            year,
        ).cumulative_cash + spec_record(p, portion, rate, year).cumulative_investment_balance - (
        if p.total_cost_usd is Some {
            spec_state(p, portion, rate, year).cost_paid
        } else {
            0
        }),
{
}

/// A yearly record is determined by its mathematical view: two records that
/// agree on every modelled quantity are the same record.
pub proof fn lemma_record_determined_by_view(a: PathYearlyData, b: PathYearlyData)
    requires
        a@ == b@,
    ensures
        a == b,
{
    match (a.work_year, b.work_year) {
        (Some(x), Some(y)) => {
            assert(x == y);
        }
        (Some(_), None) => {
            assert(false);
        }
        (None, Some(_)) => {
            assert(false);
        }
        (None, None) => {}
    }
}

/// Law: the path simulation is deterministic. Any two results that its
/// contract admits for the same calculator and parameters are the same:
/// they succeed or fail together, fail with the same error, and on success
/// carry identical record sequences.
pub proof fn lemma_simulation_deterministic(
    c: ROICalculator,
    p: PathCalculationParams,
    r1: Result<Vec<PathYearlyData>, CalcError>,
    r2: Result<Vec<PathYearlyData>, CalcError>,
)
    requires
        simulation_post(c, p, r1),
        simulation_post(c, p, r2),
    ensures
        r1 is Ok <==> r2 is Ok,
        r1 is Err ==> r1 == r2,
        r1 matches Ok(v1) ==> r2 matches Ok(v2) && v1@.len() == v2@.len() && forall|i: int|
            0 <= i < v1@.len() ==> v1@[i] == v2@[i],
{
    if r1 is Ok {
        let v1 = r1->Ok_0;
        let v2 = r2->Ok_0;
        assert forall|i: int| 0 <= i < v1@.len() implies v1@[i] == v2@[i] by {
            lemma_record_determined_by_view(v1@[i], v2@[i]);
        }
    }
}

} // verus!
