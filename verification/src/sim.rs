//! The mathematical model of one simulated path.
//!
//! Every quantity the simulator computes is defined here as a spec function
//! of the path parameters, the investment split, the annual return rate and
//! the 1-based year, over the unbounded integers. The executable simulator
//! in [`crate::calculator`] is proved to produce exactly these values, and
//! to report an overflow exactly when some year's value leaves the
//! representable range ([`year_fits`], [`fits_to`]).

use vstd::prelude::*;
use crate::math::{
    compounded, lemma_compounded_nonneg, lemma_muldiv_le, lemma_muldiv_nonneg, muldiv,
};
use crate::models::PathCalculationParams;
use crate::RATE_SCALE;
use vstd::arithmetic::div_mod::lemma_div_pos_is_pos;

verus! {

/// Work status of one simulation year: either the 1-based ordinal of the
/// year within active employment, or not working (studying, retired, or
/// past the work-duration cap).
#[derive(Debug, Clone, Copy, PartialEq, Eq, Structural)]
pub enum WorkStatus {
    Working(u32),
    NotWorking,
}

impl WorkStatus {
    /// Decides whether `year` is a working year under `params`, and which
    /// work-year ordinal it is.
    pub fn resolve(year: u32, params: &PathCalculationParams) -> (r: WorkStatus)
        ensures
            r matches WorkStatus::Working(k) ==> spec_work_ordinal(*params, year as int)
                == Some(k as int),
            r is NotWorking ==> spec_work_ordinal(*params, year as int) is None,
    {
        if year > params.work_start_delay {
            let ordinal = year - params.work_start_delay;
            match params.work_duration_limit {
                Some(limit) => {
                    if ordinal > limit {
                        WorkStatus::NotWorking
                    } else {
                        WorkStatus::Working(ordinal)
                    }
                }
                None => WorkStatus::Working(ordinal),
            }
        } else {
            WorkStatus::NotWorking
        }
    }

    /// The ordinal as an optional value, as the yearly records carry it.
    pub fn ordinal(&self) -> (r: Option<u32>)
        ensures
            r == (match *self {
                WorkStatus::Working(k) => Some(k),
                WorkStatus::NotWorking => None::<u32>,
            }),
    {
        match self {
            WorkStatus::Working(k) => Some(*k),
            WorkStatus::NotWorking => None,
        }
    }
}

/// An optional work-year ordinal, widened to the unbounded integers.
pub open spec fn ord_view(o: Option<u32>) -> Option<int> {
    match o {
        Some(k) => Some(k as int),
        None => None,
    }
}

/// The work-year ordinal of `year` (1-based), or `None` when the subject is
/// not working that year: before the start delay has passed, or past the
/// work-duration cap.
pub open spec fn spec_work_ordinal(p: PathCalculationParams, year: int) -> Option<int> {
    if year > p.work_start_delay {
        let ordinal = year - p.work_start_delay;
        match p.work_duration_limit {
            Some(limit) => if ordinal > limit {
                None
            } else {
                Some(ordinal)
            },
            None => Some(ordinal),
        }
    } else {
        None
    }
}

/// The flat annual charge while a one-time cost amortizes; zero when no
/// one-time cost is configured.
pub open spec fn spec_annual_cost(p: PathCalculationParams) -> int {
    if p.total_cost_usd is Some && p.cost_duration is Some {
        p.total_cost_usd->0 as int / p.cost_duration->0 as int
    } else {
        0
    }
}

/// Gross income of `year`: the initial salary compounded once per completed
/// work year, and zero in a non-working year.
pub open spec fn spec_gross(p: PathCalculationParams, year: int) -> int {
    match spec_work_ordinal(p, year) {
        Some(k) => compounded(
            p.initial_salary_usd as int,
            p.salary_growth_rate as int,
            (k - 1) as nat,
        ),
        None => 0,
    }
}

/// The base living cost of `year`: the initial living cost compounded once
/// per completed calendar year (growth compounds on calendar year, not
/// work year).
pub open spec fn spec_base_living(p: PathCalculationParams, year: int) -> int {
    compounded(p.living_cost_usd as int, p.living_cost_growth as int, (year - 1) as nat)
}

/// Living cost of `year`: the compounded base cost while working; the base
/// cost plus the amortized one-time cost in a non-working year with a
/// one-time cost configured; zero in a non-working year without one.
pub open spec fn spec_living(p: PathCalculationParams, year: int) -> int {
    if spec_work_ordinal(p, year) is Some {
        spec_base_living(p, year)
    } else if p.total_cost_usd is Some && p.cost_duration is Some {
        spec_base_living(p, year) + spec_annual_cost(p)
    } else {
        0
    }
}

/// After-tax income of `year`: gross income less the tax fraction, and zero
/// in a non-working year.
pub open spec fn spec_net(p: PathCalculationParams, year: int) -> int {
    if spec_work_ordinal(p, year) is Some {
        muldiv(spec_gross(p, year), RATE_SCALE - p.tax_rate, RATE_SCALE as int)
    } else {
        0
    }
}

/// Disposable income of `year`: after-tax income less living cost, floored
/// at zero; zero in a non-working year.
pub open spec fn spec_disposable(p: PathCalculationParams, year: int) -> int {
    if spec_work_ordinal(p, year) is Some {
        if spec_net(p, year) >= spec_living(p, year) {
            spec_net(p, year) - spec_living(p, year)
        } else {
            0
        }
    } else {
        0
    }
}

/// What the amortization accumulator grows by in `year`: the annual charge
/// in a non-working year with a one-time cost configured, else zero.
///
/// Deliberately, the charge is not capped at the declared amortization
/// horizon: every non-working year keeps charging the same flat amount,
/// so a non-working phase longer than `cost_duration` pays more than the
/// total one-time cost. This mirrors the model's chosen behavior rather
/// than silently bounding it.
pub open spec fn spec_cost_delta(p: PathCalculationParams, year: int) -> int {
    if spec_work_ordinal(p, year) is None && p.total_cost_usd is Some && p.cost_duration is Some {
        spec_annual_cost(p)
    } else {
        0
    }
}

/// The investment contribution made out of `disposable`: the configured
/// fraction of it, plus the whole first-year opportunity-cost amount when
/// `year` is 1 and one is configured.
pub open spec fn spec_alloc_contribution(
    disposable: int,
    portion: int,
    opportunity_cost: Option<u64>,
    year: int,
) -> int {
    let base = muldiv(disposable, portion, RATE_SCALE as int);
    if year == 1 && opportunity_cost is Some {
        base + opportunity_cost->0
    } else {
        base
    }
}

/// The cash saved out of `disposable`: what the investment fraction leaves
/// behind. The opportunity-cost add-on is new investment capital, not saved
/// cash, so it does not appear here.
pub open spec fn spec_alloc_cash(disposable: int, portion: int) -> int {
    disposable - muldiv(disposable, portion, RATE_SCALE as int)
}

/// The contribution of `year` under parameters `p`.
pub open spec fn spec_contribution(p: PathCalculationParams, portion: int, year: int) -> int {
    spec_alloc_contribution(
        spec_disposable(p, year),
        portion,
        p.first_year_opportunity_cost,
        year,
    )
}

/// The cash saved in `year` under parameters `p`.
pub open spec fn spec_cash_saved(p: PathCalculationParams, portion: int, year: int) -> int {
    spec_alloc_cash(spec_disposable(p, year), portion)
}

/// Return earned by the balance carried from prior years: a full year of
/// return on it.
pub open spec fn spec_return_on_existing(prior_balance: int, rate: int) -> int {
    muldiv(prior_balance, rate, RATE_SCALE as int)
}

/// Return earned by this year's new contribution: half a year of return,
/// approximating an even intra-year deployment schedule.
pub open spec fn spec_return_on_new(contribution: int, rate: int) -> int {
    muldiv(contribution, rate, 2 * RATE_SCALE as int)
}

/// The cumulative state carried across years: total cash, total investment
/// balance, total invested principal, and total amortized cost paid.
pub struct SimState {
    pub cash: int,
    pub invest: int,
    pub principal: int,
    pub cost_paid: int,
}

/// The cumulative state after `year` years; all four totals start at zero.
/// Each year's investment return is computed on the balance *before* that
/// year's contribution is added.
pub open spec fn spec_state(
    p: PathCalculationParams,
    portion: int,
    rate: int,
    year: nat,
) -> SimState
    decreases year,
{
    if year == 0 {
        SimState { cash: 0, invest: 0, principal: 0, cost_paid: 0 }
    } else {
        let prev = spec_state(p, portion, rate, (year - 1) as nat);
        let contribution = spec_contribution(p, portion, year as int);
        let ret = spec_return_on_existing(prev.invest, rate) + spec_return_on_new(
            contribution,
            rate,
        );
        SimState {
            cash: prev.cash + spec_cash_saved(p, portion, year as int),
            invest: prev.invest + ret + contribution,
            principal: prev.principal + contribution,
            cost_paid: prev.cost_paid + spec_cost_delta(p, year as int),
        }
    }
}

/// The total investment return earned in `year` (existing plus new).
pub open spec fn spec_total_return(
    p: PathCalculationParams,
    portion: int,
    rate: int,
    year: nat,
) -> int
    recommends
        year >= 1,
{
    spec_return_on_existing(spec_state(p, portion, rate, (year - 1) as nat).invest, rate)
        + spec_return_on_new(spec_contribution(p, portion, year as int), rate)
}

/// Net worth after `year` years: cash plus investment balance, less the
/// amortized cost paid so far when a one-time cost is configured.
pub open spec fn spec_net_worth(
    p: PathCalculationParams,
    portion: int,
    rate: int,
    year: nat,
) -> int {
    let s = spec_state(p, portion, rate, year);
    s.cash + s.invest - if p.total_cost_usd is Some {
        s.cost_paid
    } else {
        0
    }
}

/// One yearly record of the model: the per-year flow figures and the
/// post-update cumulative figures, over the unbounded integers.
pub struct RecordModel {
    pub year: int,
    pub work_year: Option<int>,
    pub gross_income: int,
    pub net_income: int,
    pub living_cost: int,
    pub disposable_income: int,
    pub cash_saved: int,
    pub contribution: int,
    pub investment_return: int,
    pub cumulative_investment_balance: int,
    pub cumulative_investment_principal: int,
    pub cumulative_cash: int,
    pub net_worth: int,
}

/// The record the simulator owes for `year` (1-based).
pub open spec fn spec_record(
    p: PathCalculationParams,
    portion: int,
    rate: int,
    year: nat,
) -> RecordModel {
    let s = spec_state(p, portion, rate, year);
    RecordModel {
        year: year as int,
        work_year: spec_work_ordinal(p, year as int),
        gross_income: spec_gross(p, year as int),
        net_income: spec_net(p, year as int),
        living_cost: spec_living(p, year as int),
        disposable_income: spec_disposable(p, year as int),
        cash_saved: spec_cash_saved(p, portion, year as int),
        contribution: spec_contribution(p, portion, year as int),
        investment_return: spec_total_return(p, portion, rate, year),
        cumulative_investment_balance: s.invest,
        cumulative_investment_principal: s.principal,
        cumulative_cash: s.cash,
        net_worth: spec_net_worth(p, portion, rate, year),
    }
}

/// Whether every quantity of `year` stays representable: flows and totals
/// within the `u64` cents range, and net worth within the `i64` range.
pub open spec fn year_fits(
    p: PathCalculationParams,
    portion: int,
    rate: int,
    year: nat,
) -> bool {
    let s = spec_state(p, portion, rate, year);
    &&& spec_gross(p, year as int) <= u64::MAX
    &&& spec_living(p, year as int) <= u64::MAX
    &&& spec_contribution(p, portion, year as int) <= u64::MAX
    &&& spec_total_return(p, portion, rate, year) <= u64::MAX
    &&& s.invest <= u64::MAX
    &&& s.principal <= u64::MAX
    &&& s.cash <= u64::MAX
    &&& s.cost_paid <= u64::MAX
    &&& i64::MIN <= spec_net_worth(p, portion, rate, year) <= i64::MAX
}

/// Whether the whole horizon of `n` years stays representable.
pub open spec fn fits_to(p: PathCalculationParams, portion: int, rate: int, n: nat) -> bool {
    forall|y: nat| 1 <= y <= n ==> #[trigger] year_fits(p, portion, rate, y)
}

/// All per-year flow quantities are non-negative for calculation-ready
/// parameters: contributions and returns are never negative, and disposable
/// income is clamped at zero from below.
pub proof fn lemma_flows_nonneg(p: PathCalculationParams, portion: int, year: int)
    requires
        p.wf(),
        0 <= portion <= RATE_SCALE,
        year >= 1,
    ensures
        spec_gross(p, year) >= 0,
        spec_net(p, year) >= 0,
        spec_net(p, year) <= spec_gross(p, year),
        spec_living(p, year) >= 0,
        spec_base_living(p, year) >= 0,
        spec_annual_cost(p) >= 0,
        spec_disposable(p, year) >= 0,
        spec_cost_delta(p, year) >= 0,
        spec_contribution(p, portion, year) >= 0,
        spec_contribution(p, portion, year) >= muldiv(
            spec_disposable(p, year),
            portion,
            RATE_SCALE as int,
        ),
        spec_cash_saved(p, portion, year) >= 0,
        spec_cash_saved(p, portion, year) <= spec_disposable(p, year),
{
    lemma_compounded_nonneg(
        p.living_cost_usd as int,
        p.living_cost_growth as int,
        (year - 1) as nat,
    );
    if p.total_cost_usd is Some && p.cost_duration is Some {
        lemma_div_pos_is_pos(p.total_cost_usd->0 as int, p.cost_duration->0 as int);
    }
    match spec_work_ordinal(p, year) {
        Some(k) => {
            lemma_compounded_nonneg(
                p.initial_salary_usd as int,
                p.salary_growth_rate as int,
                (k - 1) as nat,
            );
            lemma_muldiv_nonneg(spec_gross(p, year), RATE_SCALE - p.tax_rate, RATE_SCALE as int);
            lemma_muldiv_le(spec_gross(p, year), RATE_SCALE - p.tax_rate, RATE_SCALE as int);
        }
        None => {}
    }
    lemma_muldiv_nonneg(spec_disposable(p, year), portion, RATE_SCALE as int);
    lemma_muldiv_le(spec_disposable(p, year), portion, RATE_SCALE as int);
}

/// Both return components are non-negative on non-negative inputs.
pub proof fn lemma_returns_nonneg(prior_balance: int, contribution: int, rate: int)
    requires
        prior_balance >= 0,
        contribution >= 0,
        rate >= 0,
    ensures
        spec_return_on_existing(prior_balance, rate) >= 0,
        spec_return_on_new(contribution, rate) >= 0,
{
    lemma_muldiv_nonneg(prior_balance, rate, RATE_SCALE as int);
    lemma_muldiv_nonneg(contribution, rate, 2 * RATE_SCALE as int);
}

/// All four cumulative totals are non-negative for calculation-ready
/// parameters.
pub proof fn lemma_state_nonneg(p: PathCalculationParams, portion: int, rate: int, year: nat)
    requires
        p.wf(),
        0 <= portion <= RATE_SCALE,
        rate >= 0,
    ensures
        spec_state(p, portion, rate, year).cash >= 0,
        spec_state(p, portion, rate, year).invest >= 0,
        spec_state(p, portion, rate, year).principal >= 0,
        spec_state(p, portion, rate, year).cost_paid >= 0,
    decreases year,
{
    if year > 0 {
        lemma_state_nonneg(p, portion, rate, (year - 1) as nat);
        lemma_flows_nonneg(p, portion, year as int);
        lemma_returns_nonneg(
            spec_state(p, portion, rate, (year - 1) as nat).invest,
            spec_contribution(p, portion, year as int),
            rate,
        );
    }
}

/// The cumulative totals never decrease from one year to the next.
pub proof fn lemma_state_step_monotone(
    p: PathCalculationParams,
    portion: int,
    rate: int,
    year: nat,
)
    requires
        p.wf(),
        0 <= portion <= RATE_SCALE,
        rate >= 0,
        year >= 1,
    ensures
        spec_state(p, portion, rate, (year - 1) as nat).cash <= spec_state(
            p,
            portion,
            rate,
            year,
        ).cash,
        spec_state(p, portion, rate, (year - 1) as nat).invest <= spec_state(
            p,
            portion,
            rate,
            year,
        ).invest,
        spec_state(p, portion, rate, (year - 1) as nat).principal <= spec_state(
            p,
            portion,
            rate,
            year,
        ).principal,
        spec_state(p, portion, rate, (year - 1) as nat).cost_paid <= spec_state(
            p,
            portion,
            rate,
            year,
        ).cost_paid,
{
    lemma_state_nonneg(p, portion, rate, (year - 1) as nat);
    lemma_flows_nonneg(p, portion, year as int);
    lemma_returns_nonneg(
        spec_state(p, portion, rate, (year - 1) as nat).invest,
        spec_contribution(p, portion, year as int),
        rate,
    );
}

} // verus!
