//! The path simulation and comparison engine.
//!
//! [`ROICalculator`] carries the scalar knobs of an analysis (investment
//! split, annual return rate, horizon) together with the built-in
//! assumptions of the two legacy paths, and turns a
//! [`PathCalculationParams`] into a year-indexed series of
//! [`PathYearlyData`] records. Every record is proved equal to the
//! mathematical model in [`crate::sim`], and an [`CalcError::Overflow`] is
//! reported exactly when some year's value leaves the representable range.

use vstd::prelude::*;
use crate::math::{compound, lemma_muldiv_le, lemma_muldiv_nonneg, mul_div};
use crate::models::{PathCalculationParams, Profile};
use crate::sim::{
    fits_to, lemma_flows_nonneg, lemma_returns_nonneg, lemma_state_nonneg, ord_view,
    spec_alloc_cash, spec_alloc_contribution, spec_contribution, spec_cost_delta,
    spec_disposable, spec_gross, spec_living, spec_net, spec_net_worth, spec_record,
    spec_return_on_existing, spec_return_on_new, spec_state, spec_work_ordinal, year_fits,
    RecordModel, WorkStatus,
};
use crate::RATE_SCALE;

verus! {

/// Why a calculation could not produce a result.
#[derive(Debug, Clone, Copy, PartialEq, Eq, Structural)]
pub enum CalcError {
    /// Some year's amount left the representable range of cents.
    Overflow,
    /// A final figure was asked of an empty simulation horizon.
    NoData,
    /// A return on investment was asked against a cost basis of zero.
    ZeroCostBasis,
}

/// One simulated year: the per-year flow figures and the cumulative figures
/// after the year's updates. Amounts are cents; `net_worth` may be negative
/// while an amortized cost is not yet offset by income.
#[derive(Debug, Clone, Copy, PartialEq)]
pub struct PathYearlyData {
    /// 1-based simulation year.
    pub year: u32,
    /// Work-year ordinal, or `None` in a non-working year.
    pub work_year: Option<u32>,
    pub income_usd: u64,
    pub net_income_usd: u64,
    pub living_cost_usd: u64,
    pub disposable_income_usd: u64,
    pub cash_savings: u64,
    pub investment_amount: u64,
    pub investment_return: u64,
    pub total_investment: u64,
    pub total_investment_principal: u64,
    pub total_cash: u64,
    pub net_worth: i64,
}

impl View for PathYearlyData {
    type V = RecordModel;

    open spec fn view(&self) -> RecordModel {
        RecordModel {
            year: self.year as int,
            work_year: ord_view(self.work_year),
            gross_income: self.income_usd as int,
            net_income: self.net_income_usd as int,
            living_cost: self.living_cost_usd as int,
            disposable_income: self.disposable_income_usd as int,
            cash_saved: self.cash_savings as int,
            contribution: self.investment_amount as int,
            investment_return: self.investment_return as int,
            cumulative_investment_balance: self.total_investment as int,
            cumulative_investment_principal: self.total_investment_principal as int,
            cumulative_cash: self.total_cash as int,
            net_worth: self.net_worth as int,
        }
    }
}

/// One year of the built-in comparison between the two legacy paths.
#[derive(Debug, Clone, Copy, PartialEq)]
pub struct ComparisonData {
    pub year: u32,
    pub asu_data: PathYearlyData,
    pub shanghai_data: PathYearlyData,
}

/// One year of a comparison between two named profiles.
#[derive(Debug, Clone, PartialEq)]
pub struct ProfileComparisonData {
    pub year: u32,
    pub profile1_data: PathYearlyData,
    pub profile2_data: PathYearlyData,
    pub profile1_name: String,
    pub profile2_name: String,
}

/// The scalar knobs of an analysis, plus the built-in assumptions of the
/// two legacy paths (a two-year study path and an immediate-work path).
/// Amounts are cents; rates are basis points.
#[derive(Debug, Clone, Copy, PartialEq, Eq)]
pub struct ROICalculator {
    /// Exchange rate between the reference currency and the local one, in
    /// basis points; carried for reporting, never used by the simulation.
    pub exchange_rate: u32,
    /// Annual investment return rate.
    pub investment_return_rate: u32,
    /// Fraction of disposable income that is invested.
    pub investment_portion: u32,
    /// Years of study on the legacy study path.
    pub asu_duration: u32,
    /// Length of the analysis horizon in years.
    pub total_years: u32,
    /// Work-year cap on the legacy immediate-work path.
    pub shanghai_work_limit: u32,
    pub asu_total_cost_usd: u64,
    pub asu_initial_salary_usd: u64,
    pub asu_salary_growth_rate: u32,
    pub asu_living_cost_usd: u64,
    pub asu_living_cost_growth: u32,
    pub asu_tax_rate: u32,
    pub shanghai_initial_salary_usd: u64,
    pub shanghai_salary_growth: u32,
    pub shanghai_living_cost_usd: u64,
    pub shanghai_living_cost_growth: u32,
    pub shanghai_tax_rate: u32,
}

impl Default for ROICalculator {
    /// The documented default analysis: a 10-year horizon, 10% annual
    /// return, 20% of disposable income invested, and the built-in
    /// assumptions of the two legacy paths.
    fn default() -> (r: Self)
        ensures
            r == (ROICalculator {
                exchange_rate: 72000,
                investment_return_rate: 1000,
                investment_portion: 2000,
                asu_duration: 2,
                total_years: 10,
                shanghai_work_limit: 8,
                asu_total_cost_usd: 13108181,
                asu_initial_salary_usd: 9000000,
                asu_salary_growth_rate: 500,
                asu_living_cost_usd: 3500000,
                asu_living_cost_growth: 273,
                asu_tax_rate: 2800,
                shanghai_initial_salary_usd: 5555556,
                shanghai_salary_growth: 300,
                shanghai_living_cost_usd: 1666667,
                shanghai_living_cost_growth: 30,
                shanghai_tax_rate: 3000,
            }),
    {
        ROICalculator {
            exchange_rate: 72000,
            investment_return_rate: 1000,
            investment_portion: 2000,
            asu_duration: 2,
            total_years: 10,
            shanghai_work_limit: 8,
            asu_total_cost_usd: 13108181,
            asu_initial_salary_usd: 9000000,
            asu_salary_growth_rate: 500,
            asu_living_cost_usd: 3500000,
            asu_living_cost_growth: 273,
            asu_tax_rate: 2800,
            shanghai_initial_salary_usd: 5555556,
            shanghai_salary_growth: 300,
            shanghai_living_cost_usd: 1666667,
            shanghai_living_cost_growth: 30,
            shanghai_tax_rate: 3000,
        }
    }
}

impl ROICalculator {
    /// Whether the calculator can drive a simulation: the invested fraction
    /// of disposable income is at most the whole.
    pub open spec fn sim_wf(self) -> bool {
        self.investment_portion <= RATE_SCALE
    }

    /// Whether the built-in legacy paths are calculation-ready as well: the
    /// study duration amortizes the study cost over at least one year, and
    /// both tax rates are fractions of the whole.
    pub open spec fn legacy_wf(self) -> bool {
        &&& self.sim_wf()
        &&& self.asu_duration >= 1
        &&& self.asu_tax_rate <= RATE_SCALE
        &&& self.shanghai_tax_rate <= RATE_SCALE
    }

    /// The normalized parameters of the legacy study path: study for
    /// `asu_duration` years while the study cost amortizes, then work with
    /// no cap.
    pub open spec fn asu_params(self) -> PathCalculationParams {
        PathCalculationParams {
            work_start_delay: self.asu_duration,
            work_duration_limit: None,
            initial_salary_usd: self.asu_initial_salary_usd,
            salary_growth_rate: self.asu_salary_growth_rate,
            living_cost_usd: self.asu_living_cost_usd,
            living_cost_growth: self.asu_living_cost_growth,
            tax_rate: self.asu_tax_rate,
            total_cost_usd: Some(self.asu_total_cost_usd),
            cost_duration: Some(self.asu_duration),
            first_year_opportunity_cost: None,
        }
    }

    /// The normalized parameters of the legacy immediate-work path: work at
    /// once under a work-year cap, with the study cost of the other path
    /// deployed as a first-year opportunity-cost investment.
    pub open spec fn shanghai_params(self) -> PathCalculationParams {
        PathCalculationParams {
            work_start_delay: 0,
            work_duration_limit: Some(self.shanghai_work_limit),
            initial_salary_usd: self.shanghai_initial_salary_usd,
            salary_growth_rate: self.shanghai_salary_growth,
            living_cost_usd: self.shanghai_living_cost_usd,
            living_cost_growth: self.shanghai_living_cost_growth,
            tax_rate: self.shanghai_tax_rate,
            total_cost_usd: None,
            cost_duration: None,
            first_year_opportunity_cost: Some(self.asu_total_cost_usd),
        }
    }

    /// Decides `legacy_wf` at run time, so that unverified callers can test
    /// it before asking for a simulation.
    pub fn check(&self) -> (r: bool)
        ensures
            r == self.legacy_wf(),
    {
        (self.investment_portion as u64) <= RATE_SCALE && self.asu_duration >= 1
            && (self.asu_tax_rate as u64) <= RATE_SCALE
            && (self.shanghai_tax_rate as u64) <= RATE_SCALE
    }

    /// The work-year ordinal of `year` under `params`, or `None` in a
    /// non-working year.
    pub fn get_work_year(&self, year: u32, params: &PathCalculationParams) -> (r: Option<u32>)
        ensures
            ord_view(r) == spec_work_ordinal(*params, year as int),
    {
        match WorkStatus::resolve(year, params) {
            WorkStatus::Working(k) => Some(k),
            WorkStatus::NotWorking => None,
        }
    }

    /// Computes the gross income, after-tax income, living cost and
    /// disposable income of one year, advancing the amortized-cost
    /// accumulator when a one-time cost amortizes in a non-working year.
    ///
    /// Fails exactly when the year's gross income, its living cost, or the
    /// advanced accumulator leaves the `u64` range; the accumulator is left
    /// unchanged on failure.
    pub fn calculate_year_finances(
        &self,
        year: u32,
        work_year: Option<u32>,
        params: &PathCalculationParams,
        total_cost_paid: &mut u64,
    ) -> (r: Result<(u64, u64, u64, u64), CalcError>)
        requires
            params.wf(),
            year >= 1,
            ord_view(work_year) == spec_work_ordinal(*params, year as int),
        ensures
            r is Ok <==> {
                &&& spec_gross(*params, year as int) <= u64::MAX
                &&& spec_living(*params, year as int) <= u64::MAX
                &&& *old(total_cost_paid) + spec_cost_delta(*params, year as int) <= u64::MAX
            },
            r matches Ok(t) ==> {
                &&& t.0 == spec_gross(*params, year as int)
                &&& t.1 == spec_net(*params, year as int)
                &&& t.2 == spec_living(*params, year as int)
                &&& t.3 == spec_disposable(*params, year as int)
                &&& *final(total_cost_paid) == *old(total_cost_paid) + spec_cost_delta(
                    *params,
                    year as int,
                )
            },
            r is Err ==> {
                &&& *final(total_cost_paid) == *old(total_cost_paid)
                &&& r == Err::<(u64, u64, u64, u64), CalcError>(CalcError::Overflow)
            },
    {
        match work_year {
            Some(k) => {
                let salary = match compound(
                    params.initial_salary_usd,
                    params.salary_growth_rate,
                    k - 1,
                ) {
                    Some(v) => v,
                    None => {
                        return Err(CalcError::Overflow);
                    }
                };
                let living_cost = match compound(
                    params.living_cost_usd,
                    params.living_cost_growth,
                    year - 1,
                ) {
                    Some(v) => v,
                    None => {
                        return Err(CalcError::Overflow);
                    }
                };
                proof {
                    lemma_muldiv_le(
                        salary as int,
                        RATE_SCALE - params.tax_rate,
                        RATE_SCALE as int,
                    );
                    lemma_muldiv_nonneg(
                        salary as int,
                        RATE_SCALE - params.tax_rate,
                        RATE_SCALE as int,
                    );
                }
                let net_income = match mul_div(
                    salary,
                    RATE_SCALE - params.tax_rate as u64,
                    RATE_SCALE,
                ) {
                    Some(v) => v,
                    None => {
                        return Err(CalcError::Overflow);
                    }
                };
                let disposable = if net_income >= living_cost {
                    net_income - living_cost
                } else {
                    0
                };
                Ok((salary, net_income, living_cost, disposable))
            }
            None => {
                match (params.total_cost_usd, params.cost_duration) {
                    (Some(total_cost), Some(duration)) => {
                        proof {
                            vstd::arithmetic::div_mod::lemma_div_pos_is_pos(
                                total_cost as int,
                                duration as int,
                            );
                        }
                        let annual_cost = total_cost / (duration as u64);
                        let new_paid = match total_cost_paid.checked_add(annual_cost) {
                            Some(v) => v,
                            None => {
                                return Err(CalcError::Overflow);
                            }
                        };
                        let base_living = match compound(
                            params.living_cost_usd,
                            params.living_cost_growth,
                            year - 1,
                        ) {
                            Some(v) => v,
                            None => {
                                return Err(CalcError::Overflow);
                            }
                        };
                        let living_cost = match base_living.checked_add(annual_cost) {
                            Some(v) => v,
                            None => {
                                return Err(CalcError::Overflow);
                            }
                        };
                        *total_cost_paid = new_paid;
                        Ok((0, 0, living_cost, 0))
                    }
                    _ => Ok((0, 0, 0, 0)),
                }
            }
        }
    }

    /// Splits `disposable_income` between an investment contribution and
    /// cash savings; in year one a configured opportunity-cost amount is
    /// added to the contribution (and to it alone).
    ///
    /// Fails exactly when the contribution leaves the `u64` range.
    pub fn calculate_investment_allocation(
        &self,
        year: u32,
        disposable_income: u64,
        params: &PathCalculationParams,
    ) -> (r: Result<(u64, u64), CalcError>)
        requires
            self.sim_wf(),
        ensures
            r is Ok <==> spec_alloc_contribution(
                disposable_income as int,
                self.investment_portion as int,
                params.first_year_opportunity_cost,
                year as int,
            ) <= u64::MAX,
            r matches Ok(t) ==> {
                &&& t.0 == spec_alloc_contribution(
                    disposable_income as int,
                    self.investment_portion as int,
                    params.first_year_opportunity_cost,
                    year as int,
                )
                &&& t.1 == spec_alloc_cash(
                    disposable_income as int,
                    self.investment_portion as int,
                )
            },
            r is Err ==> r == Err::<(u64, u64), CalcError>(CalcError::Overflow),
    {
        proof {
            lemma_muldiv_le(
                disposable_income as int,
                self.investment_portion as int,
                RATE_SCALE as int,
            );
            lemma_muldiv_nonneg(
                disposable_income as int,
                self.investment_portion as int,
                RATE_SCALE as int,
            );
        }
        let base = match mul_div(disposable_income, self.investment_portion as u64, RATE_SCALE) {
            Some(v) => v,
            None => {
                return Err(CalcError::Overflow);
            }
        };
        let cash_savings = disposable_income - base;
        let investment_amount = match (year, params.first_year_opportunity_cost) {
            (1, Some(opportunity_cost)) => {
                match base.checked_add(opportunity_cost) {
                    Some(v) => v,
                    None => {
                        return Err(CalcError::Overflow);
                    }
                }
            }
            _ => base,
        };
        Ok((investment_amount, cash_savings))
    }

    /// Computes the return earned in a year: a full year of return on the
    /// balance carried from prior years, and half a year of return on this
    /// year's new contribution (approximating even monthly deployment).
    ///
    /// Fails exactly when either component leaves the `u64` range.
    pub fn calculate_investment_returns(
        &self,
        existing_investment: u64,
        new_investment: u64,
    ) -> (r: Result<(u64, u64), CalcError>)
        ensures
            r is Ok <==> {
                &&& spec_return_on_existing(
                    existing_investment as int,
                    self.investment_return_rate as int,
                ) <= u64::MAX
                &&& spec_return_on_new(
                    new_investment as int,
                    self.investment_return_rate as int,
                ) <= u64::MAX
            },
            r matches Ok(t) ==> {
                &&& t.0 == spec_return_on_existing(
                    existing_investment as int,
                    self.investment_return_rate as int,
                )
                &&& t.1 == spec_return_on_new(
                    new_investment as int,
                    self.investment_return_rate as int,
                )
            },
            r is Err ==> r == Err::<(u64, u64), CalcError>(CalcError::Overflow),
    {
        let existing_return = match mul_div(
            existing_investment,
            self.investment_return_rate as u64,
            RATE_SCALE,
        ) {
            Some(v) => v,
            None => {
                return Err(CalcError::Overflow);
            }
        };
        let new_return = match mul_div(
            new_investment,
            self.investment_return_rate as u64,
            2 * RATE_SCALE,
        ) {
            Some(v) => v,
            None => {
                return Err(CalcError::Overflow);
            }
        };
        Ok((existing_return, new_return))
    }

    /// Net worth from the cumulative totals: cash plus investment balance,
    /// less the amortized cost paid when a one-time cost is configured.
    ///
    /// Fails exactly when the result leaves the `i64` range.
    pub fn calculate_net_worth(
        &self,
        total_cash: u64,
        total_investment: u64,
        total_cost_paid: u64,
        has_costs: bool,
    ) -> (r: Result<i64, CalcError>)
        ensures
            ({
                let w = total_cash + total_investment - if has_costs {
                    total_cost_paid as int
                } else {
                    0
                };
                &&& (r is Ok <==> i64::MIN <= w <= i64::MAX)
                &&& (r matches Ok(v) ==> v == w)
                &&& (r is Err ==> r == Err::<i64, CalcError>(CalcError::Overflow))
            }),
    {
        let wide: i128 = total_cash as i128 + total_investment as i128 - if has_costs {
            total_cost_paid as i128
        } else {
            0
        };
        if i64::MIN as i128 <= wide && wide <= i64::MAX as i128 {
            Ok(wide as i64)
        } else {
            Err(CalcError::Overflow)
        }
    }
}

/// What the path simulation promises of its result: success exactly when
/// the whole horizon stays representable, and on success one record per
/// year, equal to the model's record for that year.
pub open spec fn simulation_post(
    c: ROICalculator,
    p: PathCalculationParams,
    r: Result<Vec<PathYearlyData>, CalcError>,
) -> bool {
    let portion = c.investment_portion as int;
    let rate = c.investment_return_rate as int;
    &&& (r is Ok <==> fits_to(p, portion, rate, c.total_years as nat))
    &&& (r matches Ok(v) ==> {
        &&& v@.len() == c.total_years
        &&& forall|i: int|
            0 <= i < v@.len() ==> (#[trigger] v@[i])@ == spec_record(
                p,
                portion,
                rate,
                (i + 1) as nat,
            )
    })
    &&& (r is Err ==> r == Err::<Vec<PathYearlyData>, CalcError>(CalcError::Overflow))
}

impl ROICalculator {
    /// Simulates one path across the whole horizon: for each year from 1 to
    /// `total_years`, resolves the work status, computes the year's income
    /// and cost, splits disposable income into contribution and cash,
    /// credits the investment return earned on the balance carried from
    /// prior years (plus half a year on the new contribution), updates the
    /// cumulative totals, and emits one record.
    ///
    /// Returns exactly `total_years` records matching the model in
    /// [`crate::sim`], or an overflow error exactly when some year's value
    /// leaves the representable range.
    #[verifier::loop_isolation(false)]
    pub fn calculate_path_data(&self, params: &PathCalculationParams) -> (r: Result<
        Vec<PathYearlyData>,
        CalcError,
    >)
        requires
            params.wf(),
            self.sim_wf(),
        ensures
            simulation_post(*self, *params, r),
            r matches Ok(v) ==> forall|i: int|
                0 <= i < v@.len() ==> (#[trigger] v@[i]).year == i + 1,
    {
        let ghost p = *params;
        let ghost portion = self.investment_portion as int;
        let ghost rate = self.investment_return_rate as int;
        let ghost n = self.total_years as nat;

        let mut results: Vec<PathYearlyData> = Vec::new();
        let mut total_cash: u64 = 0;
        let mut total_investment: u64 = 0;
        let mut total_investment_principal: u64 = 0;
        let mut total_cost_paid: u64 = 0;
        let mut year: u64 = 1;

        while year <= self.total_years as u64
            invariant
                1 <= year <= self.total_years + 1,
                total_cash == spec_state(p, portion, rate, (year - 1) as nat).cash,
                total_investment == spec_state(p, portion, rate, (year - 1) as nat).invest,
                total_investment_principal == spec_state(
                    p,
                    portion,
                    rate,
                    (year - 1) as nat,
                ).principal,
                total_cost_paid == spec_state(p, portion, rate, (year - 1) as nat).cost_paid,
                results@.len() == year - 1,
                forall|i: int|
                    0 <= i < results@.len() ==> (#[trigger] results@[i])@ == spec_record(
                        p,
                        portion,
                        rate,
                        (i + 1) as nat,
                    ),
                fits_to(p, portion, rate, (year - 1) as nat),
            decreases self.total_years + 1 - year,
        {
            let ghost y = year as nat;
            let ghost prev = spec_state(p, portion, rate, (y - 1) as nat);
            proof {
                lemma_state_nonneg(p, portion, rate, (y - 1) as nat);
                lemma_flows_nonneg(p, portion, year as int);
                lemma_returns_nonneg(prev.invest, spec_contribution(p, portion, year as int), rate);
            }

            let work_year = self.get_work_year(year as u32, params);
            let (income_usd, net_income_usd, living_cost_usd, disposable_income_usd) = match self
                .calculate_year_finances(year as u32, work_year, params, &mut total_cost_paid) {
                Ok(t) => t,
                Err(_) => {
                    proof {
                        assert(!year_fits(p, portion, rate, y));
                        if fits_to(p, portion, rate, n) {
                            assert(year_fits(p, portion, rate, y));
                        }
                    }
                    return Err(CalcError::Overflow);
                }
            };

            let (investment_amount, cash_savings) = match self.calculate_investment_allocation(
                year as u32,
                disposable_income_usd,
                params,
            ) {
                Ok(t) => t,
                Err(_) => {
                    proof {
                        assert(!year_fits(p, portion, rate, y));
                        if fits_to(p, portion, rate, n) {
                            assert(year_fits(p, portion, rate, y));
                        }
                    }
                    return Err(CalcError::Overflow);
                }
            };

            let (existing_return, new_investment_return) = match self.calculate_investment_returns(
                total_investment,
                investment_amount,
            ) {
                Ok(t) => t,
                Err(_) => {
                    proof {
                        assert(!year_fits(p, portion, rate, y));
                        if fits_to(p, portion, rate, n) {
                            assert(year_fits(p, portion, rate, y));
                        }
                    }
                    return Err(CalcError::Overflow);
                }
            };

            let total_return = match existing_return.checked_add(new_investment_return) {
                Some(v) => v,
                None => {
                    proof {
                        assert(!year_fits(p, portion, rate, y));
                        if fits_to(p, portion, rate, n) {
                            assert(year_fits(p, portion, rate, y));
                        }
                    }
                    return Err(CalcError::Overflow);
                }
            };

            let invest_mid = match total_investment.checked_add(total_return) {
                Some(v) => v,
                None => {
                    proof {
                        assert(!year_fits(p, portion, rate, y));
                        if fits_to(p, portion, rate, n) {
                            assert(year_fits(p, portion, rate, y));
                        }
                    }
                    return Err(CalcError::Overflow);
                }
            };
            let new_total_investment = match invest_mid.checked_add(investment_amount) {
                Some(v) => v,
                None => {
                    proof {
                        assert(!year_fits(p, portion, rate, y));
                        if fits_to(p, portion, rate, n) {
                            assert(year_fits(p, portion, rate, y));
                        }
                    }
                    return Err(CalcError::Overflow);
                }
            };
            let new_principal = match total_investment_principal.checked_add(investment_amount) {
                Some(v) => v,
                None => {
                    proof {
                        assert(!year_fits(p, portion, rate, y));
                        if fits_to(p, portion, rate, n) {
                            assert(year_fits(p, portion, rate, y));
                        }
                    }
                    return Err(CalcError::Overflow);
                }
            };
            let new_cash = match total_cash.checked_add(cash_savings) {
                Some(v) => v,
                None => {
                    proof {
                        assert(!year_fits(p, portion, rate, y));
                        if fits_to(p, portion, rate, n) {
                            assert(year_fits(p, portion, rate, y));
                        }
                    }
                    return Err(CalcError::Overflow);
                }
            };

            total_investment = new_total_investment;
            total_investment_principal = new_principal;
            total_cash = new_cash;

            let net_worth = match self.calculate_net_worth(
                total_cash,
                total_investment,
                total_cost_paid,
                params.total_cost_usd.is_some(),
            ) {
                Ok(v) => v,
                Err(_) => {
                    proof {
                        assert(!year_fits(p, portion, rate, y));
                        if fits_to(p, portion, rate, n) {
                            assert(year_fits(p, portion, rate, y));
                        }
                    }
                    return Err(CalcError::Overflow);
                }
            };

            results.push(
                PathYearlyData {
                    year: year as u32,
                    work_year,
                    income_usd,
                    net_income_usd,
                    living_cost_usd,
                    disposable_income_usd,
                    cash_savings,
                    investment_amount,
                    investment_return: total_return,
                    total_investment,
                    total_investment_principal,
                    total_cash,
                    net_worth,
                },
            );

            proof {
                assert(year_fits(p, portion, rate, y));
                assert forall|yy: nat| 1 <= yy <= y implies #[trigger] year_fits(
                    p,
                    portion,
                    rate,
                    yy,
                ) by {
                    if yy < y {
                        assert(year_fits(p, portion, rate, yy));
                    }
                }
                assert(results@[year - 1]@ == spec_record(p, portion, rate, y));
            }
            year = year + 1;
        }
        Ok(results)
    }
}

/// Truncating scaled division `a * b / d` for a possibly negative `a`,
/// rounding toward zero as the executable computation does.
pub open spec fn muldiv_trunc(a: int, b: int, d: int) -> int {
    if a >= 0 {
        a * b / d
    } else {
        -((-a) * b / d)
    }
}

/// Whether `x` fits in the `i64` range.
pub open spec fn in_i64(x: int) -> bool {
    i64::MIN <= x <= i64::MAX
}

/// The return on investment of a path, scaled by [`RATE_SCALE`]: net worth
/// re-expressed as a multiple of the capital deployed. When the path
/// carries a one-time cost, that cost basis is added back first, because
/// net worth already subtracted it.
pub open spec fn spec_roi(net_worth: int, cost_basis: int, add_basis: bool) -> int {
    if add_basis {
        muldiv_trunc(net_worth + cost_basis, RATE_SCALE as int, cost_basis)
    } else {
        muldiv_trunc(net_worth, RATE_SCALE as int, cost_basis)
    }
}

/// The cost basis ROI is measured against for the first profile of a
/// comparison: its one-time cost, or one whole currency unit when it has
/// none.
pub open spec fn spec_profile1_cost_basis(p1: PathCalculationParams) -> int {
    match p1.total_cost_usd {
        Some(c) => c as int,
        None => 100,
    }
}

/// The cost basis for the second profile: its one-time cost, or the first
/// profile's basis as a shared denominator when only one side has a cost.
pub open spec fn spec_profile2_cost_basis(
    p1: PathCalculationParams,
    p2: PathCalculationParams,
) -> int {
    match p2.total_cost_usd {
        Some(c) => c as int,
        None => spec_profile1_cost_basis(p1),
    }
}

/// Computes [`spec_roi`] exactly, reporting an overflow when the scaled
/// quotient leaves the `i64` range.
fn roi_scaled(net_worth: i64, cost_basis: u64, add_basis: bool) -> (r: Result<i64, CalcError>)
    requires
        cost_basis > 0,
    ensures
        r is Ok <==> in_i64(spec_roi(net_worth as int, cost_basis as int, add_basis)),
        r matches Ok(v) ==> v == spec_roi(net_worth as int, cost_basis as int, add_basis),
        r is Err ==> r == Err::<i64, CalcError>(CalcError::Overflow),
{
    let numerator: i128 = if add_basis {
        net_worth as i128 + cost_basis as i128
    } else {
        net_worth as i128
    };
    let negative = numerator < 0;
    let magnitude: u128 = if negative {
        (-numerator) as u128
    } else {
        numerator as u128
    };
    proof {
        lemma_muldiv_nonneg(magnitude as int, RATE_SCALE as int, cost_basis as int);
        vstd::arithmetic::mul::lemma_mul_upper_bound(
            magnitude as int,
            0x3_0000_0000_0000_0000,
            RATE_SCALE as int,
            RATE_SCALE as int,
        );
    }
    let scaled: u128 = magnitude * (RATE_SCALE as u128);
    let quotient: u128 = scaled / (cost_basis as u128);
    if negative {
        if quotient <= (i64::MAX as u128) + 1 {
            proof {
                assert(spec_roi(net_worth as int, cost_basis as int, add_basis)
                    == -(quotient as int));
            }
            if quotient == (i64::MAX as u128) + 1 {
                Ok(i64::MIN)
            } else {
                Ok(-(quotient as i64))
            }
        } else {
            Err(CalcError::Overflow)
        }
    } else {
        if quotient <= i64::MAX as u128 {
            Ok(quotient as i64)
        } else {
            Err(CalcError::Overflow)
        }
    }
}

/// What a comparison of two named profiles promises: success exactly when
/// both trajectories stay representable, and on success one paired record
/// per year, carrying both paths' records for that year and the two
/// profiles' names.
pub open spec fn comparison_post(
    c: ROICalculator,
    p1: PathCalculationParams,
    p2: PathCalculationParams,
    name1: Seq<char>,
    name2: Seq<char>,
    r: Result<Vec<ProfileComparisonData>, CalcError>,
) -> bool {
    let portion = c.investment_portion as int;
    let rate = c.investment_return_rate as int;
    let n = c.total_years as nat;
    &&& (r is Ok <==> fits_to(p1, portion, rate, n) && fits_to(p2, portion, rate, n))
    &&& (r matches Ok(v) ==> {
        &&& v@.len() == c.total_years
        &&& forall|i: int|
            0 <= i < v@.len() ==> {
                let cd = #[trigger] v@[i];
                &&& cd.year == i + 1
                &&& cd.profile1_data@ == spec_record(p1, portion, rate, (i + 1) as nat)
                &&& cd.profile2_data@ == spec_record(p2, portion, rate, (i + 1) as nat)
                &&& cd.profile1_name@ == name1
                &&& cd.profile2_name@ == name2
            }
    })
    &&& (r is Err ==> r == Err::<Vec<ProfileComparisonData>, CalcError>(CalcError::Overflow))
}

/// What the built-in legacy comparison promises: as [`comparison_post`],
/// over the two built-in parameter sets.
pub open spec fn legacy_comparison_post(
    c: ROICalculator,
    r: Result<Vec<ComparisonData>, CalcError>,
) -> bool {
    let portion = c.investment_portion as int;
    let rate = c.investment_return_rate as int;
    let n = c.total_years as nat;
    &&& (r is Ok <==> fits_to(c.asu_params(), portion, rate, n) && fits_to(
        c.shanghai_params(),
        portion,
        rate,
        n,
    ))
    &&& (r matches Ok(v) ==> {
        &&& v@.len() == c.total_years
        &&& forall|i: int|
            0 <= i < v@.len() ==> {
                let cd = #[trigger] v@[i];
                &&& cd.year == i + 1
                &&& cd.asu_data@ == spec_record(c.asu_params(), portion, rate, (i + 1) as nat)
                &&& cd.shanghai_data@ == spec_record(
                    c.shanghai_params(),
                    portion,
                    rate,
                    (i + 1) as nat,
                )
            }
    })
    &&& (r is Err ==> r == Err::<Vec<ComparisonData>, CalcError>(CalcError::Overflow))
}

impl ROICalculator {
    /// Simulates the legacy study path: study for `asu_duration` years
    /// while the study cost amortizes, then work with no cap.
    pub fn calculate_asu_path(&self) -> (r: Result<Vec<PathYearlyData>, CalcError>)
        requires
            self.legacy_wf(),
        ensures
            simulation_post(*self, self.asu_params(), r),
    {
        let params = PathCalculationParams {
            work_start_delay: self.asu_duration,
            work_duration_limit: None,
            initial_salary_usd: self.asu_initial_salary_usd,
            salary_growth_rate: self.asu_salary_growth_rate,
            living_cost_usd: self.asu_living_cost_usd,
            living_cost_growth: self.asu_living_cost_growth,
            tax_rate: self.asu_tax_rate,
            total_cost_usd: Some(self.asu_total_cost_usd),
            cost_duration: Some(self.asu_duration),
            first_year_opportunity_cost: None,
        };
        self.calculate_path_data(&params)
    }

    /// Simulates the legacy immediate-work path: work at once under a
    /// work-year cap, with the other path's study cost deployed as a
    /// first-year opportunity-cost investment.
    pub fn calculate_shanghai_path(&self) -> (r: Result<Vec<PathYearlyData>, CalcError>)
        requires
            self.legacy_wf(),
        ensures
            simulation_post(*self, self.shanghai_params(), r),
    {
        let params = PathCalculationParams {
            work_start_delay: 0,
            work_duration_limit: Some(self.shanghai_work_limit),
            initial_salary_usd: self.shanghai_initial_salary_usd,
            salary_growth_rate: self.shanghai_salary_growth,
            living_cost_usd: self.shanghai_living_cost_usd,
            living_cost_growth: self.shanghai_living_cost_growth,
            tax_rate: self.shanghai_tax_rate,
            total_cost_usd: None,
            cost_duration: None,
            first_year_opportunity_cost: Some(self.asu_total_cost_usd),
        };
        self.calculate_path_data(&params)
    }

    /// Simulates the path a profile describes.
    pub fn calculate_profile_path(&self, profile: &Profile) -> (r: Result<
        Vec<PathYearlyData>,
        CalcError,
    >)
        requires
            self.sim_wf(),
            profile.wf(),
        ensures
            simulation_post(*self, profile.spec_path_params(), r),
    {
        let params = profile.to_path_params();
        self.calculate_path_data(&params)
    }

    /// Simulates both profiles over the same horizon and pairs their
    /// records year by year.
    #[verifier::loop_isolation(false)]
    pub fn compare_profiles(&self, profile1: &Profile, profile2: &Profile) -> (r: Result<
        Vec<ProfileComparisonData>,
        CalcError,
    >)
        requires
            self.sim_wf(),
            profile1.wf(),
            profile2.wf(),
        ensures
            comparison_post(
                *self,
                profile1.spec_path_params(),
                profile2.spec_path_params(),
                profile1.name@,
                profile2.name@,
                r,
            ),
    {
        let data1 = match self.calculate_profile_path(profile1) {
            Ok(v) => v,
            Err(e) => {
                return Err(e);
            }
        };
        let data2 = match self.calculate_profile_path(profile2) {
            Ok(v) => v,
            Err(e) => {
                return Err(e);
            }
        };
        let ghost p1 = profile1.spec_path_params();
        let ghost p2 = profile2.spec_path_params();
        let mut results: Vec<ProfileComparisonData> = Vec::new();
        let mut i: usize = 0;
        while i < data1.len()
            invariant
                i <= data1@.len(),
                results@.len() == i,
                forall|j: int|
                    0 <= j < results@.len() ==> {
                        let cd = #[trigger] results@[j];
                        &&& cd.year == j + 1
                        &&& cd.profile1_data@ == spec_record(
                            p1,
                            self.investment_portion as int,
                            self.investment_return_rate as int,
                            (j + 1) as nat,
                        )
                        &&& cd.profile2_data@ == spec_record(
                            p2,
                            self.investment_portion as int,
                            self.investment_return_rate as int,
                            (j + 1) as nat,
                        )
                        &&& cd.profile1_name@ == profile1.name@
                        &&& cd.profile2_name@ == profile2.name@
                    },
            decreases data1@.len() - i,
        {
            results.push(
                ProfileComparisonData {
                    year: data1[i].year,
                    profile1_data: data1[i],
                    profile2_data: data2[i],
                    profile1_name: profile1.name.clone(),
                    profile2_name: profile2.name.clone(),
                },
            );
            i = i + 1;
        }
        Ok(results)
    }

    /// Pairs the two built-in legacy paths' records year by year.
    #[verifier::loop_isolation(false)]
    pub fn calculate_roi(&self) -> (r: Result<Vec<ComparisonData>, CalcError>)
        requires
            self.legacy_wf(),
        ensures
            legacy_comparison_post(*self, r),
    {
        let asu_data = match self.calculate_asu_path() {
            Ok(v) => v,
            Err(e) => {
                return Err(e);
            }
        };
        let shanghai_data = match self.calculate_shanghai_path() {
            Ok(v) => v,
            Err(e) => {
                return Err(e);
            }
        };
        let mut results: Vec<ComparisonData> = Vec::new();
        let mut i: usize = 0;
        while i < asu_data.len()
            invariant
                i <= asu_data@.len(),
                results@.len() == i,
                forall|j: int|
                    0 <= j < results@.len() ==> {
                        let cd = #[trigger] results@[j];
                        &&& cd.year == j + 1
                        &&& cd.asu_data@ == spec_record(
                            self.asu_params(),
                            self.investment_portion as int,
                            self.investment_return_rate as int,
                            (j + 1) as nat,
                        )
                        &&& cd.shanghai_data@ == spec_record(
                            self.shanghai_params(),
                            self.investment_portion as int,
                            self.investment_return_rate as int,
                            (j + 1) as nat,
                        )
                    },
            decreases asu_data@.len() - i,
        {
            results.push(
                ComparisonData {
                    year: asu_data[i].year,
                    asu_data: asu_data[i],
                    shanghai_data: shanghai_data[i],
                },
            );
            i = i + 1;
        }
        Ok(results)
    }

    /// The final scaled return of both legacy paths and their difference.
    /// The study path's net worth is measured against its study cost with
    /// that cost added back; the immediate-work path's net worth is
    /// measured against the same cost without add-back.
    pub fn calculate_final_roi(&self) -> (r: Result<(i64, i64, i64), CalcError>)
        requires
            self.legacy_wf(),
        ensures
            ({
                let portion = self.investment_portion as int;
                let rate = self.investment_return_rate as int;
                let n = self.total_years as nat;
                let fits = fits_to(self.asu_params(), portion, rate, n) && fits_to(
                    self.shanghai_params(),
                    portion,
                    rate,
                    n,
                );
                let roi1 = spec_roi(
                    spec_net_worth(self.asu_params(), portion, rate, n),
                    self.asu_total_cost_usd as int,
                    true,
                );
                let roi2 = spec_roi(
                    spec_net_worth(self.shanghai_params(), portion, rate, n),
                    self.asu_total_cost_usd as int,
                    false,
                );
                &&& (r is Ok <==> self.total_years > 0 && fits && self.asu_total_cost_usd > 0
                    && in_i64(roi1) && in_i64(roi2) && in_i64(roi2 - roi1))
                &&& (r matches Ok(t) ==> t.0 == roi1 && t.1 == roi2 && t.2 == roi2 - roi1)
                &&& (self.total_years == 0 ==> r == Err::<(i64, i64, i64), CalcError>(
                    CalcError::NoData,
                ))
                &&& (self.total_years > 0 && !fits ==> r == Err::<(i64, i64, i64), CalcError>(
                    CalcError::Overflow,
                ))
                &&& (self.total_years > 0 && fits && self.asu_total_cost_usd == 0 ==> r == Err::<
                    (i64, i64, i64),
                    CalcError,
                >(CalcError::ZeroCostBasis))
                &&& (self.total_years > 0 && fits && self.asu_total_cost_usd > 0 && !(in_i64(roi1)
                    && in_i64(roi2) && in_i64(roi2 - roi1)) ==> r == Err::<
                    (i64, i64, i64),
                    CalcError,
                >(CalcError::Overflow))
            }),
    {
        if self.total_years == 0 {
            return Err(CalcError::NoData);
        }
        let results = match self.calculate_roi() {
            Ok(v) => v,
            Err(_) => {
                return Err(CalcError::Overflow);
            }
        };
        if self.asu_total_cost_usd == 0 {
            return Err(CalcError::ZeroCostBasis);
        }
        let final_data = &results[results.len() - 1];
        let asu_roi = match roi_scaled(
            final_data.asu_data.net_worth,
            self.asu_total_cost_usd,
            true,
        ) {
            Ok(v) => v,
            Err(e) => {
                return Err(e);
            }
        };
        let shanghai_roi = match roi_scaled(
            final_data.shanghai_data.net_worth,
            self.asu_total_cost_usd,
            false,
        ) {
            Ok(v) => v,
            Err(e) => {
                return Err(e);
            }
        };
        let roi_difference = match shanghai_roi.checked_sub(asu_roi) {
            Some(v) => v,
            None => {
                return Err(CalcError::Overflow);
            }
        };
        Ok((asu_roi, shanghai_roi, roi_difference))
    }

    /// The final scaled return of both profiles' paths and their
    /// difference. Each path with a one-time cost is measured against its
    /// own cost with add-back; a path without one is measured against the
    /// other path's cost basis, defaulting to one whole currency unit when
    /// neither has a cost.
    pub fn calculate_profile_final_roi(&self, profile1: &Profile, profile2: &Profile) -> (r:
        Result<(i64, i64, i64), CalcError>)
        requires
            self.sim_wf(),
            profile1.wf(),
            profile2.wf(),
        ensures
            ({
                let p1 = profile1.spec_path_params();
                let p2 = profile2.spec_path_params();
                let portion = self.investment_portion as int;
                let rate = self.investment_return_rate as int;
                let n = self.total_years as nat;
                let fits = fits_to(p1, portion, rate, n) && fits_to(p2, portion, rate, n);
                let basis1 = spec_profile1_cost_basis(p1);
                let basis2 = spec_profile2_cost_basis(p1, p2);
                let roi1 = spec_roi(
                    spec_net_worth(p1, portion, rate, n),
                    basis1,
                    p1.total_cost_usd is Some,
                );
                let roi2 = spec_roi(
                    spec_net_worth(p2, portion, rate, n),
                    basis2,
                    p2.total_cost_usd is Some,
                );
                &&& (r is Ok <==> self.total_years > 0 && fits && basis1 > 0 && basis2 > 0
                    && in_i64(roi1) && in_i64(roi2) && in_i64(roi2 - roi1))
                &&& (r matches Ok(t) ==> t.0 == roi1 && t.1 == roi2 && t.2 == roi2 - roi1)
                &&& (self.total_years == 0 ==> r == Err::<(i64, i64, i64), CalcError>(
                    CalcError::NoData,
                ))
                &&& (self.total_years > 0 && !fits ==> r == Err::<(i64, i64, i64), CalcError>(
                    CalcError::Overflow,
                ))
                &&& (self.total_years > 0 && fits && !(basis1 > 0 && basis2 > 0) ==> r == Err::<
                    (i64, i64, i64),
                    CalcError,
                >(CalcError::ZeroCostBasis))
                &&& (self.total_years > 0 && fits && basis1 > 0 && basis2 > 0 && !(in_i64(roi1)
                    && in_i64(roi2) && in_i64(roi2 - roi1)) ==> r == Err::<
                    (i64, i64, i64),
                    CalcError,
                >(CalcError::Overflow))
            }),
    {
        if self.total_years == 0 {
            return Err(CalcError::NoData);
        }
        let results = match self.compare_profiles(profile1, profile2) {
            Ok(v) => v,
            Err(_) => {
                return Err(CalcError::Overflow);
            }
        };
        let profile1_cost_basis = match profile1.cost_params {
            Some(c) => c.total_cost_usd,
            None => 100,
        };
        let profile2_cost_basis = match profile2.cost_params {
            Some(c) => c.total_cost_usd,
            None => profile1_cost_basis,
        };
        if profile1_cost_basis == 0 || profile2_cost_basis == 0 {
            return Err(CalcError::ZeroCostBasis);
        }
        let final_data = &results[results.len() - 1];
        let roi1 = match roi_scaled(
            final_data.profile1_data.net_worth,
            profile1_cost_basis,
            profile1.cost_params.is_some(),
        ) {
            Ok(v) => v,
            Err(e) => {
                return Err(e);
            }
        };
        let roi2 = match roi_scaled(
            final_data.profile2_data.net_worth,
            profile2_cost_basis,
            profile2.cost_params.is_some(),
        ) {
            Ok(v) => v,
            Err(e) => {
                return Err(e);
            }
        };
        let roi_difference = match roi2.checked_sub(roi1) {
            Some(v) => v,
            None => {
                return Err(CalcError::Overflow);
            }
        };
        Ok((roi1, roi2, roi_difference))
    }
}

/// Whether the first path has caught up with the second at row `i`: its
/// net worth meets or exceeds the other's.
pub open spec fn spec_catches_up(results: Seq<ProfileComparisonData>, i: int) -> bool {
    results[i].profile1_data.net_worth >= results[i].profile2_data.net_worth
}

/// The first year at which the first profile's net worth meets or exceeds
/// the second's, or `None` when it never catches up within the horizon.
pub fn break_even_year(results: &Vec<ProfileComparisonData>) -> (r: Option<u32>)
    ensures
        r matches Some(y) ==> exists|i: int| {
            &&& 0 <= i < results@.len()
            &&& #[trigger] spec_catches_up(results@, i)
            &&& y == results@[i].year
            &&& forall|j: int| 0 <= j < i ==> !spec_catches_up(results@, j)
        },
        r is None ==> forall|i: int| 0 <= i < results@.len() ==> !spec_catches_up(results@, i),
{
    let mut i: usize = 0;
    while i < results.len()
        invariant
            i <= results@.len(),
            forall|j: int| 0 <= j < i ==> !spec_catches_up(results@, j),
        decreases results@.len() - i,
    {
        if results[i].profile1_data.net_worth >= results[i].profile2_data.net_worth {
            let year = results[i].year;
            proof {
                assert(spec_catches_up(results@, i as int));
            }
            return Some(year);
        }
        proof {
            assert(!spec_catches_up(results@, i as int));
        }
        i = i + 1;
    }
    None
}


} // verus!
