//! Tests of the path simulator: record shape, scenario outcomes, the
//! cumulative invariants, and determinism.
//!
//! Amounts are integer cents; rates are basis points (10000 = 100%).

use roi_calculator::calculator::{CalcError, ROICalculator};
use roi_calculator::models::PathCalculationParams;

fn calculator(total_years: u32, investment_portion: u32, investment_return_rate: u32) -> ROICalculator {
    ROICalculator {
        total_years,
        investment_portion,
        investment_return_rate,
        ..ROICalculator::default()
    }
}

fn plain_params() -> PathCalculationParams {
    PathCalculationParams {
        work_start_delay: 0,
        work_duration_limit: None,
        initial_salary_usd: 6_000_000,
        salary_growth_rate: 0,
        living_cost_usd: 3_000_000,
        living_cost_growth: 0,
        tax_rate: 2000,
        total_cost_usd: None,
        cost_duration: None,
        first_year_opportunity_cost: None,
    }
}

#[test]
fn simulation_emits_one_record_per_year_in_order() {
    let calc = calculator(7, 2000, 1000);
    let records = calc.calculate_path_data(&plain_params()).unwrap();
    assert_eq!(records.len(), 7);
    for (i, record) in records.iter().enumerate() {
        assert_eq!(record.year as usize, i + 1);
    }
}

#[test]
fn empty_horizon_yields_empty_sequence() {
    let calc = calculator(0, 2000, 1000);
    let records = calc.calculate_path_data(&plain_params()).unwrap();
    assert!(records.is_empty());
}

#[test]
fn cumulative_totals_never_decrease() {
    let mut params = plain_params();
    params.salary_growth_rate = 700;
    params.living_cost_growth = 300;
    params.total_cost_usd = Some(4_000_000);
    params.cost_duration = Some(2);
    params.work_start_delay = 2;
    let calc = calculator(12, 3000, 800);
    let records = calc.calculate_path_data(&params).unwrap();
    for pair in records.windows(2) {
        assert!(pair[0].total_cash <= pair[1].total_cash);
        assert!(pair[0].total_investment <= pair[1].total_investment);
        assert!(pair[0].total_investment_principal <= pair[1].total_investment_principal);
    }
}

#[test]
fn net_worth_identity_holds_for_every_record() {
    let mut params = plain_params();
    params.work_start_delay = 2;
    params.total_cost_usd = Some(10_000_000);
    params.cost_duration = Some(2);
    let calc = calculator(6, 5000, 1000);
    let records = calc.calculate_path_data(&params).unwrap();
    let mut cost_paid: u64 = 0;
    for record in &records {
        if record.work_year.is_none() {
            cost_paid += 10_000_000 / 2;
        }
        let expected = record.total_cash as i128 + record.total_investment as i128
            - cost_paid as i128;
        assert_eq!(record.net_worth as i128, expected);
    }
}

#[test]
fn simulation_is_deterministic() {
    let mut params = plain_params();
    params.salary_growth_rate = 500;
    params.living_cost_growth = 250;
    let calc = calculator(20, 2000, 1000);
    let first = calc.calculate_path_data(&params).unwrap();
    let second = calc.calculate_path_data(&params).unwrap();
    assert_eq!(first, second);
}

#[test]
fn retirement_style_path_stays_at_zero() {
    let mut params = plain_params();
    params.work_start_delay = 10;
    let calc = calculator(5, 5000, 1000);
    let records = calc.calculate_path_data(&params).unwrap();
    assert_eq!(records.len(), 5);
    for record in &records {
        assert_eq!(record.work_year, None);
        assert_eq!(record.income_usd, 0);
        assert_eq!(record.net_income_usd, 0);
        assert_eq!(record.living_cost_usd, 0);
        assert_eq!(record.disposable_income_usd, 0);
        assert_eq!(record.investment_amount, 0);
        assert_eq!(record.net_worth, 0);
    }
}

#[test]
fn immediate_work_without_growth_accumulates_linearly() {
    let calc = calculator(3, 5000, 0);
    let records = calc.calculate_path_data(&plain_params()).unwrap();
    for (i, record) in records.iter().enumerate() {
        let k = (i + 1) as u64;
        assert_eq!(record.work_year, Some(i as u32 + 1));
        assert_eq!(record.income_usd, 6_000_000);
        assert_eq!(record.net_income_usd, 4_800_000);
        assert_eq!(record.living_cost_usd, 3_000_000);
        assert_eq!(record.disposable_income_usd, 1_800_000);
        assert_eq!(record.investment_amount, 900_000);
        assert_eq!(record.cash_savings, 900_000);
        assert_eq!(record.investment_return, 0);
        assert_eq!(record.total_investment, 900_000 * k);
        assert_eq!(record.total_cash, 900_000 * k);
        assert_eq!(record.net_worth, 1_800_000 * k as i64);
    }
}

#[test]
fn salary_compounds_on_work_year() {
    let mut params = plain_params();
    params.salary_growth_rate = 500;
    let calc = calculator(3, 5000, 0);
    let records = calc.calculate_path_data(&params).unwrap();
    assert_eq!(records[0].income_usd, 6_000_000);
    assert_eq!(records[1].income_usd, 6_300_000);
    assert_eq!(records[2].income_usd, 6_615_000);
}

#[test]
fn one_time_cost_amortizes_over_study_years() {
    let mut params = plain_params();
    params.work_start_delay = 2;
    params.total_cost_usd = Some(10_000_000);
    params.cost_duration = Some(2);
    let calc = calculator(3, 5000, 0);
    let records = calc.calculate_path_data(&params).unwrap();

    // Years 1-2: studying; the living cost carries the amortized charge and
    // net worth goes negative until work begins.
    for record in &records[0..2] {
        assert_eq!(record.work_year, None);
        assert_eq!(record.income_usd, 0);
        assert_eq!(record.living_cost_usd, 3_000_000 + 5_000_000);
        assert_eq!(record.disposable_income_usd, 0);
    }
    assert_eq!(records[0].net_worth, -5_000_000);
    assert_eq!(records[1].net_worth, -10_000_000);

    // Year 3: the first work year.
    assert_eq!(records[2].work_year, Some(1));
    assert_eq!(records[2].income_usd, 6_000_000);
    assert_eq!(records[2].net_income_usd, 4_800_000);
    assert_eq!(records[2].investment_amount, 900_000);
    assert_eq!(records[2].net_worth, 900_000 + 900_000 - 10_000_000);
}

#[test]
fn first_year_opportunity_cost_adds_to_contribution_only() {
    let mut params = plain_params();
    params.first_year_opportunity_cost = Some(2_000_000);
    let calc = calculator(2, 5000, 0);
    let records = calc.calculate_path_data(&params).unwrap();

    // Year 1: the add-on goes to the contribution in full; cash savings
    // exclude it.
    assert_eq!(records[0].investment_amount, 900_000 + 2_000_000);
    assert_eq!(records[0].cash_savings, 900_000);

    // Year 2: back to the ordinary split.
    assert_eq!(records[1].investment_amount, 900_000);
    assert_eq!(records[1].cash_savings, 900_000);
}

#[test]
fn returns_credit_full_year_on_balance_and_half_on_new_money() {
    let calc = calculator(2, 5000, 1000);
    let records = calc.calculate_path_data(&plain_params()).unwrap();

    // Year 1: no carried balance; 900_000 new money earns half of 10%.
    assert_eq!(records[0].investment_return, 45_000);
    assert_eq!(records[0].total_investment, 945_000);

    // Year 2: the carried 945_000 earns 10%; the new 900_000 earns 5%.
    assert_eq!(records[1].investment_return, 94_500 + 45_000);
    assert_eq!(records[1].total_investment, 945_000 + 900_000 + 94_500 + 45_000);
}

#[test]
fn work_duration_limit_caps_working_years() {
    let mut params = plain_params();
    params.work_duration_limit = Some(2);
    let calc = calculator(4, 5000, 0);
    let records = calc.calculate_path_data(&params).unwrap();
    assert_eq!(records[0].work_year, Some(1));
    assert_eq!(records[1].work_year, Some(2));
    assert_eq!(records[2].work_year, None);
    assert_eq!(records[3].work_year, None);
    assert_eq!(records[2].income_usd, 0);
}

#[test]
fn oversized_contribution_reports_overflow() {
    let mut params = plain_params();
    params.first_year_opportunity_cost = Some(u64::MAX);
    let calc = calculator(3, 5000, 0);
    assert_eq!(calc.calculate_path_data(&params), Err(CalcError::Overflow));
}

#[test]
fn runaway_compounding_reports_overflow() {
    let mut params = plain_params();
    params.initial_salary_usd = u64::MAX / 2;
    params.salary_growth_rate = 10000;
    let calc = calculator(8, 5000, 0);
    assert_eq!(calc.calculate_path_data(&params), Err(CalcError::Overflow));
}
