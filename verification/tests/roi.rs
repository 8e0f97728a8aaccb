//! Tests of the comparison engine: paired records, final ROI figures with
//! their scaled values, the break-even search, and the error variants.
//!
//! ROI values are scaled by 10000: a returned 15000 means 1.5x.

use roi_calculator::calculator::{
    break_even_year, CalcError, PathYearlyData, ProfileComparisonData, ROICalculator,
};
use roi_calculator::models::{
    CostParams, FinancialParams, Location, Profile, ProfileType, WorkParams,
};

fn location() -> Location {
    Location {
        country: "United States".to_string(),
        city: None,
        currency: "USD".to_string(),
    }
}

/// A profile that nets exactly 1_000_000 cents of disposable income per
/// working year, with no growth and no tax.
fn steady_profile(name: &str) -> Profile {
    Profile::new(
        name.to_string(),
        ProfileType::Work,
        location(),
        WorkParams { start_delay: 0, duration_limit: None },
        FinancialParams {
            initial_salary_usd: 5_000_000,
            salary_growth_rate: 0,
            living_cost_usd: 4_000_000,
            living_cost_growth: 0,
            tax_rate: 0,
        },
    )
}

fn calculator(total_years: u32, investment_portion: u32, investment_return_rate: u32) -> ROICalculator {
    ROICalculator {
        total_years,
        investment_portion,
        investment_return_rate,
        ..ROICalculator::default()
    }
}

#[test]
fn comparison_pairs_records_by_year() {
    let p1 = steady_profile("first");
    let p2 = steady_profile("second");
    let calc = calculator(4, 5000, 0);
    let rows = calc.compare_profiles(&p1, &p2).unwrap();
    assert_eq!(rows.len(), 4);
    for (i, row) in rows.iter().enumerate() {
        assert_eq!(row.year as usize, i + 1);
        assert_eq!(row.profile1_data.year, row.profile2_data.year);
        assert_eq!(row.profile1_name, "first");
        assert_eq!(row.profile2_name, "second");
    }
}

#[test]
fn final_roi_adds_cost_basis_back() {
    // Path one carries a 100000-unit one-time cost (10_000_000 cents) that
    // never amortizes because every year is a working year, and ends with a
    // net worth of 50000 units (5_000_000 cents) after five years of
    // 10000-unit disposable income. Its ROI is (50000 + 100000) / 100000 =
    // 1.5, scaled to 15000.
    let p1 = steady_profile("costly").with_cost_params(CostParams {
        total_cost_usd: 10_000_000,
        cost_duration: 1,
    });
    let p2 = steady_profile("plain");
    let calc = calculator(5, 5000, 0);
    let (roi1, roi2, difference) = calc.calculate_profile_final_roi(&p1, &p2).unwrap();
    assert_eq!(roi1, 15000);
    // Path two has no cost of its own and is measured against the other
    // path's basis without add-back: 50000 / 100000 = 0.5.
    assert_eq!(roi2, 5000);
    assert_eq!(difference, roi2 - roi1);
}

#[test]
fn final_roi_on_empty_horizon_reports_no_data() {
    let p1 = steady_profile("a");
    let p2 = steady_profile("b");
    let calc = calculator(0, 5000, 0);
    assert_eq!(calc.calculate_profile_final_roi(&p1, &p2), Err(CalcError::NoData));
    let legacy = ROICalculator { total_years: 0, ..ROICalculator::default() };
    assert_eq!(legacy.calculate_final_roi(), Err(CalcError::NoData));
}

#[test]
fn final_roi_against_zero_cost_reports_zero_cost_basis() {
    let p1 = steady_profile("zero-cost").with_cost_params(CostParams {
        total_cost_usd: 0,
        cost_duration: 1,
    });
    let p2 = steady_profile("other");
    let calc = calculator(5, 5000, 0);
    assert_eq!(calc.calculate_profile_final_roi(&p1, &p2), Err(CalcError::ZeroCostBasis));
}

#[test]
fn final_roi_propagates_overflow() {
    let mut p1 = steady_profile("huge");
    p1.first_year_opportunity_cost = Some(u64::MAX);
    let p2 = steady_profile("plain");
    let calc = calculator(5, 10000, 0);
    assert_eq!(calc.calculate_profile_final_roi(&p1, &p2), Err(CalcError::Overflow));
}

#[test]
fn legacy_default_comparison_produces_the_horizon() {
    let calc = ROICalculator::default();
    let rows = calc.calculate_roi().unwrap();
    assert_eq!(rows.len(), 10);
    // The study path pays tuition for two years before working.
    assert_eq!(rows[0].asu_data.work_year, None);
    assert_eq!(rows[1].asu_data.work_year, None);
    assert_eq!(rows[2].asu_data.work_year, Some(1));
    assert!(rows[1].asu_data.net_worth < 0);
    // The immediate-work path works from year one and retires after its cap.
    assert_eq!(rows[0].shanghai_data.work_year, Some(1));
    assert_eq!(rows[9].shanghai_data.work_year, None);
    // Its first-year contribution includes the whole forgone tuition.
    assert!(rows[0].shanghai_data.investment_amount >= 13108181);

    let (asu_roi, shanghai_roi, difference) = calc.calculate_final_roi().unwrap();
    assert_eq!(difference, shanghai_roi - asu_roi);
}

fn row(year: u32, net1: i64, net2: i64) -> ProfileComparisonData {
    let blank = PathYearlyData {
        year,
        work_year: None,
        income_usd: 0,
        net_income_usd: 0,
        living_cost_usd: 0,
        disposable_income_usd: 0,
        cash_savings: 0,
        investment_amount: 0,
        investment_return: 0,
        total_investment: 0,
        total_investment_principal: 0,
        total_cash: 0,
        net_worth: 0,
    };
    ProfileComparisonData {
        year,
        profile1_data: PathYearlyData { net_worth: net1, ..blank },
        profile2_data: PathYearlyData { net_worth: net2, ..blank },
        profile1_name: "a".to_string(),
        profile2_name: "b".to_string(),
    }
}

#[test]
fn amortization_keeps_charging_past_its_declared_horizon() {
    // A path that never works keeps paying the flat annual charge in every
    // non-working year, even beyond the declared amortization period, and
    // its ROI turns negative once the paid total exceeds the cost basis.
    let mut p1 = steady_profile("endless-study").with_cost_params(CostParams {
        total_cost_usd: 10_000_000,
        cost_duration: 2,
    });
    p1.work_params.start_delay = 10;
    let p2 = steady_profile("plain");
    let calc = calculator(3, 5000, 0);

    let records = calc.calculate_profile_path(&p1).unwrap();
    for record in &records {
        assert_eq!(record.living_cost_usd, 4_000_000 + 5_000_000);
    }
    assert_eq!(records[2].net_worth, -15_000_000);

    // roi1 = (-150000 + 100000) / 100000 = -0.5, scaled to -5000.
    let (roi1, _, _) = calc.calculate_profile_final_roi(&p1, &p2).unwrap();
    assert_eq!(roi1, -5000);
}

#[test]
fn break_even_year_finds_first_crossover() {
    // Two monotone net-worth series crossing at year 3.
    let rows = vec![row(1, 0, 20), row(2, 10, 22), row(3, 25, 24), row(4, 40, 26)];
    assert_eq!(break_even_year(&rows), Some(3));
}

#[test]
fn break_even_year_reads_the_record_year() {
    // The reported year is the matching record's own year field, wherever
    // the sequence starts.
    let rows = vec![row(5, 0, 20), row(6, 10, 22), row(7, 30, 24), row(8, 40, 26)];
    assert_eq!(break_even_year(&rows), Some(7));
}

#[test]
fn break_even_year_reports_absence() {
    let rows = vec![row(1, 0, 20), row(2, 10, 22), row(3, 20, 24)];
    assert_eq!(break_even_year(&rows), None);
    assert_eq!(break_even_year(&Vec::new()), None);
}
