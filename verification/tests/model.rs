//! Tests of the profile data model and the wizard decision core.

use roi_calculator::calculator::ROICalculator;
use roi_calculator::models::{
    ConfigError, CostParams, FinancialParams, Location, PathCalculationParams, Profile,
    ProfileType, WorkParams,
};
use roi_calculator::wizard::{
    confirmation_action, financial_rates_valid, navigation_action, CreationState, EditState,
    ProfileBuilder, UserAction,
};
use roi_calculator::sim::WorkStatus;

fn location() -> Location {
    Location {
        country: "USA".to_string(),
        city: Some("NYC".to_string()),
        currency: "USD".to_string(),
    }
}

fn financials() -> FinancialParams {
    FinancialParams {
        initial_salary_usd: 7_500_000,
        salary_growth_rate: 500,
        living_cost_usd: 4_000_000,
        living_cost_growth: 300,
        tax_rate: 2200,
    }
}

#[test]
fn profile_type_strings_round_trip() {
    assert_eq!(ProfileType::Education.to_string(), "Education");
    assert_eq!(ProfileType::Work.to_string(), "Work");
    assert_eq!(ProfileType::from_string("Education"), Ok(ProfileType::Education));
    assert_eq!(ProfileType::from_string("Work"), Ok(ProfileType::Work));
    assert!(ProfileType::from_string("Sabbatical").is_err());
}

#[test]
fn cost_params_reject_zero_duration() {
    assert_eq!(CostParams::new(10_000_000, 0), Err(ConfigError::ZeroCostDuration));
    let params = CostParams::new(10_000_000, 3).unwrap();
    assert_eq!(params.total_cost_usd, 10_000_000);
    assert_eq!(params.cost_duration, 3);
    assert_eq!(params.annual_cost(), 3_333_333);
}

#[test]
fn new_profile_starts_without_extras() {
    let profile = Profile::new(
        "Test Profile".to_string(),
        ProfileType::Work,
        location(),
        WorkParams { start_delay: 0, duration_limit: Some(40) },
        financials(),
    );
    assert_eq!(profile.name, "Test Profile");
    assert_eq!(profile.profile_type, ProfileType::Work);
    assert_eq!(profile.location, location());
    assert_eq!(profile.cost_params, None);
    assert_eq!(profile.first_year_opportunity_cost, None);
    assert_eq!(profile.description, None);
    assert_eq!(profile.created_at, profile.updated_at);
}

#[test]
fn builder_methods_attach_extras() {
    let cost = CostParams { total_cost_usd: 10_000_000, cost_duration: 2 };
    let profile = Profile::new(
        "P".to_string(),
        ProfileType::Education,
        location(),
        WorkParams { start_delay: 2, duration_limit: None },
        financials(),
    )
    .with_cost_params(cost)
    .with_opportunity_cost(2_000_000)
    .with_description("study abroad".to_string());
    assert_eq!(profile.cost_params, Some(cost));
    assert_eq!(profile.first_year_opportunity_cost, Some(2_000_000));
    assert_eq!(profile.description, Some("study abroad".to_string()));
}

#[test]
fn path_params_flatten_the_profile() {
    let profile = Profile::new(
        "P".to_string(),
        ProfileType::Education,
        location(),
        WorkParams { start_delay: 2, duration_limit: Some(8) },
        financials(),
    )
    .with_cost_params(CostParams { total_cost_usd: 10_000_000, cost_duration: 2 });
    let params = profile.to_path_params();
    assert_eq!(params.work_start_delay, 2);
    assert_eq!(params.work_duration_limit, Some(8));
    assert_eq!(params.initial_salary_usd, 7_500_000);
    assert_eq!(params.tax_rate, 2200);
    assert_eq!(params.total_cost_usd, Some(10_000_000));
    assert_eq!(params.cost_duration, Some(2));
    assert!(params.check());
}

#[test]
fn path_params_check_rejects_lone_cost_fields() {
    let mut params = Profile::new(
        "P".to_string(),
        ProfileType::Work,
        location(),
        WorkParams { start_delay: 0, duration_limit: None },
        financials(),
    )
    .to_path_params();
    assert!(params.check());
    params.total_cost_usd = Some(1);
    assert!(!params.check());
    params.cost_duration = Some(0);
    assert!(!params.check());
    params.cost_duration = Some(2);
    assert!(params.check());
    params.tax_rate = 10001;
    assert!(!params.check());
}

#[test]
fn touch_only_moves_the_update_time() {
    let mut profile = Profile::new(
        "P".to_string(),
        ProfileType::Work,
        location(),
        WorkParams { start_delay: 0, duration_limit: None },
        financials(),
    );
    let name = profile.name.clone();
    let created = profile.created_at;
    profile.touch();
    assert_eq!(profile.name, name);
    assert_eq!(profile.created_at, created);
}

#[test]
fn work_status_resolves_delay_and_cap() {
    let mut params = PathCalculationParams {
        work_start_delay: 2,
        work_duration_limit: Some(3),
        initial_salary_usd: 0,
        salary_growth_rate: 0,
        living_cost_usd: 0,
        living_cost_growth: 0,
        tax_rate: 0,
        total_cost_usd: None,
        cost_duration: None,
        first_year_opportunity_cost: None,
    };
    assert_eq!(WorkStatus::resolve(1, &params), WorkStatus::NotWorking);
    assert_eq!(WorkStatus::resolve(2, &params), WorkStatus::NotWorking);
    assert_eq!(WorkStatus::resolve(3, &params), WorkStatus::Working(1));
    assert_eq!(WorkStatus::resolve(5, &params), WorkStatus::Working(3));
    assert_eq!(WorkStatus::resolve(6, &params), WorkStatus::NotWorking);
    assert_eq!(WorkStatus::resolve(3, &params).ordinal(), Some(1));
    params.work_duration_limit = None;
    assert_eq!(WorkStatus::resolve(60, &params), WorkStatus::Working(58));
}

#[test]
fn creation_wizard_walks_forward_and_back() {
    let s = CreationState::Start.next(UserAction::Continue);
    assert_eq!(s, CreationState::BasicInfo);
    let s = s.next(UserAction::Continue);
    assert_eq!(s, CreationState::LocationInfo);
    let s = s.next(UserAction::Back);
    assert_eq!(s, CreationState::BasicInfo);
    let s = s
        .next(UserAction::Continue)
        .next(UserAction::Continue)
        .next(UserAction::Continue)
        .next(UserAction::Continue)
        .next(UserAction::Continue)
        .next(UserAction::Continue);
    assert_eq!(s, CreationState::Summary);
    assert_eq!(s.next(UserAction::Confirm), CreationState::Complete);
    assert_eq!(s.next(UserAction::Cancel), CreationState::Cancelled);
    assert_eq!(s.next(UserAction::Retry), CreationState::Summary);
    assert_eq!(CreationState::Cancelled.next(UserAction::Continue), CreationState::Cancelled);
}

#[test]
fn edit_wizard_returns_to_field_selection() {
    assert_eq!(EditState::Start.next(UserAction::Continue), EditState::SelectField);
    assert_eq!(EditState::select(3), EditState::EditFinancialParams);
    assert_eq!(EditState::select(7), EditState::Complete);
    assert_eq!(EditState::select(42), EditState::Cancelled);
    assert_eq!(
        EditState::EditFinancialParams.next(UserAction::Continue),
        EditState::SelectField
    );
    assert_eq!(EditState::Summary.next(UserAction::Confirm), EditState::Complete);
    assert_eq!(EditState::Summary.next(UserAction::Back), EditState::SelectField);
    assert_eq!(EditState::SelectField.next(UserAction::Cancel), EditState::Cancelled);
}

#[test]
fn menu_choices_map_to_actions() {
    assert_eq!(navigation_action(0), UserAction::Continue);
    assert_eq!(navigation_action(1), UserAction::Back);
    assert_eq!(navigation_action(2), UserAction::Cancel);
    assert_eq!(navigation_action(9), UserAction::Continue);
    assert_eq!(confirmation_action(0), UserAction::Confirm);
    assert_eq!(confirmation_action(1), UserAction::Back);
    assert_eq!(confirmation_action(2), UserAction::Cancel);
}

#[test]
fn rate_validation_bounds_the_whole() {
    assert!(financial_rates_valid(0, 0));
    assert!(financial_rates_valid(10000, 10000));
    assert!(!financial_rates_valid(10001, 0));
    assert!(!financial_rates_valid(0, 10001));
}

#[test]
fn incomplete_builder_refuses_to_build() {
    let builder = ProfileBuilder::new();
    assert!(!builder.is_complete());
    assert_eq!(builder.build(), Err(ConfigError::IncompleteProfile));
}

#[test]
fn complete_builder_builds_the_collected_profile() {
    let mut builder = ProfileBuilder::new();
    builder.name = Some("Built".to_string());
    builder.profile_type = Some(ProfileType::Education);
    builder.country = Some("USA".to_string());
    builder.city = None;
    builder.currency = Some("USD".to_string());
    builder.work_start_delay = Some(2);
    builder.work_duration_limit = Some(None);
    builder.initial_salary_usd = Some(9_000_000);
    builder.salary_growth_rate = Some(500);
    builder.living_cost_usd = Some(3_500_000);
    builder.living_cost_growth = Some(273);
    builder.tax_rate = Some(2800);
    builder.cost_params = Some(Some(CostParams { total_cost_usd: 13_108_181, cost_duration: 2 }));
    builder.first_year_opportunity_cost = Some(None);
    assert!(builder.is_complete());
    let profile = builder.build().unwrap();
    assert_eq!(profile.name, "Built");
    assert_eq!(profile.work_params.start_delay, 2);
    assert_eq!(profile.work_params.duration_limit, None);
    assert_eq!(profile.financial_params.initial_salary_usd, 9_000_000);
    assert_eq!(
        profile.cost_params,
        Some(CostParams { total_cost_usd: 13_108_181, cost_duration: 2 })
    );
    assert_eq!(profile.first_year_opportunity_cost, None);
}

#[test]
fn builder_prefills_from_profile() {
    let profile = Profile::new(
        "Edited".to_string(),
        ProfileType::Work,
        location(),
        WorkParams { start_delay: 0, duration_limit: Some(8) },
        financials(),
    )
    .with_opportunity_cost(2_000_000);
    let builder = ProfileBuilder::from_profile(&profile);
    assert!(builder.is_complete());
    assert_eq!(builder.name, Some("Edited".to_string()));
    assert_eq!(builder.work_duration_limit, Some(Some(8)));
    assert_eq!(builder.first_year_opportunity_cost, Some(Some(2_000_000)));
    let rebuilt = builder.build().unwrap();
    assert_eq!(rebuilt.name, profile.name);
    assert_eq!(rebuilt.financial_params, profile.financial_params);
}

#[test]
fn calculator_check_screens_the_configuration() {
    let calc = ROICalculator::default();
    assert!(calc.check());
    assert_eq!(calc.total_years, 10);
    assert_eq!(calc.investment_portion, 2000);
    assert_eq!(calc.investment_return_rate, 1000);
    assert_eq!(calc.asu_total_cost_usd, 13_108_181);
    let bad = ROICalculator { investment_portion: 10001, ..calc };
    assert!(!bad.check());
}
