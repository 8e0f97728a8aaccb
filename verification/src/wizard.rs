//! The decision core of the interactive profile wizards.
//!
//! The wizards themselves prompt the user step by step; everything they
//! decide — which state follows which user action, what a menu choice
//! means, whether the collected fields make a complete profile, and the
//! profile built from them — is a pure function here, verified against the
//! transition tables the wizards follow.

use vstd::prelude::*;
use crate::models::{
    fresh_profile_id, unix_timestamp_now, ConfigError, CostParams, FinancialParams, Location,
    Profile, ProfileType, WorkParams,
};
use crate::RATE_SCALE;

verus! {

/// The states of the profile-creation wizard, in the order its steps run.
#[derive(Debug, Clone, Copy, PartialEq, Eq, Structural)]
pub enum CreationState {
    Start,
    BasicInfo,
    LocationInfo,
    WorkParams,
    FinancialParams,
    CostParams,
    OpportunityParams,
    Summary,
    Confirmation,
    Complete,
    Cancelled,
}

/// What the user asked for at a wizard step.
#[derive(Debug, Clone, Copy, PartialEq, Eq, Structural)]
pub enum UserAction {
    Continue,
    Back,
    Cancel,
    Confirm,
    Retry,
}

/// The states of the profile-edit wizard: pick a field group, edit it,
/// preview, then save or cancel.
#[derive(Debug, Clone, Copy, PartialEq, Eq, Structural)]
pub enum EditState {
    Start,
    SelectField,
    EditBasicInfo,
    EditLocationInfo,
    EditWorkParams,
    EditFinancialParams,
    EditCostParams,
    EditOpportunityParams,
    Summary,
    Confirmation,
    Complete,
    Cancelled,
}

impl CreationState {
    /// The creation wizard's transition table: where `action`, taken in
    /// this state, leads. An action a state does not react to (for
    /// example `Retry`) leaves the state unchanged, and the two terminal
    /// states never change.
    pub open spec fn spec_next(self, action: UserAction) -> CreationState {
        match self {
            CreationState::Start => CreationState::BasicInfo,
            CreationState::BasicInfo => match action {
                UserAction::Continue => CreationState::LocationInfo,
                UserAction::Cancel => CreationState::Cancelled,
                _ => self,
            },
            CreationState::LocationInfo => match action {
                UserAction::Continue => CreationState::WorkParams,
                UserAction::Back => CreationState::BasicInfo,
                UserAction::Cancel => CreationState::Cancelled,
                _ => self,
            },
            CreationState::WorkParams => match action {
                UserAction::Continue => CreationState::FinancialParams,
                UserAction::Back => CreationState::LocationInfo,
                UserAction::Cancel => CreationState::Cancelled,
                _ => self,
            },
            CreationState::FinancialParams => match action {
                UserAction::Continue => CreationState::CostParams,
                UserAction::Back => CreationState::WorkParams,
                UserAction::Cancel => CreationState::Cancelled,
                _ => self,
            },
            CreationState::CostParams => match action {
                UserAction::Continue => CreationState::OpportunityParams,
                UserAction::Back => CreationState::FinancialParams,
                UserAction::Cancel => CreationState::Cancelled,
                _ => self,
            },
            CreationState::OpportunityParams => match action {
                UserAction::Continue => CreationState::Summary,
                UserAction::Back => CreationState::CostParams,
                UserAction::Cancel => CreationState::Cancelled,
                _ => self,
            },
            CreationState::Summary => match action {
                UserAction::Confirm => CreationState::Complete,
                UserAction::Back => CreationState::OpportunityParams,
                UserAction::Cancel => CreationState::Cancelled,
                _ => self,
            },
            _ => self,
        }
    }

    /// Takes one transition of the creation wizard.
    pub fn next(self, action: UserAction) -> (r: CreationState)
        ensures
            r == self.spec_next(action),
    {
        match self {
            CreationState::Start => CreationState::BasicInfo,
            CreationState::BasicInfo => match action {
                UserAction::Continue => CreationState::LocationInfo,
                UserAction::Cancel => CreationState::Cancelled,
                _ => self,
            },
            CreationState::LocationInfo => match action {
                UserAction::Continue => CreationState::WorkParams,
                UserAction::Back => CreationState::BasicInfo,
                UserAction::Cancel => CreationState::Cancelled,
                _ => self,
            },
            CreationState::WorkParams => match action {
                UserAction::Continue => CreationState::FinancialParams,
                UserAction::Back => CreationState::LocationInfo,
                UserAction::Cancel => CreationState::Cancelled,
                _ => self,
            },
            CreationState::FinancialParams => match action {
                UserAction::Continue => CreationState::CostParams,
                UserAction::Back => CreationState::WorkParams,
                UserAction::Cancel => CreationState::Cancelled,
                _ => self,
            },
            CreationState::CostParams => match action {
                UserAction::Continue => CreationState::OpportunityParams,
                UserAction::Back => CreationState::FinancialParams,
                UserAction::Cancel => CreationState::Cancelled,
                _ => self,
            },
            CreationState::OpportunityParams => match action {
                UserAction::Continue => CreationState::Summary,
                UserAction::Back => CreationState::CostParams,
                UserAction::Cancel => CreationState::Cancelled,
                _ => self,
            },
            CreationState::Summary => match action {
                UserAction::Confirm => CreationState::Complete,
                UserAction::Back => CreationState::OpportunityParams,
                UserAction::Cancel => CreationState::Cancelled,
                _ => self,
            },
            _ => self,
        }
    }
}

impl EditState {
    /// The edit wizard's transition table: every editing step returns to
    /// field selection when done, the summary saves or resumes, and the
    /// two terminal states never change.
    pub open spec fn spec_next(self, action: UserAction) -> EditState {
        match self {
            EditState::Start => EditState::SelectField,
            EditState::SelectField => match action {
                UserAction::Cancel => EditState::Cancelled,
                _ => self,
            },
            EditState::EditBasicInfo | EditState::EditLocationInfo | EditState::EditWorkParams
                | EditState::EditFinancialParams | EditState::EditCostParams
                | EditState::EditOpportunityParams => match action {
                UserAction::Continue => EditState::SelectField,
                UserAction::Cancel => EditState::Cancelled,
                _ => self,
            },
            EditState::Summary => match action {
                UserAction::Confirm => EditState::Complete,
                UserAction::Back => EditState::SelectField,
                UserAction::Cancel => EditState::Cancelled,
                _ => self,
            },
            _ => self,
        }
    }

    /// Takes one transition of the edit wizard.
    pub fn next(self, action: UserAction) -> (r: EditState)
        ensures
            r == self.spec_next(action),
    {
        match self {
            EditState::Start => EditState::SelectField,
            EditState::SelectField => match action {
                UserAction::Cancel => EditState::Cancelled,
                _ => self,
            },
            EditState::EditBasicInfo | EditState::EditLocationInfo | EditState::EditWorkParams
                | EditState::EditFinancialParams | EditState::EditCostParams
                | EditState::EditOpportunityParams => match action {
                UserAction::Continue => EditState::SelectField,
                UserAction::Cancel => EditState::Cancelled,
                _ => self,
            },
            EditState::Summary => match action {
                UserAction::Confirm => EditState::Complete,
                UserAction::Back => EditState::SelectField,
                UserAction::Cancel => EditState::Cancelled,
                _ => self,
            },
            _ => self,
        }
    }

    /// Which editing step a field-selection menu choice opens; the last
    /// entries preview, save, or cancel, and an out-of-range choice
    /// cancels.
    pub fn select(choice: usize) -> (r: EditState)
        ensures
            choice == 0 ==> r is EditBasicInfo,
            choice == 1 ==> r is EditLocationInfo,
            choice == 2 ==> r is EditWorkParams,
            choice == 3 ==> r is EditFinancialParams,
            choice == 4 ==> r is EditCostParams,
            choice == 5 ==> r is EditOpportunityParams,
            choice == 6 ==> r is Summary,
            choice == 7 ==> r is Complete,
            choice >= 8 ==> r is Cancelled,
    {
        match choice {
            0 => EditState::EditBasicInfo,
            1 => EditState::EditLocationInfo,
            2 => EditState::EditWorkParams,
            3 => EditState::EditFinancialParams,
            4 => EditState::EditCostParams,
            5 => EditState::EditOpportunityParams,
            6 => EditState::Summary,
            7 => EditState::Complete,
            _ => EditState::Cancelled,
        }
    }
}

/// What a navigation menu choice means: continue, go back, or cancel; an
/// out-of-range choice continues.
pub fn navigation_action(choice: usize) -> (r: UserAction)
    ensures
        choice == 0 ==> r is Continue,
        choice == 1 ==> r is Back,
        choice == 2 ==> r is Cancel,
        choice >= 3 ==> r is Continue,
{
    match choice {
        0 => UserAction::Continue,
        1 => UserAction::Back,
        2 => UserAction::Cancel,
        _ => UserAction::Continue,
    }
}

/// What a confirmation menu choice means: confirm, go back, or cancel; an
/// out-of-range choice cancels.
pub fn confirmation_action(choice: usize) -> (r: UserAction)
    ensures
        choice == 0 ==> r is Confirm,
        choice == 1 ==> r is Back,
        choice >= 2 ==> r is Cancel,
{
    match choice {
        0 => UserAction::Confirm,
        1 => UserAction::Back,
        _ => UserAction::Cancel,
    }
}

/// Whether the fractional rates a wizard step collected lie within one
/// whole, as the wizard demands before accepting them.
pub fn financial_rates_valid(salary_growth_rate: u32, tax_rate: u32) -> (r: bool)
    ensures
        r == (salary_growth_rate <= RATE_SCALE && tax_rate <= RATE_SCALE),
{
    (salary_growth_rate as u64) <= RATE_SCALE && (tax_rate as u64) <= RATE_SCALE
}

/// The data collected so far while a wizard builds a profile. Every field
/// starts absent; the optional ones (`city`, `description`) stay plain,
/// while fields whose *value* is optional are doubly wrapped, so that "not
/// yet asked" and "asked, and absent" stay distinct.
#[derive(Debug, Clone)]
pub struct ProfileBuilder {
    pub name: Option<String>,
    pub profile_type: Option<ProfileType>,
    pub country: Option<String>,
    pub city: Option<String>,
    pub currency: Option<String>,
    pub work_start_delay: Option<u32>,
    pub work_duration_limit: Option<Option<u32>>,
    pub initial_salary_usd: Option<u64>,
    pub salary_growth_rate: Option<u32>,
    pub living_cost_usd: Option<u64>,
    pub living_cost_growth: Option<u32>,
    pub tax_rate: Option<u32>,
    pub cost_params: Option<Option<CostParams>>,
    pub first_year_opportunity_cost: Option<Option<u64>>,
    pub description: Option<String>,
}

impl Default for ProfileBuilder {
    /// A builder with every field still absent.
    fn default() -> (r: Self)
        ensures
            r == ProfileBuilder::spec_empty(),
    {
        ProfileBuilder {
            name: None,
            profile_type: None,
            country: None,
            city: None,
            currency: None,
            work_start_delay: None,
            work_duration_limit: None,
            initial_salary_usd: None,
            salary_growth_rate: None,
            living_cost_usd: None,
            living_cost_growth: None,
            tax_rate: None,
            cost_params: None,
            first_year_opportunity_cost: None,
            description: None,
        }
    }
}

impl ProfileBuilder {
    /// The builder with every field still absent.
    pub open spec fn spec_empty() -> Self {
        ProfileBuilder {
            name: None,
            profile_type: None,
            country: None,
            city: None,
            currency: None,
            work_start_delay: None,
            work_duration_limit: None,
            initial_salary_usd: None,
            salary_growth_rate: None,
            living_cost_usd: None,
            living_cost_growth: None,
            tax_rate: None,
            cost_params: None,
            first_year_opportunity_cost: None,
            description: None,
        }
    }

    /// Starts an empty builder.
    pub fn new() -> (r: Self)
        ensures
            r == ProfileBuilder::spec_empty(),
    {
        Self::default()
    }

    /// Whether every required field has been supplied; the city and the
    /// description are optional.
    pub open spec fn spec_complete(self) -> bool {
        &&& self.name is Some
        &&& self.profile_type is Some
        &&& self.country is Some
        &&& self.currency is Some
        &&& self.work_start_delay is Some
        &&& self.work_duration_limit is Some
        &&& self.initial_salary_usd is Some
        &&& self.salary_growth_rate is Some
        &&& self.living_cost_usd is Some
        &&& self.living_cost_growth is Some
        &&& self.tax_rate is Some
        &&& self.cost_params is Some
        &&& self.first_year_opportunity_cost is Some
    }

    /// Decides whether a complete profile can be built.
    pub fn is_complete(&self) -> (r: bool)
        ensures
            r == self.spec_complete(),
    {
        self.name.is_some() && self.profile_type.is_some() && self.country.is_some()
            && self.currency.is_some() && self.work_start_delay.is_some()
            && self.work_duration_limit.is_some() && self.initial_salary_usd.is_some()
            && self.salary_growth_rate.is_some() && self.living_cost_usd.is_some()
            && self.living_cost_growth.is_some() && self.tax_rate.is_some()
            && self.cost_params.is_some() && self.first_year_opportunity_cost.is_some()
    }

    /// Builds the profile from the collected fields, with a fresh
    /// identifier and the current time; fails exactly when a required
    /// field is still absent.
    pub fn build(self) -> (r: Result<Profile, ConfigError>)
        ensures
            r is Ok <==> self.spec_complete(),
            r matches Err(e) ==> e == ConfigError::IncompleteProfile,
            r matches Ok(p) ==> {
                &&& p.name == self.name->0
                &&& p.profile_type == self.profile_type->0
                &&& p.location == (Location {
                    country: self.country->0,
                    city: self.city,
                    currency: self.currency->0,
                })
                &&& p.work_params == (WorkParams {
                    start_delay: self.work_start_delay->0,
                    duration_limit: self.work_duration_limit->0,
                })
                &&& p.financial_params == (FinancialParams {
                    initial_salary_usd: self.initial_salary_usd->0,
                    salary_growth_rate: self.salary_growth_rate->0,
                    living_cost_usd: self.living_cost_usd->0,
                    living_cost_growth: self.living_cost_growth->0,
                    tax_rate: self.tax_rate->0,
                })
                &&& p.cost_params == self.cost_params->0
                &&& p.first_year_opportunity_cost == self.first_year_opportunity_cost->0
                &&& p.description == self.description
                &&& p.created_at == p.updated_at
            },
    {
        if !self.is_complete() {
            return Err(ConfigError::IncompleteProfile);
        }
        let ProfileBuilder {
            name,
            profile_type,
            country,
            city,
            currency,
            work_start_delay,
            work_duration_limit,
            initial_salary_usd,
            salary_growth_rate,
            living_cost_usd,
            living_cost_growth,
            tax_rate,
            cost_params,
            first_year_opportunity_cost,
            description,
        } = self;
        let now = unix_timestamp_now();
        Ok(
            Profile {
                id: fresh_profile_id(),
                name: name.unwrap(),
                profile_type: profile_type.unwrap(),
                location: Location {
                    country: country.unwrap(),
                    city,
                    currency: currency.unwrap(),
                },
                work_params: WorkParams {
                    start_delay: work_start_delay.unwrap(),
                    duration_limit: work_duration_limit.unwrap(),
                },
                financial_params: FinancialParams {
                    initial_salary_usd: initial_salary_usd.unwrap(),
                    salary_growth_rate: salary_growth_rate.unwrap(),
                    living_cost_usd: living_cost_usd.unwrap(),
                    living_cost_growth: living_cost_growth.unwrap(),
                    tax_rate: tax_rate.unwrap(),
                },
                cost_params: cost_params.unwrap(),
                first_year_opportunity_cost: first_year_opportunity_cost.unwrap(),
                created_at: now,
                updated_at: now,
                description,
            },
        )
    }

    /// A builder prefilled from an existing profile, as the edit wizard
    /// starts out.
    pub fn from_profile(profile: &Profile) -> (r: Self)
        ensures
            r.name == Some(profile.name),
            r.profile_type == Some(profile.profile_type),
            r.country == Some(profile.location.country),
            r.city == profile.location.city,
            r.currency == Some(profile.location.currency),
            r.work_start_delay == Some(profile.work_params.start_delay),
            r.work_duration_limit == Some(profile.work_params.duration_limit),
            r.initial_salary_usd == Some(profile.financial_params.initial_salary_usd),
            r.salary_growth_rate == Some(profile.financial_params.salary_growth_rate),
            r.living_cost_usd == Some(profile.financial_params.living_cost_usd),
            r.living_cost_growth == Some(profile.financial_params.living_cost_growth),
            r.tax_rate == Some(profile.financial_params.tax_rate),
            r.cost_params == Some(profile.cost_params),
            r.first_year_opportunity_cost == Some(profile.first_year_opportunity_cost),
            r.description == profile.description,
    {
        ProfileBuilder {
            name: Some(profile.name.clone()),
            profile_type: Some(profile.profile_type),
            country: Some(profile.location.country.clone()),
            city: profile.location.city.clone(),
            currency: Some(profile.location.currency.clone()),
            work_start_delay: Some(profile.work_params.start_delay),
            work_duration_limit: Some(profile.work_params.duration_limit),
            initial_salary_usd: Some(profile.financial_params.initial_salary_usd),
            salary_growth_rate: Some(profile.financial_params.salary_growth_rate),
            living_cost_usd: Some(profile.financial_params.living_cost_usd),
            living_cost_growth: Some(profile.financial_params.living_cost_growth),
            tax_rate: Some(profile.financial_params.tax_rate),
            cost_params: Some(profile.cost_params),
            first_year_opportunity_cost: Some(profile.first_year_opportunity_cost),
            description: profile.description.clone(),
        }
    }
}

} // verus!
