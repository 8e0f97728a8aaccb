//! The profile data model: a named set of career and financial assumptions
//! describing one life path, and its normalized, calculation-ready view.
//!
//! Monetary fields are integer cents; rate fields are integer basis points
//! ([`crate::RATE_SCALE`] basis points in one whole).

use vstd::prelude::*;
use crate::RATE_SCALE;

verus! {

/// Why a configuration value was rejected at construction time.
#[derive(Debug, Clone, Copy, PartialEq, Eq, Structural)]
pub enum ConfigError {
    /// A one-time cost was given with an amortization period of zero years,
    /// which would make the annual amortized cost undefined.
    ZeroCostDuration,
    /// A profile was asked for before every required field had been supplied.
    IncompleteProfile,
}

/// The kind of life path a profile describes.
#[derive(Debug, Clone, Copy, PartialEq, Eq, Structural, Hash)]
pub enum ProfileType {
    Education,
    Work,
}

impl ProfileType {
    /// The canonical storage string for this profile type.
    pub fn to_string(&self) -> (r: String)
        ensures
            *self is Education ==> r@ == "Education"@,
            *self is Work ==> r@ == "Work"@,
    {
        match self {
            ProfileType::Education => "Education".to_owned(),
            ProfileType::Work => "Work".to_owned(),
        }
    }

    /// Parses the canonical storage string back into a profile type; every
    /// other string is rejected.
    pub fn from_string(s: &str) -> (r: Result<Self, ConfigError>)
        ensures
            s@ == "Education"@ ==> r == Ok::<Self, ConfigError>(ProfileType::Education),
            s@ == "Work"@ ==> r == Ok::<Self, ConfigError>(ProfileType::Work),
            s@ != "Education"@ && s@ != "Work"@ ==> r == Err::<Self, ConfigError>(
                ConfigError::IncompleteProfile,
            ),
    {
        proof {
            reveal_strlit("Education");
            reveal_strlit("Work");
            assert("Education"@.len() == 9);
            assert("Work"@.len() == 4);
        }
        let owned = s.to_owned();
        if owned == "Education".to_owned() {
            Ok(ProfileType::Education)
        } else if owned == "Work".to_owned() {
            Ok(ProfileType::Work)
        } else {
            Err(ConfigError::IncompleteProfile)
        }
    }
}

/// Where a path is lived: country, optional city, and the currency code of
/// the amounts entered for it.
#[derive(Debug, Clone, PartialEq, Eq)]
pub struct Location {
    pub country: String,
    pub city: Option<String>,
    pub currency: String,
}

/// When work can begin and for how many years it counts.
#[derive(Debug, Clone, Copy, PartialEq, Eq)]
pub struct WorkParams {
    /// Years before work can begin (for example, years in school).
    pub start_delay: u32,
    /// Cap on counted work years; `None` means unlimited.
    pub duration_limit: Option<u32>,
}

/// Salary, living cost and tax assumptions, in cents and basis points.
#[derive(Debug, Clone, Copy, PartialEq, Eq)]
pub struct FinancialParams {
    pub initial_salary_usd: u64,
    pub salary_growth_rate: u32,
    pub living_cost_usd: u64,
    pub living_cost_growth: u32,
    pub tax_rate: u32,
}

/// A lump one-time cost (for example, tuition) spread evenly over a number
/// of years.
#[derive(Debug, Clone, Copy, PartialEq, Eq)]
pub struct CostParams {
    pub total_cost_usd: u64,
    pub cost_duration: u32,
}

impl CostParams {
    /// Builds cost parameters, rejecting an amortization period of zero
    /// years eagerly so that no division by zero can arise later.
    pub fn new(total_cost_usd: u64, cost_duration: u32) -> (r: Result<Self, ConfigError>)
        ensures
            cost_duration == 0 ==> r == Err::<Self, ConfigError>(ConfigError::ZeroCostDuration),
            cost_duration > 0 ==> r == Ok::<Self, ConfigError>(
                CostParams { total_cost_usd, cost_duration },
            ),
    {
        if cost_duration == 0 {
            Err(ConfigError::ZeroCostDuration)
        } else {
            Ok(CostParams { total_cost_usd, cost_duration })
        }
    }

    /// The flat amount charged per amortization year, truncated to cents.
    pub fn annual_cost(&self) -> (r: u64)
        requires
            self.cost_duration > 0,
        ensures
            r == self.total_cost_usd as int / self.cost_duration as int,
    {
        self.total_cost_usd / (self.cost_duration as u64)
    }
}

/// A named set of career and financial assumptions describing one life path.
///
/// `id` is a 128-bit random identifier; `created_at` and `updated_at` are
/// Unix timestamps in seconds.
#[derive(Debug, Clone, PartialEq)]
pub struct Profile {
    pub id: u128,
    pub name: String,
    pub profile_type: ProfileType,
    pub location: Location,
    pub work_params: WorkParams,
    pub financial_params: FinancialParams,
    pub cost_params: Option<CostParams>,
    pub first_year_opportunity_cost: Option<u64>,
    pub created_at: i64,
    pub updated_at: i64,
    pub description: Option<String>,
}

/// Relies on `uuid::Uuid::new_v4` for a freshly generated random identifier,
/// taken as its 128-bit value.
#[verifier::external_body]
pub(crate) fn fresh_profile_id() -> u128 {
    uuid::Uuid::new_v4().as_u128()
}

/// Relies on `chrono::Utc::now` for the current wall-clock time, taken as a
/// Unix timestamp in seconds.
#[verifier::external_body]
pub(crate) fn unix_timestamp_now() -> i64 {
    chrono::Utc::now().timestamp()
}

impl Profile {
    /// Whether the profile's numeric assumptions are calculation-ready: any
    /// one-time cost amortizes over at least one year, and the tax rate is a
    /// fraction of the whole.
    pub open spec fn wf(self) -> bool {
        &&& self.cost_params matches Some(c) ==> c.cost_duration > 0
        &&& self.financial_params.tax_rate <= RATE_SCALE
    }

    /// Decides `wf` at run time, so that unverified callers can test it
    /// before asking for a simulation.
    pub fn check(&self) -> (r: bool)
        ensures
            r == self.wf(),
    {
        let cost_ok = match &self.cost_params {
            Some(c) => c.cost_duration > 0,
            None => true,
        };
        cost_ok && (self.financial_params.tax_rate as u64) <= RATE_SCALE
    }

    /// Creates a profile with a fresh identifier and the current time as
    /// both creation and update time; cost, opportunity-cost and description
    /// start absent.
    pub fn new(
        name: String,
        profile_type: ProfileType,
        location: Location,
        work_params: WorkParams,
        financial_params: FinancialParams,
    ) -> (r: Profile)
        ensures
            r.name == name,
            r.profile_type == profile_type,
            r.location == location,
            r.work_params == work_params,
            r.financial_params == financial_params,
            r.cost_params is None,
            r.first_year_opportunity_cost is None,
            r.description is None,
            r.created_at == r.updated_at,
    {
        let now = unix_timestamp_now();
        Profile {
            id: fresh_profile_id(),
            name,
            profile_type,
            location,
            work_params,
            financial_params,
            cost_params: None,
            first_year_opportunity_cost: None,
            created_at: now,
            updated_at: now,
            description: None,
        }
    }

    /// Returns the profile with the given one-time cost attached.
    pub fn with_cost_params(self, cost_params: CostParams) -> (r: Self)
        ensures
            r == (Profile { cost_params: Some(cost_params), ..self }),
    {
        Profile { cost_params: Some(cost_params), ..self }
    }

    /// Returns the profile with the given first-year opportunity-cost
    /// investment attached.
    pub fn with_opportunity_cost(self, cost: u64) -> (r: Self)
        ensures
            r == (Profile { first_year_opportunity_cost: Some(cost), ..self }),
    {
        Profile { first_year_opportunity_cost: Some(cost), ..self }
    }

    /// Returns the profile with the given description attached.
    pub fn with_description(self, description: String) -> (r: Self)
        ensures
            r == (Profile { description: Some(description), ..self }),
    {
        Profile { description: Some(description), ..self }
    }

    /// Refreshes the update timestamp, leaving every other field unchanged.
    pub fn touch(&mut self)
        ensures
            *final(self) == (Profile { updated_at: final(self).updated_at, ..*old(self) }),
    {
        self.updated_at = unix_timestamp_now();
    }

    /// The subset of the profile that the simulation reads, as one value.
    pub fn calculation_context(&self) -> (r: CalculationContext)
        ensures
            r.work_params == self.work_params,
            r.financial_params == self.financial_params,
            r.cost_params == self.cost_params,
            r.first_year_opportunity_cost == self.first_year_opportunity_cost,
    {
        CalculationContext {
            work_params: self.work_params,
            financial_params: self.financial_params,
            cost_params: self.cost_params,
            first_year_opportunity_cost: self.first_year_opportunity_cost,
        }
    }

    /// Flattens the profile into the normalized parameter record the path
    /// simulator consumes.
    pub fn to_path_params(&self) -> (r: PathCalculationParams)
        ensures
            r == self.spec_path_params(),
            self.wf() ==> r.wf(),
    {
        let (total_cost_usd, cost_duration) = match &self.cost_params {
            Some(c) => (Some(c.total_cost_usd), Some(c.cost_duration)),
            None => (None, None),
        };
        PathCalculationParams {
            work_start_delay: self.work_params.start_delay,
            work_duration_limit: self.work_params.duration_limit,
            initial_salary_usd: self.financial_params.initial_salary_usd,
            salary_growth_rate: self.financial_params.salary_growth_rate,
            living_cost_usd: self.financial_params.living_cost_usd,
            living_cost_growth: self.financial_params.living_cost_growth,
            tax_rate: self.financial_params.tax_rate,
            total_cost_usd,
            cost_duration,
            first_year_opportunity_cost: self.first_year_opportunity_cost,
        }
    }

    /// The normalized parameters that `to_path_params` produces.
    pub open spec fn spec_path_params(self) -> PathCalculationParams {
        PathCalculationParams {
            work_start_delay: self.work_params.start_delay,
            work_duration_limit: self.work_params.duration_limit,
            initial_salary_usd: self.financial_params.initial_salary_usd,
            salary_growth_rate: self.financial_params.salary_growth_rate,
            living_cost_usd: self.financial_params.living_cost_usd,
            living_cost_growth: self.financial_params.living_cost_growth,
            tax_rate: self.financial_params.tax_rate,
            total_cost_usd: match self.cost_params {
                Some(c) => Some(c.total_cost_usd),
                None => None,
            },
            cost_duration: match self.cost_params {
                Some(c) => Some(c.cost_duration),
                None => None,
            },
            first_year_opportunity_cost: self.first_year_opportunity_cost,
        }
    }
}

/// The subset of a profile that the simulation reads, borrowed as one value.
#[derive(Debug, Clone)]
pub struct CalculationContext {
    pub work_params: WorkParams,
    pub financial_params: FinancialParams,
    pub cost_params: Option<CostParams>,
    pub first_year_opportunity_cost: Option<u64>,
}

/// A normalized, calculation-ready view of one path's work timing, growth,
/// tax, one-time cost amortization and first-year opportunity-cost
/// investment. Pure data; read-only for the duration of one simulation.
#[derive(Debug, Clone, Copy, PartialEq, Eq)]
pub struct PathCalculationParams {
    /// Years before work can begin.
    pub work_start_delay: u32,
    /// Cap on counted work years; `None` means unlimited.
    pub work_duration_limit: Option<u32>,
    pub initial_salary_usd: u64,
    pub salary_growth_rate: u32,
    pub living_cost_usd: u64,
    pub living_cost_growth: u32,
    pub tax_rate: u32,
    /// Total one-time cost; present exactly when `cost_duration` is.
    pub total_cost_usd: Option<u64>,
    /// Years the one-time cost amortizes over; positive when present.
    pub cost_duration: Option<u32>,
    /// Extra amount invested at year one regardless of disposable income.
    pub first_year_opportunity_cost: Option<u64>,
}

impl PathCalculationParams {
    /// Whether the parameters are calculation-ready: the one-time cost and
    /// its amortization period are both present or both absent, the period
    /// is positive when present, and the tax rate is a fraction of the
    /// whole.
    pub open spec fn wf(self) -> bool {
        &&& self.total_cost_usd is Some <==> self.cost_duration is Some
        &&& self.cost_duration matches Some(d) ==> d > 0
        &&& self.tax_rate <= RATE_SCALE
    }

    /// Decides `wf` at run time, so that unverified callers can test it
    /// before simulating.
    pub fn check(&self) -> (r: bool)
        ensures
            r == self.wf(),
    {
        let cost_ok = match (&self.total_cost_usd, &self.cost_duration) {
            (Some(_), Some(d)) => *d > 0,
            (None, None) => true,
            _ => false,
        };
        cost_ok && (self.tax_rate as u64) <= RATE_SCALE
    }
}

} // verus!
