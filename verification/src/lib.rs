//! Career-path financial simulation: year-by-year income, cost, savings and
//! compounding investment growth under a declarative set of assumptions, with
//! return-on-investment and break-even analysis on top.
//!
//! All monetary amounts are integer cents of the reference currency; all rates
//! are integer basis points (1/10000 of the whole).

use vstd::prelude::*;

pub mod calculator;
pub mod laws;
pub mod math;
pub mod models;
pub mod sim;
pub mod wizard;

verus! {

/// Basis points in one whole: rates are expressed as parts of this.
pub const RATE_SCALE: u64 = 10000;

} // verus!
