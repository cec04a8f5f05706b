//! Year-by-year account-value projection of universal-life policies.
//!
//! Amounts are whole currency units. Rates are fixed-point values, in parts
//! per `money::SCALE`. A product of an amount and a rate is rounded down to a
//! whole unit, except an unrounded load, which is rounded up to one; loads and
//! modal premiums are rounded up to a multiple of 1000.
//!
//! `timeline::fixed` builds a policy's years with their rates,
//! `scenario::varied_init` sets a scenario's premiums, `rollforward` carries
//! the account values from year to year, and `scenario::base_cf` runs all 18
//! scenarios.
pub mod dates;
pub mod enums;
pub mod error;
pub mod money;
pub mod people;
pub mod policy;
pub mod rollforward;
pub mod scenario;
pub mod tables;
pub mod timeline;
pub mod validation;
pub mod withdrawal;

pub use dates::{calculate_age, calculate_month_age, Date};
