//! Errors of a projection.
use vstd::prelude::*;

verus! {

/// Why a projection could not be made.
#[derive(Clone, Copy, Debug, PartialEq, Eq, Structural)]
pub enum ProjectionError {
    /// The product has no rule for a value the projection needs.
    UnsupportedProduct,
    /// The insured's date of birth falls after the risk commencement date.
    BirthdateAfterCommencement,
    /// A rate table holds no entry that the projection needs.
    MissingRate,
    /// A rate or amount lies outside the range the projection accepts.
    InvalidRate,
    /// The value asked for does not apply to this policy.
    NotApplicable,
    /// An amount grew beyond `money::AMOUNT_MAX`.
    Overflow,
}

} // verus!
