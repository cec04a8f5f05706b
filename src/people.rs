//! The people a policy names.
use crate::dates::Date;
use crate::enums::{GenderEnum, RelationshipToOwnerEnum};
use vstd::prelude::*;

verus! {

#[derive(Clone, Debug)]
pub struct Owner {
    pub id: String,
    pub ssn: String,
    pub dob: Date,
}

#[derive(Clone, Debug)]
pub struct Agent {
    pub id: String,
    pub ssn: String,
    pub dob: Date,
    pub gender: GenderEnum,
}

#[derive(Clone, Debug)]
pub struct Beneficiary {
    pub id: String,
    pub ssn: String,
    pub dob: Date,
    pub relatsh: RelationshipToOwnerEnum,
}

#[derive(Clone, Debug)]
pub struct Insured {
    pub id: String,
    pub ssn: String,
    pub dob: Date,
    pub gender: GenderEnum,
    pub relatsh: RelationshipToOwnerEnum,
}

} // verus!
