//! The enumerations that describe policies, products and scenarios.
use vstd::prelude::*;

verus! {

#[derive(Clone, Copy, Debug, PartialEq, Eq, Structural)]
pub enum GenderEnum {
    Unknown,
    Male,
    Female,
    NotApplicable,
}

impl GenderEnum {
    pub open spec fn spec_code(&self) -> i32 {
        match self {
            GenderEnum::Unknown => 0,
            GenderEnum::Male => 1,
            GenderEnum::Female => 2,
            GenderEnum::NotApplicable => 9,
        }
    }

    /// The numeric code under which rate tables file this gender.
    pub fn code(&self) -> (r: i32)
        ensures
            r == self.spec_code(),
    {
        match self {
            GenderEnum::Unknown => 0,
            GenderEnum::Male => 1,
            GenderEnum::Female => 2,
            GenderEnum::NotApplicable => 9,
        }
    }
}

#[derive(Clone, Copy, Debug, PartialEq, Eq, Structural)]
pub enum PayModeEnum {
    Annual,
    SemiAnnual,
    Quarterly,
    Monthly,
}

#[derive(Clone, Copy, Debug, PartialEq, Eq, Structural)]
pub enum ChannelEnum {
    CHNL001,
    CHNL002,
    CHNL003,
}

#[derive(Clone, Copy, Debug, PartialEq, Eq, Structural)]
pub enum StatusEnum {
    Inforce,
    Lapsed,
    Terminated,
    Claimed,
}

/// Death/TPD benefit option: A pays the larger of sum insured and account
/// value, B pays the sum insured.
#[derive(Clone, Copy, Debug, PartialEq, Eq, Structural)]
pub enum DeathTPDBenefitEnum {
    A,
    B,
}

#[derive(Clone, Copy, Debug, PartialEq, Eq, Structural)]
pub enum RelationshipToOwnerEnum {
    OwnerSelf,
    Other,
}

#[derive(Clone, Copy, Debug, PartialEq, Eq, Structural)]
pub enum FundEnum {
    F000,
    F001,
    F002,
    F003,
    F004,
    F005,
    F006,
    F007,
    F008,
    F009,
    F010,
}

#[derive(Clone, Copy, Debug, PartialEq, Eq, Structural)]
pub enum IntRateScenarioEnum {
    High,
    Low,
    Guaranteed,
}

#[derive(Clone, Copy, Debug, PartialEq, Eq, Structural)]
pub enum PremTermScenarioEnum {
    PolicyTerm,
    OptedTerm,
    MustPayTerm,
}

#[derive(Clone, Copy, Debug, PartialEq, Eq, Structural)]
pub enum RiskTypeEnum {
    Standard,
    Subrisk,
}

#[derive(Clone, Copy, Debug, PartialEq, Eq, Structural)]
pub enum ULEnum {
    UVL01,
    UVL02,
    UVL03,
    ILP01,
    ILP02,
    ILP03,
}

#[derive(Clone, Copy, Debug, PartialEq, Eq, Structural)]
pub enum BaseEnum {
    UVL01,
    UVL02,
    UVL03,
    ILP01,
    ILP02,
    ILP03,
}

#[derive(Clone, Copy, Debug, PartialEq, Eq, Structural)]
pub enum RiderEnum {
    ADD01,
    PPD01,
    CIR01,
    CIR02,
    SUP01,
    HOP02,
    WOP01,
    WOP02,
}

/// A product whose rows in the rate tables are filed under a name.
pub trait ProductName {
    spec fn spec_name(&self) -> Seq<char>;

    fn product_name(&self) -> (r: String)
        ensures
            r@ == self.spec_name(),
    ;
}

impl ProductName for ULEnum {
    open spec fn spec_name(&self) -> Seq<char> {
        match self {
            ULEnum::UVL01 => "UVL01"@,
            ULEnum::UVL02 => "UVL02"@,
            ULEnum::UVL03 => "UVL03"@,
            ULEnum::ILP01 => "ILP01"@,
            ULEnum::ILP02 => "ILP02"@,
            ULEnum::ILP03 => "ILP03"@,
        }
    }

    fn product_name(&self) -> (r: String) {
        match self {
            ULEnum::UVL01 => "UVL01".to_owned(),
            ULEnum::UVL02 => "UVL02".to_owned(),
            ULEnum::UVL03 => "UVL03".to_owned(),
            ULEnum::ILP01 => "ILP01".to_owned(),
            ULEnum::ILP02 => "ILP02".to_owned(),
            ULEnum::ILP03 => "ILP03".to_owned(),
        }
    }
}

impl ProductName for BaseEnum {
    open spec fn spec_name(&self) -> Seq<char> {
        match self {
            BaseEnum::UVL01 => "UVL01"@,
            BaseEnum::UVL02 => "UVL02"@,
            BaseEnum::UVL03 => "UVL03"@,
            BaseEnum::ILP01 => "ILP01"@,
            BaseEnum::ILP02 => "ILP02"@,
            BaseEnum::ILP03 => "ILP03"@,
        }
    }

    fn product_name(&self) -> (r: String) {
        match self {
            BaseEnum::UVL01 => "UVL01".to_owned(),
            BaseEnum::UVL02 => "UVL02".to_owned(),
            BaseEnum::UVL03 => "UVL03".to_owned(),
            BaseEnum::ILP01 => "ILP01".to_owned(),
            BaseEnum::ILP02 => "ILP02".to_owned(),
            BaseEnum::ILP03 => "ILP03".to_owned(),
        }
    }
}

impl ProductName for RiderEnum {
    open spec fn spec_name(&self) -> Seq<char> {
        match self {
            RiderEnum::ADD01 => "ADD01"@,
            RiderEnum::PPD01 => "PPD01"@,
            RiderEnum::CIR01 => "CIR01"@,
            RiderEnum::CIR02 => "CIR02"@,
            RiderEnum::SUP01 => "SUP01"@,
            RiderEnum::HOP02 => "HOP02"@,
            RiderEnum::WOP01 => "WOP01"@,
            RiderEnum::WOP02 => "WOP02"@,
        }
    }

    fn product_name(&self) -> (r: String) {
        match self {
            RiderEnum::ADD01 => "ADD01".to_owned(),
            RiderEnum::PPD01 => "PPD01".to_owned(),
            RiderEnum::CIR01 => "CIR01".to_owned(),
            RiderEnum::CIR02 => "CIR02".to_owned(),
            RiderEnum::SUP01 => "SUP01".to_owned(),
            RiderEnum::HOP02 => "HOP02".to_owned(),
            RiderEnum::WOP01 => "WOP01".to_owned(),
            RiderEnum::WOP02 => "WOP02".to_owned(),
        }
    }
}

} // verus!
