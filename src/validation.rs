//! The rules a policy's input must meet before it is projected.
use crate::dates::date_before;
use crate::enums::{FundEnum, ULEnum};
use crate::error::ProjectionError;
use crate::money::SCALE;
use crate::policy::{is_supported, Base, FundAlloc, Load, Withdrawal};
use vstd::prelude::*;

verus! {

/// Which rule an input breaks.
#[derive(Clone, Copy, Debug, PartialEq, Eq, Structural)]
pub enum ValidationError {
    EmLoadNotQuarter,
    EmLoadOutOfRange,
    PmLoadOutOfRange,
    NegativeTerm,
    FundAllocEmpty,
    FundAllocPctOutOfRange,
    TpAllocNotFull,
    EpAllocNotFull,
    WithdrawalFromAfterTo,
    WithdrawalOverlapsPrevious,
    WithdrawalTooEarly,
    FundAllocNotDefault,
    /// The term or must-pay period cannot be had.
    TermUnavailable(ProjectionError),
    OptedTpTermBeyondTerm,
    OptedEpTermBeyondTpTerm,
    OptedEpTermBelowMustPay,
    EmLoadTermBeyondTerm,
    PmLoadTermBeyondTerm,
}

/// The extra-mortality load is a multiple of 0.25.
pub fn em_load_validation(value: u64) -> (r: Result<(), ValidationError>)
    ensures
        r is Ok <==> value % (SCALE / 4) as u64 == 0,
        r matches Err(e) ==> e == ValidationError::EmLoadNotQuarter,
{
    if value % (SCALE / 4) != 0 {
        return Err(ValidationError::EmLoadNotQuarter);
    }
    Ok(())
}

pub open spec fn load_result(l: Load) -> Result<(), ValidationError> {
    if l.em_load % (SCALE / 4) as u64 != 0 {
        Err(ValidationError::EmLoadNotQuarter)
    } else if l.em_load > 5 * (SCALE / 2) {
        Err(ValidationError::EmLoadOutOfRange)
    } else if l.pm_load < 0 || l.pm_load > 15 {
        Err(ValidationError::PmLoadOutOfRange)
    } else if l.em_load_term < 0 || l.pm_load_term < 0 {
        Err(ValidationError::NegativeTerm)
    } else {
        Ok(())
    }
}

impl Load {
    /// The load is a multiple of 0.25 up to 2.5, the per-mille load lies in
    /// 0 to 15, and neither term is negative.
    pub fn validate(&self) -> (r: Result<(), ValidationError>)
        ensures
            r == load_result(*self),
    {
        em_load_validation(self.em_load)?;
        if self.em_load > 5 * (SCALE / 2) {
            return Err(ValidationError::EmLoadOutOfRange);
        }
        if self.pm_load < 0 || self.pm_load > 15 {
            return Err(ValidationError::PmLoadOutOfRange);
        }
        if self.em_load_term < 0 || self.pm_load_term < 0 {
            return Err(ValidationError::NegativeTerm);
        }
        Ok(())
    }
}

pub open spec fn tp_pct_sum(v: Seq<FundAlloc>) -> int
    decreases v.len(),
{
    if v.len() == 0 {
        0
    } else {
        tp_pct_sum(v.drop_last()) + v.last().tp_pct
    }
}

pub open spec fn ep_pct_sum(v: Seq<FundAlloc>) -> int
    decreases v.len(),
{
    if v.len() == 0 {
        0
    } else {
        ep_pct_sum(v.drop_last()) + v.last().ep_pct
    }
}

pub open spec fn fund_alloc_result(v: Seq<FundAlloc>) -> Result<(), ValidationError> {
    if v.len() == 0 {
        Err(ValidationError::FundAllocEmpty)
    } else if tp_pct_sum(v) != 100 {
        Err(ValidationError::TpAllocNotFull)
    } else if ep_pct_sum(v) != 100 {
        Err(ValidationError::EpAllocNotFull)
    } else {
        Ok(())
    }
}

/// The fund allocation is not empty, and the target and excess premium
/// shares each add up to 100.
pub fn fund_alloc_sum_pct_validation(value: &Vec<FundAlloc>) -> (r: Result<(), ValidationError>)
    ensures
        r == fund_alloc_result(value@),
{
    if value.len() == 0 {
        return Err(ValidationError::FundAllocEmpty);
    }
    let mut tp: i128 = 0;
    let mut ep: i128 = 0;
    let mut i: usize = 0;
    while i < value.len()
        invariant
            i <= value.len(),
            tp == tp_pct_sum(value@.take(i as int)),
            ep == ep_pct_sum(value@.take(i as int)),
            -(i as int * 2_147_483_648) <= tp <= i as int * 2_147_483_648,
            -(i as int * 2_147_483_648) <= ep <= i as int * 2_147_483_648,
        decreases value.len() - i,
    {
        proof {
            assert(value@.take(i as int + 1).drop_last() =~= value@.take(i as int));
        }
        let fa = &value[i];
        tp = tp + fa.tp_pct as i128;
        ep = ep + fa.ep_pct as i128;
        i = i + 1;
    }
    proof {
        assert(value@.take(value.len() as int) =~= value@);
    }
    if tp != 100 {
        return Err(ValidationError::TpAllocNotFull);
    }
    if ep != 100 {
        return Err(ValidationError::EpAllocNotFull);
    }
    Ok(())
}

/// The first rule that the planned withdrawals from entry `i` on break.
impl FundAlloc {
    /// Both shares are percentages: 0 to 100.
    pub fn validate(&self) -> (r: Result<(), ValidationError>)
        ensures
            r is Ok <==> 0 <= self.tp_pct <= 100 && 0 <= self.ep_pct <= 100,
            r matches Err(e) ==> e == ValidationError::FundAllocPctOutOfRange,
    {
        if self.tp_pct < 0 || self.tp_pct > 100 || self.ep_pct < 0 || self.ep_pct > 100 {
            return Err(ValidationError::FundAllocPctOutOfRange);
        }
        Ok(())
    }
}

pub open spec fn shares_in_range(v: Seq<FundAlloc>) -> bool {
    forall|i: int| 0 <= i < v.len() ==> 0 <= #[trigger] v[i].tp_pct <= 100 && 0 <= v[i].ep_pct <= 100
}

/// Every entry of the fund allocation passes `FundAlloc::validate`.
pub fn fund_alloc_pct_validation(value: &Vec<FundAlloc>) -> (r: Result<(), ValidationError>)
    ensures
        r is Ok <==> shares_in_range(value@),
        r matches Err(e) ==> e == ValidationError::FundAllocPctOutOfRange,
{
    let mut i: usize = 0;
    while i < value.len()
        invariant
            i <= value.len(),
            forall|j: int|
                0 <= j < i ==> 0 <= #[trigger] value@[j].tp_pct <= 100 && 0 <= value@[j].ep_pct
                    <= 100,
        decreases value.len() - i,
    {
        value[i].validate()?;
        i = i + 1;
    }
    Ok(())
}

pub open spec fn plan_result(plan: Seq<Withdrawal>, i: int) -> Result<(), ValidationError>
    decreases plan.len() - i,
{
    if i < 0 || i >= plan.len() {
        Ok(())
    } else if plan[i].from > plan[i].to {
        Err(ValidationError::WithdrawalFromAfterTo)
    } else if i > 0 && plan[i].from <= plan[i - 1].to {
        Err(ValidationError::WithdrawalOverlapsPrevious)
    } else {
        plan_result(plan, i + 1)
    }
}

/// Each planned withdrawal runs from a year to a later or equal one, and
/// starts after the previous one ends.
pub fn withdrawal_plan_year_input_validation(value: &Option<Vec<Withdrawal>>) -> (r: Result<
    (),
    ValidationError,
>)
    ensures
        match value {
            None => r is Ok,
            Some(plan) => r == plan_result(plan@, 0),
        },
{
    match value {
        None => Ok(()),
        Some(plan) => {
            let mut i: usize = 0;
            while i < plan.len()
                invariant
                    i <= plan.len(),
                    *value == Some(*plan),
                    plan_result(plan@, 0) == plan_result(plan@, i as int),
                decreases plan.len() - i,
            {
                let row = &plan[i];
                if row.from > row.to {
                    return Err(ValidationError::WithdrawalFromAfterTo);
                }
                if i > 0 && row.from <= plan[i - 1].to {
                    return Err(ValidationError::WithdrawalOverlapsPrevious);
                }
                i = i + 1;
            }
            Ok(())
        },
    }
}

pub open spec fn term_result(b: Base) -> Result<(), ValidationError> {
    if !is_supported(b.id) {
        Err(ValidationError::TermUnavailable(ProjectionError::UnsupportedProduct))
    } else if date_before(b.rcd, b.insured.dob) {
        Err(ValidationError::TermUnavailable(ProjectionError::BirthdateAfterCommencement))
    } else if b.opted_tp_term > b.spec_term() {
        Err(ValidationError::OptedTpTermBeyondTerm)
    } else if b.opted_ep_term > b.opted_tp_term {
        Err(ValidationError::OptedEpTermBeyondTpTerm)
    } else if b.opted_ep_term < b.spec_must_pay_period() {
        Err(ValidationError::OptedEpTermBelowMustPay)
    } else if b.load.em_load_term > b.spec_term() {
        Err(ValidationError::EmLoadTermBeyondTerm)
    } else if b.load.pm_load_term > b.spec_term() {
        Err(ValidationError::PmLoadTermBeyondTerm)
    } else {
        Ok(())
    }
}

/// The opted and load terms fit the policy term: the opted target-premium
/// term within it, the opted excess-premium term within that and at least
/// the must-pay period, and both load terms within the policy term.
pub fn term_validation(b: &Base) -> (r: Result<(), ValidationError>)
    requires
        b.wf(),
    ensures
        r == term_result(*b),
{
    let term = match b.term() {
        Ok(t) => t,
        Err(e) => return Err(ValidationError::TermUnavailable(e)),
    };
    let must_pay_period = match b.must_pay_period() {
        Ok(m) => m,
        Err(e) => return Err(ValidationError::TermUnavailable(e)),
    };
    if b.opted_tp_term > term {
        return Err(ValidationError::OptedTpTermBeyondTerm);
    }
    if b.opted_ep_term > b.opted_tp_term {
        return Err(ValidationError::OptedEpTermBeyondTpTerm);
    }
    if b.opted_ep_term < must_pay_period {
        return Err(ValidationError::OptedEpTermBelowMustPay);
    }
    if b.load.em_load_term > term {
        return Err(ValidationError::EmLoadTermBeyondTerm);
    }
    if b.load.pm_load_term > term {
        return Err(ValidationError::PmLoadTermBeyondTerm);
    }
    Ok(())
}

pub open spec fn start_year_result(b: Base) -> Result<(), ValidationError> {
    match b.withdrawal_plan {
        Some(plan) => if plan@.len() > 0 && plan@[0].from < (if is_supported(b.id) {
            2int
        } else {
            0int
        }) {
            Err(ValidationError::WithdrawalTooEarly)
        } else {
            Ok(())
        },
        None => Ok(()),
    }
}

/// The first planned withdrawal falls no earlier than the product allows.
pub fn withdrawal_start_year_validation(b: &Base) -> (r: Result<(), ValidationError>)
    ensures
        r == start_year_result(*b),
{
    if let Some(plan) = &b.withdrawal_plan {
        if plan.len() > 0 {
            let start_year = match b.withdrawal_start_year() {
                Ok(y) => y,
                Err(_) => 0,
            };
            if plan[0].from < start_year {
                return Err(ValidationError::WithdrawalTooEarly);
            }
        }
    }
    Ok(())
}

pub open spec fn default_fund_result(b: Base) -> Result<(), ValidationError> {
    if (b.id == ULEnum::UVL01 || b.id == ULEnum::UVL02 || b.id == ULEnum::UVL03) && (
    b.fund_alloc@.len() != 1 || b.fund_alloc@[0].fund != FundEnum::F000) {
        Err(ValidationError::FundAllocNotDefault)
    } else {
        Ok(())
    }
}

/// The UVL products allocate everything to the single fund F000.
pub fn fund_alloc_default_validation(b: &Base) -> (r: Result<(), ValidationError>)
    ensures
        r == default_fund_result(*b),
{
    match b.id {
        ULEnum::UVL01 | ULEnum::UVL02 | ULEnum::UVL03 => {
            if b.fund_alloc.len() != 1 || b.fund_alloc[0].fund != FundEnum::F000 {
                return Err(ValidationError::FundAllocNotDefault);
            }
        },
        _ => {},
    }
    Ok(())
}

/// The terms, the withdrawal start year and the default fund, in that order.
pub fn base_validation(b: &Base) -> (r: Result<(), ValidationError>)
    requires
        b.wf(),
    ensures
        r == match term_result(*b) {
            Err(e) => Err(e),
            Ok(_) => match start_year_result(*b) {
                Err(e) => Err(e),
                Ok(_) => default_fund_result(*b),
            },
        },
{
    term_validation(b)?;
    withdrawal_start_year_validation(b)?;
    fund_alloc_default_validation(b)?;
    Ok(())
}


pub open spec fn fields_result(b: Base) -> Result<(), ValidationError> {
    if load_result(b.load) is Err {
        load_result(b.load)
    } else if !shares_in_range(b.fund_alloc@) {
        Err(ValidationError::FundAllocPctOutOfRange)
    } else if fund_alloc_result(b.fund_alloc@) is Err {
        fund_alloc_result(b.fund_alloc@)
    } else if (b.withdrawal_plan matches Some(plan) && plan_result(plan@, 0) is Err) {
        plan_result(b.withdrawal_plan->Some_0@, 0)
    } else {
        Ok(())
    }
}

impl Base {
    /// The rules on the base coverage's own fields (the load, each fund
    /// share, the fund shares' sums and the withdrawal plan's order), then
    /// those of `base_validation`.
    pub fn validate(&self) -> (r: Result<(), ValidationError>)
        requires
            self.wf(),
        ensures
            r == match fields_result(*self) {
                Err(e) => Err(e),
                Ok(_) => match term_result(*self) {
                    Err(e) => Err(e),
                    Ok(_) => match start_year_result(*self) {
                        Err(e) => Err(e),
                        Ok(_) => default_fund_result(*self),
                    },
                },
            },
    {
        self.load.validate()?;
        fund_alloc_pct_validation(&self.fund_alloc)?;
        fund_alloc_sum_pct_validation(&self.fund_alloc)?;
        withdrawal_plan_year_input_validation(&self.withdrawal_plan)?;
        base_validation(self)
    }
}

} // verus!
