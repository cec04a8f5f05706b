//! The yearly partial withdrawal and its outcomes.
use crate::enums::DeathTPDBenefitEnum;
use vstd::prelude::*;

verus! {

/// What became of the year's scheduled withdrawal.
#[derive(Clone, Copy, Debug, PartialEq, Eq, Structural)]
pub enum WithdrawalLog {
    NoWithdrawal,
    ExceedsAccountValue,
    PavBelowLimit,
    SiBelowLimit,
    Success,
}

impl WithdrawalLog {
    /// The message recorded in a projection row for this outcome.
    pub fn message(&self) -> &'static str {
        match self {
            WithdrawalLog::NoWithdrawal => "No withdrawal.",
            WithdrawalLog::ExceedsAccountValue => "Withdrawal amount exceeds policy account value.",
            WithdrawalLog::PavBelowLimit => "After withdrawal, end PAV is below acceptable limit.",
            WithdrawalLog::SiBelowLimit => "After withdrawal, end SI is below acceptable limit.",
            WithdrawalLog::Success => "Successfully withdraw.",
        }
    }
}

/// The product limits a withdrawal is held to.
#[derive(Clone, Copy, Debug)]
pub struct WithdrawalRules {
    pub death_tpd_option: DeathTPDBenefitEnum,
    /// Smallest account value allowed to remain after a withdrawal.
    pub min_pav_after_withdrawal: u64,
    /// Smallest sum insured allowed after a withdrawal.
    pub min_si: u64,
}

/// The amounts taken and the sum insured left by a withdrawal.
#[derive(Clone, Copy, Debug)]
pub struct WithdrawalResult {
    pub withdrawal: u64,
    pub eav_withdrawal: u64,
    pub tav_withdrawal: u64,
    pub end_si: u64,
    pub log: WithdrawalLog,
}

/// The model of a withdrawal: (total, from EAV, from TAV, end SI, outcome).
pub open spec fn withdrawal_outcome(
    amount: int,
    eav: int,
    tav: int,
    si: int,
    rules: WithdrawalRules,
) -> (int, int, int, int, WithdrawalLog) {
    let pav = eav + tav;
    let eav_w = if eav < amount { eav } else { amount };
    let tav_w = amount - eav_w;
    let end_si = if rules.death_tpd_option == DeathTPDBenefitEnum::A {
        si
    } else {
        (if pav > si { pav } else { si }) - amount
    };
    if amount == 0 {
        (0, 0, 0, si, WithdrawalLog::NoWithdrawal)
    } else if amount > pav {
        (0, 0, 0, si, WithdrawalLog::ExceedsAccountValue)
    } else if pav - amount < rules.min_pav_after_withdrawal {
        (0, 0, 0, si, WithdrawalLog::PavBelowLimit)
    } else if end_si < rules.min_si {
        (0, 0, 0, si, WithdrawalLog::SiBelowLimit)
    } else {
        (amount, eav_w, tav_w, end_si, WithdrawalLog::Success)
    }
}

impl WithdrawalResult {
    pub open spec fn matches(
        &self,
        m: (int, int, int, int, WithdrawalLog),
    ) -> bool {
        &&& self.withdrawal as int == m.0
        &&& self.eav_withdrawal as int == m.1
        &&& self.tav_withdrawal as int == m.2
        &&& self.end_si as int == m.3
        &&& self.log == m.4
    }
}

/// Applies the scheduled withdrawal `amount` to the account values `eav` and
/// `tav` and the sum insured `si`.
pub fn calculate_withdrawal(
    amount: u64,
    eav: u64,
    tav: u64,
    si: u64,
    rules: &WithdrawalRules,
) -> (r: WithdrawalResult)
    requires
        eav + tav <= u64::MAX,
    ensures
        r.matches(withdrawal_outcome(amount as int, eav as int, tav as int, si as int, *rules)),
{
    if amount == 0 {
        return WithdrawalResult {
            withdrawal: 0,
            eav_withdrawal: 0,
            tav_withdrawal: 0,
            end_si: si,
            log: WithdrawalLog::NoWithdrawal,
        };
    }
    let pav: u64 = eav + tav;
    if amount > pav {
        return WithdrawalResult {
            withdrawal: 0,
            eav_withdrawal: 0,
            tav_withdrawal: 0,
            end_si: si,
            log: WithdrawalLog::ExceedsAccountValue,
        };
    }
    let eav_withdrawal: u64 = if eav < amount { eav } else { amount };
    let tav_withdrawal: u64 = amount - eav_withdrawal;
    let end_eav: u64 = eav - eav_withdrawal;
    let end_tav: u64 = tav - tav_withdrawal;
    let end_pav: u64 = end_eav + end_tav;
    if end_pav < rules.min_pav_after_withdrawal {
        return WithdrawalResult {
            withdrawal: 0,
            eav_withdrawal: 0,
            tav_withdrawal: 0,
            end_si: si,
            log: WithdrawalLog::PavBelowLimit,
        };
    }
    let end_si: u64 = match rules.death_tpd_option {
        DeathTPDBenefitEnum::A => si,
        DeathTPDBenefitEnum::B => (if pav > si { pav } else { si }) - amount,
    };
    if end_si < rules.min_si {
        return WithdrawalResult {
            withdrawal: 0,
            eav_withdrawal: 0,
            tav_withdrawal: 0,
            end_si: si,
            log: WithdrawalLog::SiBelowLimit,
        };
    }
    WithdrawalResult {
        withdrawal: amount,
        eav_withdrawal,
        tav_withdrawal,
        end_si,
        log: WithdrawalLog::Success,
    }
}

/// A withdrawal ends in exactly one outcome. An accepted one takes the whole
/// requested amount, split between the two accounts, and never more than
/// either holds. A refused one takes nothing and leaves the sum insured as it
/// was.
pub proof fn lemma_withdrawal_outcomes(
    amount: int,
    eav: int,
    tav: int,
    si: int,
    rules: WithdrawalRules,
)
    requires
        amount >= 0,
        eav >= 0,
        tav >= 0,
        si >= 0,
    ensures
        ({
            let m = withdrawal_outcome(amount, eav, tav, si, rules);
            &&& m.4 == WithdrawalLog::Success ==> m.1 + m.2 == amount && m.0 == amount && 0 <= m.1
                <= eav && 0 <= m.2 <= tav && m.3 >= 0
            &&& m.4 != WithdrawalLog::Success ==> m.0 == 0 && m.1 == 0 && m.2 == 0 && m.3 == si
        }),
{
}

} // verus!
