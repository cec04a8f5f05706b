//! Policies, their base coverage and the product rules that apply to them.
use crate::dates::{
    age_between, calculate_age, calculate_month_age, date_before, month_age_between, Date,
};
use crate::enums::{
    ChannelEnum, DeathTPDBenefitEnum, FundEnum, IntRateScenarioEnum, PayModeEnum, ProductName,
    RiderEnum, StatusEnum, ULEnum,
};
use crate::error::ProjectionError;
use crate::money::{ceil_thousands, round_up_thousands, AMOUNT_MAX, RATE_MAX, SCALE};
use crate::people::{Insured, Owner};
use crate::tables::{
    count_product_rows, extra_prem_key, get_admin_chrg_lf, get_coi_rate_lf,
    get_ep_alloc_chrg_rate_lf, get_extra_prem_rate, get_gir, get_hir, get_int_rate_result,
    get_juvenile_lien_rate_lf, get_lb_rate_lf, get_lir, get_modal_factor_tuple, get_prem_rate,
    get_srr_chrg_rate_lf, get_tp_alloc_chrg_rate_lf, mode_rate, prem_key, select_alloc_rows,
    select_coi_rows, select_rows, AllocChrgRateRow, ChrgEnum, CoiRateRow, ExtraPremRateRow,
    IntRateRow, ModalFactorRow, PremRateRow, ProductRateRow, RateEntry, RateTable,
};
use vstd::prelude::*;

verus! {

/// Extra-mortality and per-mille loads of a substandard life.
#[derive(Clone, Copy, Debug)]
pub struct Load {
    /// Extra-mortality load, a rate in parts per `SCALE`.
    pub em_load: u64,
    pub em_load_term: i32,
    /// Per-mille load, per 1000 of benefit.
    pub pm_load: i32,
    pub pm_load_term: i32,
}

#[derive(Clone, Copy, Debug)]
pub struct FundAlloc {
    pub fund: FundEnum,
    /// Percent of the target premium, a whole number.
    pub tp_pct: i32,
    /// Percent of the excess premium, a whole number.
    pub ep_pct: i32,
}

/// A planned withdrawal of `amount` in each policy year from `from` to `to`.
#[derive(Clone, Copy, Debug)]
pub struct Withdrawal {
    pub from: i32,
    pub to: i32,
    pub amount: u64,
}

#[derive(Clone, Debug)]
pub struct Rider {
    pub id: RiderEnum,
    pub rcd: Date,
    pub paymode: PayModeEnum,
    pub channel: ChannelEnum,
    pub status: StatusEnum,
    pub insured: Insured,
    pub load: Option<Load>,
    pub si: Option<u64>,
    pub hop2_option: Option<i32>,
}

/// The base coverage of a policy.
#[derive(Clone, Debug)]
pub struct Base {
    pub id: ULEnum,
    /// Risk commencement date.
    pub rcd: Date,
    pub paymode: PayModeEnum,
    pub channel: ChannelEnum,
    pub status: StatusEnum,
    pub insured: Insured,
    pub load: Load,
    pub si: u64,
    pub opted_tp_term: i32,
    pub ep: u64,
    pub opted_ep_term: i32,
    pub death_tpd_option: DeathTPDBenefitEnum,
    pub maturity_option: i32,
    pub acc_ben_coeff: i32,
    pub fund_alloc: Vec<FundAlloc>,
    pub withdrawal_plan: Option<Vec<Withdrawal>>,
}

#[derive(Clone, Debug)]
pub struct Policy {
    pub id: String,
    pub owner: Owner,
    pub created_date: Date,
    pub base: Base,
    pub rider: Option<Vec<Rider>>,
}

/// The products with rules for the base coverage.
pub open spec fn is_supported(id: ULEnum) -> bool {
    id == ULEnum::UVL01 || id == ULEnum::UVL02 || id == ULEnum::UVL03 || id == ULEnum::ILP01
}

/// The planned withdrawal amount of a policy year: that of the first plan
/// entry whose years hold it, else 0.
pub open spec fn plan_amount(plan: Seq<Withdrawal>, year: int) -> int
    decreases plan.len(),
{
    if plan.len() == 0 {
        0
    } else if plan[0].from <= year <= plan[0].to {
        plan[0].amount as int
    } else {
        plan_amount(plan.drop_first(), year)
    }
}

/// The (year, amount) entries of one planned withdrawal, one per year.
pub open spec fn range_entries(w: Withdrawal) -> Seq<RateEntry> {
    if w.from <= w.to {
        Seq::new(
            (w.to - w.from + 1) as nat,
            |k: int| RateEntry { key: (w.from + k) as i32, value: w.amount },
        )
    } else {
        seq![]
    }
}

/// The (year, amount) entries of a withdrawal plan, in plan order.
pub open spec fn plan_entries(plan: Seq<Withdrawal>) -> Seq<RateEntry>
    decreases plan.len(),
{
    if plan.len() == 0 {
        seq![]
    } else {
        plan_entries(plan.drop_last()) + range_entries(plan.last())
    }
}

impl Base {
    /// The values a projection reads lie in their validated ranges.
    pub open spec fn wf(&self) -> bool {
        &&& self.rcd.wf()
        &&& self.insured.dob.wf()
        &&& self.si <= AMOUNT_MAX
        &&& self.ep <= AMOUNT_MAX
        &&& self.load.em_load <= RATE_MAX
        &&& 0 <= self.load.pm_load <= 1000
        &&& 0 <= self.acc_ben_coeff <= 100
        &&& self.withdrawal_plan matches Some(plan) ==> forall|i: int|
            0 <= i < plan@.len() ==> (#[trigger] plan@[i]).amount <= AMOUNT_MAX
    }

    pub open spec fn spec_entry_age(&self) -> int {
        age_between(self.insured.dob, self.rcd)
    }

    pub open spec fn spec_maturity_age(&self) -> int {
        if self.maturity_option == 1 { 100 } else { 66 }
    }

    pub open spec fn spec_term(&self) -> int {
        self.spec_maturity_age() - self.spec_entry_age()
    }

    /// Age of the insured at risk commencement, in completed years.
    pub fn entry_age(&self) -> (r: Result<i32, ProjectionError>)
        requires
            self.wf(),
        ensures
            date_before(self.rcd, self.insured.dob) <==> r is Err,
            r matches Err(e) ==> e == ProjectionError::BirthdateAfterCommencement,
            r matches Ok(a) ==> a == self.spec_entry_age() && a >= 0,
    {
        match calculate_age(&self.insured.dob, &self.rcd) {
            Ok(a) => Ok(a),
            Err(_) => Err(ProjectionError::BirthdateAfterCommencement),
        }
    }

    /// Age of the insured at risk commencement in completed months, for an
    /// insured under one year of age.
    pub fn entry_month_age(&self) -> (r: Result<i32, ProjectionError>)
        requires
            self.wf(),
        ensures
            date_before(self.rcd, self.insured.dob) ==> r == Err::<i32, ProjectionError>(
                ProjectionError::BirthdateAfterCommencement,
            ),
            !date_before(self.rcd, self.insured.dob) && self.spec_entry_age() != 0 ==> r == Err::<
                i32,
                ProjectionError,
            >(ProjectionError::NotApplicable),
            !date_before(self.rcd, self.insured.dob) && self.spec_entry_age() == 0 ==> r == Ok::<
                i32,
                ProjectionError,
            >(month_age_between(self.insured.dob, self.rcd) as i32),
    {
        if self.entry_age()? == 0 {
            match calculate_month_age(&self.insured.dob, &self.rcd) {
                Ok(m) => Ok(m),
                Err(_) => Err(ProjectionError::BirthdateAfterCommencement),
            }
        } else {
            Err(ProjectionError::NotApplicable)
        }
    }

    /// Maturity age: 100 under maturity option 1, else 66.
    pub fn maturity_age(&self) -> (r: Result<i32, ProjectionError>)
        ensures
            is_supported(self.id) ==> r == Ok::<i32, ProjectionError>(
                self.spec_maturity_age() as i32,
            ),
            !is_supported(self.id) ==> r == Err::<i32, ProjectionError>(
                ProjectionError::UnsupportedProduct,
            ),
    {
        match self.id {
            ULEnum::UVL01 | ULEnum::UVL02 | ULEnum::UVL03 | ULEnum::ILP01 => {
                if self.maturity_option == 1 {
                    Ok(100)
                } else {
                    Ok(66)
                }
            },
            _ => Err(ProjectionError::UnsupportedProduct),
        }
    }

    /// Policy term: maturity age less entry age.
    pub fn term(&self) -> (r: Result<i32, ProjectionError>)
        requires
            self.wf(),
        ensures
            !is_supported(self.id) ==> r == Err::<i32, ProjectionError>(
                ProjectionError::UnsupportedProduct,
            ),
            is_supported(self.id) && date_before(self.rcd, self.insured.dob) ==> r == Err::<
                i32,
                ProjectionError,
            >(ProjectionError::BirthdateAfterCommencement),
            is_supported(self.id) && !date_before(self.rcd, self.insured.dob) ==> r is Ok,
            r matches Ok(t) ==> t == self.spec_term() && is_supported(self.id) && !date_before(
                self.rcd,
                self.insured.dob,
            ),
    {
        let m = self.maturity_age()?;
        let e = self.entry_age()?;
        Ok(m - e)
    }

    /// Term of the accidental benefit: to age 66.
    pub fn acc_ben_term(&self) -> (r: Result<i32, ProjectionError>)
        requires
            self.wf(),
        ensures
            !is_supported(self.id) ==> r == Err::<i32, ProjectionError>(
                ProjectionError::UnsupportedProduct,
            ),
            is_supported(self.id) && date_before(self.rcd, self.insured.dob) ==> r == Err::<
                i32,
                ProjectionError,
            >(ProjectionError::BirthdateAfterCommencement),
            is_supported(self.id) && !date_before(self.rcd, self.insured.dob) ==> r is Ok,
            r matches Ok(t) ==> t == 66 - self.spec_entry_age() && is_supported(self.id)
                && !date_before(self.rcd, self.insured.dob),
    {
        match self.id {
            ULEnum::UVL01 | ULEnum::UVL02 | ULEnum::UVL03 | ULEnum::ILP01 => {
                let e = self.entry_age()?;
                Ok(66 - e)
            },
            _ => Err(ProjectionError::UnsupportedProduct),
        }
    }

    pub open spec fn spec_withdrawal_amount(&self, year: int) -> int {
        match self.withdrawal_plan {
            Some(plan) => plan_amount(plan@, year),
            None => 0,
        }
    }

    /// The withdrawal plan as a table: for each planned withdrawal, one
    /// entry per year from its first to its last year.
    pub fn withdrawal_plan_lf(&self) -> (r: RateTable)
        ensures
            r.entries@ == match self.withdrawal_plan {
                Some(plan) => plan_entries(plan@),
                None => seq![],
            },
    {
        let mut entries: Vec<RateEntry> = Vec::new();
        if let Some(plan) = &self.withdrawal_plan {
            let mut i: usize = 0;
            while i < plan.len()
                invariant
                    i <= plan.len(),
                    self.withdrawal_plan == Some(*plan),
                    entries@ == plan_entries(plan@.take(i as int)),
                decreases plan.len() - i,
            {
                let w = plan[i];
                let ghost before = entries@;
                let ghost f = |k: int| RateEntry { key: (w.from + k) as i32, value: w.amount };
                let mut y: i64 = w.from as i64;
                while y <= w.to as i64
                    invariant
                        w.from <= y,
                        y <= w.to as int + 1 || y == w.from,
                        entries@ == before + Seq::new((y - w.from) as nat, f),
                        f == (|k: int| RateEntry { key: (w.from + k) as i32, value: w.amount }),
                    decreases w.to as int + 1 - y,
                {
                    entries.push(RateEntry { key: y as i32, value: w.amount });
                    proof {
                        assert(Seq::new((y + 1 - w.from) as nat, f) =~= Seq::new(
                            (y - w.from) as nat,
                            f,
                        ).push(f(y - w.from)));
                    }
                    y = y + 1;
                }
                proof {
                    assert(plan@.take(i as int + 1).drop_last() =~= plan@.take(i as int));
                    assert(plan@.take(i as int + 1).last() == w);
                    assert(Seq::new((y - w.from) as nat, f) =~= range_entries(w));
                }
                i = i + 1;
            }
            proof {
                assert(plan@.take(plan.len() as int) =~= plan@);
            }
        }
        RateTable { entries }
    }

    /// The withdrawal the plan schedules for a policy year, 0 where none.
    pub fn withdrawal_amount(&self, year: i32) -> (r: u64)
        ensures
            r == self.spec_withdrawal_amount(year as int),
    {
        match &self.withdrawal_plan {
            None => 0,
            Some(plan) => {
                let mut i: usize = 0;
                proof {
                    assert(plan@.skip(0) =~= plan@);
                }
                while i < plan.len()
                    invariant
                        i <= plan.len(),
                        self.spec_withdrawal_amount(year as int) == plan_amount(plan@, year as int),
                        plan_amount(plan@, year as int) == plan_amount(
                            plan@.skip(i as int),
                            year as int,
                        ),
                    decreases plan.len() - i,
                {
                    proof {
                        assert(plan@.skip(i as int).drop_first() =~= plan@.skip(i as int + 1));
                        assert(plan@.skip(i as int)[0] == plan@[i as int]);
                    }
                    if plan[i].from <= year && year <= plan[i].to {
                        proof {
                            let rest = plan@.skip(i as int);
                            assert(rest.len() > 0);
                            assert(plan_amount(rest, year as int) == plan@[i as int].amount as int);
                        }
                        return plan[i].amount;
                    }
                    i = i + 1;
                }
                0
            },
        }
    }

    /// Annual, semi-annual, quarterly and monthly target premium: the crude
    /// premium `prem_rate * si / 1000` times each modal factor, rounded up to
    /// a multiple of 1000.
    pub fn modal_tp_tuple(&self, prem_rate: u64, factors: &ModalFactors) -> (r: (
        u64,
        u64,
        u64,
        u64,
    ))
        requires
            self.wf(),
            prem_rate <= RATE_MAX,
            factors.wf(),
        ensures
            r.0 == spec_modal_tp(factors.annual as int, prem_rate as int, self.si as int),
            r.1 == spec_modal_tp(factors.semi_annual as int, prem_rate as int, self.si as int),
            r.2 == spec_modal_tp(factors.quarterly as int, prem_rate as int, self.si as int),
            r.3 == spec_modal_tp(factors.monthly as int, prem_rate as int, self.si as int),
    {
        (
            modal_tp(factors.annual, prem_rate, self.si),
            modal_tp(factors.semi_annual, prem_rate, self.si),
            modal_tp(factors.quarterly, prem_rate, self.si),
            modal_tp(factors.monthly, prem_rate, self.si),
        )
    }

    /// Annual, semi-annual, quarterly and monthly excess premium: the excess
    /// premium times each modal factor, rounded up to a multiple of 1000.
    pub fn modal_ep_tuple(&self, factors: &ModalFactors) -> (r: (u64, u64, u64, u64))
        requires
            self.wf(),
            factors.wf(),
        ensures
            r.0 == spec_modal_ep(factors.annual as int, self.ep as int),
            r.1 == spec_modal_ep(factors.semi_annual as int, self.ep as int),
            r.2 == spec_modal_ep(factors.quarterly as int, self.ep as int),
            r.3 == spec_modal_ep(factors.monthly as int, self.ep as int),
    {
        (
            modal_ep(factors.annual, self.ep),
            modal_ep(factors.semi_annual, self.ep),
            modal_ep(factors.quarterly, self.ep),
            modal_ep(factors.monthly, self.ep),
        )
    }

    pub open spec fn spec_big_case_bonus(&self, tp: int) -> Option<int> {
        match self.id {
            ULEnum::ILP01 => if tp >= 100_000_000 {
                Some(tp * 5 / 100)
            } else if tp >= 50_000_000 {
                Some(tp * 3 / 100)
            } else {
                None
            },
            ULEnum::UVL01 | ULEnum::UVL02 | ULEnum::UVL03 => Some(0),
            _ => None,
        }
    }

    /// First-year bonus on a large annual target premium `tp`: 5% from
    /// 100,000,000 and 3% from 50,000,000 for ILP01, none for the UVL
    /// products. Other cases have no rule.
    pub fn big_case_bonus(&self, tp: u64) -> (r: Result<u64, ProjectionError>)
        requires
            tp <= AMOUNT_MAX,
        ensures
            match self.spec_big_case_bonus(tp as int) {
                Some(b) => r == Ok::<u64, ProjectionError>(b as u64) && b <= tp,
                None => r == Err::<u64, ProjectionError>(ProjectionError::UnsupportedProduct),
            },
    {
        match self.id {
            ULEnum::ILP01 => {
                if tp >= 100_000_000 {
                    Ok(tp * 5 / 100)
                } else if tp >= 50_000_000 {
                    Ok(tp * 3 / 100)
                } else {
                    Err(ProjectionError::UnsupportedProduct)
                }
            },
            ULEnum::UVL01 | ULEnum::UVL02 | ULEnum::UVL03 => Ok(0),
            _ => Err(ProjectionError::UnsupportedProduct),
        }
    }

    pub open spec fn spec_must_pay_period(&self) -> int {
        if self.id == ULEnum::UVL01 { 4 } else { 3 }
    }

    /// Years of premium that must be paid: 4 for UVL01, 3 for the others.
    pub fn must_pay_period(&self) -> (r: Result<i32, ProjectionError>)
        ensures
            is_supported(self.id) ==> r == Ok::<i32, ProjectionError>(
                self.spec_must_pay_period() as i32,
            ),
            !is_supported(self.id) ==> r == Err::<i32, ProjectionError>(
                ProjectionError::UnsupportedProduct,
            ),
    {
        match self.id {
            ULEnum::UVL01 => Ok(4),
            ULEnum::UVL02 | ULEnum::UVL03 | ULEnum::ILP01 => Ok(3),
            _ => Err(ProjectionError::UnsupportedProduct),
        }
    }

    /// Smallest account value a withdrawal may leave: the annual target
    /// premium `tp`.
    pub fn min_pav_after_withdrawal(&self, tp: u64) -> (r: Result<u64, ProjectionError>)
        ensures
            is_supported(self.id) ==> r == Ok::<u64, ProjectionError>(tp),
            !is_supported(self.id) ==> r == Err::<u64, ProjectionError>(
                ProjectionError::UnsupportedProduct,
            ),
    {
        match self.id {
            ULEnum::UVL01 | ULEnum::UVL02 | ULEnum::UVL03 | ULEnum::ILP01 => Ok(tp),
            _ => Err(ProjectionError::UnsupportedProduct),
        }
    }

    /// Smallest sum insured a withdrawal may leave: 100,000,000.
    pub fn min_si(&self) -> (r: Result<u64, ProjectionError>)
        ensures
            is_supported(self.id) ==> r == Ok::<u64, ProjectionError>(100_000_000),
            !is_supported(self.id) ==> r == Err::<u64, ProjectionError>(
                ProjectionError::UnsupportedProduct,
            ),
    {
        match self.id {
            ULEnum::UVL01 | ULEnum::UVL02 | ULEnum::UVL03 | ULEnum::ILP01 => Ok(100_000_000),
            _ => Err(ProjectionError::UnsupportedProduct),
        }
    }

    /// First policy year in which a withdrawal may be planned: 2.
    pub fn withdrawal_start_year(&self) -> (r: Result<i32, ProjectionError>)
        ensures
            is_supported(self.id) ==> r == Ok::<i32, ProjectionError>(2),
            !is_supported(self.id) ==> r == Err::<i32, ProjectionError>(
                ProjectionError::UnsupportedProduct,
            ),
    {
        match self.id {
            ULEnum::UVL01 | ULEnum::UVL02 | ULEnum::UVL03 | ULEnum::ILP01 => Ok(2),
            _ => Err(ProjectionError::UnsupportedProduct),
        }
    }

    pub open spec fn spec_acc_coi_rate(&self) -> int {
        if self.id == ULEnum::ILP01 { 0 } else { 75_000 }
    }

    /// Monthly accidental cost-of-insurance rate: 0.000075 for the UVL
    /// products, none for ILP01.
    pub fn acc_coi_rate(&self) -> (r: Result<u64, ProjectionError>)
        ensures
            is_supported(self.id) ==> r == Ok::<u64, ProjectionError>(
                self.spec_acc_coi_rate() as u64,
            ),
            !is_supported(self.id) ==> r == Err::<u64, ProjectionError>(
                ProjectionError::UnsupportedProduct,
            ),
    {
        match self.id {
            ULEnum::UVL01 | ULEnum::UVL02 | ULEnum::UVL03 => Ok(75_000),
            ULEnum::ILP01 => Ok(0),
            _ => Err(ProjectionError::UnsupportedProduct),
        }
    }

    pub open spec fn spec_lb_review_period(&self) -> int {
        if self.id == ULEnum::UVL01 { 4 } else { 3 }
    }

    /// Years without a TAV withdrawal that a loyalty bonus asks for.
    pub fn lb_review_period(&self) -> (r: Result<i32, ProjectionError>)
        ensures
            is_supported(self.id) ==> r == Ok::<i32, ProjectionError>(
                self.spec_lb_review_period() as i32,
            ),
            !is_supported(self.id) ==> r == Err::<i32, ProjectionError>(
                ProjectionError::UnsupportedProduct,
            ),
    {
        match self.id {
            ULEnum::UVL01 => Ok(4),
            ULEnum::UVL02 | ULEnum::UVL03 | ULEnum::ILP01 => Ok(3),
            _ => Err(ProjectionError::UnsupportedProduct),
        }
    }

    /// Years without a TAV withdrawal that a special bonus asks for: 10.
    pub fn sb_review_period(&self) -> (r: Result<i32, ProjectionError>)
        ensures
            is_supported(self.id) ==> r == Ok::<i32, ProjectionError>(10),
            !is_supported(self.id) ==> r == Err::<i32, ProjectionError>(
                ProjectionError::UnsupportedProduct,
            ),
    {
        match self.id {
            ULEnum::UVL01 | ULEnum::UVL02 | ULEnum::UVL03 | ULEnum::ILP01 => Ok(10),
            _ => Err(ProjectionError::UnsupportedProduct),
        }
    }

    /// The high, low and guaranteed annual interest rates of the product;
    /// the guaranteed rate holds only for the UVL products, and is zero for
    /// the others.
    pub fn int_rate_tuple(&self, rows: &Vec<IntRateRow>) -> (r: Result<
        (u64, u64, u64),
        ProjectionError,
    >)
        ensures
            ({
                let uvl = self.id == ULEnum::UVL01 || self.id == ULEnum::UVL02 || self.id
                    == ULEnum::UVL03;
                let h = get_int_rate_result(self.id, IntRateScenarioEnum::High, rows@);
                let l = get_int_rate_result(self.id, IntRateScenarioEnum::Low, rows@);
                let g = if uvl {
                    get_int_rate_result(self.id, IntRateScenarioEnum::Guaranteed, rows@)
                } else {
                    Ok(0)
                };
                match (h, l, g) {
                    (Ok(hv), Ok(lv), Ok(gv)) => r == Ok::<(u64, u64, u64), ProjectionError>(
                        (hv, lv, gv),
                    ),
                    _ => r is Err,
                }
            }),
    {
        let hir = get_hir(&self.id, rows)?;
        let lir = get_lir(&self.id, rows)?;
        let gir = match self.id {
            ULEnum::UVL01 | ULEnum::UVL02 | ULEnum::UVL03 => get_gir(&self.id, rows)?,
            _ => 0,
        };
        Ok((hir, lir, gir))
    }

    /// The extra-mortality load term less one year.
    pub open spec fn spec_extra_prem_term(&self) -> i32 {
        if self.load.em_load_term > i32::MIN {
            (self.load.em_load_term - 1) as i32
        } else {
            i32::MIN
        }
    }

    /// The extra-premium rate of the insured, for the extra-mortality load
    /// term less one year.
    pub fn extra_prem_rate(&self, rows: &Vec<ExtraPremRateRow>) -> (r: Result<u64, ProjectionError>)
        requires
            self.wf(),
        ensures
            date_before(self.rcd, self.insured.dob) ==> r == Err::<u64, ProjectionError>(
                ProjectionError::BirthdateAfterCommencement,
            ),
            r matches Ok(v) ==> exists|i: int|
                0 <= i < rows@.len() && extra_prem_key(
                    rows@[i],
                    self.id.spec_name(),
                    self.insured.gender.spec_code(),
                    self.spec_entry_age() as i32,
                    if self.spec_extra_prem_term() < 99 {
                        self.spec_extra_prem_term()
                    } else {
                        99
                    },
                ) && v == rows@[i].rate,
    {
        let term: i32 = if self.load.em_load_term > i32::MIN {
            self.load.em_load_term - 1
        } else {
            i32::MIN
        };
        let age = self.entry_age()?;
        get_extra_prem_rate(&self.id, &self.insured.gender, &age, &term, rows)
    }

    /// The premium rate of the insured, per 1000 of sum insured.
    pub fn prem_rate(&self, rows: &Vec<PremRateRow>) -> (r: Result<u64, ProjectionError>)
        requires
            self.wf(),
        ensures
            date_before(self.rcd, self.insured.dob) ==> r == Err::<u64, ProjectionError>(
                ProjectionError::BirthdateAfterCommencement,
            ),
            r matches Ok(v) ==> exists|i: int|
                0 <= i < rows@.len() && prem_key(
                    rows@[i],
                    self.id.spec_name(),
                    self.insured.gender.spec_code(),
                    self.spec_entry_age() as i32,
                ) && v == rows@[i].rate,
    {
        let age = self.entry_age()?;
        get_prem_rate(&self.id, &self.insured.gender, &age, rows)
    }

    /// The modal factors of the product; see `tables::get_modal_factor_tuple`.
    pub fn modal_factor_tuple(&self, rows: &Vec<ModalFactorRow>) -> (r: Result<
        ModalFactors,
        ProjectionError,
    >)
        ensures
            ({
                let name = self.id.spec_name();
                &&& r is Ok <==> (count_product_rows(rows@, name) == 4 && mode_rate(rows@, name, 0) is Some
                    && mode_rate(rows@, name, 1) is Some && mode_rate(rows@, name, 2) is Some
                    && mode_rate(rows@, name, 3) is Some)
                &&& r matches Ok(f) ==> Some(f.annual) == mode_rate(rows@, name, 0) && Some(
                    f.semi_annual,
                ) == mode_rate(rows@, name, 1) && Some(f.quarterly) == mode_rate(rows@, name, 2)
                    && Some(f.monthly) == mode_rate(rows@, name, 3)
            }),
    {
        get_modal_factor_tuple(&self.id, rows)
    }

    /// The product's target-premium allocation-charge rates.
    pub fn tp_alloc_chrg_rate_lf(&self, rows: &Vec<AllocChrgRateRow>) -> (r: RateTable)
        ensures
            r.entries@ == select_alloc_rows(rows@, self.id.spec_name(), ChrgEnum::TP),
    {
        get_tp_alloc_chrg_rate_lf(&self.id, rows)
    }

    /// The product's excess-premium allocation-charge rates.
    pub fn ep_alloc_chrg_rate_lf(&self, rows: &Vec<AllocChrgRateRow>) -> (r: RateTable)
        ensures
            r.entries@ == select_alloc_rows(rows@, self.id.spec_name(), ChrgEnum::EP),
    {
        get_ep_alloc_chrg_rate_lf(&self.id, rows)
    }

    /// The product's surrender-charge rates.
    pub fn srr_chrg_rate_lf(&self, rows: &Vec<ProductRateRow>) -> (r: RateTable)
        ensures
            r.entries@ == select_rows(rows@, self.id.spec_name()),
    {
        get_srr_chrg_rate_lf(&self.id, rows)
    }

    /// The product's juvenile-lien factors.
    pub fn juvenile_lien_rate_lf(&self, rows: &Vec<ProductRateRow>) -> (r: RateTable)
        ensures
            r.entries@ == select_rows(rows@, self.id.spec_name()),
    {
        get_juvenile_lien_rate_lf(&self.id, rows)
    }

    /// The product's administration charges.
    pub fn admin_chrg_lf(&self, rows: &Vec<ProductRateRow>) -> (r: RateTable)
        ensures
            r.entries@ == select_rows(rows@, self.id.spec_name()),
    {
        get_admin_chrg_lf(&self.id, rows)
    }

    /// The product's loyalty-bonus rates.
    pub fn lb_rate_lf(&self, rows: &Vec<ProductRateRow>) -> (r: RateTable)
        ensures
            r.entries@ == select_rows(rows@, self.id.spec_name()),
    {
        get_lb_rate_lf(&self.id, rows)
    }

    /// The product's cost-of-insurance rates for the insured's gender.
    pub fn coi_rate_lf(&self, rows: &Vec<CoiRateRow>) -> (r: RateTable)
        ensures
            r.entries@ == select_coi_rows(rows@, self.id.spec_name(), self.insured.gender.spec_code()),
    {
        get_coi_rate_lf(&self.id, &self.insured.gender, rows)
    }
}

/// Modal factors: the share of the annual premium paid at each mode.
#[derive(Clone, Copy, Debug, PartialEq, Eq, Structural)]
pub struct ModalFactors {
    pub annual: u64,
    pub semi_annual: u64,
    pub quarterly: u64,
    pub monthly: u64,
}

impl ModalFactors {
    pub open spec fn wf(&self) -> bool {
        &&& self.annual <= RATE_MAX
        &&& self.semi_annual <= RATE_MAX
        &&& self.quarterly <= RATE_MAX
        &&& self.monthly <= RATE_MAX
    }
}

/// An annual interest rate with the annuity-due factor that turns twelve
/// monthly installments of one twelfth into a present value at that rate.
#[derive(Clone, Copy, Debug, PartialEq, Eq, Structural)]
pub struct InterestBasis {
    pub annual_rate: u64,
    pub due_a_n1_m12: u64,
}

/// The interest bases of the three interest-rate scenarios.
#[derive(Clone, Copy, Debug, PartialEq, Eq, Structural)]
pub struct IntRates {
    pub high: InterestBasis,
    pub low: InterestBasis,
    pub guaranteed: InterestBasis,
}

impl IntRates {
    pub open spec fn wf(&self) -> bool {
        &&& self.high.annual_rate <= RATE_MAX && self.high.due_a_n1_m12 <= RATE_MAX
        &&& self.low.annual_rate <= RATE_MAX && self.low.due_a_n1_m12 <= RATE_MAX
        &&& self.guaranteed.annual_rate <= RATE_MAX && self.guaranteed.due_a_n1_m12 <= RATE_MAX
    }
}

/// A modal target premium: `factor * prem_rate * si / 1000`, rates in parts
/// per `SCALE`, rounded up to a multiple of 1000.
pub open spec fn spec_modal_tp(factor: int, prem_rate: int, si: int) -> int {
    round_up_thousands(factor * prem_rate * si, SCALE as int * SCALE as int * 1000)
}

/// A modal excess premium: `factor * ep`, rounded up to a multiple of 1000.
pub open spec fn spec_modal_ep(factor: int, ep: int) -> int {
    round_up_thousands(factor * ep, SCALE as int)
}

fn modal_tp(factor: u64, prem_rate: u64, si: u64) -> (r: u64)
    requires
        factor <= RATE_MAX,
        prem_rate <= RATE_MAX,
        si <= AMOUNT_MAX,
    ensures
        r == spec_modal_tp(factor as int, prem_rate as int, si as int),
{
    let n = crate::money::mul3(factor, prem_rate, si);
    let d: u128 = SCALE as u128 * SCALE as u128 * 1000;
    let q = ceil_thousands(n, d);
    proof {
        assert(n as int / d as int <= 10_000_000_000_000_000) by (nonlinear_arith)
            requires
                n <= RATE_MAX as int * RATE_MAX as int * AMOUNT_MAX as int,
                d == SCALE as int * SCALE as int * 1000,
        ;
    }
    q as u64
}

fn modal_ep(factor: u64, ep: u64) -> (r: u64)
    requires
        factor <= RATE_MAX,
        ep <= AMOUNT_MAX,
    ensures
        r == spec_modal_ep(factor as int, ep as int),
{
    proof {
        vstd::arithmetic::mul::lemma_mul_upper_bound(
            factor as int,
            RATE_MAX as int,
            ep as int,
            AMOUNT_MAX as int,
        );
    }
    let n: u128 = factor as u128 * ep as u128;
    let q = ceil_thousands(n, SCALE as u128);
    proof {
        assert(n as int / SCALE as int <= 100_000_000_000_000_000) by (nonlinear_arith)
            requires
                n <= RATE_MAX as int * AMOUNT_MAX as int,
        ;
    }
    q as u64
}

} // verus!
