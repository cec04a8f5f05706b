//! The in-force policy years of one policy, with the rates each year reads.
use crate::dates::date_before;
use crate::error::ProjectionError;
use crate::money::{AMOUNT_MAX, RATE_MAX, SCALE};
use crate::policy::{is_supported, Base, IntRates, ModalFactors};
use crate::tables::{lookup_in, RateTable};
use vstd::prelude::*;

verus! {

/// One policy year of the timeline.
#[derive(Clone, Copy, Debug)]
pub struct TimelineRow {
    pub year: i32,
    pub age: i32,
    pub cal_year: i32,
    pub pol_term_flag: bool,
    pub acc_ben_term_flag: bool,
    pub em_load_term_flag: bool,
    pub pm_load_term_flag: bool,
    pub withdrawal_input: u64,
    pub tp_alloc_chrg_rate: u64,
    pub ep_alloc_chrg_rate: u64,
    pub srr_chrg_rate: u64,
    pub lb_rate: u64,
    pub coi_rate: u64,
    pub juvenile_lien_rate: u64,
    pub admin_chrg: u64,
}

impl TimelineRow {
    /// The year's rates and amounts lie in the ranges a projection accepts.
    pub open spec fn wf(&self) -> bool {
        &&& self.year >= 1
        &&& self.withdrawal_input <= AMOUNT_MAX
        &&& self.tp_alloc_chrg_rate <= SCALE
        &&& self.ep_alloc_chrg_rate < SCALE
        &&& self.srr_chrg_rate <= SCALE
        &&& self.lb_rate <= RATE_MAX
        &&& self.coi_rate <= SCALE
        &&& self.juvenile_lien_rate <= SCALE
        &&& self.admin_chrg <= AMOUNT_MAX
    }
}


impl TimelineRow {
    /// Tells whether the row lies in the ranges a projection accepts.
    pub fn in_range(&self) -> (r: bool)
        ensures
            r == self.wf(),
    {
        self.year >= 1 && self.withdrawal_input <= AMOUNT_MAX && self.tp_alloc_chrg_rate <= SCALE
            && self.ep_alloc_chrg_rate < SCALE && self.srr_chrg_rate <= SCALE && self.lb_rate
            <= RATE_MAX && self.coi_rate <= SCALE && self.juvenile_lien_rate <= SCALE
            && self.admin_chrg <= AMOUNT_MAX
    }
}

/// What the rate tables hold for one policy: its product's tables, and the
/// scalars looked up for its product, insured and terms.
#[derive(Clone, Debug)]
pub struct PolicyRates {
    pub tp_alloc_chrg_rate: RateTable,
    pub ep_alloc_chrg_rate: RateTable,
    pub srr_chrg_rate: RateTable,
    pub lb_rate: RateTable,
    /// By attained age, for the insured's gender.
    pub coi_rate: RateTable,
    /// By attained age.
    pub juvenile_lien_rate: RateTable,
    /// By calendar year.
    pub admin_chrg: RateTable,
    pub extra_prem_rate: u64,
    pub prem_rate: u64,
    pub modal_factors: ModalFactors,
    pub int_rates: IntRates,
}

impl PolicyRates {
    pub open spec fn wf(&self) -> bool {
        &&& self.extra_prem_rate <= RATE_MAX
        &&& self.prem_rate <= RATE_MAX
        &&& self.modal_factors.wf()
        &&& self.int_rates.wf()
    }

    /// Tells whether the scalars lie in the ranges a projection accepts.
    pub fn in_range(&self) -> (r: bool)
        ensures
            r == self.wf(),
    {
        let f = &self.modal_factors;
        let i = &self.int_rates;
        self.extra_prem_rate <= RATE_MAX && self.prem_rate <= RATE_MAX && f.annual <= RATE_MAX
            && f.semi_annual <= RATE_MAX && f.quarterly <= RATE_MAX && f.monthly <= RATE_MAX
            && i.high.annual_rate <= RATE_MAX && i.high.due_a_n1_m12 <= RATE_MAX
            && i.low.annual_rate <= RATE_MAX && i.low.due_a_n1_m12 <= RATE_MAX
            && i.guaranteed.annual_rate <= RATE_MAX && i.guaranteed.due_a_n1_m12 <= RATE_MAX
    }
}

/// The timeline row of policy year `year`, for an insured of entry age
/// `entry_age` whose accidental benefit runs `acc_term` years.
pub open spec fn timeline_row(
    b: Base,
    r: PolicyRates,
    entry_age: int,
    acc_term: int,
    year: int,
) -> TimelineRow {
    let age = entry_age - 1 + year;
    let cal_year = b.rcd.year - 1 + year;
    TimelineRow {
        year: year as i32,
        age: age as i32,
        cal_year: cal_year as i32,
        pol_term_flag: true,
        acc_ben_term_flag: year <= acc_term,
        em_load_term_flag: year <= b.load.em_load_term,
        pm_load_term_flag: year <= b.load.pm_load_term,
        withdrawal_input: b.spec_withdrawal_amount(year) as u64,
        tp_alloc_chrg_rate: lookup_in(r.tp_alloc_chrg_rate.entries@, year, 0) as u64,
        ep_alloc_chrg_rate: lookup_in(r.ep_alloc_chrg_rate.entries@, year, 0) as u64,
        srr_chrg_rate: lookup_in(r.srr_chrg_rate.entries@, year, 0) as u64,
        lb_rate: lookup_in(r.lb_rate.entries@, year, 0) as u64,
        coi_rate: lookup_in(r.coi_rate.entries@, age, 0) as u64,
        juvenile_lien_rate: lookup_in(r.juvenile_lien_rate.entries@, age, SCALE as int) as u64,
        admin_chrg: lookup_in(r.admin_chrg.entries@, cal_year, 0) as u64,
    }
}

/// Number of timeline years of a policy of term `term`: years 1 to `term`,
/// at most 100.
pub open spec fn timeline_len(term: int) -> int {
    if term < 0 {
        0
    } else if term > 100 {
        100
    } else {
        term
    }
}

/// The timeline of `b`: policy years 1 to its term (at most 100), with each
/// year's flags and rates. A year whose rates fall outside the accepted
/// ranges fails the whole timeline with `InvalidRate`.
pub fn fixed(b: &Base, rates: &PolicyRates) -> (r: Result<Vec<TimelineRow>, ProjectionError>)
    requires
        b.wf(),
    ensures
        date_before(b.rcd, b.insured.dob) ==> r == Err::<Vec<TimelineRow>, ProjectionError>(
            ProjectionError::BirthdateAfterCommencement,
        ),
        !date_before(b.rcd, b.insured.dob) && !is_supported(b.id) ==> r == Err::<
            Vec<TimelineRow>,
            ProjectionError,
        >(ProjectionError::UnsupportedProduct),
        is_supported(b.id) && !date_before(b.rcd, b.insured.dob) ==> match r {
            Ok(rows) => rows@.len() == timeline_len(b.spec_term()) && forall|k: int|
                0 <= k < rows@.len() ==> #[trigger] rows@[k] == timeline_row(
                    *b,
                    *rates,
                    b.spec_entry_age(),
                    66 - b.spec_entry_age(),
                    k + 1,
                ) && rows@[k].wf(),
            Err(e) => e == ProjectionError::InvalidRate && exists|k: int|
                0 <= k < timeline_len(b.spec_term()) && !(#[trigger] timeline_row(
                    *b,
                    *rates,
                    b.spec_entry_age(),
                    66 - b.spec_entry_age(),
                    k + 1,
                )).wf(),
        },
{
    let entry_age = b.entry_age()?;
    let term = b.term()?;
    let acc_term = b.acc_ben_term()?;
    let n: i32 = if term < 0 {
        0
    } else if term > 100 {
        100
    } else {
        term
    };
    let mut rows: Vec<TimelineRow> = Vec::new();
    let mut year: i32 = 1;
    while year <= n
        invariant
            b.wf(),
            is_supported(b.id),
            !date_before(b.rcd, b.insured.dob),
            1 <= year <= n + 1,
            n == timeline_len(b.spec_term()),
            entry_age == b.spec_entry_age(),
            acc_term == 66 - b.spec_entry_age(),
            0 <= entry_age <= 600_000,
            rows@.len() == year - 1,
            forall|k: int|
                0 <= k < rows@.len() ==> #[trigger] rows@[k] == timeline_row(
                    *b,
                    *rates,
                    entry_age as int,
                    acc_term as int,
                    k + 1,
                ) && rows@[k].wf(),
        decreases n + 1 - year,
    {
        let age = entry_age - 1 + year;
        let cal_year = b.rcd.year - 1 + year;
        let row = TimelineRow {
            year,
            age,
            cal_year,
            pol_term_flag: true,
            acc_ben_term_flag: year <= acc_term,
            em_load_term_flag: year <= b.load.em_load_term,
            pm_load_term_flag: year <= b.load.pm_load_term,
            withdrawal_input: b.withdrawal_amount(year),
            tp_alloc_chrg_rate: rates.tp_alloc_chrg_rate.lookup(year, 0),
            ep_alloc_chrg_rate: rates.ep_alloc_chrg_rate.lookup(year, 0),
            srr_chrg_rate: rates.srr_chrg_rate.lookup(year, 0),
            lb_rate: rates.lb_rate.lookup(year, 0),
            coi_rate: rates.coi_rate.lookup(age, 0),
            juvenile_lien_rate: rates.juvenile_lien_rate.lookup(age, SCALE),
            admin_chrg: rates.admin_chrg.lookup(cal_year, 0),
        };
        proof {
            assert(row == timeline_row(*b, *rates, entry_age as int, acc_term as int, year as int));
        }
        if !row.in_range() {
            proof {
                let k = year - 1;
                assert(!timeline_row(*b, *rates, entry_age as int, acc_term as int, k + 1).wf());
            }
            return Err(ProjectionError::InvalidRate);
        }
        rows.push(row);
        year = year + 1;
    }
    Ok(rows)
}

} // verus!
