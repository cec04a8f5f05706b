//! The year-by-year rollforward of one scenario's account values.
use crate::enums::{DeathTPDBenefitEnum, ULEnum};
use crate::error::ProjectionError;
use crate::money::{
    ceil_div, ceil_quotient, ceil_thousands, lemma_ceil_quotient, lemma_round_up_thousands, mul3,
    mul_div, round_up_thousands, AMOUNT_MAX,
    RATE_MAX, SCALE,
};
use crate::scenario::ScenarioYear;
use crate::withdrawal::{
    calculate_withdrawal, lemma_withdrawal_outcomes, withdrawal_outcome, WithdrawalLog,
    WithdrawalRules,
};
use vstd::prelude::*;

verus! {

/// What the rollforward reads of the policy and the scenario, beyond the
/// per-year values.
#[derive(Clone, Copy, Debug)]
pub struct RollforwardParams {
    pub product: ULEnum,
    pub death_tpd_option: DeathTPDBenefitEnum,
    /// The policy's sum insured.
    pub si: u64,
    /// The scenario is the substandard-risk one: loads apply.
    pub risk_flag: bool,
    pub annual_int_rate: u64,
    /// Present value of twelve monthly installments of one twelfth.
    pub due_a_n1_m12: u64,
    pub extra_prem_rate: u64,
    /// Extra-mortality load, a rate.
    pub em_load: u64,
    /// Per-mille load, a whole number per 1000 of benefit.
    pub pm_load: u64,
    pub acc_ben_coeff: u64,
    /// Monthly accidental cost-of-insurance rate.
    pub acc_coi_rate: u64,
    /// Annual modal target premium, the base of the bonuses.
    pub modal_tp: u64,
    pub withdrawal_rules: WithdrawalRules,
    pub lb_review_period: u64,
    pub sb_review_period: u64,
}

impl RollforwardParams {
    pub open spec fn wf(&self) -> bool {
        &&& self.si <= AMOUNT_MAX
        &&& self.annual_int_rate <= RATE_MAX
        &&& self.due_a_n1_m12 <= RATE_MAX
        &&& self.extra_prem_rate <= RATE_MAX
        &&& self.em_load <= RATE_MAX
        &&& self.pm_load <= RATE_MAX
        &&& self.acc_ben_coeff <= 100
        &&& self.acc_coi_rate <= RATE_MAX
        &&& self.modal_tp <= AMOUNT_MAX
    }
}

/// One computed policy year of a scenario.
#[derive(Clone, Copy, Debug)]
pub struct ProjectionRow {
    pub year: i32,
    pub cont_flag: bool,
    pub start_si: u64,
    pub start_eav: u64,
    pub start_tav: u64,
    pub start_pav: u64,
    pub srr_val: u64,
    pub ben: u64,
    pub acc_ben: u64,
    pub withdrawal: u64,
    pub eav_withdrawal: u64,
    pub tav_withdrawal: u64,
    pub withdrawal_log: WithdrawalLog,
    pub unrounded_em_load: u64,
    pub unrounded_pm_load: u64,
    pub em_load: u64,
    pub pm_load: u64,
    pub load: u64,
    pub load_alloc_chrg: u64,
    pub load_alloc: u64,
    pub alloc_chrg: u64,
    pub alloc: u64,
    pub eav_after_wdrl_and_alloc: u64,
    pub tav_after_wdrl_and_alloc: u64,
    pub pav_after_wdrl_and_alloc: u64,
    pub sar: u64,
    pub standard_coi: u64,
    pub em_load_coi: u64,
    pub pm_load_coi: u64,
    pub acc_coi: u64,
    pub coi: u64,
    pub plan_nom_deduction: u64,
    pub plan_deduction: u64,
    pub deduction_flag: bool,
    pub nom_deduction: u64,
    pub deduction: u64,
    pub tav_deduction: u64,
    pub eav_deduction: u64,
    pub eav_int: u64,
    pub tav_int: u64,
    pub interest: u64,
    pub lb_tav_withdrawal_review: u64,
    pub lb_flag: bool,
    pub lb: u64,
    pub sb_rate: u64,
    pub sb_tav_withdrawal_review: u64,
    pub sb_flag: bool,
    pub sb: u64,
    pub bonus: u64,
    pub end_si: u64,
    pub end_eav: u64,
    pub end_tav: u64,
    pub end_pav: u64,
}

/// The mathematical value of a projection row.
pub struct RowModel {
    pub year: int,
    pub cont_flag: bool,
    pub start_si: int,
    pub start_eav: int,
    pub start_tav: int,
    pub start_pav: int,
    pub srr_val: int,
    pub ben: int,
    pub acc_ben: int,
    pub withdrawal: int,
    pub eav_withdrawal: int,
    pub tav_withdrawal: int,
    pub withdrawal_log: WithdrawalLog,
    pub unrounded_em_load: int,
    pub unrounded_pm_load: int,
    pub em_load: int,
    pub pm_load: int,
    pub load: int,
    pub load_alloc_chrg: int,
    pub load_alloc: int,
    pub alloc_chrg: int,
    pub alloc: int,
    pub eav_after_wdrl_and_alloc: int,
    pub tav_after_wdrl_and_alloc: int,
    pub pav_after_wdrl_and_alloc: int,
    pub sar: int,
    pub standard_coi: int,
    pub em_load_coi: int,
    pub pm_load_coi: int,
    pub acc_coi: int,
    pub coi: int,
    pub plan_nom_deduction: int,
    pub plan_deduction: int,
    pub deduction_flag: bool,
    pub nom_deduction: int,
    pub deduction: int,
    pub tav_deduction: int,
    pub eav_deduction: int,
    pub eav_int: int,
    pub tav_int: int,
    pub interest: int,
    pub lb_tav_withdrawal_review: int,
    pub lb_flag: bool,
    pub lb: int,
    pub sb_rate: int,
    pub sb_tav_withdrawal_review: int,
    pub sb_flag: bool,
    pub sb: int,
    pub bonus: int,
    pub end_si: int,
    pub end_eav: int,
    pub end_tav: int,
    pub end_pav: int,
}

impl View for ProjectionRow {
    type V = RowModel;

    open spec fn view(&self) -> RowModel {
        RowModel {
            year: self.year as int,
            cont_flag: self.cont_flag,
            start_si: self.start_si as int,
            start_eav: self.start_eav as int,
            start_tav: self.start_tav as int,
            start_pav: self.start_pav as int,
            srr_val: self.srr_val as int,
            ben: self.ben as int,
            acc_ben: self.acc_ben as int,
            withdrawal: self.withdrawal as int,
            eav_withdrawal: self.eav_withdrawal as int,
            tav_withdrawal: self.tav_withdrawal as int,
            withdrawal_log: self.withdrawal_log,
            unrounded_em_load: self.unrounded_em_load as int,
            unrounded_pm_load: self.unrounded_pm_load as int,
            em_load: self.em_load as int,
            pm_load: self.pm_load as int,
            load: self.load as int,
            load_alloc_chrg: self.load_alloc_chrg as int,
            load_alloc: self.load_alloc as int,
            alloc_chrg: self.alloc_chrg as int,
            alloc: self.alloc as int,
            eav_after_wdrl_and_alloc: self.eav_after_wdrl_and_alloc as int,
            tav_after_wdrl_and_alloc: self.tav_after_wdrl_and_alloc as int,
            pav_after_wdrl_and_alloc: self.pav_after_wdrl_and_alloc as int,
            sar: self.sar as int,
            standard_coi: self.standard_coi as int,
            em_load_coi: self.em_load_coi as int,
            pm_load_coi: self.pm_load_coi as int,
            acc_coi: self.acc_coi as int,
            coi: self.coi as int,
            plan_nom_deduction: self.plan_nom_deduction as int,
            plan_deduction: self.plan_deduction as int,
            deduction_flag: self.deduction_flag,
            nom_deduction: self.nom_deduction as int,
            deduction: self.deduction as int,
            tav_deduction: self.tav_deduction as int,
            eav_deduction: self.eav_deduction as int,
            eav_int: self.eav_int as int,
            tav_int: self.tav_int as int,
            interest: self.interest as int,
            lb_tav_withdrawal_review: self.lb_tav_withdrawal_review as int,
            lb_flag: self.lb_flag,
            lb: self.lb as int,
            sb_rate: self.sb_rate as int,
            sb_tav_withdrawal_review: self.sb_tav_withdrawal_review as int,
            sb_flag: self.sb_flag,
            sb: self.sb as int,
            bonus: self.bonus as int,
            end_si: self.end_si as int,
            end_eav: self.end_eav as int,
            end_tav: self.end_tav as int,
            end_pav: self.end_pav as int,
        }
    }
}

pub open spec fn rows_view(rows: Seq<ProjectionRow>) -> Seq<RowModel> {
    rows.map_values(|r: ProjectionRow| r@)
}

/// Every amount of the row is at most `AMOUNT_MAX`.
pub open spec fn row_fits(m: RowModel) -> bool {
    &&& m.start_si <= AMOUNT_MAX
    &&& m.start_eav <= AMOUNT_MAX
    &&& m.start_tav <= AMOUNT_MAX
    &&& m.start_pav <= AMOUNT_MAX
    &&& m.srr_val <= AMOUNT_MAX
    &&& m.ben <= AMOUNT_MAX
    &&& m.acc_ben <= AMOUNT_MAX
    &&& m.withdrawal <= AMOUNT_MAX
    &&& m.eav_withdrawal <= AMOUNT_MAX
    &&& m.tav_withdrawal <= AMOUNT_MAX
    &&& m.unrounded_em_load <= AMOUNT_MAX
    &&& m.unrounded_pm_load <= AMOUNT_MAX
    &&& m.em_load <= AMOUNT_MAX
    &&& m.pm_load <= AMOUNT_MAX
    &&& m.load <= AMOUNT_MAX
    &&& m.load_alloc_chrg <= AMOUNT_MAX
    &&& m.load_alloc <= AMOUNT_MAX
    &&& m.alloc_chrg <= AMOUNT_MAX
    &&& m.alloc <= AMOUNT_MAX
    &&& m.eav_after_wdrl_and_alloc <= AMOUNT_MAX
    &&& m.tav_after_wdrl_and_alloc <= AMOUNT_MAX
    &&& m.pav_after_wdrl_and_alloc <= AMOUNT_MAX
    &&& m.sar <= AMOUNT_MAX
    &&& m.standard_coi <= AMOUNT_MAX
    &&& m.em_load_coi <= AMOUNT_MAX
    &&& m.pm_load_coi <= AMOUNT_MAX
    &&& m.acc_coi <= AMOUNT_MAX
    &&& m.coi <= AMOUNT_MAX
    &&& m.plan_nom_deduction <= AMOUNT_MAX
    &&& m.plan_deduction <= AMOUNT_MAX
    &&& m.eav_int <= AMOUNT_MAX
    &&& m.tav_int <= AMOUNT_MAX
    &&& m.interest <= AMOUNT_MAX
    &&& m.lb_tav_withdrawal_review <= AMOUNT_MAX
    &&& m.lb <= AMOUNT_MAX
    &&& m.sb_tav_withdrawal_review <= AMOUNT_MAX
    &&& m.sb <= AMOUNT_MAX
    &&& m.bonus <= AMOUNT_MAX
    &&& m.end_si <= AMOUNT_MAX
    &&& m.end_eav <= AMOUNT_MAX
    &&& m.end_tav <= AMOUNT_MAX
    &&& m.end_pav <= AMOUNT_MAX
}

pub open spec fn all_fit(rows: Seq<RowModel>) -> bool {
    forall|k: int| 0 <= k < rows.len() ==> #[trigger] row_fits(rows[k])
}

pub open spec fn max_of(a: int, b: int) -> int {
    if a > b { a } else { b }
}

/// Special-bonus rate for a policy year and start-of-year sum insured.
pub open spec fn sb_rate_of(year: int, si: int, product: ULEnum) -> int {
    match product {
        ULEnum::UVL02 | ULEnum::UVL03 => if year == 10 {
            if si >= 1_000_000_000 { 4_000_000 } else { 2_000_000 }
        } else if year == 20 {
            if si >= 1_000_000_000 { 12_000_000 } else { 6_000_000 }
        } else {
            0
        },
        _ => 0,
    }
}

/// The special-bonus rate of a product: 0.4% in year 10 and 1.2% in year 20
/// for a sum insured of at least 1,000,000,000; 0.2% and 0.6% otherwise; none
/// in other years or for other products.
pub fn get_sb_rate(year: usize, si: u64, product: ULEnum) -> (r: u64)
    ensures
        r == sb_rate_of(year as int, si as int, product),
{
    match product {
        ULEnum::UVL02 | ULEnum::UVL03 => {
            if year == 10 && si >= 1_000_000_000 {
                4_000_000
            } else if year == 20 && si >= 1_000_000_000 {
                12_000_000
            } else if year == 10 && si >= 500_000_000 {
                2_000_000
            } else if year == 20 && si >= 500_000_000 {
                6_000_000
            } else if year == 10 {
                2_000_000
            } else if year == 20 {
                6_000_000
            } else {
                0
            }
        },
        _ => 0,
    }
}

/// TAV withdrawals of the earlier years `j < hi` that lie in the review
/// window of size `w` ending at the year after `prev`.
pub open spec fn window_tav_sum(prev: Seq<RowModel>, w: int, hi: int) -> int
    decreases hi,
{
    if hi <= 0 {
        0
    } else {
        window_tav_sum(prev, w, hi - 1) + if (hi - 1) + w >= prev.len() + 1 {
            prev[hi - 1].tav_withdrawal
        } else {
            0
        }
    }
}

/// TAV withdrawals over the `w` years that end with the current one, whose
/// TAV withdrawal is `cur`; earlier years are `prev`.
pub open spec fn review_window_sum(prev: Seq<RowModel>, cur: int, w: int) -> int {
    window_tav_sum(prev, w, prev.len() as int) + if w >= 1 { cur } else { 0 }
}

/// The values of a policy year up to the deduction-affordability test, from
/// the year's values and the start-of-year sum insured and account values;
/// the fields after the test are zero.
#[verifier::opaque]
pub open spec fn pre_test_model(
    y: ScenarioYear,
    p: RollforwardParams,
    start_si: int,
    start_eav: int,
    start_tav: int,
) -> RowModel {
    let t = y.timeline;
    let option_a = p.death_tpd_option == DeathTPDBenefitEnum::A;
    let start_pav = start_eav + start_tav;
    let srr_val = (if start_tav > y.srr_chrg { start_tav - y.srr_chrg } else { 0 }) + start_eav;
    let ben = if option_a {
        max_of(start_si, start_pav) * t.juvenile_lien_rate / SCALE as int
    } else {
        start_si * t.juvenile_lien_rate / SCALE as int
    };
    let acc_ben = if t.acc_ben_term_flag { start_si * p.acc_ben_coeff } else { 0 };
    let w = withdrawal_outcome(t.withdrawal_input as int, start_eav, start_tav, start_si, p.withdrawal_rules);
    let net = SCALE - t.ep_alloc_chrg_rate;
    let em_n = if t.em_load_term_flag && p.risk_flag {
        p.extra_prem_rate * p.em_load * ben
    } else {
        0
    };
    let em_d = 1000 * SCALE * net;
    let pm_n = if t.pm_load_term_flag && p.risk_flag { p.pm_load * SCALE * ben } else { 0 };
    let pm_d = 1000 * net;
    let unrounded_em_load = ceil_quotient(em_n, em_d);
    let unrounded_pm_load = ceil_quotient(pm_n, pm_d);
    let em_load = round_up_thousands(unrounded_em_load, 1);
    let pm_load = round_up_thousands(unrounded_pm_load, 1);
    let load = em_load + pm_load;
    let load_alloc_chrg = load * t.ep_alloc_chrg_rate / SCALE as int;
    let load_alloc = load - load_alloc_chrg;
    let eav_after = start_eav - w.1 + y.ep_alloc + load_alloc;
    let tav_after = start_tav - w.2 + y.tp_alloc;
    let pav_after = eav_after + tav_after;
    let sar = if option_a {
        if ben > start_pav { ben - start_pav } else { 0 }
    } else {
        ben
    };
    let standard_coi = sar * t.coi_rate / SCALE as int;
    let em_load_coi = if p.risk_flag { p.em_load * standard_coi / SCALE as int } else { 0 };
    let pm_load_coi = if p.risk_flag { p.pm_load * sar / 1000 } else { 0 };
    let acc_coi = if t.acc_ben_term_flag { acc_ben * (12 * p.acc_coi_rate) / SCALE as int } else { 0 };
    let coi = standard_coi + em_load_coi + pm_load_coi + acc_coi;
    let plan_nom_deduction = coi + 12 * t.admin_chrg;
    let plan_deduction = plan_nom_deduction * p.due_a_n1_m12 / SCALE as int;
    let deduction_flag = plan_deduction <= pav_after;
    RowModel {
        year: t.year as int,
        cont_flag: true,
        start_si,
        start_eav,
        start_tav,
        start_pav,
        srr_val,
        ben,
        acc_ben,
        withdrawal: w.0,
        eav_withdrawal: w.1,
        tav_withdrawal: w.2,
        withdrawal_log: w.4,
        unrounded_em_load,
        unrounded_pm_load,
        em_load,
        pm_load,
        load,
        load_alloc_chrg,
        load_alloc,
        alloc_chrg: load_alloc_chrg + y.ep_alloc_chrg + y.tp_alloc_chrg,
        alloc: load_alloc + y.ep_alloc + y.tp_alloc,
        eav_after_wdrl_and_alloc: eav_after,
        tav_after_wdrl_and_alloc: tav_after,
        pav_after_wdrl_and_alloc: pav_after,
        sar,
        standard_coi,
        em_load_coi,
        pm_load_coi,
        acc_coi,
        coi,
        plan_nom_deduction,
        plan_deduction,
        deduction_flag,
        nom_deduction: 0,
        deduction: 0,
        tav_deduction: 0,
        eav_deduction: 0,
        eav_int: 0,
        tav_int: 0,
        interest: 0,
        lb_tav_withdrawal_review: 0,
        lb_flag: false,
        lb: 0,
        sb_rate: 0,
        sb_tav_withdrawal_review: 0,
        sb_flag: false,
        sb: 0,
        bonus: 0,
        end_si: w.3,
        end_eav: 0,
        end_tav: 0,
        end_pav: 0,
    }
}

/// The deduction, interest, bonuses and end values of a year that passed the
/// deduction-affordability test. `pre` holds the year's values before the
/// test, `prev` the rows of the earlier years.
#[verifier::opaque]
pub open spec fn post_test_model(
    pre: RowModel,
    y: ScenarioYear,
    p: RollforwardParams,
    prev: Seq<RowModel>,
) -> RowModel {
    let t = y.timeline;
    let tav_after = pre.tav_after_wdrl_and_alloc;
    let eav_after = pre.eav_after_wdrl_and_alloc;
    let deduction = pre.plan_deduction;
    let tav_deduction = if tav_after < deduction { tav_after } else { deduction };
    let eav_deduction = deduction - tav_deduction;
    let eav_int = (eav_after - eav_deduction) * p.annual_int_rate / SCALE as int;
    let tav_int = (tav_after - tav_deduction) * p.annual_int_rate / SCALE as int;
    let lb_on = t.lb_rate > 0;
    let lb_review = if lb_on {
        review_window_sum(prev, pre.tav_withdrawal, p.lb_review_period as int)
    } else {
        0
    };
    let lb_flag = lb_on && lb_review == 0;
    let lb = if lb_flag { t.lb_rate * p.modal_tp / SCALE as int } else { 0 };
    let sb_rate = sb_rate_of(t.year as int, pre.start_si, p.product);
    let sb_on = sb_rate > 0;
    let sb_review = if sb_on {
        review_window_sum(prev, pre.tav_withdrawal, p.sb_review_period as int)
    } else {
        0
    };
    let sb_flag = sb_on && sb_review == 0;
    let sb = if sb_flag { sb_rate * p.modal_tp / SCALE as int } else { 0 };
    let bonus = lb + sb;
    let end_eav = eav_after - eav_deduction + eav_int;
    let end_tav = tav_after - tav_deduction + tav_int + bonus;
    RowModel {
        nom_deduction: pre.plan_nom_deduction,
        deduction,
        tav_deduction,
        eav_deduction,
        eav_int,
        tav_int,
        interest: eav_int + tav_int,
        lb_tav_withdrawal_review: lb_review,
        lb_flag,
        lb,
        sb_rate,
        sb_tav_withdrawal_review: sb_review,
        sb_flag,
        sb,
        bonus,
        end_eav,
        end_tav,
        end_pav: end_eav + end_tav,
        ..pre
    }
}

/// The row of one policy year, from the year's values, the start-of-year sum
/// insured and account values, and the rows before it. A year that fails the
/// deduction-affordability test keeps only the values before the test.
#[verifier::opaque]
pub open spec fn year_model(
    y: ScenarioYear,
    p: RollforwardParams,
    start_si: int,
    start_eav: int,
    start_tav: int,
    prev: Seq<RowModel>,
) -> RowModel {
    let pre = pre_test_model(y, p, start_si, start_eav, start_tav);
    if pre.deduction_flag {
        post_test_model(pre, y, p, prev)
    } else {
        pre
    }
}

/// `x` as a carried amount, when it is at most `AMOUNT_MAX`.
fn fit(x: u128) -> (r: Option<u64>)
    ensures
        r is Some <==> x <= AMOUNT_MAX,
        r matches Some(v) ==> v == x,
{
    if x <= AMOUNT_MAX as u128 {
        Some(x as u64)
    } else {
        None
    }
}

/// The review-window sum of TAV withdrawals; see `review_window_sum`.
fn review_sum(prev: &Vec<ProjectionRow>, cur: u64, w: u64) -> (r: u128)
    requires
        all_fit(rows_view(prev@)),
        cur <= AMOUNT_MAX,
    ensures
        r == review_window_sum(rows_view(prev@), cur as int, w as int),
{
    let ghost pv = rows_view(prev@);
    let n = prev.len();
    let mut acc: u128 = 0;
    let mut j: usize = 0;
    while j < n
        invariant
            j <= n,
            n == prev.len(),
            pv == rows_view(prev@),
            all_fit(pv),
            acc == window_tav_sum(pv, w as int, j as int),
            acc <= j as int * 1_000_000_000_000_000,
        decreases n - j,
    {
        proof {
            assert(pv[j as int] == prev@[j as int]@);
            assert(row_fits(pv[j as int]));
        }
        if (j as u128) + (w as u128) >= (n as u128) + 1 {
            acc = acc + prev[j].tav_withdrawal as u128;
        }
        j = j + 1;
    }
    if w >= 1 {
        acc + cur as u128
    } else {
        acc
    }
}

/// The values of a policy year up to the deduction-affordability test; `None`
/// when one of them exceeds `AMOUNT_MAX`.
fn pre_test_step(
    y: &ScenarioYear,
    p: &RollforwardParams,
    start_si: u64,
    start_eav: u64,
    start_tav: u64,
) -> (r: Option<ProjectionRow>)
    requires
        y.wf(),
        p.wf(),
        start_si <= AMOUNT_MAX,
        start_eav <= AMOUNT_MAX,
        start_tav <= AMOUNT_MAX,
    ensures
        ({
            let m = pre_test_model(*y, *p, start_si as int, start_eav as int, start_tav as int);
            &&& r is Some <==> row_fits(m)
            &&& r matches Some(row) ==> row@ == m && row.start_si == start_si && row.start_eav
                == start_eav && row.start_tav == start_tav
        }),
{
    reveal(pre_test_model);
    let t = &y.timeline;
    let option_a = match p.death_tpd_option {
        DeathTPDBenefitEnum::A => true,
        DeathTPDBenefitEnum::B => false,
    };
    let start_pav = fit(start_eav as u128 + start_tav as u128)?;
    let srr_val = fit(
        (if start_tav > y.srr_chrg { start_tav - y.srr_chrg } else { 0 }) as u128
            + start_eav as u128,
    )?;
    let ben = if option_a {
        let top = if start_si > start_pav { start_si } else { start_pav };
        fit(mul_div(top, t.juvenile_lien_rate, SCALE))?
    } else {
        fit(mul_div(start_si, t.juvenile_lien_rate, SCALE))?
    };
    let acc_ben = if t.acc_ben_term_flag {
        proof {
            vstd::arithmetic::mul::lemma_mul_upper_bound(
                start_si as int,
                AMOUNT_MAX as int,
                p.acc_ben_coeff as int,
                100,
            );
        }
        fit(start_si as u128 * p.acc_ben_coeff as u128)?
    } else {
        0
    };
    let w = calculate_withdrawal(t.withdrawal_input, start_eav, start_tav, start_si, &p.withdrawal_rules);
    let net: u64 = SCALE - t.ep_alloc_chrg_rate;
    let em_n: u128 = if t.em_load_term_flag && p.risk_flag {
        mul3(p.extra_prem_rate, p.em_load, ben)
    } else {
        0
    };
    proof {
        assert(0 < 1000 * SCALE as int * net as int <= 1000 * SCALE as int * SCALE as int)
            by (nonlinear_arith)
            requires
                0 < net <= SCALE,
        ;
    }
    let em_d: u128 = 1000 * SCALE as u128 * net as u128;
    let pm_n: u128 = if t.pm_load_term_flag && p.risk_flag {
        mul3(p.pm_load, SCALE, ben)
    } else {
        0
    };
    let pm_d: u128 = 1000 * net as u128;
    let unrounded_em_load = fit(ceil_div(em_n, em_d))?;
    let unrounded_pm_load = fit(ceil_div(pm_n, pm_d))?;
    let em_load = fit(ceil_thousands(unrounded_em_load as u128, 1))?;
    let pm_load = fit(ceil_thousands(unrounded_pm_load as u128, 1))?;
    let load = fit(em_load as u128 + pm_load as u128)?;
    let load_alloc_chrg = fit(mul_div(load, t.ep_alloc_chrg_rate, SCALE))?;
    proof {
        assert(load as int * t.ep_alloc_chrg_rate as int / SCALE as int <= load) by (nonlinear_arith)
            requires
                t.ep_alloc_chrg_rate <= SCALE,
        ;
    }
    let load_alloc = load - load_alloc_chrg;
    let alloc_chrg = fit(
        load_alloc_chrg as u128 + y.ep_alloc_chrg as u128 + y.tp_alloc_chrg as u128,
    )?;
    let alloc = fit(load_alloc as u128 + y.ep_alloc as u128 + y.tp_alloc as u128)?;
    let eav_after = fit(
        (start_eav - w.eav_withdrawal) as u128 + y.ep_alloc as u128 + load_alloc as u128,
    )?;
    let tav_after = fit((start_tav - w.tav_withdrawal) as u128 + y.tp_alloc as u128)?;
    let pav_after = fit(eav_after as u128 + tav_after as u128)?;
    let sar = if option_a {
        if ben > start_pav { ben - start_pav } else { 0 }
    } else {
        ben
    };
    let standard_coi = fit(mul_div(sar, t.coi_rate, SCALE))?;
    let em_load_coi = if p.risk_flag {
        fit(mul_div(p.em_load, standard_coi, SCALE))?
    } else {
        0
    };
    let pm_load_coi = if p.risk_flag {
        fit(mul_div(p.pm_load, sar, 1000))?
    } else {
        0
    };
    let acc_coi = if t.acc_ben_term_flag {
        fit(mul_div(acc_ben, 12 * p.acc_coi_rate, SCALE))?
    } else {
        0
    };
    let coi = fit(
        standard_coi as u128 + em_load_coi as u128 + pm_load_coi as u128 + acc_coi as u128,
    )?;
    let plan_nom_deduction = fit(coi as u128 + 12 * t.admin_chrg as u128)?;
    let plan_deduction = fit(mul_div(plan_nom_deduction, p.due_a_n1_m12, SCALE))?;
    let deduction_flag = plan_deduction <= pav_after;
    let row = ProjectionRow {
        year: t.year,
        cont_flag: true,
        start_si,
        start_eav,
        start_tav,
        start_pav,
        srr_val,
        ben,
        acc_ben,
        withdrawal: w.withdrawal,
        eav_withdrawal: w.eav_withdrawal,
        tav_withdrawal: w.tav_withdrawal,
        withdrawal_log: w.log,
        unrounded_em_load,
        unrounded_pm_load,
        em_load,
        pm_load,
        load,
        load_alloc_chrg,
        load_alloc,
        alloc_chrg,
        alloc,
        eav_after_wdrl_and_alloc: eav_after,
        tav_after_wdrl_and_alloc: tav_after,
        pav_after_wdrl_and_alloc: pav_after,
        sar,
        standard_coi,
        em_load_coi,
        pm_load_coi,
        acc_coi,
        coi,
        plan_nom_deduction,
        plan_deduction,
        deduction_flag,
        nom_deduction: 0,
        deduction: 0,
        tav_deduction: 0,
        eav_deduction: 0,
        eav_int: 0,
        tav_int: 0,
        interest: 0,
        lb_tav_withdrawal_review: 0,
        lb_flag: false,
        lb: 0,
        sb_rate: 0,
        sb_tav_withdrawal_review: 0,
        sb_flag: false,
        sb: 0,
        bonus: 0,
        end_si: w.end_si,
        end_eav: 0,
        end_tav: 0,
        end_pav: 0,
    };
    Some(row)
}

/// Completes a year that passed the deduction-affordability test; `None`
/// when one of its amounts exceeds `AMOUNT_MAX`.
fn post_test_step(
    row: ProjectionRow,
    y: &ScenarioYear,
    p: &RollforwardParams,
    prev: &Vec<ProjectionRow>,
) -> (r: Option<ProjectionRow>)
    requires
        y.wf(),
        p.wf(),
        row_fits(row@),
        row.deduction_flag,
        row@ == pre_test_model(
            *y,
            *p,
            row.start_si as int,
            row.start_eav as int,
            row.start_tav as int,
        ),
        all_fit(rows_view(prev@)),
    ensures
        ({
            let m = post_test_model(row@, *y, *p, rows_view(prev@));
            &&& r is Some <==> row_fits(m)
            &&& r matches Some(out) ==> out@ == m
        }),
{
    reveal(pre_test_model);
    reveal(post_test_model);
    let t = &y.timeline;
    let mut row = row;
    let eav_after = row.eav_after_wdrl_and_alloc;
    let tav_after = row.tav_after_wdrl_and_alloc;
    let plan_deduction = row.plan_deduction;
    let plan_nom_deduction = row.plan_nom_deduction;
    let start_si = row.start_si;
    let tav_deduction = if tav_after < plan_deduction { tav_after } else { plan_deduction };
    let eav_deduction = plan_deduction - tav_deduction;
    let eav_int = fit(mul_div(eav_after - eav_deduction, p.annual_int_rate, SCALE))?;
    let tav_int = fit(mul_div(tav_after - tav_deduction, p.annual_int_rate, SCALE))?;
    let interest = fit(eav_int as u128 + tav_int as u128)?;
    let mut lb_review: u64 = 0;
    let mut lb_flag = false;
    let mut lb: u64 = 0;
    if t.lb_rate > 0 {
        lb_review = fit(review_sum(prev, row.tav_withdrawal, p.lb_review_period))?;
        lb_flag = lb_review == 0;
        if lb_flag {
            lb = fit(mul_div(t.lb_rate, p.modal_tp, SCALE))?;
        }
    }
    let sb_rate = get_sb_rate(t.year as usize, start_si, p.product);
    let mut sb_review: u64 = 0;
    let mut sb_flag = false;
    let mut sb: u64 = 0;
    if sb_rate > 0 {
        sb_review = fit(review_sum(prev, row.tav_withdrawal, p.sb_review_period))?;
        sb_flag = sb_review == 0;
        if sb_flag {
            sb = fit(mul_div(sb_rate, p.modal_tp, SCALE))?;
        }
    }
    let bonus = fit(lb as u128 + sb as u128)?;
    let end_eav = fit((eav_after - eav_deduction) as u128 + eav_int as u128)?;
    let end_tav = fit(
        (tav_after - tav_deduction) as u128 + tav_int as u128 + bonus as u128,
    )?;
    let end_pav = fit(end_eav as u128 + end_tav as u128)?;
    row.nom_deduction = plan_nom_deduction;
    row.deduction = plan_deduction;
    row.tav_deduction = tav_deduction;
    row.eav_deduction = eav_deduction;
    row.eav_int = eav_int;
    row.tav_int = tav_int;
    row.interest = interest;
    row.lb_tav_withdrawal_review = lb_review;
    row.lb_flag = lb_flag;
    row.lb = lb;
    row.sb_rate = sb_rate;
    row.sb_tav_withdrawal_review = sb_review;
    row.sb_flag = sb_flag;
    row.sb = sb;
    row.bonus = bonus;
    row.end_eav = end_eav;
    row.end_tav = end_tav;
    row.end_pav = end_pav;
    Some(row)
}

/// Computes one policy year; `None` when an amount of the row exceeds
/// `AMOUNT_MAX`.
fn year_step(
    y: &ScenarioYear,
    p: &RollforwardParams,
    start_si: u64,
    start_eav: u64,
    start_tav: u64,
    prev: &Vec<ProjectionRow>,
) -> (r: Option<ProjectionRow>)
    requires
        y.wf(),
        p.wf(),
        start_si <= AMOUNT_MAX,
        start_eav <= AMOUNT_MAX,
        start_tav <= AMOUNT_MAX,
        all_fit(rows_view(prev@)),
    ensures
        ({
            let m = year_model(
                *y,
                *p,
                start_si as int,
                start_eav as int,
                start_tav as int,
                rows_view(prev@),
            );
            &&& r is Some <==> row_fits(m)
            &&& r matches Some(row) ==> row@ == m
        }),
{
    reveal(year_model);
    reveal(post_test_model);
    let row = match pre_test_step(y, p, start_si, start_eav, start_tav) {
        Some(row) => row,
        None => {
            proof {
                let pre = pre_test_model(
                    *y,
                    *p,
                    start_si as int,
                    start_eav as int,
                    start_tav as int,
                );
                reveal(pre_test_model);
                let q = post_test_model(pre, *y, *p, rows_view(prev@));
                assert(!row_fits(pre));
                if pre.deduction_flag {
                    assert(!row_fits(q));
                }
            }
            return None;
        },
    };
    if !row.deduction_flag {
        return Some(row);
    }
    post_test_step(row, y, p, prev)
}


/// The scenario stopped at the last of `rows`: it failed the
/// deduction-affordability test.
pub open spec fn stopped(rows: Seq<RowModel>) -> bool {
    rows.len() > 0 && !rows.last().deduction_flag
}

/// The rows of the first `n` years, or of fewer where a year failed the
/// deduction-affordability test: that year is the last row.
pub open spec fn rows_upto(years: Seq<ScenarioYear>, p: RollforwardParams, n: nat) -> Seq<
    RowModel,
>
    decreases n,
{
    if n == 0 {
        seq![]
    } else {
        let prev = rows_upto(years, p, (n - 1) as nat);
        if stopped(prev) {
            prev
        } else if prev.len() == 0 {
            seq![year_model(years[n - 1], p, p.si as int, 0, 0, prev)]
        } else {
            let last = prev.last();
            prev.push(
                year_model(years[n - 1], p, last.end_si, last.end_eav, last.end_tav, prev),
            )
        }
    }
}

/// The rows of a whole scenario.
pub open spec fn projection_model(years: Seq<ScenarioYear>, p: RollforwardParams) -> Seq<
    RowModel,
> {
    rows_upto(years, p, years.len())
}

proof fn lemma_rows_upto_len(years: Seq<ScenarioYear>, p: RollforwardParams, n: nat)
    ensures
        rows_upto(years, p, n).len() <= n,
        !stopped(rows_upto(years, p, n)) ==> rows_upto(years, p, n).len() == n,
    decreases n,
{
    if n > 0 {
        lemma_rows_upto_len(years, p, (n - 1) as nat);
    }
}

/// Rows once computed stay: the rows of `n` years begin with those of `i`.
proof fn lemma_rows_upto_prefix(years: Seq<ScenarioYear>, p: RollforwardParams, i: nat, n: nat)
    requires
        i <= n,
    ensures
        rows_upto(years, p, i).len() <= rows_upto(years, p, n).len(),
        forall|k: int|
            0 <= k < rows_upto(years, p, i).len() ==> #[trigger] rows_upto(years, p, n)[k]
                == rows_upto(years, p, i)[k],
        stopped(rows_upto(years, p, i)) ==> rows_upto(years, p, n) == rows_upto(years, p, i),
    decreases n,
{
    if i < n {
        lemma_rows_upto_prefix(years, p, i, (n - 1) as nat);
    }
}

/// Runs one scenario year by year, from the policy's sum insured and empty
/// accounts, and stops after the first year that fails the
/// deduction-affordability test. Fails with `Overflow` exactly when an amount
/// of a row exceeds `AMOUNT_MAX`.
pub fn rollforward(years: &Vec<ScenarioYear>, p: &RollforwardParams) -> (r: Result<
    Vec<ProjectionRow>,
    ProjectionError,
>)
    requires
        p.wf(),
        forall|i: int| 0 <= i < years@.len() ==> (#[trigger] years@[i]).wf(),
    ensures
        match r {
            Ok(rows) => rows_view(rows@) == projection_model(years@, *p) && all_fit(
                rows_view(rows@),
            ),
            Err(e) => e == ProjectionError::Overflow && !all_fit(projection_model(years@, *p)),
        },
{
    let mut rows: Vec<ProjectionRow> = Vec::new();
    let mut i: usize = 0;
    while i < years.len()
        invariant
            i <= years.len(),
            p.wf(),
            forall|k: int| 0 <= k < years@.len() ==> (#[trigger] years@[k]).wf(),
            rows_view(rows@) == rows_upto(years@, *p, i as nat),
            all_fit(rows_view(rows@)),
        decreases years.len() - i,
    {
        proof {
            lemma_rows_upto_len(years@, *p, i as nat);
        }
        let n = rows.len();
        if n > 0 && !rows[n - 1].deduction_flag {
            proof {
                assert(rows_view(rows@)[n - 1] == rows@[n - 1]@);
                lemma_rows_upto_prefix(years@, *p, i as nat, years@.len());
            }
            return Ok(rows);
        }
        let (si, eav, tav) = if n == 0 {
            (p.si, 0u64, 0u64)
        } else {
            proof {
                assert(rows_view(rows@)[n - 1] == rows@[n - 1]@);
                assert(row_fits(rows_view(rows@)[n - 1]));
            }
            (rows[n - 1].end_si, rows[n - 1].end_eav, rows[n - 1].end_tav)
        };
        match year_step(&years[i], p, si, eav, tav, &rows) {
            None => {
                proof {
                    let next = rows_upto(years@, *p, (i + 1) as nat);
                    lemma_rows_upto_prefix(years@, *p, (i + 1) as nat, years@.len());
                    assert(next.len() == n + 1);
                    assert(projection_model(years@, *p)[n as int] == next[n as int]);
                    assert(!row_fits(projection_model(years@, *p)[n as int]));
                }
                return Err(ProjectionError::Overflow);
            },
            Some(row) => {
                let ghost before = rows@;
                rows.push(row);
                proof {
                    assert(rows_view(rows@) =~= rows_view(before).push(row@));
                }
            },
        }
        i = i + 1;
    }
    Ok(rows)
}


/// The facts of one row that the laws below gather over a scenario.
#[verifier::opaque]
pub open spec fn row_laws(m: RowModel) -> bool {
    &&& m.cont_flag
    &&& m.end_pav == m.end_eav + m.end_tav
    &&& m.em_load % 1000 == 0
    &&& m.unrounded_em_load <= m.em_load < m.unrounded_em_load + 1000
    &&& m.pm_load % 1000 == 0
    &&& m.unrounded_pm_load <= m.pm_load < m.unrounded_pm_load + 1000
    &&& m.load == m.em_load + m.pm_load
}

proof fn lemma_year_model_laws(
    y: ScenarioYear,
    p: RollforwardParams,
    start_si: int,
    start_eav: int,
    start_tav: int,
    prev: Seq<RowModel>,
)
    requires
        y.wf(),
        start_si >= 0,
        start_eav >= 0,
        start_tav >= 0,
    ensures
        ({
            let m = year_model(y, p, start_si, start_eav, start_tav, prev);
            &&& row_laws(m)
            &&& m.year == y.timeline.year
            &&& m.start_si == start_si && m.start_eav == start_eav && m.start_tav == start_tav
            &&& m.end_si >= 0 && m.end_eav >= 0 && m.end_tav >= 0
        }),
{
    reveal(row_laws);
    reveal(year_model);
    reveal(pre_test_model);
    reveal(post_test_model);
    let m = pre_test_model(y, p, start_si, start_eav, start_tav);
    let t = y.timeline;
    let net = SCALE - t.ep_alloc_chrg_rate;
    let start_pav = start_eav + start_tav;
    let top = max_of(start_si, start_pav);
    assert(m.ben >= 0) by (nonlinear_arith)
        requires
            m.ben == top * t.juvenile_lien_rate / SCALE as int || m.ben == start_si
                * t.juvenile_lien_rate / SCALE as int,
            top >= 0,
            start_si >= 0,
    ;
    let ben = m.ben;
    let em_n = if t.em_load_term_flag && p.risk_flag {
        p.extra_prem_rate * p.em_load * ben
    } else {
        0
    };
    let pm_n = if t.pm_load_term_flag && p.risk_flag { p.pm_load * SCALE * ben } else { 0 };
    assert(em_n >= 0) by (nonlinear_arith)
        requires
            em_n == 0 || em_n == p.extra_prem_rate * p.em_load * ben,
            ben >= 0,
    ;
    assert(pm_n >= 0) by (nonlinear_arith)
        requires
            pm_n == 0 || pm_n == p.pm_load * SCALE * ben,
            ben >= 0,
    ;
    assert(1000 * SCALE * net > 0) by (nonlinear_arith)
        requires
            net > 0,
    ;
    lemma_ceil_quotient(em_n, 1000 * SCALE * net);
    lemma_ceil_quotient(pm_n, 1000 * net);
    lemma_round_up_thousands(ceil_quotient(em_n, 1000 * SCALE * net), 1);
    lemma_round_up_thousands(ceil_quotient(pm_n, 1000 * net), 1);
    lemma_withdrawal_outcomes(
        t.withdrawal_input as int,
        start_eav,
        start_tav,
        start_si,
        p.withdrawal_rules,
    );
    assert(m.load_alloc_chrg <= m.load) by (nonlinear_arith)
        requires
            m.load_alloc_chrg == m.load * t.ep_alloc_chrg_rate / SCALE as int,
            m.load >= 0,
            0 <= t.ep_alloc_chrg_rate <= SCALE,
    ;
    if m.deduction_flag {
        let q = post_test_model(m, y, p, prev);
        assert(q.eav_int >= 0) by (nonlinear_arith)
            requires
                q.eav_int == (m.eav_after_wdrl_and_alloc - q.eav_deduction) * p.annual_int_rate
                    / SCALE as int,
                m.eav_after_wdrl_and_alloc - q.eav_deduction >= 0,
        ;
        assert(q.tav_int >= 0) by (nonlinear_arith)
            requires
                q.tav_int == (m.tav_after_wdrl_and_alloc - q.tav_deduction) * p.annual_int_rate
                    / SCALE as int,
                m.tav_after_wdrl_and_alloc - q.tav_deduction >= 0,
        ;
        assert(q.lb >= 0) by (nonlinear_arith)
            requires
                q.lb == 0 || q.lb == t.lb_rate * p.modal_tp / SCALE as int,
        ;
        assert(q.sb >= 0) by (nonlinear_arith)
            requires
                q.sb == 0 || q.sb == q.sb_rate * p.modal_tp / SCALE as int,
                q.sb_rate >= 0,
        ;
    }
}

proof fn lemma_rows_upto_laws(years: Seq<ScenarioYear>, p: RollforwardParams, n: nat)
    requires
        n <= years.len(),
        forall|i: int| 0 <= i < years.len() ==> (#[trigger] years[i]).wf(),
    ensures
        ({
            let rows = rows_upto(years, p, n);
            &&& rows.len() <= n
            &&& rows.len() > 0 ==> rows[0].start_si == p.si && rows[0].start_eav == 0
                && rows[0].start_tav == 0
            &&& forall|k: int|
                1 <= k < rows.len() ==> {
                    &&& #[trigger] rows[k].start_si == rows[k - 1].end_si
                    &&& rows[k].start_eav == rows[k - 1].end_eav
                    &&& rows[k].start_tav == rows[k - 1].end_tav
                }
            &&& forall|k: int| 0 <= k < rows.len() - 1 ==> #[trigger] rows[k].deduction_flag
            &&& forall|k: int| 0 <= k < rows.len() ==> #[trigger] row_laws(rows[k])
            &&& forall|k: int| 0 <= k < rows.len() ==> #[trigger] rows[k].year == years[k].timeline.year
            &&& forall|k: int| 0 <= k < rows.len() ==> (#[trigger] rows[k].start_si) >= 0
            &&& forall|k: int| 0 <= k < rows.len() ==> (#[trigger] rows[k].start_eav) >= 0
            &&& forall|k: int| 0 <= k < rows.len() ==> (#[trigger] rows[k].start_tav) >= 0
            &&& forall|k: int| 0 <= k < rows.len() ==> (#[trigger] rows[k].end_si) >= 0
            &&& forall|k: int| 0 <= k < rows.len() ==> (#[trigger] rows[k].end_eav) >= 0
            &&& forall|k: int| 0 <= k < rows.len() ==> (#[trigger] rows[k].end_tav) >= 0
            &&& rows.len() < n ==> stopped(rows)
        }),
    decreases n,
{
    if n > 0 {
        let prev = rows_upto(years, p, (n - 1) as nat);
        lemma_rows_upto_prefix(years, p, (n - 1) as nat, n);
        lemma_rows_upto_laws(years, p, (n - 1) as nat);
        if stopped(prev) {
            assert(rows_upto(years, p, n) == prev);
        } else {
            lemma_rows_upto_len(years, p, (n - 1) as nat);
            let rows = rows_upto(years, p, n);
            let k = prev.len() as int;
            assert(rows[k] == rows.last());
            if prev.len() == 0 {
                lemma_year_model_laws(years[n - 1], p, p.si as int, 0, 0, prev);
            } else {
                let last = prev.last();
                lemma_year_model_laws(years[n - 1], p, last.end_si, last.end_eav, last.end_tav, prev);
            }
            assert(rows.len() == k + 1);
            assert forall|j: int| 0 <= j < k implies rows[j] == prev[j] by {}
            assert forall|j: int| 1 <= j < rows.len() implies {
                &&& #[trigger] rows[j].start_si == rows[j - 1].end_si
                &&& rows[j].start_eav == rows[j - 1].end_eav
                &&& rows[j].start_tav == rows[j - 1].end_tav
            } by {
                if j < k {
                    assert(rows[j] == prev[j] && rows[j - 1] == prev[j - 1]);
                    assert(prev[j].start_si == prev[j - 1].end_si);
                } else {
                    assert(rows[j - 1] == prev.last());
                }
            }
            assert forall|j: int| 0 <= j < rows.len() - 1 implies #[trigger] rows[j].deduction_flag by {
                assert(rows[j] == prev[j]);
                if j < k - 1 {
                    assert(prev[j].deduction_flag);
                }
            }
            assert forall|j: int| 0 <= j < rows.len() implies #[trigger] row_laws(rows[j]) by {
                if j < k {
                    assert(rows[j] == prev[j]);
                }
            }
            assert forall|j: int| 0 <= j < rows.len() implies #[trigger] rows[j].year == years[j].timeline.year by {
                if j < k {
                    assert(rows[j] == prev[j]);
                    assert(prev[j].year == years[j].timeline.year);
                }
            }
            assert forall|j: int| 0 <= j < rows.len() implies #[trigger] rows[j].start_si >= 0
                && rows[j].start_eav >= 0 && rows[j].start_tav >= 0 && rows[j].end_si >= 0
                && rows[j].end_eav >= 0 && rows[j].end_tav >= 0 by {
                if j < k {
                    assert(rows[j] == prev[j]);
                    assert(prev[j].start_si >= 0 && prev[j].start_eav >= 0 && prev[j].start_tav >= 0);
                    assert(prev[j].end_si >= 0 && prev[j].end_eav >= 0 && prev[j].end_tav >= 0);
                }
            }
        }
    }
}

/// Each year of a scenario starts where the year before ended: its start sum
/// insured and account values are the previous year's end values. The first
/// year starts from the policy's sum insured and empty accounts.
pub proof fn lemma_years_carry_over(years: Seq<ScenarioYear>, p: RollforwardParams)
    requires
        forall|i: int| 0 <= i < years.len() ==> (#[trigger] years[i]).wf(),
    ensures
        ({
            let rows = projection_model(years, p);
            &&& rows.len() > 0 ==> rows[0].start_si == p.si && rows[0].start_eav == 0
                && rows[0].start_tav == 0
            &&& forall|k: int|
                1 <= k < rows.len() ==> {
                    &&& #[trigger] rows[k].start_si == rows[k - 1].end_si
                    &&& rows[k].start_eav == rows[k - 1].end_eav
                    &&& rows[k].start_tav == rows[k - 1].end_tav
                }
        }),
{
    lemma_rows_upto_laws(years, p, years.len());
}

/// The continuation flag never comes back once lost: every computed year
/// began in force, every year but the last passed the
/// deduction-affordability test, and a scenario ends before its term only
/// at a year that failed it. Row `k` is policy year `k + 1` of the timeline.
pub proof fn lemma_continuation_ends_scenario(years: Seq<ScenarioYear>, p: RollforwardParams)
    requires
        forall|i: int| 0 <= i < years.len() ==> (#[trigger] years[i]).wf(),
    ensures
        ({
            let rows = projection_model(years, p);
            &&& rows.len() <= years.len()
            &&& forall|k: int| 0 <= k < rows.len() ==> #[trigger] rows[k].cont_flag
            &&& forall|k: int| 0 <= k < rows.len() - 1 ==> #[trigger] rows[k].deduction_flag
            &&& rows.len() < years.len() ==> rows.len() > 0 && !rows.last().deduction_flag
            &&& forall|k: int| 0 <= k < rows.len() ==> #[trigger] rows[k].year == years[k].timeline.year
        }),
{
    lemma_rows_upto_laws(years, p, years.len());
    let rows = projection_model(years, p);
    assert forall|k: int| 0 <= k < rows.len() implies #[trigger] rows[k].cont_flag by {
        assert(row_laws(rows[k]));
        reveal(row_laws);
    }
}

/// In every computed year the end policy account value is exactly the sum of
/// the end equity and traditional account values.
pub proof fn lemma_end_pav_is_sum(years: Seq<ScenarioYear>, p: RollforwardParams)
    requires
        forall|i: int| 0 <= i < years.len() ==> (#[trigger] years[i]).wf(),
    ensures
        forall|k: int|
            0 <= k < projection_model(years, p).len() ==> (#[trigger] projection_model(
                years,
                p,
            )[k]).end_pav == projection_model(years, p)[k].end_eav + projection_model(
                years,
                p,
            )[k].end_tav,
{
    lemma_rows_upto_laws(years, p, years.len());
    let rows = projection_model(years, p);
    assert forall|k: int| 0 <= k < rows.len() implies (#[trigger] rows[k]).end_pav
        == rows[k].end_eav + rows[k].end_tav by {
        assert(row_laws(rows[k]));
        reveal(row_laws);
    }
}

/// The rounded EM and PM loads of every computed year are the least
/// multiples of 1000 that are at least their unrounded values, and the total
/// load is their sum.
pub proof fn lemma_loads_rounded_up(years: Seq<ScenarioYear>, p: RollforwardParams)
    requires
        forall|i: int| 0 <= i < years.len() ==> (#[trigger] years[i]).wf(),
    ensures
        forall|k: int|
            0 <= k < projection_model(years, p).len() ==> {
                let m = #[trigger] projection_model(years, p)[k];
                &&& m.em_load % 1000 == 0
                &&& m.unrounded_em_load <= m.em_load < m.unrounded_em_load + 1000
                &&& m.pm_load % 1000 == 0
                &&& m.unrounded_pm_load <= m.pm_load < m.unrounded_pm_load + 1000
                &&& m.load == m.em_load + m.pm_load
            },
{
    lemma_rows_upto_laws(years, p, years.len());
    let rows = projection_model(years, p);
    assert forall|k: int| 0 <= k < rows.len() implies {
        let m = #[trigger] rows[k];
        &&& m.em_load % 1000 == 0
        &&& m.unrounded_em_load <= m.em_load < m.unrounded_em_load + 1000
        &&& m.pm_load % 1000 == 0
        &&& m.unrounded_pm_load <= m.pm_load < m.unrounded_pm_load + 1000
        &&& m.load == m.em_load + m.pm_load
    } by {
        assert(row_laws(rows[k]));
        reveal(row_laws);
    }
}

} // verus!
