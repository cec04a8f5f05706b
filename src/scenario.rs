//! Scenarios, their per-year premiums and the projection over all of them.
use crate::dates::date_before;
use crate::enums::{IntRateScenarioEnum, PremTermScenarioEnum, RiskTypeEnum};
use crate::error::ProjectionError;
use crate::money::{mul_div, AMOUNT_MAX, SCALE};
use crate::policy::{is_supported, spec_modal_ep, spec_modal_tp, Base, InterestBasis};
use crate::rollforward::{
    all_fit, projection_model, rollforward, rows_view, ProjectionRow, RollforwardParams,
};
use crate::timeline::{fixed, timeline_len, timeline_row, PolicyRates, TimelineRow};
use crate::withdrawal::WithdrawalRules;
use vstd::prelude::*;

verus! {

/// One policy year of a scenario: the timeline row with the premiums and
/// allocations that the scenario sets for that year.
#[derive(Clone, Copy, Debug)]
pub struct ScenarioYear {
    pub timeline: TimelineRow,
    pub tp_term_flag: bool,
    pub ep_term_flag: bool,
    pub tp: u64,
    pub ep: u64,
    pub srr_chrg: u64,
    pub tp_alloc_chrg: u64,
    pub ep_alloc_chrg: u64,
    pub tp_alloc: u64,
    pub ep_alloc: u64,
}

impl ScenarioYear {
    pub open spec fn wf(&self) -> bool {
        &&& self.timeline.wf()
        &&& self.tp <= AMOUNT_MAX
        &&& self.ep <= AMOUNT_MAX
        &&& self.srr_chrg <= AMOUNT_MAX
        &&& self.tp_alloc_chrg <= AMOUNT_MAX
        &&& self.ep_alloc_chrg <= AMOUNT_MAX
        &&& self.tp_alloc <= AMOUNT_MAX
        &&& self.ep_alloc <= AMOUNT_MAX
    }
}


/// One combination of interest-rate scenario, risk type and premium-term
/// scenario.
#[derive(Clone, Copy, Debug, PartialEq, Eq, Structural)]
pub struct Scenario {
    pub int_rate: IntRateScenarioEnum,
    pub risk: RiskTypeEnum,
    pub prem_term: PremTermScenarioEnum,
}

/// The `k`-th scenario: interest-rate scenario first, then risk type, then
/// premium-term scenario, each in declaration order.
pub open spec fn scenario_at(k: int) -> Scenario {
    Scenario {
        int_rate: if k < 6 {
            IntRateScenarioEnum::High
        } else if k < 12 {
            IntRateScenarioEnum::Low
        } else {
            IntRateScenarioEnum::Guaranteed
        },
        risk: if k % 6 < 3 { RiskTypeEnum::Standard } else { RiskTypeEnum::Subrisk },
        prem_term: if k % 3 == 0 {
            PremTermScenarioEnum::PolicyTerm
        } else if k % 3 == 1 {
            PremTermScenarioEnum::OptedTerm
        } else {
            PremTermScenarioEnum::MustPayTerm
        },
    }
}

/// Where `s` stands in the list of scenarios.
pub open spec fn scenario_index(s: Scenario) -> int {
    (match s.int_rate {
        IntRateScenarioEnum::High => 0int,
        IntRateScenarioEnum::Low => 6,
        IntRateScenarioEnum::Guaranteed => 12,
    }) + (match s.risk {
        RiskTypeEnum::Standard => 0int,
        RiskTypeEnum::Subrisk => 3,
    }) + (match s.prem_term {
        PremTermScenarioEnum::PolicyTerm => 0int,
        PremTermScenarioEnum::OptedTerm => 1,
        PremTermScenarioEnum::MustPayTerm => 2,
    })
}

/// Every combination is one of the 18 scenarios, and no two of them are the
/// same combination.
pub proof fn lemma_scenarios_cover_all()
    ensures
        forall|s: Scenario|
            0 <= #[trigger] scenario_index(s) < 18 && scenario_at(scenario_index(s)) == s,
        forall|a: int, b: int|
            0 <= a < 18 && 0 <= b < 18 && a != b ==> #[trigger] scenario_at(a)
                != #[trigger] scenario_at(b),
{
}

/// The full cross product of interest-rate scenario, risk type and
/// premium-term scenario: 18 distinct scenarios.
pub fn scenarios() -> (r: Vec<Scenario>)
    ensures
        r@.len() == 18,
        forall|k: int| 0 <= k < 18 ==> #[trigger] r@[k] == scenario_at(k),
{
    let int_rates = [
        IntRateScenarioEnum::High,
        IntRateScenarioEnum::Low,
        IntRateScenarioEnum::Guaranteed,
    ];
    let risks = [RiskTypeEnum::Standard, RiskTypeEnum::Subrisk];
    let terms = [
        PremTermScenarioEnum::PolicyTerm,
        PremTermScenarioEnum::OptedTerm,
        PremTermScenarioEnum::MustPayTerm,
    ];
    let mut out: Vec<Scenario> = Vec::new();
    let mut i: usize = 0;
    while i < 3
        invariant
            i <= 3,
            out@.len() == 6 * i,
            forall|k: int| 0 <= k < out@.len() ==> #[trigger] out@[k] == scenario_at(k),
            int_rates@ == seq![
                IntRateScenarioEnum::High,
                IntRateScenarioEnum::Low,
                IntRateScenarioEnum::Guaranteed,
            ],
            risks@ == seq![RiskTypeEnum::Standard, RiskTypeEnum::Subrisk],
            terms@ == seq![
                PremTermScenarioEnum::PolicyTerm,
                PremTermScenarioEnum::OptedTerm,
                PremTermScenarioEnum::MustPayTerm,
            ],
        decreases 3 - i,
    {
        let mut j: usize = 0;
        while j < 2
            invariant
                i < 3,
                j <= 2,
                out@.len() == 6 * i + 3 * j,
                forall|k: int| 0 <= k < out@.len() ==> #[trigger] out@[k] == scenario_at(k),
                int_rates@ == seq![
                    IntRateScenarioEnum::High,
                    IntRateScenarioEnum::Low,
                    IntRateScenarioEnum::Guaranteed,
                ],
                risks@ == seq![RiskTypeEnum::Standard, RiskTypeEnum::Subrisk],
                terms@ == seq![
                    PremTermScenarioEnum::PolicyTerm,
                    PremTermScenarioEnum::OptedTerm,
                    PremTermScenarioEnum::MustPayTerm,
                ],
            decreases 2 - j,
        {
            let mut k: usize = 0;
            while k < 3
                invariant
                    i < 3,
                    j < 2,
                    k <= 3,
                    out@.len() == 6 * i + 3 * j + k,
                    forall|m: int| 0 <= m < out@.len() ==> #[trigger] out@[m] == scenario_at(m),
                    int_rates@ == seq![
                        IntRateScenarioEnum::High,
                        IntRateScenarioEnum::Low,
                        IntRateScenarioEnum::Guaranteed,
                    ],
                    risks@ == seq![RiskTypeEnum::Standard, RiskTypeEnum::Subrisk],
                    terms@ == seq![
                        PremTermScenarioEnum::PolicyTerm,
                        PremTermScenarioEnum::OptedTerm,
                        PremTermScenarioEnum::MustPayTerm,
                    ],
                decreases 3 - k,
            {
                out.push(Scenario { int_rate: int_rates[i], risk: risks[j], prem_term: terms[k] });
                k = k + 1;
            }
            j = j + 1;
        }
        i = i + 1;
    }
    out
}


/// The interest basis a scenario credits and discounts at.
pub open spec fn interest_basis(b: Base, rates: PolicyRates, s: IntRateScenarioEnum) -> InterestBasis {
    match s {
        IntRateScenarioEnum::High => rates.int_rates.high,
        IntRateScenarioEnum::Low => rates.int_rates.low,
        IntRateScenarioEnum::Guaranteed => rates.int_rates.guaranteed,
    }
}

/// Target-premium and excess-premium terms of a premium-term scenario.
pub open spec fn prem_terms(b: Base, s: PremTermScenarioEnum) -> (int, int) {
    match s {
        PremTermScenarioEnum::PolicyTerm => (b.spec_term(), b.spec_term()),
        PremTermScenarioEnum::OptedTerm => (b.opted_tp_term as int, b.opted_ep_term as int),
        PremTermScenarioEnum::MustPayTerm => (b.spec_must_pay_period(), b.spec_must_pay_period()),
    }
}

/// The annual modal target premium, its year-1 big-case bonus and the annual
/// modal excess premium; or why they cannot be had.
pub open spec fn premium_outcome(b: Base, rates: PolicyRates) -> Result<
    (int, int, int),
    ProjectionError,
> {
    let tp = spec_modal_tp(rates.modal_factors.annual as int, rates.prem_rate as int, b.si as int);
    let ep = spec_modal_ep(rates.modal_factors.annual as int, b.ep as int);
    if tp > AMOUNT_MAX {
        Err(ProjectionError::Overflow)
    } else {
        match b.spec_big_case_bonus(tp) {
            None => Err(ProjectionError::UnsupportedProduct),
            Some(bonus) => if tp + bonus > AMOUNT_MAX || ep > AMOUNT_MAX {
                Err(ProjectionError::Overflow)
            } else {
                Ok((tp, bonus, ep))
            },
        }
    }
}

/// The rollforward parameters of a scenario, given the annual modal target
/// premium `tp`.
pub open spec fn params_model(b: Base, rates: PolicyRates, s: Scenario, tp: int) -> RollforwardParams {
    let basis = interest_basis(b, rates, s.int_rate);
    RollforwardParams {
        product: b.id,
        death_tpd_option: b.death_tpd_option,
        si: b.si,
        risk_flag: s.risk == RiskTypeEnum::Subrisk,
        annual_int_rate: basis.annual_rate,
        due_a_n1_m12: basis.due_a_n1_m12,
        extra_prem_rate: rates.extra_prem_rate,
        em_load: b.load.em_load,
        pm_load: b.load.pm_load as u64,
        acc_ben_coeff: b.acc_ben_coeff as u64,
        acc_coi_rate: b.spec_acc_coi_rate() as u64,
        modal_tp: tp as u64,
        withdrawal_rules: WithdrawalRules {
            death_tpd_option: b.death_tpd_option,
            min_pav_after_withdrawal: tp as u64,
            min_si: 100_000_000,
        },
        lb_review_period: b.spec_lb_review_period() as u64,
        sb_review_period: 10,
    }
}

/// A timeline year with the premiums and allocations of a scenario; `tp`,
/// `bonus` and `ep` are the annual modal premiums and the big-case bonus.
pub open spec fn scenario_year(
    t: TimelineRow,
    b: Base,
    s: Scenario,
    tp: int,
    bonus: int,
    ep: int,
) -> ScenarioYear {
    let terms = prem_terms(b, s.prem_term);
    let tp_flag = t.year <= terms.0;
    let year_tp = if tp_flag { tp + if t.year == 1 { bonus } else { 0 } } else { 0 };
    let year_ep = if tp_flag { ep } else { 0 };
    let tp_alloc_chrg = year_tp * t.tp_alloc_chrg_rate / SCALE as int;
    let ep_alloc_chrg = year_ep * t.ep_alloc_chrg_rate / SCALE as int;
    ScenarioYear {
        timeline: t,
        tp_term_flag: tp_flag,
        ep_term_flag: t.year <= terms.1,
        tp: year_tp as u64,
        ep: year_ep as u64,
        srr_chrg: (year_tp * t.srr_chrg_rate / SCALE as int) as u64,
        tp_alloc_chrg: tp_alloc_chrg as u64,
        ep_alloc_chrg: ep_alloc_chrg as u64,
        tp_alloc: (year_tp - tp_alloc_chrg) as u64,
        ep_alloc: (year_ep - ep_alloc_chrg) as u64,
    }
}

pub open spec fn scenario_years(
    timeline: Seq<TimelineRow>,
    b: Base,
    s: Scenario,
    tp: int,
    bonus: int,
    ep: int,
) -> Seq<ScenarioYear> {
    timeline.map_values(|t: TimelineRow| scenario_year(t, b, s, tp, bonus, ep))
}

fn share(amount: u64, rate: u64) -> (r: u64)
    requires
        amount <= AMOUNT_MAX,
        rate <= SCALE,
    ensures
        r == amount * rate / SCALE as int,
        r <= amount,
{
    let v = mul_div(amount, rate, SCALE);
    proof {
        assert(amount as int * rate as int / SCALE as int <= amount) by (nonlinear_arith)
            requires
                rate <= SCALE,
        ;
    }
    v as u64
}

/// The per-year premiums and allocations and the rollforward parameters of
/// one scenario. Fails where the premiums cannot be had; see
/// `premium_outcome`.
pub fn varied_init(
    scenario: Scenario,
    timeline: &Vec<TimelineRow>,
    b: &Base,
    rates: &PolicyRates,
) -> (r: Result<(Vec<ScenarioYear>, RollforwardParams), ProjectionError>)
    requires
        b.wf(),
        rates.wf(),
        forall|k: int| 0 <= k < timeline@.len() ==> (#[trigger] timeline@[k]).wf(),
    ensures
        !is_supported(b.id) ==> (r matches Err(e) && e == ProjectionError::UnsupportedProduct),
        is_supported(b.id) && date_before(b.rcd, b.insured.dob) ==> (r matches Err(e) && e
            == ProjectionError::BirthdateAfterCommencement),
        is_supported(b.id) && !date_before(b.rcd, b.insured.dob) ==> match premium_outcome(
            *b,
            *rates,
        ) {
            Err(e) => r == Err::<(Vec<ScenarioYear>, RollforwardParams), ProjectionError>(e),
            Ok(prem) => r matches Ok(res) && res.1 == params_model(*b, *rates, scenario, prem.0)
                && res.1.wf() && res.0@ == scenario_years(
                timeline@,
                *b,
                scenario,
                prem.0,
                prem.1,
                prem.2,
            ) && forall|k: int| 0 <= k < res.0@.len() ==> (#[trigger] res.0@[k]).wf(),
        },
{
    let term = b.term()?;
    let modal_tp = b.modal_tp_tuple(rates.prem_rate, &rates.modal_factors).0;
    let modal_ep = b.modal_ep_tuple(&rates.modal_factors).0;
    if modal_tp > AMOUNT_MAX {
        return Err(ProjectionError::Overflow);
    }
    let bonus = b.big_case_bonus(modal_tp)?;
    if modal_tp + bonus > AMOUNT_MAX || modal_ep > AMOUNT_MAX {
        return Err(ProjectionError::Overflow);
    }
    let basis = match scenario.int_rate {
        IntRateScenarioEnum::High => rates.int_rates.high,
        IntRateScenarioEnum::Low => rates.int_rates.low,
        IntRateScenarioEnum::Guaranteed => rates.int_rates.guaranteed,
    };
    let must_pay = b.must_pay_period()?;
    let (tp_term, ep_term) = match scenario.prem_term {
        PremTermScenarioEnum::PolicyTerm => (term, term),
        PremTermScenarioEnum::OptedTerm => (b.opted_tp_term, b.opted_ep_term),
        PremTermScenarioEnum::MustPayTerm => (must_pay, must_pay),
    };
    let acc_coi_rate = b.acc_coi_rate()?;
    let lb_review_period = b.lb_review_period()?;
    let sb_review_period = b.sb_review_period()?;
    let min_pav = b.min_pav_after_withdrawal(modal_tp)?;
    let min_si = b.min_si()?;
    let params = RollforwardParams {
        product: b.id,
        death_tpd_option: b.death_tpd_option,
        si: b.si,
        risk_flag: match scenario.risk {
            RiskTypeEnum::Standard => false,
            RiskTypeEnum::Subrisk => true,
        },
        annual_int_rate: basis.annual_rate,
        due_a_n1_m12: basis.due_a_n1_m12,
        extra_prem_rate: rates.extra_prem_rate,
        em_load: b.load.em_load,
        pm_load: b.load.pm_load as u64,
        acc_ben_coeff: b.acc_ben_coeff as u64,
        acc_coi_rate,
        modal_tp,
        withdrawal_rules: WithdrawalRules {
            death_tpd_option: b.death_tpd_option,
            min_pav_after_withdrawal: min_pav,
            min_si,
        },
        lb_review_period: lb_review_period as u64,
        sb_review_period: sb_review_period as u64,
    };
    let mut years: Vec<ScenarioYear> = Vec::new();
    let mut i: usize = 0;
    while i < timeline.len()
        invariant
            i <= timeline.len(),
            forall|k: int| 0 <= k < timeline@.len() ==> (#[trigger] timeline@[k]).wf(),
            modal_tp + bonus <= AMOUNT_MAX,
            modal_ep <= AMOUNT_MAX,
            (tp_term as int, ep_term as int) == prem_terms(*b, scenario.prem_term),
            years@.len() == i,
            forall|k: int|
                0 <= k < i ==> #[trigger] years@[k] == scenario_year(
                    timeline@[k],
                    *b,
                    scenario,
                    modal_tp as int,
                    bonus as int,
                    modal_ep as int,
                ) && years@[k].wf(),
        decreases timeline.len() - i,
    {
        let t = timeline[i];
        let tp_flag = t.year <= tp_term;
        let tp: u64 = if tp_flag {
            modal_tp + if t.year == 1 { bonus } else { 0 }
        } else {
            0
        };
        let ep: u64 = if tp_flag { modal_ep } else { 0 };
        let tp_alloc_chrg = share(tp, t.tp_alloc_chrg_rate);
        let ep_alloc_chrg = share(ep, t.ep_alloc_chrg_rate);
        years.push(ScenarioYear {
            timeline: t,
            tp_term_flag: tp_flag,
            ep_term_flag: t.year <= ep_term,
            tp,
            ep,
            srr_chrg: share(tp, t.srr_chrg_rate),
            tp_alloc_chrg,
            ep_alloc_chrg,
            tp_alloc: tp - tp_alloc_chrg,
            ep_alloc: ep - ep_alloc_chrg,
        });
        i = i + 1;
    }
    proof {
        assert(years@ =~= scenario_years(
            timeline@,
            *b,
            scenario,
            modal_tp as int,
            bonus as int,
            modal_ep as int,
        ));
    }
    Ok((years, params))
}


/// The projection of one scenario: its years and the rows computed for them.
#[derive(Clone, Debug)]
pub struct ScenarioProjection {
    pub scenario: Scenario,
    pub years: Vec<ScenarioYear>,
    pub rows: Vec<ProjectionRow>,
}

/// Projects one scenario over the timeline: its per-year premiums, then the
/// year-by-year rollforward.
pub fn varied(
    scenario: Scenario,
    timeline: &Vec<TimelineRow>,
    b: &Base,
    rates: &PolicyRates,
) -> (r: Result<ScenarioProjection, ProjectionError>)
    requires
        b.wf(),
        rates.wf(),
        forall|k: int| 0 <= k < timeline@.len() ==> (#[trigger] timeline@[k]).wf(),
    ensures
        !is_supported(b.id) ==> (r matches Err(e) && e == ProjectionError::UnsupportedProduct),
        is_supported(b.id) && date_before(b.rcd, b.insured.dob) ==> (r matches Err(e) && e
            == ProjectionError::BirthdateAfterCommencement),
        is_supported(b.id) && !date_before(b.rcd, b.insured.dob) ==> match premium_outcome(
            *b,
            *rates,
        ) {
            Err(e) => r == Err::<ScenarioProjection, ProjectionError>(e),
            Ok(prem) => {
                let ys = scenario_years(timeline@, *b, scenario, prem.0, prem.1, prem.2);
                let p = params_model(*b, *rates, scenario, prem.0);
                &&& r is Ok <==> all_fit(projection_model(ys, p))
                &&& r matches Err(e) ==> e == ProjectionError::Overflow
                &&& r matches Ok(sp) ==> sp.scenario == scenario && sp.years@ == ys && rows_view(
                    sp.rows@,
                ) == projection_model(ys, p)
            },
        },
{
    let (years, params) = varied_init(scenario, timeline, b, rates)?;
    let rows = rollforward(&years, &params)?;
    Ok(ScenarioProjection { scenario, years, rows })
}

/// The timeline of `b`, year by year; see `timeline::fixed`.
pub open spec fn timeline_model(b: Base, rates: PolicyRates) -> Seq<TimelineRow> {
    Seq::new(
        timeline_len(b.spec_term()) as nat,
        |k: int| timeline_row(b, rates, b.spec_entry_age(), 66 - b.spec_entry_age(), k + 1),
    )
}

/// The projection of scenario `k`, with the premiums `prem`.
pub open spec fn scenario_model(
    b: Base,
    rates: PolicyRates,
    k: int,
    prem: (int, int, int),
) -> Seq<crate::rollforward::RowModel> {
    projection_model(
        scenario_years(timeline_model(b, rates), b, scenario_at(k), prem.0, prem.1, prem.2),
        params_model(b, rates, scenario_at(k), prem.0),
    )
}

/// Everything a whole projection needs holds: valid dates, a supported
/// product, rates in range, premiums that can be had, and no amount beyond
/// `AMOUNT_MAX` in any scenario.
pub open spec fn projection_succeeds(b: Base, rates: PolicyRates) -> bool {
    &&& !date_before(b.rcd, b.insured.dob)
    &&& is_supported(b.id)
    &&& forall|k: int|
        0 <= k < timeline_model(b, rates).len() ==> (#[trigger] timeline_model(b, rates)[k]).wf()
    &&& rates.wf()
    &&& premium_outcome(b, rates) matches Ok(prem) && forall|k: int|
        0 <= k < 18 ==> all_fit(#[trigger] scenario_model(b, rates, k, prem))
}

/// Projects the base coverage under all 18 scenarios, in the order of
/// `scenarios`. Any failure fails the whole projection.
pub fn base_cf(b: &Base, rates: &PolicyRates) -> (r: Result<Vec<ScenarioProjection>, ProjectionError>)
    requires
        b.wf(),
    ensures
        date_before(b.rcd, b.insured.dob) ==> r == Err::<Vec<ScenarioProjection>, ProjectionError>(
            ProjectionError::BirthdateAfterCommencement,
        ),
        r is Ok <==> projection_succeeds(*b, *rates),
        r matches Ok(v) ==> v@.len() == 18 && (premium_outcome(*b, *rates) matches Ok(prem)
            && forall|k: int|
            0 <= k < 18 ==> {
                &&& (#[trigger] v@[k]).scenario == scenario_at(k)
                &&& v@[k].years@ == scenario_years(
                    timeline_model(*b, *rates),
                    *b,
                    scenario_at(k),
                    prem.0,
                    prem.1,
                    prem.2,
                )
                &&& v@[k].years@.len() == timeline_len(b.spec_term())
                &&& rows_view(v@[k].rows@) == scenario_model(*b, *rates, k, prem)
            }),
{
    let timeline = match fixed(b, rates) {
        Ok(t) => t,
        Err(e) => {
            proof {
                if !date_before(b.rcd, b.insured.dob) && is_supported(b.id) {
                    let tl = timeline_model(*b, *rates);
                    let k = choose|k: int|
                        0 <= k < timeline_len(b.spec_term()) && !(#[trigger] timeline_row(
                            *b,
                            *rates,
                            b.spec_entry_age(),
                            66 - b.spec_entry_age(),
                            k + 1,
                        )).wf();
                    assert(!tl[k].wf());
                }
            }
            return Err(e);
        },
    };
    proof {
        assert(timeline@ =~= timeline_model(*b, *rates));
    }
    if !rates.in_range() {
        return Err(ProjectionError::InvalidRate);
    }
    let all = scenarios();
    let mut out: Vec<ScenarioProjection> = Vec::new();
    let mut i: usize = 0;
    while i < 18
        invariant
            i <= 18,
            b.wf(),
            rates.wf(),
            is_supported(b.id),
            !date_before(b.rcd, b.insured.dob),
            timeline@ == timeline_model(*b, *rates),
            forall|k: int| 0 <= k < timeline@.len() ==> (#[trigger] timeline@[k]).wf(),
            all@.len() == 18,
            forall|k: int| 0 <= k < 18 ==> #[trigger] all@[k] == scenario_at(k),
            out@.len() == i,
            i > 0 ==> premium_outcome(*b, *rates) is Ok,
            premium_outcome(*b, *rates) matches Ok(prem) ==> forall|k: int|
                0 <= k < i ==> {
                    &&& (#[trigger] out@[k]).scenario == scenario_at(k)
                    &&& out@[k].years@ == scenario_years(
                        timeline_model(*b, *rates),
                        *b,
                        scenario_at(k),
                        prem.0,
                        prem.1,
                        prem.2,
                    )
                    &&& rows_view(out@[k].rows@) == scenario_model(*b, *rates, k, prem)
                    &&& all_fit(scenario_model(*b, *rates, k, prem))
                },
        decreases 18 - i,
    {
        let sp = match varied(all[i], &timeline, b, rates) {
            Ok(sp) => sp,
            Err(e) => {
                proof {
                    if premium_outcome(*b, *rates) is Ok {
                        let prem = premium_outcome(*b, *rates)->Ok_0;
                        assert(!all_fit(scenario_model(*b, *rates, i as int, prem)));
                    }
                }
                return Err(e);
            },
        };
        out.push(sp);
        i = i + 1;
    }
    proof {
        let prem = premium_outcome(*b, *rates)->Ok_0;
        assert forall|k: int| 0 <= k < 18 implies (#[trigger] out@[k]).years@.len()
            == timeline_len(b.spec_term()) by {
            assert(out@[k].years@ == scenario_years(
                timeline_model(*b, *rates),
                *b,
                scenario_at(k),
                prem.0,
                prem.1,
                prem.2,
            ));
        }
        assert forall|k: int| 0 <= k < 18 implies all_fit(
            #[trigger] scenario_model(*b, *rates, k, prem),
        ) by {
            assert(out@[k].scenario == scenario_at(k));
        }
    }
    Ok(out)
}


proof fn lemma_scenario_year_wf(t: TimelineRow, b: Base, s: Scenario, tp: int, bonus: int, ep: int)
    requires
        t.wf(),
        0 <= tp,
        0 <= bonus,
        tp + bonus <= AMOUNT_MAX,
        0 <= ep <= AMOUNT_MAX,
    ensures
        scenario_year(t, b, s, tp, bonus, ep).wf(),
        scenario_year(t, b, s, tp, bonus, ep).timeline == t,
{
    let terms = prem_terms(b, s.prem_term);
    let tp_flag = t.year <= terms.0;
    let year_tp = if tp_flag { tp + if t.year == 1 { bonus } else { 0 } } else { 0 };
    let year_ep = if tp_flag { ep } else { 0 };
    assert forall|x: int, r: int| 0 <= x && 0 <= r <= SCALE implies 0 <= #[trigger] (x * r
        / SCALE as int) <= x by {
        assert(0 <= x * r / SCALE as int <= x) by (nonlinear_arith)
            requires
                0 <= x,
                0 <= r <= SCALE,
        ;
    }
    assert(0 <= year_tp * t.tp_alloc_chrg_rate / SCALE as int <= year_tp);
    assert(0 <= year_tp * t.srr_chrg_rate / SCALE as int <= year_tp);
    assert(0 <= year_ep * t.ep_alloc_chrg_rate / SCALE as int <= year_ep);
}

/// Each of the 18 scenario projections runs over the policy years in order,
/// starting at year 1, and stops at the end of the term or earlier.
pub proof fn lemma_projection_spans_terms(b: Base, rates: PolicyRates)
    requires
        b.wf(),
        projection_succeeds(b, rates),
    ensures
        premium_outcome(b, rates) matches Ok(prem) && forall|k: int|
            0 <= k < 18 ==> {
                let rows = #[trigger] scenario_model(b, rates, k, prem);
                &&& rows.len() <= timeline_len(b.spec_term())
                &&& forall|j: int| 0 <= j < rows.len() ==> rows[j].year == j + 1
            },
{
    let prem = premium_outcome(b, rates)->Ok_0;
    let tl = timeline_model(b, rates);
    assert forall|k: int| 0 <= k < 18 implies {
        let rows = #[trigger] scenario_model(b, rates, k, prem);
        &&& rows.len() <= timeline_len(b.spec_term())
        &&& forall|j: int| 0 <= j < rows.len() ==> rows[j].year == j + 1
    } by {
        let ys = scenario_years(tl, b, scenario_at(k), prem.0, prem.1, prem.2);
        let p = params_model(b, rates, scenario_at(k), prem.0);
        assert forall|i: int| 0 <= i < ys.len() implies (#[trigger] ys[i]).wf() && ys[i].timeline
            == tl[i] by {
            lemma_scenario_year_wf(tl[i], b, scenario_at(k), prem.0, prem.1, prem.2);
        }
        crate::rollforward::lemma_continuation_ends_scenario(ys, p);
    }
}

} // verus!
