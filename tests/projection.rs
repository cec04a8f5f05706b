use ul_projection::dates::Date;
use ul_projection::enums::{
    ChannelEnum, DeathTPDBenefitEnum, FundEnum, GenderEnum, IntRateScenarioEnum, PayModeEnum,
    PremTermScenarioEnum, RelationshipToOwnerEnum, RiskTypeEnum, StatusEnum, ULEnum,
};
use ul_projection::error::ProjectionError;
use ul_projection::money::AMOUNT_MAX;
use ul_projection::people::Insured;
use ul_projection::policy::{
    Base, FundAlloc, IntRates, InterestBasis, Load, ModalFactors, Withdrawal,
};
use ul_projection::rollforward::get_sb_rate;
use ul_projection::scenario::{base_cf, scenarios, varied, Scenario};
use ul_projection::tables::{IntRateRow, RateEntry, RateTable};
use ul_projection::timeline::{fixed, PolicyRates};
use ul_projection::withdrawal::{calculate_withdrawal, WithdrawalLog, WithdrawalRules};

fn rate(x: f64) -> u64 {
    (x * 1e9).round() as u64
}

fn table(pairs: Vec<(i32, u64)>) -> RateTable {
    RateTable { entries: pairs.into_iter().map(|(key, value)| RateEntry { key, value }).collect() }
}

fn base(product: ULEnum, si: u64) -> Base {
    Base {
        id: product,
        rcd: Date::from_ymd_opt(2025, 1, 1).unwrap(),
        paymode: PayModeEnum::Annual,
        channel: ChannelEnum::CHNL001,
        status: StatusEnum::Inforce,
        insured: Insured {
            id: "0000000000000000001".to_string(),
            ssn: "012345678999".to_string(),
            dob: Date::from_ymd_opt(1995, 1, 1).unwrap(),
            gender: GenderEnum::Male,
            relatsh: RelationshipToOwnerEnum::OwnerSelf,
        },
        load: Load { em_load: 0, em_load_term: 0, pm_load: 0, pm_load_term: 0 },
        si,
        opted_tp_term: 20,
        ep: 0,
        opted_ep_term: 10,
        death_tpd_option: DeathTPDBenefitEnum::A,
        maturity_option: 2,
        acc_ben_coeff: 1,
        fund_alloc: vec![FundAlloc { fund: FundEnum::F000, tp_pct: 100, ep_pct: 100 }],
        withdrawal_plan: None,
    }
}

fn rates() -> PolicyRates {
    let tp = [0.55, 0.40, 0.25, 0.15, 0.10, 0.08, 0.06, 0.05, 0.04];
    let srr = [1.0, 1.0, 1.0, 1.0, 0.8, 0.6, 0.4, 0.2, 0.1];
    PolicyRates {
        tp_alloc_chrg_rate: table(
            (1..=100).map(|y| (y, rate(if y <= 9 { tp[y as usize - 1] } else { 0.02 }))).collect(),
        ),
        ep_alloc_chrg_rate: table((1..=100).map(|y| (y, rate(0.02))).collect()),
        srr_chrg_rate: table(
            (1..=100).map(|y| (y, rate(if y <= 9 { srr[y as usize - 1] } else { 0.0 }))).collect(),
        ),
        lb_rate: table(
            (1..=100)
                .map(|y| (y, rate(if y % 4 == 0 { 0.06 * ((y / 4) as f64) } else { 0.0 })))
                .collect(),
        ),
        coi_rate: table((0..=120).map(|a| (a, rate(0.00172))).collect()),
        juvenile_lien_rate: table((0..=3).map(|a| (a, rate(1.0))).collect()),
        admin_chrg: table((2016..=2115).map(|y| (y, 25_000)).collect()),
        extra_prem_rate: rate(1.53),
        prem_rate: rate(21.04068),
        modal_factors: ModalFactors {
            annual: rate(1.0),
            semi_annual: rate(0.5),
            quarterly: rate(0.25),
            monthly: rate(0.083333333),
        },
        int_rates: IntRates {
            high: InterestBasis { annual_rate: rate(0.07), due_a_n1_m12: 969_649_310 },
            low: InterestBasis { annual_rate: rate(0.05), due_a_n1_m12: 977_982_344 },
            guaranteed: InterestBasis { annual_rate: rate(0.02), due_a_n1_m12: 990_980_940 },
        },
    }
}

fn high_standard_policy_term() -> Scenario {
    Scenario {
        int_rate: IntRateScenarioEnum::High,
        risk: RiskTypeEnum::Standard,
        prem_term: PremTermScenarioEnum::PolicyTerm,
    }
}

#[test]
fn uvl01_example_year_one() {
    let b = base(ULEnum::UVL01, 1_000_000_000);
    let r = rates();
    let timeline = fixed(&b, &r).unwrap();
    assert_eq!(timeline.len(), 36);
    let sp = varied(high_standard_policy_term(), &timeline, &b, &r).unwrap();
    assert_eq!(sp.years[0].tp, 21_041_000);
    assert_eq!(sp.years[0].tp_alloc, 9_468_450);
    let first = &sp.rows[0];
    assert_eq!(first.start_si, 1_000_000_000);
    assert!(first.cont_flag);
    assert_eq!(first.ben, 1_000_000_000);
    assert_eq!(first.standard_coi, 1_720_000);
    assert_eq!(first.acc_coi, 900_000);
    assert_eq!(first.plan_nom_deduction, 2_920_000);
    assert_eq!(first.plan_deduction, 2_831_375);
    assert!(first.deduction_flag);
    assert_eq!(first.tav_int, 464_595);
    assert_eq!(first.end_tav, 7_101_670);
    assert_eq!(first.end_pav, 7_101_670);
    assert!(sp.rows.len() <= 36);
    for (i, row) in sp.rows.iter().enumerate() {
        if !row.deduction_flag {
            assert_eq!(i, sp.rows.len() - 1);
        }
    }
    if sp.rows.len() < 36 {
        assert!(!sp.rows.last().unwrap().deduction_flag);
    }
}

#[test]
fn years_carry_over_and_pav_is_sum() {
    let b = base(ULEnum::UVL01, 1_000_000_000);
    let r = rates();
    let timeline = fixed(&b, &r).unwrap();
    let sp = varied(high_standard_policy_term(), &timeline, &b, &r).unwrap();
    assert!(sp.rows.len() > 1);
    for i in 1..sp.rows.len() {
        assert_eq!(sp.rows[i].start_si, sp.rows[i - 1].end_si);
        assert_eq!(sp.rows[i].start_eav, sp.rows[i - 1].end_eav);
        assert_eq!(sp.rows[i].start_tav, sp.rows[i - 1].end_tav);
        assert_eq!(sp.rows[i].year, i as i32 + 1);
    }
    for row in &sp.rows {
        assert_eq!(row.end_pav, row.end_eav + row.end_tav);
        assert_eq!(row.start_pav, row.start_eav + row.start_tav);
    }
}

#[test]
fn substandard_loads_round_up_to_thousands() {
    let mut b = base(ULEnum::UVL01, 1_000_000_000);
    b.load = Load { em_load: rate(1.0), em_load_term: 10, pm_load: 2, pm_load_term: 10 };
    let r = rates();
    let timeline = fixed(&b, &r).unwrap();
    let scenario = Scenario {
        int_rate: IntRateScenarioEnum::High,
        risk: RiskTypeEnum::Subrisk,
        prem_term: PremTermScenarioEnum::PolicyTerm,
    };
    let sp = varied(scenario, &timeline, &b, &r).unwrap();
    let first = &sp.rows[0];
    assert_eq!(first.unrounded_em_load, 1_561_225);
    assert_eq!(first.em_load, 1_562_000);
    assert_eq!(first.unrounded_pm_load, 2_040_817);
    assert_eq!(first.pm_load, 2_041_000);
    assert_eq!(first.load, 3_603_000);
    for row in &sp.rows {
        assert_eq!(row.em_load % 1000, 0);
        assert_eq!(row.pm_load % 1000, 0);
        assert!(row.em_load >= row.unrounded_em_load);
        assert!(row.pm_load >= row.unrounded_pm_load);
        assert!(row.em_load < row.unrounded_em_load + 1000);
        assert!(row.pm_load < row.unrounded_pm_load + 1000);
        assert_eq!(row.load, row.em_load + row.pm_load);
    }
}

#[test]
fn standard_risk_has_no_loads() {
    let mut b = base(ULEnum::UVL01, 1_000_000_000);
    b.load = Load { em_load: rate(1.0), em_load_term: 10, pm_load: 2, pm_load_term: 10 };
    let r = rates();
    let timeline = fixed(&b, &r).unwrap();
    let sp = varied(high_standard_policy_term(), &timeline, &b, &r).unwrap();
    assert_eq!(sp.rows[0].em_load, 0);
    assert_eq!(sp.rows[0].pm_load, 0);
}

#[test]
fn unaffordable_deduction_ends_the_scenario() {
    let b = base(ULEnum::UVL01, 1_000_000_000);
    let mut r = rates();
    r.prem_rate = rate(0.001);
    let timeline = fixed(&b, &r).unwrap();
    let sp = varied(high_standard_policy_term(), &timeline, &b, &r).unwrap();
    assert_eq!(sp.rows.len(), 1);
    let only = &sp.rows[0];
    assert!(only.cont_flag);
    assert!(!only.deduction_flag);
    assert_eq!(only.deduction, 0);
    assert_eq!(only.end_eav, 0);
    assert_eq!(only.end_tav, 0);
    assert_eq!(only.end_si, 1_000_000_000);
}

#[test]
fn withdrawal_blocks_loyalty_bonus_in_its_window() {
    let mut b = base(ULEnum::UVL01, 1_000_000_000);
    b.withdrawal_plan = Some(vec![Withdrawal { from: 5, to: 5, amount: 1_000_000 }]);
    let r = rates();
    let timeline = fixed(&b, &r).unwrap();
    assert_eq!(timeline[4].withdrawal_input, 1_000_000);
    assert_eq!(timeline[5].withdrawal_input, 0);
    let sp = varied(high_standard_policy_term(), &timeline, &b, &r).unwrap();
    assert!(sp.rows.len() >= 12);
    let year5 = &sp.rows[4];
    assert_eq!(year5.withdrawal_log, WithdrawalLog::Success);
    assert_eq!(year5.withdrawal, 1_000_000);
    assert_eq!(year5.eav_withdrawal + year5.tav_withdrawal, 1_000_000);
    assert!(sp.rows[3].lb_flag);
    assert_eq!(sp.rows[3].lb, 21_041_000 * 6 / 100);
    assert!(!sp.rows[7].lb_flag);
    assert_eq!(sp.rows[7].lb_tav_withdrawal_review, 1_000_000);
    assert_eq!(sp.rows[7].lb, 0);
    assert!(sp.rows[11].lb_flag);
}

#[test]
fn all_scenarios_are_projected() {
    let b = base(ULEnum::UVL01, 1_000_000_000);
    let r = rates();
    let all = base_cf(&b, &r).unwrap();
    assert_eq!(all.len(), 18);
    let tags = scenarios();
    for (k, sp) in all.iter().enumerate() {
        assert_eq!(sp.scenario, tags[k]);
        assert_eq!(sp.years.len(), 36);
        assert!(!sp.rows.is_empty() && sp.rows.len() <= 36);
        assert_eq!(sp.rows[0].start_si, 1_000_000_000);
    }
}

#[test]
fn eighteen_distinct_scenarios() {
    let all = scenarios();
    assert_eq!(all.len(), 18);
    for i in 0..18 {
        for j in 0..18 {
            if i != j {
                assert_ne!(all[i], all[j]);
            }
        }
    }
    assert_eq!(all[0], high_standard_policy_term());
    assert_eq!(
        all[17],
        Scenario {
            int_rate: IntRateScenarioEnum::Guaranteed,
            risk: RiskTypeEnum::Subrisk,
            prem_term: PremTermScenarioEnum::MustPayTerm,
        }
    );
}

#[test]
fn premium_terms_follow_the_scenario() {
    let b = base(ULEnum::UVL01, 1_000_000_000);
    let r = rates();
    let timeline = fixed(&b, &r).unwrap();
    let mut s = high_standard_policy_term();
    s.prem_term = PremTermScenarioEnum::MustPayTerm;
    let sp = varied(s, &timeline, &b, &r).unwrap();
    assert_eq!(sp.years[3].tp, 21_041_000);
    assert_eq!(sp.years[4].tp, 0);
    s.prem_term = PremTermScenarioEnum::OptedTerm;
    let sp = varied(s, &timeline, &b, &r).unwrap();
    assert_eq!(sp.years[19].tp, 21_041_000);
    assert_eq!(sp.years[20].tp, 0);
    assert!(sp.years[9].ep_term_flag);
    assert!(!sp.years[10].ep_term_flag);
}

#[test]
fn birthdate_after_commencement_fails() {
    let mut b = base(ULEnum::UVL01, 1_000_000_000);
    b.insured.dob = Date::from_ymd_opt(2026, 1, 1).unwrap();
    assert_eq!(base_cf(&b, &rates()).unwrap_err(), ProjectionError::BirthdateAfterCommencement);
}

#[test]
fn unsupported_product_fails() {
    let b = base(ULEnum::ILP02, 1_000_000_000);
    assert_eq!(base_cf(&b, &rates()).unwrap_err(), ProjectionError::UnsupportedProduct);
}

#[test]
fn full_excess_charge_rate_is_invalid() {
    let b = base(ULEnum::UVL01, 1_000_000_000);
    let mut r = rates();
    r.ep_alloc_chrg_rate = table(vec![(3, rate(1.0))]);
    assert_eq!(base_cf(&b, &r).unwrap_err(), ProjectionError::InvalidRate);
}

#[test]
fn huge_amounts_overflow() {
    let mut b = base(ULEnum::UVL01, AMOUNT_MAX);
    b.acc_ben_coeff = 5;
    b.maturity_option = 1;
    let mut r = rates();
    r.prem_rate = rate(0.001);
    assert_eq!(base_cf(&b, &r).unwrap_err(), ProjectionError::Overflow);
}

#[test]
fn entry_ages() {
    let b = base(ULEnum::UVL01, 1_000_000_000);
    assert_eq!(b.entry_age(), Ok(30));
    assert_eq!(b.maturity_age(), Ok(66));
    assert_eq!(b.term(), Ok(36));
    assert_eq!(b.acc_ben_term(), Ok(36));
    assert_eq!(b.entry_month_age(), Err(ProjectionError::NotApplicable));
    let mut infant = base(ULEnum::UVL01, 1_000_000_000);
    infant.insured.dob = Date::from_ymd_opt(2024, 7, 28).unwrap();
    assert_eq!(infant.entry_month_age(), Ok(5));
    infant.maturity_option = 1;
    assert_eq!(infant.term(), Ok(100));
}

#[test]
fn modal_premiums_round_up_to_thousands() {
    let b = base(ULEnum::UVL01, 1_000_000_000);
    let r = rates();
    let tp = b.modal_tp_tuple(r.prem_rate, &r.modal_factors);
    assert_eq!(tp, (21_041_000, 10_521_000, 5_261_000, 1_754_000));
    let mut with_ep = base(ULEnum::UVL01, 1_000_000_000);
    with_ep.ep = 10_000_500;
    assert_eq!(with_ep.modal_ep_tuple(&r.modal_factors), (10_001_000, 5_001_000, 2_501_000, 834_000));
}

#[test]
fn big_case_bonus_by_product() {
    let ilp = base(ULEnum::ILP01, 1_000_000_000);
    assert_eq!(ilp.big_case_bonus(100_000_000), Ok(5_000_000));
    assert_eq!(ilp.big_case_bonus(60_000_000), Ok(1_800_000));
    assert_eq!(ilp.big_case_bonus(10_000_000), Err(ProjectionError::UnsupportedProduct));
    let uvl = base(ULEnum::UVL02, 1_000_000_000);
    assert_eq!(uvl.big_case_bonus(100_000_000), Ok(0));
}

#[test]
fn product_rules() {
    let uvl01 = base(ULEnum::UVL01, 1);
    let ilp01 = base(ULEnum::ILP01, 1);
    let ilp03 = base(ULEnum::ILP03, 1);
    assert_eq!(uvl01.must_pay_period(), Ok(4));
    assert_eq!(ilp01.must_pay_period(), Ok(3));
    assert_eq!(uvl01.lb_review_period(), Ok(4));
    assert_eq!(ilp01.lb_review_period(), Ok(3));
    assert_eq!(uvl01.sb_review_period(), Ok(10));
    assert_eq!(uvl01.acc_coi_rate(), Ok(75_000));
    assert_eq!(ilp01.acc_coi_rate(), Ok(0));
    assert_eq!(uvl01.min_si(), Ok(100_000_000));
    assert_eq!(uvl01.withdrawal_start_year(), Ok(2));
    assert_eq!(uvl01.min_pav_after_withdrawal(21_041_000), Ok(21_041_000));
    assert_eq!(ilp03.min_si(), Err(ProjectionError::UnsupportedProduct));
    assert_eq!(ilp03.must_pay_period(), Err(ProjectionError::UnsupportedProduct));
}

#[test]
fn guaranteed_rate_only_for_uvl() {
    let mut rows = Vec::new();
    for p in ["UVL01", "UVL03", "ILP01"] {
        for (sc, x) in [(0, 0.07), (1, 0.05), (2, 0.02)] {
            if p == "ILP01" && sc == 2 {
                continue;
            }
            rows.push(IntRateRow { product: p.to_string(), scenario: sc, rate: rate(x) });
        }
    }
    assert_eq!(base(ULEnum::ILP01, 1).int_rate_tuple(&rows), Ok((rate(0.07), rate(0.05), 0)));
    assert_eq!(
        base(ULEnum::UVL03, 1).int_rate_tuple(&rows),
        Ok((rate(0.07), rate(0.05), rate(0.02)))
    );
    assert_eq!(base(ULEnum::UVL02, 1).int_rate_tuple(&rows), Err(ProjectionError::MissingRate));
}

fn rules(option: DeathTPDBenefitEnum) -> WithdrawalRules {
    WithdrawalRules {
        death_tpd_option: option,
        min_pav_after_withdrawal: 1_000_000,
        min_si: 100_000_000,
    }
}

#[test]
fn withdrawal_of_nothing() {
    let w = calculate_withdrawal(0, 5_000_000, 5_000_000, 200_000_000, &rules(DeathTPDBenefitEnum::A));
    assert_eq!(w.log, WithdrawalLog::NoWithdrawal);
    assert_eq!((w.withdrawal, w.eav_withdrawal, w.tav_withdrawal, w.end_si), (0, 0, 0, 200_000_000));
    assert_eq!(w.log.message(), "No withdrawal.");
}

#[test]
fn withdrawal_beyond_account_value() {
    let w = calculate_withdrawal(
        10_000_001,
        5_000_000,
        5_000_000,
        200_000_000,
        &rules(DeathTPDBenefitEnum::A),
    );
    assert_eq!(w.log, WithdrawalLog::ExceedsAccountValue);
    assert_eq!((w.withdrawal, w.eav_withdrawal, w.tav_withdrawal, w.end_si), (0, 0, 0, 200_000_000));
}

#[test]
fn withdrawal_leaving_too_little() {
    let w = calculate_withdrawal(
        9_500_000,
        5_000_000,
        5_000_000,
        200_000_000,
        &rules(DeathTPDBenefitEnum::A),
    );
    assert_eq!(w.log, WithdrawalLog::PavBelowLimit);
    assert_eq!((w.withdrawal, w.eav_withdrawal, w.tav_withdrawal, w.end_si), (0, 0, 0, 200_000_000));
}

#[test]
fn withdrawal_leaving_too_small_sum_insured() {
    let w = calculate_withdrawal(
        2_000_000,
        5_000_000,
        5_000_000,
        101_000_000,
        &rules(DeathTPDBenefitEnum::B),
    );
    assert_eq!(w.log, WithdrawalLog::SiBelowLimit);
    assert_eq!((w.withdrawal, w.eav_withdrawal, w.tav_withdrawal, w.end_si), (0, 0, 0, 101_000_000));
}

#[test]
fn withdrawal_accepted() {
    let a = calculate_withdrawal(
        7_000_000,
        5_000_000,
        5_000_000,
        200_000_000,
        &rules(DeathTPDBenefitEnum::A),
    );
    assert_eq!(a.log, WithdrawalLog::Success);
    assert_eq!((a.withdrawal, a.eav_withdrawal, a.tav_withdrawal, a.end_si), (7_000_000, 5_000_000, 2_000_000, 200_000_000));
    let b = calculate_withdrawal(
        7_000_000,
        5_000_000,
        5_000_000,
        200_000_000,
        &rules(DeathTPDBenefitEnum::B),
    );
    assert_eq!(b.end_si, 193_000_000);
    assert_eq!(b.eav_withdrawal + b.tav_withdrawal, 7_000_000);
}

#[test]
fn special_bonus_rates() {
    assert_eq!(get_sb_rate(10, 1_000_000_000, ULEnum::UVL02), 4_000_000);
    assert_eq!(get_sb_rate(20, 1_000_000_000, ULEnum::UVL03), 12_000_000);
    assert_eq!(get_sb_rate(10, 500_000_000, ULEnum::UVL02), 2_000_000);
    assert_eq!(get_sb_rate(20, 500_000_000, ULEnum::UVL02), 6_000_000);
    assert_eq!(get_sb_rate(10, 100_000_000, ULEnum::UVL02), 2_000_000);
    assert_eq!(get_sb_rate(20, 100_000_000, ULEnum::UVL02), 6_000_000);
    assert_eq!(get_sb_rate(11, 1_000_000_000, ULEnum::UVL02), 0);
    assert_eq!(get_sb_rate(10, 1_000_000_000, ULEnum::UVL01), 0);
}

#[test]
fn juvenile_lien_defaults_to_one() {
    let mut b = base(ULEnum::UVL01, 1_000_000_000);
    b.insured.dob = Date::from_ymd_opt(2023, 1, 1).unwrap();
    let mut r = rates();
    r.juvenile_lien_rate = table(vec![(2, rate(0.6)), (3, rate(0.8))]);
    let timeline = fixed(&b, &r).unwrap();
    assert_eq!(timeline[0].age, 2);
    assert_eq!(timeline[0].juvenile_lien_rate, rate(0.6));
    assert_eq!(timeline[2].juvenile_lien_rate, rate(1.0));
    assert_eq!(timeline[0].cal_year, 2025);
    let sp = varied(high_standard_policy_term(), &timeline, &b, &r).unwrap();
    assert_eq!(sp.rows[0].ben, 600_000_000);
}

#[test]
fn withdrawal_plan_as_table() {
    let mut b = base(ULEnum::UVL01, 1_000_000_000);
    b.withdrawal_plan = Some(vec![
        Withdrawal { from: 2, to: 4, amount: 5_000_000 },
        Withdrawal { from: 7, to: 7, amount: 1_000_000 },
    ]);
    let t = b.withdrawal_plan_lf();
    let got: Vec<(i32, u64)> = t.entries.iter().map(|e| (e.key, e.value)).collect();
    assert_eq!(got, vec![(2, 5_000_000), (3, 5_000_000), (4, 5_000_000), (7, 1_000_000)]);
    assert_eq!(t.lookup(3, 0), b.withdrawal_amount(3));
    assert_eq!(b.withdrawal_amount(5), 0);
    b.withdrawal_plan = None;
    assert!(b.withdrawal_plan_lf().entries.is_empty());
}

#[test]
fn varied_reports_unsupported_product_and_bad_dates() {
    let good = base(ULEnum::UVL01, 1_000_000_000);
    let r = rates();
    let timeline = fixed(&good, &r).unwrap();
    let unsupported = base(ULEnum::ILP03, 1_000_000_000);
    assert_eq!(
        varied(high_standard_policy_term(), &timeline, &unsupported, &r).unwrap_err(),
        ProjectionError::UnsupportedProduct
    );
    let mut unborn = base(ULEnum::UVL01, 1_000_000_000);
    unborn.insured.dob = Date::from_ymd_opt(2026, 1, 1).unwrap();
    assert_eq!(
        varied(high_standard_policy_term(), &timeline, &unborn, &r).unwrap_err(),
        ProjectionError::BirthdateAfterCommencement
    );
}
