use ul_projection::enums::{GenderEnum, RiderEnum, ULEnum};
use ul_projection::error::ProjectionError;
use ul_projection::tables::{
    get_admin_chrg_lf, get_coi_rate_lf, get_ep_alloc_chrg_rate_lf, get_juvenile_lien_rate_lf,
    get_lb_rate_lf, get_max_entry_age, get_maturity_age, get_min_entry_age, get_srr_chrg_rate_lf,
    get_tp_alloc_chrg_rate_lf, AgeValidationRow, AllocChrgRateRow, CoiRateRow, ProductRateRow,
    RateEntry, RateTable,
};

/// A rate written as a decimal, in parts per 10^9.
fn rate(x: f64) -> u64 {
    (x * 1e9).round() as u64
}

fn row(product: &str, key: i32, value: u64) -> ProductRateRow {
    ProductRateRow { product: product.to_string(), key, value }
}

fn entries(keys: &[i32], values: &[u64]) -> Vec<RateEntry> {
    keys.iter().zip(values.iter()).map(|(k, v)| RateEntry { key: *k, value: *v }).collect()
}

fn admin_rows() -> Vec<ProductRateRow> {
    let mut rows = Vec::new();
    for y in 2016..=2115 {
        rows.push(row("UVL01", y, 25_000));
    }
    for p in ["UVL02", "UVL03", "ILP01"] {
        for (i, y) in (2024..=2123).enumerate() {
            rows.push(row(p, y, u64::min(40_000 + 2_000 * i as u64, 66_000)));
        }
    }
    rows
}

#[test]
fn test_fn_get_admin_chrg_lf_01() {
    let result = get_admin_chrg_lf(&ULEnum::UVL01, &admin_rows());
    let years: Vec<i32> = (2016..=2115).collect();
    let expected = entries(&years, &vec![25_000; 2115 - 2016 + 1]);
    assert_eq!(result.entries, expected);
}

#[test]
fn test_fn_get_admin_chrg_lf_02() {
    let years: Vec<i32> = (2024..=2123).collect();
    let amounts: Vec<u64> =
        (0..(2123 - 2024 + 1)).map(|i| u64::min(40_000 + 2_000 * i as u64, 66_000)).collect();
    for product in [ULEnum::UVL02, ULEnum::UVL03, ULEnum::ILP01] {
        let result = get_admin_chrg_lf(&product, &admin_rows());
        assert_eq!(result.entries, entries(&years, &amounts));
    }
    let result = get_admin_chrg_lf(&ULEnum::UVL02, &admin_rows());
    assert_eq!(result.entries, entries(&years, &amounts));
}

fn age_rows() -> Vec<AgeValidationRow> {
    let r = |p: &str, min: i32, max: i32, mat: i32| AgeValidationRow {
        product: p.to_string(),
        min_entry_age: min,
        max_entry_age: max,
        maturity_age: mat,
    };
    vec![
        r("UVL01", -1, 60, -1),
        r("UVL02", -1, 60, -1),
        r("UVL03", -1, 60, -1),
        r("ADD01", 18, 60, 65),
        r("WOP01", 18, 60, 65),
        r("CIR02", 18, 60, 75),
    ]
}

#[test]
fn test_fn_get_min_entry_age_01() {
    for product in [ULEnum::UVL01, ULEnum::UVL02, ULEnum::UVL03] {
        assert_eq!(get_min_entry_age(&product, &age_rows()).unwrap(), -1_i32);
    }
}

#[test]
fn test_fn_get_min_entry_age_02() {
    assert_eq!(get_min_entry_age(&RiderEnum::ADD01, &age_rows()).unwrap(), 18_i32);
}

#[test]
fn test_fn_get_max_entry_age_01() {
    for product in [ULEnum::UVL01, ULEnum::UVL02, ULEnum::UVL03] {
        assert_eq!(get_max_entry_age(&product, &age_rows()).unwrap(), 60_i32);
    }
}

#[test]
fn test_fn_get_max_entry_age_02() {
    assert_eq!(get_max_entry_age(&RiderEnum::WOP01, &age_rows()).unwrap(), 60_i32);
}

#[test]
fn test_fn_get_maturity_age_01() {
    for product in [ULEnum::UVL01, ULEnum::UVL02, ULEnum::UVL03] {
        assert_eq!(get_maturity_age(&product, &age_rows()).unwrap(), -1_i32);
    }
}

#[test]
fn test_fn_get_maturity_age_02() {
    assert_eq!(get_maturity_age(&RiderEnum::CIR02, &age_rows()).unwrap(), 75_i32);
}

#[test]
fn age_validation_without_a_row_is_missing() {
    assert_eq!(
        get_maturity_age(&RiderEnum::HOP02, &age_rows()),
        Err(ProjectionError::MissingRate)
    );
}

fn alloc_rows() -> Vec<AllocChrgRateRow> {
    let tp = [0.55, 0.40, 0.25, 0.15, 0.10, 0.08, 0.06, 0.05, 0.04];
    let mut rows = Vec::new();
    for year in 1..=100 {
        let tp_rate = if year <= 9 { tp[year as usize - 1] } else { 0.02 };
        rows.push(AllocChrgRateRow {
            product: "UVL01".to_string(),
            year,
            tp_rate: rate(tp_rate),
            ep_rate: rate(0.02),
        });
        rows.push(AllocChrgRateRow {
            product: "UVL02".to_string(),
            year,
            tp_rate: rate(0.5),
            ep_rate: rate(0.03),
        });
    }
    rows
}

#[test]
fn test_fn_get_tp_alloc_chrg_rate_lf_01() {
    let result = get_tp_alloc_chrg_rate_lf(&ULEnum::UVL01, &alloc_rows());
    let picked: Vec<RateEntry> =
        result.entries.into_iter().filter(|e| e.key <= 3 || e.key == 9).collect();
    let expected = entries(&[1, 2, 3, 9], &[rate(0.55), rate(0.40), rate(0.25), rate(0.04)]);
    assert_eq!(picked, expected);
}

#[test]
fn test_fn_get_tp_alloc_chrg_rate_lf_02() {
    let result = get_tp_alloc_chrg_rate_lf(&ULEnum::UVL01, &alloc_rows());
    let picked: Vec<RateEntry> = result.entries.into_iter().filter(|e| e.key >= 10).collect();
    let years: Vec<i32> = (10..=100).collect();
    assert_eq!(picked, entries(&years, &vec![rate(0.02); 91]));
}

#[test]
fn test_fn_get_ep_alloc_chrg_rate_lf_01() {
    let result = get_ep_alloc_chrg_rate_lf(&ULEnum::UVL01, &alloc_rows());
    let years: Vec<i32> = (1..=100).collect();
    assert_eq!(result.entries, entries(&years, &vec![rate(0.02); 100]));
}

fn coi_rows() -> Vec<CoiRateRow> {
    let r = |p: &str, g: i32, age: i32, x: f64| CoiRateRow {
        product: p.to_string(),
        gender: g,
        age,
        rate: rate(x),
    };
    vec![
        r("UVL01", 1, 0, 0.00263),
        r("UVL01", 1, 26, 0.00172),
        r("UVL01", 2, 0, 0.00187999999999999),
        r("UVL01", 2, 42, 0.00297999999999998),
        r("UVL01", 2, 99, 1.0),
        r("UVL02", 1, 0, 0.003),
    ]
}

#[test]
fn test_fn_get_coi_rate_lf_01() {
    let result = get_coi_rate_lf(&ULEnum::UVL01, &GenderEnum::Male, &coi_rows());
    let picked: Vec<RateEntry> =
        result.entries.into_iter().filter(|e| e.key == 0 || e.key == 26).collect();
    assert_eq!(picked, entries(&[0, 26], &[rate(0.00263), rate(0.00172)]));
}

#[test]
fn test_fn_get_coi_rate_lf_02() {
    let result = get_coi_rate_lf(&ULEnum::UVL01, &GenderEnum::Female, &coi_rows());
    let picked: Vec<RateEntry> = result
        .entries
        .into_iter()
        .filter(|e| e.key == 0 || e.key == 42 || e.key == 99)
        .collect();
    let expected = entries(
        &[0, 42, 99],
        &[rate(0.00187999999999999), rate(0.00297999999999998), rate(1.0)],
    );
    assert_eq!(picked, expected);
}

fn juvenile_rows() -> Vec<ProductRateRow> {
    let mut rows = Vec::new();
    for age in 0..=3 {
        rows.push(row("UVL01", age, rate(1.0)));
    }
    for p in ["UVL02", "UVL03", "ILP01"] {
        for (age, x) in [(0, 0.2), (1, 0.4), (2, 0.6), (3, 0.8)] {
            rows.push(row(p, age, rate(x)));
        }
    }
    rows
}

#[test]
fn test_fn_get_juvenile_lien_rate_lf_01() {
    let result = get_juvenile_lien_rate_lf(&ULEnum::UVL01, &juvenile_rows());
    assert_eq!(result.entries, entries(&[0, 1, 2, 3], &[rate(1.0); 4]));
}

#[test]
fn test_fn_get_juvenile_lien_rate_lf_02() {
    for product in &[ULEnum::UVL02, ULEnum::UVL03, ULEnum::ILP01] {
        let result = get_juvenile_lien_rate_lf(product, &juvenile_rows());
        let expected =
            entries(&[0, 1, 2, 3], &[rate(0.2), rate(0.4), rate(0.6), rate(0.8)]);
        assert_eq!(result.entries, expected);
    }
}

fn lb_rows() -> Vec<ProductRateRow> {
    let mut rows = Vec::new();
    for year in 1..=100 {
        let every4 = if year % 4 == 0 { 0.06 * ((year / 4) as f64) } else { 0.0 };
        let uvl02 = if year % 3 == 0 { 0.03 * ((year / 3) as f64) } else { 0.0 };
        let uvl03 = if year % 3 == 0 { 0.02 + 0.01 * ((year / 3) as f64) } else { 0.0 };
        rows.push(row("UVL01", year, rate(every4)));
        rows.push(row("ILP01", year, rate(every4)));
        rows.push(row("UVL02", year, rate(uvl02)));
        rows.push(row("UVL03", year, rate(uvl03)));
    }
    rows
}

fn lb_at(table: &RateTable, year: usize) -> f64 {
    table.entries[year - 1].value as f64 / 1e9
}

#[test]
fn test_fn_get_lb_rate_lf_01() {
    for product in [ULEnum::UVL01, ULEnum::ILP01] {
        let table = get_lb_rate_lf(&product, &lb_rows());
        for year in 1..=20 {
            let got = lb_at(&table, year);
            let expected = if year % 4 == 0 { 0.06_f64 * ((year / 4) as f64) } else { 0_f64 };
            assert!(
                (got - expected).abs() < 1e-8,
                "year: {}, got: {}, expected: {}",
                year,
                got,
                expected
            );
        }
    }
}

#[test]
fn test_fn_get_lb_rate_lf_02() {
    let table = get_lb_rate_lf(&ULEnum::UVL02, &lb_rows());
    for year in 1..=20 {
        let got = lb_at(&table, year);
        let expected = if year % 3 == 0 { 0.03_f64 * ((year / 3) as f64) } else { 0_f64 };
        assert!(
            (got - expected).abs() < 1e-8,
            "year: {}, got: {}, expected: {}",
            year,
            got,
            expected
        );
    }
}

#[test]
fn test_fn_get_lb_rate_lf_03() {
    let table = get_lb_rate_lf(&ULEnum::UVL03, &lb_rows());
    for year in 1..=20 {
        let got = lb_at(&table, year);
        let expected =
            if year % 3 == 0 { 0.02_f64 + 0.01_f64 * ((year / 3) as f64) } else { 0_f64 };
        assert!(
            (got - expected).abs() < 1e-8,
            "year: {}, got: {}, expected: {}",
            year,
            got,
            expected
        );
    }
}

fn srr_rows() -> Vec<ProductRateRow> {
    let mut rows = Vec::new();
    let tables: [(&str, Vec<f64>); 3] = [
        ("UVL01", vec![1.0, 1.0, 1.0, 1.0, 0.8, 0.6, 0.4, 0.2, 0.1]),
        ("UVL02", vec![1.0, 1.0, 1.0, 0.85, 0.65, 0.45, 0.25, 0.2, 0.1]),
        ("UVL03", vec![0.45, 0.4, 0.3, 0.2, 0.1]),
    ];
    for (p, head) in tables.iter() {
        for year in 1..=100 {
            let x = head.get(year as usize - 1).copied().unwrap_or(0.0);
            rows.push(row(p, year, rate(x)));
        }
    }
    rows
}

fn srr_expected(head: Vec<f64>) -> Vec<RateEntry> {
    let mut rates: Vec<u64> = head.into_iter().map(rate).collect();
    rates.resize(100, 0);
    let years: Vec<i32> = (1..=100).collect();
    entries(&years, &rates)
}

#[test]
fn test_fn_get_srr_chrg_rate_lf_01() {
    let result = get_srr_chrg_rate_lf(&ULEnum::UVL01, &srr_rows());
    let expected = srr_expected(vec![1_f64, 1.0, 1.0, 1.0, 0.8, 0.6, 0.4, 0.2, 0.1]);
    assert_eq!(result.entries, expected);
}

#[test]
fn test_fn_get_srr_chrg_rate_lf_02() {
    let result = get_srr_chrg_rate_lf(&ULEnum::UVL02, &srr_rows());
    let expected = srr_expected(vec![1_f64, 1.0, 1.0, 0.85, 0.65, 0.45, 0.25, 0.2, 0.1]);
    assert_eq!(result.entries, expected);
}

#[test]
fn test_fn_get_srr_chrg_rate_lf_03() {
    let result = get_srr_chrg_rate_lf(&ULEnum::UVL03, &srr_rows());
    let expected = srr_expected(vec![0.45_f64, 0.4, 0.3, 0.2, 0.1]);
    assert_eq!(result.entries, expected);
}

#[test]
fn lookup_takes_first_entry_or_default() {
    let table = RateTable { entries: entries(&[1, 2, 2], &[10, 20, 30]) };
    assert_eq!(table.lookup(2, 7), 20);
    assert_eq!(table.lookup(5, 7), 7);
}

use ul_projection::tables::{
    get_extra_prem_rate, get_gir, get_hir, get_lir, get_modal_factor_tuple, get_prem_rate,
    ExtraPremRateRow, IntRateRow, ModalFactorRow, PremRateRow,
};

fn extra_rows() -> Vec<ExtraPremRateRow> {
    let r = |g: i32, age: i32, term: i32, x: f64| ExtraPremRateRow {
        product: "UVL01".to_string(),
        gender: g,
        age,
        term,
        rate: rate(x),
    };
    vec![r(1, 10, 39, 1.53), r(2, 20, 13, 1.19), r(2, 0, 99, 0.91)]
}

#[test]
fn test_fn_get_extra_prem_rate_01() {
    let result =
        get_extra_prem_rate(&ULEnum::UVL01, &GenderEnum::Male, &10, &39, &extra_rows()).unwrap();
    assert_eq!(result, rate(1.53_f64));
}

#[test]
fn test_fn_get_extra_prem_rate_02() {
    let result =
        get_extra_prem_rate(&ULEnum::UVL01, &GenderEnum::Female, &20, &13, &extra_rows()).unwrap();
    assert_eq!(result, rate(1.19_f64));
}

#[test]
fn test_fn_get_extra_prem_rate_03() {
    let result =
        get_extra_prem_rate(&ULEnum::UVL01, &GenderEnum::Female, &0, &100, &extra_rows()).unwrap();
    assert_eq!(result, rate(0.91_f64));
}

#[test]
fn extra_premium_rate_missing() {
    assert_eq!(
        get_extra_prem_rate(&ULEnum::UVL02, &GenderEnum::Female, &0, &100, &extra_rows()),
        Err(ProjectionError::MissingRate)
    );
}

fn prem_rows() -> Vec<PremRateRow> {
    let r = |g: i32, age: i32, x: f64| PremRateRow {
        product: "UVL01".to_string(),
        gender: g,
        age,
        rate: rate(x),
    };
    vec![r(1, 0, 10.6128), r(1, 34, 21.04068), r(2, 0, 10.56)]
}

#[test]
fn test_fn_get_prem_rate_01() {
    let result = get_prem_rate(&ULEnum::UVL01, &GenderEnum::Male, &0, &prem_rows()).unwrap();
    assert_eq!(result, rate(10.6128000_f64));
}

#[test]
fn test_fn_get_prem_rate_02() {
    let result = get_prem_rate(&ULEnum::UVL01, &GenderEnum::Male, &34, &prem_rows()).unwrap();
    assert_eq!(result, rate(21.0406800_f64));
}

#[test]
fn test_fn_get_prem_rate_03() {
    let result = get_prem_rate(&ULEnum::UVL01, &GenderEnum::Female, &0, &prem_rows()).unwrap();
    assert_eq!(result, rate(10.56_f64));
}

#[test]
fn test_fn_int_rate_01() {
    let mut rows = Vec::new();
    for p in ["UVL01", "UVL02", "UVL03"] {
        for (s, x) in [(0, 0.07), (1, 0.05), (2, 0.02)] {
            rows.push(IntRateRow { product: p.to_string(), scenario: s, rate: rate(x) });
        }
    }
    for product in [ULEnum::UVL01, ULEnum::UVL02, ULEnum::UVL03] {
        let result = (
            get_hir(&product, &rows).unwrap(),
            get_lir(&product, &rows).unwrap(),
            get_gir(&product, &rows).unwrap(),
        );
        let expected = (rate(0.07f64), rate(0.05f64), rate(0.02_f64));
        assert_eq!(result, expected);
    }
    assert_eq!(get_hir(&ULEnum::ILP01, &rows), Err(ProjectionError::MissingRate));
}

fn modal_rows() -> Vec<ModalFactorRow> {
    let r = |p: &str, mode: i32, x: f64| ModalFactorRow {
        product: p.to_string(),
        mode,
        rate: rate(x),
    };
    let mut rows = Vec::new();
    for p in ["UVL01", "UVL02", "UVL03"] {
        rows.push(r(p, 3, 0.083333333));
        rows.push(r(p, 0, 1.0));
        rows.push(r(p, 2, 0.25));
        rows.push(r(p, 1, 0.5));
    }
    rows.extend([r("WOP01", 0, 1.0), r("WOP01", 1, 0.53), r("WOP01", 2, 0.27), r("WOP01", 3, 0.09)]);
    rows.push(r("ILP01", 0, 1.0));
    rows
}

#[test]
fn test_fn_get_modal_factor_tuple_01() {
    for product in [ULEnum::UVL01, ULEnum::UVL02, ULEnum::UVL03] {
        let f = get_modal_factor_tuple(&product, &modal_rows()).unwrap();
        let result = (f.annual, f.semi_annual, f.quarterly, f.monthly);
        let expected = (rate(1.0), rate(0.5), rate(0.25), rate(0.083333333));
        assert_eq!(result, expected);
    }
}

#[test]
fn test_fn_get_modal_factor_tuple_02() {
    let f = get_modal_factor_tuple(&RiderEnum::WOP01, &modal_rows()).unwrap();
    let result = (f.annual, f.semi_annual, f.quarterly, f.monthly);
    let expected = (rate(1.0), rate(0.53), rate(0.27), rate(0.09));
    assert_eq!(result, expected);
}

#[test]
fn modal_factors_need_four_modes() {
    assert_eq!(get_modal_factor_tuple(&ULEnum::ILP01, &modal_rows()), Err(ProjectionError::MissingRate));
}
