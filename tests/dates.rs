use ul_projection::dates::{calculate_age, calculate_month_age, Date};

fn date(y: i32, m: u32, d: u32) -> Date {
    Date::from_ymd_opt(y, m, d).unwrap()
}

#[test]
fn test_fn_calculate_age_01() {
    let result = calculate_age(&date(2000, 2, 12), &date(2025, 4, 15)).unwrap();
    assert_eq!(result, 25)
}

#[test]
fn test_fn_calculate_age_02() {
    let result = calculate_age(&date(2000, 2, 21), &date(2025, 4, 15)).unwrap();
    assert_eq!(result, 25)
}

#[test]
fn test_fn_calculate_age_03() {
    let result = calculate_age(&date(2025, 2, 14), &date(2025, 4, 15)).unwrap();
    assert_eq!(result, 0)
}

#[test]
fn test_fn_calculate_age_04() {
    let result = calculate_age(&date(2024, 7, 28), &date(2025, 4, 15)).unwrap();
    assert_eq!(result, 0)
}

#[test]
fn test_fn_calculate_age_05() {
    let result = calculate_age(&date(2030, 7, 28), &date(2025, 4, 15));
    assert_eq!(result, Err("Input date cannot be less than birthdate."));
}

#[test]
fn test_fn_calculate_month_age_01() {
    let result = calculate_month_age(&date(2000, 2, 12), &date(2025, 4, 15)).unwrap();
    assert_eq!(result, 302);
}

#[test]
fn test_fn_calculate_month_age_02() {
    let result = calculate_month_age(&date(2000, 2, 21), &date(2025, 4, 15)).unwrap();
    assert_eq!(result, 301);
}

#[test]
fn test_fn_calculate_month_age_03() {
    let result = calculate_month_age(&date(2025, 2, 14), &date(2025, 4, 15)).unwrap();
    assert_eq!(result, 2);
}

#[test]
fn test_fn_calculate_month_age_04() {
    let result = calculate_month_age(&date(2025, 2, 28), &date(2025, 4, 15)).unwrap();
    assert_eq!(result, 1);
}

#[test]
fn test_fn_calculate_month_age_05() {
    let result = calculate_month_age(&date(2024, 7, 28), &date(2025, 4, 15)).unwrap();
    assert_eq!(result, 8);
}

#[test]
fn test_fn_calculate_month_age_06() {
    let result = calculate_month_age(&date(2030, 7, 28), &date(2025, 4, 15));
    assert_eq!(result, Err("Input date cannot be less than birthdate."));
}

#[test]
fn impossible_dates_are_refused() {
    assert!(Date::from_ymd_opt(2023, 2, 29).is_none());
    assert!(Date::from_ymd_opt(2024, 2, 29).is_some());
    assert!(Date::from_ymd_opt(1900, 2, 29).is_none());
    assert!(Date::from_ymd_opt(2000, 2, 29).is_some());
    assert!(Date::from_ymd_opt(2024, 13, 1).is_none());
    assert!(Date::from_ymd_opt(2024, 4, 31).is_none());
}

#[test]
fn birthday_today_counts_the_year() {
    assert_eq!(calculate_age(&date(2000, 4, 15), &date(2025, 4, 15)), Ok(25));
    assert_eq!(calculate_month_age(&date(2000, 4, 15), &date(2025, 4, 15)), Ok(300));
}
