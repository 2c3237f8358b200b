use bodyfat::classify::{Category, Sex};
use bodyfat::engine::RawReadings;
use bodyfat::measurements::{Measurements, Site};
use bodyfat::parse::{parse_age, parse_measurement};
use bodyfat::resolve::{resolve_measurement, FieldIssue, ValidationError};

fn readings_all(text: &str) -> RawReadings<'_> {
    RawReadings {
        chest: text,
        abdominal: text,
        thigh: text,
        triceps: text,
        subscapular: text,
        suprailiac: text,
        midaxillary: text,
    }
}

#[test]
fn parse_measurement_accepts_decimals() {
    assert_eq!(parse_measurement("12.5"), Some(1250));
    assert_eq!(parse_measurement("12.55"), Some(1255));
    assert_eq!(parse_measurement("0.05"), Some(5));
    assert_eq!(parse_measurement("7"), Some(700));
    assert_eq!(parse_measurement("007"), Some(700));
    assert_eq!(parse_measurement("+7"), Some(700));
    assert_eq!(parse_measurement("-3.1"), Some(-310));
    assert_eq!(parse_measurement("100000.00"), Some(10_000_000));
}

#[test]
fn parse_measurement_rejects_malformed() {
    assert_eq!(parse_measurement(""), None);
    assert_eq!(parse_measurement("abc"), None);
    assert_eq!(parse_measurement("12a"), None);
    assert_eq!(parse_measurement("1 2"), None);
    assert_eq!(parse_measurement("7."), None);
    assert_eq!(parse_measurement(".5"), None);
    assert_eq!(parse_measurement("1.234"), None);
    assert_eq!(parse_measurement("--5"), None);
    assert_eq!(parse_measurement("+"), None);
    assert_eq!(parse_measurement("100000.01"), None);
}

#[test]
fn parse_age_range() {
    assert_eq!(parse_age("1"), Some(1));
    assert_eq!(parse_age("119"), Some(119));
    assert_eq!(parse_age("015"), Some(15));
    assert_eq!(parse_age("0"), None);
    assert_eq!(parse_age("120"), None);
    assert_eq!(parse_age("200"), None);
    assert_eq!(parse_age(""), None);
    assert_eq!(parse_age("abc"), None);
    assert_eq!(parse_age("-30"), None);
    assert_eq!(parse_age("30.5"), None);
}

#[test]
fn resolver_prefers_typed_text() {
    assert_eq!(resolve_measurement("9.5", 1250), Ok(950));
}

#[test]
fn resolver_falls_back_to_stored_value() {
    // Empty text with a stored 12.50 mm resolves to the stored value.
    assert_eq!(resolve_measurement("", 1250), Ok(1250));
}

#[test]
fn resolver_requires_a_value() {
    // Empty text with nothing stored is a missing field.
    assert_eq!(resolve_measurement("", 0), Err(FieldIssue::Required));
    assert_eq!(resolve_measurement("", -100), Err(FieldIssue::Required));
}

#[test]
fn resolver_rejects_malformed_text() {
    assert_eq!(resolve_measurement("abc", 1250), Err(FieldIssue::NotANumber));
}

#[test]
fn error_messages() {
    assert_eq!(
        ValidationError::Measurement(Site::Chest, FieldIssue::NotANumber).message(),
        "Chest measurement must be a valid number"
    );
    assert_eq!(
        ValidationError::Measurement(Site::Thigh, FieldIssue::Required).message(),
        "Thigh measurement is required"
    );
    assert_eq!(
        ValidationError::Measurement(Site::Midaxillary, FieldIssue::NotANumber).message(),
        "Midaxillary measurement must be a valid number"
    );
    assert_eq!(
        ValidationError::Age.message(),
        "Age must be a valid number between 1 and 119"
    );
}

#[test]
fn update_measurement_parses_and_stores() {
    let mut m = Measurements::new();
    m.update_measurement(Site::Chest, "12.5");
    assert_eq!(m.chest, 1250);
}

#[test]
fn update_measurement_ignores_malformed_text() {
    let mut m = Measurements::new();
    m.update_measurement(Site::Chest, "12.5");
    m.update_measurement(Site::Chest, "oops");
    assert_eq!(m.chest, 1250);
}

#[test]
fn calculate_full_success_male() {
    let mut m = Measurements::new();
    let res = m
        .calculate(&readings_all("10"), "30", Sex::Male)
        .expect("all inputs are valid");
    // total 70.00 mm, age 30: 10.20%, Excellent for 30-39.
    assert_eq!(res.percentage, 1020);
    assert_eq!(res.category, Category::Excellent);
    // The values actually used were merged back.
    assert_eq!(m.chest, 1000);
    assert_eq!(m.midaxillary, 1000);
}

#[test]
fn calculate_full_success_female() {
    let mut m = Measurements::new();
    let res = m
        .calculate(&readings_all("15"), "40", Sex::Female)
        .expect("all inputs are valid");
    // total 105.00 mm, age 40: 22.00%, Good for 40-49.
    assert_eq!(res.percentage, 2200);
    assert_eq!(res.category, Category::Good);
}

#[test]
fn two_malformed_fields_give_two_messages() {
    let mut m = Measurements::new();
    let mut readings = readings_all("10");
    readings.chest = "abc";
    let errs = m
        .calculate(&readings, "200", Sex::Male)
        .expect_err("two fields are malformed");
    assert_eq!(errs.len(), 2);
    assert_eq!(
        errs[0],
        ValidationError::Measurement(Site::Chest, FieldIssue::NotANumber)
    );
    assert_eq!(errs[1], ValidationError::Age);
    assert_eq!(errs[0].message(), "Chest measurement must be a valid number");
    assert_eq!(errs[1].message(), "Age must be a valid number between 1 and 119");
}

#[test]
fn errors_keep_field_order() {
    let mut m = Measurements::new();
    let mut readings = readings_all("10");
    readings.abdominal = "x";
    readings.suprailiac = ""; // nothing stored either
    let errs = m
        .calculate(&readings, "abc", Sex::Female)
        .expect_err("three inputs fail");
    assert_eq!(errs.len(), 3);
    assert_eq!(
        errs[0],
        ValidationError::Measurement(Site::Abdominal, FieldIssue::NotANumber)
    );
    assert_eq!(
        errs[1],
        ValidationError::Measurement(Site::Suprailiac, FieldIssue::Required)
    );
    assert_eq!(errs[2], ValidationError::Age);
}

#[test]
fn failed_calculation_leaves_state_untouched() {
    let mut m = Measurements::new();
    m.update_measurement(Site::Chest, "11.1");
    let before = m;
    let mut readings = readings_all("10");
    readings.thigh = "bad";
    m.calculate(&readings, "30", Sex::Male)
        .expect_err("one field is malformed");
    assert_eq!(m, before);
}

#[test]
fn empty_field_resolves_from_session_state() {
    let mut m = Measurements::new();
    m.update_measurement(Site::Chest, "12.5");
    let mut readings = readings_all("10");
    readings.chest = "";
    let res = m
        .calculate(&readings, "30", Sex::Male)
        .expect("chest falls back to the stored value");
    // total 72.50 mm, age 30: 10.59%.
    assert_eq!(res.percentage, 1059);
    assert_eq!(res.category, Category::Excellent);
    assert_eq!(m.chest, 1250);
}

#[test]
fn calculate_twice_is_identical() {
    let mut m = Measurements::new();
    m.update_measurement(Site::Chest, "12.5");
    let mut readings = readings_all("10");
    readings.chest = "";
    let first = m
        .calculate(&readings, "30", Sex::Male)
        .expect("valid inputs");
    let second = m
        .calculate(&readings, "30", Sex::Male)
        .expect("valid inputs");
    assert_eq!(first, second);
    let third = m
        .calculate(&readings, "30", Sex::Male)
        .expect("valid inputs");
    assert_eq!(second, third);
}

#[test]
fn age_rejects_out_of_band_values() {
    let mut m = Measurements::new();
    let errs = m
        .calculate(&readings_all("10"), "120", Sex::Male)
        .expect_err("age 120 is out of range");
    assert_eq!(errs, vec![ValidationError::Age]);
    let errs = m
        .calculate(&readings_all("10"), "0", Sex::Male)
        .expect_err("age 0 is out of range");
    assert_eq!(errs, vec![ValidationError::Age]);
}

#[test]
fn out_of_band_age_is_not_an_error_when_valid() {
    // Age 75 is a valid age: the calculation succeeds and the category
    // alone reports Unclassified.
    let mut m = Measurements::new();
    let res = m
        .calculate(&readings_all("10"), "75", Sex::Male)
        .expect("age 75 is a valid input");
    assert_eq!(res.category, Category::Unclassified);
}
