use bodyfat::classify::Category;
use bodyfat::density::calculate_body_fat;
use bodyfat::measurements::{Measurements, Site};

#[test]
fn test_calculate_body_fat_male() {
    // 100.00 mm of skinfolds at age 30.
    let bf = calculate_body_fat(10000, 30, true);
    assert!(bf > 0 && bf < 5000); // Reasonable range
}

#[test]
fn test_calculate_body_fat_female() {
    let bf = calculate_body_fat(10000, 30, false);
    assert!(bf > 0 && bf < 5000); // Reasonable range
}

#[test]
fn test_measurements_total() {
    let mut measurements = Measurements::new();
    measurements.chest = 1000; // 10.00 mm
    measurements.abdominal = 1500; // 15.00 mm
    assert_eq!(measurements.total(), 2500);
}

#[test]
fn male_percentage_exact_value() {
    // total 100.00 mm, age 30: density 1.0653532, 495/d - 450 = 14.63%.
    assert_eq!(calculate_body_fat(10000, 30, true), 1463);
}

#[test]
fn female_percentage_exact_value() {
    // total 100.00 mm, age 30: density 1.0517806, 495/d - 450 = 20.63%.
    assert_eq!(calculate_body_fat(10000, 30, false), 2063);
}

#[test]
fn zero_total_is_accepted() {
    // total 0 is not rejected; it yields a nonsensical but defined value:
    // -1.37% for a 30-year-old male, 2.81% for a female.
    assert_eq!(calculate_body_fat(0, 30, true), -137);
    assert_eq!(calculate_body_fat(0, 30, false), 281);
}

#[test]
fn total_of_all_seven_fields() {
    let mut m = Measurements::new();
    m.chest = 100;
    m.abdominal = 200;
    m.thigh = 300;
    m.triceps = 400;
    m.subscapular = 500;
    m.suprailiac = 600;
    m.midaxillary = 700;
    assert_eq!(m.total(), 2800);
}

#[test]
fn new_record_is_all_unset() {
    let m = Measurements::new();
    assert_eq!(m.total(), 0);
    assert_eq!(m, Measurements {
        chest: 0,
        abdominal: 0,
        thigh: 0,
        triceps: 0,
        subscapular: 0,
        suprailiac: 0,
        midaxillary: 0,
    });
}

#[test]
fn set_measurement_overwrites_exactly_one_field() {
    let mut m = Measurements::new();
    m.set_measurement(Site::Thigh, 2300);
    assert_eq!(m.thigh, 2300);
    assert_eq!(m.chest, 0);
    assert_eq!(m.midaxillary, 0);
    m.set_measurement(Site::Thigh, 900);
    assert_eq!(m.thigh, 900);
}

#[test]
fn category_labels() {
    assert_eq!(
        Category::ExtremelyLean.label(),
        "Extremely Lean (Below Essential Fat)"
    );
    assert_eq!(Category::Excellent.label(), "Excellent");
    assert_eq!(Category::Good.label(), "Good");
    assert_eq!(Category::Average.label(), "Average");
    assert_eq!(Category::BelowAverage.label(), "Below Average");
    assert_eq!(Category::Poor.label(), "Poor");
    assert_eq!(Category::Unclassified.label(), "Unclassified");
}
