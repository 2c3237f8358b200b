use bodyfat::classify::{classify_body_fat_female, classify_body_fat_male, Category};

#[test]
fn essential_fat_boundary_male() {
    // 4.99% is below the floor, 5.00% is exactly on the first range.
    assert_eq!(classify_body_fat_male(25, 499), Category::ExtremelyLean);
    assert_eq!(classify_body_fat_male(25, 500), Category::Excellent);
}

#[test]
fn essential_fat_boundary_female() {
    assert_eq!(classify_body_fat_female(25, 999), Category::ExtremelyLean);
    assert_eq!(classify_body_fat_female(25, 1000), Category::Excellent);
}

#[test]
fn age_outside_bands_is_unclassified() {
    assert_eq!(classify_body_fat_male(15, 2000), Category::Unclassified);
    assert_eq!(classify_body_fat_male(75, 2000), Category::Unclassified);
    assert_eq!(classify_body_fat_female(15, 2000), Category::Unclassified);
    assert_eq!(classify_body_fat_female(75, 2000), Category::Unclassified);
    assert_eq!(classify_body_fat_male(19, 1000), Category::Unclassified);
    assert_eq!(classify_body_fat_male(70, 1000), Category::Unclassified);
}

#[test]
fn essential_fat_floor_wins_over_age() {
    // Below the floor even an out-of-band age reports Extremely Lean.
    assert_eq!(classify_body_fat_male(15, 400), Category::ExtremelyLean);
    assert_eq!(classify_body_fat_female(75, 900), Category::ExtremelyLean);
}

#[test]
fn male_bands_20_29() {
    assert_eq!(classify_body_fat_male(20, 1380), Category::Excellent);
    assert_eq!(classify_body_fat_male(20, 1390), Category::Good);
    assert_eq!(classify_body_fat_male(29, 1740), Category::Good);
    assert_eq!(classify_body_fat_male(29, 1750), Category::Average);
    assert_eq!(classify_body_fat_male(25, 2040), Category::Average);
    assert_eq!(classify_body_fat_male(25, 2050), Category::BelowAverage);
    assert_eq!(classify_body_fat_male(25, 2410), Category::BelowAverage);
    assert_eq!(classify_body_fat_male(25, 2420), Category::Poor);
    assert_eq!(classify_body_fat_male(25, 10000), Category::Poor);
}

#[test]
fn published_gaps_are_kept_male() {
    // 13.81%..13.89% falls between the Excellent and Good cut points.
    assert_eq!(classify_body_fat_male(25, 1385), Category::Unclassified);
    // Above the last recorded bound of 100%.
    assert_eq!(classify_body_fat_male(25, 10001), Category::Unclassified);
}

#[test]
fn published_gaps_are_kept_female() {
    // 18.01%..18.99% falls between Excellent and Good in the 20-29 band.
    assert_eq!(classify_body_fat_female(25, 1850), Category::Unclassified);
    // The 30-39 band starts at 11%: 10.5% is above the floor yet below it.
    assert_eq!(classify_body_fat_female(35, 1050), Category::Unclassified);
}

#[test]
fn female_bands_by_decade() {
    assert_eq!(classify_body_fat_female(22, 1800), Category::Excellent);
    assert_eq!(classify_body_fat_female(22, 1900), Category::Good);
    assert_eq!(classify_body_fat_female(35, 1100), Category::Excellent);
    assert_eq!(classify_body_fat_female(44, 2600), Category::Average);
    assert_eq!(classify_body_fat_female(55, 3300), Category::BelowAverage);
    assert_eq!(classify_body_fat_female(65, 4000), Category::Poor);
}

#[test]
fn male_bands_by_decade() {
    assert_eq!(classify_body_fat_male(35, 1490), Category::Excellent);
    assert_eq!(classify_body_fat_male(35, 1500), Category::Good);
    assert_eq!(classify_body_fat_male(45, 2240), Category::Average);
    assert_eq!(classify_body_fat_male(55, 2450), Category::BelowAverage);
    assert_eq!(classify_body_fat_male(65, 3020), Category::Poor);
}
