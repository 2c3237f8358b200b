//! Classification of a body-fat percentage against the normative tables.
//!
//! Each sex has its own table, keyed by five decade age bands (20-29 up
//! to 60-69).  A band maps to five percentage sub-ranges with inclusive
//! bounds, in the order Excellent, Good, Average, Below Average, Poor.
//! Before any band lookup a sex-specific essential-fat floor is checked:
//! below 5% (men) or 10% (women) the result is always "Extremely Lean".
//! An age outside every band, or a percentage that falls in one of the
//! small gaps between two published sub-ranges, is "Unclassified"; the
//! literal cut points are kept exactly as published, gaps included.
//!
//! Percentages are in hundredths of a percent throughout: `1380` is
//! 13.80%.

use vstd::prelude::*;

verus! {

/// The sex a regression and a normative table belong to.
#[derive(Clone, Copy, Debug, PartialEq, Eq, Structural)]
pub enum Sex {
    Male,
    Female,
}

/// The closed set of category labels a classification can produce.
#[derive(Clone, Copy, Debug, PartialEq, Eq, Structural)]
pub enum Category {
    ExtremelyLean,
    Excellent,
    Good,
    Average,
    BelowAverage,
    Poor,
    Unclassified,
}

impl Category {
    /// The display text of this category.
    pub open spec fn spec_label(&self) -> Seq<char> {
        match self {
            Category::ExtremelyLean => "Extremely Lean (Below Essential Fat)"@,
            Category::Excellent => "Excellent"@,
            Category::Good => "Good"@,
            Category::Average => "Average"@,
            Category::BelowAverage => "Below Average"@,
            Category::Poor => "Poor"@,
            Category::Unclassified => "Unclassified"@,
        }
    }

    /// Returns the display text of this category.
    pub fn label(&self) -> (r: &'static str)
        ensures
            r@ == self.spec_label(),
    {
        match self {
            Category::ExtremelyLean => "Extremely Lean (Below Essential Fat)",
            Category::Excellent => "Excellent",
            Category::Good => "Good",
            Category::Average => "Average",
            Category::BelowAverage => "Below Average",
            Category::Poor => "Poor",
            Category::Unclassified => "Unclassified",
        }
    }
}

/// The male table: essential-fat floor at 5%, then the decade band and
/// its five inclusive sub-ranges, first match wins.
pub open spec fn spec_classify_male(age: int, bf: int) -> Category {
    if bf < 500 {
        Category::ExtremelyLean
    } else if 20 <= age <= 29 {
        if 500 <= bf <= 1380 {
            Category::Excellent
        } else if 1390 <= bf <= 1740 {
            Category::Good
        } else if 1750 <= bf <= 2040 {
            Category::Average
        } else if 2050 <= bf <= 2410 {
            Category::BelowAverage
        } else if 2420 <= bf <= 10000 {
            Category::Poor
        } else {
            Category::Unclassified
        }
    } else if 30 <= age <= 39 {
        if 500 <= bf <= 1490 {
            Category::Excellent
        } else if 1500 <= bf <= 1890 {
            Category::Good
        } else if 1900 <= bf <= 2140 {
            Category::Average
        } else if 2150 <= bf <= 2510 {
            Category::BelowAverage
        } else if 2520 <= bf <= 10000 {
            Category::Poor
        } else {
            Category::Unclassified
        }
    } else if 40 <= age <= 49 {
        if 500 <= bf <= 1690 {
            Category::Excellent
        } else if 1700 <= bf <= 1990 {
            Category::Good
        } else if 2000 <= bf <= 2240 {
            Category::Average
        } else if 2250 <= bf <= 2610 {
            Category::BelowAverage
        } else if 2620 <= bf <= 10000 {
            Category::Poor
        } else {
            Category::Unclassified
        }
    } else if 50 <= age <= 59 {
        if 500 <= bf <= 1890 {
            Category::Excellent
        } else if 1900 <= bf <= 2190 {
            Category::Good
        } else if 2200 <= bf <= 2440 {
            Category::Average
        } else if 2450 <= bf <= 2810 {
            Category::BelowAverage
        } else if 2820 <= bf <= 10000 {
            Category::Poor
        } else {
            Category::Unclassified
        }
    } else if 60 <= age <= 69 {
        if 500 <= bf <= 2090 {
            Category::Excellent
        } else if 2100 <= bf <= 2390 {
            Category::Good
        } else if 2400 <= bf <= 2640 {
            Category::Average
        } else if 2650 <= bf <= 3010 {
            Category::BelowAverage
        } else if 3020 <= bf <= 10000 {
            Category::Poor
        } else {
            Category::Unclassified
        }
    } else {
        Category::Unclassified
    }
}

/// The female table: essential-fat floor at 10%, then the decade band
/// and its five inclusive sub-ranges, first match wins.
pub open spec fn spec_classify_female(age: int, bf: int) -> Category {
    if bf < 1000 {
        Category::ExtremelyLean
    } else if 20 <= age <= 29 {
        if 1000 <= bf <= 1800 {
            Category::Excellent
        } else if 1900 <= bf <= 2300 {
            Category::Good
        } else if 2400 <= bf <= 2900 {
            Category::Average
        } else if 3000 <= bf <= 3500 {
            Category::BelowAverage
        } else if 3600 <= bf <= 10000 {
            Category::Poor
        } else {
            Category::Unclassified
        }
    } else if 30 <= age <= 39 {
        if 1100 <= bf <= 1900 {
            Category::Excellent
        } else if 2000 <= bf <= 2400 {
            Category::Good
        } else if 2500 <= bf <= 3000 {
            Category::Average
        } else if 3100 <= bf <= 3600 {
            Category::BelowAverage
        } else if 3700 <= bf <= 10000 {
            Category::Poor
        } else {
            Category::Unclassified
        }
    } else if 40 <= age <= 49 {
        if 1200 <= bf <= 2000 {
            Category::Excellent
        } else if 2100 <= bf <= 2500 {
            Category::Good
        } else if 2600 <= bf <= 3100 {
            Category::Average
        } else if 3200 <= bf <= 3700 {
            Category::BelowAverage
        } else if 3800 <= bf <= 10000 {
            Category::Poor
        } else {
            Category::Unclassified
        }
    } else if 50 <= age <= 59 {
        if 1300 <= bf <= 2100 {
            Category::Excellent
        } else if 2200 <= bf <= 2600 {
            Category::Good
        } else if 2700 <= bf <= 3200 {
            Category::Average
        } else if 3300 <= bf <= 3800 {
            Category::BelowAverage
        } else if 3900 <= bf <= 10000 {
            Category::Poor
        } else {
            Category::Unclassified
        }
    } else if 60 <= age <= 69 {
        if 1400 <= bf <= 2200 {
            Category::Excellent
        } else if 2300 <= bf <= 2700 {
            Category::Good
        } else if 2800 <= bf <= 3300 {
            Category::Average
        } else if 3400 <= bf <= 3900 {
            Category::BelowAverage
        } else if 4000 <= bf <= 10000 {
            Category::Poor
        } else {
            Category::Unclassified
        }
    } else {
        Category::Unclassified
    }
}

/// The table of the given sex.
pub open spec fn spec_classify(sex: Sex, age: int, bf: int) -> Category {
    match sex {
        Sex::Male => spec_classify_male(age, bf),
        Sex::Female => spec_classify_female(age, bf),
    }
}

/// At or above the essential-fat floor, an age outside every decade band
/// yields "Unclassified" whatever the percentage is.
pub proof fn lemma_age_outside_bands_unclassified(sex: Sex, age: int, bf: int)
    requires
        age < 20 || age > 69,
        match sex {
            Sex::Male => bf >= 500,
            Sex::Female => bf >= 1000,
        },
    ensures
        spec_classify(sex, age, bf) == Category::Unclassified,
{
}

/// Classifies a male body-fat percentage (hundredths of a percent).
pub fn classify_body_fat_male(age: u32, bf: i64) -> (c: Category)
    ensures
        c == spec_classify_male(age as int, bf as int),
{
    if bf < 500 {
        Category::ExtremelyLean
    } else if 20 <= age && age <= 29 {
        if 500 <= bf && bf <= 1380 {
            Category::Excellent
        } else if 1390 <= bf && bf <= 1740 {
            Category::Good
        } else if 1750 <= bf && bf <= 2040 {
            Category::Average
        } else if 2050 <= bf && bf <= 2410 {
            Category::BelowAverage
        } else if 2420 <= bf && bf <= 10000 {
            Category::Poor
        } else {
            Category::Unclassified
        }
    } else if 30 <= age && age <= 39 {
        if 500 <= bf && bf <= 1490 {
            Category::Excellent
        } else if 1500 <= bf && bf <= 1890 {
            Category::Good
        } else if 1900 <= bf && bf <= 2140 {
            Category::Average
        } else if 2150 <= bf && bf <= 2510 {
            Category::BelowAverage
        } else if 2520 <= bf && bf <= 10000 {
            Category::Poor
        } else {
            Category::Unclassified
        }
    } else if 40 <= age && age <= 49 {
        if 500 <= bf && bf <= 1690 {
            Category::Excellent
        } else if 1700 <= bf && bf <= 1990 {
            Category::Good
        } else if 2000 <= bf && bf <= 2240 {
            Category::Average
        } else if 2250 <= bf && bf <= 2610 {
            Category::BelowAverage
        } else if 2620 <= bf && bf <= 10000 {
            Category::Poor
        } else {
            Category::Unclassified
        }
    } else if 50 <= age && age <= 59 {
        if 500 <= bf && bf <= 1890 {
            Category::Excellent
        } else if 1900 <= bf && bf <= 2190 {
            Category::Good
        } else if 2200 <= bf && bf <= 2440 {
            Category::Average
        } else if 2450 <= bf && bf <= 2810 {
            Category::BelowAverage
        } else if 2820 <= bf && bf <= 10000 {
            Category::Poor
        } else {
            Category::Unclassified
        }
    } else if 60 <= age && age <= 69 {
        if 500 <= bf && bf <= 2090 {
            Category::Excellent
        } else if 2100 <= bf && bf <= 2390 {
            Category::Good
        } else if 2400 <= bf && bf <= 2640 {
            Category::Average
        } else if 2650 <= bf && bf <= 3010 {
            Category::BelowAverage
        } else if 3020 <= bf && bf <= 10000 {
            Category::Poor
        } else {
            Category::Unclassified
        }
    } else {
        Category::Unclassified
    }
}

/// Classifies a female body-fat percentage (hundredths of a percent).
pub fn classify_body_fat_female(age: u32, bf: i64) -> (c: Category)
    ensures
        c == spec_classify_female(age as int, bf as int),
{
    if bf < 1000 {
        Category::ExtremelyLean
    } else if 20 <= age && age <= 29 {
        if 1000 <= bf && bf <= 1800 {
            Category::Excellent
        } else if 1900 <= bf && bf <= 2300 {
            Category::Good
        } else if 2400 <= bf && bf <= 2900 {
            Category::Average
        } else if 3000 <= bf && bf <= 3500 {
            Category::BelowAverage
        } else if 3600 <= bf && bf <= 10000 {
            Category::Poor
        } else {
            Category::Unclassified
        }
    } else if 30 <= age && age <= 39 {
        if 1100 <= bf && bf <= 1900 {
            Category::Excellent
        } else if 2000 <= bf && bf <= 2400 {
            Category::Good
        } else if 2500 <= bf && bf <= 3000 {
            Category::Average
        } else if 3100 <= bf && bf <= 3600 {
            Category::BelowAverage
        } else if 3700 <= bf && bf <= 10000 {
            Category::Poor
        } else {
            Category::Unclassified
        }
    } else if 40 <= age && age <= 49 {
        if 1200 <= bf && bf <= 2000 {
            Category::Excellent
        } else if 2100 <= bf && bf <= 2500 {
            Category::Good
        } else if 2600 <= bf && bf <= 3100 {
            Category::Average
        } else if 3200 <= bf && bf <= 3700 {
            Category::BelowAverage
        } else if 3800 <= bf && bf <= 10000 {
            Category::Poor
        } else {
            Category::Unclassified
        }
    } else if 50 <= age && age <= 59 {
        if 1300 <= bf && bf <= 2100 {
            Category::Excellent
        } else if 2200 <= bf && bf <= 2600 {
            Category::Good
        } else if 2700 <= bf && bf <= 3200 {
            Category::Average
        } else if 3300 <= bf && bf <= 3800 {
            Category::BelowAverage
        } else if 3900 <= bf && bf <= 10000 {
            Category::Poor
        } else {
            Category::Unclassified
        }
    } else if 60 <= age && age <= 69 {
        if 1400 <= bf && bf <= 2200 {
            Category::Excellent
        } else if 2300 <= bf && bf <= 2700 {
            Category::Good
        } else if 2800 <= bf && bf <= 3300 {
            Category::Average
        } else if 3400 <= bf && bf <= 3900 {
            Category::BelowAverage
        } else if 4000 <= bf && bf <= 10000 {
            Category::Poor
        } else {
            Category::Unclassified
        }
    } else {
        Category::Unclassified
    }
}

} // verus!
