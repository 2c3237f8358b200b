//! Skinfold body-fat calculator.
//!
//! The crate turns a set of seven skinfold caliper readings, an age and a
//! sex into a body-fat percentage and a normative fitness category.  It
//! aggregates the readings, reconciles freshly typed text with previously
//! stored values, applies the Jackson & Pollock seven-site density
//! regression followed by the Siri density-to-percentage conversion, and
//! classifies the outcome against sex- and age-banded normative tables.
//!
//! All quantities are fixed-point integers: skinfold readings are held in
//! hundredths of a millimetre and percentages in hundredths of a percent,
//! so every computation is exact and fully specified.

pub mod classify;
pub mod density;
pub mod engine;
pub mod measurements;
pub mod parse;
pub mod resolve;
