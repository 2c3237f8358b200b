//! Reconciling freshly typed text with previously stored values.
//!
//! Each skinfold field is resolved on its own: non-empty text must parse
//! as a number, empty text falls back to a stored positive value, and an
//! empty field without a stored value is missing.  An age is resolved
//! from its text alone.  Failures never short-circuit a batch; the
//! caller collects one error per failing field.

use vstd::prelude::*;
use vstd::string::StringSliceAdditionalSpecFns;

use crate::measurements::{in_range, Site};
use crate::parse::{parse_measurement, spec_parse_measurement};

verus! {

/// Why a single skinfold field failed to resolve.
#[derive(Clone, Copy, Debug, PartialEq, Eq, Structural)]
pub enum FieldIssue {
    /// The field held text that is not a valid number.
    NotANumber,
    /// The field was empty and no stored value was available.
    Required,
}

/// One failed resolution out of a calculation call.
#[derive(Clone, Copy, Debug, PartialEq, Eq, Structural)]
pub enum ValidationError {
    /// The named skinfold field is malformed or missing.
    Measurement(Site, FieldIssue),
    /// The age text is not a number between 1 and 119.
    Age,
}

/// The per-field policy: non-empty text must parse, empty text falls
/// back to a positive stored value, otherwise the field is missing.
pub open spec fn spec_resolve(raw: Seq<u8>, stored: int) -> Result<int, FieldIssue> {
    if raw.len() > 0 {
        match spec_parse_measurement(raw) {
            Some(v) => Ok(v),
            None => Err(FieldIssue::NotANumber),
        }
    } else if stored > 0 {
        Ok(stored)
    } else {
        Err(FieldIssue::Required)
    }
}

/// Resolves one skinfold field from its typed text and its stored
/// value.
pub fn resolve_measurement(raw: &str, stored: i64) -> (r: Result<i64, FieldIssue>)
    requires
        in_range(stored as int),
    ensures
        match r {
            Ok(v) => spec_resolve(raw.spec_bytes(), stored as int) == Ok::<int, FieldIssue>(
                v as int,
            ) && in_range(v as int),
            Err(e) => spec_resolve(raw.spec_bytes(), stored as int) == Err::<int, FieldIssue>(e),
        },
{
    let bytes: &[u8] = raw.as_bytes();
    if bytes.len() == 0 {
        if stored > 0 {
            Ok(stored)
        } else {
            Err(FieldIssue::Required)
        }
    } else {
        match parse_measurement(raw) {
            Some(v) => Ok(v),
            None => Err(FieldIssue::NotANumber),
        }
    }
}

impl ValidationError {
    /// The message text of this error.
    pub open spec fn spec_message(&self) -> Seq<char> {
        match self {
            ValidationError::Measurement(site, issue) => match issue {
                FieldIssue::NotANumber => match site {
                    Site::Chest => "Chest measurement must be a valid number"@,
                    Site::Abdominal => "Abdominal measurement must be a valid number"@,
                    Site::Thigh => "Thigh measurement must be a valid number"@,
                    Site::Triceps => "Triceps measurement must be a valid number"@,
                    Site::Subscapular => "Subscapular measurement must be a valid number"@,
                    Site::Suprailiac => "Suprailiac measurement must be a valid number"@,
                    Site::Midaxillary => "Midaxillary measurement must be a valid number"@,
                },
                FieldIssue::Required => match site {
                    Site::Chest => "Chest measurement is required"@,
                    Site::Abdominal => "Abdominal measurement is required"@,
                    Site::Thigh => "Thigh measurement is required"@,
                    Site::Triceps => "Triceps measurement is required"@,
                    Site::Subscapular => "Subscapular measurement is required"@,
                    Site::Suprailiac => "Suprailiac measurement is required"@,
                    Site::Midaxillary => "Midaxillary measurement is required"@,
                },
            },
            ValidationError::Age => "Age must be a valid number between 1 and 119"@,
        }
    }

    /// Returns the message text of this error.
    pub fn message(&self) -> (r: &'static str)
        ensures
            r@ == self.spec_message(),
    {
        match self {
            ValidationError::Measurement(site, issue) => match issue {
                FieldIssue::NotANumber => match site {
                    Site::Chest => "Chest measurement must be a valid number",
                    Site::Abdominal => "Abdominal measurement must be a valid number",
                    Site::Thigh => "Thigh measurement must be a valid number",
                    Site::Triceps => "Triceps measurement must be a valid number",
                    Site::Subscapular => "Subscapular measurement must be a valid number",
                    Site::Suprailiac => "Suprailiac measurement must be a valid number",
                    Site::Midaxillary => "Midaxillary measurement must be a valid number",
                },
                FieldIssue::Required => match site {
                    Site::Chest => "Chest measurement is required",
                    Site::Abdominal => "Abdominal measurement is required",
                    Site::Thigh => "Thigh measurement is required",
                    Site::Triceps => "Triceps measurement is required",
                    Site::Subscapular => "Subscapular measurement is required",
                    Site::Suprailiac => "Suprailiac measurement is required",
                    Site::Midaxillary => "Midaxillary measurement is required",
                },
            },
            ValidationError::Age => "Age must be a valid number between 1 and 119",
        }
    }
}

} // verus!
