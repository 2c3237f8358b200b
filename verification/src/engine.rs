//! The calculation flow: resolve all eight inputs, then estimate and
//! classify, then merge the used values back into the session state.
//!
//! A calculation either fully succeeds or has no effect at all: the
//! stored [`Measurements`] record is replaced by the values actually
//! used only when every field and the age resolve, and is left exactly
//! as it was when any of them fails.  All per-field errors of one call
//! are collected into one ordered list, never just the first.

use vstd::prelude::*;
use vstd::string::StringSliceAdditionalSpecFns;

use crate::classify::{
    classify_body_fat_female, classify_body_fat_male, spec_classify, Category, Sex,
};
use crate::density::{calculate_body_fat, spec_body_fat};
use crate::measurements::{in_range, site_index, Measurements, Site};
use crate::parse::{parse_age, spec_parse_age, spec_parse_measurement};
use crate::resolve::{resolve_measurement, spec_resolve, ValidationError};

verus! {

/// The typed texts of the seven skinfold fields, as the presentation
/// layer hands them over.
#[derive(Clone, Copy)]
pub struct RawReadings<'a> {
    pub chest: &'a str,
    pub abdominal: &'a str,
    pub thigh: &'a str,
    pub triceps: &'a str,
    pub subscapular: &'a str,
    pub suprailiac: &'a str,
    pub midaxillary: &'a str,
}

/// The outcome of a successful calculation: the body-fat percentage in
/// hundredths of a percent, and its normative category.
#[derive(Clone, Copy, Debug, PartialEq, Eq, Structural)]
pub struct BodyFatResult {
    pub percentage: i64,
    pub category: Category,
}

/// The site stored at a given position of a [`Measurements`] view.
pub open spec fn site_of(i: int) -> Site {
    if i == 0 {
        Site::Chest
    } else if i == 1 {
        Site::Abdominal
    } else if i == 2 {
        Site::Thigh
    } else if i == 3 {
        Site::Triceps
    } else if i == 4 {
        Site::Subscapular
    } else if i == 5 {
        Site::Suprailiac
    } else {
        Site::Midaxillary
    }
}

/// The eight input texts of one calculation call, as byte sequences:
/// the seven fields in site order, then the age.
pub open spec fn spec_inputs(readings: RawReadings<'_>, age_text: &str) -> Seq<Seq<u8>> {
    seq![
        readings.chest.spec_bytes(),
        readings.abdominal.spec_bytes(),
        readings.thigh.spec_bytes(),
        readings.triceps.spec_bytes(),
        readings.subscapular.spec_bytes(),
        readings.suprailiac.spec_bytes(),
        readings.midaxillary.spec_bytes(),
        age_text.spec_bytes(),
    ]
}

/// The errors one field contributes: none when it resolves, one
/// otherwise.
pub open spec fn err_of(m: Seq<int>, raws: Seq<Seq<u8>>, i: int) -> Seq<ValidationError> {
    match spec_resolve(raws[i], m[i]) {
        Ok(_) => seq![],
        Err(issue) => seq![ValidationError::Measurement(site_of(i), issue)],
    }
}

/// The errors the age contributes.
pub open spec fn age_err(raws: Seq<Seq<u8>>) -> Seq<ValidationError> {
    match spec_parse_age(raws[7]) {
        Some(_) => seq![],
        None => seq![ValidationError::Age],
    }
}

/// All errors of one calculation call, in field order with the age
/// last.
pub open spec fn spec_errors(m: Seq<int>, raws: Seq<Seq<u8>>) -> Seq<ValidationError> {
    err_of(m, raws, 0) + err_of(m, raws, 1) + err_of(m, raws, 2) + err_of(m, raws, 3) + err_of(
        m,
        raws,
        4,
    ) + err_of(m, raws, 5) + err_of(m, raws, 6) + age_err(raws)
}

/// The seven resolved values of an error-free call.
pub open spec fn spec_resolved(m: Seq<int>, raws: Seq<Seq<u8>>) -> Seq<int> {
    Seq::new(
        7,
        |i: int|
            match spec_resolve(raws[i], m[i]) {
                Ok(v) => v,
                Err(_) => 0,
            },
    )
}

/// The sum of the seven entries of a view.
pub open spec fn sum7(s: Seq<int>) -> int {
    s[0] + s[1] + s[2] + s[3] + s[4] + s[5] + s[6]
}

/// What one calculation call yields from a stored record `m` and the
/// eight input texts: either the percentage, the category and the new
/// record, or the full list of validation errors.
pub open spec fn spec_calculate(m: Seq<int>, raws: Seq<Seq<u8>>, sex: Sex) -> Result<
    (int, Category, Seq<int>),
    Seq<ValidationError>,
> {
    if spec_errors(m, raws).len() == 0 {
        let vals = spec_resolved(m, raws);
        let age = match spec_parse_age(raws[7]) {
            Some(a) => a,
            None => 0,
        };
        let bf = spec_body_fat(sum7(vals), age, sex == Sex::Male);
        Ok((bf, spec_classify(sex, age, bf), vals))
    } else {
        Err(spec_errors(m, raws))
    }
}

/// Calculating is idempotent: after a fully successful call has merged
/// the values it used back into the record, running the very same
/// inputs against the merged record yields the identical outcome, the
/// percentage, the category and the record included.
pub proof fn lemma_calculate_idempotent(m: Seq<int>, raws: Seq<Seq<u8>>, sex: Sex)
    requires
        spec_calculate(m, raws, sex) is Ok,
    ensures
        spec_calculate(spec_calculate(m, raws, sex)->Ok_0.2, raws, sex) == spec_calculate(
            m,
            raws,
            sex,
        ),
{
    let m2 = spec_calculate(m, raws, sex)->Ok_0.2;
    assert(spec_errors(m, raws).len() == 0);
    assert(err_of(m, raws, 0).len() == 0 && err_of(m, raws, 1).len() == 0 && err_of(m, raws, 2).len()
        == 0 && err_of(m, raws, 3).len() == 0 && err_of(m, raws, 4).len() == 0 && err_of(
        m,
        raws,
        5,
    ).len() == 0 && err_of(m, raws, 6).len() == 0 && age_err(raws).len() == 0);
    assert(m2 == spec_resolved(m, raws));
    assert forall|i: int| 0 <= i < 7 implies spec_resolve(raws[i], m2[i]) == spec_resolve(
        raws[i],
        m[i],
    ) by {
        if i == 0 {
            assert(err_of(m, raws, 0).len() == 0);
        } else if i == 1 {
            assert(err_of(m, raws, 1).len() == 0);
        } else if i == 2 {
            assert(err_of(m, raws, 2).len() == 0);
        } else if i == 3 {
            assert(err_of(m, raws, 3).len() == 0);
        } else if i == 4 {
            assert(err_of(m, raws, 4).len() == 0);
        } else if i == 5 {
            assert(err_of(m, raws, 5).len() == 0);
        } else {
            assert(err_of(m, raws, 6).len() == 0);
        }
        assert(spec_resolve(raws[i], m[i]) is Ok);
        if raws[i].len() == 0 {
            assert(m2[i] == m[i]);
        }
    }
    assert(err_of(m2, raws, 0) == err_of(m, raws, 0) && err_of(m2, raws, 1) == err_of(m, raws, 1)
        && err_of(m2, raws, 2) == err_of(m, raws, 2) && err_of(m2, raws, 3) == err_of(m, raws, 3)
        && err_of(m2, raws, 4) == err_of(m, raws, 4) && err_of(m2, raws, 5) == err_of(m, raws, 5)
        && err_of(m2, raws, 6) == err_of(m, raws, 6));
    assert(spec_errors(m2, raws).len() == 0);
    assert(spec_resolved(m2, raws) =~= spec_resolved(m, raws));
}

/// Resolves one field against the stored record, appending its error,
/// if any, to the batch list.
fn resolve_field(raw: &str, stored: i64, site: Site, errors: &mut Vec<ValidationError>) -> (v: i64)
    requires
        in_range(stored as int),
    ensures
        in_range(v as int),
        match spec_resolve(raw.spec_bytes(), stored as int) {
            Ok(w) => v as int == w && final(errors)@ == old(errors)@,
            Err(issue) => final(errors)@ == old(errors)@.push(
                ValidationError::Measurement(site, issue),
            ),
        },
{
    match resolve_measurement(raw, stored) {
        Ok(v) => v,
        Err(e) => {
            errors.push(ValidationError::Measurement(site, e));
            0
        },
    }
}


impl Measurements {
    /// Best-effort entry point for a single field: text that parses
    /// overwrites the named field, malformed text is silently ignored.
    pub fn update_measurement(&mut self, site: Site, raw: &str)
        ensures
            final(self)@ == match spec_parse_measurement(raw.spec_bytes()) {
                Some(v) => old(self)@.update(site_index(site), v),
                None => old(self)@,
            },
            old(self).wf() ==> final(self).wf(),
    {
        match crate::parse::parse_measurement(raw) {
            Some(v) => self.set_measurement(site, v),
            None => {},
        }
    }

    /// Resolves the seven fields and the age against the stored record,
    /// collecting every error in field order with the age last; also
    /// hands back the record and the age an error-free batch resolved
    /// to.
    fn resolve_inputs(&self, readings: &RawReadings<'_>, age_text: &str) -> (r: (
        Measurements,
        u32,
        Vec<ValidationError>,
    ))
        requires
            self.wf(),
        ensures
            ({
                let raws = spec_inputs(*readings, age_text);
                r.2@ == spec_errors(self@, raws) && (spec_errors(self@, raws).len() == 0 ==> (
                    r.0@ == spec_resolved(self@, raws) && r.0.wf() && match spec_parse_age(
                        raws[7],
                    ) {
                        Some(a) => r.1 as int == a && 1 <= r.1 <= 119,
                        None => false,
                    }
                ))
            }),
    {
        let ghost m0: Seq<int> = self@;
        let ghost raws: Seq<Seq<u8>> = spec_inputs(*readings, age_text);
        let mut errors: Vec<ValidationError> = Vec::new();

        let chest_v: i64 = resolve_field(readings.chest, self.chest, Site::Chest, &mut errors);
        proof {
            assert(raws[0] == readings.chest.spec_bytes() && m0[0] == self.chest as int);
            assert(errors@ =~= err_of(m0, raws, 0));
        }
        let abdominal_v: i64 = resolve_field(
            readings.abdominal,
            self.abdominal,
            Site::Abdominal,
            &mut errors,
        );
        proof {
            assert(raws[1] == readings.abdominal.spec_bytes() && m0[1] == self.abdominal as int);
            assert(errors@ =~= err_of(m0, raws, 0) + err_of(m0, raws, 1));
        }
        let thigh_v: i64 = resolve_field(readings.thigh, self.thigh, Site::Thigh, &mut errors);
        proof {
            assert(raws[2] == readings.thigh.spec_bytes() && m0[2] == self.thigh as int);
            assert(errors@ =~= err_of(m0, raws, 0) + err_of(m0, raws, 1) + err_of(m0, raws, 2));
        }
        let triceps_v: i64 = resolve_field(
            readings.triceps,
            self.triceps,
            Site::Triceps,
            &mut errors,
        );
        proof {
            assert(raws[3] == readings.triceps.spec_bytes() && m0[3] == self.triceps as int);
            assert(errors@ =~= err_of(m0, raws, 0) + err_of(m0, raws, 1) + err_of(m0, raws, 2)
                + err_of(m0, raws, 3));
        }
        let subscapular_v: i64 = resolve_field(
            readings.subscapular,
            self.subscapular,
            Site::Subscapular,
            &mut errors,
        );
        proof {
            assert(raws[4] == readings.subscapular.spec_bytes() && m0[4]
                == self.subscapular as int);
            assert(errors@ =~= err_of(m0, raws, 0) + err_of(m0, raws, 1) + err_of(m0, raws, 2)
                + err_of(m0, raws, 3) + err_of(m0, raws, 4));
        }
        let suprailiac_v: i64 = resolve_field(
            readings.suprailiac,
            self.suprailiac,
            Site::Suprailiac,
            &mut errors,
        );
        proof {
            assert(raws[5] == readings.suprailiac.spec_bytes() && m0[5] == self.suprailiac as int);
            assert(errors@ =~= err_of(m0, raws, 0) + err_of(m0, raws, 1) + err_of(m0, raws, 2)
                + err_of(m0, raws, 3) + err_of(m0, raws, 4) + err_of(m0, raws, 5));
        }
        let midaxillary_v: i64 = resolve_field(
            readings.midaxillary,
            self.midaxillary,
            Site::Midaxillary,
            &mut errors,
        );
        proof {
            assert(raws[6] == readings.midaxillary.spec_bytes() && m0[6]
                == self.midaxillary as int);
            assert(errors@ =~= err_of(m0, raws, 0) + err_of(m0, raws, 1) + err_of(m0, raws, 2)
                + err_of(m0, raws, 3) + err_of(m0, raws, 4) + err_of(m0, raws, 5) + err_of(
                m0,
                raws,
                6,
            ));
        }
        let age_v: u32 = match parse_age(age_text) {
            Some(a) => a,
            None => {
                errors.push(ValidationError::Age);
                0
            },
        };
        proof {
            assert(raws[7] == age_text.spec_bytes());
            assert(errors@ =~= spec_errors(m0, raws));
        }
        let resolved = Measurements {
            chest: chest_v,
            abdominal: abdominal_v,
            thigh: thigh_v,
            triceps: triceps_v,
            subscapular: subscapular_v,
            suprailiac: suprailiac_v,
            midaxillary: midaxillary_v,
        };
        proof {
            if spec_errors(m0, raws).len() == 0 {
                assert(err_of(m0, raws, 0).len() == 0 && err_of(m0, raws, 1).len() == 0 && err_of(
                    m0,
                    raws,
                    2,
                ).len() == 0 && err_of(m0, raws, 3).len() == 0 && err_of(m0, raws, 4).len() == 0
                    && err_of(m0, raws, 5).len() == 0 && err_of(m0, raws, 6).len() == 0 && age_err(
                    raws,
                ).len() == 0);
                assert(resolved@ =~= spec_resolved(m0, raws));
                assert(forall|i: int| 0 <= i < 7 ==> in_range(#[trigger] resolved@[i]));
            }
        }
        (resolved, age_v, errors)
    }

    /// Resolves the seven fields and the age, and on full success
    /// estimates, classifies and replaces the stored record with the
    /// values actually used.  On any failure the complete error list is
    /// returned and the stored record is left untouched.
    pub fn calculate(&mut self, readings: &RawReadings<'_>, age_text: &str, sex: Sex) -> (r:
        Result<BodyFatResult, Vec<ValidationError>>)
        requires
            old(self).wf(),
        ensures
            final(self).wf(),
            ({
                let out = spec_calculate(old(self)@, spec_inputs(*readings, age_text), sex);
                match r {
                    Ok(res) => out == Ok::<(int, Category, Seq<int>), Seq<ValidationError>>(
                        (res.percentage as int, res.category, final(self)@),
                    ),
                    Err(errs) => out == Err::<(int, Category, Seq<int>), Seq<ValidationError>>(
                        errs@,
                    ) && *final(self) == *old(self),
                }
            }),
    {
        let ghost m0: Seq<int> = self@;
        let ghost raws: Seq<Seq<u8>> = spec_inputs(*readings, age_text);
        let (resolved, age_v, errors) = self.resolve_inputs(readings, age_text);
        if errors.len() > 0 {
            return Err(errors);
        }
        proof {
            assert(in_range(resolved@[0]) && in_range(resolved@[1]) && in_range(resolved@[2])
                && in_range(resolved@[3]) && in_range(resolved@[4]) && in_range(resolved@[5])
                && in_range(resolved@[6]));
        }
        let total: i64 = resolved.total();
        let is_male: bool = match sex {
            Sex::Male => true,
            Sex::Female => false,
        };
        let bf: i64 = calculate_body_fat(total, age_v, is_male);
        let category: Category = if is_male {
            classify_body_fat_male(age_v, bf)
        } else {
            classify_body_fat_female(age_v, bf)
        };
        *self = resolved;
        Ok(BodyFatResult { percentage: bf, category })
    }
}

} // verus!
