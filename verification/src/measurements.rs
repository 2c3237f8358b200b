//! The seven skinfold readings of one measuring session.

use vstd::prelude::*;

verus! {

/// Largest magnitude a single reading may have, in hundredths of a
/// millimetre (100 000.00 mm).  The input parser never produces a value
/// beyond it, and keeping every field inside this range lets the density
/// regression be computed without overflow.
pub const MEASUREMENT_LIMIT: i64 = 10_000_000;

/// Largest magnitude the sum of the seven readings may have.
pub const TOTAL_LIMIT: i64 = 70_000_000;

/// One of the seven Jackson & Pollock skinfold sites.
#[derive(Clone, Copy, Debug, PartialEq, Eq, Structural)]
pub enum Site {
    Chest,
    Abdominal,
    Thigh,
    Triceps,
    Subscapular,
    Suprailiac,
    Midaxillary,
}

/// Position of a site in the view of a [`Measurements`] value.
pub open spec fn site_index(site: Site) -> int {
    match site {
        Site::Chest => 0,
        Site::Abdominal => 1,
        Site::Thigh => 2,
        Site::Triceps => 3,
        Site::Subscapular => 4,
        Site::Suprailiac => 5,
        Site::Midaxillary => 6,
    }
}

/// Whether a reading lies inside the representable range.
pub open spec fn in_range(v: int) -> bool {
    -MEASUREMENT_LIMIT <= v <= MEASUREMENT_LIMIT
}

/// The seven skinfold readings, each in hundredths of a millimetre.
/// A field equal to `0` means that no value has been supplied yet.
#[derive(Clone, Copy, Debug, PartialEq, Eq, Structural)]
pub struct Measurements {
    pub chest: i64,
    pub abdominal: i64,
    pub thigh: i64,
    pub triceps: i64,
    pub subscapular: i64,
    pub suprailiac: i64,
    pub midaxillary: i64,
}

impl View for Measurements {
    type V = Seq<int>;

    open spec fn view(&self) -> Seq<int> {
        seq![
            self.chest as int,
            self.abdominal as int,
            self.thigh as int,
            self.triceps as int,
            self.subscapular as int,
            self.suprailiac as int,
            self.midaxillary as int,
        ]
    }
}

impl Measurements {
    /// Every field lies inside the representable range.
    pub open spec fn wf(&self) -> bool {
        forall|i: int| 0 <= i < 7 ==> in_range(self@[i])
    }

    /// Mathematical sum of the seven readings.
    pub open spec fn spec_total(&self) -> int {
        self@[0] + self@[1] + self@[2] + self@[3] + self@[4] + self@[5] + self@[6]
    }

    /// A fresh record with every site unset.
    pub fn new() -> (r: Self)
        ensures
            r@ =~= seq![0int, 0int, 0int, 0int, 0int, 0int, 0int],
            r.wf(),
    {
        Measurements {
            chest: 0,
            abdominal: 0,
            thigh: 0,
            triceps: 0,
            subscapular: 0,
            suprailiac: 0,
            midaxillary: 0,
        }
    }

    /// The unconditioned sum of all seven readings at call time.
    ///
    /// The sum is additive in the fields: it equals the mathematical sum
    /// of the seven stored values, whatever they are.
    pub fn total(&self) -> (r: i64)
        requires
            self.wf(),
        ensures
            r == self.spec_total(),
    {
        proof {
            assert(in_range(self@[0]));
            assert(in_range(self@[1]));
            assert(in_range(self@[2]));
            assert(in_range(self@[3]));
            assert(in_range(self@[4]));
            assert(in_range(self@[5]));
            assert(in_range(self@[6]));
        }
        self.chest + self.abdominal + self.thigh + self.triceps + self.subscapular
            + self.suprailiac + self.midaxillary
    }

    /// Overwrites exactly the named field with an already parsed value;
    /// the other six fields keep their values.
    pub fn set_measurement(&mut self, site: Site, value: i64)
        requires
            in_range(value as int),
        ensures
            final(self)@ =~= old(self)@.update(site_index(site), value as int),
            old(self).wf() ==> final(self).wf(),
    {
        match site {
            Site::Chest => self.chest = value,
            Site::Abdominal => self.abdominal = value,
            Site::Thigh => self.thigh = value,
            Site::Triceps => self.triceps = value,
            Site::Subscapular => self.subscapular = value,
            Site::Suprailiac => self.suprailiac = value,
            Site::Midaxillary => self.midaxillary = value,
        }
    }
}

} // verus!
