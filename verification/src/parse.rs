//! Parsing of typed text into fixed-point numbers.
//!
//! A measurement text is an optional sign, one or more integer digits
//! and optionally a decimal point followed by one or two fraction
//! digits; its value, in hundredths of a millimetre, may not exceed
//! [`MEASUREMENT_LIMIT`] in magnitude.  An age text is one or more
//! digits whose value lies between 1 and 119.  Anything else is
//! rejected.  The grammar and the values are defined over the UTF-8
//! bytes of the text, so every accepted text is plain ASCII.

use vstd::prelude::*;
use vstd::string::StringSliceAdditionalSpecFns;

use crate::measurements::{in_range, MEASUREMENT_LIMIT};

verus! {

/// Whether a byte is an ASCII decimal digit.
pub open spec fn is_digit(b: u8) -> bool {
    48 <= b <= 57
}

/// The numeric value of a digit byte.
pub open spec fn digit_val(b: u8) -> int {
    b - 48
}

/// Whether every byte of the sequence is a decimal digit.
pub open spec fn all_digits(s: Seq<u8>) -> bool {
    forall|i: int| 0 <= i < s.len() ==> is_digit(s[i])
}

/// The base-ten value of a digit sequence, leading zeros allowed.
pub open spec fn digits_val(s: Seq<u8>) -> int
    decreases s.len(),
{
    if s.len() == 0 {
        0
    } else {
        10 * digits_val(s.drop_last()) + digit_val(s.last())
    }
}

/// Index of the first `.` in the sequence, or its length if there is
/// none.
pub open spec fn dot_pos(s: Seq<u8>) -> int
    decreases s.len(),
{
    if s.len() == 0 {
        0
    } else if s[0] == 46 {
        0
    } else {
        1 + dot_pos(s.skip(1))
    }
}

/// The value of a one- or two-digit fraction part, in hundredths.
pub open spec fn frac_hundredths(fp: Seq<u8>) -> int {
    if fp.len() == 1 {
        10 * digit_val(fp[0])
    } else {
        digits_val(fp)
    }
}

/// The magnitude, in hundredths, of an unsigned measurement text:
/// integer digits with an optional `.` and one or two fraction digits.
pub open spec fn spec_parse_unsigned(s: Seq<u8>) -> Option<int> {
    let p = dot_pos(s);
    if p == s.len() {
        if s.len() >= 1 && all_digits(s) {
            Some(100 * digits_val(s))
        } else {
            None
        }
    } else {
        let ip = s.take(p);
        let fp = s.skip(p + 1);
        if 1 <= ip.len() && all_digits(ip) && 1 <= fp.len() <= 2 && all_digits(fp) {
            Some(100 * digits_val(ip) + frac_hundredths(fp))
        } else {
            None
        }
    }
}

/// The value, in hundredths of a millimetre, of a measurement text: an
/// optional `+` or `-`, then an unsigned measurement whose magnitude is
/// at most [`MEASUREMENT_LIMIT`].
pub open spec fn spec_parse_measurement(s: Seq<u8>) -> Option<int> {
    let neg = s.len() > 0 && s[0] == 45;
    let body = if s.len() > 0 && (s[0] == 43 || s[0] == 45) {
        s.skip(1)
    } else {
        s
    };
    match spec_parse_unsigned(body) {
        Some(v) => if v <= MEASUREMENT_LIMIT {
            Some(if neg { -v } else { v })
        } else {
            None
        },
        None => None,
    }
}

/// The value of an age text: digits only, between 1 and 119.
pub open spec fn spec_parse_age(s: Seq<u8>) -> Option<int> {
    if s.len() >= 1 && all_digits(s) && 1 <= digits_val(s) <= 119 {
        Some(digits_val(s))
    } else {
        None
    }
}

/// A digit sequence never has a negative value.
pub proof fn lemma_digits_val_nonneg(s: Seq<u8>)
    requires
        all_digits(s),
    ensures
        digits_val(s) >= 0,
    decreases s.len(),
{
    if s.len() > 0 {
        assert(forall|i: int| 0 <= i < s.drop_last().len() ==> is_digit(#[trigger] s.drop_last()[i]));
        lemma_digits_val_nonneg(s.drop_last());
    }
}

/// Extending a digit sequence on the right never lowers its value.
pub proof fn lemma_digits_val_prefix(s: Seq<u8>, n: int)
    requires
        all_digits(s),
        0 <= n <= s.len(),
    ensures
        digits_val(s.take(n)) <= digits_val(s),
    decreases s.len() - n,
{
    if n == s.len() {
        assert(s.take(n) =~= s);
    } else {
        assert(s.take(n + 1).drop_last() =~= s.take(n));
        assert(forall|i: int| 0 <= i < s.take(n).len() ==> is_digit(#[trigger] s.take(n)[i]));
        lemma_digits_val_nonneg(s.take(n));
        assert(digits_val(s.take(n + 1)) == 10 * digits_val(s.take(n)) + digit_val(s[n]));
        lemma_digits_val_prefix(s, n + 1);
    }
}

/// `dot_pos` is pinned down by a witness: no `.` strictly before `k`,
/// and either a `.` at `k` or `k` at the end.
pub proof fn lemma_dot_pos_value(s: Seq<u8>, k: int)
    requires
        0 <= k <= s.len(),
        forall|i: int| 0 <= i < k ==> s[i] != 46,
        k < s.len() ==> s[k] == 46,
    ensures
        dot_pos(s) == k,
    decreases k,
{
    if k == 0 {
    } else {
        assert(s[0] != 46);
        assert(forall|i: int| 0 <= i < k - 1 ==> #[trigger] s.skip(1)[i] == s[i + 1]);
        lemma_dot_pos_value(s.skip(1), k - 1);
    }
}

/// The value of a one- or two-digit fraction part stays below one
/// hundred.
pub proof fn lemma_frac_hundredths_bounds(fp: Seq<u8>)
    requires
        all_digits(fp),
        1 <= fp.len() <= 2,
    ensures
        0 <= frac_hundredths(fp) <= 99,
{
    if fp.len() == 1 {
        assert(is_digit(fp[0]));
    } else {
        assert(is_digit(fp[0]) && is_digit(fp[1]));
        lemma_digits_val_two(fp);
    }
}

/// The value of a two-digit sequence, written out.
pub proof fn lemma_digits_val_two(fp: Seq<u8>)
    requires
        fp.len() == 2,
    ensures
        digits_val(fp) == 10 * digit_val(fp[0]) + digit_val(fp[1]),
{
    assert(fp.drop_last().drop_last() =~= Seq::<u8>::empty());
    assert(digits_val(fp.drop_last()) == 10 * digits_val(fp.drop_last().drop_last()) + digit_val(
        fp.drop_last().last(),
    ));
    assert(fp.drop_last().last() == fp[0]);
    assert(fp.last() == fp[1]);
}

/// Parses the unsigned body of a measurement text, starting at `from`:
/// integer digits, optionally followed by a `.` and one or two
/// fraction digits.  `None` also stands for a well-formed body whose
/// magnitude is over the limit.
#[verifier::loop_isolation(false)]
fn parse_unsigned(b: &[u8], from: usize) -> (r: Option<i64>)
    requires
        from <= b@.len(),
    ensures
        match r {
            Some(v) => spec_parse_unsigned(b@.skip(from as int)) == Some(v as int) && 0 <= v
                <= 10_000_099,
            None => match spec_parse_unsigned(b@.skip(from as int)) {
                Some(w) => w > MEASUREMENT_LIMIT,
                None => true,
            },
        },
{
    let ghost sb: Seq<u8> = b@;
    let n: usize = b.len();
    let start: usize = from;
    let ghost body = sb.skip(start as int);
    // Find the decimal point, if any.
    let mut j: usize = start;
    while j < n && b[j] != 46
        invariant
            start <= j <= n,
            forall|k: int| start <= k < j ==> sb[k] != 46,
        decreases n - j,
    {
        j += 1;
    }
    proof {
        assert(forall|i: int| 0 <= i < body.len() ==> body[i] == sb[start + i]);
        lemma_dot_pos_value(body, j - start);
    }
    let ghost ip = body.take(j - start);
    proof {
        assert(ip =~= sb.subrange(start as int, j as int));
    }
    if j == start {
        // No integer digits: "" / "." / ".5" and the like.
        return None;
    }
    // Every integer-part byte must be a digit.
    let mut k: usize = start;
    while k < j
        invariant
            start <= k <= j,
            forall|i: int| start <= i < k ==> is_digit(sb[i]),
        decreases j - k,
    {
        if b[k] < 48 || b[k] > 57 {
            proof {
                assert(!is_digit(ip[k - start]));
            }
            return None;
        }
        k += 1;
    }
    proof {
        assert(forall|i: int| 0 <= i < ip.len() ==> is_digit(#[trigger] ip[i]));
    }
    // Accumulate the integer part, giving up as soon as the magnitude
    // cannot stay under the limit any more.
    let mut acc: i64 = 0;
    k = start;
    while k < j
        invariant
            start <= k <= j,
            0 <= acc <= 100_000,
            acc == digits_val(sb.subrange(start as int, k as int)),
        decreases j - k,
    {
        let d: u8 = b[k];
        let next: i64 = acc * 10 + ((d - 48) as i64);
        proof {
            assert(sb.subrange(start as int, k + 1).drop_last() =~= sb.subrange(
                start as int,
                k as int,
            ));
            assert(digits_val(sb.subrange(start as int, k + 1)) == next);
        }
        if next > 100_000 {
            proof {
                assert(sb.subrange(start as int, k + 1) =~= ip.take(k + 1 - start));
                lemma_digits_val_prefix(ip, k + 1 - start);
                assert(digits_val(ip) > 100_000);
                if dot_pos(body) < body.len() {
                    let fp = body.skip(dot_pos(body) + 1);
                    if 1 <= fp.len() <= 2 && all_digits(fp) {
                        lemma_frac_hundredths_bounds(fp);
                    }
                }
            }
            return None;
        }
        acc = next;
        k += 1;
    }
    proof {
        assert(sb.subrange(start as int, j as int) =~= ip);
        assert(acc == digits_val(ip));
        lemma_digits_val_nonneg(ip);
    }
    if j == n {
        // No fraction part.
        proof {
            assert(ip =~= body);
        }
        return Some(acc * 100);
    }
    let ghost fp = body.skip((j - start) + 1);
    proof {
        assert(fp =~= sb.subrange(j + 1, n as int));
    }
    let frac: i64;
    if n - j - 1 == 1 {
        let c = b[j + 1];
        if c < 48 || c > 57 {
            proof {
                assert(!is_digit(fp[0]));
            }
            return None;
        }
        frac = 10 * ((c - 48) as i64);
        proof {
            assert(fp =~= seq![sb[j + 1]]);
            assert(forall|i: int| 0 <= i < fp.len() ==> is_digit(#[trigger] fp[i]));
            assert(frac == frac_hundredths(fp));
        }
    } else if n - j - 1 == 2 {
        let c1 = b[j + 1];
        let c2 = b[j + 2];
        if c1 < 48 || c1 > 57 {
            proof {
                assert(!is_digit(fp[0]));
            }
            return None;
        }
        if c2 < 48 || c2 > 57 {
            proof {
                assert(!is_digit(fp[1]));
            }
            return None;
        }
        frac = 10 * ((c1 - 48) as i64) + ((c2 - 48) as i64);
        proof {
            assert(fp =~= seq![sb[j + 1], sb[j + 2]]);
            assert(forall|i: int| 0 <= i < fp.len() ==> is_digit(#[trigger] fp[i]));
            lemma_digits_val_two(fp);
            assert(frac == frac_hundredths(fp));
        }
    } else {
        // Zero or more than two fraction digits.
        return None;
    }
    Some(acc * 100 + frac)
}

/// Parses a measurement text; `None` when the text does not match the
/// grammar or its magnitude is over the limit.
pub fn parse_measurement(s: &str) -> (r: Option<i64>)
    ensures
        match r {
            Some(v) => spec_parse_measurement(s.spec_bytes()) == Some(v as int) && in_range(
                v as int,
            ),
            None => spec_parse_measurement(s.spec_bytes()) == None::<int>,
        },
{
    let b: &[u8] = s.as_bytes();
    let ghost sb: Seq<u8> = s.spec_bytes();
    let n: usize = b.len();
    let mut start: usize = 0;
    let mut neg: bool = false;
    if n > 0 && (b[0] == 43 || b[0] == 45) {
        neg = b[0] == 45;
        start = 1;
    }
    proof {
        assert(sb.skip(0) =~= sb);
    }
    match parse_unsigned(b, start) {
        Some(magnitude) => if magnitude > MEASUREMENT_LIMIT {
            None
        } else if neg {
            Some(-magnitude)
        } else {
            Some(magnitude)
        },
        None => None,
    }
}

/// Parses an age text; `None` when the text is not all digits or its
/// value lies outside 1 to 119.
#[verifier::loop_isolation(false)]
pub fn parse_age(s: &str) -> (r: Option<u32>)
    ensures
        match r {
            Some(v) => spec_parse_age(s.spec_bytes()) == Some(v as int) && 1 <= v <= 119,
            None => spec_parse_age(s.spec_bytes()) == None::<int>,
        },
{
    let b: &[u8] = s.as_bytes();
    let ghost sb: Seq<u8> = s.spec_bytes();
    let n: usize = b.len();
    if n == 0 {
        return None;
    }
    let mut k: usize = 0;
    while k < n
        invariant
            0 <= k <= n,
            forall|i: int| 0 <= i < k ==> is_digit(sb[i]),
        decreases n - k,
    {
        if b[k] < 48 || b[k] > 57 {
            return None;
        }
        k += 1;
    }
    let mut acc: u32 = 0;
    k = 0;
    while k < n
        invariant
            0 <= k <= n,
            all_digits(sb),
            0 <= acc <= 119,
            acc == digits_val(sb.subrange(0, k as int)),
        decreases n - k,
    {
        let d: u8 = b[k];
        let next: u32 = acc * 10 + ((d - 48) as u32);
        proof {
            assert(sb.subrange(0, k + 1).drop_last() =~= sb.subrange(0, k as int));
            assert(digits_val(sb.subrange(0, k + 1)) == next);
        }
        if next > 119 {
            proof {
                assert(sb.subrange(0, k + 1) =~= sb.take(k + 1));
                lemma_digits_val_prefix(sb, k + 1);
                assert(digits_val(sb) > 119);
            }
            return None;
        }
        acc = next;
        k += 1;
    }
    proof {
        assert(sb.subrange(0, n as int) =~= sb);
    }
    if acc < 1 {
        return None;
    }
    Some(acc)
}

} // verus!
