//! Fixed-point parsing of temperatures and pin numbers.
//!
//! Temperatures travel through the controller as milli-degrees Celsius in
//! `i64`.  The functions here turn the textual forms the controller meets —
//! a command-line argument such as `43.0`, or the sensor report
//! `temp=48.3'C` — into that fixed-point form.  The accepted grammar is an
//! optional minus sign, a non-empty run of digits, and optionally a point
//! followed by one to three fractional digits.

use vstd::prelude::*;

verus! {

/// Largest whole-degree magnitude a temperature may have.
pub const MAX_WHOLE_DEGREES: i64 = 1000000;

/// ASCII decimal digit.
pub open spec fn is_ascii_digit(b: u8) -> bool {
    48 <= b <= 57
}

/// Numeric value of an ASCII digit.
pub open spec fn digit_value(b: u8) -> int {
    b - 48
}

/// Whether every byte of `s` is an ASCII digit.
pub open spec fn all_digits(s: Seq<u8>) -> bool {
    forall|i: int| 0 <= i < s.len() ==> is_ascii_digit(#[trigger] s[i])
}

/// The number written by a run of ASCII digits, most significant first.
pub open spec fn digits_value(s: Seq<u8>) -> int
    decreases s.len(),
{
    if s.len() == 0 {
        0
    } else {
        digits_value(s.drop_last()) * 10 + digit_value(s.last())
    }
}

/// Read the number written by the digits `s[from..to]`, refusing the run if
/// any byte is not a digit or the value exceeds `MAX_WHOLE_DEGREES`.
fn read_digits(s: &[u8], from: usize, to: usize) -> (r: Option<i64>)
    requires
        from <= to <= s@.len(),
    ensures
        r is Some <==> all_digits(s@.subrange(from as int, to as int))
            && digits_value(s@.subrange(from as int, to as int)) <= MAX_WHOLE_DEGREES,
        r is Some ==> r->0 == digits_value(s@.subrange(from as int, to as int)),
        r is Some ==> 0 <= r->0 <= MAX_WHOLE_DEGREES,
{
    let mut acc: i64 = 0;
    let mut too_big = false;
    let mut i: usize = from;
    while i < to
        invariant
            from <= i <= to <= s@.len(),
            all_digits(s@.subrange(from as int, i as int)),
            !too_big ==> acc == digits_value(s@.subrange(from as int, i as int))
                && 0 <= acc <= MAX_WHOLE_DEGREES,
            too_big ==> digits_value(s@.subrange(from as int, i as int)) > MAX_WHOLE_DEGREES,
        decreases to - i,
    {
        let b = s[i];
        if b < 48 || b > 57 {
            proof {
                let whole = s@.subrange(from as int, to as int);
                assert(!is_ascii_digit(whole[i - from]));
            }
            return None;
        }
        proof {
            assert(s@.subrange(from as int, i as int + 1).drop_last()
                =~= s@.subrange(from as int, i as int));
            assert(s@.subrange(from as int, i as int + 1).last() == s@[i as int]);
        }
        if !too_big {
            acc = acc * 10 + (b - 48) as i64;
            if acc > MAX_WHOLE_DEGREES {
                too_big = true;
            }
        }
        i = i + 1;
    }
    if too_big {
        None
    } else {
        Some(acc)
    }
}

/// The number written by a digit run is never negative.
proof fn lemma_digits_value_nonneg(s: Seq<u8>)
    requires
        all_digits(s),
    ensures
        digits_value(s) >= 0,
    decreases s.len(),
{
    if s.len() > 0 {
        assert(all_digits(s.drop_last())) by {
            assert(forall|i: int| 0 <= i < s.len() - 1 ==> s.drop_last()[i] == #[trigger] s[i]);
        }
        lemma_digits_value_nonneg(s.drop_last());
    }
}

/// A run of at most three digits writes a number of at most three digits.
proof fn lemma_digits_value_small(s: Seq<u8>)
    requires
        all_digits(s),
        s.len() <= 3,
    ensures
        digits_value(s) <= 999,
        s.len() <= 2 ==> digits_value(s) <= 99,
        s.len() <= 1 ==> digits_value(s) <= 9,
    decreases s.len(),
{
    lemma_digits_value_nonneg(s);
    if s.len() > 0 {
        assert(all_digits(s.drop_last())) by {
            assert(forall|i: int| 0 <= i < s.len() - 1 ==> s.drop_last()[i] == #[trigger] s[i]);
        }
        lemma_digits_value_small(s.drop_last());
    }
}

/// Index of the first decimal point in `s`, or `s.len()` if there is none.
pub open spec fn point_index(s: Seq<u8>) -> int
    decreases s.len(),
{
    if s.len() == 0 {
        0
    } else if s[0] == 46 {
        0
    } else {
        1 + point_index(s.skip(1))
    }
}

/// `point_index` names the position of the first point, if any.
proof fn lemma_point_index_at(s: Seq<u8>, i: int)
    requires
        0 <= i < s.len(),
        s[i] == 46,
        forall|j: int| 0 <= j < i ==> s[j] != 46,
    ensures
        point_index(s) == i,
    decreases i,
{
    if i > 0 {
        assert(forall|j: int| 0 <= j < i - 1 ==> #[trigger] s.skip(1)[j] == s[j + 1]);
        assert(s.skip(1)[i - 1] == s[i]);
        lemma_point_index_at(s.skip(1), i - 1);
    }
}

/// Where no point occurs, `point_index` is the length.
proof fn lemma_point_index_none(s: Seq<u8>)
    requires
        forall|j: int| 0 <= j < s.len() ==> s[j] != 46,
    ensures
        point_index(s) == s.len(),
    decreases s.len(),
{
    if s.len() > 0 {
        assert(forall|j: int| 0 <= j < s.len() - 1 ==> #[trigger] s.skip(1)[j] == s[j + 1]);
        lemma_point_index_none(s.skip(1));
    }
}

/// Position of the first decimal point in `s[from..to]`, relative to `from`;
/// `to` if there is none.
fn find_point(s: &[u8], from: usize, to: usize) -> (r: usize)
    requires
        from <= to <= s@.len(),
    ensures
        from <= r <= to,
        r - from == point_index(s@.subrange(from as int, to as int)),
{
    let ghost w = s@.subrange(from as int, to as int);
    let mut i: usize = from;
    while i < to
        invariant
            from <= i <= to <= s@.len(),
            w == s@.subrange(from as int, to as int),
            forall|j: int| 0 <= j < i - from ==> w[j] != 46,
        decreases to - i,
    {
        if s[i] == 46 {
            proof {
                lemma_point_index_at(w, i - from);
            }
            return i;
        }
        i = i + 1;
    }
    proof {
        lemma_point_index_none(w);
    }
    to
}

/// Weight of the first fractional digit when `n` digits follow the point,
/// in thousandths.
pub open spec fn frac_scale(n: int) -> int {
    if n == 1 {
        100
    } else if n == 2 {
        10
    } else {
        1
    }
}

/// What an unsigned decimal temperature, in degrees, is worth in
/// milli-degrees: a non-empty run of digits, optionally followed by a point
/// and one to three fractional digits, with the whole part at most
/// `MAX_WHOLE_DEGREES`; `None` for any other text.
pub open spec fn spec_parse_unsigned_milli(s: Seq<u8>) -> Option<int> {
    let p = point_index(s);
    let whole = s.subrange(0, p);
    if p == 0 || !all_digits(whole) || digits_value(whole) > MAX_WHOLE_DEGREES {
        None
    } else if p == s.len() {
        Some(digits_value(whole) * 1000)
    } else {
        let frac = s.subrange(p + 1, s.len() as int);
        if 1 <= frac.len() <= 3 && all_digits(frac) {
            Some(digits_value(whole) * 1000 + digits_value(frac) * frac_scale(frac.len() as int))
        } else {
            None
        }
    }
}

/// What a decimal temperature with an optional leading minus sign is worth
/// in milli-degrees.
pub open spec fn spec_parse_milli(s: Seq<u8>) -> Option<int> {
    if s.len() > 0 && s[0] == 45 {
        match spec_parse_unsigned_milli(s.skip(1)) {
            Some(v) => Some(-v),
            None => None,
        }
    } else {
        spec_parse_unsigned_milli(s)
    }
}

/// Parse `s[from..to]` as an unsigned decimal temperature.
fn parse_unsigned_milli_window(s: &[u8], from: usize, to: usize) -> (r: Option<i64>)
    requires
        from <= to <= s@.len(),
    ensures
        r is Some <==> spec_parse_unsigned_milli(s@.subrange(from as int, to as int)) is Some,
        r is Some ==> r->0 as int == spec_parse_unsigned_milli(
            s@.subrange(from as int, to as int),
        )->0,
        r is Some ==> 0 <= r->0 <= MAX_WHOLE_DEGREES as int * 1000 + 999,
{
    let ghost w = s@.subrange(from as int, to as int);
    let p = find_point(s, from, to);
    proof {
        assert(w.subrange(0, p - from) =~= s@.subrange(from as int, p as int));
    }
    if p == from {
        return None;
    }
    let whole = match read_digits(s, from, p) {
        Some(v) => v,
        None => {
            return None;
        },
    };
    proof {
        lemma_digits_value_nonneg(w.subrange(0, p - from));
    }
    if p == to {
        return Some(whole * 1000);
    }
    let frac_len = to - (p + 1);
    if frac_len < 1 || frac_len > 3 {
        return None;
    }
    proof {
        assert(w.subrange(p - from + 1, w.len() as int) =~= s@.subrange(p as int + 1, to as int));
    }
    let frac = match read_digits(s, p + 1, to) {
        Some(v) => v,
        None => {
            proof {
                if all_digits(w.subrange(p - from + 1, w.len() as int)) {
                    lemma_digits_value_small(w.subrange(p - from + 1, w.len() as int));
                }
            }
            return None;
        },
    };
    proof {
        lemma_digits_value_small(w.subrange(p - from + 1, w.len() as int));
        lemma_digits_value_nonneg(w.subrange(p - from + 1, w.len() as int));
    }
    let scale: i64 = if frac_len == 1 {
        100
    } else if frac_len == 2 {
        10
    } else {
        1
    };
    Some(whole * 1000 + frac * scale)
}

/// Parse `s[from..to]` as a decimal temperature with an optional leading
/// minus sign, yielding milli-degrees.
fn parse_milli_window(s: &[u8], from: usize, to: usize) -> (r: Option<i64>)
    requires
        from <= to <= s@.len(),
    ensures
        r is Some <==> spec_parse_milli(s@.subrange(from as int, to as int)) is Some,
        r is Some ==> r->0 as int == spec_parse_milli(s@.subrange(from as int, to as int))->0,
{
    let ghost w = s@.subrange(from as int, to as int);
    if from < to && s[from] == 45 {
        proof {
            assert(w.skip(1) =~= s@.subrange(from as int + 1, to as int));
        }
        match parse_unsigned_milli_window(s, from + 1, to) {
            Some(v) => Some(-v),
            None => None,
        }
    } else {
        parse_unsigned_milli_window(s, from, to)
    }
}

/// Parse a whole byte string as a decimal temperature in milli-degrees.
pub fn parse_temp_milli(s: &[u8]) -> (r: Option<i64>)
    ensures
        r is Some <==> spec_parse_milli(s@) is Some,
        r is Some ==> r->0 as int == spec_parse_milli(s@)->0,
{
    proof {
        assert(s@.subrange(0, s@.len() as int) =~= s@);
    }
    parse_milli_window(s, 0, s.len())
}

/// What a pin argument is worth: a non-empty run of digits whose value fits
/// in `u64`; `None` for any other text.
pub open spec fn spec_parse_pin(s: Seq<u8>) -> Option<int> {
    if s.len() > 0 && all_digits(s) && digits_value(s) <= u64::MAX {
        Some(digits_value(s))
    } else {
        None
    }
}

/// Parse a whole byte string as an unsigned pin number.
pub fn parse_pin(s: &[u8]) -> (r: Option<u64>)
    ensures
        r is Some <==> spec_parse_pin(s@) is Some,
        r is Some ==> r->0 as int == spec_parse_pin(s@)->0,
{
    if s.len() == 0 {
        return None;
    }
    let mut acc: u128 = 0;
    let mut too_big = false;
    let mut i: usize = 0;
    while i < s.len()
        invariant
            i <= s@.len(),
            all_digits(s@.subrange(0, i as int)),
            !too_big ==> acc == digits_value(s@.subrange(0, i as int)) && acc <= u64::MAX,
            too_big ==> digits_value(s@.subrange(0, i as int)) > u64::MAX,
        decreases s@.len() - i,
    {
        let b = s[i];
        if b < 48 || b > 57 {
            proof {
                assert(!is_ascii_digit(s@[i as int]));
            }
            return None;
        }
        proof {
            assert(s@.subrange(0, i as int + 1).drop_last() =~= s@.subrange(0, i as int));
            assert(s@.subrange(0, i as int + 1).last() == s@[i as int]);
        }
        if !too_big {
            acc = acc * 10 + (b - 48) as u128;
            if acc > u64::MAX as u128 {
                too_big = true;
            }
        }
        i = i + 1;
    }
    proof {
        assert(s@.subrange(0, s@.len() as int) =~= s@);
    }
    if too_big {
        None
    } else {
        Some(acc as u64)
    }
}

/// What a sensor report such as `temp=48.3'C` is worth in milli-degrees:
/// the first five bytes and the last two are stripped, and what remains is
/// read as a decimal temperature; `None` for a report too short to strip.
pub open spec fn spec_extract_reading(s: Seq<u8>) -> Option<int> {
    if s.len() >= 7 {
        spec_parse_milli(s.subrange(5, s.len() - 2))
    } else {
        None
    }
}

/// Pull the temperature out of a textual sensor report, stripping the fixed
/// five-byte prefix and two-byte suffix.
pub fn extract_sensor_reading(report: &[u8]) -> (r: Option<i64>)
    ensures
        r is Some <==> spec_extract_reading(report@) is Some,
        r is Some ==> r->0 as int == spec_extract_reading(report@)->0,
{
    if report.len() < 7 {
        return None;
    }
    parse_milli_window(report, 5, report.len() - 2)
}

} // verus!
