//! Decimal parsing of metadata field values.
//!
//! Capture metadata arrives as text; numeric fields are read with a tolerant
//! policy: a value that is not a plain decimal numeral of the target width is
//! treated as absent and the field falls back to its documented default.

use vstd::prelude::*;

verus! {

/// `c` is an ASCII decimal digit.
pub open spec fn is_dec_digit(c: char) -> bool {
    48 <= c as u32 && c as u32 <= 57
}

/// The numeric value of a decimal digit.
pub open spec fn dec_digit_val(c: char) -> nat
    recommends
        is_dec_digit(c),
{
    (c as u32 - 48) as nat
}

/// Every character of `s` is a decimal digit.
pub open spec fn all_dec_digits(s: Seq<char>) -> bool {
    forall|i: int| 0 <= i < s.len() ==> is_dec_digit(#[trigger] s[i])
}

/// The value of `s` read as a decimal numeral.
pub open spec fn dec_val(s: Seq<char>) -> nat
    recommends
        all_dec_digits(s),
    decreases s.len(),
{
    if s.len() == 0 {
        0
    } else {
        dec_val(s.drop_last()) * 10 + dec_digit_val(s.last())
    }
}

/// `s` is a numeral this library accepts: non-empty and all digits.
pub open spec fn is_numeral(s: Seq<char>) -> bool {
    s.len() > 0 && all_dec_digits(s)
}

/// What parsing `s` at a given width yields: the value when `s` is a
/// numeral that fits below `bound`, absent otherwise.
pub open spec fn parsed_below(s: Seq<char>, bound: nat) -> Option<nat> {
    if is_numeral(s) && dec_val(s) <= bound {
        Some(dec_val(s))
    } else {
        None
    }
}

/// Extending a numeral on the right never shrinks its value.
proof fn lemma_dec_val_prefix(s: Seq<char>, i: int)
    requires
        0 <= i <= s.len(),
    ensures
        dec_val(s.take(i)) <= dec_val(s),
    decreases s.len() - i,
{
    if i < s.len() {
        lemma_dec_val_prefix(s, i + 1);
        assert(s.take(i + 1).drop_last() =~= s.take(i));
        assert(s.take(i + 1).last() == s[i]);
        assert(dec_val(s.take(i + 1)) == dec_val(s.take(i)) * 10 + dec_digit_val(s[i]));
    } else {
        assert(s.take(i) =~= s);
    }
}

/// One step of the accumulator: appending digit `c` multiplies by ten.
proof fn lemma_dec_val_step(s: Seq<char>, i: int)
    requires
        0 <= i < s.len(),
    ensures
        dec_val(s.take(i + 1)) == dec_val(s.take(i)) * 10 + dec_digit_val(s[i]),
{
    assert(s.take(i + 1).drop_last() =~= s.take(i));
    assert(s.take(i + 1).last() == s[i]);
}

/// The guard `acc <= (u64::MAX - d) / 10` is exactly the condition under
/// which `acc * 10 + d` still fits in a `u64`.
proof fn lemma_accumulate_fits(acc: u64, d: u64)
    requires
        d <= 9,
    ensures
        acc <= (u64::MAX - d) / 10 ==> acc * 10 + d <= u64::MAX,
        acc > (u64::MAX - d) / 10 ==> acc * 10 + d > u64::MAX,
{
    let m = (u64::MAX - d) as int;
    assert(acc <= m / 10 ==> acc * 10 + d <= u64::MAX) by (nonlinear_arith)
        requires
            m == u64::MAX - d,
            0 <= acc,
            0 <= d <= 9,
    ;
    assert(acc > m / 10 ==> acc * 10 + d > u64::MAX) by (nonlinear_arith)
        requires
            m == u64::MAX - d,
            0 <= acc,
            0 <= d <= 9,
    ;
}

/// Parse `s` as a decimal `u64`: the digits' value when `s` is non-empty,
/// all digits, and the value fits; absent otherwise.
pub fn parse_u64(s: &str) -> (r: Option<u64>)
    ensures
        r is Some <==> is_numeral(s@) && dec_val(s@) <= u64::MAX,
        r matches Some(v) ==> v == dec_val(s@),
{
    let n = s.unicode_len();
    if n == 0 {
        return None;
    }
    let mut acc: u64 = 0;
    let mut i: usize = 0;
    while i < n
        invariant
            0 <= i <= n,
            n == s@.len(),
            all_dec_digits(s@.take(i as int)),
            acc == dec_val(s@.take(i as int)),
        decreases n - i,
    {
        let c = s.get_char(i);
        let cu = c as u32;
        if cu < 48 || cu > 57 {
            return None;
        }
        let d: u64 = (cu - 48) as u64;
        proof {
            lemma_dec_val_step(s@, i as int);
            lemma_accumulate_fits(acc, d);
        }
        if acc > (u64::MAX - d) / 10 {
            // The prefix already overflows, so the whole numeral does.
            proof {
                lemma_dec_val_prefix(s@, i as int + 1);
            }
            return None;
        }
        acc = acc * 10 + d;
        i = i + 1;
        assert(s@.take(i as int).drop_last() =~= s@.take(i as int - 1));
    }
    proof {
        assert(s@.take(n as int) =~= s@);
    }
    Some(acc)
}

/// Parse `s` as a decimal `u32`, absent when the value does not fit.
pub fn parse_u32(s: &str) -> (r: Option<u32>)
    ensures
        r is Some <==> parsed_below(s@, u32::MAX as nat) is Some,
        r matches Some(v) ==> parsed_below(s@, u32::MAX as nat) == Some(v as nat),
{
    match parse_u64(s) {
        Some(v) => {
            if v <= u32::MAX as u64 {
                Some(v as u32)
            } else {
                None
            }
        },
        None => None,
    }
}

/// Parse `s` as a decimal `u8`, absent when the value does not fit.
pub fn parse_u8(s: &str) -> (r: Option<u8>)
    ensures
        r is Some <==> parsed_below(s@, u8::MAX as nat) is Some,
        r matches Some(v) ==> parsed_below(s@, u8::MAX as nat) == Some(v as nat),
{
    match parse_u64(s) {
        Some(v) => {
            if v <= u8::MAX as u64 {
                Some(v as u8)
            } else {
                None
            }
        },
        None => None,
    }
}

} // verus!
