//! The payload codec: colon-stripping and hexadecimal text.
//!
//! A captured payload arrives as hex text with colon byte separators. The
//! canonical form strips the colons; the byte sequence is the decoding of the
//! canonical form, and re-encoding those bytes yields canonical lowercase hex.

use vstd::prelude::*;

verus! {

/// `c` is a hexadecimal digit, of either case.
pub open spec fn is_hex_digit(c: char) -> bool {
    (48 <= c as u32 && c as u32 <= 57)  // '0'..='9'
    || (97 <= c as u32 && c as u32 <= 102)  // 'a'..='f'
    || (65 <= c as u32 && c as u32 <= 70)  // 'A'..='F'
}

/// The numeric value of a hexadecimal digit.
pub open spec fn hex_digit_val(c: char) -> int
    recommends
        is_hex_digit(c),
{
    if 48 <= c as u32 && c as u32 <= 57 {
        c as int - 48
    } else if 97 <= c as u32 && c as u32 <= 102 {
        c as int - 87
    } else {
        c as int - 55
    }
}

/// `s` decodes as hex: even length, every character a hex digit.
/// The empty string is valid and decodes to no bytes.
pub open spec fn valid_hex(s: Seq<char>) -> bool {
    s.len() % 2 == 0 && forall|i: int| 0 <= i < s.len() ==> is_hex_digit(#[trigger] s[i])
}

/// The bytes that `s` decodes to, two digits per byte.
pub open spec fn hex_decoded(s: Seq<char>) -> Seq<u8>
    recommends
        valid_hex(s),
    decreases s.len(),
{
    if s.len() < 2 {
        Seq::empty()
    } else {
        seq![(hex_digit_val(s[0]) * 16 + hex_digit_val(s[1])) as u8] + hex_decoded(s.skip(2))
    }
}

/// The lowercase hex digit for a value below sixteen.
pub open spec fn lower_hex_digit(v: int) -> char
    recommends
        0 <= v < 16,
{
    if v == 0 {
        '0'
    } else if v == 1 {
        '1'
    } else if v == 2 {
        '2'
    } else if v == 3 {
        '3'
    } else if v == 4 {
        '4'
    } else if v == 5 {
        '5'
    } else if v == 6 {
        '6'
    } else if v == 7 {
        '7'
    } else if v == 8 {
        '8'
    } else if v == 9 {
        '9'
    } else if v == 10 {
        'a'
    } else if v == 11 {
        'b'
    } else if v == 12 {
        'c'
    } else if v == 13 {
        'd'
    } else if v == 14 {
        'e'
    } else {
        'f'
    }
}

/// The lowercase hex text of `b`, two digits per byte.
pub open spec fn hex_encoded(b: Seq<u8>) -> Seq<char>
    decreases b.len(),
{
    if b.len() == 0 {
        Seq::empty()
    } else {
        seq![lower_hex_digit(b[0] as int / 16), lower_hex_digit(b[0] as int % 16)] + hex_encoded(
            b.skip(1),
        )
    }
}

/// `c` with an uppercase hex digit folded to lowercase; any other
/// character is kept as it is.
pub open spec fn to_lower_hex(c: char) -> char {
    if c == 'A' {
        'a'
    } else if c == 'B' {
        'b'
    } else if c == 'C' {
        'c'
    } else if c == 'D' {
        'd'
    } else if c == 'E' {
        'e'
    } else if c == 'F' {
        'f'
    } else {
        c
    }
}

/// `s` with every hex digit folded to lowercase.
pub open spec fn lower_hex_of(s: Seq<char>) -> Seq<char> {
    s.map_values(|c: char| to_lower_hex(c))
}

/// `s` with every colon separator removed.
pub open spec fn without_colons(s: Seq<char>) -> Seq<char>
    decreases s.len(),
{
    if s.len() == 0 {
        Seq::empty()
    } else if s[0] == ':' {
        without_colons(s.skip(1))
    } else {
        seq![s[0]] + without_colons(s.skip(1))
    }
}

/// Decoding a hex digit and re-encoding its value gives the digit back,
/// folded to lowercase.
proof fn lemma_hex_digit_round_trip(c: char)
    requires
        is_hex_digit(c),
    ensures
        0 <= hex_digit_val(c) < 16,
        lower_hex_digit(hex_digit_val(c)) == to_lower_hex(c),
{
}

/// Hex payload round trip: decoding a valid hex string and re-encoding the
/// bytes yields the same string with its digits folded to lowercase.
pub proof fn lemma_hex_round_trip(s: Seq<char>)
    requires
        valid_hex(s),
    ensures
        hex_encoded(hex_decoded(s)) == lower_hex_of(s),
    decreases s.len(),
{
    if s.len() == 0 {
        assert(hex_encoded(hex_decoded(s)) =~= lower_hex_of(s));
    } else {
        let rest = s.skip(2);
        assert(valid_hex(rest)) by {
            assert(rest.len() % 2 == 0);
            assert(forall|i: int| 0 <= i < rest.len() ==> is_hex_digit(#[trigger] rest[i])) by {
                assert(forall|i: int|
                    0 <= i < rest.len() ==> rest[i] == s[i + 2] && is_hex_digit(#[trigger] s[i
                        + 2]));
            }
        }
        lemma_hex_round_trip(rest);
        let h = s[0];
        let l = s[1];
        lemma_hex_digit_round_trip(h);
        lemma_hex_digit_round_trip(l);
        let b = (hex_digit_val(h) * 16 + hex_digit_val(l)) as u8;
        assert(b as int / 16 == hex_digit_val(h) && b as int % 16 == hex_digit_val(l)) by (nonlinear_arith)
            requires
                0 <= hex_digit_val(h) < 16,
                0 <= hex_digit_val(l) < 16,
                b == hex_digit_val(h) * 16 + hex_digit_val(l),
        ;
        assert(hex_decoded(s) == seq![b] + hex_decoded(rest));
        assert(hex_decoded(s)[0] == b);
        assert(hex_decoded(s).skip(1) =~= hex_decoded(rest));
        assert(hex_encoded(hex_decoded(s)) == seq![to_lower_hex(h), to_lower_hex(l)]
            + hex_encoded(hex_decoded(rest)));
        assert(hex_encoded(hex_decoded(s)) =~= lower_hex_of(s));
    }
}

/// Relies on `hex::decode`: it succeeds exactly on even-length strings of
/// hex digits (of either case) and yields one byte per digit pair; the
/// empty string decodes to no bytes.
#[verifier::external_body]
pub(crate) fn hex_decode(s: &str) -> (r: Result<Vec<u8>, hex::FromHexError>)
    ensures
        r is Ok <==> valid_hex(s@),
        r matches Ok(b) ==> b@ == hex_decoded(s@),
{
    hex::decode(s)
}

/// Relies on `hex::encode`: two lowercase digits for each byte, in order.
#[verifier::external_body]
pub(crate) fn hex_encode(b: &Vec<u8>) -> (r: String)
    ensures
        r@ == hex_encoded(b@),
{
    hex::encode(b)
}

/// The error that `hex::decode` reports; this library maps it to its own
/// error taxonomy without reading it.
#[verifier::external_type_specification]
#[verifier::external_body]
pub struct ExFromHexError(hex::FromHexError);

/// Relies on `String::push`: it appends the character to the string.
pub assume_specification[ String::push ](s: &mut String, c: char)
    ensures
        final (s)@ == old(s)@.push(c),
;

/// Remove every colon separator from `s`.
pub fn strip_colons(s: &str) -> (r: String)
    ensures
        r@ == without_colons(s@),
{
    let n = s.unicode_len();
    let mut out = String::new();
    let mut i: usize = 0;
    proof {
        assert(s@.skip(0) =~= s@);
        assert(out@ + without_colons(s@) =~= without_colons(s@));
    }
    while i < n
        invariant
            0 <= i <= n,
            n == s@.len(),
            out@ + without_colons(s@.skip(i as int)) == without_colons(s@),
        decreases n - i,
    {
        let c = s.get_char(i);
        proof {
            assert(s@.skip(i as int)[0] == s@[i as int]);
            assert(s@.skip(i as int).skip(1) =~= s@.skip(i as int + 1));
        }
        if c != ':' {
            out.push(c);
            proof {
                assert(out@ + without_colons(s@.skip(i as int + 1)) =~= without_colons(s@));
            }
        }
        i = i + 1;
    }
    proof {
        assert(s@.skip(n as int) =~= Seq::<char>::empty());
        assert(out@ + without_colons(s@.skip(n as int)) =~= out@);
    }
    out
}

} // verus!
