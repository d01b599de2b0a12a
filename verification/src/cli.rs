//! Filename-derived capture settings and the display filter.
//!
//! When the caller does not name them, the device address and the session id
//! come from the input filename: a capture named `<stem>.<addr>.<ext>`
//! carries its device address between the last two dots, and the session id
//! is the filename with its extension cut off. The display filter handed to
//! the capture parser restricts packets to that device address, optionally
//! to those carrying payload data.

use vstd::prelude::*;

use crate::digits::parsed_below;

verus! {

/// The index of the last occurrence of `c` in `s`, if any.
pub open spec fn rfind(s: Seq<char>, c: char) -> Option<int>
    decreases s.len(),
{
    if s.len() == 0 {
        None
    } else if s.last() == c {
        Some(s.len() - 1)
    } else {
        rfind(s.drop_last(), c)
    }
}

/// The session id the filename yields: everything before the last dot, or
/// the whole filename when it has none.
pub open spec fn session_id_of(s: Seq<char>) -> Seq<char> {
    match rfind(s, '.') {
        Some(i) => s.take(i),
        None => s,
    }
}

/// The device address the filename yields: the decimal segment between the
/// last two dots, absent when there are not two dots or the segment is not
/// a byte-sized numeral.
pub open spec fn device_address_of(s: Seq<char>) -> Option<u8> {
    match rfind(s, '.') {
        Some(i) => match rfind(s.take(i), '.') {
            Some(j) => match parsed_below(s.take(i).skip(j + 1), u8::MAX as nat) {
                Some(n) => Some(n as u8),
                None => None,
            },
            None => None,
        },
        None => None,
    }
}

/// Find the last occurrence of `c` in `s`.
fn rfind_char(s: &str, c: char) -> (r: Option<usize>)
    ensures
        r is Some <==> rfind(s@, c) is Some,
        r matches Some(i) ==> rfind(s@, c) == Some(i as int) && i < s@.len() && s@[i as int] == c,
{
    let n = s.unicode_len();
    let mut i: usize = n;
    proof {
        assert(s@.take(n as int) =~= s@);
    }
    while i > 0
        invariant
            0 <= i <= n,
            n == s@.len(),
            rfind(s@, c) == rfind(s@.take(i as int), c),
        decreases i,
    {
        let j = i - 1;
        let ch = s.get_char(j);
        proof {
            assert(s@.take(i as int).last() == s@[j as int]);
            assert(s@.take(i as int).drop_last() =~= s@.take(j as int));
        }
        if ch == c {
            return Some(j);
        }
        i = j;
    }
    None
}

/// Derive the session id from the input filename.
pub fn derive_session_id(filename: &str) -> (r: String)
    ensures
        r@ == session_id_of(filename@),
{
    match rfind_char(filename, '.') {
        Some(i) => {
            let stem = filename.substring_char(0, i);
            proof {
                assert(stem@ =~= filename@.take(i as int));
            }
            String::from_str(stem)
        },
        None => String::from_str(filename),
    }
}

/// Derive the device address from the input filename, absent when the
/// `<stem>.<addr>.<ext>` pattern does not match.
pub fn detect_device_address(filename: &str) -> (r: Option<u8>)
    ensures
        r == device_address_of(filename@),
{
    let i = match rfind_char(filename, '.') {
        Some(i) => i,
        None => {
            return None;
        },
    };
    let stem = filename.substring_char(0, i);
    proof {
        assert(stem@ =~= filename@.take(i as int));
    }
    let j = match rfind_char(stem, '.') {
        Some(j) => j,
        None => {
            return None;
        },
    };
    let segment = stem.substring_char(j + 1, i);
    proof {
        assert(segment@ =~= filename@.take(i as int).skip(j + 1));
    }
    crate::digits::parse_u8(segment)
}

/// The decimal digit below ten as a character.
pub open spec fn digit_char(v: int) -> char
    recommends
        0 <= v < 10,
{
    if v == 0 {
        '0'
    } else if v == 1 {
        '1'
    } else if v == 2 {
        '2'
    } else if v == 3 {
        '3'
    } else if v == 4 {
        '4'
    } else if v == 5 {
        '5'
    } else if v == 6 {
        '6'
    } else if v == 7 {
        '7'
    } else if v == 8 {
        '8'
    } else {
        '9'
    }
}

/// The decimal numeral of `n`, without leading zeros.
pub open spec fn dec_digits(n: int) -> Seq<char>
    recommends
        n >= 0,
    decreases n,
{
    if n < 10 {
        seq![digit_char(n)]
    } else {
        dec_digits(n / 10) + seq![digit_char(n % 10)]
    }
}

fn digit_char_exec(d: u8) -> (c: char)
    requires
        d < 10,
    ensures
        c == digit_char(d as int),
{
    if d == 0 {
        '0'
    } else if d == 1 {
        '1'
    } else if d == 2 {
        '2'
    } else if d == 3 {
        '3'
    } else if d == 4 {
        '4'
    } else if d == 5 {
        '5'
    } else if d == 6 {
        '6'
    } else if d == 7 {
        '7'
    } else if d == 8 {
        '8'
    } else {
        '9'
    }
}

/// Render a device address as its decimal numeral.
fn u8_to_decimal(n: u8) -> (r: String)
    ensures
        r@ == dec_digits(n as int),
{
    let mut out = String::new();
    if n >= 100 {
        proof {
            assert(n as int / 10 / 10 == n as int / 100 && 10 <= n as int / 10 && 0 < n as int
                / 100 < 10) by (nonlinear_arith)
                requires
                    100 <= n < 256,
            ;
            assert(dec_digits(n as int) == dec_digits(n as int / 10) + seq![
                digit_char(n as int % 10),
            ]);
            assert(dec_digits(n as int / 10) == dec_digits(n as int / 10 / 10) + seq![
                digit_char(n as int / 10 % 10),
            ]);
            assert(dec_digits(n as int / 100) == seq![digit_char(n as int / 100)]);
        }
        out.push(digit_char_exec(n / 100));
        out.push(digit_char_exec((n / 10) % 10));
        out.push(digit_char_exec(n % 10));
        proof {
            assert(out@ =~= dec_digits(n as int));
        }
    } else if n >= 10 {
        proof {
            assert(0 < n as int / 10 < 10) by (nonlinear_arith)
                requires
                    10 <= n < 100,
            ;
            assert(dec_digits(n as int) == dec_digits(n as int / 10) + seq![
                digit_char(n as int % 10),
            ]);
            assert(dec_digits(n as int / 10) == seq![digit_char(n as int / 10)]);
        }
        out.push(digit_char_exec(n / 10));
        out.push(digit_char_exec(n % 10));
        proof {
            assert(out@ =~= dec_digits(n as int));
        }
    } else {
        out.push(digit_char_exec(n));
        proof {
            assert(out@ =~= dec_digits(n as int));
        }
    }
    out
}

/// The display filter handed to the capture parser: restrict to the device
/// address, and to packets with payload data when asked.
pub open spec fn display_filter_spec(device_address: u8, payload_only: bool) -> Seq<char> {
    "usb.device_address == "@ + dec_digits(device_address as int) + if payload_only {
        " && usb.capdata"@
    } else {
        Seq::empty()
    }
}

/// Build the display filter for one capture run.
pub fn build_display_filter(device_address: u8, payload_only: bool) -> (r: String)
    ensures
        r@ == display_filter_spec(device_address, payload_only),
{
    let mut filter = String::from_str("usb.device_address == ");
    let addr = u8_to_decimal(device_address);
    filter.append(addr.as_str());
    if payload_only {
        filter.append(" && usb.capdata");
    }
    proof {
        assert(filter@ =~= display_filter_spec(device_address, payload_only));
    }
    filter
}

} // verus!
