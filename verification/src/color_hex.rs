//! Reading the `#rrggbb` colours that an HTML colour input produces.
use vstd::prelude::*;
use vstd::utf8::is_continuation_byte;
use vstd::string::StringSliceAdditionalSpecFns;

verus! {

/// The value of hexadecimal digit `c` (either case), or `None`.
pub open spec fn hex_digit_value(c: u8) -> Option<u8> {
    if 0x30 <= c <= 0x39 {
        Some((c - 0x30) as u8)
    } else if 0x61 <= c <= 0x66 {
        Some((c - 0x61 + 10) as u8)
    } else if 0x41 <= c <= 0x46 {
        Some((c - 0x41 + 10) as u8)
    } else {
        None
    }
}

/// What `u8::from_str_radix(s, 16)` gives for the two-byte string `c0 c1`: a
/// leading `+` followed by one digit, or two digits; anything else is an error.
pub open spec fn hex_byte_value(c0: u8, c1: u8) -> Option<u8> {
    if c0 == 0x2b {
        hex_digit_value(c1)
    } else {
        match (hex_digit_value(c0), hex_digit_value(c1)) {
            (Some(hi), Some(lo)) => Some((hi * 16 + lo) as u8),
            _ => None,
        }
    }
}

/// The red, green and blue bytes of `#rrggbb`, given as UTF-8 bytes, or `None`
/// when it is not of that shape.
pub open spec fn html_hex_color(s: Seq<u8>) -> Option<Seq<u8>> {
    if s.len() != 7 || s[0] != 0x23 {
        None
    } else {
        match (hex_byte_value(s[1], s[2]), hex_byte_value(s[3], s[4]), hex_byte_value(s[5], s[6])) {
            (Some(r), Some(g), Some(b)) => Some(seq![r, g, b]),
            _ => None,
        }
    }
}

fn hex_digit(c: u8) -> (v: Option<u8>)
    ensures
        v == hex_digit_value(c),
{
    if c >= 0x30 && c <= 0x39 {
        Some(c - 0x30)
    } else if c >= 0x61 && c <= 0x66 {
        Some(c - 0x61 + 10)
    } else if c >= 0x41 && c <= 0x46 {
        Some(c - 0x41 + 10)
    } else {
        None
    }
}

fn hex_byte(c0: u8, c1: u8) -> (v: Option<u8>)
    ensures
        v == hex_byte_value(c0, c1),
{
    if c0 == 0x2b {
        return hex_digit(c1);
    }
    match (hex_digit(c0), hex_digit(c1)) {
        (Some(hi), Some(lo)) => Some(hi * 16 + lo),
        _ => None,
    }
}

/// Parses a `#rrggbb` colour into its red, green and blue bytes. Each pair is
/// read as `u8::from_str_radix` reads it, so a pair may also be `+` and one
/// digit.
pub fn parse_html_hex_color(value: &str) -> (rgb: Option<[u8; 3]>)
    requires
        value.spec_bytes().len() == 7 && value.spec_bytes()[0] == 0x23 ==> {
            &&& !is_continuation_byte(value.spec_bytes()[3])
            &&& hex_byte_value(value.spec_bytes()[1], value.spec_bytes()[2]) is Some
                ==> !is_continuation_byte(value.spec_bytes()[5])
        },
    ensures
        rgb is Some <==> html_hex_color(value.spec_bytes()) is Some,
        rgb matches Some(c) ==> c@ == html_hex_color(value.spec_bytes())->0,
{
    let bytes = value.as_bytes();
    if bytes.len() != 7 || bytes[0] != 0x23 {
        return None;
    }
    let r = match hex_byte(bytes[1], bytes[2]) {
        Some(v) => v,
        None => return None,
    };
    let g = match hex_byte(bytes[3], bytes[4]) {
        Some(v) => v,
        None => return None,
    };
    let b = match hex_byte(bytes[5], bytes[6]) {
        Some(v) => v,
        None => return None,
    };
    let rgb = [r, g, b];
    assert(rgb@ =~= seq![r, g, b]);
    Some(rgb)
}

/// The lowercase hexadecimal digit for `v < 16`.
pub open spec fn lower_hex_digit(v: int) -> u8 {
    if v < 10 {
        (0x30 + v) as u8
    } else {
        (0x61 + v - 10) as u8
    }
}

/// The `#rrggbb` text, in lowercase, of a colour.
pub open spec fn lower_hex_color(r: u8, g: u8, b: u8) -> Seq<u8> {
    seq![
        0x23u8,
        lower_hex_digit(r as int / 16),
        lower_hex_digit(r as int % 16),
        lower_hex_digit(g as int / 16),
        lower_hex_digit(g as int % 16),
        lower_hex_digit(b as int / 16),
        lower_hex_digit(b as int % 16),
    ]
}

/// Reading back the `#rrggbb` text of any colour gives that colour.
pub proof fn lemma_hex_color_round_trip(r: u8, g: u8, b: u8)
    ensures
        html_hex_color(lower_hex_color(r, g, b)) == Some(seq![r, g, b]),
{
    let s = lower_hex_color(r, g, b);
    assert(hex_byte_value(s[1], s[2]) == Some(r));
    assert(hex_byte_value(s[3], s[4]) == Some(g));
    assert(hex_byte_value(s[5], s[6]) == Some(b));
}

/// The uppercase hexadecimal digit for `v < 16`.
pub open spec fn upper_hex_digit(v: int) -> u8 {
    if v < 10 {
        (0x30 + v) as u8
    } else {
        (0x41 + v - 10) as u8
    }
}

/// The `#RRGGBB` text, in uppercase, of a colour.
pub open spec fn upper_hex_color(r: u8, g: u8, b: u8) -> Seq<u8> {
    seq![
        0x23u8,
        upper_hex_digit(r as int / 16),
        upper_hex_digit(r as int % 16),
        upper_hex_digit(g as int / 16),
        upper_hex_digit(g as int % 16),
        upper_hex_digit(b as int / 16),
        upper_hex_digit(b as int % 16),
    ]
}

/// Reading back the uppercase `#RRGGBB` text of any colour gives that colour.
pub proof fn lemma_upper_hex_color_round_trip(r: u8, g: u8, b: u8)
    ensures
        html_hex_color(upper_hex_color(r, g, b)) == Some(seq![r, g, b]),
{
    let s = upper_hex_color(r, g, b);
    assert(hex_byte_value(s[1], s[2]) == Some(r));
    assert(hex_byte_value(s[3], s[4]) == Some(g));
    assert(hex_byte_value(s[5], s[6]) == Some(b));
}

/// A hexadecimal digit is `0`-`9`, `a`-`f` or `A`-`F`, read as its value; a
/// letter of either case means the same value; nothing else is a digit.
pub proof fn lemma_hex_digit_values(c: u8)
    ensures
        0x30 <= c <= 0x39 ==> hex_digit_value(c) == Some((c - 0x30) as u8),
        0x61 <= c <= 0x66 ==> hex_digit_value(c) == Some((c - 0x57) as u8),
        0x41 <= c <= 0x46 ==> hex_digit_value(c) == Some((c - 0x37) as u8),
        0x41 <= c <= 0x46 ==> hex_digit_value(c) == hex_digit_value((c + 0x20) as u8),
        !(0x30 <= c <= 0x39 || 0x61 <= c <= 0x66 || 0x41 <= c <= 0x46) ==> hex_digit_value(c)
            is None,
{
}

/// A two-byte pair is read as `u8::from_str_radix(_, 16)` reads it: two digits
/// give `16 * high + low`, a `+` and one digit give that digit, and anything
/// else is refused.
pub proof fn lemma_hex_byte_values(c0: u8, c1: u8)
    ensures
        c0 != 0x2b && hex_digit_value(c0) is Some && hex_digit_value(c1) is Some
            ==> hex_byte_value(c0, c1) == Some(
            (hex_digit_value(c0)->0 * 16 + hex_digit_value(c1)->0) as u8,
        ),
        c0 == 0x2b ==> hex_byte_value(c0, c1) == hex_digit_value(c1),
        c0 != 0x2b && (hex_digit_value(c0) is None || hex_digit_value(c1) is None)
            ==> hex_byte_value(c0, c1) is None,
{
}

/// Only text of seven bytes that starts with `#` is read as a colour.
pub proof fn lemma_hex_color_shape(s: Seq<u8>)
    ensures
        html_hex_color(s) is Some ==> s.len() == 7 && s[0] == 0x23,
        html_hex_color(s) matches Some(c) ==> c.len() == 3,
{
}

} // verus!
