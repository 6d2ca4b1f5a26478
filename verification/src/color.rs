//! Colours written as hexadecimal strings, such as `#2e3440` or `#2e3440ff`.

use crate::text::chars_of;
use vstd::prelude::*;

verus! {

/// A colour with red, green, blue and alpha channels.
#[derive(Clone, Copy, Debug, PartialEq, Eq, Structural)]
pub struct Rgba {
    pub r: u8,
    pub g: u8,
    pub b: u8,
    pub a: u8,
}

/// The value of a hexadecimal digit, in either case; `None` for any other character.
pub open spec fn hex_digit_value(c: char) -> Option<int> {
    if '0' <= c && c <= '9' {
        Some(c as int - '0' as int)
    } else if 'a' <= c && c <= 'f' {
        Some(c as int - 'a' as int + 10)
    } else if 'A' <= c && c <= 'F' {
        Some(c as int - 'A' as int + 10)
    } else {
        None
    }
}

/// The value of one two-character channel.
///
/// A channel is two hexadecimal digits, or a `+` sign followed by one digit:
/// the sign is accepted because channels are read as signed-notation integers
/// in base 16, where a leading plus is allowed.
pub open spec fn channel_value(hi: char, lo: char) -> Option<int> {
    match hex_digit_value(lo) {
        None => None,
        Some(l) => if hi == '+' {
            Some(l)
        } else {
            match hex_digit_value(hi) {
                None => None,
                Some(h) => Some(16 * h + l),
            }
        },
    }
}

/// `s` without its leading `#` characters, however many there are.
pub open spec fn strip_hashes(s: Seq<char>) -> Seq<char>
    decreases s.len(),
{
    if s.len() > 0 && s[0] == '#' {
        strip_hashes(s.skip(1))
    } else {
        s
    }
}

/// The colour that the digits `h` (with no leading `#`) denote, if any.
///
/// Six digits give an opaque colour; eight digits give the alpha channel too.
/// A channel value is at most 255, so the casts to a byte lose nothing.
pub open spec fn digits_color(h: Seq<char>) -> Option<Rgba> {
    if h.len() == 6 || h.len() == 8 {
        match (channel_value(h[0], h[1]), channel_value(h[2], h[3]), channel_value(h[4], h[5])) {
            (Some(r), Some(g), Some(b)) => if h.len() == 6 {
                Some(Rgba { r: r as u8, g: g as u8, b: b as u8, a: 255 })
            } else {
                match channel_value(h[6], h[7]) {
                    Some(a) => Some(Rgba { r: r as u8, g: g as u8, b: b as u8, a: a as u8 }),
                    None => None,
                }
            },
            _ => None,
        }
    } else {
        None
    }
}

/// The colour that the string `s` denotes, or `None` if `s` is malformed.
pub open spec fn hex_color(s: Seq<char>) -> Option<Rgba> {
    digits_color(strip_hashes(s))
}

fn hex_digit(c: char) -> (r: Option<u8>)
    ensures
        match r {
            Some(d) => hex_digit_value(c) == Some(d as int),
            None => hex_digit_value(c) is None,
        },
{
    if '0' <= c && c <= '9' {
        Some((c as u32 - '0' as u32) as u8)
    } else if 'a' <= c && c <= 'f' {
        Some((c as u32 - 'a' as u32 + 10) as u8)
    } else if 'A' <= c && c <= 'F' {
        Some((c as u32 - 'A' as u32 + 10) as u8)
    } else {
        None
    }
}

fn channel(hi: char, lo: char) -> (r: Option<u8>)
    ensures
        match r {
            Some(v) => channel_value(hi, lo) == Some(v as int),
            None => channel_value(hi, lo) is None,
        },
{
    match hex_digit(lo) {
        None => None,
        Some(l) => {
            if hi == '+' {
                Some(l)
            } else {
                match hex_digit(hi) {
                    None => None,
                    Some(h) => Some(16 * h + l),
                }
            }
        },
    }
}

/// Parses a colour, accepting any string.
///
/// Returns the colour that `s` denotes, and `None` exactly when `s` is malformed.
pub fn parse_hex_color(s: &str) -> (r: Option<Rgba>)
    ensures
        r == hex_color(s@),
{
    let v = chars_of(s);
    let n = v.len();
    let mut i: usize = 0;
    assert(v@.skip(0) =~= v@);
    while i < n && v[i] == '#'
        invariant
            i <= n,
            n == v@.len(),
            strip_hashes(v@) == strip_hashes(v@.skip(i as int)),
        decreases n - i,
    {
        assert(v@.skip(i as int).skip(1) =~= v@.skip(i as int + 1));
        i += 1;
    }
    let len = n - i;
    if len != 6 && len != 8 {
        return None;
    }
    let r = match channel(v[i], v[i + 1]) {
        Some(x) => x,
        None => { return None; },
    };
    let g = match channel(v[i + 2], v[i + 3]) {
        Some(x) => x,
        None => { return None; },
    };
    let b = match channel(v[i + 4], v[i + 5]) {
        Some(x) => x,
        None => { return None; },
    };
    if len == 6 {
        return Some(Rgba { r, g, b, a: 255 });
    }
    match channel(v[i + 6], v[i + 7]) {
        Some(a) => Some(Rgba { r, g, b, a }),
        None => None,
    }
}

/// Whether `s` denotes a colour.
pub fn is_hex_color(s: &str) -> (b: bool)
    ensures
        b == hex_color(s@).is_some(),
{
    parse_hex_color(s).is_some()
}

/// The colour that a well-formed string denotes.
pub fn color_from_hex(s: &str) -> (c: Rgba)
    requires
        hex_color(s@) is Some,
    ensures
        hex_color(s@) == Some(c),
{
    match parse_hex_color(s) {
        Some(c) => c,
        None => vstd::pervasive::unreached(),
    }
}

} // verus!
