use vstd::prelude::*;
use crate::weekly::text::{trim_start_char, trim_start_matches_char};

verus! {

/// Whether a byte is an ASCII hexadecimal digit.
pub open spec fn is_hex_byte(b: u8) -> bool {
    (48 <= b && b <= 57) || (65 <= b && b <= 70) || (97 <= b && b <= 102)
}

/// The value of an ASCII hexadecimal digit.
pub open spec fn hex_byte_value(b: u8) -> int {
    if 48 <= b && b <= 57 {
        b - 48
    } else if 65 <= b && b <= 70 {
        b - 55
    } else {
        b - 87
    }
}

/// What `u8::from_str_radix(_, 16)` reads from two bytes: a leading `+`
/// before one digit, or two digits; nothing otherwise.
pub open spec fn radix16_pair(a: u8, b: u8) -> Option<u8> {
    if a == 43 {
        if is_hex_byte(b) {
            Some(hex_byte_value(b) as u8)
        } else {
            None
        }
    } else if is_hex_byte(a) && is_hex_byte(b) {
        Some((16 * hex_byte_value(a) + hex_byte_value(b)) as u8)
    } else {
        None
    }
}

/// A colour channel from two bytes, 255 when they do not read as hexadecimal.
pub open spec fn channel_value(a: u8, b: u8) -> u8 {
    match radix16_pair(a, b) {
        Some(v) => v,
        None => 255,
    }
}

/// The UTF-8 bytes of a colour text without its leading `#`s.
pub open spec fn channel_bytes(hex: Seq<char>) -> Seq<u8> {
    vstd::utf8::encode_utf8(trim_start_char(hex, '#'))
}

/// Whether the two-byte pieces of a colour text are whole characters, so that
/// it can be cut into them.
pub open spec fn pieces_are_whole(hex: Seq<char>) -> bool {
    let b = channel_bytes(hex);
    b.len() >= 6 ==> {
        &&& vstd::utf8::is_char_boundary(b, 2)
        &&& vstd::utf8::is_char_boundary(b, 4)
        &&& vstd::utf8::is_char_boundary(b, 6)
    }
}

/// The red, green and blue channels of a colour text: white when it is shorter
/// than six bytes after its leading `#`s, otherwise each pair of bytes read as
/// hexadecimal, or 255 where a pair does not read.
pub open spec fn rgb_of(hex: Seq<char>) -> (u8, u8, u8) {
    let b = channel_bytes(hex);
    if b.len() < 6 {
        (255, 255, 255)
    } else {
        (channel_value(b[0], b[1]), channel_value(b[2], b[3]), channel_value(b[4], b[5]))
    }
}

fn hex_byte(b: u8) -> (r: Option<u8>)
    ensures
        r matches Some(v) <==> is_hex_byte(b),
        r matches Some(v) ==> v == hex_byte_value(b),
{
    if 48 <= b && b <= 57 {
        Some(b - 48)
    } else if 65 <= b && b <= 70 {
        Some(b - 55)
    } else if 97 <= b && b <= 102 {
        Some(b - 87)
    } else {
        None
    }
}

/// A colour channel from two bytes.
pub fn channel(a: u8, b: u8) -> (r: u8)
    ensures
        r == channel_value(a, b),
{
    if a == 43 {
        match hex_byte(b) {
            Some(v) => v,
            None => 255,
        }
    } else {
        match (hex_byte(a), hex_byte(b)) {
            (Some(x), Some(y)) => 16 * x + y,
            _ => 255,
        }
    }
}

/// The red, green and blue channels of a `#rrggbb` colour text.
pub fn hex_channels(hex: &str) -> (r: (u8, u8, u8))
    requires
        pieces_are_whole(hex@),
    ensures
        r == rgb_of(hex@),
{
    let t = trim_start_matches_char(hex, '#');
    let bytes = t.as_bytes();
    if bytes.len() < 6 {
        return (255, 255, 255);
    }
    (channel(bytes[0], bytes[1]), channel(bytes[2], bytes[3]), channel(bytes[4], bytes[5]))
}

} // verus!
