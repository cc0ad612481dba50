//! The colours of tags.

use vstd::prelude::*;
use vstd::utf8::encode_utf8;

verus! {

/// The colour of a tag whose own colour cannot be read.
pub const DEFAULT_TAG_COLOR: u32 = 0x7ecba3ff;

/// The bytes without the number signs that they begin with.
pub open spec fn without_signs(bytes: Seq<u8>) -> Seq<u8>
    decreases bytes.len(),
{
    if bytes.len() > 0 && bytes[0] == 0x23 {
        without_signs(bytes.drop_first())
    } else {
        bytes
    }
}

/// The value of a hexadecimal digit.
pub open spec fn digit(b: u8) -> Option<u32> {
    if 0x30 <= b <= 0x39 {
        Some((b - 0x30) as u32)
    } else if 0x41 <= b <= 0x46 {
        Some((b - 0x41 + 10) as u32)
    } else if 0x61 <= b <= 0x66 {
        Some((b - 0x61 + 10) as u32)
    } else {
        None
    }
}

/// The number that two bytes stand for: two hexadecimal digits, or one with a
/// plus sign before it.
pub open spec fn channel(high: u8, low: u8) -> Option<u32> {
    match (digit(high), digit(low)) {
        (Some(h), Some(l)) => Some((16 * h + l) as u32),
        (None, Some(l)) => if high == 0x2b {
            Some(l)
        } else {
            None
        },
        _ => None,
    }
}

/// The number that two bytes stand for, or another one.
pub open spec fn channel_or(high: u8, low: u8, fallback: u32) -> u32 {
    match channel(high, low) {
        Some(value) => value,
        None => fallback,
    }
}

/// An opaque colour.
pub open spec fn opaque_color(red: u32, green: u32, blue: u32) -> u32 {
    (red * 0x1000000 + green * 0x10000 + blue * 0x100 + 0xff) as u32
}

/// The colour that a text stands for: six hexadecimal digits after any number of
/// number signs, with a default for the whole and for each channel.
pub open spec fn tag_color(text: Seq<char>) -> u32 {
    let b = without_signs(encode_utf8(text));
    if b.len() == 6 {
        opaque_color(
            channel_or(b[0], b[1], 0x7e),
            channel_or(b[2], b[3], 0xcb),
            channel_or(b[4], b[5], 0xa3),
        )
    } else {
        DEFAULT_TAG_COLOR
    }
}

/// Whether a character begins at this byte.
pub open spec fn begins_character(b: u8) -> bool {
    !(0x80 <= b <= 0xbf)
}

/// Whether each of the three channels of a colour consists of whole characters.
pub open spec fn channels_are_whole(text: Seq<char>) -> bool {
    let b = without_signs(encode_utf8(text));
    b.len() == 6 ==> begins_character(b[2]) && begins_character(b[4])
}

/// Finds the value of a hexadecimal digit.
fn read_digit(b: u8) -> (r: Option<u32>)
    ensures
        r == digit(b),
        r matches Some(d) ==> d < 16,
{
    if 0x30 <= b && b <= 0x39 {
        Some((b - 0x30) as u32)
    } else if 0x41 <= b && b <= 0x46 {
        Some((b - 0x41 + 10) as u32)
    } else if 0x61 <= b && b <= 0x66 {
        Some((b - 0x61 + 10) as u32)
    } else {
        None
    }
}

/// Finds the number that two bytes stand for, or another one.
fn read_channel(high: u8, low: u8, fallback: u32) -> (r: u32)
    requires
        fallback < 256,
    ensures
        r == channel_or(high, low, fallback),
        r < 256,
{
    match (read_digit(high), read_digit(low)) {
        (Some(h), Some(l)) => 16 * h + l,
        (None, Some(l)) => {
            if high == 0x2b {
                l
            } else {
                fallback
            }
        },
        _ => fallback,
    }
}

/// Reads a tag's colour, such as `#EF4444`.
pub fn parse_tag_color(hex: &str) -> (r: u32)
    requires
        channels_are_whole(hex@),
    ensures
        r == tag_color(hex@),
{
    let bytes = hex.as_bytes();
    let mut from: usize = 0;
    assert(bytes@.skip(0) =~= bytes@);
    while from < bytes.len() && bytes[from] == 0x23
        invariant
            0 <= from <= bytes.len(),
            without_signs(bytes@) == without_signs(bytes@.skip(from as int)),
        decreases bytes.len() - from,
    {
        assert(bytes@.skip(from as int).drop_first() =~= bytes@.skip(from + 1));
        from += 1;
    }
    let ghost rest = bytes@.skip(from as int);
    assert(without_signs(bytes@) == rest);
    if bytes.len() - from == 6 {
        let red = read_channel(bytes[from], bytes[from + 1], 0x7e);
        let green = read_channel(bytes[from + 2], bytes[from + 3], 0xcb);
        let blue = read_channel(bytes[from + 4], bytes[from + 5], 0xa3);
        red * 0x1000000 + green * 0x10000 + blue * 0x100 + 0xff
    } else {
        DEFAULT_TAG_COLOR
    }
}

/// A number sign before a colour makes no difference.
pub proof fn law_number_sign_is_optional(bytes: Seq<u8>)
    ensures
        without_signs(seq![0x23u8] + bytes) == without_signs(bytes),
{
    assert((seq![0x23u8] + bytes).drop_first() =~= bytes);
}

/// Two hexadecimal digits stand for every value of a channel, so that every
/// opaque colour can be written.
pub proof fn law_every_channel_can_be_written(value: u32)
    requires
        value < 256,
    ensures
        exists|high: u8, low: u8| #[trigger] channel(high, low) == Some(value),
{
    let h = value / 16;
    let l = value % 16;
    let high: u8 = if h < 10 {
        (0x30 + h) as u8
    } else {
        (0x41 + h - 10) as u8
    };
    let low: u8 = if l < 10 {
        (0x30 + l) as u8
    } else {
        (0x41 + l - 10) as u8
    };
    assert(digit(high) == Some(h));
    assert(digit(low) == Some(l));
    assert(channel(high, low) == Some(value));
}

} // verus!
