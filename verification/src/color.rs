use vstd::prelude::*;
use vstd::string::StringSliceAdditionalSpecFns;

verus! {

/// A colour in four parts of eight bits each: red, green, blue and alpha.
#[derive(Debug, Clone, Copy, PartialEq, Eq, Structural)]
pub struct Rgba {
    pub r: u8,
    pub g: u8,
    pub b: u8,
    pub a: u8,
}

/// The value of a hexadecimal digit given as a byte of text.
pub open spec fn digit_value(byte: u8) -> Option<u8> {
    if 0x30 <= byte <= 0x39 {
        Some((byte - 0x30) as u8)
    } else if 0x61 <= byte <= 0x66 {
        Some((byte - 0x61 + 10) as u8)
    } else if 0x41 <= byte <= 0x46 {
        Some((byte - 0x41 + 10) as u8)
    } else {
        None
    }
}

/// The number that two bytes of text write in hexadecimal: two digits, or
/// a plus sign and one digit.
pub open spec fn pair_value(high: u8, low: u8) -> Option<u8> {
    match digit_value(low) {
        Some(ones) => if high == 0x2B {
            Some(ones)
        } else {
            match digit_value(high) {
                Some(sixteens) => Some((sixteens * 16 + ones) as u8),
                None => None,
            }
        },
        None => None,
    }
}

/// The number written by the two bytes at `at`, or `fallback` where they
/// write none.
pub open spec fn part_value(bytes: Seq<u8>, at: int, fallback: u8) -> u8 {
    match pair_value(bytes[at], bytes[at + 1]) {
        Some(value) => value,
        None => fallback,
    }
}

/// A text without the number signs at its start.
pub open spec fn unmarked(bytes: Seq<u8>) -> Seq<u8>
    decreases bytes.len(),
{
    if bytes.len() > 0 && bytes.first() == 0x23 {
        unmarked(bytes.drop_first())
    } else {
        bytes
    }
}

/// The colour that a text writes, given by its bytes. After any number
/// signs at the start, six bytes write red, green and blue, and eight
/// bytes write alpha as well. A part that is not written well is 0, but
/// alpha is 255 then, as it is where it is not written. A text of
/// another length is opaque black.
pub open spec fn color_of(bytes: Seq<u8>) -> Rgba {
    let digits = unmarked(bytes);
    if digits.len() == 6 {
        Rgba {
            r: part_value(digits, 0, 0),
            g: part_value(digits, 2, 0),
            b: part_value(digits, 4, 0),
            a: 255,
        }
    } else if digits.len() == 8 {
        Rgba {
            r: part_value(digits, 0, 0),
            g: part_value(digits, 2, 0),
            b: part_value(digits, 4, 0),
            a: part_value(digits, 6, 255),
        }
    } else {
        Rgba { r: 0, g: 0, b: 0, a: 255 }
    }
}

fn digit(byte: u8) -> (value: Option<u8>)
    ensures
        value == digit_value(byte),
{
    if 0x30 <= byte && byte <= 0x39 {
        Some(byte - 0x30)
    } else if 0x61 <= byte && byte <= 0x66 {
        Some(byte - 0x61 + 10)
    } else if 0x41 <= byte && byte <= 0x46 {
        Some(byte - 0x41 + 10)
    } else {
        None
    }
}

fn part(bytes: &[u8], at: usize, fallback: u8) -> (value: u8)
    requires
        at + 1 < bytes@.len(),
    ensures
        value == part_value(bytes@, at as int, fallback),
{
    let high = bytes[at];
    let low = bytes[at + 1];
    match digit(low) {
        Some(ones) => if high == 0x2B {
            ones
        } else {
            match digit(high) {
                Some(sixteens) => sixteens * 16 + ones,
                None => fallback,
            }
        },
        None => fallback,
    }
}

/// Reads a colour written as `#RRGGBB` or `#RRGGBBAA`.
pub fn parse_color(hex: &str) -> (color: Rgba)
    ensures
        color == color_of(hex.spec_bytes()),
{
    let bytes = hex.as_bytes();
    let mut from: usize = 0;
    assert(bytes@.subrange(0, bytes@.len() as int) == bytes@);
    while from < bytes.len() && bytes[from] == 0x23
        invariant
            from <= bytes@.len(),
            unmarked(bytes@) == unmarked(bytes@.subrange(from as int, bytes@.len() as int)),
        decreases bytes@.len() - from,
    {
        proof {
            let rest = bytes@.subrange(from as int, bytes@.len() as int);
            assert(rest.first() == bytes@[from as int]);
            assert(rest.drop_first() == bytes@.subrange(from + 1, bytes@.len() as int));
        }
        from += 1;
    }
    let ghost digits = bytes@.subrange(from as int, bytes@.len() as int);
    proof {
        if from < bytes@.len() {
            assert(digits.first() == bytes@[from as int]);
        }
        assert(unmarked(bytes@) == digits);
    }
    let count = bytes.len() - from;
    if count == 6 {
        let color = Rgba {
            r: part(bytes, from, 0),
            g: part(bytes, from + 2, 0),
            b: part(bytes, from + 4, 0),
            a: 255,
        };
        assert(color == color_of(bytes@));
        color
    } else if count == 8 {
        let color = Rgba {
            r: part(bytes, from, 0),
            g: part(bytes, from + 2, 0),
            b: part(bytes, from + 4, 0),
            a: part(bytes, from + 6, 255),
        };
        assert(color == color_of(bytes@));
        color
    } else {
        Rgba { r: 0, g: 0, b: 0, a: 255 }
    }
}

} // verus!
