//! Pad colours: a small palette keyed by harmonic limit, and the RGB triple
//! that the LED surface takes.

use vstd::prelude::*;

verus! {

/// One LED colour, eight bits per component.
#[derive(Clone, Copy, Debug, PartialEq, Eq, Structural)]
pub struct Rgb {
    pub r: u8,
    pub g: u8,
    pub b: u8,
}

impl Rgb {
    pub fn new(r: u8, g: u8, b: u8) -> (rgb: Rgb)
        ensures
            rgb == (Rgb { r, g, b }),
    {
        Rgb { r, g, b }
    }

    /// The components of a packed `0xRRGGBB` code, as arithmetic on the code.
    pub open spec fn spec_from_code(code: u32) -> Rgb {
        Rgb {
            r: ((code as int / 65536) % 256) as u8,
            g: ((code as int / 256) % 256) as u8,
            b: (code as int % 256) as u8,
        }
    }

    /// Unpacks a `0xRRGGBB` code. Bits above the low 24 are ignored.
    pub fn from_code(code: u32) -> (rgb: Rgb)
        ensures
            rgb == Rgb::spec_from_code(code),
    {
        let r: u8 = ((code >> 16) & 0xff) as u8;
        let g: u8 = ((code >> 8) & 0xff) as u8;
        let b: u8 = (code & 0xff) as u8;
        proof {
            assert(((code >> 16) & 0xff) == (code / 65536) % 256) by (bit_vector);
            assert(((code >> 8) & 0xff) == (code / 256) % 256) by (bit_vector);
            assert((code & 0xff) == code % 256) by (bit_vector);
        }
        Rgb { r, g, b }
    }
}

/// The palette. Each harmonic limit of the tone table is shown in one of these.
#[derive(Clone, Copy, Debug, PartialEq, Eq, Structural)]
pub enum Colour {
    Black,
    Red,
    Orange,
    Yellow,
    Green,
    Blue,
    Purple,
    Magenta,
}

impl Colour {
    /// The packed `0xRRGGBB` code of the colour.
    pub open spec fn spec_code(self) -> u32 {
        match self {
            Colour::Black => 0x0f0f0f,
            Colour::Red => 0xff0000,
            Colour::Orange => 0xffa500,
            Colour::Yellow => 0xffff00,
            Colour::Green => 0x008000,
            Colour::Blue => 0x0000ff,
            Colour::Purple => 0x4b0082,
            Colour::Magenta => 0xee82ee,
        }
    }

    pub fn code(self) -> (code: u32)
        ensures
            code == self.spec_code(),
    {
        match self {
            Colour::Black => 0x0f0f0f,
            Colour::Red => 0xff0000,
            Colour::Orange => 0xffa500,
            Colour::Yellow => 0xffff00,
            Colour::Green => 0x008000,
            Colour::Blue => 0x0000ff,
            Colour::Purple => 0x4b0082,
            Colour::Magenta => 0xee82ee,
        }
    }

    /// The colour as an RGB triple, component by component.
    pub open spec fn spec_rgb(self) -> Rgb {
        match self {
            Colour::Black => Rgb { r: 0x0f, g: 0x0f, b: 0x0f },
            Colour::Red => Rgb { r: 0xff, g: 0x00, b: 0x00 },
            Colour::Orange => Rgb { r: 0xff, g: 0xa5, b: 0x00 },
            Colour::Yellow => Rgb { r: 0xff, g: 0xff, b: 0x00 },
            Colour::Green => Rgb { r: 0x00, g: 0x80, b: 0x00 },
            Colour::Blue => Rgb { r: 0x00, g: 0x00, b: 0xff },
            Colour::Purple => Rgb { r: 0x4b, g: 0x00, b: 0x82 },
            Colour::Magenta => Rgb { r: 0xee, g: 0x82, b: 0xee },
        }
    }

    pub fn rgb(self) -> (rgb: Rgb)
        ensures
            rgb == self.spec_rgb(),
    {
        Rgb::from_code(self.code())
    }
}

/// The palette entry for each harmonic limit from 0 to 15. Only odd limits
/// occur in the tone table; even ones are black.
pub const COLOURS: [Colour; 16] = [
    Colour::Black,
    Colour::Black,
    Colour::Black,
    Colour::Red,
    Colour::Black,
    Colour::Orange,
    Colour::Black,
    Colour::Yellow,
    Colour::Black,
    Colour::Green,
    Colour::Black,
    Colour::Blue,
    Colour::Black,
    Colour::Purple,
    Colour::Black,
    Colour::Magenta,
];

/// The colour in which a harmonic limit is shown.
pub open spec fn spec_limit_colour(limit: u8) -> Colour
    recommends
        limit < 16,
{
    COLOURS[limit as int]
}

pub fn limit_colour(limit: u8) -> (colour: Colour)
    requires
        limit < 16,
    ensures
        colour == spec_limit_colour(limit),
{
    COLOURS[limit as usize]
}

} // verus!
