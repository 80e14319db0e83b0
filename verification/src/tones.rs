//! The tone table: an 8 x 8 just-intonation lattice over the odd identities
//! 1, 9, 5, 11, 3, 13, 7, 15. Cell `(row, col)` is the interval from the
//! identity of the row up to the identity of the column, folded into one
//! octave: the nearest equal-tempered semitone below it and what is left,
//! as a fraction of a semitone in 32-bit fixed point.

use vstd::prelude::*;
use crate::colour::{limit_colour, spec_limit_colour, Rgb};

verus! {

/// Rows and columns of the lattice.
pub const DIAMOND_SIZE: usize = 8;

/// The harmonic limit of each interval.
pub const LIMITS: [[u8; 8]; 8] = [
    [1, 9, 5, 11, 3, 13, 7, 15],
    [9, 1, 9, 11, 3, 13, 9, 5],
    [5, 9, 1, 11, 5, 13, 7, 3],
    [11, 11, 11, 1, 11, 13, 11, 15],
    [3, 3, 5, 11, 1, 13, 7, 5],
    [13, 13, 13, 13, 13, 1, 13, 15],
    [7, 9, 7, 11, 7, 13, 1, 15],
    [15, 5, 3, 15, 5, 15, 15, 1],
];

/// Whole equal-tempered semitones in each interval.
pub const SEMITONES: [[u8; 8]; 8] = [
    [0, 2, 3, 5, 7, 8, 9, 10],
    [9, 0, 1, 3, 4, 6, 7, 8],
    [8, 10, 0, 1, 3, 4, 5, 7],
    [6, 8, 10, 0, 1, 2, 4, 5],
    [4, 7, 8, 10, 0, 1, 2, 3],
    [3, 5, 7, 9, 10, 0, 1, 2],
    [2, 4, 6, 7, 9, 10, 0, 1],
    [1, 3, 4, 6, 8, 9, 10, 0],
];

/// What each interval exceeds its whole semitones by: a fraction of one
/// semitone, scaled by 2^32.
pub const CENTS: [[u32; 8]; 8] = [
    [0x00000000, 0x0a02756f, 0xdcf68e36, 0x835fba09, 0x05013ab7, 0x67c0355a, 0xb031befe, 0xe1f7c8ee],
    [0xf5fd8a90, 0x00000000, 0xd2f418c6, 0x795d4499, 0xfafec548, 0x5dbdbfeb, 0xa62f498e, 0xd7f5537e],
    [0x230971c9, 0x2d0be739, 0x00000000, 0xa6692bd3, 0x280aac81, 0x8ac9a724, 0xd33b30c7, 0x05013ab7],
    [0x7ca045f6, 0x86a2bb66, 0x5996d42c, 0x00000000, 0x81a180ae, 0xe4607b51, 0x2cd204f4, 0x5e980ee4],
    [0xfafec548, 0x05013ab7, 0xd7f5537e, 0x7e5e7f51, 0x00000000, 0x62befaa3, 0xab308446, 0xdcf68e36],
    [0x983fcaa5, 0xa2424014, 0x753658db, 0x1b9f84ae, 0x9d41055c, 0x00000000, 0x487189a3, 0x7a379393],
    [0x4fce4101, 0x59d0b671, 0x2cc4cf38, 0xd32dfb0b, 0x54cf7bb9, 0xb78e765c, 0x00000000, 0x31c609f0],
    [0x1e083711, 0x280aac81, 0xfafec548, 0xa167f11b, 0x230971c9, 0x85c86c6c, 0xce39f60f, 0x00000000],
];

/// One precomputed just-intonation interval.
#[derive(Clone, Copy, Debug, PartialEq, Eq, Structural)]
pub struct Tone {
    pub limit: u8,
    pub semitones: u8,
    pub cents: u32,
    pub rgb: Rgb,
}

impl Tone {
    /// The tone with these numbers, shown in the colour of its limit.
    pub open spec fn spec_new(limit: u8, semitones: u8, cents: u32) -> Tone {
        Tone { limit, semitones, cents, rgb: spec_limit_colour(limit).spec_rgb() }
    }

    /// A tone of the lattice: an odd limit up to 15, less than an octave of
    /// semitones, and the colour that belongs to the limit.
    pub open spec fn wf(self) -> bool {
        &&& 1 <= self.limit <= 15
        &&& self.limit % 2 == 1
        &&& self.semitones <= 11
        &&& self.rgb == spec_limit_colour(self.limit).spec_rgb()
    }

    /// The interval of a tone against itself.
    pub open spec fn is_unison(self) -> bool {
        self.limit == 1 && self.semitones == 0 && self.cents == 0
    }

    pub fn new(limit: u8, semitones: u8, cents: u32) -> (tone: Tone)
        requires
            limit < 16,
        ensures
            tone == Tone::spec_new(limit, semitones, cents),
    {
        Tone { limit, semitones, cents, rgb: limit_colour(limit).rgb() }
    }

    pub fn limit(&self) -> (limit: u8)
        ensures
            limit == self.limit,
    {
        self.limit
    }

    pub fn semitones(&self) -> (semitones: u8)
        ensures
            semitones == self.semitones,
    {
        self.semitones
    }

    pub fn cents(&self) -> (cents: u32)
        ensures
            cents == self.cents,
    {
        self.cents
    }

    pub fn rgb(&self) -> (rgb: Rgb)
        ensures
            rgb == self.rgb,
    {
        self.rgb
    }
}

/// The tone in cell `(row, col)` of the lattice.
pub open spec fn tone_at(row: int, col: int) -> Tone
    recommends
        0 <= row < 8,
        0 <= col < 8,
{
    Tone::spec_new(LIMITS[row][col], SEMITONES[row][col], CENTS[row][col])
}

pub fn tone(row: usize, col: usize) -> (tone: Tone)
    requires
        row < DIAMOND_SIZE,
        col < DIAMOND_SIZE,
    ensures
        tone == tone_at(row as int, col as int),
        tone.wf(),
        row == col ==> tone.is_unison(),
{
    Tone::new(LIMITS[row][col], SEMITONES[row][col], CENTS[row][col])
}

/// Every cell of the lattice is a well-formed tone, the diagonal holds the
/// unison, and no other cell has limit 1.
pub proof fn lemma_tone_table(row: int, col: int)
    requires
        0 <= row < 8,
        0 <= col < 8,
    ensures
        tone_at(row, col).wf(),
        row == col <==> tone_at(row, col).limit == 1,
        row == col ==> tone_at(row, col).is_unison(),
{
}

} // verus!
