//! The tuning engine: a base note and a pitch-bend range turn each cell of
//! the tone table into a MIDI note number and a 14-bit pitch bend.
//!
//! All arithmetic is on integers, so a tuning is reproducible bit for bit.

use vstd::prelude::*;
use crate::tones::{tone, tone_at, DIAMOND_SIZE};

verus! {

/// The highest MIDI note number.
pub const MAX_NOTE: u8 = 127;

/// The pitch bend that leaves a note where it is.
pub const BEND_CENTRE: u16 = 8192;

/// The highest 14-bit pitch bend.
pub const MAX_BEND: u16 = 16383;

/// The largest pitch-bend range, in semitones.
pub const MAX_BEND_RANGE: u8 = 127;

/// A microtonal note as MIDI carries it: the key, and the bend that moves the
/// key's pitch to the intended one.
#[derive(Clone, Copy, Debug, PartialEq, Eq, Structural)]
pub struct Note {
    pub midi_note: u8,
    pub bend: u16,
}

impl Note {
    /// Both numbers fit their MIDI data bytes.
    pub open spec fn wf(self) -> bool {
        self.midi_note <= MAX_NOTE && self.bend <= MAX_BEND
    }

    /// The lowest key with a bend of zero: what a voice holds before it is
    /// given a note.
    pub fn empty() -> (note: Note)
        ensures
            note == (Note { midi_note: 0, bend: 0 }),
            note.wf(),
    {
        Note { midi_note: 0, bend: 0 }
    }

    pub fn new(midi_note: u8, bend: u16) -> (note: Note)
        ensures
            note == (Note { midi_note, bend }),
    {
        Note { midi_note, bend }
    }

    pub fn pitch_bend(&self) -> (bend: u16)
        ensures
            bend == self.bend,
    {
        self.bend
    }

    pub fn midi_note(&self) -> (midi_note: u8)
        ensures
            midi_note == self.midi_note,
    {
        self.midi_note
    }
}

/// The key for a tone `semitones` above the base note. A sum past the top of
/// the MIDI range stays at the top key: it saturates and never wraps.
pub open spec fn tuned_number(base_note: u8, semitones: u8) -> u8 {
    if base_note + semitones > MAX_NOTE {
        MAX_NOTE
    } else {
        (base_note + semitones) as u8
    }
}

/// The bend for a deviation of `cents` / 2^32 of a semitone when the full
/// upward bend spans `range` semitones: the deviation in units of 1 / 8192 of
/// the range, rounded down, above the centre.
pub open spec fn tuned_bend(cents: u32, range: u8) -> u16
    recommends
        range >= 1,
{
    (cents as int / (range as int * 524288) + BEND_CENTRE) as u16
}

/// The note of cell `(row, col)` under a base note and a bend range.
pub open spec fn tuned_note(base_note: u8, range: u8, row: int, col: int) -> Note
    recommends
        0 <= row < 8,
        0 <= col < 8,
        range >= 1,
{
    let tone = tone_at(row, col);
    Note {
        midi_note: tuned_number(base_note, tone.semitones),
        bend: tuned_bend(tone.cents, range),
    }
}

/// A bend never leaves the upper half of the 14-bit range.
pub proof fn lemma_tuned_bend_bounds(cents: u32, range: u8)
    requires
        range >= 1,
    ensures
        BEND_CENTRE <= tuned_bend(cents, range) <= MAX_BEND,
        tuned_bend(cents, range) == cents as int / (range as int * 524288) + BEND_CENTRE,
{
    let d = range as int * 524288;
    let c = cents as int;
    assert(0 <= c / d <= 8191) by (nonlinear_arith)
        requires
            d >= 524288,
            0 <= c < 8192 * 524288,
    ;
}

/// Every tuned note fits its MIDI data bytes.
pub proof fn lemma_tuned_note_wf(base_note: u8, range: u8, row: int, col: int)
    requires
        range >= 1,
        0 <= row < 8,
        0 <= col < 8,
    ensures
        tuned_note(base_note, range, row, col).wf(),
{
    lemma_tuned_bend_bounds(tone_at(row, col).cents, range);
}

/// The 8 x 8 tonal diamond with its current tuning.
pub struct Diamond {
    base_note: u8,
    pitch_bend_range: u8,
    notes: [[Note; 8]; 8],
}

impl Diamond {
    pub closed spec fn spec_base_note(&self) -> u8 {
        self.base_note
    }

    pub closed spec fn spec_pitch_bend_range(&self) -> u8 {
        self.pitch_bend_range
    }

    /// The cached note of a cell.
    pub closed spec fn spec_note(&self, row: int, col: int) -> Note
        recommends
            0 <= row < 8,
            0 <= col < 8,
    {
        self.notes[row][col]
    }

    /// The base note is a MIDI key and the bend range is 1 to 127 semitones.
    pub open spec fn params_valid(&self) -> bool {
        &&& self.spec_base_note() <= MAX_NOTE
        &&& 1 <= self.spec_pitch_bend_range() <= MAX_BEND_RANGE
    }

    /// The cache holds, in every cell, the note that the two parameters and
    /// the tone table give.
    pub open spec fn is_tuned(&self) -> bool {
        forall|row: int, col: int|
            0 <= row < 8 && 0 <= col < 8 ==> #[trigger] self.spec_note(row, col) == tuned_note(
                self.spec_base_note(),
                self.spec_pitch_bend_range(),
                row,
                col,
            )
    }

    pub open spec fn wf(&self) -> bool {
        self.params_valid() && self.is_tuned()
    }

    /// A diamond on base note 24 with a bend range of one semitone, tuned.
    pub fn new() -> (diamond: Diamond)
        ensures
            diamond.wf(),
            diamond.spec_base_note() == 24,
            diamond.spec_pitch_bend_range() == 1,
    {
        let mut diamond = Diamond {
            base_note: 24,
            pitch_bend_range: 1,
            notes: [[Note::empty(); 8]; 8],
        };
        diamond.update_notes();
        diamond
    }

    /// Moves the diamond to another base note and retunes every cell.
    pub fn set_base_note(&mut self, note: u8)
        requires
            note <= MAX_NOTE,
            old(self).params_valid(),
        ensures
            final(self).wf(),
            final(self).spec_base_note() == note,
            final(self).spec_pitch_bend_range() == old(self).spec_pitch_bend_range(),
    {
        self.base_note = note;
        self.update_notes()
    }

    #[verifier::when_used_as_spec(spec_base_note)]
    pub fn base_note(&self) -> (note: u8)
        ensures
            note == self.spec_base_note(),
    {
        self.base_note
    }

    #[verifier::when_used_as_spec(spec_pitch_bend_range)]
    pub fn pitch_bend_range(&self) -> (range: u8)
        ensures
            range == self.spec_pitch_bend_range(),
    {
        self.pitch_bend_range
    }

    /// Sets the bend range in semitones and retunes every cell. A larger
    /// range leaves fewer steps for the same deviation.
    pub fn set_pitch_bend_range(&mut self, range: u8)
        requires
            1 <= range <= MAX_BEND_RANGE,
            old(self).params_valid(),
        ensures
            final(self).wf(),
            final(self).spec_base_note() == old(self).spec_base_note(),
            final(self).spec_pitch_bend_range() == range,
    {
        self.pitch_bend_range = range;
        self.update_notes()
    }

    /// Recomputes the whole cache from the two parameters. On a diamond that
    /// is already tuned this changes nothing.
    pub fn update_notes(&mut self)
        requires
            old(self).params_valid(),
        ensures
            final(self).wf(),
            final(self).spec_base_note() == old(self).spec_base_note(),
            final(self).spec_pitch_bend_range() == old(self).spec_pitch_bend_range(),
            old(self).is_tuned() ==> *final(self) == *old(self),
    {
        let base_note = self.base_note;
        let range = self.pitch_bend_range;
        let divisor: u32 = (range as u32) << 19;
        proof {
            let r: u32 = range as u32;
            assert(r <= 127 ==> (r << 19) == r * 524288) by (bit_vector);
        }
        for i in 0..DIAMOND_SIZE
            invariant
                self.base_note == base_note,
                self.pitch_bend_range == range,
                base_note <= MAX_NOTE,
                1 <= range <= MAX_BEND_RANGE,
                divisor == range as int * 524288,
                forall|row: int, col: int|
                    0 <= row < i && 0 <= col < 8 ==> #[trigger] self.notes[row][col] == tuned_note(
                        base_note,
                        range,
                        row,
                        col,
                    ),
                forall|row: int, col: int|
                    i <= row < 8 && 0 <= col < 8 ==> #[trigger] self.notes[row][col] == old(
                        self,
                    ).notes[row][col],
        {
            for j in 0..DIAMOND_SIZE
                invariant
                    i < 8,
                    self.base_note == base_note,
                    self.pitch_bend_range == range,
                    base_note <= MAX_NOTE,
                    1 <= range <= MAX_BEND_RANGE,
                    divisor == range as int * 524288,
                    forall|row: int, col: int|
                        0 <= row < i && 0 <= col < 8 ==> #[trigger] self.notes[row][col]
                            == tuned_note(base_note, range, row, col),
                    forall|col: int|
                        0 <= col < j ==> #[trigger] self.notes[i as int][col] == tuned_note(
                            base_note,
                            range,
                            i as int,
                            col,
                        ),
                    forall|col: int|
                        j <= col < 8 ==> #[trigger] self.notes[i as int][col] == old(
                            self,
                        ).notes[i as int][col],
                    forall|row: int, col: int|
                        i < row < 8 && 0 <= col < 8 ==> #[trigger] self.notes[row][col] == old(
                            self,
                        ).notes[row][col],
            {
                let tone = tone(i, j);
                let sum: u8 = base_note + tone.semitones;
                let midi_note: u8 = if sum > MAX_NOTE {
                    MAX_NOTE
                } else {
                    sum
                };
                proof {
                    lemma_tuned_bend_bounds(tone.cents, range);
                }
                let bend: u16 = (tone.cents / divisor) as u16 + BEND_CENTRE;
                self.notes[i][j] = Note { midi_note, bend };
            }
        }
        proof {
            if old(self).is_tuned() {
                assert forall|row: int| 0 <= row < 8 implies #[trigger] self.notes[row] == old(
                    self,
                ).notes[row] by {
                    assert forall|col: int| 0 <= col < 8 implies #[trigger] self.notes[row][col]
                        == old(self).notes[row][col] by {
                        assert(old(self).spec_note(row, col) == tuned_note(
                            base_note,
                            range,
                            row,
                            col,
                        ));
                    }
                }
                assert(self.notes =~= old(self).notes);
            }
        }
    }

    /// The note of a cell, from the cache.
    pub fn get_note(&self, row: usize, col: usize) -> (note: Note)
        requires
            row < DIAMOND_SIZE,
            col < DIAMOND_SIZE,
        ensures
            note == self.spec_note(row as int, col as int),
            self.wf() ==> note == tuned_note(
                self.spec_base_note(),
                self.spec_pitch_bend_range(),
                row as int,
                col as int,
            ) && note.wf(),
    {
        proof {
            if self.wf() {
                assert(self.spec_note(row as int, col as int) == self.notes[row as int][col as int]);
                lemma_tuned_note_wf(self.base_note, self.pitch_bend_range, row as int, col as int);
            }
        }
        self.notes[row][col]
    }

    /// Retuning is a function of the base note and the bend range alone: two
    /// tuned diamonds with the same parameters hold the same note in every
    /// cell, however each of them got there.
    pub proof fn lemma_tuning_deterministic(a: Diamond, b: Diamond, row: int, col: int)
        requires
            a.wf(),
            b.wf(),
            a.spec_base_note() == b.spec_base_note(),
            a.spec_pitch_bend_range() == b.spec_pitch_bend_range(),
            0 <= row < 8,
            0 <= col < 8,
        ensures
            a.spec_note(row, col) == b.spec_note(row, col),
    {
    }

    /// On the diagonal every tuning holds the base note itself, unbent.
    pub proof fn lemma_unison(d: Diamond, i: int)
        requires
            d.wf(),
            0 <= i < 8,
        ensures
            d.spec_note(i, i) == (Note { midi_note: d.spec_base_note(), bend: BEND_CENTRE }),
    {
        let r = d.spec_pitch_bend_range() as int * 524288;
        assert(0int / r == 0) by (nonlinear_arith)
            requires
                r > 0,
        ;
    }
}

} // verus!
