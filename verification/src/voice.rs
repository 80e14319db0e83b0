//! One voice of the pool: the note it plays, the pad that plays it and the
//! MIDI channel it sounds on.

use vstd::prelude::*;
use crate::colour::Rgb;
use crate::diamond::Note;
use crate::message::{
    MidiMessage, CC_NON_REGISTERED_PARAMETER_NUMBER_MSB, MAX_CHANNEL, MAX_DATA,
};
use crate::tones::{tone, tone_at, DIAMOND_SIZE};

verus! {

/// A voice. Channel 0 means that no channel is assigned.
#[derive(Clone, Copy, Debug, PartialEq, Eq, Structural)]
pub struct Voice {
    pub note: Note,
    pub row: u8,
    pub col: u8,
    pub channel: u8,
    pub is_taken: bool,
}

impl Voice {
    /// The note fits MIDI, the pad is on the grid and the channel is 0 or a
    /// MIDI channel.
    pub open spec fn wf(self) -> bool {
        &&& self.note.wf()
        &&& self.row < DIAMOND_SIZE
        &&& self.col < DIAMOND_SIZE
        &&& self.channel <= MAX_CHANNEL
    }

    /// The voice has a channel and plays nothing.
    pub open spec fn spec_can_take(&self) -> bool {
        self.channel != 0 && !self.is_taken
    }

    /// The voice is held by pad `(row, col)`.
    pub open spec fn held_at(self, row: u8, col: u8) -> bool {
        self.row == row && self.col == col && self.is_taken
    }

    pub open spec fn with_channel(self, channel: u8) -> Voice {
        Voice { channel, ..self }
    }

    pub open spec fn with_note(self, note: Note) -> Voice {
        Voice { note, ..self }
    }

    pub open spec fn taken_at(self, row: u8, col: u8) -> Voice {
        Voice { is_taken: true, row, col, ..self }
    }

    pub open spec fn released(self) -> Voice {
        Voice { is_taken: false, ..self }
    }

    /// What starts the voice's note: the bend, then the note-on.
    pub open spec fn spec_note_on_messages(self, velocity: u8) -> Seq<MidiMessage> {
        seq![
            MidiMessage::PitchBendChange { channel: self.channel, bend: self.note.bend },
            MidiMessage::NoteOn { channel: self.channel, note: self.note.midi_note, velocity },
        ]
    }

    /// What ends the voice's note.
    pub open spec fn spec_note_off_message(self, velocity: u8) -> MidiMessage {
        MidiMessage::NoteOff { channel: self.channel, note: self.note.midi_note, velocity }
    }

    /// An unassigned voice at pad `(0, 0)` with the empty note.
    pub open spec fn fresh() -> Voice {
        Voice { note: Note { midi_note: 0, bend: 0 }, row: 0, col: 0, channel: 0, is_taken: false }
    }

    pub fn new() -> (voice: Voice)
        ensures
            voice == Voice::fresh(),
            voice.wf(),
    {
        Voice { note: Note::empty(), row: 0, col: 0, channel: 0, is_taken: false }
    }

    #[verifier::when_used_as_spec(spec_can_take)]
    pub fn can_take(&self) -> (free: bool)
        ensures
            free == self.spec_can_take(),
    {
        self.channel != 0 && !self.is_taken
    }

    pub fn set_channel(&mut self, channel: u8) -> (voice: &mut Self)
        ensures
            *voice == old(self).with_channel(channel),
            *final(self) == *final(voice),
    {
        self.channel = channel;
        self
    }

    /// Marks the voice as playing and stamps it with the pad.
    pub fn take(&mut self, row: u8, col: u8) -> (voice: &mut Self)
        ensures
            *voice == old(self).taken_at(row, col),
            *final(self) == *final(voice),
    {
        self.is_taken = true;
        self.row = row;
        self.col = col;
        self
    }

    /// Marks the voice as silent. Channel and pad stay as they were.
    pub fn release(&mut self) -> (voice: &mut Self)
        ensures
            *voice == old(self).released(),
            *final(self) == *final(voice),
    {
        self.is_taken = false;
        self
    }

    pub fn set_note(&mut self, note: Note) -> (voice: &mut Self)
        ensures
            *voice == old(self).with_note(note),
            *final(self) == *final(voice),
    {
        self.note = note;
        self
    }

    /// The colour of the voice's pad in the tone table.
    pub fn rgb(&self) -> (rgb: Rgb)
        requires
            self.row < DIAMOND_SIZE,
            self.col < DIAMOND_SIZE,
        ensures
            rgb == tone_at(self.row as int, self.col as int).rgb,
    {
        tone(self.row as usize, self.col as usize).rgb()
    }

    /// The message that sets the bend range, in whole semitones, on the
    /// voice's own channel. A voice without a channel has none.
    pub fn pitch_bend_range_message(&self, pitch_bend_range: u8) -> (message: Option<MidiMessage>)
        requires
            self.channel <= MAX_CHANNEL,
            pitch_bend_range <= MAX_DATA,
        ensures
            message == (if self.channel == 0 {
                None
            } else {
                Some(
                    MidiMessage::ControlChange {
                        channel: self.channel,
                        control: CC_NON_REGISTERED_PARAMETER_NUMBER_MSB,
                        value: pitch_bend_range,
                    },
                )
            }),
            message matches Some(m) ==> m.wf(),
    {
        match self.channel {
            0 => None,
            _ => Some(
                MidiMessage::ControlChange {
                    channel: self.channel,
                    control: CC_NON_REGISTERED_PARAMETER_NUMBER_MSB,
                    value: pitch_bend_range,
                },
            ),
        }
    }

    /// What starts the voice's note: the bend first, then the note-on, both
    /// on the voice's channel. In this order the note sounds at its tuned
    /// pitch from the start.
    pub fn note_on_messages(&self, velocity: u8) -> (messages: [MidiMessage; 2])
        requires
            1 <= self.channel <= MAX_CHANNEL,
            self.note.wf(),
            velocity <= MAX_DATA,
        ensures
            messages@ == self.spec_note_on_messages(velocity),
            messages[0].wf(),
            messages[1].wf(),
    {
        let messages = [
            MidiMessage::PitchBendChange { channel: self.channel, bend: self.note.pitch_bend() },
            MidiMessage::NoteOn { channel: self.channel, note: self.note.midi_note(), velocity },
        ];
        messages
    }

    /// What ends the voice's note.
    pub fn note_off_message(&self, velocity: u8) -> (message: MidiMessage)
        requires
            1 <= self.channel <= MAX_CHANNEL,
            self.note.wf(),
            velocity <= MAX_DATA,
        ensures
            message == self.spec_note_off_message(velocity),
            message.wf(),
    {
        MidiMessage::NoteOff { channel: self.channel, note: self.note.midi_note(), velocity }
    }
}

} // verus!
