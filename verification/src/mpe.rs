//! The voice manager: a fixed pool of voices, handed out to pads first come,
//! first served, and the messages that set a receiver up for the zone.

use vstd::prelude::*;
use crate::message::{
    MidiMessage, CC_DATA_ENTRY_MSB, CC_MONO_OPERATION, CC_NON_REGISTERED_PARAMETER_NUMBER_MSB,
    CC_POLY_OPERATION, CC_REGISTERED_PARAMETER_NUMBER_LSB, CC_REGISTERED_PARAMETER_NUMBER_MSB,
    MAX_CHANNEL, MAX_DATA, RPN_MPE_CONFIGURATION,
};
use crate::pool::{
    assigned_flags, assigned_indices, lemma_count_none, lemma_fill_wf, lemma_holder,
    lemma_release_wf, lemma_take_wf, lemma_unfilled, taken_flags, PoolView,
};
use crate::queue::{
    queue_dequeue, queue_enqueue, queue_items, queue_len, queue_new, MAX_VOICES, QUEUE_SLOTS,
};
use crate::tones::DIAMOND_SIZE;
use crate::voice::Voice;

verus! {

/// The two zones of MIDI Polyphonic Expression.
#[derive(Clone, Copy, Debug, PartialEq, Eq, Structural)]
pub enum MpeZone {
    Lower,
    Upper,
}

impl MpeZone {
    /// The channel that carries the zone's configuration: the first channel
    /// for the lower zone, the last for the upper.
    pub open spec fn spec_master_channel(&self) -> u8 {
        match self {
            MpeZone::Lower => 1,
            MpeZone::Upper => 16,
        }
    }

    #[verifier::when_used_as_spec(spec_master_channel)]
    pub fn master_channel(&self) -> (channel: u8)
        ensures
            channel == self.spec_master_channel(),
    {
        match self {
            MpeZone::Lower => 1,
            MpeZone::Upper => 16,
        }
    }
}

/// The pool of voices of one zone.
pub struct VoiceManager {
    voices: [Voice; MAX_VOICES],
    voice_queue: heapless::spsc::Queue<usize, QUEUE_SLOTS>,
    num_channels: u8,
    zone: MpeZone,
    num_taken: u8,
}

impl View for VoiceManager {
    type V = PoolView;

    closed spec fn view(&self) -> PoolView {
        PoolView {
            voices: self.voices@,
            queue: queue_items(self.voice_queue),
            num_channels: self.num_channels,
            zone: self.zone,
            num_taken: self.num_taken,
        }
    }
}

impl VoiceManager {
    /// A pool for the lower zone in which no voice has a channel yet.
    pub fn new() -> (manager: VoiceManager)
        ensures
            manager@ == PoolView::fresh(),
            manager@.wf(),
            manager@.is_unfilled(0),
    {
        let manager = VoiceManager {
            voices: [Voice::new();MAX_VOICES],
            voice_queue: queue_new(),
            num_channels: MAX_VOICES as u8,
            zone: MpeZone::Lower,
            num_taken: 0,
        };
        proof {
            assert(manager@.voices =~= PoolView::fresh().voices);
            lemma_count_none(taken_flags(manager@.voices));
            lemma_count_none(assigned_flags(manager@.voices));
        }
        manager
    }

    /// Gives voice `k` the channel `channels[k]`. The voices that get a
    /// nonzero channel become free and wait in ascending order. This
    /// establishes the pool: it runs once, before any voice is taken.
    pub fn fill_voices(&mut self, channels: &[u8]) -> (manager: &mut Self)
        requires
            channels.len() <= MAX_VOICES,
            forall|k: int| 0 <= k < channels.len() ==> channels[k] <= MAX_CHANNEL,
            old(self)@.is_unfilled(channels@.len()),
        ensures
            manager@ == old(self)@.after_fill(channels@),
            manager@.wf(),
            *final(self) == *final(manager),
    {
        let n = channels.len();
        for i in 0..n
            invariant
                n == channels.len(),
                n <= MAX_VOICES,
                self.num_channels == old(self).num_channels,
                self.zone == old(self).zone,
                self.num_taken == old(self).num_taken,
                forall|k: int|
                    0 <= k < i ==> #[trigger] self.voices[k] == old(self).voices[k].with_channel(
                        channels[k],
                    ),
                forall|k: int| i <= k < MAX_VOICES ==> #[trigger] self.voices[k] == old(self).voices[k],
                queue_items(self.voice_queue) == assigned_indices(channels@.take(i as int)),
                queue_items(self.voice_queue).len() <= i,
        {
            let channel = channels[i];
            self.voices[i].set_channel(channel);
            if channel > 0 {
                queue_enqueue(&mut self.voice_queue, i).unwrap();
            }
            proof {
                assert(channels@.take(i + 1).drop_last() =~= channels@.take(i as int));
            }
        }
        proof {
            assert(channels@.take(n as int) =~= channels@);
            assert(self@.voices =~= old(self)@.after_fill(channels@).voices);
            lemma_fill_wf(old(self)@, channels@);
        }
        self
    }

    /// The voice at `index`, for changing it. A caller that changes the
    /// voice's channel, or whether it plays, answers for the pool's
    /// invariant.
    pub fn get_voice_mut(&mut self, index: u8) -> (voice: Option<&mut Voice>)
        ensures
            voice.is_some() == (index < MAX_VOICES),
            match voice {
                None => final(self)@ == old(self)@,
                Some(v) => *v == old(self)@.voices[index as int] && final(self)@ == old(
                    self,
                )@.with_voice(index as int, *final(v)),
            },
    {
        let index: usize = index as usize;
        if index < MAX_VOICES {
            Some(&mut self.voices[index])
        } else {
            None
        }
    }

    /// The voice at `index`.
    pub fn get_voice(&self, index: u8) -> (voice: Option<&Voice>)
        ensures
            voice == (if index < MAX_VOICES {
                Some(&self@.voices[index as int])
            } else {
                None
            }),
    {
        let index: usize = index as usize;
        if index < MAX_VOICES {
            Some(&self.voices[index])
        } else {
            None
        }
    }

    /// The number of voices that play.
    pub fn num_taken(&self) -> (count: u8)
        ensures
            count == self@.num_taken,
    {
        self.num_taken
    }

    /// The number of voices that wait to be taken.
    pub fn num_free(&self) -> (count: usize)
        ensures
            count == self@.queue.len(),
    {
        queue_len(&self.voice_queue)
    }

    /// Whether the pool still waits for its channels: no voice has one, so
    /// none plays and none waits.
    pub fn is_unfilled(&self) -> (unfilled: bool)
        requires
            self@.wf(),
        ensures
            unfilled == self@.is_unfilled(0),
    {
        proof {
            lemma_unfilled(self@);
        }
        self.num_taken == 0 && queue_len(&self.voice_queue) == 0
    }

    /// The number of member channels that the zone announces.
    pub fn num_channels(&self) -> (count: u8)
        ensures
            count == self@.num_channels,
    {
        self.num_channels
    }

    /// The zone that the pool serves.
    pub fn zone(&self) -> (zone: MpeZone)
        ensures
            zone == self@.zone,
    {
        self.zone
    }

    /// Takes the voice that has waited longest and stamps it with the pad.
    /// Returns nothing, and changes nothing, when no voice waits.
    pub fn take(&mut self, row: u8, col: u8) -> (voice: Option<&mut Voice>)
        requires
            old(self)@.wf(),
            row < DIAMOND_SIZE,
            col < DIAMOND_SIZE,
        ensures
            voice.is_some() == old(self)@.next_voice().is_some(),
            old(self)@.after_take(row, col).wf(),
            match voice {
                None => final(self)@ == old(self)@,
                Some(v) => {
                    let i = old(self)@.next_voice().unwrap();
                    &&& 0 <= i < MAX_VOICES
                    &&& *v == old(self)@.voices[i].taken_at(row, col)
                    &&& final(self)@ == old(self)@.after_take(row, col).with_voice(i, *final(v))
                },
            },
    {
        proof {
            lemma_take_wf(self@, row, col);
        }
        match queue_dequeue(&mut self.voice_queue) {
            Some(next_voice) => {
                self.num_taken += 1;
                proof {
                    let i = next_voice as int;
                    let taken = old(self)@.voices[i].taken_at(row, col);
                    assert forall|v: Voice|
                        #[trigger] old(self)@.voices.update(i, taken).update(i, v) == old(
                            self,
                        )@.voices.update(i, v) by {
                        assert(old(self)@.voices.update(i, taken).update(i, v) =~= old(
                            self,
                        )@.voices.update(i, v));
                    }
                }
                Some(self.voices[next_voice].take(row, col))
            },
            _ => None,
        }
    }

    /// The index of the first voice that the pad holds.
    pub fn find_holder(&self, row: u8, col: u8) -> (index: Option<usize>)
        ensures
            match index {
                None => self@.holder(row, col) is None,
                Some(i) => self@.holder(row, col) == Some(i as int) && i < MAX_VOICES,
            },
    {
        for i in 0..MAX_VOICES
            invariant
                forall|j: int| 0 <= j < i ==> !(#[trigger] self.voices[j]).held_at(row, col),
        {
            let v = &self.voices[i];
            if v.row == row && v.col == col && v.is_taken {
                proof {
                    lemma_holder(self@, row, col, i as int);
                }
                return Some(i);
            }
        }
        None
    }

    /// Releases the first voice that the pad holds: the voice falls silent
    /// and waits at the back of the queue. Returns nothing, and changes
    /// nothing, when the pad holds no voice.
    pub fn release(&mut self, row: u8, col: u8) -> (voice: Option<&mut Voice>)
        requires
            old(self)@.wf(),
        ensures
            voice.is_some() == old(self)@.holder(row, col).is_some(),
            old(self)@.after_release(row, col).wf(),
            match voice {
                None => final(self)@ == old(self)@,
                Some(v) => {
                    let i = old(self)@.holder(row, col).unwrap();
                    &&& 0 <= i < MAX_VOICES
                    &&& *v == old(self)@.voices[i].released()
                    &&& final(self)@ == old(self)@.after_release(row, col).with_voice(
                        i,
                        *final(v),
                    )
                },
            },
    {
        proof {
            lemma_release_wf(self@, row, col);
        }
        match self.find_holder(row, col) {
            Some(i) => {
                self.voices[i].release();
                queue_enqueue(&mut self.voice_queue, i).unwrap();
                self.num_taken -= 1;
                Some(&mut self.voices[i])
            },
            None => None,
        }
    }

    /// The messages that announce the zone's member channel count.
    pub fn mcm_messages(&self) -> (messages: [MidiMessage; 3])
        requires
            self@.num_channels <= MAX_DATA,
        ensures
            messages@ == self@.mcm_messages(),
            forall|k: int| 0 <= k < 3 ==> (#[trigger] messages[k]).wf(),
    {
        let channel = self.zone.master_channel();
        let messages = [
            MidiMessage::ControlChange {
                channel,
                control: CC_REGISTERED_PARAMETER_NUMBER_LSB,
                value: RPN_MPE_CONFIGURATION,
            },
            MidiMessage::ControlChange {
                channel,
                control: CC_REGISTERED_PARAMETER_NUMBER_MSB,
                value: 0,
            },
            MidiMessage::ControlChange {
                channel,
                control: CC_DATA_ENTRY_MSB,
                value: self.num_channels,
            },
        ];
        messages
    }

    /// The message of the zone's mono switch.
    pub fn mono_mode_message(&self) -> (message: MidiMessage)
        ensures
            message == self@.mono_mode_message(),
            message.wf(),
    {
        MidiMessage::ControlChange {
            channel: self.zone.master_channel(),
            control: CC_POLY_OPERATION,
            value: 1,
        }
    }

    /// The message of the zone's poly switch.
    pub fn poly_mode_message(&self) -> (message: MidiMessage)
        ensures
            message == self@.poly_mode_message(),
            message.wf(),
    {
        MidiMessage::ControlChange {
            channel: self.zone.master_channel(),
            control: CC_MONO_OPERATION,
            value: 1,
        }
    }

    /// The message that sets the bend range of the zone, in whole semitones.
    pub fn pitch_bend_range_message(&self, pitch_bend_range: u8) -> (message: MidiMessage)
        requires
            pitch_bend_range <= MAX_DATA,
        ensures
            message == self@.pitch_bend_range_message(pitch_bend_range),
            message.wf(),
    {
        MidiMessage::ControlChange {
            channel: self.zone.master_channel(),
            control: CC_NON_REGISTERED_PARAMETER_NUMBER_MSB,
            value: pitch_bend_range,
        }
    }

    /// The five messages that set a receiver up for the zone, in the order
    /// in which they must go out: the member channel count, the poly switch,
    /// the bend range.
    pub fn init_mpe_messages(&self, pitch_bend_range: u8) -> (messages: [MidiMessage; 5])
        requires
            self@.num_channels <= MAX_DATA,
            pitch_bend_range <= MAX_DATA,
        ensures
            messages@ == self@.init_messages(pitch_bend_range),
            forall|k: int| 0 <= k < 5 ==> (#[trigger] messages[k]).wf(),
    {
        let mcm = self.mcm_messages();
        let messages = [
            mcm[0],
            mcm[1],
            mcm[2],
            self.poly_mode_message(),
            self.pitch_bend_range_message(pitch_bend_range),
        ];
        messages
    }
}

} // verus!
