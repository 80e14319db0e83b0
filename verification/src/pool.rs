//! The voice pool as a mathematical object: what a pool is, what makes one
//! well formed, and what allocation and release do to it.

use vstd::prelude::*;
use crate::message::{
    MidiMessage, CC_DATA_ENTRY_MSB, CC_MONO_OPERATION, CC_NON_REGISTERED_PARAMETER_NUMBER_MSB,
    CC_POLY_OPERATION, CC_REGISTERED_PARAMETER_NUMBER_LSB, CC_REGISTERED_PARAMETER_NUMBER_MSB,
    MAX_CHANNEL, MAX_DATA, RPN_MPE_CONFIGURATION,
};
use crate::mpe::MpeZone;
use crate::queue::MAX_VOICES;
use crate::tones::DIAMOND_SIZE;
use crate::voice::Voice;

verus! {

/// How many flags are set.
pub open spec fn count_true(flags: Seq<bool>) -> nat
    decreases flags.len(),
{
    if flags.len() == 0 {
        0
    } else {
        count_true(flags.drop_last()) + if flags.last() {
            1nat
        } else {
            0nat
        }
    }
}

pub open spec fn taken_flags(voices: Seq<Voice>) -> Seq<bool> {
    Seq::new(voices.len(), |i: int| voices[i].is_taken)
}

pub open spec fn assigned_flags(voices: Seq<Voice>) -> Seq<bool> {
    Seq::new(voices.len(), |i: int| voices[i].channel != 0)
}

pub open spec fn nonzero_flags(channels: Seq<u8>) -> Seq<bool> {
    Seq::new(channels.len(), |i: int| channels[i] != 0)
}

/// The number of voices that play.
pub open spec fn count_taken(voices: Seq<Voice>) -> nat {
    count_true(taken_flags(voices))
}

/// The number of voices that have a channel.
pub open spec fn count_assigned(voices: Seq<Voice>) -> nat {
    count_true(assigned_flags(voices))
}

/// The places of the nonzero channels in a list, in ascending order.
pub open spec fn assigned_indices(channels: Seq<u8>) -> Seq<usize>
    decreases channels.len(),
{
    if channels.len() == 0 {
        Seq::empty()
    } else {
        let rest = assigned_indices(channels.drop_last());
        if channels.last() != 0 {
            rest.push((channels.len() - 1) as usize)
        } else {
            rest
        }
    }
}

/// A voice pool: the voices, the indices of the free ones in the order in
/// which they will be handed out, and the zone's settings.
pub struct PoolView {
    pub voices: Seq<Voice>,
    pub queue: Seq<usize>,
    pub num_channels: u8,
    pub zone: MpeZone,
    pub num_taken: u8,
}

impl PoolView {
    /// The pool at power-up: the lower zone with every voice fresh, nothing
    /// waiting, and as many member channels announced as the pool has voices.
    pub open spec fn fresh() -> PoolView {
        PoolView {
            voices: Seq::new(MAX_VOICES as nat, |i: int| Voice::fresh()),
            queue: Seq::empty(),
            num_channels: MAX_VOICES as u8,
            zone: MpeZone::Lower,
            num_taken: 0,
        }
    }

    /// The invariant of the pool. A voice waits in the queue, once, exactly
    /// if it has a channel and does not play; a voice that plays has a
    /// channel; `num_taken` counts the voices that play; and the voices that
    /// play and those that wait are together the voices that have a channel.
    pub open spec fn wf(self) -> bool {
        &&& self.voices.len() == MAX_VOICES
        &&& forall|i: int| 0 <= i < self.voices.len() ==> (#[trigger] self.voices[i]).wf()
        &&& forall|i: int|
            0 <= i < self.voices.len() && (#[trigger] self.voices[i]).is_taken
                ==> self.voices[i].channel != 0
        &&& self.queue.no_duplicates()
        &&& forall|k: int|
            0 <= k < self.queue.len() ==> (#[trigger] self.queue[k]) < self.voices.len()
                && self.voices[self.queue[k] as int].can_take()
        &&& forall|i: int|
            0 <= i < self.voices.len() && (#[trigger] self.voices[i]).can_take()
                ==> self.queue.contains(i as usize)
        &&& self.num_taken == count_taken(self.voices)
        &&& self.num_taken + self.queue.len() == count_assigned(self.voices)
        &&& self.num_channels <= MAX_DATA
    }

    /// The pool before its channels are given out: nothing waits, nothing
    /// plays, and from voice `filled` on no voice has a channel.
    pub open spec fn is_unfilled(self, filled: nat) -> bool {
        &&& self.voices.len() == MAX_VOICES
        &&& forall|i: int| 0 <= i < self.voices.len() ==> (#[trigger] self.voices[i]).wf()
        &&& forall|i: int| 0 <= i < self.voices.len() ==> !(#[trigger] self.voices[i]).is_taken
        &&& forall|i: int|
            filled <= i < self.voices.len() ==> (#[trigger] self.voices[i]).channel == 0
        &&& self.queue.len() == 0
        &&& self.num_taken == 0
        &&& self.num_channels <= MAX_DATA
    }

    /// No two voices that play are held by the same pad.
    pub open spec fn pads_distinct(self) -> bool {
        forall|i: int, j: int|
            0 <= i < self.voices.len() && 0 <= j < self.voices.len() && i != j && (
            #[trigger] self.voices[i]).is_taken && (#[trigger] self.voices[j]).is_taken ==> !(
            self.voices[i].row == self.voices[j].row && self.voices[i].col == self.voices[j].col)
    }

    /// The three messages that tell a receiver how many member channels the
    /// zone has: the registered parameter's number, low byte then high byte,
    /// and the count as its value, all on the zone's master channel.
    pub open spec fn mcm_messages(self) -> Seq<MidiMessage> {
        let channel = self.zone.master_channel();
        seq![
            MidiMessage::ControlChange {
                channel,
                control: CC_REGISTERED_PARAMETER_NUMBER_LSB,
                value: RPN_MPE_CONFIGURATION,
            },
            MidiMessage::ControlChange {
                channel,
                control: CC_REGISTERED_PARAMETER_NUMBER_MSB,
                value: 0,
            },
            MidiMessage::ControlChange {
                channel,
                control: CC_DATA_ENTRY_MSB,
                value: self.num_channels,
            },
        ]
    }

    /// The message of the zone's mono switch: controller 127 with value 1.
    pub open spec fn mono_mode_message(self) -> MidiMessage {
        MidiMessage::ControlChange {
            channel: self.zone.master_channel(),
            control: CC_POLY_OPERATION,
            value: 1,
        }
    }

    /// The message of the zone's poly switch: controller 126 with value 1.
    pub open spec fn poly_mode_message(self) -> MidiMessage {
        MidiMessage::ControlChange {
            channel: self.zone.master_channel(),
            control: CC_MONO_OPERATION,
            value: 1,
        }
    }

    /// The message that sets the bend range of the whole zone, in whole
    /// semitones.
    pub open spec fn pitch_bend_range_message(self, pitch_bend_range: u8) -> MidiMessage {
        MidiMessage::ControlChange {
            channel: self.zone.master_channel(),
            control: CC_NON_REGISTERED_PARAMETER_NUMBER_MSB,
            value: pitch_bend_range,
        }
    }

    /// What configures a receiver for the zone: the member channel count,
    /// then the poly switch, then the bend range.
    pub open spec fn init_messages(self, pitch_bend_range: u8) -> Seq<MidiMessage> {
        self.mcm_messages().push(self.poly_mode_message()).push(
            self.pitch_bend_range_message(pitch_bend_range),
        )
    }

    /// The pool with one voice replaced.
    pub open spec fn with_voice(self, i: int, voice: Voice) -> PoolView {
        PoolView { voices: self.voices.update(i, voice), ..self }
    }

    /// The pool after its channels are given out: voice `k` gets
    /// `channels[k]`, and the voices that got a nonzero channel wait in
    /// ascending order.
    pub open spec fn after_fill(self, channels: Seq<u8>) -> PoolView {
        PoolView {
            voices: Seq::new(
                self.voices.len(),
                |k: int|
                    if k < channels.len() {
                        self.voices[k].with_channel(channels[k])
                    } else {
                        self.voices[k]
                    },
            ),
            queue: assigned_indices(channels),
            ..self
        }
    }

    /// The voice that the next pad gets: the one that has waited longest.
    pub open spec fn next_voice(self) -> Option<int> {
        if self.queue.len() == 0 {
            None
        } else {
            Some(self.queue[0] as int)
        }
    }

    /// The pool after a pad asks for a voice: the voice at the head of the
    /// queue plays for the pad. With nothing waiting the pool stays as it is.
    pub open spec fn after_take(self, row: u8, col: u8) -> PoolView {
        if self.queue.len() == 0 {
            self
        } else {
            let i = self.queue[0] as int;
            PoolView {
                voices: self.voices.update(i, self.voices[i].taken_at(row, col)),
                queue: self.queue.drop_first(),
                num_taken: (self.num_taken + 1) as u8,
                ..self
            }
        }
    }

    /// Voice `i` is held by the pad and no voice before it is.
    pub open spec fn is_holder(self, row: u8, col: u8, i: int) -> bool {
        &&& 0 <= i < self.voices.len()
        &&& self.voices[i].held_at(row, col)
        &&& forall|j: int| 0 <= j < i ==> !(#[trigger] self.voices[j]).held_at(row, col)
    }

    /// The first voice that the pad holds, if it holds any.
    pub open spec fn holder(self, row: u8, col: u8) -> Option<int> {
        if exists|i: int| self.is_holder(row, col, i) {
            Some(choose|i: int| self.is_holder(row, col, i))
        } else {
            None
        }
    }

    /// The pool after a pad lets go: the first voice that it holds falls
    /// silent and joins the queue at the back. A pad that holds no voice
    /// leaves the pool as it is.
    pub open spec fn after_release(self, row: u8, col: u8) -> PoolView {
        match self.holder(row, col) {
            None => self,
            Some(i) => PoolView {
                voices: self.voices.update(i, self.voices[i].released()),
                queue: self.queue.push(i as usize),
                num_taken: (self.num_taken - 1) as u8,
                ..self
            },
        }
    }
}

/// Changing one flag moves the count by that flag alone.
proof fn lemma_count_update(flags: Seq<bool>, i: int, flag: bool)
    requires
        0 <= i < flags.len(),
    ensures
        count_true(flags.update(i, flag)) + (if flags[i] {
            1nat
        } else {
            0nat
        }) == count_true(flags) + (if flag {
            1nat
        } else {
            0nat
        }),
    decreases flags.len(),
{
    let updated = flags.update(i, flag);
    if i == flags.len() - 1 {
        assert(updated.drop_last() =~= flags.drop_last());
    } else {
        assert(updated.drop_last() =~= flags.drop_last().update(i, flag));
        lemma_count_update(flags.drop_last(), i, flag);
    }
}

/// No more flags are set than there are flags.
proof fn lemma_count_bound(flags: Seq<bool>)
    ensures
        count_true(flags) <= flags.len(),
    decreases flags.len(),
{
    if flags.len() > 0 {
        lemma_count_bound(flags.drop_last());
    }
}

/// Where no flag is set the count is zero.
pub(crate) proof fn lemma_count_none(flags: Seq<bool>)
    requires
        forall|i: int| 0 <= i < flags.len() ==> !flags[i],
    ensures
        count_true(flags) == 0,
    decreases flags.len(),
{
    if flags.len() > 0 {
        lemma_count_none(flags.drop_last());
    }
}

/// One set flag makes the count positive.
proof fn lemma_count_some(flags: Seq<bool>, i: int)
    requires
        0 <= i < flags.len(),
        flags[i],
    ensures
        count_true(flags) >= 1,
    decreases flags.len(),
{
    if i < flags.len() - 1 {
        lemma_count_some(flags.drop_last(), i);
    }
}

/// Flags that are not set at the end do not count.
proof fn lemma_count_tail(flags: Seq<bool>, n: int)
    requires
        0 <= n <= flags.len(),
        forall|i: int| n <= i < flags.len() ==> !flags[i],
    ensures
        count_true(flags) == count_true(flags.take(n)),
    decreases flags.len(),
{
    if flags.len() == n {
        assert(flags.take(n) =~= flags);
    } else {
        lemma_count_tail(flags.drop_last(), n);
        assert(flags.drop_last().take(n) =~= flags.take(n));
    }
}

/// Replacing one voice moves each count by what the voice itself changes.
proof fn lemma_counts_with_voice(voices: Seq<Voice>, i: int, voice: Voice)
    requires
        0 <= i < voices.len(),
    ensures
        count_taken(voices.update(i, voice)) + (if voices[i].is_taken {
            1nat
        } else {
            0nat
        }) == count_taken(voices) + (if voice.is_taken {
            1nat
        } else {
            0nat
        }),
        count_assigned(voices.update(i, voice)) + (if voices[i].channel != 0 {
            1nat
        } else {
            0nat
        }) == count_assigned(voices) + (if voice.channel != 0 {
            1nat
        } else {
            0nat
        }),
{
    assert(taken_flags(voices.update(i, voice)) =~= taken_flags(voices).update(
        i,
        voice.is_taken,
    ));
    assert(assigned_flags(voices.update(i, voice)) =~= assigned_flags(voices).update(
        i,
        voice.channel != 0,
    ));
    lemma_count_update(taken_flags(voices), i, voice.is_taken);
    lemma_count_update(assigned_flags(voices), i, voice.channel != 0);
}

/// The list of assigned indices holds exactly the places of the nonzero
/// channels, in ascending order.
pub proof fn lemma_assigned_indices(channels: Seq<u8>)
    requires
        channels.len() <= usize::MAX,
    ensures
        assigned_indices(channels).len() == count_true(nonzero_flags(channels)),
        forall|k: int|
            0 <= k < assigned_indices(channels).len() ==> (#[trigger] assigned_indices(
                channels,
            )[k]) < channels.len() && channels[assigned_indices(channels)[k] as int] != 0,
        forall|a: int, b: int|
            0 <= a < b < assigned_indices(channels).len() ==> assigned_indices(channels)[a]
                < assigned_indices(channels)[b],
        forall|i: int|
            0 <= i < channels.len() && channels[i] != 0 ==> assigned_indices(channels).contains(
                i as usize,
            ),
    decreases channels.len(),
{
    if channels.len() > 0 {
        let front = channels.drop_last();
        let rest = assigned_indices(front);
        let all = assigned_indices(channels);
        let last = (channels.len() - 1) as int;
        lemma_assigned_indices(front);
        assert(nonzero_flags(channels).drop_last() =~= nonzero_flags(front));
        assert forall|i: int| 0 <= i < channels.len() && channels[i] != 0 implies all.contains(
            i as usize,
        ) by {
            if i < last {
                assert(front[i] != 0);
                let k = choose|k: int| 0 <= k < rest.len() && rest[k] == i as usize;
                assert(all[k] == i as usize);
            } else {
                assert(all[all.len() - 1] == i as usize);
            }
        }
    }
}

/// A voice may change in any way that keeps it well formed and leaves its
/// channel and whether it plays as they were: the pool stays well formed.
pub proof fn lemma_with_voice_wf(pool: PoolView, i: int, voice: Voice)
    requires
        pool.wf(),
        0 <= i < pool.voices.len(),
        voice.wf(),
        voice.channel == pool.voices[i].channel,
        voice.is_taken == pool.voices[i].is_taken,
    ensures
        pool.with_voice(i, voice).wf(),
{
    lemma_counts_with_voice(pool.voices, i, voice);
}

/// Putting back the voice that is there changes nothing.
pub proof fn lemma_with_same_voice(pool: PoolView, i: int)
    requires
        0 <= i < pool.voices.len(),
    ensures
        pool.with_voice(i, pool.voices[i]) == pool,
{
    assert(pool.voices.update(i, pool.voices[i]) =~= pool.voices);
}

/// Giving out the channels makes the pool well formed.
pub proof fn lemma_fill_wf(pool: PoolView, channels: Seq<u8>)
    requires
        channels.len() <= MAX_VOICES,
        forall|k: int| 0 <= k < channels.len() ==> channels[k] <= MAX_CHANNEL,
        pool.is_unfilled(channels.len()),
    ensures
        pool.after_fill(channels).wf(),
        pool.after_fill(channels).num_taken == 0,
{
    let next = pool.after_fill(channels);
    let n = channels.len() as int;
    lemma_assigned_indices(channels);
    lemma_count_none(taken_flags(next.voices));
    lemma_count_tail(assigned_flags(next.voices), n);
    assert(assigned_flags(next.voices).take(n) =~= nonzero_flags(channels));
}

/// Handing out a voice keeps the pool well formed.
pub proof fn lemma_take_wf(pool: PoolView, row: u8, col: u8)
    requires
        pool.wf(),
        row < DIAMOND_SIZE,
        col < DIAMOND_SIZE,
    ensures
        pool.after_take(row, col).wf(),
        pool.queue.len() > 0 ==> pool.num_taken < MAX_VOICES && pool.queue[0] < MAX_VOICES
            && pool.voices[pool.queue[0] as int].can_take(),
{
    if pool.queue.len() > 0 {
        let next = pool.after_take(row, col);
        let i = pool.queue[0] as int;
        lemma_counts_with_voice(pool.voices, i, pool.voices[i].taken_at(row, col));
        lemma_count_bound(assigned_flags(pool.voices));
        assert forall|j: int|
            0 <= j < next.voices.len() && (#[trigger] next.voices[j]).can_take()
                implies next.queue.contains(j as usize) by {
            let k = choose|k: int| 0 <= k < pool.queue.len() && pool.queue[k] == j as usize;
            assert(next.queue[k - 1] == j as usize);
        }
    }
}

/// A pad holds at most one first voice.
pub proof fn lemma_holder(pool: PoolView, row: u8, col: u8, i: int)
    requires
        pool.is_holder(row, col, i),
    ensures
        pool.holder(row, col) == Some(i),
{
}

/// A pad that holds a voice has a first one, and a pad that holds none has
/// no holder.
pub proof fn lemma_holder_exists(pool: PoolView, row: u8, col: u8)
    ensures
        pool.holder(row, col) matches Some(i) ==> pool.is_holder(row, col, i),
        pool.holder(row, col) is None <==> forall|j: int|
            0 <= j < pool.voices.len() ==> !(#[trigger] pool.voices[j]).held_at(row, col),
{
    if pool.holder(row, col) is None {
        assert forall|j: int| 0 <= j < pool.voices.len() implies !(#[trigger] pool.voices[j]).held_at(
            row,
            col,
        ) by {
            if pool.voices[j].held_at(row, col) {
                lemma_first_held(pool, row, col, j);
            }
        }
    }
}

/// Below a voice that a pad holds lies the first one that it holds.
proof fn lemma_first_held(pool: PoolView, row: u8, col: u8, j: int)
    requires
        0 <= j < pool.voices.len(),
        pool.voices[j].held_at(row, col),
    ensures
        exists|i: int| pool.is_holder(row, col, i),
    decreases j,
{
    if exists|k: int| 0 <= k < j && (#[trigger] pool.voices[k]).held_at(row, col) {
        let k = choose|k: int| 0 <= k < j && (#[trigger] pool.voices[k]).held_at(row, col);
        lemma_first_held(pool, row, col, k);
    } else {
        assert(pool.is_holder(row, col, j));
    }
}

/// Letting go of a voice keeps the pool well formed.
pub proof fn lemma_release_wf(pool: PoolView, row: u8, col: u8)
    requires
        pool.wf(),
    ensures
        pool.after_release(row, col).wf(),
        pool.holder(row, col) matches Some(i) ==> pool.num_taken >= 1 && pool.queue.len()
            < MAX_VOICES,
{
    match pool.holder(row, col) {
        None => {},
        Some(i) => {
            let next = pool.after_release(row, col);
            lemma_count_bound(assigned_flags(pool.voices));
            lemma_counts_with_voice(pool.voices, i, pool.voices[i].released());
            assert forall|j: int|
                0 <= j < next.voices.len() && (#[trigger] next.voices[j]).can_take()
                    implies next.queue.contains(j as usize) by {
                if j == i {
                    assert(next.queue[pool.queue.len() as int] == j as usize);
                } else {
                    let k = choose|k: int| 0 <= k < pool.queue.len() && pool.queue[k] == j as usize;
                    assert(next.queue[k] == j as usize);
                }
            }
        },
    }
}

/// A well-formed pool in which nothing plays and nothing waits is one in
/// which no voice has a channel.
pub proof fn lemma_unfilled(pool: PoolView)
    requires
        pool.wf(),
    ensures
        pool.is_unfilled(0) <==> pool.num_taken == 0 && pool.queue.len() == 0,
{
    if pool.num_taken == 0 && pool.queue.len() == 0 {
        assert forall|i: int| 0 <= i < pool.voices.len() implies (#[trigger] pool.voices[i]).channel
            == 0 && !pool.voices[i].is_taken by {
            if pool.voices[i].channel != 0 {
                lemma_count_some(assigned_flags(pool.voices), i);
            }
        }
    }
}

/// The configuration of a receiver is five messages in a fixed order: the
/// three of the member channel count, the poly switch, the bend range. All
/// five go on the zone's master channel and fit the wire.
pub proof fn lemma_init_messages(pool: PoolView, pitch_bend_range: u8)
    requires
        pool.num_channels <= MAX_DATA,
        pitch_bend_range <= MAX_DATA,
    ensures
        pool.init_messages(pitch_bend_range).len() == 5,
        pool.init_messages(pitch_bend_range).subrange(0, 3) == pool.mcm_messages(),
        pool.init_messages(pitch_bend_range)[3] == pool.poly_mode_message(),
        pool.init_messages(pitch_bend_range)[4] == pool.pitch_bend_range_message(
            pitch_bend_range,
        ),
        forall|k: int|
            0 <= k < 5 ==> (#[trigger] pool.init_messages(pitch_bend_range)[k]).wf()
                && pool.init_messages(pitch_bend_range)[k].channel()
                == pool.zone.master_channel(),
{
}

/// Pool conservation: in a well-formed pool the voices that play and the
/// voices that wait are together the voices that have a channel, and there
/// are no more of them than the pool has voices.
pub proof fn lemma_conservation(pool: PoolView)
    requires
        pool.wf(),
    ensures
        pool.num_taken + pool.queue.len() == count_assigned(pool.voices),
        pool.num_taken == count_taken(pool.voices),
        count_assigned(pool.voices) <= MAX_VOICES,
{
    lemma_count_bound(assigned_flags(pool.voices));
}

/// First come, first served. When pad A lets its voice go and then pad B
/// does, the two voices wait behind all that waited before, A's in front of
/// B's. So with nothing else waiting the next pad gets A's voice and the pad
/// after it gets B's.
pub proof fn lemma_fifo_fairness(
    pool: PoolView,
    pad_a: (u8, u8),
    pad_b: (u8, u8),
    pad_c: (u8, u8),
    voice_a: int,
    voice_b: int,
)
    requires
        pool.wf(),
        pool.holder(pad_a.0, pad_a.1) == Some(voice_a),
        pool.after_release(pad_a.0, pad_a.1).holder(pad_b.0, pad_b.1) == Some(voice_b),
    ensures
        voice_a != voice_b,
        pool.after_release(pad_a.0, pad_a.1).after_release(pad_b.0, pad_b.1).queue
            == pool.queue.push(voice_a as usize).push(voice_b as usize),
        pool.queue.len() == 0 ==> pool.after_release(pad_a.0, pad_a.1).after_release(
            pad_b.0,
            pad_b.1,
        ).next_voice() == Some(voice_a) && pool.after_release(pad_a.0, pad_a.1).after_release(
            pad_b.0,
            pad_b.1,
        ).after_take(pad_c.0, pad_c.1).next_voice() == Some(voice_b),
{
}

/// A voice handed to a pad that holds none leaves every pad with at most
/// one voice.
pub proof fn lemma_take_pads_distinct(pool: PoolView, row: u8, col: u8)
    requires
        pool.wf(),
        pool.pads_distinct(),
        pool.holder(row, col) is None,
    ensures
        pool.after_take(row, col).pads_distinct(),
{
    lemma_holder_exists(pool, row, col);
}

/// A release leaves every pad with at most one voice.
pub proof fn lemma_release_pads_distinct(pool: PoolView, row: u8, col: u8)
    requires
        pool.voices.len() == MAX_VOICES,
        pool.pads_distinct(),
    ensures
        pool.after_release(row, col).pads_distinct(),
        pool.after_release(row, col).holder(row, col) is None,
{
}

} // verus!
