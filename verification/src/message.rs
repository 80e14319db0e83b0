//! The MIDI messages that the instrument produces, as plain values, and the
//! order in which they go out to the transport sinks.

use vstd::prelude::*;
use vstd::arithmetic::div_mod::lemma_fundamental_div_mod_converse;
use crate::diamond::{MAX_BEND, MAX_NOTE};

verus! {

/// The highest value of a 7-bit MIDI data byte.
pub const MAX_DATA: u8 = 127;

/// The lowest and highest MIDI channel numbers.
pub const MIN_CHANNEL: u8 = 1;

pub const MAX_CHANNEL: u8 = 16;

/// Controller numbers used by the MPE configuration sequence.
pub const CC_DATA_ENTRY_MSB: u8 = 6;

pub const CC_NON_REGISTERED_PARAMETER_NUMBER_MSB: u8 = 99;

pub const CC_REGISTERED_PARAMETER_NUMBER_LSB: u8 = 100;

pub const CC_REGISTERED_PARAMETER_NUMBER_MSB: u8 = 101;

pub const CC_MONO_OPERATION: u8 = 126;

pub const CC_POLY_OPERATION: u8 = 127;

/// The registered parameter that sets the member channel count of a zone.
pub const RPN_MPE_CONFIGURATION: u8 = 6;

/// A channel voice message. `channel` is the MIDI channel number, 1 to 16.
#[derive(Clone, Copy, Debug, PartialEq, Eq, Structural)]
pub enum MidiMessage {
    NoteOff { channel: u8, note: u8, velocity: u8 },
    NoteOn { channel: u8, note: u8, velocity: u8 },
    ControlChange { channel: u8, control: u8, value: u8 },
    PitchBendChange { channel: u8, bend: u16 },
}

impl MidiMessage {
    pub open spec fn spec_channel(self) -> u8 {
        match self {
            MidiMessage::NoteOff { channel, .. } => channel,
            MidiMessage::NoteOn { channel, .. } => channel,
            MidiMessage::ControlChange { channel, .. } => channel,
            MidiMessage::PitchBendChange { channel, .. } => channel,
        }
    }

    /// The message can go on the wire: the channel exists, every data byte
    /// has seven bits and a bend has fourteen.
    pub open spec fn wf(self) -> bool {
        &&& MIN_CHANNEL <= self.spec_channel() <= MAX_CHANNEL
        &&& match self {
            MidiMessage::NoteOff { note, velocity, .. } => note <= MAX_NOTE && velocity
                <= MAX_DATA,
            MidiMessage::NoteOn { note, velocity, .. } => note <= MAX_NOTE && velocity
                <= MAX_DATA,
            MidiMessage::ControlChange { control, value, .. } => control <= MAX_DATA && value
                <= MAX_DATA,
            MidiMessage::PitchBendChange { bend, .. } => bend <= MAX_BEND,
        }
    }

    #[verifier::when_used_as_spec(spec_channel)]
    pub fn channel(self) -> (channel: u8)
        ensures
            channel == self.spec_channel(),
    {
        match self {
            MidiMessage::NoteOff { channel, .. } => channel,
            MidiMessage::NoteOn { channel, .. } => channel,
            MidiMessage::ControlChange { channel, .. } => channel,
            MidiMessage::PitchBendChange { channel, .. } => channel,
        }
    }
}

/// A transport sink.
#[derive(Clone, Copy, Debug, PartialEq, Eq, Structural)]
pub enum Port {
    Usb,
    Din,
}

/// The sinks of the instrument, in the order in which each message reaches
/// them.
pub const SINKS: [Port; 2] = [Port::Usb, Port::Din];

/// One message on its way to one sink.
#[derive(Clone, Copy, Debug, PartialEq, Eq, Structural)]
pub struct Emission {
    pub port: Port,
    pub message: MidiMessage,
}

/// What goes out for a run of messages: the messages in their order, each of
/// them once to every sink, in the order of the sinks, before the next.
pub open spec fn emission_plan(messages: Seq<MidiMessage>, sinks: Seq<Port>) -> Seq<Emission> {
    Seq::new(
        messages.len() * sinks.len(),
        |k: int|
            Emission {
                port: sinks[k % (sinks.len() as int)],
                message: messages[k / (sinks.len() as int)],
            },
    )
}

/// Lays out `messages` for sending to `sinks`.
pub fn fan_out(messages: &[MidiMessage], sinks: &[Port]) -> (plan: Vec<Emission>)
    ensures
        plan@ == emission_plan(messages@, sinks@),
{
    let mut plan: Vec<Emission> = Vec::new();
    let n = sinks.len();
    for i in 0..messages.len()
        invariant
            n == sinks.len(),
            plan.len() == i * n,
            forall|k: int|
                0 <= k < plan.len() ==> #[trigger] plan[k] == (Emission {
                    port: sinks[k % (n as int)],
                    message: messages[k / (n as int)],
                }),
    {
        for j in 0..n
            invariant
                n == sinks.len(),
                i < messages.len(),
                plan.len() == i * n + j,
                forall|k: int|
                    0 <= k < plan.len() ==> #[trigger] plan[k] == (Emission {
                        port: sinks[k % (n as int)],
                        message: messages[k / (n as int)],
                    }),
        {
            proof {
                lemma_fundamental_div_mod_converse(i * n + j, n as int, i as int, j as int);
            }
            plan.push(Emission { port: sinks[j], message: messages[i] });
        }
        assert(i * n + n == (i + 1) * n) by (nonlinear_arith);
    }
    plan
}

/// Every message of a run goes out once to each sink, and keeps its place
/// among the others.
pub proof fn lemma_emission_plan(messages: Seq<MidiMessage>, sinks: Seq<Port>, m: int, s: int)
    requires
        0 <= m < messages.len(),
        0 <= s < sinks.len(),
    ensures
        emission_plan(messages, sinks).len() == messages.len() * sinks.len(),
        0 <= m * sinks.len() + s < emission_plan(messages, sinks).len(),
        emission_plan(messages, sinks)[m * sinks.len() + s] == (Emission {
            port: sinks[s],
            message: messages[m],
        }),
{
    let n = sinks.len() as int;
    lemma_fundamental_div_mod_converse(m * n + s, n, m, s);
    let len = messages.len() as int;
    assert(m * n + s < len * n) by (nonlinear_arith)
        requires
            0 <= m < len,
            0 <= s < n,
    ;
    assert(0 <= m * n) by (nonlinear_arith)
        requires
            0 <= m,
            0 <= n,
    ;
}

} // verus!
