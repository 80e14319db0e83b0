//! A just-intonation instrument for an 8 x 8 pad grid.
//!
//! Each pad plays one interval of a tonal diamond over the odd identities up
//! to 15. A pressed pad takes a voice from a small pool; the voice sounds on
//! a MIDI channel of its own, bent to the interval's exact pitch, as MIDI
//! Polyphonic Expression asks.
//!
//! - [`tones`]: the table of intervals.
//! - [`diamond`]: the tuning of every pad for a base note and a bend range.
//! - [`voice`], [`pool`], [`mpe`]: the voices, the pool as a mathematical
//!   object, and the voice manager that holds one.
//! - [`queue`]: the queue of free voices.
//! - [`message`]: the MIDI messages and their way to the transport sinks.
//! - [`state`]: the whole instrument, from events to effects.
//! - [`colour`]: the colours of the pads.

pub mod colour;
pub mod diamond;
pub mod message;
pub mod mpe;
pub mod pool;
pub mod queue;
pub mod state;
pub mod tones;
pub mod voice;
