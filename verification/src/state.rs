//! The instrument as a state machine. Each event from the surface or the
//! transport moves the state and yields the effects that the caller must
//! carry out, in order: LEDs to set and messages to send. Nothing here
//! touches hardware, blocks or waits.

use vstd::prelude::*;
use crate::colour::Rgb;
use crate::diamond::{lemma_tuned_note_wf, tuned_note, Diamond, MAX_BEND_RANGE, MAX_NOTE};
use crate::message::{emission_plan, fan_out, Emission, MidiMessage, MAX_DATA, SINKS};
use crate::mpe::VoiceManager;
use crate::pool::{
    assigned_flags, count_assigned, lemma_count_none, lemma_fill_wf, lemma_release_wf,
    lemma_take_pads_distinct, lemma_take_wf, lemma_with_same_voice, lemma_with_voice_wf,
    taken_flags, PoolView,
};
use crate::queue::MAX_VOICES;
use crate::tones::{tone, tone_at, DIAMOND_SIZE};
use crate::voice::Voice;

verus! {

/// Ticks between a transport connection and the configuration of the
/// receiver, so that the receiver has settled when the messages arrive.
pub const DEFAULT_INIT_DELAY: u8 = 100;

/// The velocity of every note-off.
pub const RELEASE_VELOCITY: u8 = 0;

/// Something for the caller to do.
#[derive(Clone, Copy, Debug, PartialEq, Eq, Structural)]
pub enum Effect {
    /// Light the pad of cell `(row, col)`.
    SetLed { row: u8, col: u8, rgb: Rgb },
    /// Send a message to a sink.
    Send(Emission),
}

/// Something that happened.
#[derive(Clone, Copy, Debug, PartialEq, Eq, Structural)]
pub enum Event {
    /// The surface is ready.
    Init,
    /// The periodic timer fired.
    Tick,
    TransportConnect,
    TransportDisconnect,
    Press { row: u8, col: u8, velocity: u8 },
    Release { row: u8, col: u8 },
}

/// The colour of a pad while it is held.
pub open spec fn spec_held_colour() -> Rgb {
    Rgb { r: 0xff, g: 0xff, b: 0xff }
}

pub fn held_colour() -> (rgb: Rgb)
    ensures
        rgb == spec_held_colour(),
{
    Rgb::new(0xff, 0xff, 0xff)
}

/// The cell of the lattice under the surface position `(x, y)`. The lattice
/// lies at positions 1 to 8 in both directions; what lies around it is no
/// cell.
pub open spec fn spec_cell_of_point(x: i8, y: i8) -> Option<(u8, u8)> {
    if 1 <= x <= 8 && 1 <= y <= 8 {
        Some(((x - 1) as u8, (y - 1) as u8))
    } else {
        None
    }
}

pub fn cell_of_point(x: i8, y: i8) -> (cell: Option<(u8, u8)>)
    ensures
        cell == spec_cell_of_point(x, y),
        cell matches Some(c) ==> c.0 < DIAMOND_SIZE && c.1 < DIAMOND_SIZE,
{
    if 1 <= x && x <= 8 && 1 <= y && y <= 8 {
        Some(((x - 1) as u8, (y - 1) as u8))
    } else {
        None
    }
}

/// The surface position of a cell.
pub fn point_of_cell(row: u8, col: u8) -> (point: (i8, i8))
    requires
        row < DIAMOND_SIZE,
        col < DIAMOND_SIZE,
    ensures
        point == ((row + 1) as i8, (col + 1) as i8),
        spec_cell_of_point(point.0, point.1) == Some((row, col)),
{
    ((row + 1) as i8, (col + 1) as i8)
}

/// The sending of a run of messages: each message in its turn to every sink.
pub open spec fn sends(messages: Seq<MidiMessage>) -> Seq<Effect> {
    Seq::new(
        emission_plan(messages, SINKS@).len(),
        |k: int| Effect::Send(emission_plan(messages, SINKS@)[k]),
    )
}

/// The lighting of the whole lattice, row by row, each pad in the colour of
/// its tone.
pub open spec fn lattice_leds() -> Seq<Effect> {
    Seq::new(
        64,
        |k: int|
            Effect::SetLed { row: (k / 8) as u8, col: (k % 8) as u8, rgb: tone_at(k / 8, k % 8).rgb },
    )
}

/// The channels of the pool: voice `k` sounds on channel `k + 1`.
pub open spec fn default_channels() -> Seq<u8> {
    Seq::new(MAX_VOICES as nat, |k: int| (k + 1) as u8)
}

/// What the state machine knows.
pub struct StateView {
    pub base_note: u8,
    pub pitch_bend_range: u8,
    pub pool: PoolView,
    /// Ticks until the receiver is configured; 0 when nothing is pending.
    pub init_delay: u8,
}

impl StateView {
    /// The instrument at power-up: the default tuning, a fresh pool, and a
    /// configuration of the receiver pending.
    pub open spec fn initial() -> StateView {
        StateView {
            base_note: 24,
            pitch_bend_range: 1,
            pool: PoolView::fresh(),
            init_delay: DEFAULT_INIT_DELAY,
        }
    }

    /// The tuning's parameters are valid and the pool is well formed.
    pub open spec fn wf(self) -> bool {
        &&& self.base_note <= MAX_NOTE
        &&& 1 <= self.pitch_bend_range <= MAX_BEND_RANGE
        &&& self.pool.wf()
    }

    /// Whether the machine takes the event. Pads lie on the lattice,
    /// velocities are data bytes, and the surface becomes ready once, while
    /// the pool still waits for its channels.
    pub open spec fn accepts(self, event: Event) -> bool {
        match event {
            Event::Init => self.pool.is_unfilled(0),
            Event::Press { row, col, velocity } => row < DIAMOND_SIZE && col < DIAMOND_SIZE
                && velocity <= MAX_DATA,
            Event::Release { row, col } => row < DIAMOND_SIZE && col < DIAMOND_SIZE,
            _ => true,
        }
    }

    pub open spec fn after_init(self) -> StateView {
        StateView { pool: self.pool.after_fill(default_channels()), ..self }
    }

    /// A pending countdown runs on; when it ends nothing is pending.
    pub open spec fn after_tick(self) -> StateView {
        if self.init_delay <= 1 {
            StateView { init_delay: 0, ..self }
        } else {
            StateView { init_delay: (self.init_delay - 1) as u8, ..self }
        }
    }

    /// The state after `n` ticks with no other event between them.
    pub open spec fn after_ticks(self, n: nat) -> StateView
        decreases n,
    {
        if n == 0 {
            self
        } else {
            self.after_tick().after_ticks((n - 1) as nat)
        }
    }

    /// The receiver is configured on the tick that ends the countdown.
    pub open spec fn tick_effects(self) -> Seq<Effect> {
        if self.init_delay == 1 {
            sends(self.pool.init_messages(self.pitch_bend_range))
        } else {
            Seq::empty()
        }
    }

    /// A connection starts the countdown afresh, whatever was pending.
    pub open spec fn after_connect(self) -> StateView {
        StateView { init_delay: DEFAULT_INIT_DELAY, ..self }
    }

    /// The voice that a pressed pad gets, as it then plays: stamped with the
    /// pad and tuned to the pad's note.
    pub open spec fn pressed_voice(self, row: u8, col: u8) -> Voice
        recommends
            self.pool.queue.len() > 0,
    {
        self.pool.voices[self.pool.queue[0] as int].taken_at(row, col).with_note(
            tuned_note(self.base_note, self.pitch_bend_range, row as int, col as int),
        )
    }

    /// A pressed pad takes the voice that has waited longest. With no voice
    /// waiting the press is declined and leaves no trace.
    pub open spec fn after_press(self, row: u8, col: u8) -> StateView {
        match self.pool.next_voice() {
            None => self,
            Some(i) => StateView {
                pool: self.pool.after_take(row, col).with_voice(i, self.pressed_voice(row, col)),
                ..self
            },
        }
    }

    /// A press that gets a voice lights the pad and starts the note: bend
    /// first, then note-on. A declined press has no effect.
    pub open spec fn press_effects(self, row: u8, col: u8, velocity: u8) -> Seq<Effect> {
        match self.pool.next_voice() {
            None => Seq::empty(),
            Some(i) => seq![Effect::SetLed { row, col, rgb: spec_held_colour() }] + sends(
                self.pressed_voice(row, col).spec_note_on_messages(velocity),
            ),
        }
    }

    pub open spec fn after_release(self, row: u8, col: u8) -> StateView {
        StateView { pool: self.pool.after_release(row, col), ..self }
    }

    /// A released pad that held a voice goes back to the colour of its tone
    /// and ends the note. A pad that held none has no effect.
    pub open spec fn release_effects(self, row: u8, col: u8) -> Seq<Effect> {
        match self.pool.holder(row, col) {
            None => Seq::empty(),
            Some(i) => seq![
                Effect::SetLed { row, col, rgb: tone_at(row as int, col as int).rgb },
            ] + sends(seq![self.pool.voices[i].spec_note_off_message(RELEASE_VELOCITY)]),
        }
    }

    /// The state after an event.
    pub open spec fn step(self, event: Event) -> StateView {
        match event {
            Event::Init => self.after_init(),
            Event::Tick => self.after_tick(),
            Event::TransportConnect => self.after_connect(),
            Event::TransportDisconnect => self,
            Event::Press { row, col, velocity } => self.after_press(row, col),
            Event::Release { row, col } => self.after_release(row, col),
        }
    }

    /// The state after a run of events, each taken in the state that the
    /// events before it left. There is none if one of them is not taken.
    pub open spec fn run(self, events: Seq<Event>) -> Option<StateView>
        decreases events.len(),
    {
        if events.len() == 0 {
            Some(self)
        } else if !self.accepts(events[0]) {
            None
        } else {
            self.step(events[0]).run(events.drop_first())
        }
    }

    /// What the caller must do after an event, in this order.
    pub open spec fn effects(self, event: Event) -> Seq<Effect> {
        match event {
            Event::Init => lattice_leds(),
            Event::Tick => self.tick_effects(),
            Event::TransportConnect => Seq::empty(),
            Event::TransportDisconnect => Seq::empty(),
            Event::Press { row, col, velocity } => self.press_effects(row, col, velocity),
            Event::Release { row, col } => self.release_effects(row, col),
        }
    }
}

/// No event that the machine takes breaks its invariant.
pub proof fn lemma_step_wf(state: StateView, event: Event)
    requires
        state.wf(),
        state.accepts(event),
    ensures
        state.step(event).wf(),
{
    match event {
        Event::Init => {
            lemma_fill_wf(state.pool, default_channels());
        },
        Event::Press { row, col, velocity } => {
            lemma_take_wf(state.pool, row, col);
            match state.pool.next_voice() {
                None => {},
                Some(i) => {
                    lemma_tuned_note_wf(
                        state.base_note,
                        state.pitch_bend_range,
                        row as int,
                        col as int,
                    );
                    lemma_with_voice_wf(
                        state.pool.after_take(row, col),
                        i,
                        state.pressed_voice(row, col),
                    );
                },
            }
        },
        Event::Release { row, col } => {
            lemma_release_wf(state.pool, row, col);
        },
        _ => {},
    }
}

/// Every state that the instrument can reach is well formed: from power-up,
/// whatever events arrive in whatever order, the pool keeps its invariant.
/// In particular the voices that play and the voices that wait are always,
/// together, the voices that have a channel.
pub proof fn lemma_reachable_wf(events: Seq<Event>)
    ensures
        StateView::initial().run(events) matches Some(state) ==> state.wf()
            && state.pool.num_taken + state.pool.queue.len() == count_assigned(state.pool.voices),
{
    lemma_count_none(taken_flags(PoolView::fresh().voices));
    lemma_count_none(assigned_flags(PoolView::fresh().voices));
    lemma_run_wf(StateView::initial(), events);
}

/// A run of events from a well-formed state ends in one.
pub proof fn lemma_run_wf(state: StateView, events: Seq<Event>)
    requires
        state.wf(),
    ensures
        state.run(events) matches Some(end) ==> end.wf(),
    decreases events.len(),
{
    if events.len() > 0 && state.accepts(events[0]) {
        lemma_step_wf(state, events[0]);
        lemma_run_wf(state.step(events[0]), events.drop_first());
    }
}

/// A countdown runs its length and fires once. With `d` ticks pending, the
/// tick that configures the receiver is the `d`-th one and no other; from
/// then on nothing is pending. The ticks change nothing else.
pub proof fn lemma_countdown(state: StateView, n: nat)
    ensures
        state.after_ticks(n).init_delay == (if n < state.init_delay {
            state.init_delay - n
        } else {
            0
        }),
        state.after_ticks(n).tick_effects() == (if n + 1 == state.init_delay {
            sends(state.pool.init_messages(state.pitch_bend_range))
        } else {
            Seq::empty()
        }),
        state.after_ticks(n).pool == state.pool,
        state.after_ticks(n).base_note == state.base_note,
        state.after_ticks(n).pitch_bend_range == state.pitch_bend_range,
    decreases n,
{
    if n > 0 {
        lemma_countdown(state.after_tick(), (n - 1) as nat);
    }
}

/// Appends the sending of `messages` to `effects`.
fn push_sends(effects: &mut Vec<Effect>, messages: &[MidiMessage])
    ensures
        final(effects)@ == old(effects)@ + sends(messages@),
{
    let sinks = SINKS;
    let plan = fan_out(messages, sinks.as_slice());
    for k in 0..plan.len()
        invariant
            plan@ == emission_plan(messages@, SINKS@),
            effects@ == old(effects)@ + sends(messages@).take(k as int),
    {
        effects.push(Effect::Send(plan[k]));
    }
}

/// The instrument: the tuning, the voice pool and the countdown to the
/// configuration of the receiver.
pub struct State {
    diamond: Diamond,
    mpe: VoiceManager,
    init_delay: u8,
}

impl View for State {
    type V = StateView;

    closed spec fn view(&self) -> StateView {
        StateView {
            base_note: self.diamond.spec_base_note(),
            pitch_bend_range: self.diamond.spec_pitch_bend_range(),
            pool: self.mpe@,
            init_delay: self.init_delay,
        }
    }
}

impl State {
    /// Every pad's note is the one that the tuning's parameters give.
    pub closed spec fn is_tuned(&self) -> bool {
        self.diamond.is_tuned()
    }

    /// The tuning is valid and in place, and the pool is well formed.
    pub open spec fn wf(&self) -> bool {
        self.is_tuned() && self@.wf()
    }

    /// The instrument at power-up: the default tuning, a pool that waits for
    /// its channels, and a configuration of the receiver pending.
    pub fn new() -> (state: State)
        ensures
            state.wf(),
            state@ == StateView::initial(),
            state@.accepts(Event::Init),
    {
        State { diamond: Diamond::new(), mpe: VoiceManager::new(), init_delay: DEFAULT_INIT_DELAY }
    }

    pub fn diamond(&self) -> (diamond: &Diamond)
        ensures
            diamond.spec_base_note() == self@.base_note,
            diamond.spec_pitch_bend_range() == self@.pitch_bend_range,
            self.wf() ==> diamond.wf(),
    {
        &self.diamond
    }

    pub fn mpe(&self) -> (mpe: &VoiceManager)
        ensures
            mpe@ == self@.pool,
            self.wf() ==> mpe@.wf(),
    {
        &self.mpe
    }

    pub fn init_delay(&self) -> (ticks: u8)
        ensures
            ticks == self@.init_delay,
    {
        self.init_delay
    }

    /// Whether the surface can still become ready: the pool waits for its
    /// channels.
    pub fn accepts_init(&self) -> (accepts: bool)
        requires
            self.wf(),
        ensures
            accepts == self@.accepts(Event::Init),
    {
        self.mpe.is_unfilled()
    }

    /// The surface is ready: lights the lattice and gives the voices their
    /// channels.
    pub fn init(&mut self) -> (effects: Vec<Effect>)
        requires
            old(self).wf(),
            old(self)@.accepts(Event::Init),
        ensures
            final(self).wf(),
            final(self)@ == old(self)@.after_init(),
            effects@ == lattice_leds(),
    {
        let mut effects: Vec<Effect> = Vec::new();
        for i in 0..DIAMOND_SIZE
            invariant
                effects@ == lattice_leds().take(i * 8),
        {
            for j in 0..DIAMOND_SIZE
                invariant
                    i < 8,
                    effects@ == lattice_leds().take(i * 8 + j),
            {
                effects.push(Effect::SetLed { row: i as u8, col: j as u8, rgb: tone(i, j).rgb() });
            }
        }
        self.diamond.update_notes();
        let mut channels: [u8; MAX_VOICES] = [0;MAX_VOICES];
        for i in 0..MAX_VOICES
            invariant
                forall|k: int| 0 <= k < i ==> #[trigger] channels[k] == k + 1,
        {
            channels[i] = i as u8 + 1;
        }
        assert(channels@ =~= default_channels());
        self.mpe.fill_voices(channels.as_slice());
        effects
    }

    /// One tick of the timer. A pending countdown runs on, and the tick that
    /// ends it configures the receiver.
    pub fn tick(&mut self) -> (effects: Vec<Effect>)
        requires
            old(self).wf(),
        ensures
            final(self).wf(),
            final(self)@ == old(self)@.after_tick(),
            effects@ == old(self)@.tick_effects(),
    {
        let mut effects: Vec<Effect> = Vec::new();
        match self.init_delay {
            0 => (),
            1 => {
                let messages = self.mpe.init_mpe_messages(self.diamond.pitch_bend_range());
                push_sends(&mut effects, messages.as_slice());
                self.init_delay = 0;
            },
            _ => self.init_delay -= 1,
        }
        effects
    }

    /// Starts the countdown to the configuration of the receiver. A
    /// countdown that is already running starts again.
    pub fn schedule_init(&mut self)
        ensures
            final(self)@ == old(self)@.after_connect(),
            old(self).wf() ==> final(self).wf(),
    {
        self.init_delay = DEFAULT_INIT_DELAY;
    }

    /// A pad goes down.
    pub fn press(&mut self, row: u8, col: u8, velocity: u8) -> (effects: Vec<Effect>)
        requires
            old(self).wf(),
            row < DIAMOND_SIZE,
            col < DIAMOND_SIZE,
            velocity <= MAX_DATA,
        ensures
            final(self).wf(),
            final(self)@ == old(self)@.after_press(row, col),
            effects@ == old(self)@.press_effects(row, col, velocity),
            old(self)@.pool.pads_distinct() && old(self)@.pool.holder(row, col) is None
                ==> final(self)@.pool.pads_distinct(),
    {
        let mut effects: Vec<Effect> = Vec::new();
        let note = self.diamond.get_note(row as usize, col as usize);
        let ghost before = self.mpe@;
        if let Some(voice) = self.mpe.take(row, col) {
            effects.push(Effect::SetLed { row, col, rgb: held_colour() });
            voice.set_note(note);
            let messages = voice.note_on_messages(velocity);
            push_sends(&mut effects, messages.as_slice());
        }
        proof {
            match before.next_voice() {
                None => {},
                Some(i) => {
                    let voice = old(self)@.pressed_voice(row, col);
                    let taken = before.after_take(row, col);
                    lemma_with_voice_wf(taken, i, voice);
                    if before.pads_distinct() && before.holder(row, col) is None {
                        lemma_take_pads_distinct(before, row, col);
                        let next = taken.with_voice(i, voice);
                        assert forall|a: int, b: int|
                            0 <= a < next.voices.len() && 0 <= b < next.voices.len() && a != b && (
                            #[trigger] next.voices[a]).is_taken && (
                            #[trigger] next.voices[b]).is_taken implies !(next.voices[a].row
                            == next.voices[b].row && next.voices[a].col == next.voices[b].col) by {
                            assert(taken.voices[a].is_taken && taken.voices[b].is_taken);
                        }
                    }
                },
            }
        }
        effects
    }

    /// A pad goes up.
    pub fn release(&mut self, row: u8, col: u8) -> (effects: Vec<Effect>)
        requires
            old(self).wf(),
            row < DIAMOND_SIZE,
            col < DIAMOND_SIZE,
        ensures
            final(self).wf(),
            final(self)@ == old(self)@.after_release(row, col),
            effects@ == old(self)@.release_effects(row, col),
            old(self)@.pool.pads_distinct() ==> final(self)@.pool.pads_distinct(),
    {
        let mut effects: Vec<Effect> = Vec::new();
        let ghost before = self.mpe@;
        if let Some(voice) = self.mpe.release(row, col) {
            effects.push(Effect::SetLed { row, col, rgb: voice.rgb() });
            let message = voice.note_off_message(RELEASE_VELOCITY);
            let messages = [message];
            push_sends(&mut effects, messages.as_slice());
        }
        proof {
            match before.holder(row, col) {
                None => {},
                Some(i) => {
                    lemma_with_same_voice(before.after_release(row, col), i);
                },
            }
        }
        effects
    }

    /// Takes one event: moves the state and returns what the caller must do.
    pub fn handle(&mut self, event: Event) -> (effects: Vec<Effect>)
        requires
            old(self).wf(),
            old(self)@.accepts(event),
        ensures
            final(self).wf(),
            final(self)@ == old(self)@.step(event),
            effects@ == old(self)@.effects(event),
    {
        match event {
            Event::Init => self.init(),
            Event::Tick => self.tick(),
            Event::TransportConnect => {
                self.schedule_init();
                Vec::new()
            },
            Event::TransportDisconnect => Vec::new(),
            Event::Press { row, col, velocity } => self.press(row, col, velocity),
            Event::Release { row, col } => self.release(row, col),
        }
    }
}

} // verus!
