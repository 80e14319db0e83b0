use diamond_mpe::colour::Rgb;
use diamond_mpe::diamond::Note;
use diamond_mpe::message::{fan_out, Emission, MidiMessage, Port, SINKS};
use diamond_mpe::mpe::{MpeZone, VoiceManager};
use diamond_mpe::queue::{MAX_VOICES, QUEUE_SLOTS};
use diamond_mpe::tones::tone;
use diamond_mpe::voice::Voice;

fn to_wmidi(message: MidiMessage) -> wmidi::MidiMessage<'static> {
    let channel = wmidi::Channel::from_index(message.channel() - 1).unwrap();
    match message {
        MidiMessage::NoteOff { note, velocity, .. } => wmidi::MidiMessage::NoteOff(
            channel,
            wmidi::Note::try_from(note).unwrap(),
            wmidi::U7::try_from(velocity).unwrap(),
        ),
        MidiMessage::NoteOn { note, velocity, .. } => wmidi::MidiMessage::NoteOn(
            channel,
            wmidi::Note::try_from(note).unwrap(),
            wmidi::U7::try_from(velocity).unwrap(),
        ),
        MidiMessage::ControlChange { control, value, .. } => wmidi::MidiMessage::ControlChange(
            channel,
            wmidi::ControlFunction(wmidi::U7::try_from(control).unwrap()),
            wmidi::U7::try_from(value).unwrap(),
        ),
        MidiMessage::PitchBendChange { bend, .. } => {
            wmidi::MidiMessage::PitchBendChange(channel, wmidi::U14::try_from(bend).unwrap())
        }
    }
}

fn wire(message: MidiMessage) -> Vec<u8> {
    to_wmidi(message).to_vec()
}

fn filled(channels: &[u8]) -> VoiceManager {
    let mut mpe = VoiceManager::new();
    mpe.fill_voices(channels);
    mpe
}

fn assigned(mpe: &VoiceManager) -> usize {
    (0..MAX_VOICES as u8).filter(|i| mpe.get_voice(*i).unwrap().channel != 0).count()
}

fn taken(mpe: &VoiceManager) -> usize {
    (0..MAX_VOICES as u8).filter(|i| mpe.get_voice(*i).unwrap().is_taken).count()
}

fn check_invariants(mpe: &VoiceManager) {
    assert_eq!(mpe.num_taken() as usize, taken(mpe));
    assert_eq!(mpe.num_taken() as usize + mpe.num_free(), assigned(mpe));
    let free = (0..MAX_VOICES as u8).filter(|i| mpe.get_voice(*i).unwrap().can_take()).count();
    assert_eq!(mpe.num_free(), free);
}

#[test]
fn test_manager() {
    let mpe = VoiceManager::new();
    assert_eq!(mpe.num_channels(), MAX_VOICES as u8);
}

#[test]
fn voice_take_release() {
    let mut v = Voice::new();
    // No channel set - can't take yet
    assert_eq!(v.channel, 0);
    assert_eq!(v.can_take(), false);
    assert_eq!(v.is_taken, false);
    assert_eq!(v.row, 0);
    assert_eq!(v.col, 0);
    // Can take after channel is assigned
    v.set_channel(1);
    assert_eq!(v.can_take(), true);
    v.take(1, 2);
    assert_eq!(v.can_take(), false);
    assert_eq!(v.is_taken, true);
    assert_eq!(v.row, 1);
    assert_eq!(v.col, 2);
    // Release
    v.release();
    assert_eq!(v.can_take(), true);
    assert_eq!(v.is_taken, false);
    assert_eq!(v.row, 1);
    assert_eq!(v.col, 2);
}

#[test]
fn manager_take_no_voices() {
    let mut mpe = VoiceManager::new();
    assert_eq!(mpe.take(1, 2), None);
}

#[test]
fn manager_take_voices() {
    let mut mpe = VoiceManager::new();
    mpe.get_voice_mut(0).unwrap().set_channel(1);
    mpe.get_voice_mut(1).unwrap().set_channel(2);
    mpe.fill_voices(&[1, 2]);
    // Take first voice
    assert_eq!(mpe.num_taken(), 0);
    let &mut voice1 = mpe.take(1, 2).unwrap();
    assert_eq!(mpe.num_taken(), 1);
    assert_eq!(voice1, *mpe.get_voice(0).unwrap());
    assert_eq!(voice1.channel, 1);
    // Take second voice
    let &mut voice2 = mpe.take(2, 3).unwrap();
    assert_eq!(mpe.num_taken(), 2);
    assert_eq!(voice2, *mpe.get_voice(1).unwrap());
    assert_ne!(voice1, voice2);
    assert_eq!(voice2.channel, 2);
    // Can't take another one
    assert_eq!(mpe.take(3, 4), None);
    // Release voice 2
    assert_eq!(mpe.release(1, 2).unwrap().channel, 1);
    assert_eq!(mpe.release(2, 3).unwrap().channel, 2);
    // Take voice 3
    assert_eq!(mpe.num_taken(), 0);
    let &mut voice3 = mpe.take(5, 6).unwrap();
    assert_eq!(mpe.num_taken(), 1);
    assert_eq!(voice3.channel, 1);
}

#[test]
fn new_manager_is_empty() {
    let mpe = VoiceManager::new();
    assert_eq!(mpe.num_taken(), 0);
    assert_eq!(mpe.num_free(), 0);
    assert_eq!(mpe.zone(), MpeZone::Lower);
    assert!(mpe.is_unfilled());
    for i in 0..MAX_VOICES as u8 {
        assert_eq!(*mpe.get_voice(i).unwrap(), Voice::new());
    }
    assert_eq!(QUEUE_SLOTS, MAX_VOICES + 1);
    check_invariants(&mpe);
}

#[test]
fn fresh_voice() {
    let v = Voice::new();
    assert_eq!(v.note, Note::empty());
    assert_eq!((v.row, v.col, v.channel, v.is_taken), (0, 0, 0, false));
}

#[test]
fn voice_setters_chain() {
    let mut v = Voice::new();
    v.set_channel(3).take(4, 5).set_note(Note::new(60, 9000));
    assert_eq!(
        v,
        Voice { note: Note::new(60, 9000), row: 4, col: 5, channel: 3, is_taken: true }
    );
    v.release().set_channel(7);
    assert_eq!(
        v,
        Voice { note: Note::new(60, 9000), row: 4, col: 5, channel: 7, is_taken: false }
    );
}

#[test]
fn voice_colour_is_the_tone_of_its_pad() {
    let mut v = Voice::new();
    assert_eq!(v.rgb(), Rgb::new(0x0f, 0x0f, 0x0f));
    v.take(0, 4);
    assert_eq!(v.rgb(), Rgb::new(0xff, 0x00, 0x00));
    v.take(3, 7);
    assert_eq!(v.rgb(), tone(3, 7).rgb());
    assert_eq!(v.rgb(), Rgb::new(0xee, 0x82, 0xee));
}

#[test]
fn get_voice_bounds() {
    let mut mpe = filled(&[1, 2, 3, 4, 5, 6]);
    assert!(mpe.get_voice(0).is_some());
    assert!(mpe.get_voice(5).is_some());
    assert_eq!(mpe.get_voice(6), None);
    assert_eq!(mpe.get_voice(255), None);
    assert!(mpe.get_voice_mut(5).is_some());
    assert_eq!(mpe.get_voice_mut(6), None);
    assert_eq!(mpe.get_voice_mut(200), None);
    assert_eq!(mpe.get_voice(3).unwrap().channel, 4);
}

#[test]
fn get_voice_mut_changes_the_voice_in_place() {
    let mut mpe = filled(&[1, 2, 3]);
    mpe.get_voice_mut(1).unwrap().set_note(Note::new(64, 8300));
    assert_eq!(mpe.get_voice(1).unwrap().note, Note::new(64, 8300));
    assert_eq!(mpe.get_voice(0).unwrap().note, Note::empty());
    check_invariants(&mpe);
}

#[test]
fn fill_skips_zero_channels() {
    let mut mpe = filled(&[0, 5, 0, 9]);
    assert_eq!(mpe.num_free(), 2);
    assert_eq!(mpe.num_taken(), 0);
    assert!(!mpe.is_unfilled());
    check_invariants(&mpe);
    let channels: Vec<u8> = (0..6).map(|i| mpe.get_voice(i).unwrap().channel).collect();
    assert_eq!(channels, vec![0, 5, 0, 9, 0, 0]);
    // ascending index order: voice 1 before voice 3
    assert_eq!(mpe.take(0, 0).unwrap().channel, 5);
    assert_eq!(mpe.take(0, 1).unwrap().channel, 9);
    assert_eq!(mpe.take(0, 2), None);
    check_invariants(&mpe);
}

#[test]
fn fill_with_nothing() {
    let mut mpe = filled(&[]);
    assert!(mpe.is_unfilled());
    assert_eq!(mpe.take(0, 0), None);
    let mut zeros = filled(&[0, 0, 0, 0, 0, 0]);
    assert!(zeros.is_unfilled());
    assert_eq!(zeros.take(0, 0), None);
}

#[test]
fn fill_the_whole_pool() {
    let mut mpe = filled(&[1, 2, 3, 4, 5, 16]);
    assert_eq!(mpe.num_free(), MAX_VOICES);
    for k in 0..MAX_VOICES as u8 {
        check_invariants(&mpe);
        let voice = *mpe.take(k, 7 - k).unwrap();
        assert_eq!(voice, *mpe.get_voice(k).unwrap());
        assert_eq!((voice.row, voice.col, voice.is_taken), (k, 7 - k, true));
        assert_eq!(voice.channel, if k == 5 { 16 } else { k + 1 });
        assert_eq!(mpe.num_taken(), k + 1);
        assert_eq!(mpe.num_free(), MAX_VOICES - 1 - k as usize);
    }
    assert_eq!(mpe.take(7, 7), None);
    assert_eq!(mpe.num_taken(), 6);
    check_invariants(&mpe);
}

#[test]
fn exhausted_take_changes_nothing() {
    let mut mpe = filled(&[4]);
    mpe.take(2, 2).unwrap();
    let before: Vec<Voice> = (0..6).map(|i| *mpe.get_voice(i).unwrap()).collect();
    assert_eq!(mpe.take(3, 3), None);
    assert_eq!(mpe.take(2, 2), None);
    let after: Vec<Voice> = (0..6).map(|i| *mpe.get_voice(i).unwrap()).collect();
    assert_eq!(before, after);
    assert_eq!((mpe.num_taken(), mpe.num_free()), (1, 0));
}

#[test]
fn release_of_a_free_pad_changes_nothing() {
    let mut mpe = filled(&[1, 2]);
    assert_eq!(mpe.release(0, 0), None);
    mpe.take(1, 1).unwrap();
    assert_eq!(mpe.release(1, 2), None);
    assert_eq!(mpe.release(2, 1), None);
    assert_eq!((mpe.num_taken(), mpe.num_free()), (1, 1));
    // released voices keep their pad: a second release finds nothing
    assert_eq!(mpe.release(1, 1).unwrap().is_taken, false);
    assert_eq!(mpe.release(1, 1), None);
    assert_eq!((mpe.num_taken(), mpe.num_free()), (0, 2));
    check_invariants(&mpe);
}

#[test]
fn release_keeps_channel_and_pad() {
    let mut mpe = filled(&[7, 8]);
    mpe.take(3, 4).unwrap().set_note(Note::new(50, 9000));
    let released = *mpe.release(3, 4).unwrap();
    assert_eq!(
        released,
        Voice { note: Note::new(50, 9000), row: 3, col: 4, channel: 7, is_taken: false }
    );
    assert_eq!(released, *mpe.get_voice(0).unwrap());
}

#[test]
fn release_takes_the_first_holder() {
    let mut mpe = filled(&[1, 2, 3]);
    mpe.take(1, 1).unwrap();
    mpe.take(1, 1).unwrap();
    mpe.take(1, 1).unwrap();
    assert_eq!(mpe.release(1, 1).unwrap().channel, 1);
    assert_eq!(mpe.release(1, 1).unwrap().channel, 2);
    assert_eq!(mpe.release(1, 1).unwrap().channel, 3);
    assert_eq!(mpe.release(1, 1), None);
    check_invariants(&mpe);
}

#[test]
fn fifo_fairness() {
    let mut mpe = filled(&[1, 2, 3]);
    mpe.take(0, 0).unwrap();
    mpe.take(0, 1).unwrap();
    mpe.take(0, 2).unwrap();
    // B is voice 2, A is voice 0: release A, then B
    assert_eq!(mpe.release(0, 0).unwrap().channel, 1);
    assert_eq!(mpe.release(0, 2).unwrap().channel, 3);
    assert_eq!(mpe.take(5, 5).unwrap().channel, 1);
    assert_eq!(mpe.take(5, 6).unwrap().channel, 3);
    assert_eq!(mpe.take(5, 7), None);
    // the other way round
    assert_eq!(mpe.release(5, 6).unwrap().channel, 3);
    assert_eq!(mpe.release(5, 5).unwrap().channel, 1);
    assert_eq!(mpe.take(6, 5).unwrap().channel, 3);
    assert_eq!(mpe.take(6, 6).unwrap().channel, 1);
}

#[test]
fn released_voices_wait_behind_the_free_ones() {
    let mut mpe = filled(&[1, 2, 3, 4]);
    mpe.take(0, 0).unwrap();
    mpe.take(0, 1).unwrap();
    // voices 2 and 3 still wait; the released ones queue up behind them
    mpe.release(0, 1).unwrap();
    mpe.release(0, 0).unwrap();
    let order: Vec<u8> = (0..4).map(|k| mpe.take(1, k).unwrap().channel).collect();
    assert_eq!(order, vec![3, 4, 2, 1]);
}

#[test]
fn round_robin_goes_through_every_channel() {
    let mut mpe = filled(&[1, 2, 3, 4, 5, 6]);
    let mut seen = Vec::new();
    for _ in 0..18 {
        seen.push(mpe.take(2, 2).unwrap().channel);
        mpe.release(2, 2).unwrap();
        check_invariants(&mpe);
    }
    assert_eq!(seen, vec![1, 2, 3, 4, 5, 6, 1, 2, 3, 4, 5, 6, 1, 2, 3, 4, 5, 6]);
}

#[test]
fn pool_conservation_over_a_long_run() {
    let mut mpe = filled(&[3, 0, 9, 1, 0, 2]);
    check_invariants(&mpe);
    let mut seed: u32 = 12345;
    for _ in 0..2000 {
        seed = seed.wrapping_mul(1664525).wrapping_add(1013904223);
        let row = ((seed >> 8) % 3) as u8;
        let col = ((seed >> 16) % 3) as u8;
        if (seed >> 24) & 1 == 0 {
            let free = mpe.num_free();
            let got = mpe.take(row, col).is_some();
            assert_eq!(got, free > 0);
        } else {
            mpe.release(row, col);
        }
        check_invariants(&mpe);
        assert_eq!(assigned(&mpe), 4);
        assert!(mpe.num_taken() <= 4);
    }
}

#[test]
fn find_holder() {
    let mut mpe = filled(&[1, 2, 3]);
    assert_eq!(mpe.find_holder(0, 0), None);
    mpe.take(4, 4).unwrap();
    mpe.take(0, 0).unwrap();
    mpe.take(4, 4).unwrap();
    assert_eq!(mpe.find_holder(4, 4), Some(0));
    assert_eq!(mpe.find_holder(0, 0), Some(1));
    assert_eq!(mpe.find_holder(4, 0), None);
    mpe.release(4, 4).unwrap();
    assert_eq!(mpe.find_holder(4, 4), Some(2));
}

#[test]
fn master_channels() {
    assert_eq!(MpeZone::Lower.master_channel(), 1);
    assert_eq!(MpeZone::Upper.master_channel(), 16);
}

#[test]
fn mcm_messages() {
    let mpe = VoiceManager::new();
    assert_eq!(
        mpe.mcm_messages(),
        [
            MidiMessage::ControlChange { channel: 1, control: 100, value: 6 },
            MidiMessage::ControlChange { channel: 1, control: 101, value: 0 },
            MidiMessage::ControlChange { channel: 1, control: 6, value: 6 },
        ]
    );
}

#[test]
fn mode_messages() {
    let mpe = VoiceManager::new();
    assert_eq!(
        mpe.mono_mode_message(),
        MidiMessage::ControlChange { channel: 1, control: 127, value: 1 }
    );
    assert_eq!(
        mpe.poly_mode_message(),
        MidiMessage::ControlChange { channel: 1, control: 126, value: 1 }
    );
}

#[test]
fn zone_pitch_bend_range_message() {
    let mpe = VoiceManager::new();
    for range in [0u8, 1, 2, 48, 127] {
        assert_eq!(
            mpe.pitch_bend_range_message(range),
            MidiMessage::ControlChange { channel: 1, control: 99, value: range }
        );
    }
}

#[test]
fn voice_pitch_bend_range_message() {
    let mut v = Voice::new();
    assert_eq!(v.pitch_bend_range_message(2), None);
    v.set_channel(5);
    assert_eq!(
        v.pitch_bend_range_message(2),
        Some(MidiMessage::ControlChange { channel: 5, control: 99, value: 2 })
    );
    v.set_channel(16);
    assert_eq!(
        v.pitch_bend_range_message(127),
        Some(MidiMessage::ControlChange { channel: 16, control: 99, value: 127 })
    );
}

#[test]
fn init_mpe_is_five_messages_in_order() {
    let mpe = VoiceManager::new();
    for range in [1u8, 2, 48, 127] {
        let messages = mpe.init_mpe_messages(range);
        assert_eq!(messages.len(), 5);
        assert_eq!(&messages[0..3], &mpe.mcm_messages()[..]);
        assert_eq!(messages[3], mpe.poly_mode_message());
        assert_eq!(messages[4], mpe.pitch_bend_range_message(range));
        assert_eq!(
            messages,
            [
                MidiMessage::ControlChange { channel: 1, control: 100, value: 6 },
                MidiMessage::ControlChange { channel: 1, control: 101, value: 0 },
                MidiMessage::ControlChange { channel: 1, control: 6, value: 6 },
                MidiMessage::ControlChange { channel: 1, control: 126, value: 1 },
                MidiMessage::ControlChange { channel: 1, control: 99, value: range },
            ]
        );
    }
}

#[test]
fn init_mpe_goes_to_every_sink() {
    let mpe = VoiceManager::new();
    let messages = mpe.init_mpe_messages(2);
    let plan = fan_out(&messages, &SINKS);
    assert_eq!(plan.len(), 10);
    for (k, emission) in plan.iter().enumerate() {
        assert_eq!(emission.message, messages[k / 2]);
        assert_eq!(emission.port, if k % 2 == 0 { Port::Usb } else { Port::Din });
    }
}

#[test]
fn fan_out_order() {
    let a = MidiMessage::NoteOn { channel: 1, note: 60, velocity: 100 };
    let b = MidiMessage::NoteOff { channel: 1, note: 60, velocity: 0 };
    assert_eq!(
        fan_out(&[a, b], &[Port::Din, Port::Usb, Port::Din]),
        vec![
            Emission { port: Port::Din, message: a },
            Emission { port: Port::Usb, message: a },
            Emission { port: Port::Din, message: a },
            Emission { port: Port::Din, message: b },
            Emission { port: Port::Usb, message: b },
            Emission { port: Port::Din, message: b },
        ]
    );
    assert_eq!(fan_out(&[a, b], &[]), vec![]);
    assert_eq!(fan_out(&[], &SINKS), vec![]);
    assert_eq!(fan_out(&[b], &[Port::Usb]), vec![Emission { port: Port::Usb, message: b }]);
    assert_eq!(SINKS, [Port::Usb, Port::Din]);
}

#[test]
fn note_on_is_bend_then_note() {
    let mut v = Voice::new();
    v.set_channel(2).take(0, 1).set_note(Note::new(26, 8512));
    assert_eq!(
        v.note_on_messages(100),
        [
            MidiMessage::PitchBendChange { channel: 2, bend: 8512 },
            MidiMessage::NoteOn { channel: 2, note: 26, velocity: 100 },
        ]
    );
    assert_eq!(
        v.note_off_message(0),
        MidiMessage::NoteOff { channel: 2, note: 26, velocity: 0 }
    );
    assert_eq!(
        v.note_off_message(64),
        MidiMessage::NoteOff { channel: 2, note: 26, velocity: 64 }
    );
}

#[test]
fn message_channel() {
    assert_eq!(MidiMessage::NoteOn { channel: 3, note: 1, velocity: 2 }.channel(), 3);
    assert_eq!(MidiMessage::NoteOff { channel: 4, note: 1, velocity: 2 }.channel(), 4);
    assert_eq!(MidiMessage::ControlChange { channel: 5, control: 1, value: 2 }.channel(), 5);
    assert_eq!(MidiMessage::PitchBendChange { channel: 16, bend: 8192 }.channel(), 16);
}

#[test]
fn messages_are_valid_midi() {
    let mpe = VoiceManager::new();
    assert_eq!(wire(mpe.mcm_messages()[0]), vec![0xB0, 100, 6]);
    assert_eq!(wire(mpe.mcm_messages()[1]), vec![0xB0, 101, 0]);
    assert_eq!(wire(mpe.mcm_messages()[2]), vec![0xB0, 6, 6]);
    assert_eq!(wire(mpe.poly_mode_message()), vec![0xB0, 126, 1]);
    assert_eq!(wire(mpe.mono_mode_message()), vec![0xB0, 127, 1]);
    assert_eq!(wire(mpe.pitch_bend_range_message(48)), vec![0xB0, 99, 48]);
    assert_eq!(
        to_wmidi(mpe.mcm_messages()[0]),
        wmidi::MidiMessage::ControlChange(
            wmidi::Channel::Ch1,
            wmidi::ControlFunction::REGISTERED_PARAMETER_NUMBER_LSB,
            wmidi::U7::try_from(6).unwrap()
        )
    );
    assert_eq!(
        to_wmidi(mpe.mcm_messages()[2]),
        wmidi::MidiMessage::ControlChange(
            wmidi::Channel::Ch1,
            wmidi::ControlFunction::DATA_ENTRY_MSB,
            wmidi::U7::try_from(6).unwrap()
        )
    );
    let mut v = Voice::new();
    v.set_channel(16).set_note(Note::new(127, 16383));
    let on = v.note_on_messages(127);
    // fourteen bits, low seven first
    assert_eq!(wire(on[0]), vec![0xEF, 0x7F, 0x7F]);
    assert_eq!(wire(on[1]), vec![0x9F, 127, 127]);
    assert_eq!(wire(v.note_off_message(0)), vec![0x8F, 127, 0]);
    v.set_channel(1).set_note(Note::new(26, 8512));
    assert_eq!(wire(v.note_on_messages(1)[0]), vec![0xE0, 64, 66]);
    assert_eq!(
        to_wmidi(v.note_on_messages(1)[1]),
        wmidi::MidiMessage::NoteOn(
            wmidi::Channel::Ch1,
            wmidi::Note::D1,
            wmidi::U7::try_from(1).unwrap()
        )
    );
}
