use diamond_mpe::colour::{limit_colour, Colour, Rgb, COLOURS};
use diamond_mpe::diamond::{Diamond, Note, BEND_CENTRE, MAX_BEND, MAX_NOTE};
use diamond_mpe::tones::{tone, Tone, CENTS, DIAMOND_SIZE, LIMITS, SEMITONES};
use wmidi::Note as MidiNote;

fn to_cents(note: Note, bend_range: u32) -> f64 {
    (note.pitch_bend() - 8192) as f64 / 8192.0 * (bend_range as f64)
}

fn note(midi_note: MidiNote, bend: u16) -> Note {
    Note::new(u8::from(midi_note), bend)
}

#[test]
fn test_tone_semitones() {
    assert_eq!(tone(0, 0).semitones(), 0);
    assert_eq!(tone(0, 4).semitones(), 7)
}

#[test]
fn test_diamond() {
    let mut d = Diamond::new();
    d.update_notes();
    assert_eq!(d.base_note(), 24 as u8);
    assert_eq!(d.pitch_bend_range(), 1);
    // Initial notes check
    assert_eq!(d.get_note(0, 0), note(MidiNote::C1, 8192));
    assert_eq!(d.get_note(0, 1), note(MidiNote::D1, 8512));
    assert_eq!(d.get_note(0, 2), note(MidiNote::Eb1, 15262));
    assert_eq!(d.get_note(0, 4), note(MidiNote::G1, 8352));
    d.set_base_note(36);
    // Go up one octave - only semitones amount changes
    assert_eq!(d.get_note(0, 0), note(MidiNote::C2, 8192));
    assert_eq!(d.get_note(0, 1), note(MidiNote::D2, 8512));
    assert_eq!(d.get_note(0, 2), note(MidiNote::Eb2, 15262));
    assert_eq!(d.get_note(0, 4), note(MidiNote::G2, 8352));

    assert_eq!(to_cents(d.get_note(0, 0), 1), 0.0);
    assert_eq!(to_cents(d.get_note(0, 1), 1), 0.0390625);
    assert_eq!(to_cents(d.get_note(0, 2), 1), 0.863037109375);
    assert_eq!(to_cents(d.get_note(0, 4), 1), 0.01953125);
    assert_eq!(d.get_note(0, 4).midi_note(), u8::from(MidiNote::G2));

    // Larger bend range means that lower numbers are used for bend
    d.set_pitch_bend_range(48);
    assert_eq!(d.get_note(0, 0), note(MidiNote::C2, 8192));
    assert_eq!(d.get_note(0, 1), note(MidiNote::D2, 8198));
    assert_eq!(d.get_note(0, 2), note(MidiNote::Eb2, 8339));
    assert_eq!(d.get_note(0, 4), note(MidiNote::G2, 8195));

    // This results in some precision loss
    assert_eq!(to_cents(d.get_note(0, 0), 48), 0.0);
    assert_eq!(to_cents(d.get_note(0, 1), 48), 0.03515625);
    assert_eq!(to_cents(d.get_note(0, 2), 48), 0.861328125);
    assert_eq!(to_cents(d.get_note(0, 4), 48), 0.017578125);
}

#[test]
fn new_diamond_is_tuned() {
    let d = Diamond::new();
    assert_eq!(d.get_note(0, 0), Note::new(24, 8192));
    assert_eq!(d.get_note(0, 1), Note::new(26, 8512));
    assert_eq!(d.get_note(7, 0), Note::new(25, 8192 + (0x1e083711u32 >> 19) as u16));
}

#[test]
fn concrete_numbers_without_wmidi() {
    let mut d = Diamond::new();
    assert_eq!(
        (d.get_note(0, 0), d.get_note(0, 1), d.get_note(0, 2), d.get_note(0, 4)),
        (Note::new(24, 8192), Note::new(26, 8512), Note::new(27, 15262), Note::new(31, 8352))
    );
    d.set_base_note(36);
    assert_eq!(
        (d.get_note(0, 0), d.get_note(0, 1), d.get_note(0, 2), d.get_note(0, 4)),
        (Note::new(36, 8192), Note::new(38, 8512), Note::new(39, 15262), Note::new(43, 8352))
    );
    d.set_pitch_bend_range(48);
    assert_eq!(
        (d.get_note(0, 0), d.get_note(0, 1), d.get_note(0, 2), d.get_note(0, 4)),
        (Note::new(36, 8192), Note::new(38, 8198), Note::new(39, 8339), Note::new(43, 8195))
    );
}

#[test]
fn update_notes_is_deterministic() {
    for base in [0u8, 1, 24, 60, 116, 117, 127] {
        for range in [1u8, 2, 12, 48, 127] {
            let mut a = Diamond::new();
            a.set_base_note(base);
            a.set_pitch_bend_range(range);
            let mut b = Diamond::new();
            b.set_pitch_bend_range(range);
            b.set_base_note(base);
            b.update_notes();
            b.update_notes();
            for row in 0..DIAMOND_SIZE {
                for col in 0..DIAMOND_SIZE {
                    let before = a.get_note(row, col);
                    assert_eq!(before, b.get_note(row, col));
                }
            }
            a.update_notes();
            for row in 0..DIAMOND_SIZE {
                for col in 0..DIAMOND_SIZE {
                    assert_eq!(a.get_note(row, col), b.get_note(row, col));
                }
            }
        }
    }
}

#[test]
fn unison_on_the_diagonal() {
    for base in 0..=127u8 {
        for range in [1u8, 2, 7, 48, 127] {
            let mut d = Diamond::new();
            d.set_base_note(base);
            d.set_pitch_bend_range(range);
            for i in 0..DIAMOND_SIZE {
                assert_eq!(d.get_note(i, i), Note::new(base, 8192));
            }
        }
    }
}

#[test]
fn every_cell_follows_the_formula() {
    for base in [0u8, 24, 100, 127] {
        for range in 1..=127u8 {
            let mut d = Diamond::new();
            d.set_base_note(base);
            d.set_pitch_bend_range(range);
            for row in 0..DIAMOND_SIZE {
                for col in 0..DIAMOND_SIZE {
                    let sum = base as u32 + SEMITONES[row][col] as u32;
                    let number = if sum > 127 { 127 } else { sum as u8 };
                    let bend = CENTS[row][col] as u64 / ((range as u64) << 19) + 8192;
                    let got = d.get_note(row, col);
                    assert_eq!(got, Note::new(number, bend as u16));
                    assert!(got.midi_note() <= MAX_NOTE);
                    assert!(got.pitch_bend() >= BEND_CENTRE && got.pitch_bend() <= MAX_BEND);
                }
            }
        }
    }
}

#[test]
fn note_number_saturates_at_the_top() {
    let mut d = Diamond::new();
    d.set_base_note(127);
    assert_eq!(d.get_note(0, 0).midi_note(), 127);
    assert_eq!(d.get_note(0, 1).midi_note(), 127);
    assert_eq!(d.get_note(0, 7).midi_note(), 127);
    d.set_base_note(120);
    // 120 + 7 is the top key, 120 + 8 and more stay there
    assert_eq!(d.get_note(0, 4).midi_note(), 127);
    assert_eq!(d.get_note(0, 5).midi_note(), 127);
    assert_eq!(d.get_note(0, 7).midi_note(), 127);
    assert_eq!(d.get_note(0, 3).midi_note(), 125);
    assert_eq!(d.get_note(0, 5).pitch_bend(), 8192 + (0x67c0355au32 >> 19) as u16);
}

#[test]
fn largest_bend_fits_fourteen_bits() {
    let d = Diamond::new();
    // the largest deviation of the table at the smallest range
    assert_eq!(d.get_note(1, 4).pitch_bend(), 8192 + 8031);
    assert_eq!(d.get_note(1, 0).pitch_bend(), 8192 + 7871);
    let mut top = 0u16;
    for row in 0..DIAMOND_SIZE {
        for col in 0..DIAMOND_SIZE {
            top = top.max(d.get_note(row, col).pitch_bend());
        }
    }
    assert_eq!(top, 16223);
}

#[test]
fn setters_keep_the_other_parameter() {
    let mut d = Diamond::new();
    d.set_base_note(60);
    assert_eq!((d.base_note(), d.pitch_bend_range()), (60, 1));
    d.set_pitch_bend_range(12);
    assert_eq!((d.base_note(), d.pitch_bend_range()), (60, 12));
    d.set_base_note(0);
    assert_eq!((d.base_note(), d.pitch_bend_range()), (0, 12));
    assert_eq!(d.get_note(3, 3), Note::new(0, 8192));
}

#[test]
fn empty_note() {
    assert_eq!(Note::empty(), Note::new(0, 0));
    assert_eq!(Note::empty().midi_note(), u8::from(MidiNote::CMinus1));
    assert_eq!(Note::empty().pitch_bend(), 0);
}

#[test]
fn tone_table_shape() {
    for row in 0..DIAMOND_SIZE {
        for col in 0..DIAMOND_SIZE {
            let t = tone(row, col);
            assert_eq!(t.limit(), LIMITS[row][col]);
            assert_eq!(t.semitones(), SEMITONES[row][col]);
            assert_eq!(t.cents(), CENTS[row][col]);
            assert!(t.limit() % 2 == 1 && t.limit() <= 15);
            assert!(t.semitones() <= 11);
            assert_eq!(t.rgb(), limit_colour(t.limit()).rgb());
            if row == col {
                assert_eq!((t.limit(), t.semitones(), t.cents()), (1, 0, 0));
            } else {
                assert!(t.limit() > 1);
            }
        }
    }
}

#[test]
fn tone_table_entries() {
    assert_eq!(tone(0, 1), Tone::new(9, 2, 0xa02756f));
    assert_eq!(tone(0, 2), Tone::new(5, 3, 0xdcf68e36));
    assert_eq!(tone(1, 0), Tone::new(9, 9, 0xf5fd8a90));
    assert_eq!(tone(7, 6), Tone::new(15, 10, 0xce39f60f));
    assert_eq!(tone(4, 1), Tone::new(3, 7, 0x5013ab7));
    assert_eq!(tone(5, 5), Tone::new(1, 0, 0));
}

#[test]
fn tone_new_takes_the_colour_of_the_limit() {
    let t = Tone::new(3, 7, 0x5013ab7);
    assert_eq!(t.limit(), 3);
    assert_eq!(t.rgb(), Rgb::new(0xff, 0, 0));
    assert_eq!(Tone::new(15, 0, 0).rgb(), Rgb::new(0xee, 0x82, 0xee));
    assert_eq!(Tone::new(1, 0, 0).rgb(), Rgb::new(0x0f, 0x0f, 0x0f));
    assert_eq!(Tone::new(4, 0, 0).rgb(), Rgb::new(0x0f, 0x0f, 0x0f));
}

#[test]
fn palette() {
    assert_eq!(Colour::Black.code(), 0x0f0f0f);
    assert_eq!(Colour::Red.code(), 0xff0000);
    assert_eq!(Colour::Orange.code(), 0xffa500);
    assert_eq!(Colour::Yellow.code(), 0xffff00);
    assert_eq!(Colour::Green.code(), 0x008000);
    assert_eq!(Colour::Blue.code(), 0x0000ff);
    assert_eq!(Colour::Purple.code(), 0x4b0082);
    assert_eq!(Colour::Magenta.code(), 0xee82ee);
    assert_eq!(Colour::Orange.rgb(), Rgb::new(0xff, 0xa5, 0x00));
    assert_eq!(Colour::Purple.rgb(), Rgb::new(0x4b, 0x00, 0x82));
    assert_eq!(Colour::Green.rgb(), Rgb::new(0x00, 0x80, 0x00));
    let odd = [
        (1u8, Colour::Black),
        (3, Colour::Red),
        (5, Colour::Orange),
        (7, Colour::Yellow),
        (9, Colour::Green),
        (11, Colour::Blue),
        (13, Colour::Purple),
        (15, Colour::Magenta),
    ];
    for (limit, colour) in odd {
        assert_eq!(limit_colour(limit), colour);
        assert_eq!(COLOURS[limit as usize], colour);
    }
    for limit in [0u8, 2, 4, 6, 8, 10, 12, 14] {
        assert_eq!(limit_colour(limit), Colour::Black);
    }
}

#[test]
fn rgb_from_code() {
    assert_eq!(Rgb::from_code(0x123456), Rgb::new(0x12, 0x34, 0x56));
    assert_eq!(Rgb::from_code(0), Rgb::new(0, 0, 0));
    assert_eq!(Rgb::from_code(0xffffff), Rgb::new(0xff, 0xff, 0xff));
    assert_eq!(Rgb::from_code(0xab123456), Rgb::new(0x12, 0x34, 0x56));
}
