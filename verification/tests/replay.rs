use musicxml::attributes::{Attributes, Clef, Key, KeyMode, Time};
use musicxml::backup::Backup;
use musicxml::error::{ErrorKind, IntegrityFault};
use musicxml::forward::Forward;
use musicxml::harmony::{Pitch, Step};
use musicxml::measure::{Measure, MeasureContent};
use musicxml::note::Note;
use musicxml::primitives::DurationType;
use musicxml::yes_no::YesNo;

fn note(step: Step, duration: usize, voice: u8, chord: bool) -> MeasureContent {
    MeasureContent::Note(Note {
        duration,
        notetype: DurationType::Quarter,
        pitch: Some(Pitch { step, octave: 4 }),
        voice,
        staff: 1,
        rest: false,
        dot: vec![],
        stem: None,
        chord,
        lyrics_above: vec![],
        lyrics_below: vec![],
        notations: None,
        attack: None,
        color: None,
        default_x: None,
        default_y: None,
    })
}

fn backup(duration: usize) -> MeasureContent {
    MeasureContent::Backup(Backup { duration, footnote: None, level: None })
}

fn forward(duration: usize) -> MeasureContent {
    MeasureContent::Forward(Forward {
        duration,
        footnote: None,
        level: None,
        voice: None,
        staff: None,
    })
}

fn shape(measure: &Measure, voice: u8) -> Vec<(usize, usize)> {
    measure
        .get_voice(voice)
        .unwrap()
        .iter()
        .map(|(n, p)| (*p, n.duration))
        .collect()
}

#[test]
fn two_voices_written_one_after_the_other() {
    let measure = Measure {
        content: vec![
            note(Step::G, 2, 1, false),
            note(Step::G, 1, 1, false),
            backup(3),
            note(Step::E, 1, 2, false),
            note(Step::E, 2, 2, false),
        ],
    };
    assert_eq!(shape(&measure, 1), vec![(0, 2), (2, 1)]);
    assert_eq!(shape(&measure, 2), vec![(0, 1), (1, 2)]);
}

#[test]
fn chord_note_shares_the_position_of_the_note_before_it() {
    let measure = Measure {
        content: vec![
            note(Step::C, 4, 1, false),
            note(Step::E, 4, 1, true),
            note(Step::G, 4, 1, true),
            note(Step::D, 2, 1, false),
        ],
    };
    let voice = measure.get_voice(1).unwrap();
    let placed: Vec<(Step, usize)> =
        voice.iter().map(|(n, p)| (n.pitch.unwrap().step, *p)).collect();
    assert_eq!(
        placed,
        vec![(Step::C, 0), (Step::E, 0), (Step::G, 0), (Step::D, 4)]
    );
}

#[test]
fn chord_note_looks_to_its_own_voice() {
    let measure = Measure {
        content: vec![
            note(Step::C, 4, 1, false),
            backup(4),
            note(Step::A, 2, 2, false),
            note(Step::E, 4, 1, true),
        ],
    };
    assert_eq!(shape(&measure, 1), vec![(0, 4), (0, 4)]);
    assert_eq!(shape(&measure, 2), vec![(0, 2)]);
}

#[test]
fn chord_note_without_a_note_before_it_stands_at_the_cursor() {
    let measure = Measure {
        content: vec![forward(3), note(Step::C, 4, 1, true), note(Step::D, 1, 1, false)],
    };
    assert_eq!(shape(&measure, 1), vec![(3, 4), (3, 1)]);
}

#[test]
fn entries_come_in_order_of_position() {
    let measure = Measure {
        content: vec![
            note(Step::C, 2, 1, false),
            note(Step::D, 2, 1, false),
            backup(4),
            note(Step::E, 1, 1, false),
            forward(2),
            note(Step::F, 1, 1, false),
        ],
    };
    let voice = measure.get_voice(1).unwrap();
    let placed: Vec<(Step, usize)> =
        voice.iter().map(|(n, p)| (n.pitch.unwrap().step, *p)).collect();
    assert_eq!(
        placed,
        vec![(Step::C, 0), (Step::E, 0), (Step::D, 2), (Step::F, 3)]
    );
}

#[test]
fn backup_then_forward_restores_the_cursor() {
    let plain = Measure { content: vec![note(Step::C, 5, 1, false), note(Step::D, 1, 1, false)] };
    let detour = Measure {
        content: vec![
            note(Step::C, 5, 1, false),
            backup(3),
            forward(3),
            note(Step::D, 1, 1, false),
        ],
    };
    assert_eq!(shape(&plain, 1), shape(&detour, 1));
    assert_eq!(shape(&detour, 1), vec![(0, 5), (5, 1)]);
}

#[test]
fn backup_beyond_the_cursor_is_a_cursor_error() {
    let measure = Measure {
        content: vec![note(Step::C, 2, 1, false), backup(3), note(Step::D, 1, 2, false)],
    };
    assert_eq!(measure.get_voice(1).err(), Some(ErrorKind::CursorError));
    assert_eq!(measure.get_voice(2).err(), Some(ErrorKind::CursorError));
    assert_eq!(measure.get_voice(9).err(), Some(ErrorKind::CursorError));
}

#[test]
fn backup_to_zero_is_allowed() {
    let measure = Measure {
        content: vec![note(Step::C, 2, 1, false), backup(2), note(Step::D, 1, 2, false)],
    };
    assert_eq!(shape(&measure, 2), vec![(0, 1)]);
}

#[test]
fn cursor_beyond_the_machine_is_a_cursor_error() {
    let measure = Measure {
        content: vec![note(Step::C, usize::MAX, 1, false), note(Step::D, 1, 1, false)],
    };
    assert_eq!(measure.get_voice(1).err(), Some(ErrorKind::CursorError));
    let edge = Measure { content: vec![note(Step::C, usize::MAX, 1, false)] };
    assert_eq!(shape(&edge, 1), vec![(0, usize::MAX)]);
}

#[test]
fn events_other_than_notes_and_markers_leave_the_cursor() {
    let measure = Measure {
        content: vec![
            MeasureContent::Attributes(Attributes::empty()),
            note(Step::C, 2, 1, false),
            MeasureContent::Implicit(YesNo::Yes),
            MeasureContent::Number("7".to_string()),
            note(Step::D, 2, 1, false),
        ],
    };
    assert_eq!(shape(&measure, 1), vec![(0, 2), (2, 2)]);
}

#[test]
fn empty_measure_has_no_notes() {
    let measure = Measure { content: vec![] };
    assert!(measure.get_voice(1).unwrap().is_empty());
    assert_eq!(measure.get_attributes(), None);
}

fn attributes(divisions: usize) -> Attributes {
    Attributes {
        divisions: Some(divisions),
        staves: None,
        key: Some(Key { number: 0, fifths: 0, mode: KeyMode::Nothing }),
        time: Some(Time { beats: 4, beat_type: 4 }),
        clef: Some(Clef { sign: 'G', line: 2, number: 0 }),
    }
}

#[test]
fn single_attributes_block_is_returned() {
    let measure = Measure {
        content: vec![
            note(Step::C, 2, 1, false),
            MeasureContent::Attributes(attributes(4)),
            note(Step::D, 2, 1, false),
        ],
    };
    let found = measure.get_attributes().unwrap();
    assert_eq!(found.divisions, Some(4));
    assert_eq!(found.staves, None);
    assert_eq!(found.key.unwrap().fifths, 0);
    assert_eq!(found.time.unwrap().beats, 4);
    assert_eq!(found.time.unwrap().beat_type, 4);
    assert_eq!(found.clef.unwrap().sign, 'G');
    assert_eq!(found.clef.unwrap().line, 2);
}

#[test]
fn no_attributes_block_gives_none() {
    let measure = Measure { content: vec![note(Step::C, 2, 1, false)] };
    assert_eq!(measure.get_attributes(), None);
}

#[test]
fn several_attributes_blocks_give_none() {
    let two = Measure {
        content: vec![
            MeasureContent::Attributes(attributes(4)),
            MeasureContent::Attributes(attributes(8)),
        ],
    };
    assert_eq!(two.get_attributes(), None);
    let three = Measure {
        content: vec![
            MeasureContent::Attributes(attributes(4)),
            note(Step::C, 2, 1, false),
            MeasureContent::Attributes(attributes(4)),
            MeasureContent::Attributes(attributes(2)),
        ],
    };
    assert_eq!(three.get_attributes(), None);
}

#[test]
fn empty_attributes_hold_nothing() {
    let a = Attributes::empty();
    assert_eq!(a.divisions, None);
    assert_eq!(a.staves, None);
    assert_eq!(a.key, None);
    assert_eq!(a.time, None);
    assert_eq!(a.clef, None);
}

#[test]
fn attributes_may_be_required() {
    let none = Measure { content: vec![note(Step::C, 2, 1, false)] };
    assert_eq!(
        none.require_attributes().err(),
        Some(ErrorKind::IntegrityError(IntegrityFault::AmbiguousAttributes))
    );
    let one = Measure { content: vec![MeasureContent::Attributes(attributes(4))] };
    assert_eq!(one.require_attributes().unwrap().divisions, Some(4));
    let two = Measure {
        content: vec![
            MeasureContent::Attributes(attributes(4)),
            MeasureContent::Attributes(attributes(4)),
        ],
    };
    assert_eq!(
        two.require_attributes().err(),
        Some(ErrorKind::IntegrityError(IntegrityFault::AmbiguousAttributes))
    );
}

#[test]
fn voice_stands_at_as_many_positions_as_it_has_leading_notes() {
    let measure = Measure {
        content: vec![
            note(Step::C, 2, 1, false),
            note(Step::E, 2, 1, true),
            note(Step::D, 2, 1, false),
            backup(4),
            note(Step::A, 4, 2, false),
            forward(1),
            note(Step::F, 1, 1, false),
            note(Step::G, 1, 1, true),
        ],
    };
    let voice = measure.get_voice(1).unwrap();
    let mut positions: Vec<usize> = voice.iter().map(|(_, p)| *p).collect();
    assert_eq!(positions, vec![0, 0, 2, 5, 5]);
    positions.dedup();
    let leading = voice.iter().filter(|(n, _)| !n.chord).count();
    assert_eq!(positions.len(), 3);
    assert_eq!(leading, 3);
}

#[test]
fn two_leading_notes_at_one_position_share_it() {
    let measure = Measure {
        content: vec![note(Step::C, 2, 1, false), backup(2), note(Step::D, 2, 1, false)],
    };
    let voice = measure.get_voice(1).unwrap();
    let positions: Vec<usize> = voice.iter().map(|(_, p)| *p).collect();
    assert_eq!(positions, vec![0, 0]);
    assert_eq!(voice[0].0.pitch.unwrap().step, Step::C);
    assert_eq!(voice[1].0.pitch.unwrap().step, Step::D);
}
