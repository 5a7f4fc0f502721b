use musicxml::articulations::{ArticulationMeta, ArticulationType, Articulations};
use musicxml::attributes::{Attributes, Clef, Key, KeyMode, Time};
use musicxml::backup::Backup;
use musicxml::barline::{BarStyle, Barline};
use musicxml::codec::{Element, Tagged};
use musicxml::decimal::Decimal;
use musicxml::direction::{Direction, DirectionType, WedgeType};
use musicxml::dynamics::Dynamics;
use musicxml::error::{DecodeError, ErrorKind, IntegrityFault};
use musicxml::forward::Forward;
use musicxml::harmony::{Harmony, HarmonyItem, HarmonyKind, Pitch, Step};
use musicxml::identification::{Identification, TypedContent};
use musicxml::left_right_middle::LeftRightMiddle;
use musicxml::lyric::{Extend, Lyric};
use musicxml::measure::{Measure, MeasureContent};
use musicxml::names::Name;
use musicxml::node::Node;
use musicxml::note::{Dot, NotationType, Notations, Note, StartStop};
use musicxml::part::Part;
use musicxml::part_list::{PartList, PartListContent};
use musicxml::primitives::{DirectionUD, DurationType, Placement, SyllabicType};
use musicxml::printable_value::{FontWeight, PrintableValue};
use musicxml::root::Root;
use musicxml::score_part::{ScorePart, ScorePartContent};
use musicxml::score_partwise::ScorePartwise;
use musicxml::start_stop_continue::StartStopContinue;
use musicxml::stem::Stem;
use musicxml::work::Work;
use musicxml::yes_no::YesNo;

fn text_child(tag: &str, text: &str) -> Node {
    let mut n = Node::new(tag);
    n.set_text(text.to_string());
    n
}

fn path(e: &DecodeError) -> Vec<&str> {
    e.path.iter().map(|s| s.as_str()).collect()
}

fn lyric(text: &str, placement: Option<Placement>) -> Lyric {
    Lyric {
        color: None,
        default_x: None,
        default_y: Some(Decimal { negative: true, magnitude: 62, scale: 0 }),
        id: None,
        justify: None,
        name: None,
        number: Some(1),
        placement,
        print_object: None,
        relative_x: None,
        relative_y: None,
        time_only: None,
        syllabic: Some(SyllabicType::Single),
        text: text.to_string(),
        extend: Some(Extend {
            color: None,
            default_x: None,
            default_y: None,
            relative_x: None,
            relative_y: None,
            type_: Some(StartStopContinue::Start),
        }),
    }
}

fn rich_note() -> Note {
    Note {
        duration: 7,
        notetype: DurationType::Half,
        pitch: Some(Pitch { step: Step::G, octave: 4 }),
        voice: 2,
        staff: 1,
        rest: false,
        dot: vec![Dot {}, Dot {}],
        stem: Some(Stem {
            content: DirectionUD::Up,
            default_y: Some(Decimal { negative: false, magnitude: 105, scale: 1 }),
            ..Stem::default()
        }),
        chord: true,
        lyrics_above: vec![lyric("la", Some(Placement::Above)), lyric("li", None)],
        lyrics_below: vec![lyric("lu", Some(Placement::Below))],
        notations: Some(Notations {
            notations: vec![
                NotationType::Slur { type_: StartStop::Stop, number: 2 },
                NotationType::Articulations(Articulations {
                    articulations: vec![ArticulationType::Staccato(ArticulationMeta {
                        placement: Some(Placement::Below),
                        ..ArticulationMeta::default()
                    })],
                }),
                NotationType::Tied {
                    type_: StartStop::Start,
                    bezier_offset: None,
                    bezier_offset2: None,
                    bezier_x: Some(Decimal { negative: false, magnitude: 5, scale: 0 }),
                    bezier_x2: None,
                    bezier_y: None,
                    bezier_y2: None,
                    color: Some("#FF0000".to_string()),
                },
            ],
        }),
        attack: None,
        color: Some("#000000".to_string()),
        default_x: Some(Decimal { negative: false, magnitude: 84, scale: 0 }),
        default_y: None,
    }
}

#[test]
fn note_written_and_read_is_the_same() {
    let note = rich_note();
    let node = note.to_node("note");
    assert_eq!(node.tag, "note");
    assert_eq!(Note::from_node(&node).unwrap(), note);
    assert_eq!(Note::read_node(&note.write_node("note")).unwrap(), note);
}

#[test]
fn note_is_written_field_by_field() {
    let node = rich_note().to_node("note");
    let tags: Vec<&str> = node.children.iter().map(|c| c.tag.as_str()).collect();
    assert_eq!(
        tags,
        vec![
            "duration", "type", "pitch", "voice", "staff", "dot", "dot", "stem", "chord", "lyric",
            "lyric", "lyric", "notations"
        ]
    );
    assert_eq!(node.children[0].text, Some("7".to_string()));
    assert_eq!(node.children[1].text, Some("half".to_string()));
    assert_eq!(node.attribute("default-x"), Some(&"84".to_string()));
    assert_eq!(node.attribute("color"), Some(&"#000000".to_string()));
    assert_eq!(node.attribute("default-y"), None);
}

#[test]
fn measure_written_and_read_is_the_same() {
    let measure = Measure {
        content: vec![
            MeasureContent::Attributes(Attributes {
                divisions: Some(4),
                staves: None,
                key: Some(Key { number: 1, fifths: -3, mode: KeyMode::Minor }),
                time: Some(Time { beats: 6, beat_type: 8 }),
                clef: Some(Clef { sign: 'F', line: 4, number: 2 }),
            }),
            MeasureContent::Note(rich_note()),
            MeasureContent::Backup(Backup { duration: 3, footnote: None, level: None }),
            MeasureContent::Forward(Forward {
                duration: 2,
                footnote: Some(PrintableValue::of("see".to_string())),
                level: None,
                voice: Some("2".to_string()),
                staff: Some(1),
            }),
            MeasureContent::Harmony(Harmony {
                items: vec![
                    HarmonyItem::Root(Root {
                        step: PrintableValue::of(Step::D),
                        alter: Some(PrintableValue::of(1)),
                    }),
                    HarmonyItem::Kind(PrintableValue {
                        text: Some("7".to_string()),
                        ..PrintableValue::of(HarmonyKind::Dominant)
                    }),
                    HarmonyItem::Staff(2),
                ],
            }),
            MeasureContent::Direction(Direction {
                directiontypes: vec![
                    DirectionType::Wedge { type_: WedgeType::Crescendo, number: 1 },
                    DirectionType::Dynamic(PrintableValue::of(Dynamics::MF)),
                    DirectionType::Words(PrintableValue {
                        font_weight: Some(FontWeight::Bold),
                        ..PrintableValue::of("Allegro".to_string())
                    }),
                    DirectionType::Metronome { beat_unit: DurationType::Quarter, per_minute: 120 },
                    DirectionType::Rehersal { text: "A".to_string() },
                    DirectionType::Coda,
                    DirectionType::Segno,
                ],
                staff: 1,
                placement: Some(Placement::Above),
                directive: YesNo::No,
            }),
            MeasureContent::Barline(Barline {
                barstyle: Some(BarStyle::LightHeavy),
                footnote: None,
                location: LeftRightMiddle::Right,
                repeatdirection: None,
            }),
            MeasureContent::NonControlling(YesNo::No),
            MeasureContent::Implicit(YesNo::Yes),
            MeasureContent::Id("m1".to_string()),
            MeasureContent::Width(Decimal { negative: false, magnitude: 30995, scale: 2 }),
            MeasureContent::Number("1".to_string()),
        ],
    };
    let node = measure.to_node("measure");
    assert_eq!(node.children.len(), 12);
    assert_eq!(Measure::from_node(&node).unwrap(), measure);
}

#[test]
fn every_articulation_written_and_read_is_the_same() {
    let meta = ArticulationMeta {
        type_: Some("up".to_string()),
        relative_x: Some(Decimal { negative: true, magnitude: 15, scale: 1 }),
        ..ArticulationMeta::default()
    };
    let all = vec![
        ArticulationType::Accent(meta.clone()),
        ArticulationType::StrongAccent(meta.clone()),
        ArticulationType::Staccato(meta.clone()),
        ArticulationType::Tenuto(meta.clone()),
        ArticulationType::DetachedLegato(meta.clone()),
        ArticulationType::Staccatissimo(meta.clone()),
        ArticulationType::Spiccato(meta.clone()),
        ArticulationType::Scoop(meta.clone()),
        ArticulationType::Plop(meta.clone()),
        ArticulationType::Doit(meta.clone()),
        ArticulationType::Falloff(meta.clone()),
        ArticulationType::BreathMark(meta.clone()),
        ArticulationType::Caesura(meta.clone()),
        ArticulationType::Stress(meta.clone()),
        ArticulationType::Unstress(meta.clone()),
        ArticulationType::SoftAccent(meta.clone()),
        ArticulationType::OtherArticulation(meta.clone()),
    ];
    for a in all {
        let node = Tagged::to_node(&a);
        assert_eq!(<ArticulationType as Tagged>::from_node(&node).unwrap(), a);
    }
    assert_eq!(
        Tagged::to_node(&ArticulationType::BreathMark(meta)).tag,
        "breath-mark"
    );
}

#[test]
fn clef_sign_is_written_as_one_character() {
    let clef = Clef { sign: 'G', line: 2, number: 1 };
    let node = clef.to_node("clef");
    assert_eq!(node.children[0].tag, "sign");
    assert_eq!(node.children[0].text, Some("G".to_string()));
    assert_eq!(node.attribute("number"), Some(&"1".to_string()));
    assert_eq!(Clef::from_node(&node).unwrap(), clef);
}

#[test]
fn absent_fields_take_their_defaults() {
    let note = Note::from_node(&{
        let mut n = Node::new("note");
        n.push_child(text_child("type", "quarter"));
        n
    })
    .unwrap();
    assert_eq!(note.duration, 0);
    assert_eq!(note.voice, 0);
    assert_eq!(note.staff, 0);
    assert_eq!(note.pitch, None);
    assert!(!note.rest);
    assert!(!note.chord);
    assert!(note.dot.is_empty());
    assert_eq!(note.stem, None);
    assert_eq!(note.notations, None);
    assert_eq!(note.default_x, None);

    let attributes = Attributes::from_node(&{
        let mut n = Node::new("attributes");
        n.push_child(text_child("divisions", "4"));
        n
    })
    .unwrap();
    assert_eq!(attributes.divisions, Some(4));
    assert_eq!(attributes.staves, None);
    assert_eq!(attributes.key, None);

    let key = Key::from_node(&Node::new("key")).unwrap();
    assert_eq!(key, Key { number: 0, fifths: 0, mode: KeyMode::Nothing });

    let stem = Stem::from_node(&Node::new("stem")).unwrap();
    assert_eq!(stem, Stem::default());
    assert_eq!(stem.content, DirectionUD::Nothing);

    let kind = PrintableValue::<HarmonyKind>::from_node(&Node::new("kind")).unwrap();
    assert_eq!(kind.content, HarmonyKind::Major);
    assert_eq!(kind, PrintableValue::default());
}

#[test]
fn rest_and_chord_are_markers() {
    let mut n = Node::new("note");
    n.push_child(Node::new("rest"));
    n.push_child(text_child("duration", "4"));
    n.push_child(text_child("type", "whole"));
    let note = Note::from_node(&n).unwrap();
    assert!(note.rest);
    assert!(!note.chord);
    assert_eq!(note.pitch, None);
    n.push_child(Node::new("chord"));
    assert!(Note::from_node(&n).unwrap().chord);
}

#[test]
fn lyrics_are_kept_by_placement() {
    let mut n = Node::new("note");
    n.push_child(text_child("type", "quarter"));
    for (text, placement) in [("a", Some("below")), ("b", None), ("c", Some("above")), ("d", Some("below"))] {
        let mut l = Node::new("lyric");
        if let Some(p) = placement {
            l.set_attribute("placement", p.to_string());
        }
        l.push_child(text_child("text", text));
        n.push_child(l);
    }
    let note = Note::from_node(&n).unwrap();
    let above: Vec<&str> = note.lyrics_above.iter().map(|l| l.text.as_str()).collect();
    let below: Vec<&str> = note.lyrics_below.iter().map(|l| l.text.as_str()).collect();
    assert_eq!(above, vec!["b", "c"]);
    assert_eq!(below, vec!["a", "d"]);
}

#[test]
fn note_with_pitch_and_rest_is_a_schema_mismatch() {
    let mut n = Node::new("note");
    n.push_child(text_child("type", "quarter"));
    n.push_child(Node::new("rest"));
    let mut p = Node::new("pitch");
    p.push_child(text_child("step", "C"));
    p.push_child(text_child("octave", "4"));
    n.push_child(p);
    let e = Note::from_node(&n).unwrap_err();
    assert_eq!(e.kind, ErrorKind::SchemaMismatch);
    assert_eq!(path(&e), vec!["note"]);
}

#[test]
fn unknown_tag_is_a_structural_error() {
    let mut m = Node::new("measure");
    m.push_child(Node::new("sound"));
    let e = Measure::from_node(&m).unwrap_err();
    assert_eq!(e.kind, ErrorKind::StructuralError);
    assert_eq!(path(&e), vec!["measure", "sound"]);
    assert_eq!(e.location(), "measure/sound");

    let e = <ArticulationType as Tagged>::from_node(&Node::new("wobble")).unwrap_err();
    assert_eq!(e.kind, ErrorKind::StructuralError);
    assert_eq!(path(&e), vec!["wobble"]);
}

#[test]
fn wrong_shape_is_a_schema_mismatch() {
    let mut n = Node::new("note");
    n.push_child(text_child("type", "quarter"));
    n.push_child(text_child("duration", "long"));
    let e = Note::from_node(&n).unwrap_err();
    assert_eq!(e.kind, ErrorKind::SchemaMismatch);
    assert_eq!(path(&e), vec!["note", "duration"]);

    let mut twice = Node::new("note");
    twice.push_child(text_child("type", "quarter"));
    twice.push_child(text_child("type", "half"));
    let e = Note::from_node(&twice).unwrap_err();
    assert_eq!(e.kind, ErrorKind::SchemaMismatch);
    assert_eq!(path(&e), vec!["note"]);

    let mut stem = Node::new("stem");
    stem.set_attribute("default-y", "high".to_string());
    let e = Stem::from_node(&stem).unwrap_err();
    assert_eq!(e.kind, ErrorKind::SchemaMismatch);
    assert_eq!(path(&e), vec!["stem"]);

    let e = Stem::from_node(&text_child("stem", "sideways")).unwrap_err();
    assert_eq!(e.kind, ErrorKind::SchemaMismatch);

    let mut staves = Node::new("attributes");
    staves.push_child(text_child("staves", "256"));
    let e = Attributes::from_node(&staves).unwrap_err();
    assert_eq!(e.kind, ErrorKind::SchemaMismatch);
    assert_eq!(path(&e), vec!["attributes", "staves"]);

    let empty = Node::new("direction-type");
    let e = <DirectionType as Element>::from_node(&empty).unwrap_err();
    assert_eq!(e.kind, ErrorKind::SchemaMismatch);
}

#[test]
fn missing_field_without_default_is_reported() {
    let e = Note::from_node(&Node::new("note")).unwrap_err();
    assert_eq!(e.kind, ErrorKind::MissingRequiredField);
    assert_eq!(path(&e), vec!["note"]);

    let mut p = Node::new("pitch");
    p.push_child(text_child("step", "C"));
    let e = Pitch::from_node(&p).unwrap_err();
    assert_eq!(e.kind, ErrorKind::MissingRequiredField);

    let e = Barline::from_node(&Node::new("barline")).unwrap_err();
    assert_eq!(e.kind, ErrorKind::MissingRequiredField);
    assert_eq!(path(&e), vec!["barline"]);
}

#[test]
fn error_deep_in_a_score_carries_the_whole_path() {
    let mut note = Node::new("note");
    note.push_child(text_child("type", "quarter"));
    let mut pitch = Node::new("pitch");
    pitch.push_child(text_child("step", "H"));
    pitch.push_child(text_child("octave", "4"));
    note.push_child(pitch);
    let mut measure = Node::new("measure");
    measure.push_child(note);
    let mut part = Node::new("part");
    part.set_attribute("id", "P1".to_string());
    part.push_child(measure);
    let mut score = Node::new("score-partwise");
    score.push_child(part);
    let e = ScorePartwise::from_document(&score).unwrap_err();
    assert_eq!(e.kind, ErrorKind::SchemaMismatch);
    assert_eq!(
        path(&e),
        vec!["score-partwise", "part", "measure", "note", "pitch", "step"]
    );
    assert_eq!(e.location(), "score-partwise/part/measure/note/pitch/step");
}

fn declaration(id: &str, name: &str) -> PartListContent {
    PartListContent::ScorePart(ScorePart {
        identification: None,
        id: id.to_string(),
        content: vec![ScorePartContent::PartName(name.to_string())],
    })
}

fn score(declared: Vec<PartListContent>, bodies: Vec<&str>) -> ScorePartwise {
    ScorePartwise {
        work: Some(Work { title: "Sonata".to_string() }),
        movement_number: None,
        movement_title: Some("Adagio".to_string()),
        version: "4.0".to_string(),
        part_list: PartList { parts: declared },
        parts: bodies
            .into_iter()
            .map(|id| Part { id: id.to_string(), measures: vec![Measure { content: vec![] }] })
            .collect(),
        identification: Some(Identification {
            creators: vec![TypedContent {
                type_: Some("composer".to_string()),
                content: "Anonymous".to_string(),
            }],
            ..Identification::default()
        }),
        credits: vec![],
    }
}

#[test]
fn score_written_and_read_is_the_same() {
    let s = score(
        vec![declaration("P1", "Flute"), declaration("P2", "Oboe")],
        vec!["P1", "P2"],
    );
    assert!(s.obeys_rule());
    let document = s.to_document();
    assert_eq!(document.tag, "score-partwise");
    assert_eq!(document.attribute("version"), Some(&"4.0".to_string()));
    assert_eq!(ScorePartwise::from_document(&document).unwrap(), s);
    assert_eq!(s.declaration("P2").unwrap().content, vec![ScorePartContent::PartName("Oboe".to_string())]);
    assert_eq!(s.declaration("P3"), None);
}

#[test]
fn part_without_a_declaration_is_an_integrity_error() {
    let s = score(vec![declaration("P1", "Flute")], vec!["P1", "P2"]);
    assert!(!s.obeys_rule());
    let e = ScorePartwise::from_document(&s.to_document()).unwrap_err();
    assert_eq!(e.kind, ErrorKind::IntegrityError(IntegrityFault::UnresolvedPartId));
    assert_eq!(path(&e), vec!["score-partwise"]);
}

#[test]
fn part_declared_twice_is_an_integrity_error() {
    let s = score(
        vec![declaration("P1", "Flute"), declaration("P1", "Oboe")],
        vec!["P1"],
    );
    assert!(!s.obeys_rule());
    let e = ScorePartwise::from_document(&s.to_document()).unwrap_err();
    assert_eq!(e.kind, ErrorKind::IntegrityError(IntegrityFault::UnresolvedPartId));
}

#[test]
fn declaration_without_a_body_is_allowed() {
    let s = score(vec![declaration("P1", "Flute"), declaration("P2", "Oboe")], vec!["P2"]);
    assert!(s.obeys_rule());
    assert_eq!(ScorePartwise::from_document(&s.to_document()).unwrap(), s);
}

#[test]
fn document_with_another_root_is_a_structural_error() {
    let e = ScorePartwise::from_document(&Node::new("score-timewise")).unwrap_err();
    assert_eq!(e.kind, ErrorKind::StructuralError);
    assert_eq!(path(&e), vec!["score-timewise"]);
}

#[test]
fn printable_values_are_compared_by_their_value() {
    let plain = PrintableValue::of(Step::C);
    let bold = PrintableValue { font_weight: Some(FontWeight::Bold), ..PrintableValue::of(Step::C) };
    let other = PrintableValue { font_weight: Some(FontWeight::Bold), ..PrintableValue::of(Step::D) };
    assert!(plain.same_value(&bold));
    assert!(!bold.same_value(&other));
    assert_ne!(plain, bold);
    assert_eq!(plain.color, None);
    assert_eq!(PrintableValue::of(3u8).content, 3);
}

#[test]
fn later_attribute_of_one_name_counts() {
    let mut n = Node::new("stem");
    n.set_attribute("color", "red".to_string());
    n.set_attribute("color", "blue".to_string());
    assert_eq!(n.attribute("color"), Some(&"blue".to_string()));
    assert_eq!(n.attribute("colour"), None);
    assert_eq!(Stem::from_node(&n).unwrap().color, Some("blue".to_string()));
}

#[test]
fn children_are_found_by_tag_in_document_order() {
    let mut n = Node::new("note");
    n.push_child(text_child("dot", "1"));
    n.push_child(text_child("stem", "up"));
    n.push_child(text_child("dot", "2"));
    let dots: Vec<&str> = n
        .children_with_tag("dot")
        .iter()
        .map(|c| c.text_or_empty())
        .collect();
    assert_eq!(dots, vec!["1", "2"]);
    let others: Vec<&str> = n
        .children_without_tag("dot")
        .iter()
        .map(|c| c.tag_str())
        .collect();
    assert_eq!(others, vec!["stem"]);
    assert_eq!(n.all_children().len(), 3);
    assert_eq!(n.marker_count(Name::Dot), 2);
    assert!(n.marker(Name::Stem));
    assert!(!n.marker(Name::Chord));
    assert!(!n.has_text());
    assert_eq!(n.text_or_empty(), "");
}

#[test]
fn defaults_written_and_read_are_the_same() {
    assert_eq!(Stem::from_node(&Stem::default().to_node("stem")).unwrap(), Stem::default());
    assert_eq!(
        ArticulationMeta::from_node(&ArticulationMeta::default().to_node("accent")).unwrap(),
        ArticulationMeta::default()
    );
    assert_eq!(
        Forward::from_node(&Forward::default().to_node("forward")).unwrap(),
        Forward::default()
    );
    assert_eq!(
        Harmony::from_node(&Harmony::default().to_node("harmony")).unwrap(),
        Harmony::default()
    );
    assert_eq!(
        Identification::from_node(&Identification::default().to_node("identification")).unwrap(),
        Identification::default()
    );
    assert_eq!(
        Notations::from_node(&Notations::default().to_node("notations")).unwrap(),
        Notations::default()
    );
    assert_eq!(Part::from_node(&Part::default().to_node("part")).unwrap(), Part::default());
    assert_eq!(
        PartList::from_node(&PartList::default().to_node("part-list")).unwrap(),
        PartList::default()
    );
    assert_eq!(Root::from_node(&Root::default().to_node("root")).unwrap(), Root::default());
    assert_eq!(
        PrintableValue::<Decimal>::from_node(&PrintableValue::<Decimal>::default().to_node("x"))
            .unwrap(),
        PrintableValue::<Decimal>::default()
    );
    assert_eq!(
        PrintableValue::<String>::default().to_node("words").text,
        Some(String::new())
    );
}
