use musicxml::accidental::Accidental;
use musicxml::articulations::{ArticulationMeta, ArticulationType, Articulations};
use musicxml::attributes::{Attributes, Key, KeyMode};
use musicxml::backup::Backup;
use musicxml::barline::{BarStyle, Barline};
use musicxml::credit::Credit;
use musicxml::decimal::Decimal;
use musicxml::direction::{Direction, DirectionType, WedgeType};
use musicxml::dynamics::Dynamics;
use musicxml::error::{ErrorKind, IntegrityFault};
use musicxml::group_barline::GroupBarline;
use musicxml::group_symbol::GroupSymbol;
use musicxml::harmony::{Harmony, HarmonyItem, HarmonyKind, Pitch, Step};
use musicxml::identification::{Encoding, Identification, TypedContent};
use musicxml::left_right_middle::LeftRightMiddle;
use musicxml::lyric::Lyric;
use musicxml::measure::{Measure, MeasureContent};
use musicxml::node::Node;
use musicxml::note::{NotationType, Notations, Note, StartStop};
use musicxml::numeral::Numeral;
use musicxml::numeral_key::NumeralMode;
use musicxml::page_layout::PageLayout;
use musicxml::part_group::{GroupDisplay, PartGroup};
use musicxml::part_list::{PartList, PartListContent};
use musicxml::primitives::{DirectionUD, DurationType, Placement, SyllabicType};
use musicxml::printable_value::{
    FontStyle, FontWeight, LeftCenterRight, LeftRight, PrintableValue, Valign,
};
use musicxml::root::Root;
use musicxml::score_part::{ScorePart, ScorePartContent};
use musicxml::score_partwise::ScorePartwise;
use musicxml::start_stop_continue::StartStopContinue;
use musicxml::stem::Stem;
use musicxml::system_layout::SystemLayout;

fn element(source: roxmltree::Node) -> Node {
    let mut node = Node::new(source.tag_name().name());
    for attribute in source.attributes() {
        let name = match attribute.namespace() {
            Some("http://www.w3.org/XML/1998/namespace") => format!("xml:{}", attribute.name()),
            _ => attribute.name().to_string(),
        };
        node.set_attribute(&name, attribute.value().to_string());
    }
    let mut text = String::new();
    let mut has_children = false;
    for child in source.children() {
        if child.is_element() {
            has_children = true;
            node.push_child(element(child));
        } else if child.is_text() {
            text.push_str(child.text().unwrap_or(""));
        }
    }
    if !has_children && !text.trim().is_empty() {
        node.set_text(text.trim().to_string());
    }
    node
}

fn tree(xml: &str) -> Node {
    let document = roxmltree::Document::parse(xml).unwrap();
    element(document.root_element())
}

fn value(d: Decimal) -> f64 {
    let mut v = d.magnitude as f64;
    for _ in 0..d.scale {
        v /= 10.0;
    }
    if d.negative {
        -v
    } else {
        v
    }
}

#[test]
fn articluation() {
    let mut xml = r#"<staccato placement="below"/>"#;
    let mut art = ArticulationType::read_node(&tree(xml)).unwrap();
    assert_eq!(
        art,
        ArticulationType::Staccato(ArticulationMeta {
            placement: Some(Placement::Below),
            ..ArticulationMeta::default()
        })
    );

    xml = r#"<tenuto placement="below"/>"#;
    art = ArticulationType::read_node(&tree(xml)).unwrap();
    assert_eq!(
        art,
        ArticulationType::Tenuto(ArticulationMeta {
            placement: Some(Placement::Below),
            ..ArticulationMeta::default()
        })
    );

    xml = r#"<accent placement="below"/>"#;
    art = ArticulationType::read_node(&tree(xml)).unwrap();
    assert_eq!(
        art,
        ArticulationType::Accent(ArticulationMeta {
            placement: Some(Placement::Below),
            ..ArticulationMeta::default()
        })
    );

    xml = r#"<strong-accent placement="above" type="up"/>"#;
    art = ArticulationType::read_node(&tree(xml)).unwrap();
    assert_eq!(
        art,
        ArticulationType::StrongAccent(ArticulationMeta {
            placement: Some(Placement::Above),
            type_: Some("up".to_string()),
            ..ArticulationMeta::default()
        })
    );
}

#[test]
fn accent() {
    let xml = r#"
        <note default-x="36">
            <pitch>
                <step>A</step>
                <octave>4</octave>
            </pitch>
            <duration>4</duration>
            <voice>1</voice>
            <type>half</type>
            <stem default-y="10">up</stem>
            <notations>
                <articulations>
                    <accent default-x="-1" default-y="-55" placement="below"/>
                </articulations>
            </notations>
        </note>"#;
    let note = Note::read_node(&tree(xml)).unwrap();
    let notations = note.notations.unwrap();
    match &notations.notations[0] {
        NotationType::Articulations(a) => match &a.articulations[0] {
            ArticulationType::Accent(meta) => {
                assert_eq!(value(meta.default_x.unwrap()), -1.0);
                assert_eq!(value(meta.default_y.unwrap()), -55.0);
                assert_eq!(meta.placement, Some(Placement::Below));
            }
            _ => panic!("Expected an accent"),
        },
        _ => panic!("Expected articulations"),
    }
}

#[test]
fn articulations() {
    let xml = r#"<articulations>
            <staccato placement="below"/>
            <tenuto placement="below"/>
            <accent placement="below"/>
            <strong-accent placement="above" type="up"/>
        </articulations>"#;
    let arts = Articulations::read_node(&tree(xml)).unwrap();
    let mut art = &arts.articulations[0];
    assert_eq!(
        art,
        &ArticulationType::Staccato(ArticulationMeta {
            placement: Some(Placement::Below),
            ..ArticulationMeta::default()
        })
    );
    art = &arts.articulations[1];
    assert_eq!(
        art,
        &ArticulationType::Tenuto(ArticulationMeta {
            placement: Some(Placement::Below),
            ..ArticulationMeta::default()
        })
    );
    art = &arts.articulations[2];
    assert_eq!(
        art,
        &ArticulationType::Accent(ArticulationMeta {
            placement: Some(Placement::Below),
            ..ArticulationMeta::default()
        })
    );
    art = &arts.articulations[3];
    assert_eq!(
        art,
        &ArticulationType::StrongAccent(ArticulationMeta {
            placement: Some(Placement::Above),
            type_: Some("up".to_string()),
            ..ArticulationMeta::default()
        })
    );
}

#[test]
fn attributes() {
    let xml = r#"
            <attributes>
                <divisions>4</divisions>
                <key number="1">
                    <fifths>0</fifths>
                    <mode>none</mode>
                </key>
                <time>
                    <beats>4</beats>
                    <beat-type>4</beat-type>
                </time>
                <staves>1</staves>
                <clef number="1">
                    <sign>G</sign>
                    <line>2</line>
                </clef>
            </attributes>"#;
    let attribs = Attributes::read_node(&tree(xml)).unwrap();
    assert_eq!(attribs.divisions, Some(4));
    assert_eq!(attribs.staves, Some(1));
    let key = attribs.key.unwrap();
    assert_eq!(key.number, 1);
    assert_eq!(key.fifths, 0);
    assert_eq!(key.mode, KeyMode::Nothing);
    let time = attribs.time.unwrap();
    assert_eq!(time.beats, 4);
    assert_eq!(time.beat_type, 4);
    let clef = attribs.clef.unwrap();
    assert_eq!(clef.sign, 'G');
    assert_eq!(clef.line, 2);
    assert_eq!(clef.number, 1);
}

#[test]
fn backup() {
    let xml = r#"
            <backup>
              <duration>3</duration>
            </backup>
        "#;
    let item = Backup::read_node(&tree(xml)).unwrap();
    assert_eq!(item.duration, 3);
    assert_eq!(item.footnote, None);
    assert_eq!(item.level, None);
}

#[test]
fn barline() {
    let mut xml = r#"
            <barline location="middle">
                <bar-style>dashed</bar-style>
            </barline>"#;
    let barline = Barline::read_node(&tree(xml)).unwrap();
    assert_eq!(barline.location, LeftRightMiddle::Middle);
    assert_eq!(barline.barstyle.unwrap(), BarStyle::Dashed);
    xml = r#"
            <barline location="right">
                <bar-style>light-light</bar-style>
            </barline>"#;
    let barline = Barline::read_node(&tree(xml)).unwrap();
    assert_eq!(barline.location, LeftRightMiddle::Right);
    assert_eq!(barline.barstyle.unwrap(), BarStyle::LightLight);
}

#[test]
fn core_example() {
    assert_eq!(
        ArticulationType::Tenuto(ArticulationMeta::default()),
        ArticulationType::from_str("tenuto").unwrap()
    );
    assert_eq!(Placement::Above, Placement::from_str("above").unwrap());
    assert_eq!(
        NotationType::Articulations(Articulations {
            articulations: vec![ArticulationType::Tenuto(ArticulationMeta::default())]
        }),
        NotationType::Articulations(Articulations {
            articulations: vec![ArticulationType::Tenuto(ArticulationMeta::default())]
        })
    );
}

#[test]
fn credit() {
    let xml = r#"
            <credit page="1">
                <credit-type>title</credit-type>
                <credit-words default-x="683" default-y="1725" font-size="24" font-weight="bold" halign="center" valign="top">Sonata, Op. 27, No. 2</credit-words>
            </credit>"#;
    let item = Credit::read_node(&tree(xml)).unwrap();
    assert_eq!(item.credit_type.unwrap(), "title".to_string());
    let words = item.credit_words.unwrap();
    assert_eq!(value(words.default_x.unwrap()), 683.0);
    assert_eq!(value(words.default_y.unwrap()), 1725.0);
    assert_eq!(value(words.font_size.unwrap()), 24.0);
    assert_eq!(words.font_weight.unwrap(), FontWeight::Bold);
    assert_eq!(words.halign.unwrap(), LeftCenterRight::Center);
    assert_eq!(words.valign.unwrap(), Valign::Top);
    assert_eq!(words.content, "Sonata, Op. 27, No. 2".to_string());
}

#[test]
fn direction_1() {
    let xml = r#"
            <direction>
                <direction-type>
                    <wedge type="crescendo" number="1"/>
                </direction-type>
                <staff>1</staff>
            </direction>"#;
    let item = Direction::read_node(&tree(xml)).unwrap();
    assert_eq!(item.staff, 1);
    assert_eq!(item.directiontypes.len(), 1);
    assert_eq!(
        item.directiontypes[0],
        DirectionType::Wedge {
            type_: WedgeType::Crescendo,
            number: 1
        }
    );
}

#[test]
fn direction_2() {
    let xml = r#"
            <direction placement="above" directive="yes">
                <direction-type>
                    <words font-style="normal" font-weight="bold">Allegro moderato</words>
                </direction-type>
                <direction-type>
                    <metronome>
                        <beat-unit>quarter</beat-unit>
                        <per-minute>120</per-minute>
                    </metronome>
                </direction-type>
                <staff>1</staff>
            </direction>"#;
    let item = Direction::read_node(&tree(xml)).unwrap();
    assert_eq!(item.staff, 1);
    assert_eq!(item.directiontypes.len(), 2);
    let dir_type0 = &item.directiontypes[0];
    let dir_type1 = &item.directiontypes[1];
    let check = PrintableValue::<String> {
        content: "Allegro moderato".to_string(),
        font_style: Some(FontStyle::Normal),
        font_weight: Some(FontWeight::Bold),
        ..Default::default()
    };
    assert_eq!(*dir_type0, DirectionType::Words(check));
    assert_eq!(
        *dir_type1,
        DirectionType::Metronome {
            beat_unit: DurationType::Quarter,
            per_minute: 120
        }
    );
}

#[test]
fn frame() {
    let xml = r#"
        <harmony font-family="Arial">
            <root>
                <root-step>A</root-step>
            </root>
            <kind halign="center" text="">major</kind>
            <frame default-y="93" halign="center" unplayed="x" valign="top">
                <frame-strings>6</frame-strings>
                <frame-frets>4</frame-frets>
                <frame-note>
                    <string>5</string>
                    <fret>0</fret>
                </frame-note>
                <frame-note>
                    <string>4</string>
                    <fret>2</fret>
                    <fingering>2</fingering>
                </frame-note>
                <frame-note>
                    <string>3</string>
                    <fret>2</fret>
                    <fingering>3</fingering>
                </frame-note>
                <frame-note>
                    <string>2</string>
                    <fret>2</fret>
                    <fingering>4</fingering>
                </frame-note>
                <frame-note>
                    <string>1</string>
                    <fret>0</fret>
                </frame-note>
            </frame>
        </harmony>
        "#;
    let item = Harmony::read_node(&tree(xml)).unwrap();
    assert_eq!(item.items.len(), 3);
    match &item.items[2] {
        HarmonyItem::Frame(f) => {
            assert_eq!(f.frame_strings, 6);
            assert_eq!(f.frame_frets, 4);
            assert_eq!(f.frame_notes.len(), 5);
            assert_eq!(f.frame_notes[1].content.content, 4);
            assert_eq!(f.frame_notes[1].fret.content, 2);
            assert_eq!(f.frame_notes[1].fingering.as_ref().unwrap().content, "2");
        }
        _ => panic!("Expected a frame."),
    }
}

#[test]
fn nano_sec_error() {
    let xml = r#"
            <harmony>
                <root>
                    <root-step>D</root-step>
                    <root-alter>0</root-alter>
                </root>
                <kind text="">major</kind>
            </harmony>
        "#;
    let item = Harmony::read_node(&tree(xml)).unwrap();
    match &item.items[0] {
        HarmonyItem::Root(r) => {
            assert_eq!(r.step.content, Step::D);
            assert_eq!(r.alter.clone().unwrap().content, 0);
        }
        _ => {
            panic!("Expected a root.");
        }
    }
    match &item.items[1] {
        HarmonyItem::Kind(k) => {
            assert_eq!(k.content, HarmonyKind::Major);
        }
        _ => {
            panic!("Expected a harmony kind.");
        }
    }
}

#[test]
fn harmony_example() {
    let xml = r#"
            <harmony>
                <root>
                    <root-step>A</root-step>
                    <root-alter>0</root-alter>
                </root>
                <kind text="7">dominant</kind>
                <bass>
                    <bass-step>E</bass-step>
                    <bass-alter>0</bass-alter>
                </bass>
            </harmony>"#;
    let item = Harmony::read_node(&tree(xml)).unwrap();
    match &item.items[0] {
        HarmonyItem::Root(r) => {
            assert_eq!(r.step.content, Step::A);
            assert_eq!(r.alter.clone().unwrap().content, 0);
        }
        _ => {
            panic!("Expected a root.");
        }
    }
    match &item.items[1] {
        HarmonyItem::Kind(k) => {
            assert_eq!(k.content, HarmonyKind::Dominant);
            assert_eq!(k.text.clone().unwrap(), "7".to_string());
        }
        _ => {
            panic!("Expected a harmony kind.");
        }
    }
    match &item.items[2] {
        HarmonyItem::Bass(b) => {
            assert_eq!(b.step.content, Step::E);
            assert_eq!(value(b.alter.clone().unwrap().content), 0.0);
        }
        _ => {
            panic!("Expected a harmony kind.");
        }
    }
}

#[test]
fn harmony_kind() {
    let xml = r#"
            <harmony>
                <root>
                    <root-step>D</root-step>
                    <root-alter>0</root-alter>
                </root>
                <kind text="">major</kind>
            </harmony>
        "#;
    let item = Harmony::read_node(&tree(xml)).unwrap();
    match &item.items[0] {
        HarmonyItem::Root(r) => {
            assert_eq!(r.step.content, Step::D);
            assert_eq!(r.alter.clone().unwrap().content, 0);
        }
        _ => {
            panic!("Expected a root.");
        }
    }
    match &item.items[1] {
        HarmonyItem::Kind(k) => {
            assert_eq!(k.content, HarmonyKind::Major);
        }
        _ => {
            panic!("Expected a harmony kind.");
        }
    }
}

#[test]
fn harmony_item() {
    let xml = r#"
            <harmony default-y="-80">
                <numeral>
                    <numeral-root text="IV">4</numeral-root>
                </numeral>
                <kind halign="center" text="">minor</kind>
                <inversion>1</inversion>
            </harmony>
        "#;
    let item = Harmony::read_node(&tree(xml)).unwrap();
    assert_eq!(item.items.len(), 3);
    match &item.items[0] {
        HarmonyItem::Numeral(num) => {
            assert_eq!(num.root.text.clone().unwrap(), "IV".to_string());
            assert_eq!(num.root.content, 4);
        }
        _ => {
            panic!("Expected a numeral.");
        }
    }
    match &item.items[1] {
        HarmonyItem::Kind(k) => {
            assert_eq!(k.halign.clone().unwrap(), LeftCenterRight::Center);
            assert_eq!(k.content, HarmonyKind::Minor);
        }
        _ => {
            panic!("Expected a kind.");
        }
    }
    match &item.items[2] {
        HarmonyItem::Inversion(i) => {
            assert_eq!(i.content, 1);
        }
        _ => {
            panic!("Expected a kind.");
        }
    }
}

#[test]
fn harmony_item_2() {
    let xml = r#"
            <harmony>
                <root>
                    <root-step>C</root-step>
                </root>
                <kind halign="center" text="">major</kind>
                <bass arrangement="horizontal">
                    <bass-step>G</bass-step>
                    <bass-alter>1</bass-alter>
                </bass>
            </harmony>
        "#;
    let item = Harmony::read_node(&tree(xml)).unwrap();
    match &item.items[0] {
        HarmonyItem::Root(r) => {
            assert_eq!(r.step.content, Step::C);
        }
        _ => {
            panic!("Expected a root.");
        }
    }
    match &item.items[1] {
        HarmonyItem::Kind(k) => {
            assert_eq!(k.halign.clone().unwrap(), LeftCenterRight::Center);
            assert_eq!(k.content, HarmonyKind::Major);
        }
        _ => {
            panic!("Expected a harmony kind.");
        }
    }
    match &item.items[2] {
        HarmonyItem::Bass(b) => {
            assert_eq!(b.step.content, Step::G);
            assert_eq!(value(b.alter.clone().unwrap().content), 1.0);
        }
        _ => {
            panic!("Expected a harmony kind.");
        }
    }
}

#[test]
fn harmony_3() {
    let xml = r#"
            <harmony>
                <root>
                    <root-step>C</root-step>
                    <root-alter>0</root-alter>
                </root>
                <kind>major</kind>
                <frame>
                    <frame-strings>6</frame-strings>
                    <frame-frets>5</frame-frets>
                    <first-fret>1</first-fret>
                    <frame-note>
                        <string>5</string>
                        <fret>3</fret>
                    </frame-note>
                    <frame-note>
                        <string>4</string>
                        <fret>5</fret>
                    </frame-note>
                        <frame-note>
                        <string>3</string>
                        <fret>5</fret>
                    </frame-note>
                    <frame-note>
                        <string>2</string>
                        <fret>5</fret>
                    </frame-note>
                </frame>
            </harmony>
        "#;
    let item = Harmony::read_node(&tree(xml)).unwrap();
    match &item.items[0] {
        HarmonyItem::Root(root) => {
            assert_eq!(root.step.content, Step::C);
            assert_eq!(root.alter.clone().unwrap().content, 0);
        }
        _ => {
            panic!("Expected different item");
        }
    }
}

#[test]
fn identification() {
    let xml = r#"
            <identification>
                <creator type="composer">C. Debussy</creator>
                <creator type="lyricist">Paul Bourget</creator>
                <rights>Copyright © 2010 Recordare LLC</rights>
                <encoding>
                    <encoder>Mark D. Lew</encoder>
                    <encoding-date>2010-12-17</encoding-date>
                    <software>Finale for Windows</software>
                    <encoding-description>MusicXML example</encoding-description>
                    <supports element="accidental" type="yes"/>
                    <supports element="beam" type="yes"/>
                    <supports element="stem" type="yes"/>
                </encoding>
                <source>Based on E. Girod edition of 1891, republished by Dover in 1981.</source>
                <relation>urn:ISBN:0-486-24131-9</relation>
                <miscellaneous>
                    <miscellaneous-field name="difficulty-level">3</miscellaneous-field>
                </miscellaneous>
            </identification>
        "#;
    let item = Identification::read_node(&tree(xml)).unwrap();
    let composer = &item.creators[0];
    let lyricist = &item.creators[1];
    let rights = &item.rights[0];
    let encoding_check = Encoding {
        encoding_date: Some("2010-12-17".to_string()),
        encoder: vec![TypedContent {
            type_: None,
            content: "Mark D. Lew".to_string(),
        }],
        software: Some("Finale for Windows".to_string()),
        encoding_description: Some("MusicXML example".to_string()),
    };
    let encoding = item.encoding.unwrap();
    assert_eq!(composer.type_.clone().unwrap(), "composer".to_string());
    assert_eq!(composer.content, "C. Debussy".to_string());
    assert_eq!(lyricist.type_.clone().unwrap(), "lyricist".to_string());
    assert_eq!(lyricist.content, "Paul Bourget".to_string());
    assert_eq!(rights.type_.clone(), None);
    assert_eq!(rights.content, "Copyright © 2010 Recordare LLC".to_string());
    assert_eq!(encoding, encoding_check);
    assert_eq!(
        item.source.unwrap(),
        "Based on E. Girod edition of 1891, republished by Dover in 1981.".to_string()
    );
    assert_eq!(item.relation.unwrap(), "urn:ISBN:0-486-24131-9".to_string());
    let misc = &item.miscellaneous.unwrap();
    assert_eq!(misc.miscellaneous_fields.len(), 1);
    assert_eq!(
        misc.miscellaneous_fields[0].name,
        "difficulty-level".to_string()
    );
    assert_eq!(misc.miscellaneous_fields[0].content, "3".to_string());
}

#[test]
fn lyric_1() {
    let xml = r#"
            <lyric number="1" placement="below">
                <syllabic>begin</syllabic>
                <text>Hej</text>
            </lyric>"#;
    let item = Lyric::read_node(&tree(xml)).unwrap();
    assert_eq!(Placement::Below, item.placement.unwrap());
    assert_eq!(SyllabicType::Begin, item.syllabic.unwrap());
    assert_eq!("Hej", item.text);
}

#[test]
fn lyric_2() {
    let xml = r#"
            <lyric default-y="-62" justify="left" number="1">
                <syllabic>single</syllabic>
                <text>Ah</text>
                <extend type="start"/>
            </lyric>
        "#;
    let item = Lyric::read_node(&tree(xml)).unwrap();
    assert_eq!(value(item.default_y.unwrap()), -62.0);
    assert_eq!(item.justify.unwrap(), LeftCenterRight::Left);
    assert_eq!(item.number.unwrap(), 1);
    assert_eq!(item.number, Some(1));
    assert_eq!(item.syllabic.unwrap(), SyllabicType::Single);
    assert_eq!(item.text, "Ah");
    assert_eq!(item.extend.unwrap().type_.unwrap(), StartStopContinue::Start);
}

#[test]
fn measure_example() {
    let xml: &str = r#"
          <measure number="1">
            <attributes>
              <divisions>1</divisions>
              <key>
                <fifths>0</fifths>
              </key>
              <time>
                <beats>4</beats>
                <beat-type>4</beat-type>
              </time>
              <clef>
                <sign>G</sign>
                <line>2</line>
              </clef>
            </attributes>

            <note>
              <pitch>
                <step>C</step>
                <octave>4</octave>
              </pitch>
              <duration>4</duration>
              <type>whole</type>
            </note>

          </measure>"#;

    let item = Measure::read_node(&tree(xml)).unwrap();

    assert_eq!(2, item.content.len());

    match &item.content[0] {
        MeasureContent::Attributes(a) => {
            assert_eq!(a.divisions.unwrap(), 1);
            assert_eq!(
                a.key.clone().unwrap(),
                Key {
                    number: 0,
                    fifths: 0,
                    mode: KeyMode::Nothing
                }
            );

            assert_eq!(a.time.clone().unwrap().beats, 4);
            assert_eq!(a.time.clone().unwrap().beat_type, 4);

            assert_eq!(a.clef.clone().unwrap().sign, 'G');
            assert_eq!(a.clef.clone().unwrap().line, 2);
        }

        _ => {
            panic!("Expected attributes")
        }
    }

    match &item.content[1] {
        MeasureContent::Note(n) => {
            assert_eq!(
                n.pitch.clone().unwrap(),
                Pitch {
                    step: Step::C,
                    octave: 4
                }
            );
            assert_eq!(n.duration, 4);
            assert_eq!(n.notetype, DurationType::Whole);
        }
        _ => {
            panic!("Expected note")
        }
    }
}

const TWO_VOICES: &str = r#"
        <measure number="1" width="309.95">
          <note>
            <pitch>
              <step>G</step>
              <octave>4</octave>
            </pitch>
            <duration>2</duration>
            <voice>1</voice>
            <type>half</type>
            <stem>up</stem>
          </note>

          <note>
            <pitch>
              <step>G</step>
              <octave>4</octave>
            </pitch>
            <duration>1</duration>
            <voice>1</voice>
            <type>quarter</type>
            <stem>up</stem>
          </note>

          <backup>
              <duration>3</duration>
          </backup>

          <note>
            <pitch>
              <step>E</step>
              <octave>4</octave>
            </pitch>
            <duration>1</duration>
            <voice>2</voice>
            <type>quarter</type>
            <stem>down</stem>
          </note>

          <note>
            <pitch>
              <step>E</step>
              <octave>4</octave>
            </pitch>
            <duration>2</duration>
            <voice>2</voice>
            <type>half</type>
            <stem>down</stem>
          </note>

          <barline location="right">
            <bar-style>light-heavy</bar-style>
          </barline>

        </measure>"#;

#[test]
fn test_multiple_notes() {
    let item = Measure::read_node(&tree(TWO_VOICES)).unwrap();
    assert_eq!(item.content.len(), 6);
}

#[test]
fn two_voices_are_placed_by_the_replay() {
    let item = Measure::read_node(&tree(TWO_VOICES)).unwrap();
    let voice1 = item.get_voice(1).unwrap();
    let voice2 = item.get_voice(2).unwrap();
    let shape1: Vec<(usize, usize)> = voice1.iter().map(|(n, p)| (*p, n.duration)).collect();
    let shape2: Vec<(usize, usize)> = voice2.iter().map(|(n, p)| (*p, n.duration)).collect();
    assert_eq!(shape1, vec![(0, 2), (2, 1)]);
    assert_eq!(shape2, vec![(0, 1), (1, 2)]);
    assert_eq!(voice1[0].0.pitch.unwrap().step, Step::G);
    assert_eq!(voice2[0].0.pitch.unwrap().step, Step::E);
    assert!(item.get_voice(3).unwrap().is_empty());
}

#[test]
fn test_note_values() {
    let xml = r#"
        <measure number="1">
        <attributes>
          <divisions>16</divisions>
          <key number="1">
            <fifths>0</fifths>
            <mode>none</mode>
          </key>
          <staves>1</staves>
          <clef number="1">
            <sign>G</sign>
            <line>2</line>
          </clef>
        </attributes>
        <note>
          <pitch>
            <step>G</step>
            <octave>4</octave>
          </pitch>
          <duration>128</duration>
          <voice>1</voice>
          <type>breve</type>
          <stem>up</stem>
          <staff>1</staff>
        </note>
        <note>
          <pitch>
            <step>G</step>
            <octave>4</octave>
          </pitch>
          <duration>64</duration>
          <voice>1</voice>
          <type>whole</type>
          <stem>up</stem>
          <staff>1</staff>
        </note>
        <note>
          <pitch>
            <step>G</step>
            <octave>4</octave>
          </pitch>
          <duration>32</duration>
          <voice>1</voice>
          <type>half</type>
          <stem>up</stem>
          <staff>1</staff>
        </note>
        <note>
          <pitch>
            <step>G</step>
            <octave>4</octave>
          </pitch>
          <duration>16</duration>
          <voice>1</voice>
          <type>quarter</type>
          <stem>up</stem>
          <staff>1</staff>
        </note>
        <note>
          <pitch>
            <step>G</step>
            <octave>4</octave>
          </pitch>
          <duration>8</duration>
          <voice>1</voice>
          <type>eighth</type>
          <stem>up</stem>
          <staff>1</staff>
          <beam number="1">begin</beam>
        </note>
        <note>
          <pitch>
            <step>G</step>
            <octave>4</octave>
          </pitch>
          <duration>4</duration>
          <voice>1</voice>
          <type>16th</type>
          <stem>up</stem>
          <staff>1</staff>
          <beam number="1">continue</beam>
          <beam number="2">begin</beam>
        </note>
        <note>
          <pitch>
            <step>G</step>
            <octave>4</octave>
          </pitch>
          <duration>2</duration>
          <voice>1</voice>
          <type>32nd</type>
          <stem>up</stem>
          <staff>1</staff>
          <beam number="1">continue</beam>
          <beam number="2">continue</beam>
          <beam number="3">begin</beam>
        </note>
        <note>
          <pitch>
            <step>G</step>
            <octave>4</octave>
          </pitch>
          <duration>1</duration>
          <voice>1</voice>
          <type>64th</type>
          <stem>up</stem>
          <staff>1</staff>
          <beam number="1">end</beam>
          <beam number="2">end</beam>
          <beam number="3">end</beam>
          <beam number="4">backward hook</beam>
        </note>
        <barline location="right">
          <bar-style>light-heavy</bar-style>
        </barline>
      </measure>"#;

    let item = Measure::read_node(&tree(xml)).unwrap();
    let types: Vec<DurationType> = item
        .get_voice(1)
        .unwrap()
        .iter()
        .map(|(n, _)| n.notetype)
        .collect();
    assert_eq!(
        types,
        vec![
            DurationType::Breve,
            DurationType::Whole,
            DurationType::Half,
            DurationType::Quarter,
            DurationType::Eighth,
            DurationType::Sixteenth,
            DurationType::Thirtysecond,
            DurationType::Sixtyfourth
        ]
    );
    let positions: Vec<usize> = item.get_voice(1).unwrap().iter().map(|(_, p)| *p).collect();
    assert_eq!(positions, vec![0, 128, 192, 224, 240, 248, 252, 254]);
    assert_eq!(item.get_attributes().unwrap().divisions, Some(16));
}

#[test]
fn test_harmonies() {
    let xml = r#"
        <measure number="1">
        <attributes>
          <divisions>4</divisions>

          <key number="1">
            <fifths>2</fifths>
            <mode>major</mode>
          </key>

          <time>
            <beats>4</beats>
            <beat-type>4</beat-type>
          </time>

          <staves>1</staves>

          <clef number="1">
            <sign>G</sign>
            <line>2</line>
          </clef>

        </attributes>

        <note>
          <pitch>
            <step>G</step>
            <octave>4</octave>
          </pitch>
          <duration>4</duration>
          <voice>1</voice>
          <type>quarter</type>
          <stem>up</stem>
          <staff>1</staff>
        </note>

        <backup>
          <duration>4</duration>
        </backup>

        <harmony>
          <root>
            <root-step>D</root-step>
            <root-alter>0</root-alter>
          </root>
          <kind text="">major</kind>
        </harmony>

        <forward>
          <duration>4</duration>
        </forward>

        <note>
          <pitch>
            <step>G</step>
            <octave>4</octave>
          </pitch>
          <duration>4</duration>
          <voice>1</voice>
          <type>quarter</type>
          <stem>up</stem>
          <staff>1</staff>
        </note>

        <backup>
          <duration>4</duration>
        </backup>

        <harmony>
          <root>
            <root-step>A</root-step>
            <root-alter>0</root-alter>
          </root>
          <kind text="7">dominant</kind>
          <bass>
            <bass-step>E</bass-step>
            <bass-alter>0</bass-alter>
          </bass>
        </harmony>

        <forward>
          <duration>4</duration>
        </forward>

        <note>
          <pitch>
            <step>G</step>
            <octave>4</octave>
          </pitch>
          <duration>4</duration>
          <voice>1</voice>
          <type>quarter</type>
          <stem>up</stem>
          <staff>1</staff>
        </note>

        <backup>
          <duration>4</duration>
        </backup>

        <harmony>
          <root>
            <root-step>D</root-step>
            <root-alter>0</root-alter>
          </root>
          <kind text="">major</kind>
          <bass>
            <bass-step>F</bass-step>
            <bass-alter>1</bass-alter>
          </bass>
        </harmony>

        <forward>
          <duration>4</duration>
        </forward>

        <note>
          <pitch>
            <step>G</step>
            <octave>4</octave>
          </pitch>
          <duration>4</duration>
          <voice>1</voice>
          <type>quarter</type>
          <stem>up</stem>
          <staff>1</staff>
        </note>
      </measure>"#;
    let item = Measure::read_node(&tree(xml)).unwrap();
    let positions: Vec<usize> = item.get_voice(1).unwrap().iter().map(|(_, p)| *p).collect();
    assert_eq!(positions, vec![0, 4, 8, 12]);
    assert_eq!(item.get_attributes().unwrap().key.unwrap().mode, KeyMode::Mayjor);
}

#[test]
fn notations_notations() {
    let xml = r#"
        <notations>
            <articulations>
                <staccato placement="below"/>
                <tenuto placement="below"/>
                <accent placement="below"/>
                <strong-accent placement="above" type="up"/>
            </articulations>
        </notations>"#;

    let items = Notations::read_node(&tree(xml)).unwrap();
    assert_eq!(items.notations.len(), 1);

    match &items.notations[0] {
        NotationType::Articulations(articulations) => {
            assert_eq!(articulations.articulations.len(), 4);

            match &articulations.articulations[0] {
                ArticulationType::Staccato(ArticulationMeta { placement, .. }) => {
                    assert_eq!(placement.clone().unwrap(), Placement::Below);
                }
                _ => {
                    panic!("Expected staccto")
                }
            }

            match &articulations.articulations[1] {
                ArticulationType::Tenuto(ArticulationMeta { placement, .. }) => {
                    assert_eq!(placement.clone().unwrap(), Placement::Below);
                }
                _ => {
                    panic!("Expected tenuto")
                }
            }

            match &articulations.articulations[2] {
                ArticulationType::Accent(ArticulationMeta { placement, .. }) => {
                    assert_eq!(placement.clone().unwrap(), Placement::Below);
                }
                _ => {
                    panic!("Expected accent")
                }
            }

            match &articulations.articulations[3] {
                ArticulationType::StrongAccent(ArticulationMeta { placement, .. }) => {
                    assert_eq!(placement.clone().unwrap(), Placement::Above);
                }
                _ => {
                    panic!("Expected accent")
                }
            }
        }
        _ => {
            panic!("Expected an articulations strong-accent")
        }
    }
}

#[test]
fn note() {
    let xml = r#"
            <note>
                <pitch>
                    <step>C</step>
                    <octave>4</octave>
                </pitch>
                <duration>4</duration>
                <type>whole</type>
            </note>"#;
    let note = Note::read_node(&tree(xml)).unwrap();
    assert_eq!(4, note.duration);
    let pitch = &note.pitch.unwrap();
    assert_eq!(Step::C, pitch.step);
    assert_eq!(4, pitch.octave);
    assert_eq!(4, note.duration);
    assert_eq!(DurationType::Whole, note.notetype);
}

#[test]
fn doubledot() {
    let xml = r#"
            <note>
                <pitch>
                    <step>G</step>
                    <octave>4</octave>
                </pitch>
                <duration>7</duration>
                <voice>1</voice>
                <type>half</type>
                <dot/>
                <dot/>
                <stem>up</stem>
            </note>"#;
    let note = Note::read_node(&tree(xml)).unwrap();
    assert_eq!(7, note.duration);
    assert_eq!(2, note.dot.len());
    assert_eq!(1, note.voice);
    assert_eq!(DurationType::Half, note.notetype);
    assert_eq!(
        Some(Stem {
            content: DirectionUD::Up,
            ..Stem::default()
        }),
        note.stem
    );
    let pitch = note.pitch.unwrap();
    assert_eq!(Step::G, pitch.step);
    assert_eq!(4, pitch.octave);
}

#[test]
fn note_notations() {
    let xml = r#"
        <note>
            <pitch>
                <step>G</step>
                <octave>4</octave>
            </pitch>
            <duration>4</duration>
            <voice>1</voice>
            <type>quarter</type>
            <stem>up</stem>
            <staff>1</staff>
            <notations>
                <slur type="start" number="1"/>
                <tied type="stop"/>
            </notations>
        </note>"#;
    let note = Note::read_node(&tree(xml)).unwrap();
    assert_eq!(4, note.duration);
    assert_eq!(0, note.dot.len());
    assert_eq!(1, note.voice);
    assert_eq!(
        Stem {
            content: DirectionUD::Up,
            ..Stem::default()
        },
        note.stem.unwrap()
    );
    assert_eq!(DurationType::Quarter, note.notetype);
    let pitch = note.pitch.unwrap();
    assert_eq!(Step::G, pitch.step);
    assert_eq!(4, pitch.octave);
    let notations = note.notations.unwrap();
    assert_eq!(
        NotationType::Slur {
            type_: StartStop::Start,
            number: 1
        },
        notations.notations[0]
    );
    assert_eq!(
        NotationType::Tied {
            type_: StartStop::Stop,
            bezier_offset: Option::default(),
            bezier_offset2: Option::default(),
            bezier_x: Option::default(),
            bezier_x2: Option::default(),
            bezier_y: Option::default(),
            bezier_y2: Option::default(),
            color: Option::default(),
        },
        notations.notations[1]
    );
}

#[test]
fn accidental_mark() {
    let xml = r#"
        <note default-x="84">
            <pitch>
                <step>D</step>
                <octave>5</octave>
            </pitch>
            <duration>2</duration>
            <voice>1</voice>
            <type>quarter</type>
            <stem default-y="-45">down</stem>
            <notations>
                <accidental-mark default-y="22">sharp</accidental-mark>
            </notations>
        </note>"#;
    let note = Note::read_node(&tree(xml)).unwrap();
    assert_eq!(value(note.default_x.unwrap()), 84.0);
}

#[test]
fn test_accent() {
    let xml = r#"
            <note default-x="36">
                <pitch>
                    <step>A</step>
                    <octave>4</octave>
                </pitch>
                <duration>4</duration>
                <voice>1</voice>
                <type>half</type>
                <stem default-y="10">up</stem>
                <notations>
                    <articulations>
                        <accent default-x="-1" default-y="-55" placement="below"/>
                    </articulations>
                </notations>
            </note>
        "#;
    let item = Note::read_node(&tree(xml)).unwrap();
    assert_eq!(value(item.default_x.unwrap()), 36.0);
    assert_eq!(item.duration, 4);
    assert_eq!(item.voice, 1);
    assert_eq!(item.notetype, DurationType::Half);
    let stem = &item.stem.unwrap();
    assert_eq!(
        stem,
        &Stem {
            content: DirectionUD::Up,
            default_y: Some(Decimal::from_integer(10)),
            ..Stem::default()
        }
    );
    let pitch = &item.pitch.unwrap();
    assert_eq!(pitch.step, Step::A);
    assert_eq!(pitch.octave, 4);
    let notations = &item.notations.unwrap();
    let notationtype = &notations.notations[0];
    assert_eq!(
        notationtype,
        &NotationType::Articulations(Articulations {
            articulations: vec![ArticulationType::Accent(ArticulationMeta {
                default_x: Some(Decimal { negative: true, magnitude: 1, scale: 0 }),
                default_y: Some(Decimal { negative: true, magnitude: 55, scale: 0 }),
                placement: Some(Placement::Below),
                ..ArticulationMeta::default()
            })],
        })
    );
}

#[test]
fn test_accidental_mark() {
    let xml = r#"
            <note default-x="84">
                <pitch>
                    <step>D</step>
                    <octave>5</octave>
                </pitch>
                <duration>2</duration>
                <voice>1</voice>
                <type>quarter</type>
                <stem default-y="-45">down</stem>
                <notations>
                    <accidental-mark default-y="22">sharp</accidental-mark>
                </notations>
            </note>
        "#;
    let item = Note::read_node(&tree(xml)).unwrap();
    assert_eq!(value(item.default_x.unwrap()), 84.0);
    assert_eq!(item.duration, 2);
    assert_eq!(item.voice, 1);
    assert_eq!(item.notetype, DurationType::Quarter);
    let stem = &item.stem.unwrap();
    assert_eq!(
        stem,
        &Stem {
            content: DirectionUD::Down,
            default_y: Some(Decimal { negative: true, magnitude: 45, scale: 0 }),
            ..Stem::default()
        }
    );
    let pitch = &item.pitch.unwrap();
    assert_eq!(pitch.step, Step::D);
    assert_eq!(pitch.octave, 5);
    let notations = &item.notations.unwrap();
    assert_eq!(
        notations.notations[0],
        NotationType::AccidentalMark { type_: StartStop::Start, number: 0 }
    );
}

#[test]
fn numeral_1() {
    let xml = r#"
            <numeral>
                <numeral-root text="IV">4</numeral-root>
            </numeral>
        "#;
    let item = Numeral::read_node(&tree(xml)).unwrap();
    assert_eq!(item.root.content, 4);
    assert_eq!(item.root.text.unwrap(), "IV");
}

#[test]
fn numeral_2() {
    let xml = r#"
            <numeral>
                <numeral-root text="3">3</numeral-root>
                <numeral-alter location="right">-1</numeral-alter>
            </numeral>
        "#;
    let item = Numeral::read_node(&tree(xml)).unwrap();
    let alter = item.alter.unwrap();
    assert_eq!(item.root.text.unwrap(), "3");
    assert_eq!(item.root.content, 3);
    assert_eq!(alter.content, -1);
    assert_eq!(alter.location.unwrap(), LeftRight::Right);
}

#[test]
fn numeral_3() {
    let xml = r#"
            <numeral>
                <numeral-root text="IV">4</numeral-root>
                <numeral-key>
                    <numeral-fifths>1</numeral-fifths>
                    <numeral-mode>major</numeral-mode>
                </numeral-key>
            </numeral>
        "#;
    let item = Numeral::read_node(&tree(xml)).unwrap();
    let key = item.key.unwrap();
    assert_eq!(item.root.text.unwrap(), "IV");
    assert_eq!(item.root.content, 4);
    assert_eq!(key.fifths, 1);
    assert_eq!(key.mode, NumeralMode::Major);
}

#[test]
fn numeral_4() {
    let xml = r#"
            <numeral>
                <numeral-root text="III">3</numeral-root>
                <numeral-alter location="left">-1</numeral-alter>
            </numeral>
        "#;
    let item = Numeral::read_node(&tree(xml)).unwrap();
    let alter = item.alter.unwrap();
    assert_eq!(item.root.text.unwrap(), "III");
    assert_eq!(alter.location.unwrap(), LeftRight::Left);
    assert_eq!(alter.content, -1);
}

#[test]
fn page_layout() {
    let xml = r#"
        <page-layout>
            <page-height>1553</page-height>
            <page-width>1200</page-width>
            <page-margins type="both">
                <left-margin>70</left-margin>
                <right-margin>70</right-margin>
                <top-margin>88</top-margin>
                <bottom-margin>88</bottom-margin>
            </page-margins>
        </page-layout>
        "#;
    let item = PageLayout::read_node(&tree(xml)).unwrap();
    assert_eq!(value(item.page_height.unwrap()), 1553.0);
    assert_eq!(value(item.page_width.unwrap()), 1200.0);
    let margins = &item.page_margins[0];
    assert_eq!(value(margins.left_margin), 70.0);
    assert_eq!(value(margins.right_margin), 70.0);
    assert_eq!(value(margins.top_margin), 88.0);
    assert_eq!(value(margins.bottom_margin), 88.0);
}

#[test]
fn display_text() {
    let xml = r#"<display-text>Trumpet in B</display-text>"#;
    let foot = PrintableValue::<String>::read_node(&tree(xml)).unwrap();
    assert_eq!(foot.content, "Trumpet in B".to_string());
}

#[test]
fn display_accidental() {
    let xml = r#"<accidental-text>flat</accidental-text>"#;
    let foot = PrintableValue::<Accidental>::read_node(&tree(xml)).unwrap();
    assert_eq!(foot.content, Accidental::Flat);
}

#[test]
fn group_name() {
    let xml = r#"
            <group-name-display>
                <display-text>Trumpet in B</display-text>
                <accidental-text>flat</accidental-text>
            </group-name-display>
        "#;
    let item = GroupDisplay::read_node(&tree(xml)).unwrap();
    assert_eq!(item.display_text, "Trumpet in B".to_string());
    assert_eq!(item.accidental_text.unwrap(), Accidental::Flat);
}

#[test]
fn part_group() {
    let xml = r#"
        <part-group number="3" type="start">
            <group-name>Trumpet in B flat</group-name>
            <group-name-display>
                <display-text>Trumpet in B</display-text>
                <accidental-text>flat</accidental-text>
            </group-name-display>
            <group-abbreviation>Trp. in B flat</group-abbreviation>
            <group-abbreviation-display>
                <display-text>Trp. in B</display-text>
                <accidental-text>flat</accidental-text>
            </group-abbreviation-display>
            <group-symbol default-x="-10">square</group-symbol>
            <group-barline>yes</group-barline>
        </part-group>
        "#;
    let item = PartGroup::read_node(&tree(xml)).unwrap();
    assert_eq!(item.number.unwrap(), "3".to_string());
    assert_eq!(item.type_, StartStop::Start);
    assert_eq!(&item.group_name.unwrap(), &"Trumpet in B flat".to_string());
    let name = item.group_name_display.unwrap();
    assert_eq!(name.display_text, "Trumpet in B".to_string());
    assert_eq!(name.accidental_text.unwrap(), Accidental::Flat);
    assert_eq!(
        &item.group_abbreviation.unwrap(),
        &"Trp. in B flat".to_string()
    );
    let abbre = item.group_abbreviation_display.unwrap();
    assert_eq!(abbre.display_text, "Trp. in B".to_string());
    assert_eq!(abbre.accidental_text.unwrap(), Accidental::Flat);
    assert_eq!(item.group_symbol, Some(GroupSymbol::Square));
    assert_eq!(item.group_barline, Some(GroupBarline::Yes));
}

#[test]
fn part_list() {
    let xml = r#"
        <part-list>
            <score-part id="P1">
                <part-name>Soprano Alto</part-name>
                <part-name-display>
                    <display-text xml:space="preserve">Soprano Alto</display-text>
                </part-name-display>
                <score-instrument id="P1-I1">
                    <instrument-name>ARIA Player</instrument-name>
                    <instrument-sound>voice.soprano</instrument-sound>
                </score-instrument>
                <score-instrument id="P1-I2">
                    <instrument-name>ARIA Player</instrument-name>
                    <instrument-sound>voice.alto</instrument-sound>
                </score-instrument>
                <player id="P1-M1">
                    <player-name>Soprano 1</player-name>
                </player>
                <player id="P1-M2">
                    <player-name>Soprano 2</player-name>
                </player>
                <player id="P1-M3">
                    <player-name>Alto 1</player-name>
                </player>
                <player id="P1-M4">
                    <player-name>Alto 2</player-name>
                </player>
            </score-part>
        </part-list>
        "#;
    let item = PartList::read_node(&tree(xml)).unwrap();
    assert_eq!(item.parts.len(), 1);
    match &item.parts[0] {
        PartListContent::ScorePart(p) => {
            match &p.content[0] {
                ScorePartContent::PartName(n) => {
                    assert_eq!(n, &"Soprano Alto".to_string());
                }
                _ => {
                    panic!("Expected different item");
                }
            }
            match &p.content[1] {
                ScorePartContent::PartNameDisplay(n) => {
                    assert_eq!(n.display_text, "Soprano Alto".to_string());
                }
                _ => {
                    panic!("Expected different item");
                }
            }
            match &p.content[2] {
                ScorePartContent::ScoreInstrument(inst_1) => {
                    assert_eq!(inst_1.id, "P1-I1".to_string());
                    assert_eq!(inst_1.instrument_name, "ARIA Player".to_string());
                    assert_eq!(inst_1.instrument_sound, "voice.soprano".to_string());
                }
                _ => {
                    panic!("Expected different item");
                }
            }
            match &p.content[3] {
                ScorePartContent::ScoreInstrument(inst_2) => {
                    assert_eq!(inst_2.id, "P1-I2".to_string());
                    assert_eq!(inst_2.instrument_name, "ARIA Player".to_string());
                    assert_eq!(inst_2.instrument_sound, "voice.alto".to_string());
                }
                _ => {
                    panic!("Expected different item");
                }
            }
            match &p.content[4] {
                ScorePartContent::Player(p) => {
                    assert_eq!(p.id, "P1-M1".to_string());
                    assert_eq!(p.player_name, "Soprano 1".to_string());
                }
                _ => {
                    panic!("Expected different item");
                }
            }
            match &p.content[5] {
                ScorePartContent::Player(p) => {
                    assert_eq!(p.id, "P1-M2".to_string());
                    assert_eq!(p.player_name, "Soprano 2".to_string());
                }
                _ => {
                    panic!("Expected different item");
                }
            }
            match &p.content[6] {
                ScorePartContent::Player(p) => {
                    assert_eq!(p.id, "P1-M3".to_string());
                    assert_eq!(p.player_name, "Alto 1".to_string());
                }
                _ => {
                    panic!("Expected different item");
                }
            }
            match &p.content[7] {
                ScorePartContent::Player(p) => {
                    assert_eq!(p.id, "P1-M4".to_string());
                    assert_eq!(p.player_name, "Alto 2".to_string());
                }
                _ => {
                    panic!("Expected different item");
                }
            }
        }
        _ => {
            panic!("Unexpected item");
        }
    }
}

#[test]
fn footnote() {
    let xml = r#"<footnote xml:lang="de">*) Urspr: = Nicht zu geschwind.</footnote>"#;
    let foot = PrintableValue::<String>::read_node(&tree(xml)).unwrap();
    assert_eq!(foot.content, "*) Urspr: = Nicht zu geschwind.".to_string());
    assert_eq!(foot.xml_lang, Some("de".to_string()));
}

#[test]
fn root() {
    let xml = r#"
            <root>
                <root-step>C</root-step>
                <root-alter>1</root-alter>
            </root>
        "#;
    let item = Root::read_node(&tree(xml)).unwrap();
    assert_eq!(item.step.content, Step::C);
    assert_eq!(item.alter.unwrap().content, 1);
}

#[test]
fn score_part_1() {
    let xml = r#"
            <score-part id="P2">
                <part-name>Electric Bass</part-name>
                <part-abbreviation>el.bs.</part-abbreviation>
                <score-instrument id="P2-I1">
                    <instrument-name></instrument-name>
                    <instrument-sound>pluck.bass.electric</instrument-sound>
                    </score-instrument>
                <midi-device id="P2-I1" port="1"></midi-device>
                <midi-instrument id="P2-I1">
                    <midi-channel>7</midi-channel>
                    <midi-program>34</midi-program>
                    <volume>82.6772</volume>
                    <pan>0</pan>
                </midi-instrument>
            </score-part>
        "#;
    let item = ScorePart::read_node(&tree(xml)).unwrap();
    assert_eq!(item.id, "P2");
    assert_eq!(item.content.len(), 5);
    match &item.content[4] {
        ScorePartContent::MidiInstrument(m) => {
            assert_eq!(m.id, "P2-I1");
            assert_eq!(m.midi_channel, 7);
            assert_eq!(m.midi_program, 34);
            assert_eq!(m.volume, Decimal { negative: false, magnitude: 826772, scale: 4 });
            assert_eq!(value(m.pan), 0.0);
        }
        _ => panic!("Expected a MIDI instrument"),
    }
}

#[test]
fn score_part_2() {
    let xml = r#"
            <score-part id="P7">
                <part-name>Hand Clap</part-name>
                <part-abbreviation>h.clap.</part-abbreviation>
                <score-instrument id="P7-I40">
                    <instrument-name>Hand Clap</instrument-name>
                    </score-instrument>
                <midi-device port="2"></midi-device>
                <midi-instrument id="P7-I40">
                    <midi-channel>10</midi-channel>
                    <midi-program>1</midi-program>
                    <midi-unpitched>40</midi-unpitched>
                    <volume>62.2047</volume>
                    <pan>0</pan>
                </midi-instrument>
            </score-part>
        "#;
    let item = ScorePart::read_node(&tree(xml)).unwrap();
    assert_eq!(item.id, "P7");
    match &item.content[3] {
        ScorePartContent::MidiDevice(d) => {
            assert_eq!(d.id, "");
            assert_eq!(d.port, 2);
        }
        _ => panic!("Expected a MIDI device"),
    }
}

#[test]
fn score_part_3() {
    let xml = r#"
            <score-part id="P5">
                <part-name>Melody</part-name>
                <part-abbreviation>od.guit.</part-abbreviation>
                <score-instrument id="P5-I1">
                    <instrument-name></instrument-name>
                    <instrument-sound>pluck.guitar.electric</instrument-sound>
                </score-instrument>
                <score-instrument id="P5-I2">
                    <instrument-name></instrument-name>
                    <instrument-sound>pluck.guitar.electric</instrument-sound>
                </score-instrument>
                <score-instrument id="P5-I3">
                    <instrument-name></instrument-name>
                    <instrument-sound>pluck.guitar.electric</instrument-sound>
                </score-instrument>
                <midi-device id="P5-I1" port="2"></midi-device>
                <midi-instrument id="P5-I1">
                    <midi-channel>5</midi-channel>
                    <midi-program>30</midi-program>
                    <volume>80.315</volume>
                    <pan>0</pan>
                </midi-instrument>
                <midi-device id="P5-I2" port="1"></midi-device>
                <midi-instrument id="P5-I2">
                    <midi-channel>13</midi-channel>
                    <midi-program>30</midi-program>
                    <volume>78.7402</volume>
                    <pan>0</pan>
                </midi-instrument>
                <midi-device id="P5-I3" port="1"></midi-device>
                <midi-instrument id="P5-I3">
                    <midi-channel>14</midi-channel>
                    <midi-program>30</midi-program>
                    <volume>78.7402</volume>
                    <pan>0</pan>
                </midi-instrument>
            </score-part>
        "#;
    let item = ScorePart::read_node(&tree(xml)).unwrap();
    assert_eq!(item.content.len(), 11);
    match &item.content[2] {
        ScorePartContent::ScoreInstrument(i) => {
            assert_eq!(i.instrument_name, "");
            assert_eq!(i.instrument_sound, "pluck.guitar.electric");
        }
        _ => panic!("Expected an instrument"),
    }
}

#[test]
fn system_layout_1() {
    let xml = r#"
            <system-layout>
                <system-margins>
                    <left-margin>70</left-margin>
                    <right-margin>0</right-margin>
                </system-margins>
                <top-system-distance>211</top-system-distance>
            </system-layout>
        "#;
    let item = SystemLayout::read_node(&tree(xml)).unwrap();
    let margins = &item.system_margins.unwrap();
    assert_eq!(value(margins.left_margin), 70.0);
    assert_eq!(value(margins.right_margin), 0.0);
    assert_eq!(value(item.top_system_distance.unwrap()), 211.0);
}

#[test]
fn system_layout_2() {
    let xml = r#"
            <system-layout>
                <system-margins>
                    <left-margin>0</left-margin>
                    <right-margin>0</right-margin>
                </system-margins>
                <system-distance>121</system-distance>
            </system-layout>
        "#;
    let item = SystemLayout::read_node(&tree(xml)).unwrap();
    let margins = &item.system_margins.unwrap();
    assert_eq!(value(margins.left_margin), 0.0);
    assert_eq!(value(margins.right_margin), 0.0);
    assert_eq!(value(item.system_distance.unwrap()), 121.0);
}

#[test]
fn attributes_of_a_measure_are_found_again() {
    let xml = r#"
        <measure number="1">
            <attributes>
                <divisions>4</divisions>
                <key>
                    <fifths>0</fifths>
                </key>
                <time>
                    <beats>4</beats>
                    <beat-type>4</beat-type>
                </time>
                <clef>
                    <sign>G</sign>
                    <line>2</line>
                </clef>
            </attributes>
        </measure>"#;
    let measure = Measure::read_node(&tree(xml)).unwrap();
    let found = measure.get_attributes().unwrap();
    assert_eq!(found.divisions, Some(4));
    assert_eq!(found.key.unwrap().fifths, 0);
    assert_eq!(found.time.unwrap().beats, 4);
    assert_eq!(found.time.unwrap().beat_type, 4);
    assert_eq!(found.clef.unwrap().sign, 'G');
    assert_eq!(found.clef.unwrap().line, 2);
    assert_eq!(found.staves, None);
    assert_eq!(measure.require_attributes().unwrap(), found);
}

#[test]
fn dynamic_mark_is_read_from_text_or_from_a_child() {
    let xml = r#"
        <direction placement="below">
            <direction-type>
                <dynamics default-x="3" default-y="-40"><mf/></dynamics>
            </direction-type>
            <direction-type>
                <dynamics>sfz</dynamics>
            </direction-type>
            <direction-type>
                <dynamics/>
            </direction-type>
        </direction>"#;
    let item = Direction::read_node(&tree(xml)).unwrap();
    match &item.directiontypes[0] {
        DirectionType::Dynamic(d) => {
            assert_eq!(d.content, Dynamics::MF);
            assert_eq!(value(d.default_y.unwrap()), -40.0);
        }
        _ => panic!("Expected a dynamic mark"),
    }
    assert_eq!(item.directiontypes[1], DirectionType::Dynamic(PrintableValue::of(Dynamics::SFZ)));
    assert_eq!(item.directiontypes[2], DirectionType::Dynamic(PrintableValue::of(Dynamics::P)));

    let two = r#"<dynamics><f/><p/></dynamics>"#;
    let e = PrintableValue::<Dynamics>::read_node(&tree(two)).unwrap_err();
    assert_eq!(e.kind, ErrorKind::SchemaMismatch);
    let unknown = r#"<dynamics><loud/></dynamics>"#;
    assert_eq!(
        PrintableValue::<Dynamics>::read_node(&tree(unknown)).unwrap_err().kind,
        ErrorKind::SchemaMismatch
    );
}

#[test]
fn whole_score_is_decoded_from_text() {
    let xml = r#"<?xml version="1.0" encoding="UTF-8"?>
        <score-partwise version="4.0">
            <movement-title>Pitches</movement-title>
            <part-list>
                <score-part id="P1">
                    <part-name>Music</part-name>
                </score-part>
            </part-list>
            <part id="P1">
                <measure number="1">
                    <attributes>
                        <divisions>1</divisions>
                    </attributes>
                    <note>
                        <pitch><step>C</step><octave>4</octave></pitch>
                        <duration>4</duration>
                        <voice>1</voice>
                        <type>whole</type>
                    </note>
                </measure>
                <measure number="2">
                    <note>
                        <rest/>
                        <duration>4</duration>
                        <voice>1</voice>
                        <type>whole</type>
                    </note>
                </measure>
            </part>
        </score-partwise>"#;
    let root = tree(xml);
    let score = ScorePartwise::from_document(&root).unwrap();
    assert_eq!(score.version, "4.0");
    assert_eq!(score.movement_title, Some("Pitches".to_string()));
    assert_eq!(score.parts.len(), 1);
    assert_eq!(score.parts[0].id, "P1");
    assert_eq!(score.parts[0].measures.len(), 2);
    let rest = score.parts[0].measures[1].get_voice(1).unwrap();
    assert!(rest[0].0.rest);
    assert_eq!(score.declaration("P1").unwrap().id, "P1");
    assert_eq!(ScorePartwise::from_document(&score.to_document()).unwrap(), score);

    let orphan = xml.replace(r#"<part id="P1">"#, r#"<part id="P9">"#);
    let e = ScorePartwise::from_document(&tree(&orphan)).unwrap_err();
    assert_eq!(e.kind, ErrorKind::IntegrityError(IntegrityFault::UnresolvedPartId));
}
