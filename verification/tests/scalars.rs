use musicxml::accidental::Accidental;
use musicxml::attributes::KeyMode;
use musicxml::barline::BarStyle;
use musicxml::decimal::Decimal;
use musicxml::degree::DegreeTypeValue;
use musicxml::dynamics::Dynamics;
use musicxml::harmony::{HarmonyKind, Step};
use musicxml::names::Name;
use musicxml::numeral_key::NumeralMode;
use musicxml::primitives::{DirectionUD, DurationType, Placement, RepeatDirection};
use musicxml::printable_value::{EnclosureShape, TextDirection, XmlSpace};
use musicxml::scalar::Scalar;
use musicxml::text::{format_signed, format_unsigned, parse_signed, parse_unsigned, same_text};
use musicxml::yes_no::YesNo;

fn dec(negative: bool, magnitude: u64, scale: u8) -> Decimal {
    Decimal { negative, magnitude, scale }
}

#[test]
fn decimal_is_read_digit_by_digit() {
    assert_eq!(Decimal::from_str("309.95"), Some(dec(false, 30995, 2)));
    assert_eq!(Decimal::from_str("-62"), Some(dec(true, 62, 0)));
    assert_eq!(Decimal::from_str("+7.5"), Some(dec(false, 75, 1)));
    assert_eq!(Decimal::from_str("0"), Some(dec(false, 0, 0)));
    assert_eq!(Decimal::from_str("0.050"), Some(dec(false, 50, 3)));
    assert_eq!(Decimal::from_str(".5"), Some(dec(false, 5, 1)));
    assert_eq!(Decimal::from_str("5."), Some(dec(false, 5, 0)));
    assert_eq!(Decimal::from_str("-0"), Some(dec(true, 0, 0)));
    assert_eq!(Decimal::from_str("82.6772"), Some(dec(false, 826772, 4)));
}

#[test]
fn decimal_refuses_what_is_no_number() {
    assert_eq!(Decimal::from_str(""), None);
    assert_eq!(Decimal::from_str("-"), None);
    assert_eq!(Decimal::from_str("."), None);
    assert_eq!(Decimal::from_str("1.2.3"), None);
    assert_eq!(Decimal::from_str("1e5"), None);
    assert_eq!(Decimal::from_str(" 1"), None);
    assert_eq!(Decimal::from_str("1,5"), None);
    assert_eq!(Decimal::from_str("--1"), None);
    assert_eq!(Decimal::from_str("18446744073709551616"), None);
    assert_eq!(
        Decimal::from_str("18446744073709551615"),
        Some(dec(false, u64::MAX, 0))
    );
}

#[test]
fn decimal_is_written_with_its_scale() {
    assert_eq!(dec(false, 30995, 2).format(), "309.95");
    assert_eq!(dec(true, 62, 0).format(), "-62");
    assert_eq!(dec(false, 5, 3).format(), "0.005");
    assert_eq!(dec(false, 50, 2).format(), "0.50");
    assert_eq!(dec(false, 0, 0).format(), "0");
    assert_eq!(dec(true, 0, 2).format(), "-0.00");
    assert_eq!(dec(false, 123, 3).format(), "0.123");
    assert_eq!(dec(false, 1234, 3).format(), "1.234");
}

#[test]
fn decimal_written_and_read_is_the_same() {
    for d in [
        dec(false, 0, 0),
        dec(true, 1, 0),
        dec(false, 7, 5),
        dec(true, 123456, 3),
        dec(false, u64::MAX, 0),
        dec(false, u64::MAX, 255),
        dec(true, 10, 1),
    ] {
        assert_eq!(Decimal::from_str(&d.format()), Some(d));
    }
}

#[test]
fn whole_numbers_are_read_within_their_range() {
    assert_eq!(parse_unsigned("0", 255), Some(0));
    assert_eq!(parse_unsigned("255", 255), Some(255));
    assert_eq!(parse_unsigned("256", 255), None);
    assert_eq!(parse_unsigned("+12", 255), Some(12));
    assert_eq!(parse_unsigned("007", 255), Some(7));
    assert_eq!(parse_unsigned("", 255), None);
    assert_eq!(parse_unsigned("+", 255), None);
    assert_eq!(parse_unsigned("-1", 255), None);
    assert_eq!(parse_unsigned("1x", 255), None);
    assert_eq!(parse_unsigned("99999999999999999999999", u64::MAX), None);
    assert_eq!(parse_signed("-128", 128, 127), Some(-128));
    assert_eq!(parse_signed("-129", 128, 127), None);
    assert_eq!(parse_signed("127", 128, 127), Some(127));
    assert_eq!(parse_signed("128", 128, 127), None);
    assert_eq!(parse_signed("+5", 128, 127), Some(5));
    assert_eq!(parse_signed("-", 128, 127), None);
}

#[test]
fn whole_numbers_are_written_in_decimal() {
    assert_eq!(format_unsigned(0), "0");
    assert_eq!(format_unsigned(9), "9");
    assert_eq!(format_unsigned(10), "10");
    assert_eq!(format_unsigned(1203), "1203");
    assert_eq!(format_unsigned(u64::MAX), "18446744073709551615");
    assert_eq!(format_signed(-1), "-1");
    assert_eq!(format_signed(0), "0");
    assert_eq!(format_signed(42), "42");
    assert_eq!(format_signed(-9223372036854775807), "-9223372036854775807");
}

#[test]
fn scalars_are_read_and_written() {
    assert_eq!(u8::from_text("17"), Some(17));
    assert_eq!(u8::from_text("300"), None);
    assert_eq!(i8::from_text("-1"), Some(-1));
    assert_eq!(i8::from_text("-128"), Some(-128));
    assert_eq!(usize::from_text("128"), Some(128));
    assert_eq!(String::from_text("Ah"), Some("Ah".to_string()));
    assert_eq!(char::from_text("G"), Some('G'));
    assert_eq!(char::from_text("©"), Some('©'));
    assert_eq!(char::from_text("GG"), None);
    assert_eq!(char::from_text(""), None);
    assert_eq!(17u8.to_text(), "17");
    assert_eq!((-5i8).to_text(), "-5");
    assert_eq!(128usize.to_text(), "128");
    assert_eq!('G'.to_text(), "G");
    assert_eq!('©'.to_text(), "©");
    assert_eq!("Ah".to_string().to_text(), "Ah");
    assert!(7u8.same(&7));
    assert!(!7u8.same(&8));
    assert!("a".to_string().same(&"a".to_string()));
    assert!(!"a".to_string().same(&"b".to_string()));
    assert_eq!(u8::make_initial(), 0);
    assert_eq!(String::make_initial(), "");
    assert_eq!(Step::make_initial(), Step::A);
}

#[test]
fn texts_are_compared_character_by_character() {
    assert!(same_text("note", "note"));
    assert!(!same_text("note", "notes"));
    assert!(!same_text("note", "Note"));
    assert!(same_text("", ""));
    assert!(same_text("©", "©"));
}

#[test]
fn words_of_the_closed_sets() {
    assert_eq!(Placement::from_str("above"), Some(Placement::Above));
    assert_eq!(Placement::from_str("below"), Some(Placement::Below));
    assert_eq!(Placement::from_str("beside"), None);
    assert_eq!(Placement::from_str("Above"), None);
    assert_eq!(Placement::Below.as_str(), "below");
    assert_eq!(YesNo::from_str("no"), Some(YesNo::No));
    assert_eq!(DurationType::from_str("16th"), Some(DurationType::Sixteenth));
    assert_eq!(DurationType::Sixtyfourth.as_str(), "64th");
    assert_eq!(DirectionUD::from_str("none"), Some(DirectionUD::Nothing));
    assert_eq!(KeyMode::from_str("major"), Some(KeyMode::Mayjor));
    assert_eq!(BarStyle::from_str("light-heavy"), Some(BarStyle::LightHeavy));
    assert_eq!(BarStyle::from_str("none"), Some(BarStyle::Nothing));
    assert_eq!(Accidental::from_str("three-quarters-sharp"), Some(Accidental::ThreeQuartersSharp));
    assert_eq!(Accidental::Koron.as_str(), "koron");
    assert_eq!(Accidental::from_str("none"), Some(Accidental::Nothing));
    assert_eq!(Dynamics::from_str("sfzp"), Some(Dynamics::SFZP));
    assert_eq!(Dynamics::PPPPPP.as_str(), "pppppp");
    assert_eq!(HarmonyKind::from_str("half-diminished-seventh"), Some(HarmonyKind::HalfDiminishedSeventh));
    assert_eq!(NumeralMode::from_str("harmonic minor"), Some(NumeralMode::HarmonicMinor));
    assert_eq!(Step::from_str("F"), Some(Step::F));
    assert_eq!(Step::from_str("f"), None);
    assert_eq!(TextDirection::from_str("rlo"), Some(TextDirection::RightToLeftBidiOverride));
    assert_eq!(EnclosureShape::from_str("inverted-bracket"), Some(EnclosureShape::InvertedBracket));
    assert_eq!(XmlSpace::from_str("default"), Some(XmlSpace::Default));
    assert_eq!(RepeatDirection::from_str("backward"), Some(RepeatDirection::Backward));
}

#[test]
fn degree_types_are_written_apart() {
    assert_eq!(DegreeTypeValue::Add.as_str(), "add");
    assert_eq!(DegreeTypeValue::Alter.as_str(), "alter");
    assert_eq!(DegreeTypeValue::Subtract.as_str(), "subtract");
    for v in [DegreeTypeValue::Add, DegreeTypeValue::Alter, DegreeTypeValue::Subtract] {
        assert_eq!(DegreeTypeValue::from_str(v.as_str()), Some(v));
    }
}

#[test]
fn every_dynamic_mark_is_read_from_its_word() {
    let all = [
        Dynamics::P, Dynamics::PP, Dynamics::PPP, Dynamics::PPPP, Dynamics::PPPPP,
        Dynamics::PPPPPP, Dynamics::F, Dynamics::FF, Dynamics::FFF, Dynamics::FFFF,
        Dynamics::FFFFF, Dynamics::FFFFFF, Dynamics::MP, Dynamics::MF, Dynamics::SF,
        Dynamics::SFP, Dynamics::SFPP, Dynamics::FP, Dynamics::RF, Dynamics::RFZ,
        Dynamics::SFZ, Dynamics::SFFZ, Dynamics::FZ, Dynamics::N, Dynamics::PF,
        Dynamics::SFZP, Dynamics::OtherDynamics,
    ];
    for v in all {
        assert_eq!(Dynamics::from_str(v.as_str()), Some(v));
        assert_eq!(Dynamics::from_text(&v.to_text()), Some(v));
    }
}

#[test]
fn defaults_of_the_closed_sets() {
    assert_eq!(Placement::default(), Placement::Above);
    assert_eq!(YesNo::default(), YesNo::Yes);
    assert_eq!(DurationType::default(), DurationType::Sixtyfourth);
    assert_eq!(DirectionUD::default(), DirectionUD::Nothing);
    assert_eq!(Step::default(), Step::A);
    assert_eq!(HarmonyKind::default(), HarmonyKind::Major);
    assert_eq!(Accidental::default(), Accidental::Nothing);
}

#[test]
fn names_of_the_vocabulary() {
    assert_eq!(Name::from_str("note"), Some(Name::Note));
    assert_eq!(Name::from_str("default-x"), Some(Name::DefaultX));
    assert_eq!(Name::from_str("xml:lang"), Some(Name::XmlLang));
    assert_eq!(Name::from_str("score-partwise"), Some(Name::ScorePartwise));
    assert_eq!(Name::from_str("Note"), None);
    assert_eq!(Name::from_str(""), None);
    assert_eq!(Name::BeatType.as_str(), "beat-type");
    assert_eq!(Name::from_str(Name::OtherArticulation.as_str()), Some(Name::OtherArticulation));
}
