//! The vocabulary of the format: the tags of elements and the names of
//! attributes.
use crate::text::same_text;
use vstd::prelude::*;

verus! {

/// A tag of an element or a name of an attribute.
#[derive(Clone, Copy, Debug, PartialEq, Eq, Structural)]
pub enum Name {
    /// `accent`
    Accent,
    /// `accidental-mark`
    AccidentalMark,
    /// `accidental-text`
    AccidentalText,
    /// `alternate`
    Alternate,
    /// `arpeggiate`
    Arpeggiate,
    /// `arrangement`
    Arrangement,
    /// `articulations`
    Articulations,
    /// `attack`
    Attack,
    /// `attribute`
    Attribute,
    /// `attributes`
    Attributes,
    /// `backup`
    Backup,
    /// `bar-style`
    BarStyle,
    /// `barline`
    Barline,
    /// `barre`
    Barre,
    /// `bass`
    Bass,
    /// `bass-alter`
    BassAlter,
    /// `bass-separator`
    BassSeparator,
    /// `bass-step`
    BassStep,
    /// `beat-type`
    BeatType,
    /// `beat-unit`
    BeatUnit,
    /// `beats`
    Beats,
    /// `bezier-offset`
    BezierOffset,
    /// `bezier-offset2`
    BezierOffset2,
    /// `bezier-x`
    BezierX,
    /// `bezier-x2`
    BezierX2,
    /// `bezier-y`
    BezierY,
    /// `bezier-y2`
    BezierY2,
    /// `blank-page`
    BlankPage,
    /// `bottom-margin`
    BottomMargin,
    /// `bracket`
    Bracket,
    /// `bracket-degrees`
    BracketDegrees,
    /// `breath-mark`
    BreathMark,
    /// `caesura`
    Caesura,
    /// `chord`
    Chord,
    /// `clef`
    Clef,
    /// `coda`
    Coda,
    /// `color`
    Color,
    /// `creator`
    Creator,
    /// `credit-type`
    CreditType,
    /// `credit-words`
    CreditWords,
    /// `credits`
    Credits,
    /// `default-x`
    DefaultX,
    /// `default-y`
    DefaultY,
    /// `degree`
    Degree,
    /// `degree-alter`
    DegreeAlter,
    /// `degree-type`
    DegreeType,
    /// `degree-value`
    DegreeValue,
    /// `detached-legato`
    DetachedLegato,
    /// `dir`
    Dir,
    /// `direction`
    Direction,
    /// `direction-type`
    DirectionType,
    /// `directive`
    Directive,
    /// `display-text`
    DisplayText,
    /// `divisions`
    Divisions,
    /// `doit`
    Doit,
    /// `dot`
    Dot,
    /// `duration`
    Duration,
    /// `dynamics`
    Dynamics,
    /// `element`
    Element,
    /// `enclosure`
    Enclosure,
    /// `encoder`
    Encoder,
    /// `encoding`
    Encoding,
    /// `encoding-date`
    EncodingDate,
    /// `encoding-description`
    EncodingDescription,
    /// `extend`
    Extend,
    /// `falloff`
    Falloff,
    /// `fermata`
    Fermata,
    /// `fifths`
    Fifths,
    /// `fingering`
    Fingering,
    /// `first-fret`
    FirstFret,
    /// `font-family`
    FontFamily,
    /// `font-size`
    FontSize,
    /// `font-style`
    FontStyle,
    /// `font-weight`
    FontWeight,
    /// `footnote`
    Footnote,
    /// `forward`
    Forward,
    /// `frame`
    Frame,
    /// `frame-frets`
    FrameFrets,
    /// `frame-note`
    FrameNote,
    /// `frame-strings`
    FrameStrings,
    /// `fret`
    Fret,
    /// `glissando`
    Glissando,
    /// `group-abbreviation`
    GroupAbbreviation,
    /// `group-abbreviation-display`
    GroupAbbreviationDisplay,
    /// `group-barline`
    GroupBarline,
    /// `group-name`
    GroupName,
    /// `group-name-display`
    GroupNameDisplay,
    /// `group-symbol`
    GroupSymbol,
    /// `halign`
    Halign,
    /// `harmony`
    Harmony,
    /// `id`
    Id,
    /// `identification`
    Identification,
    /// `implicit`
    Implicit,
    /// `instrument-name`
    InstrumentName,
    /// `instrument-sound`
    InstrumentSound,
    /// `inversion`
    Inversion,
    /// `justify`
    Justify,
    /// `key`
    Key,
    /// `kind`
    Kind,
    /// `left-divider`
    LeftDivider,
    /// `left-margin`
    LeftMargin,
    /// `letter-spacing`
    LetterSpacing,
    /// `level`
    Level,
    /// `line`
    Line,
    /// `line-height`
    LineHeight,
    /// `line-through`
    LineThrough,
    /// `location`
    Location,
    /// `lyric`
    Lyric,
    /// `measure`
    Measure,
    /// `measure-distance`
    MeasureDistance,
    /// `measure-layout`
    MeasureLayout,
    /// `measure-numbering`
    MeasureNumbering,
    /// `metronome`
    Metronome,
    /// `midi-channel`
    MidiChannel,
    /// `midi-device`
    MidiDevice,
    /// `midi-instrument`
    MidiInstrument,
    /// `midi-program`
    MidiProgram,
    /// `miscellaneous`
    Miscellaneous,
    /// `miscellaneous-field`
    MiscellaneousField,
    /// `mode`
    Mode,
    /// `movement-number`
    MovementNumber,
    /// `movement-title`
    MovementTitle,
    /// `name`
    Name,
    /// `new-page`
    NewPage,
    /// `new-system`
    NewSystem,
    /// `non-arpeggiate`
    NonArpeggiate,
    /// `non-controlling`
    NonControlling,
    /// `notations`
    Notations,
    /// `note`
    Note,
    /// `number`
    Number,
    /// `numeral`
    Numeral,
    /// `numeral-alter`
    NumeralAlter,
    /// `numeral-fifths`
    NumeralFifths,
    /// `numeral-key`
    NumeralKey,
    /// `numeral-mode`
    NumeralMode,
    /// `numeral-root`
    NumeralRoot,
    /// `octave`
    Octave,
    /// `offset`
    Offset,
    /// `ornaments`
    Ornaments,
    /// `other-articulation`
    OtherArticulation,
    /// `other-notation`
    OtherNotation,
    /// `overline`
    Overline,
    /// `page-height`
    PageHeight,
    /// `page-layout`
    PageLayout,
    /// `page-margins`
    PageMargins,
    /// `page-number`
    PageNumber,
    /// `page-width`
    PageWidth,
    /// `pan`
    Pan,
    /// `parentheses`
    Parentheses,
    /// `parentheses-degrees`
    ParenthesesDegrees,
    /// `part`
    Part,
    /// `part-abbreviation`
    PartAbbreviation,
    /// `part-abbreviation-display`
    PartAbbreviationDisplay,
    /// `part-group`
    PartGroup,
    /// `part-list`
    PartList,
    /// `part-name`
    PartName,
    /// `part-name-display`
    PartNameDisplay,
    /// `per-minute`
    PerMinute,
    /// `pitch`
    Pitch,
    /// `placement`
    Placement,
    /// `player`
    Player,
    /// `player-name`
    PlayerName,
    /// `plop`
    Plop,
    /// `port`
    Port,
    /// `print`
    Print,
    /// `print-object`
    PrintObject,
    /// `reference`
    Reference,
    /// `rehersal`
    Rehersal,
    /// `relation`
    Relation,
    /// `relative-x`
    RelativeX,
    /// `relative-y`
    RelativeY,
    /// `repeatdirection`
    Repeatdirection,
    /// `rest`
    Rest,
    /// `right-divider`
    RightDivider,
    /// `right-margin`
    RightMargin,
    /// `rights`
    Rights,
    /// `root`
    Root,
    /// `root-alter`
    RootAlter,
    /// `root-step`
    RootStep,
    /// `rotation`
    Rotation,
    /// `scoop`
    Scoop,
    /// `score-instrument`
    ScoreInstrument,
    /// `score-part`
    ScorePart,
    /// `score-partwise`
    ScorePartwise,
    /// `segno`
    Segno,
    /// `sign`
    Sign,
    /// `size`
    Size,
    /// `slide`
    Slide,
    /// `slur`
    Slur,
    /// `soft-accent`
    SoftAccent,
    /// `software`
    Software,
    /// `sound`
    Sound,
    /// `source`
    Source,
    /// `spiccato`
    Spiccato,
    /// `staccatissimo`
    Staccatissimo,
    /// `staccato`
    Staccato,
    /// `stack-degrees`
    StackDegrees,
    /// `staff`
    Staff,
    /// `staff-distance`
    StaffDistance,
    /// `staff-layout`
    StaffLayout,
    /// `staff-spacing`
    StaffSpacing,
    /// `staves`
    Staves,
    /// `stem`
    Stem,
    /// `step`
    Step,
    /// `stress`
    Stress,
    /// `string`
    String,
    /// `strong-accent`
    StrongAccent,
    /// `substitution`
    Substitution,
    /// `syllabic`
    Syllabic,
    /// `system-distance`
    SystemDistance,
    /// `system-dividers`
    SystemDividers,
    /// `system-layout`
    SystemLayout,
    /// `system-margins`
    SystemMargins,
    /// `technical`
    Technical,
    /// `tenuto`
    Tenuto,
    /// `text`
    Text,
    /// `tied`
    Tied,
    /// `time`
    Time,
    /// `time-only`
    TimeOnly,
    /// `title`
    Title,
    /// `top-margin`
    TopMargin,
    /// `top-system-distance`
    TopSystemDistance,
    /// `tuplet`
    Tuplet,
    /// `type`
    Type,
    /// `underline`
    Underline,
    /// `unstress`
    Unstress,
    /// `use-symbols`
    UseSymbols,
    /// `valign`
    Valign,
    /// `value`
    Value,
    /// `version`
    Version,
    /// `voice`
    Voice,
    /// `volume`
    Volume,
    /// `wedge`
    Wedge,
    /// `width`
    Width,
    /// `words`
    Words,
    /// `work`
    Work,
    /// `xml:lang`
    XmlLang,
    /// `xml:space`
    XmlSpace,
}

impl Name {
    /// The name as it is written.
    #[verifier::opaque]
    pub open spec fn text(self) -> Seq<char> {
        match self {
            Name::Accent => "accent"@,
            Name::AccidentalMark => "accidental-mark"@,
            Name::AccidentalText => "accidental-text"@,
            Name::Alternate => "alternate"@,
            Name::Arpeggiate => "arpeggiate"@,
            Name::Arrangement => "arrangement"@,
            Name::Articulations => "articulations"@,
            Name::Attack => "attack"@,
            Name::Attribute => "attribute"@,
            Name::Attributes => "attributes"@,
            Name::Backup => "backup"@,
            Name::BarStyle => "bar-style"@,
            Name::Barline => "barline"@,
            Name::Barre => "barre"@,
            Name::Bass => "bass"@,
            Name::BassAlter => "bass-alter"@,
            Name::BassSeparator => "bass-separator"@,
            Name::BassStep => "bass-step"@,
            Name::BeatType => "beat-type"@,
            Name::BeatUnit => "beat-unit"@,
            Name::Beats => "beats"@,
            Name::BezierOffset => "bezier-offset"@,
            Name::BezierOffset2 => "bezier-offset2"@,
            Name::BezierX => "bezier-x"@,
            Name::BezierX2 => "bezier-x2"@,
            Name::BezierY => "bezier-y"@,
            Name::BezierY2 => "bezier-y2"@,
            Name::BlankPage => "blank-page"@,
            Name::BottomMargin => "bottom-margin"@,
            Name::Bracket => "bracket"@,
            Name::BracketDegrees => "bracket-degrees"@,
            Name::BreathMark => "breath-mark"@,
            Name::Caesura => "caesura"@,
            Name::Chord => "chord"@,
            Name::Clef => "clef"@,
            Name::Coda => "coda"@,
            Name::Color => "color"@,
            Name::Creator => "creator"@,
            Name::CreditType => "credit-type"@,
            Name::CreditWords => "credit-words"@,
            Name::Credits => "credits"@,
            Name::DefaultX => "default-x"@,
            Name::DefaultY => "default-y"@,
            Name::Degree => "degree"@,
            Name::DegreeAlter => "degree-alter"@,
            Name::DegreeType => "degree-type"@,
            Name::DegreeValue => "degree-value"@,
            Name::DetachedLegato => "detached-legato"@,
            Name::Dir => "dir"@,
            Name::Direction => "direction"@,
            Name::DirectionType => "direction-type"@,
            Name::Directive => "directive"@,
            Name::DisplayText => "display-text"@,
            Name::Divisions => "divisions"@,
            Name::Doit => "doit"@,
            Name::Dot => "dot"@,
            Name::Duration => "duration"@,
            Name::Dynamics => "dynamics"@,
            Name::Element => "element"@,
            Name::Enclosure => "enclosure"@,
            Name::Encoder => "encoder"@,
            Name::Encoding => "encoding"@,
            Name::EncodingDate => "encoding-date"@,
            Name::EncodingDescription => "encoding-description"@,
            Name::Extend => "extend"@,
            Name::Falloff => "falloff"@,
            Name::Fermata => "fermata"@,
            Name::Fifths => "fifths"@,
            Name::Fingering => "fingering"@,
            Name::FirstFret => "first-fret"@,
            Name::FontFamily => "font-family"@,
            Name::FontSize => "font-size"@,
            Name::FontStyle => "font-style"@,
            Name::FontWeight => "font-weight"@,
            Name::Footnote => "footnote"@,
            Name::Forward => "forward"@,
            Name::Frame => "frame"@,
            Name::FrameFrets => "frame-frets"@,
            Name::FrameNote => "frame-note"@,
            Name::FrameStrings => "frame-strings"@,
            Name::Fret => "fret"@,
            Name::Glissando => "glissando"@,
            Name::GroupAbbreviation => "group-abbreviation"@,
            Name::GroupAbbreviationDisplay => "group-abbreviation-display"@,
            Name::GroupBarline => "group-barline"@,
            Name::GroupName => "group-name"@,
            Name::GroupNameDisplay => "group-name-display"@,
            Name::GroupSymbol => "group-symbol"@,
            Name::Halign => "halign"@,
            Name::Harmony => "harmony"@,
            Name::Id => "id"@,
            Name::Identification => "identification"@,
            Name::Implicit => "implicit"@,
            Name::InstrumentName => "instrument-name"@,
            Name::InstrumentSound => "instrument-sound"@,
            Name::Inversion => "inversion"@,
            Name::Justify => "justify"@,
            Name::Key => "key"@,
            Name::Kind => "kind"@,
            Name::LeftDivider => "left-divider"@,
            Name::LeftMargin => "left-margin"@,
            Name::LetterSpacing => "letter-spacing"@,
            Name::Level => "level"@,
            Name::Line => "line"@,
            Name::LineHeight => "line-height"@,
            Name::LineThrough => "line-through"@,
            Name::Location => "location"@,
            Name::Lyric => "lyric"@,
            Name::Measure => "measure"@,
            Name::MeasureDistance => "measure-distance"@,
            Name::MeasureLayout => "measure-layout"@,
            Name::MeasureNumbering => "measure-numbering"@,
            Name::Metronome => "metronome"@,
            Name::MidiChannel => "midi-channel"@,
            Name::MidiDevice => "midi-device"@,
            Name::MidiInstrument => "midi-instrument"@,
            Name::MidiProgram => "midi-program"@,
            Name::Miscellaneous => "miscellaneous"@,
            Name::MiscellaneousField => "miscellaneous-field"@,
            Name::Mode => "mode"@,
            Name::MovementNumber => "movement-number"@,
            Name::MovementTitle => "movement-title"@,
            Name::Name => "name"@,
            Name::NewPage => "new-page"@,
            Name::NewSystem => "new-system"@,
            Name::NonArpeggiate => "non-arpeggiate"@,
            Name::NonControlling => "non-controlling"@,
            Name::Notations => "notations"@,
            Name::Note => "note"@,
            Name::Number => "number"@,
            Name::Numeral => "numeral"@,
            Name::NumeralAlter => "numeral-alter"@,
            Name::NumeralFifths => "numeral-fifths"@,
            Name::NumeralKey => "numeral-key"@,
            Name::NumeralMode => "numeral-mode"@,
            Name::NumeralRoot => "numeral-root"@,
            Name::Octave => "octave"@,
            Name::Offset => "offset"@,
            Name::Ornaments => "ornaments"@,
            Name::OtherArticulation => "other-articulation"@,
            Name::OtherNotation => "other-notation"@,
            Name::Overline => "overline"@,
            Name::PageHeight => "page-height"@,
            Name::PageLayout => "page-layout"@,
            Name::PageMargins => "page-margins"@,
            Name::PageNumber => "page-number"@,
            Name::PageWidth => "page-width"@,
            Name::Pan => "pan"@,
            Name::Parentheses => "parentheses"@,
            Name::ParenthesesDegrees => "parentheses-degrees"@,
            Name::Part => "part"@,
            Name::PartAbbreviation => "part-abbreviation"@,
            Name::PartAbbreviationDisplay => "part-abbreviation-display"@,
            Name::PartGroup => "part-group"@,
            Name::PartList => "part-list"@,
            Name::PartName => "part-name"@,
            Name::PartNameDisplay => "part-name-display"@,
            Name::PerMinute => "per-minute"@,
            Name::Pitch => "pitch"@,
            Name::Placement => "placement"@,
            Name::Player => "player"@,
            Name::PlayerName => "player-name"@,
            Name::Plop => "plop"@,
            Name::Port => "port"@,
            Name::Print => "print"@,
            Name::PrintObject => "print-object"@,
            Name::Reference => "reference"@,
            Name::Rehersal => "rehersal"@,
            Name::Relation => "relation"@,
            Name::RelativeX => "relative-x"@,
            Name::RelativeY => "relative-y"@,
            Name::Repeatdirection => "repeatdirection"@,
            Name::Rest => "rest"@,
            Name::RightDivider => "right-divider"@,
            Name::RightMargin => "right-margin"@,
            Name::Rights => "rights"@,
            Name::Root => "root"@,
            Name::RootAlter => "root-alter"@,
            Name::RootStep => "root-step"@,
            Name::Rotation => "rotation"@,
            Name::Scoop => "scoop"@,
            Name::ScoreInstrument => "score-instrument"@,
            Name::ScorePart => "score-part"@,
            Name::ScorePartwise => "score-partwise"@,
            Name::Segno => "segno"@,
            Name::Sign => "sign"@,
            Name::Size => "size"@,
            Name::Slide => "slide"@,
            Name::Slur => "slur"@,
            Name::SoftAccent => "soft-accent"@,
            Name::Software => "software"@,
            Name::Sound => "sound"@,
            Name::Source => "source"@,
            Name::Spiccato => "spiccato"@,
            Name::Staccatissimo => "staccatissimo"@,
            Name::Staccato => "staccato"@,
            Name::StackDegrees => "stack-degrees"@,
            Name::Staff => "staff"@,
            Name::StaffDistance => "staff-distance"@,
            Name::StaffLayout => "staff-layout"@,
            Name::StaffSpacing => "staff-spacing"@,
            Name::Staves => "staves"@,
            Name::Stem => "stem"@,
            Name::Step => "step"@,
            Name::Stress => "stress"@,
            Name::String => "string"@,
            Name::StrongAccent => "strong-accent"@,
            Name::Substitution => "substitution"@,
            Name::Syllabic => "syllabic"@,
            Name::SystemDistance => "system-distance"@,
            Name::SystemDividers => "system-dividers"@,
            Name::SystemLayout => "system-layout"@,
            Name::SystemMargins => "system-margins"@,
            Name::Technical => "technical"@,
            Name::Tenuto => "tenuto"@,
            Name::Text => "text"@,
            Name::Tied => "tied"@,
            Name::Time => "time"@,
            Name::TimeOnly => "time-only"@,
            Name::Title => "title"@,
            Name::TopMargin => "top-margin"@,
            Name::TopSystemDistance => "top-system-distance"@,
            Name::Tuplet => "tuplet"@,
            Name::Type => "type"@,
            Name::Underline => "underline"@,
            Name::Unstress => "unstress"@,
            Name::UseSymbols => "use-symbols"@,
            Name::Valign => "valign"@,
            Name::Value => "value"@,
            Name::Version => "version"@,
            Name::Voice => "voice"@,
            Name::Volume => "volume"@,
            Name::Wedge => "wedge"@,
            Name::Width => "width"@,
            Name::Words => "words"@,
            Name::Work => "work"@,
            Name::XmlLang => "xml:lang"@,
            Name::XmlSpace => "xml:space"@,
        }
    }

    /// The name that a text spells, if it spells one.
    #[verifier::opaque]
    pub open spec fn of_text(s: Seq<char>) -> Option<Name> {
        if exists|v: Name| v.text() == s {
            Some(choose|v: Name| v.text() == s)
        } else {
            None
        }
    }

    /// No two names are written alike.
    pub broadcast proof fn text_injective(a: Name, b: Name)
        ensures
            (#[trigger] a.text() == #[trigger] b.text()) ==> a == b,
    {
        reveal(Name::text);
        reveal_strlit("accent");
        reveal_strlit("accidental-mark");
        reveal_strlit("accidental-text");
        reveal_strlit("alternate");
        reveal_strlit("arpeggiate");
        reveal_strlit("arrangement");
        reveal_strlit("articulations");
        reveal_strlit("attack");
        reveal_strlit("attribute");
        reveal_strlit("attributes");
        reveal_strlit("backup");
        reveal_strlit("bar-style");
        reveal_strlit("barline");
        reveal_strlit("barre");
        reveal_strlit("bass");
        reveal_strlit("bass-alter");
        reveal_strlit("bass-separator");
        reveal_strlit("bass-step");
        reveal_strlit("beat-type");
        reveal_strlit("beat-unit");
        reveal_strlit("beats");
        reveal_strlit("bezier-offset");
        reveal_strlit("bezier-offset2");
        reveal_strlit("bezier-x");
        reveal_strlit("bezier-x2");
        reveal_strlit("bezier-y");
        reveal_strlit("bezier-y2");
        reveal_strlit("blank-page");
        reveal_strlit("bottom-margin");
        reveal_strlit("bracket");
        reveal_strlit("bracket-degrees");
        reveal_strlit("breath-mark");
        reveal_strlit("caesura");
        reveal_strlit("chord");
        reveal_strlit("clef");
        reveal_strlit("coda");
        reveal_strlit("color");
        reveal_strlit("creator");
        reveal_strlit("credit-type");
        reveal_strlit("credit-words");
        reveal_strlit("credits");
        reveal_strlit("default-x");
        reveal_strlit("default-y");
        reveal_strlit("degree");
        reveal_strlit("degree-alter");
        reveal_strlit("degree-type");
        reveal_strlit("degree-value");
        reveal_strlit("detached-legato");
        reveal_strlit("dir");
        reveal_strlit("direction");
        reveal_strlit("direction-type");
        reveal_strlit("directive");
        reveal_strlit("display-text");
        reveal_strlit("divisions");
        reveal_strlit("doit");
        reveal_strlit("dot");
        reveal_strlit("duration");
        reveal_strlit("dynamics");
        reveal_strlit("element");
        reveal_strlit("enclosure");
        reveal_strlit("encoder");
        reveal_strlit("encoding");
        reveal_strlit("encoding-date");
        reveal_strlit("encoding-description");
        reveal_strlit("extend");
        reveal_strlit("falloff");
        reveal_strlit("fermata");
        reveal_strlit("fifths");
        reveal_strlit("fingering");
        reveal_strlit("first-fret");
        reveal_strlit("font-family");
        reveal_strlit("font-size");
        reveal_strlit("font-style");
        reveal_strlit("font-weight");
        reveal_strlit("footnote");
        reveal_strlit("forward");
        reveal_strlit("frame");
        reveal_strlit("frame-frets");
        reveal_strlit("frame-note");
        reveal_strlit("frame-strings");
        reveal_strlit("fret");
        reveal_strlit("glissando");
        reveal_strlit("group-abbreviation");
        reveal_strlit("group-abbreviation-display");
        reveal_strlit("group-barline");
        reveal_strlit("group-name");
        reveal_strlit("group-name-display");
        reveal_strlit("group-symbol");
        reveal_strlit("halign");
        reveal_strlit("harmony");
        reveal_strlit("id");
        reveal_strlit("identification");
        reveal_strlit("implicit");
        reveal_strlit("instrument-name");
        reveal_strlit("instrument-sound");
        reveal_strlit("inversion");
        reveal_strlit("justify");
        reveal_strlit("key");
        reveal_strlit("kind");
        reveal_strlit("left-divider");
        reveal_strlit("left-margin");
        reveal_strlit("letter-spacing");
        reveal_strlit("level");
        reveal_strlit("line");
        reveal_strlit("line-height");
        reveal_strlit("line-through");
        reveal_strlit("location");
        reveal_strlit("lyric");
        reveal_strlit("measure");
        reveal_strlit("measure-distance");
        reveal_strlit("measure-layout");
        reveal_strlit("measure-numbering");
        reveal_strlit("metronome");
        reveal_strlit("midi-channel");
        reveal_strlit("midi-device");
        reveal_strlit("midi-instrument");
        reveal_strlit("midi-program");
        reveal_strlit("miscellaneous");
        reveal_strlit("miscellaneous-field");
        reveal_strlit("mode");
        reveal_strlit("movement-number");
        reveal_strlit("movement-title");
        reveal_strlit("name");
        reveal_strlit("new-page");
        reveal_strlit("new-system");
        reveal_strlit("non-arpeggiate");
        reveal_strlit("non-controlling");
        reveal_strlit("notations");
        reveal_strlit("note");
        reveal_strlit("number");
        reveal_strlit("numeral");
        reveal_strlit("numeral-alter");
        reveal_strlit("numeral-fifths");
        reveal_strlit("numeral-key");
        reveal_strlit("numeral-mode");
        reveal_strlit("numeral-root");
        reveal_strlit("octave");
        reveal_strlit("offset");
        reveal_strlit("ornaments");
        reveal_strlit("other-articulation");
        reveal_strlit("other-notation");
        reveal_strlit("overline");
        reveal_strlit("page-height");
        reveal_strlit("page-layout");
        reveal_strlit("page-margins");
        reveal_strlit("page-number");
        reveal_strlit("page-width");
        reveal_strlit("pan");
        reveal_strlit("parentheses");
        reveal_strlit("parentheses-degrees");
        reveal_strlit("part");
        reveal_strlit("part-abbreviation");
        reveal_strlit("part-abbreviation-display");
        reveal_strlit("part-group");
        reveal_strlit("part-list");
        reveal_strlit("part-name");
        reveal_strlit("part-name-display");
        reveal_strlit("per-minute");
        reveal_strlit("pitch");
        reveal_strlit("placement");
        reveal_strlit("player");
        reveal_strlit("player-name");
        reveal_strlit("plop");
        reveal_strlit("port");
        reveal_strlit("print");
        reveal_strlit("print-object");
        reveal_strlit("reference");
        reveal_strlit("rehersal");
        reveal_strlit("relation");
        reveal_strlit("relative-x");
        reveal_strlit("relative-y");
        reveal_strlit("repeatdirection");
        reveal_strlit("rest");
        reveal_strlit("right-divider");
        reveal_strlit("right-margin");
        reveal_strlit("rights");
        reveal_strlit("root");
        reveal_strlit("root-alter");
        reveal_strlit("root-step");
        reveal_strlit("rotation");
        reveal_strlit("scoop");
        reveal_strlit("score-instrument");
        reveal_strlit("score-part");
        reveal_strlit("score-partwise");
        reveal_strlit("segno");
        reveal_strlit("sign");
        reveal_strlit("size");
        reveal_strlit("slide");
        reveal_strlit("slur");
        reveal_strlit("soft-accent");
        reveal_strlit("software");
        reveal_strlit("sound");
        reveal_strlit("source");
        reveal_strlit("spiccato");
        reveal_strlit("staccatissimo");
        reveal_strlit("staccato");
        reveal_strlit("stack-degrees");
        reveal_strlit("staff");
        reveal_strlit("staff-distance");
        reveal_strlit("staff-layout");
        reveal_strlit("staff-spacing");
        reveal_strlit("staves");
        reveal_strlit("stem");
        reveal_strlit("step");
        reveal_strlit("stress");
        reveal_strlit("string");
        reveal_strlit("strong-accent");
        reveal_strlit("substitution");
        reveal_strlit("syllabic");
        reveal_strlit("system-distance");
        reveal_strlit("system-dividers");
        reveal_strlit("system-layout");
        reveal_strlit("system-margins");
        reveal_strlit("technical");
        reveal_strlit("tenuto");
        reveal_strlit("text");
        reveal_strlit("tied");
        reveal_strlit("time");
        reveal_strlit("time-only");
        reveal_strlit("title");
        reveal_strlit("top-margin");
        reveal_strlit("top-system-distance");
        reveal_strlit("tuplet");
        reveal_strlit("type");
        reveal_strlit("underline");
        reveal_strlit("unstress");
        reveal_strlit("use-symbols");
        reveal_strlit("valign");
        reveal_strlit("value");
        reveal_strlit("version");
        reveal_strlit("voice");
        reveal_strlit("volume");
        reveal_strlit("wedge");
        reveal_strlit("width");
        reveal_strlit("words");
        reveal_strlit("work");
        reveal_strlit("xml:lang");
        reveal_strlit("xml:space");
        if a.text() == b.text() {
            assert(a.text().len() == b.text().len());
            assert(a.text()[0] == b.text()[0]);
            assert(a.text()[1] == b.text()[1]);
            assert(a.text()[2] == b.text()[2]);
            assert(a.text()[3] == b.text()[3]);
            assert(a.text()[4] == b.text()[4]);
            assert(a.text()[5] == b.text()[5]);
            assert(a.text()[6] == b.text()[6]);
            assert(a.text()[7] == b.text()[7]);
            assert(a.text()[8] == b.text()[8]);
            assert(a.text()[9] == b.text()[9]);
            assert(a.text()[10] == b.text()[10]);
            assert(a.text()[11] == b.text()[11]);
            assert(a.text()[12] == b.text()[12]);
            assert(a.text()[13] == b.text()[13]);
            assert(a.text()[14] == b.text()[14]);
            assert(a.text()[15] == b.text()[15]);
            assert(a.text()[16] == b.text()[16]);
            assert(a.text()[17] == b.text()[17]);
            assert(a.text()[18] == b.text()[18]);
            assert(a.text()[19] == b.text()[19]);
            assert(a.text()[20] == b.text()[20]);
            assert(a.text()[21] == b.text()[21]);
            assert(a.text()[22] == b.text()[22]);
            assert(a.text()[23] == b.text()[23]);
            assert(a.text()[24] == b.text()[24]);
            assert(a.text()[25] == b.text()[25]);
        }
    }

    /// Reading a name as written gives the name back.
    pub broadcast proof fn of_text_text(v: Name)
        ensures
            #[trigger] Name::of_text(v.text()) == Some(v),
    {
        reveal(Name::of_text);
        Name::text_injective(v, choose|w: Name| w.text() == v.text());
    }

    /// The name as it is written.
    pub fn as_str(self) -> (r: &'static str)
        ensures
            r@ == self.text(),
    {
        proof {
            reveal(Name::text);
        }
        match self {
            Name::Accent => "accent",
            Name::AccidentalMark => "accidental-mark",
            Name::AccidentalText => "accidental-text",
            Name::Alternate => "alternate",
            Name::Arpeggiate => "arpeggiate",
            Name::Arrangement => "arrangement",
            Name::Articulations => "articulations",
            Name::Attack => "attack",
            Name::Attribute => "attribute",
            Name::Attributes => "attributes",
            Name::Backup => "backup",
            Name::BarStyle => "bar-style",
            Name::Barline => "barline",
            Name::Barre => "barre",
            Name::Bass => "bass",
            Name::BassAlter => "bass-alter",
            Name::BassSeparator => "bass-separator",
            Name::BassStep => "bass-step",
            Name::BeatType => "beat-type",
            Name::BeatUnit => "beat-unit",
            Name::Beats => "beats",
            Name::BezierOffset => "bezier-offset",
            Name::BezierOffset2 => "bezier-offset2",
            Name::BezierX => "bezier-x",
            Name::BezierX2 => "bezier-x2",
            Name::BezierY => "bezier-y",
            Name::BezierY2 => "bezier-y2",
            Name::BlankPage => "blank-page",
            Name::BottomMargin => "bottom-margin",
            Name::Bracket => "bracket",
            Name::BracketDegrees => "bracket-degrees",
            Name::BreathMark => "breath-mark",
            Name::Caesura => "caesura",
            Name::Chord => "chord",
            Name::Clef => "clef",
            Name::Coda => "coda",
            Name::Color => "color",
            Name::Creator => "creator",
            Name::CreditType => "credit-type",
            Name::CreditWords => "credit-words",
            Name::Credits => "credits",
            Name::DefaultX => "default-x",
            Name::DefaultY => "default-y",
            Name::Degree => "degree",
            Name::DegreeAlter => "degree-alter",
            Name::DegreeType => "degree-type",
            Name::DegreeValue => "degree-value",
            Name::DetachedLegato => "detached-legato",
            Name::Dir => "dir",
            Name::Direction => "direction",
            Name::DirectionType => "direction-type",
            Name::Directive => "directive",
            Name::DisplayText => "display-text",
            Name::Divisions => "divisions",
            Name::Doit => "doit",
            Name::Dot => "dot",
            Name::Duration => "duration",
            Name::Dynamics => "dynamics",
            Name::Element => "element",
            Name::Enclosure => "enclosure",
            Name::Encoder => "encoder",
            Name::Encoding => "encoding",
            Name::EncodingDate => "encoding-date",
            Name::EncodingDescription => "encoding-description",
            Name::Extend => "extend",
            Name::Falloff => "falloff",
            Name::Fermata => "fermata",
            Name::Fifths => "fifths",
            Name::Fingering => "fingering",
            Name::FirstFret => "first-fret",
            Name::FontFamily => "font-family",
            Name::FontSize => "font-size",
            Name::FontStyle => "font-style",
            Name::FontWeight => "font-weight",
            Name::Footnote => "footnote",
            Name::Forward => "forward",
            Name::Frame => "frame",
            Name::FrameFrets => "frame-frets",
            Name::FrameNote => "frame-note",
            Name::FrameStrings => "frame-strings",
            Name::Fret => "fret",
            Name::Glissando => "glissando",
            Name::GroupAbbreviation => "group-abbreviation",
            Name::GroupAbbreviationDisplay => "group-abbreviation-display",
            Name::GroupBarline => "group-barline",
            Name::GroupName => "group-name",
            Name::GroupNameDisplay => "group-name-display",
            Name::GroupSymbol => "group-symbol",
            Name::Halign => "halign",
            Name::Harmony => "harmony",
            Name::Id => "id",
            Name::Identification => "identification",
            Name::Implicit => "implicit",
            Name::InstrumentName => "instrument-name",
            Name::InstrumentSound => "instrument-sound",
            Name::Inversion => "inversion",
            Name::Justify => "justify",
            Name::Key => "key",
            Name::Kind => "kind",
            Name::LeftDivider => "left-divider",
            Name::LeftMargin => "left-margin",
            Name::LetterSpacing => "letter-spacing",
            Name::Level => "level",
            Name::Line => "line",
            Name::LineHeight => "line-height",
            Name::LineThrough => "line-through",
            Name::Location => "location",
            Name::Lyric => "lyric",
            Name::Measure => "measure",
            Name::MeasureDistance => "measure-distance",
            Name::MeasureLayout => "measure-layout",
            Name::MeasureNumbering => "measure-numbering",
            Name::Metronome => "metronome",
            Name::MidiChannel => "midi-channel",
            Name::MidiDevice => "midi-device",
            Name::MidiInstrument => "midi-instrument",
            Name::MidiProgram => "midi-program",
            Name::Miscellaneous => "miscellaneous",
            Name::MiscellaneousField => "miscellaneous-field",
            Name::Mode => "mode",
            Name::MovementNumber => "movement-number",
            Name::MovementTitle => "movement-title",
            Name::Name => "name",
            Name::NewPage => "new-page",
            Name::NewSystem => "new-system",
            Name::NonArpeggiate => "non-arpeggiate",
            Name::NonControlling => "non-controlling",
            Name::Notations => "notations",
            Name::Note => "note",
            Name::Number => "number",
            Name::Numeral => "numeral",
            Name::NumeralAlter => "numeral-alter",
            Name::NumeralFifths => "numeral-fifths",
            Name::NumeralKey => "numeral-key",
            Name::NumeralMode => "numeral-mode",
            Name::NumeralRoot => "numeral-root",
            Name::Octave => "octave",
            Name::Offset => "offset",
            Name::Ornaments => "ornaments",
            Name::OtherArticulation => "other-articulation",
            Name::OtherNotation => "other-notation",
            Name::Overline => "overline",
            Name::PageHeight => "page-height",
            Name::PageLayout => "page-layout",
            Name::PageMargins => "page-margins",
            Name::PageNumber => "page-number",
            Name::PageWidth => "page-width",
            Name::Pan => "pan",
            Name::Parentheses => "parentheses",
            Name::ParenthesesDegrees => "parentheses-degrees",
            Name::Part => "part",
            Name::PartAbbreviation => "part-abbreviation",
            Name::PartAbbreviationDisplay => "part-abbreviation-display",
            Name::PartGroup => "part-group",
            Name::PartList => "part-list",
            Name::PartName => "part-name",
            Name::PartNameDisplay => "part-name-display",
            Name::PerMinute => "per-minute",
            Name::Pitch => "pitch",
            Name::Placement => "placement",
            Name::Player => "player",
            Name::PlayerName => "player-name",
            Name::Plop => "plop",
            Name::Port => "port",
            Name::Print => "print",
            Name::PrintObject => "print-object",
            Name::Reference => "reference",
            Name::Rehersal => "rehersal",
            Name::Relation => "relation",
            Name::RelativeX => "relative-x",
            Name::RelativeY => "relative-y",
            Name::Repeatdirection => "repeatdirection",
            Name::Rest => "rest",
            Name::RightDivider => "right-divider",
            Name::RightMargin => "right-margin",
            Name::Rights => "rights",
            Name::Root => "root",
            Name::RootAlter => "root-alter",
            Name::RootStep => "root-step",
            Name::Rotation => "rotation",
            Name::Scoop => "scoop",
            Name::ScoreInstrument => "score-instrument",
            Name::ScorePart => "score-part",
            Name::ScorePartwise => "score-partwise",
            Name::Segno => "segno",
            Name::Sign => "sign",
            Name::Size => "size",
            Name::Slide => "slide",
            Name::Slur => "slur",
            Name::SoftAccent => "soft-accent",
            Name::Software => "software",
            Name::Sound => "sound",
            Name::Source => "source",
            Name::Spiccato => "spiccato",
            Name::Staccatissimo => "staccatissimo",
            Name::Staccato => "staccato",
            Name::StackDegrees => "stack-degrees",
            Name::Staff => "staff",
            Name::StaffDistance => "staff-distance",
            Name::StaffLayout => "staff-layout",
            Name::StaffSpacing => "staff-spacing",
            Name::Staves => "staves",
            Name::Stem => "stem",
            Name::Step => "step",
            Name::Stress => "stress",
            Name::String => "string",
            Name::StrongAccent => "strong-accent",
            Name::Substitution => "substitution",
            Name::Syllabic => "syllabic",
            Name::SystemDistance => "system-distance",
            Name::SystemDividers => "system-dividers",
            Name::SystemLayout => "system-layout",
            Name::SystemMargins => "system-margins",
            Name::Technical => "technical",
            Name::Tenuto => "tenuto",
            Name::Text => "text",
            Name::Tied => "tied",
            Name::Time => "time",
            Name::TimeOnly => "time-only",
            Name::Title => "title",
            Name::TopMargin => "top-margin",
            Name::TopSystemDistance => "top-system-distance",
            Name::Tuplet => "tuplet",
            Name::Type => "type",
            Name::Underline => "underline",
            Name::Unstress => "unstress",
            Name::UseSymbols => "use-symbols",
            Name::Valign => "valign",
            Name::Value => "value",
            Name::Version => "version",
            Name::Voice => "voice",
            Name::Volume => "volume",
            Name::Wedge => "wedge",
            Name::Width => "width",
            Name::Words => "words",
            Name::Work => "work",
            Name::XmlLang => "xml:lang",
            Name::XmlSpace => "xml:space",
        }
    }

    /// Reads a name.
    pub fn from_str(s: &str) -> (r: Option<Name>)
        ensures
            r == Name::of_text(s@),
    {
        proof {
            reveal(Name::text);
            reveal(Name::of_text);
        }
        if same_text(s, "accent") {
            proof {
                Name::of_text_text(Name::Accent);
            }
            return Some(Name::Accent);
        }
        if same_text(s, "accidental-mark") {
            proof {
                Name::of_text_text(Name::AccidentalMark);
            }
            return Some(Name::AccidentalMark);
        }
        if same_text(s, "accidental-text") {
            proof {
                Name::of_text_text(Name::AccidentalText);
            }
            return Some(Name::AccidentalText);
        }
        if same_text(s, "alternate") {
            proof {
                Name::of_text_text(Name::Alternate);
            }
            return Some(Name::Alternate);
        }
        if same_text(s, "arpeggiate") {
            proof {
                Name::of_text_text(Name::Arpeggiate);
            }
            return Some(Name::Arpeggiate);
        }
        if same_text(s, "arrangement") {
            proof {
                Name::of_text_text(Name::Arrangement);
            }
            return Some(Name::Arrangement);
        }
        if same_text(s, "articulations") {
            proof {
                Name::of_text_text(Name::Articulations);
            }
            return Some(Name::Articulations);
        }
        if same_text(s, "attack") {
            proof {
                Name::of_text_text(Name::Attack);
            }
            return Some(Name::Attack);
        }
        if same_text(s, "attribute") {
            proof {
                Name::of_text_text(Name::Attribute);
            }
            return Some(Name::Attribute);
        }
        if same_text(s, "attributes") {
            proof {
                Name::of_text_text(Name::Attributes);
            }
            return Some(Name::Attributes);
        }
        if same_text(s, "backup") {
            proof {
                Name::of_text_text(Name::Backup);
            }
            return Some(Name::Backup);
        }
        if same_text(s, "bar-style") {
            proof {
                Name::of_text_text(Name::BarStyle);
            }
            return Some(Name::BarStyle);
        }
        if same_text(s, "barline") {
            proof {
                Name::of_text_text(Name::Barline);
            }
            return Some(Name::Barline);
        }
        if same_text(s, "barre") {
            proof {
                Name::of_text_text(Name::Barre);
            }
            return Some(Name::Barre);
        }
        if same_text(s, "bass") {
            proof {
                Name::of_text_text(Name::Bass);
            }
            return Some(Name::Bass);
        }
        if same_text(s, "bass-alter") {
            proof {
                Name::of_text_text(Name::BassAlter);
            }
            return Some(Name::BassAlter);
        }
        if same_text(s, "bass-separator") {
            proof {
                Name::of_text_text(Name::BassSeparator);
            }
            return Some(Name::BassSeparator);
        }
        if same_text(s, "bass-step") {
            proof {
                Name::of_text_text(Name::BassStep);
            }
            return Some(Name::BassStep);
        }
        if same_text(s, "beat-type") {
            proof {
                Name::of_text_text(Name::BeatType);
            }
            return Some(Name::BeatType);
        }
        if same_text(s, "beat-unit") {
            proof {
                Name::of_text_text(Name::BeatUnit);
            }
            return Some(Name::BeatUnit);
        }
        if same_text(s, "beats") {
            proof {
                Name::of_text_text(Name::Beats);
            }
            return Some(Name::Beats);
        }
        if same_text(s, "bezier-offset") {
            proof {
                Name::of_text_text(Name::BezierOffset);
            }
            return Some(Name::BezierOffset);
        }
        if same_text(s, "bezier-offset2") {
            proof {
                Name::of_text_text(Name::BezierOffset2);
            }
            return Some(Name::BezierOffset2);
        }
        if same_text(s, "bezier-x") {
            proof {
                Name::of_text_text(Name::BezierX);
            }
            return Some(Name::BezierX);
        }
        if same_text(s, "bezier-x2") {
            proof {
                Name::of_text_text(Name::BezierX2);
            }
            return Some(Name::BezierX2);
        }
        if same_text(s, "bezier-y") {
            proof {
                Name::of_text_text(Name::BezierY);
            }
            return Some(Name::BezierY);
        }
        if same_text(s, "bezier-y2") {
            proof {
                Name::of_text_text(Name::BezierY2);
            }
            return Some(Name::BezierY2);
        }
        if same_text(s, "blank-page") {
            proof {
                Name::of_text_text(Name::BlankPage);
            }
            return Some(Name::BlankPage);
        }
        if same_text(s, "bottom-margin") {
            proof {
                Name::of_text_text(Name::BottomMargin);
            }
            return Some(Name::BottomMargin);
        }
        if same_text(s, "bracket") {
            proof {
                Name::of_text_text(Name::Bracket);
            }
            return Some(Name::Bracket);
        }
        if same_text(s, "bracket-degrees") {
            proof {
                Name::of_text_text(Name::BracketDegrees);
            }
            return Some(Name::BracketDegrees);
        }
        if same_text(s, "breath-mark") {
            proof {
                Name::of_text_text(Name::BreathMark);
            }
            return Some(Name::BreathMark);
        }
        if same_text(s, "caesura") {
            proof {
                Name::of_text_text(Name::Caesura);
            }
            return Some(Name::Caesura);
        }
        if same_text(s, "chord") {
            proof {
                Name::of_text_text(Name::Chord);
            }
            return Some(Name::Chord);
        }
        if same_text(s, "clef") {
            proof {
                Name::of_text_text(Name::Clef);
            }
            return Some(Name::Clef);
        }
        if same_text(s, "coda") {
            proof {
                Name::of_text_text(Name::Coda);
            }
            return Some(Name::Coda);
        }
        if same_text(s, "color") {
            proof {
                Name::of_text_text(Name::Color);
            }
            return Some(Name::Color);
        }
        if same_text(s, "creator") {
            proof {
                Name::of_text_text(Name::Creator);
            }
            return Some(Name::Creator);
        }
        if same_text(s, "credit-type") {
            proof {
                Name::of_text_text(Name::CreditType);
            }
            return Some(Name::CreditType);
        }
        if same_text(s, "credit-words") {
            proof {
                Name::of_text_text(Name::CreditWords);
            }
            return Some(Name::CreditWords);
        }
        if same_text(s, "credits") {
            proof {
                Name::of_text_text(Name::Credits);
            }
            return Some(Name::Credits);
        }
        if same_text(s, "default-x") {
            proof {
                Name::of_text_text(Name::DefaultX);
            }
            return Some(Name::DefaultX);
        }
        if same_text(s, "default-y") {
            proof {
                Name::of_text_text(Name::DefaultY);
            }
            return Some(Name::DefaultY);
        }
        if same_text(s, "degree") {
            proof {
                Name::of_text_text(Name::Degree);
            }
            return Some(Name::Degree);
        }
        if same_text(s, "degree-alter") {
            proof {
                Name::of_text_text(Name::DegreeAlter);
            }
            return Some(Name::DegreeAlter);
        }
        if same_text(s, "degree-type") {
            proof {
                Name::of_text_text(Name::DegreeType);
            }
            return Some(Name::DegreeType);
        }
        if same_text(s, "degree-value") {
            proof {
                Name::of_text_text(Name::DegreeValue);
            }
            return Some(Name::DegreeValue);
        }
        if same_text(s, "detached-legato") {
            proof {
                Name::of_text_text(Name::DetachedLegato);
            }
            return Some(Name::DetachedLegato);
        }
        if same_text(s, "dir") {
            proof {
                Name::of_text_text(Name::Dir);
            }
            return Some(Name::Dir);
        }
        if same_text(s, "direction") {
            proof {
                Name::of_text_text(Name::Direction);
            }
            return Some(Name::Direction);
        }
        if same_text(s, "direction-type") {
            proof {
                Name::of_text_text(Name::DirectionType);
            }
            return Some(Name::DirectionType);
        }
        if same_text(s, "directive") {
            proof {
                Name::of_text_text(Name::Directive);
            }
            return Some(Name::Directive);
        }
        if same_text(s, "display-text") {
            proof {
                Name::of_text_text(Name::DisplayText);
            }
            return Some(Name::DisplayText);
        }
        if same_text(s, "divisions") {
            proof {
                Name::of_text_text(Name::Divisions);
            }
            return Some(Name::Divisions);
        }
        if same_text(s, "doit") {
            proof {
                Name::of_text_text(Name::Doit);
            }
            return Some(Name::Doit);
        }
        if same_text(s, "dot") {
            proof {
                Name::of_text_text(Name::Dot);
            }
            return Some(Name::Dot);
        }
        if same_text(s, "duration") {
            proof {
                Name::of_text_text(Name::Duration);
            }
            return Some(Name::Duration);
        }
        if same_text(s, "dynamics") {
            proof {
                Name::of_text_text(Name::Dynamics);
            }
            return Some(Name::Dynamics);
        }
        if same_text(s, "element") {
            proof {
                Name::of_text_text(Name::Element);
            }
            return Some(Name::Element);
        }
        if same_text(s, "enclosure") {
            proof {
                Name::of_text_text(Name::Enclosure);
            }
            return Some(Name::Enclosure);
        }
        if same_text(s, "encoder") {
            proof {
                Name::of_text_text(Name::Encoder);
            }
            return Some(Name::Encoder);
        }
        if same_text(s, "encoding") {
            proof {
                Name::of_text_text(Name::Encoding);
            }
            return Some(Name::Encoding);
        }
        if same_text(s, "encoding-date") {
            proof {
                Name::of_text_text(Name::EncodingDate);
            }
            return Some(Name::EncodingDate);
        }
        if same_text(s, "encoding-description") {
            proof {
                Name::of_text_text(Name::EncodingDescription);
            }
            return Some(Name::EncodingDescription);
        }
        if same_text(s, "extend") {
            proof {
                Name::of_text_text(Name::Extend);
            }
            return Some(Name::Extend);
        }
        if same_text(s, "falloff") {
            proof {
                Name::of_text_text(Name::Falloff);
            }
            return Some(Name::Falloff);
        }
        if same_text(s, "fermata") {
            proof {
                Name::of_text_text(Name::Fermata);
            }
            return Some(Name::Fermata);
        }
        if same_text(s, "fifths") {
            proof {
                Name::of_text_text(Name::Fifths);
            }
            return Some(Name::Fifths);
        }
        if same_text(s, "fingering") {
            proof {
                Name::of_text_text(Name::Fingering);
            }
            return Some(Name::Fingering);
        }
        if same_text(s, "first-fret") {
            proof {
                Name::of_text_text(Name::FirstFret);
            }
            return Some(Name::FirstFret);
        }
        if same_text(s, "font-family") {
            proof {
                Name::of_text_text(Name::FontFamily);
            }
            return Some(Name::FontFamily);
        }
        if same_text(s, "font-size") {
            proof {
                Name::of_text_text(Name::FontSize);
            }
            return Some(Name::FontSize);
        }
        if same_text(s, "font-style") {
            proof {
                Name::of_text_text(Name::FontStyle);
            }
            return Some(Name::FontStyle);
        }
        if same_text(s, "font-weight") {
            proof {
                Name::of_text_text(Name::FontWeight);
            }
            return Some(Name::FontWeight);
        }
        if same_text(s, "footnote") {
            proof {
                Name::of_text_text(Name::Footnote);
            }
            return Some(Name::Footnote);
        }
        if same_text(s, "forward") {
            proof {
                Name::of_text_text(Name::Forward);
            }
            return Some(Name::Forward);
        }
        if same_text(s, "frame") {
            proof {
                Name::of_text_text(Name::Frame);
            }
            return Some(Name::Frame);
        }
        if same_text(s, "frame-frets") {
            proof {
                Name::of_text_text(Name::FrameFrets);
            }
            return Some(Name::FrameFrets);
        }
        if same_text(s, "frame-note") {
            proof {
                Name::of_text_text(Name::FrameNote);
            }
            return Some(Name::FrameNote);
        }
        if same_text(s, "frame-strings") {
            proof {
                Name::of_text_text(Name::FrameStrings);
            }
            return Some(Name::FrameStrings);
        }
        if same_text(s, "fret") {
            proof {
                Name::of_text_text(Name::Fret);
            }
            return Some(Name::Fret);
        }
        if same_text(s, "glissando") {
            proof {
                Name::of_text_text(Name::Glissando);
            }
            return Some(Name::Glissando);
        }
        if same_text(s, "group-abbreviation") {
            proof {
                Name::of_text_text(Name::GroupAbbreviation);
            }
            return Some(Name::GroupAbbreviation);
        }
        if same_text(s, "group-abbreviation-display") {
            proof {
                Name::of_text_text(Name::GroupAbbreviationDisplay);
            }
            return Some(Name::GroupAbbreviationDisplay);
        }
        if same_text(s, "group-barline") {
            proof {
                Name::of_text_text(Name::GroupBarline);
            }
            return Some(Name::GroupBarline);
        }
        if same_text(s, "group-name") {
            proof {
                Name::of_text_text(Name::GroupName);
            }
            return Some(Name::GroupName);
        }
        if same_text(s, "group-name-display") {
            proof {
                Name::of_text_text(Name::GroupNameDisplay);
            }
            return Some(Name::GroupNameDisplay);
        }
        if same_text(s, "group-symbol") {
            proof {
                Name::of_text_text(Name::GroupSymbol);
            }
            return Some(Name::GroupSymbol);
        }
        if same_text(s, "halign") {
            proof {
                Name::of_text_text(Name::Halign);
            }
            return Some(Name::Halign);
        }
        if same_text(s, "harmony") {
            proof {
                Name::of_text_text(Name::Harmony);
            }
            return Some(Name::Harmony);
        }
        if same_text(s, "id") {
            proof {
                Name::of_text_text(Name::Id);
            }
            return Some(Name::Id);
        }
        if same_text(s, "identification") {
            proof {
                Name::of_text_text(Name::Identification);
            }
            return Some(Name::Identification);
        }
        if same_text(s, "implicit") {
            proof {
                Name::of_text_text(Name::Implicit);
            }
            return Some(Name::Implicit);
        }
        if same_text(s, "instrument-name") {
            proof {
                Name::of_text_text(Name::InstrumentName);
            }
            return Some(Name::InstrumentName);
        }
        if same_text(s, "instrument-sound") {
            proof {
                Name::of_text_text(Name::InstrumentSound);
            }
            return Some(Name::InstrumentSound);
        }
        if same_text(s, "inversion") {
            proof {
                Name::of_text_text(Name::Inversion);
            }
            return Some(Name::Inversion);
        }
        if same_text(s, "justify") {
            proof {
                Name::of_text_text(Name::Justify);
            }
            return Some(Name::Justify);
        }
        if same_text(s, "key") {
            proof {
                Name::of_text_text(Name::Key);
            }
            return Some(Name::Key);
        }
        if same_text(s, "kind") {
            proof {
                Name::of_text_text(Name::Kind);
            }
            return Some(Name::Kind);
        }
        if same_text(s, "left-divider") {
            proof {
                Name::of_text_text(Name::LeftDivider);
            }
            return Some(Name::LeftDivider);
        }
        if same_text(s, "left-margin") {
            proof {
                Name::of_text_text(Name::LeftMargin);
            }
            return Some(Name::LeftMargin);
        }
        if same_text(s, "letter-spacing") {
            proof {
                Name::of_text_text(Name::LetterSpacing);
            }
            return Some(Name::LetterSpacing);
        }
        if same_text(s, "level") {
            proof {
                Name::of_text_text(Name::Level);
            }
            return Some(Name::Level);
        }
        if same_text(s, "line") {
            proof {
                Name::of_text_text(Name::Line);
            }
            return Some(Name::Line);
        }
        if same_text(s, "line-height") {
            proof {
                Name::of_text_text(Name::LineHeight);
            }
            return Some(Name::LineHeight);
        }
        if same_text(s, "line-through") {
            proof {
                Name::of_text_text(Name::LineThrough);
            }
            return Some(Name::LineThrough);
        }
        if same_text(s, "location") {
            proof {
                Name::of_text_text(Name::Location);
            }
            return Some(Name::Location);
        }
        if same_text(s, "lyric") {
            proof {
                Name::of_text_text(Name::Lyric);
            }
            return Some(Name::Lyric);
        }
        if same_text(s, "measure") {
            proof {
                Name::of_text_text(Name::Measure);
            }
            return Some(Name::Measure);
        }
        if same_text(s, "measure-distance") {
            proof {
                Name::of_text_text(Name::MeasureDistance);
            }
            return Some(Name::MeasureDistance);
        }
        if same_text(s, "measure-layout") {
            proof {
                Name::of_text_text(Name::MeasureLayout);
            }
            return Some(Name::MeasureLayout);
        }
        if same_text(s, "measure-numbering") {
            proof {
                Name::of_text_text(Name::MeasureNumbering);
            }
            return Some(Name::MeasureNumbering);
        }
        if same_text(s, "metronome") {
            proof {
                Name::of_text_text(Name::Metronome);
            }
            return Some(Name::Metronome);
        }
        if same_text(s, "midi-channel") {
            proof {
                Name::of_text_text(Name::MidiChannel);
            }
            return Some(Name::MidiChannel);
        }
        if same_text(s, "midi-device") {
            proof {
                Name::of_text_text(Name::MidiDevice);
            }
            return Some(Name::MidiDevice);
        }
        if same_text(s, "midi-instrument") {
            proof {
                Name::of_text_text(Name::MidiInstrument);
            }
            return Some(Name::MidiInstrument);
        }
        if same_text(s, "midi-program") {
            proof {
                Name::of_text_text(Name::MidiProgram);
            }
            return Some(Name::MidiProgram);
        }
        if same_text(s, "miscellaneous") {
            proof {
                Name::of_text_text(Name::Miscellaneous);
            }
            return Some(Name::Miscellaneous);
        }
        if same_text(s, "miscellaneous-field") {
            proof {
                Name::of_text_text(Name::MiscellaneousField);
            }
            return Some(Name::MiscellaneousField);
        }
        if same_text(s, "mode") {
            proof {
                Name::of_text_text(Name::Mode);
            }
            return Some(Name::Mode);
        }
        if same_text(s, "movement-number") {
            proof {
                Name::of_text_text(Name::MovementNumber);
            }
            return Some(Name::MovementNumber);
        }
        if same_text(s, "movement-title") {
            proof {
                Name::of_text_text(Name::MovementTitle);
            }
            return Some(Name::MovementTitle);
        }
        if same_text(s, "name") {
            proof {
                Name::of_text_text(Name::Name);
            }
            return Some(Name::Name);
        }
        if same_text(s, "new-page") {
            proof {
                Name::of_text_text(Name::NewPage);
            }
            return Some(Name::NewPage);
        }
        if same_text(s, "new-system") {
            proof {
                Name::of_text_text(Name::NewSystem);
            }
            return Some(Name::NewSystem);
        }
        if same_text(s, "non-arpeggiate") {
            proof {
                Name::of_text_text(Name::NonArpeggiate);
            }
            return Some(Name::NonArpeggiate);
        }
        if same_text(s, "non-controlling") {
            proof {
                Name::of_text_text(Name::NonControlling);
            }
            return Some(Name::NonControlling);
        }
        if same_text(s, "notations") {
            proof {
                Name::of_text_text(Name::Notations);
            }
            return Some(Name::Notations);
        }
        if same_text(s, "note") {
            proof {
                Name::of_text_text(Name::Note);
            }
            return Some(Name::Note);
        }
        if same_text(s, "number") {
            proof {
                Name::of_text_text(Name::Number);
            }
            return Some(Name::Number);
        }
        if same_text(s, "numeral") {
            proof {
                Name::of_text_text(Name::Numeral);
            }
            return Some(Name::Numeral);
        }
        if same_text(s, "numeral-alter") {
            proof {
                Name::of_text_text(Name::NumeralAlter);
            }
            return Some(Name::NumeralAlter);
        }
        if same_text(s, "numeral-fifths") {
            proof {
                Name::of_text_text(Name::NumeralFifths);
            }
            return Some(Name::NumeralFifths);
        }
        if same_text(s, "numeral-key") {
            proof {
                Name::of_text_text(Name::NumeralKey);
            }
            return Some(Name::NumeralKey);
        }
        if same_text(s, "numeral-mode") {
            proof {
                Name::of_text_text(Name::NumeralMode);
            }
            return Some(Name::NumeralMode);
        }
        if same_text(s, "numeral-root") {
            proof {
                Name::of_text_text(Name::NumeralRoot);
            }
            return Some(Name::NumeralRoot);
        }
        if same_text(s, "octave") {
            proof {
                Name::of_text_text(Name::Octave);
            }
            return Some(Name::Octave);
        }
        if same_text(s, "offset") {
            proof {
                Name::of_text_text(Name::Offset);
            }
            return Some(Name::Offset);
        }
        if same_text(s, "ornaments") {
            proof {
                Name::of_text_text(Name::Ornaments);
            }
            return Some(Name::Ornaments);
        }
        if same_text(s, "other-articulation") {
            proof {
                Name::of_text_text(Name::OtherArticulation);
            }
            return Some(Name::OtherArticulation);
        }
        if same_text(s, "other-notation") {
            proof {
                Name::of_text_text(Name::OtherNotation);
            }
            return Some(Name::OtherNotation);
        }
        if same_text(s, "overline") {
            proof {
                Name::of_text_text(Name::Overline);
            }
            return Some(Name::Overline);
        }
        if same_text(s, "page-height") {
            proof {
                Name::of_text_text(Name::PageHeight);
            }
            return Some(Name::PageHeight);
        }
        if same_text(s, "page-layout") {
            proof {
                Name::of_text_text(Name::PageLayout);
            }
            return Some(Name::PageLayout);
        }
        if same_text(s, "page-margins") {
            proof {
                Name::of_text_text(Name::PageMargins);
            }
            return Some(Name::PageMargins);
        }
        if same_text(s, "page-number") {
            proof {
                Name::of_text_text(Name::PageNumber);
            }
            return Some(Name::PageNumber);
        }
        if same_text(s, "page-width") {
            proof {
                Name::of_text_text(Name::PageWidth);
            }
            return Some(Name::PageWidth);
        }
        if same_text(s, "pan") {
            proof {
                Name::of_text_text(Name::Pan);
            }
            return Some(Name::Pan);
        }
        if same_text(s, "parentheses") {
            proof {
                Name::of_text_text(Name::Parentheses);
            }
            return Some(Name::Parentheses);
        }
        if same_text(s, "parentheses-degrees") {
            proof {
                Name::of_text_text(Name::ParenthesesDegrees);
            }
            return Some(Name::ParenthesesDegrees);
        }
        if same_text(s, "part") {
            proof {
                Name::of_text_text(Name::Part);
            }
            return Some(Name::Part);
        }
        if same_text(s, "part-abbreviation") {
            proof {
                Name::of_text_text(Name::PartAbbreviation);
            }
            return Some(Name::PartAbbreviation);
        }
        if same_text(s, "part-abbreviation-display") {
            proof {
                Name::of_text_text(Name::PartAbbreviationDisplay);
            }
            return Some(Name::PartAbbreviationDisplay);
        }
        if same_text(s, "part-group") {
            proof {
                Name::of_text_text(Name::PartGroup);
            }
            return Some(Name::PartGroup);
        }
        if same_text(s, "part-list") {
            proof {
                Name::of_text_text(Name::PartList);
            }
            return Some(Name::PartList);
        }
        if same_text(s, "part-name") {
            proof {
                Name::of_text_text(Name::PartName);
            }
            return Some(Name::PartName);
        }
        if same_text(s, "part-name-display") {
            proof {
                Name::of_text_text(Name::PartNameDisplay);
            }
            return Some(Name::PartNameDisplay);
        }
        if same_text(s, "per-minute") {
            proof {
                Name::of_text_text(Name::PerMinute);
            }
            return Some(Name::PerMinute);
        }
        if same_text(s, "pitch") {
            proof {
                Name::of_text_text(Name::Pitch);
            }
            return Some(Name::Pitch);
        }
        if same_text(s, "placement") {
            proof {
                Name::of_text_text(Name::Placement);
            }
            return Some(Name::Placement);
        }
        if same_text(s, "player") {
            proof {
                Name::of_text_text(Name::Player);
            }
            return Some(Name::Player);
        }
        if same_text(s, "player-name") {
            proof {
                Name::of_text_text(Name::PlayerName);
            }
            return Some(Name::PlayerName);
        }
        if same_text(s, "plop") {
            proof {
                Name::of_text_text(Name::Plop);
            }
            return Some(Name::Plop);
        }
        if same_text(s, "port") {
            proof {
                Name::of_text_text(Name::Port);
            }
            return Some(Name::Port);
        }
        if same_text(s, "print") {
            proof {
                Name::of_text_text(Name::Print);
            }
            return Some(Name::Print);
        }
        if same_text(s, "print-object") {
            proof {
                Name::of_text_text(Name::PrintObject);
            }
            return Some(Name::PrintObject);
        }
        if same_text(s, "reference") {
            proof {
                Name::of_text_text(Name::Reference);
            }
            return Some(Name::Reference);
        }
        if same_text(s, "rehersal") {
            proof {
                Name::of_text_text(Name::Rehersal);
            }
            return Some(Name::Rehersal);
        }
        if same_text(s, "relation") {
            proof {
                Name::of_text_text(Name::Relation);
            }
            return Some(Name::Relation);
        }
        if same_text(s, "relative-x") {
            proof {
                Name::of_text_text(Name::RelativeX);
            }
            return Some(Name::RelativeX);
        }
        if same_text(s, "relative-y") {
            proof {
                Name::of_text_text(Name::RelativeY);
            }
            return Some(Name::RelativeY);
        }
        if same_text(s, "repeatdirection") {
            proof {
                Name::of_text_text(Name::Repeatdirection);
            }
            return Some(Name::Repeatdirection);
        }
        if same_text(s, "rest") {
            proof {
                Name::of_text_text(Name::Rest);
            }
            return Some(Name::Rest);
        }
        if same_text(s, "right-divider") {
            proof {
                Name::of_text_text(Name::RightDivider);
            }
            return Some(Name::RightDivider);
        }
        if same_text(s, "right-margin") {
            proof {
                Name::of_text_text(Name::RightMargin);
            }
            return Some(Name::RightMargin);
        }
        if same_text(s, "rights") {
            proof {
                Name::of_text_text(Name::Rights);
            }
            return Some(Name::Rights);
        }
        if same_text(s, "root") {
            proof {
                Name::of_text_text(Name::Root);
            }
            return Some(Name::Root);
        }
        if same_text(s, "root-alter") {
            proof {
                Name::of_text_text(Name::RootAlter);
            }
            return Some(Name::RootAlter);
        }
        if same_text(s, "root-step") {
            proof {
                Name::of_text_text(Name::RootStep);
            }
            return Some(Name::RootStep);
        }
        if same_text(s, "rotation") {
            proof {
                Name::of_text_text(Name::Rotation);
            }
            return Some(Name::Rotation);
        }
        if same_text(s, "scoop") {
            proof {
                Name::of_text_text(Name::Scoop);
            }
            return Some(Name::Scoop);
        }
        if same_text(s, "score-instrument") {
            proof {
                Name::of_text_text(Name::ScoreInstrument);
            }
            return Some(Name::ScoreInstrument);
        }
        if same_text(s, "score-part") {
            proof {
                Name::of_text_text(Name::ScorePart);
            }
            return Some(Name::ScorePart);
        }
        if same_text(s, "score-partwise") {
            proof {
                Name::of_text_text(Name::ScorePartwise);
            }
            return Some(Name::ScorePartwise);
        }
        if same_text(s, "segno") {
            proof {
                Name::of_text_text(Name::Segno);
            }
            return Some(Name::Segno);
        }
        if same_text(s, "sign") {
            proof {
                Name::of_text_text(Name::Sign);
            }
            return Some(Name::Sign);
        }
        if same_text(s, "size") {
            proof {
                Name::of_text_text(Name::Size);
            }
            return Some(Name::Size);
        }
        if same_text(s, "slide") {
            proof {
                Name::of_text_text(Name::Slide);
            }
            return Some(Name::Slide);
        }
        if same_text(s, "slur") {
            proof {
                Name::of_text_text(Name::Slur);
            }
            return Some(Name::Slur);
        }
        if same_text(s, "soft-accent") {
            proof {
                Name::of_text_text(Name::SoftAccent);
            }
            return Some(Name::SoftAccent);
        }
        if same_text(s, "software") {
            proof {
                Name::of_text_text(Name::Software);
            }
            return Some(Name::Software);
        }
        if same_text(s, "sound") {
            proof {
                Name::of_text_text(Name::Sound);
            }
            return Some(Name::Sound);
        }
        if same_text(s, "source") {
            proof {
                Name::of_text_text(Name::Source);
            }
            return Some(Name::Source);
        }
        if same_text(s, "spiccato") {
            proof {
                Name::of_text_text(Name::Spiccato);
            }
            return Some(Name::Spiccato);
        }
        if same_text(s, "staccatissimo") {
            proof {
                Name::of_text_text(Name::Staccatissimo);
            }
            return Some(Name::Staccatissimo);
        }
        if same_text(s, "staccato") {
            proof {
                Name::of_text_text(Name::Staccato);
            }
            return Some(Name::Staccato);
        }
        if same_text(s, "stack-degrees") {
            proof {
                Name::of_text_text(Name::StackDegrees);
            }
            return Some(Name::StackDegrees);
        }
        if same_text(s, "staff") {
            proof {
                Name::of_text_text(Name::Staff);
            }
            return Some(Name::Staff);
        }
        if same_text(s, "staff-distance") {
            proof {
                Name::of_text_text(Name::StaffDistance);
            }
            return Some(Name::StaffDistance);
        }
        if same_text(s, "staff-layout") {
            proof {
                Name::of_text_text(Name::StaffLayout);
            }
            return Some(Name::StaffLayout);
        }
        if same_text(s, "staff-spacing") {
            proof {
                Name::of_text_text(Name::StaffSpacing);
            }
            return Some(Name::StaffSpacing);
        }
        if same_text(s, "staves") {
            proof {
                Name::of_text_text(Name::Staves);
            }
            return Some(Name::Staves);
        }
        if same_text(s, "stem") {
            proof {
                Name::of_text_text(Name::Stem);
            }
            return Some(Name::Stem);
        }
        if same_text(s, "step") {
            proof {
                Name::of_text_text(Name::Step);
            }
            return Some(Name::Step);
        }
        if same_text(s, "stress") {
            proof {
                Name::of_text_text(Name::Stress);
            }
            return Some(Name::Stress);
        }
        if same_text(s, "string") {
            proof {
                Name::of_text_text(Name::String);
            }
            return Some(Name::String);
        }
        if same_text(s, "strong-accent") {
            proof {
                Name::of_text_text(Name::StrongAccent);
            }
            return Some(Name::StrongAccent);
        }
        if same_text(s, "substitution") {
            proof {
                Name::of_text_text(Name::Substitution);
            }
            return Some(Name::Substitution);
        }
        if same_text(s, "syllabic") {
            proof {
                Name::of_text_text(Name::Syllabic);
            }
            return Some(Name::Syllabic);
        }
        if same_text(s, "system-distance") {
            proof {
                Name::of_text_text(Name::SystemDistance);
            }
            return Some(Name::SystemDistance);
        }
        if same_text(s, "system-dividers") {
            proof {
                Name::of_text_text(Name::SystemDividers);
            }
            return Some(Name::SystemDividers);
        }
        if same_text(s, "system-layout") {
            proof {
                Name::of_text_text(Name::SystemLayout);
            }
            return Some(Name::SystemLayout);
        }
        if same_text(s, "system-margins") {
            proof {
                Name::of_text_text(Name::SystemMargins);
            }
            return Some(Name::SystemMargins);
        }
        if same_text(s, "technical") {
            proof {
                Name::of_text_text(Name::Technical);
            }
            return Some(Name::Technical);
        }
        if same_text(s, "tenuto") {
            proof {
                Name::of_text_text(Name::Tenuto);
            }
            return Some(Name::Tenuto);
        }
        if same_text(s, "text") {
            proof {
                Name::of_text_text(Name::Text);
            }
            return Some(Name::Text);
        }
        if same_text(s, "tied") {
            proof {
                Name::of_text_text(Name::Tied);
            }
            return Some(Name::Tied);
        }
        if same_text(s, "time") {
            proof {
                Name::of_text_text(Name::Time);
            }
            return Some(Name::Time);
        }
        if same_text(s, "time-only") {
            proof {
                Name::of_text_text(Name::TimeOnly);
            }
            return Some(Name::TimeOnly);
        }
        if same_text(s, "title") {
            proof {
                Name::of_text_text(Name::Title);
            }
            return Some(Name::Title);
        }
        if same_text(s, "top-margin") {
            proof {
                Name::of_text_text(Name::TopMargin);
            }
            return Some(Name::TopMargin);
        }
        if same_text(s, "top-system-distance") {
            proof {
                Name::of_text_text(Name::TopSystemDistance);
            }
            return Some(Name::TopSystemDistance);
        }
        if same_text(s, "tuplet") {
            proof {
                Name::of_text_text(Name::Tuplet);
            }
            return Some(Name::Tuplet);
        }
        if same_text(s, "type") {
            proof {
                Name::of_text_text(Name::Type);
            }
            return Some(Name::Type);
        }
        if same_text(s, "underline") {
            proof {
                Name::of_text_text(Name::Underline);
            }
            return Some(Name::Underline);
        }
        if same_text(s, "unstress") {
            proof {
                Name::of_text_text(Name::Unstress);
            }
            return Some(Name::Unstress);
        }
        if same_text(s, "use-symbols") {
            proof {
                Name::of_text_text(Name::UseSymbols);
            }
            return Some(Name::UseSymbols);
        }
        if same_text(s, "valign") {
            proof {
                Name::of_text_text(Name::Valign);
            }
            return Some(Name::Valign);
        }
        if same_text(s, "value") {
            proof {
                Name::of_text_text(Name::Value);
            }
            return Some(Name::Value);
        }
        if same_text(s, "version") {
            proof {
                Name::of_text_text(Name::Version);
            }
            return Some(Name::Version);
        }
        if same_text(s, "voice") {
            proof {
                Name::of_text_text(Name::Voice);
            }
            return Some(Name::Voice);
        }
        if same_text(s, "volume") {
            proof {
                Name::of_text_text(Name::Volume);
            }
            return Some(Name::Volume);
        }
        if same_text(s, "wedge") {
            proof {
                Name::of_text_text(Name::Wedge);
            }
            return Some(Name::Wedge);
        }
        if same_text(s, "width") {
            proof {
                Name::of_text_text(Name::Width);
            }
            return Some(Name::Width);
        }
        if same_text(s, "words") {
            proof {
                Name::of_text_text(Name::Words);
            }
            return Some(Name::Words);
        }
        if same_text(s, "work") {
            proof {
                Name::of_text_text(Name::Work);
            }
            return Some(Name::Work);
        }
        if same_text(s, "xml:lang") {
            proof {
                Name::of_text_text(Name::XmlLang);
            }
            return Some(Name::XmlLang);
        }
        if same_text(s, "xml:space") {
            proof {
                Name::of_text_text(Name::XmlSpace);
            }
            return Some(Name::XmlSpace);
        }
        proof {
            assert forall|v: Name| v.text() != s@ by {
            }
        }
        None
    }
}

} // verus!
