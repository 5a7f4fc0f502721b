//! Chord symbols.
use crate::bass::{Bass, BassView};
use crate::codec::{
    all_valid_variants, Element, encode_variants, group_codec, lemma_decode_encode_variants,
    lemma_decode_variants_valid, Tagged, text_nodes,
};
use crate::decimal::Decimal;
use crate::degree::{Degree, DegreeView};
use crate::error::{DecodeError, DecodeErrorView, ErrorKind};
use crate::frame::{Frame, FrameView};
use crate::level::{Level, LevelView};
use crate::names::Name;
use crate::node::{Node, NodeView};
use crate::numeral::{Numeral, NumeralView};
use crate::printable_value::{PrintableValue, PrintableValueView};
use crate::root::{Root, RootView};
use crate::scalar::Scalar;
use crate::text::{owned, same_text};
use crate::yes_no::YesNo;
use vstd::prelude::*;

verus! {

/// The steps of the diatonic scale.
#[derive(Clone, Copy, Debug, PartialEq, Eq, Structural)]
pub enum Step {
    /// Written `A`.
    A,
    /// Written `B`.
    B,
    /// Written `C`.
    C,
    /// Written `D`.
    D,
    /// Written `E`.
    E,
    /// Written `F`.
    F,
    /// Written `G`.
    G,
}

impl DeepView for Step {
    type V = Step;

    open spec fn deep_view(&self) -> Step {
        *self
    }
}

impl Step {
    /// The word that a value is written as.
    #[verifier::opaque]
    pub open spec fn word(self) -> Seq<char> {
        match self {
            Step::A => "A"@,
            Step::B => "B"@,
            Step::C => "C"@,
            Step::D => "D"@,
            Step::E => "E"@,
            Step::F => "F"@,
            Step::G => "G"@,
        }
    }

    /// The value that a word denotes, if it denotes one.
    #[verifier::opaque]
    pub open spec fn of_word(s: Seq<char>) -> Option<Step> {
        if exists|v: Step| v.word() == s {
            Some(choose|v: Step| v.word() == s)
        } else {
            None
        }
    }

    /// No two values are written alike.
    pub proof fn word_injective(a: Step, b: Step)
        ensures
            a.word() == b.word() ==> a == b,
    {
        reveal(Step::word);
        reveal_strlit("A");
        reveal_strlit("B");
        reveal_strlit("C");
        reveal_strlit("D");
        reveal_strlit("E");
        reveal_strlit("F");
        reveal_strlit("G");
        if a.word() == b.word() {
            assert(a.word().len() == b.word().len());
            assert(a.word()[0] == b.word()[0]);
        }
    }

    /// Reading the word of a value gives the value back.
    pub proof fn of_word_word(v: Step)
        ensures
            Step::of_word(v.word()) == Some(v),
    {
        reveal(Step::of_word);
        Step::word_injective(v, choose|w: Step| w.word() == v.word());
    }

    /// The word that a value is written as.
    pub fn as_str(self) -> (r: &'static str)
        ensures
            r@ == self.word(),
    {
        proof {
            reveal(Step::word);
        }
        match self {
            Step::A => "A",
            Step::B => "B",
            Step::C => "C",
            Step::D => "D",
            Step::E => "E",
            Step::F => "F",
            Step::G => "G",
        }
    }

    /// Reads a value from its word.
    pub fn from_str(s: &str) -> (r: Option<Step>)
        ensures
            r == Step::of_word(s@),
    {
        proof {
            reveal(Step::word);
            reveal(Step::of_word);
        }
        if same_text(s, "A") {
            proof {
                Step::of_word_word(Step::A);
            }
            return Some(Step::A);
        }
        if same_text(s, "B") {
            proof {
                Step::of_word_word(Step::B);
            }
            return Some(Step::B);
        }
        if same_text(s, "C") {
            proof {
                Step::of_word_word(Step::C);
            }
            return Some(Step::C);
        }
        if same_text(s, "D") {
            proof {
                Step::of_word_word(Step::D);
            }
            return Some(Step::D);
        }
        if same_text(s, "E") {
            proof {
                Step::of_word_word(Step::E);
            }
            return Some(Step::E);
        }
        if same_text(s, "F") {
            proof {
                Step::of_word_word(Step::F);
            }
            return Some(Step::F);
        }
        if same_text(s, "G") {
            proof {
                Step::of_word_word(Step::G);
            }
            return Some(Step::G);
        }
        proof {
            assert forall|v: Step| v.word() != s@ by {
            }
        }
        None
    }
}

impl Default for Step {
    fn default() -> (r: Step)
        ensures
            r == Step::A,
    {
        Step::A
    }
}

impl Scalar for Step {
    open spec fn parse(s: Seq<char>) -> Option<Step> {
        Step::of_word(s)
    }

    open spec fn text(v: Step) -> Seq<char> {
        v.word()
    }

    open spec fn initial() -> Step {
        Step::A
    }

    proof fn parse_text(v: Step) {
        Step::of_word_word(v);
    }

    fn from_text(s: &str) -> (r: Option<Step>) {
        Step::from_str(s)
    }

    fn to_text(&self) -> (r: String) {
        owned(self.as_str())
    }

    fn same(&self, other: &Step) -> (r: bool) {
        *self == *other
    }

    fn make_initial() -> (r: Step) {
        Step::A
    }
}

/// How the parts of a chord symbol are arranged.
#[derive(Clone, Copy, Debug, PartialEq, Eq, Structural)]
pub enum HarmonyArrangement {
    /// Written `horizontal`.
    Horizontal,
    /// Written `vertical`.
    Vertical,
    /// Written `diagonal`.
    Diagonal,
}

impl DeepView for HarmonyArrangement {
    type V = HarmonyArrangement;

    open spec fn deep_view(&self) -> HarmonyArrangement {
        *self
    }
}

impl HarmonyArrangement {
    /// The word that a value is written as.
    #[verifier::opaque]
    pub open spec fn word(self) -> Seq<char> {
        match self {
            HarmonyArrangement::Horizontal => "horizontal"@,
            HarmonyArrangement::Vertical => "vertical"@,
            HarmonyArrangement::Diagonal => "diagonal"@,
        }
    }

    /// The value that a word denotes, if it denotes one.
    #[verifier::opaque]
    pub open spec fn of_word(s: Seq<char>) -> Option<HarmonyArrangement> {
        if exists|v: HarmonyArrangement| v.word() == s {
            Some(choose|v: HarmonyArrangement| v.word() == s)
        } else {
            None
        }
    }

    /// No two values are written alike.
    pub proof fn word_injective(a: HarmonyArrangement, b: HarmonyArrangement)
        ensures
            a.word() == b.word() ==> a == b,
    {
        reveal(HarmonyArrangement::word);
        reveal_strlit("horizontal");
        reveal_strlit("vertical");
        reveal_strlit("diagonal");
        if a.word() == b.word() {
            assert(a.word().len() == b.word().len());
            assert(a.word()[0] == b.word()[0]);
            assert(a.word()[1] == b.word()[1]);
            assert(a.word()[2] == b.word()[2]);
            assert(a.word()[3] == b.word()[3]);
            assert(a.word()[4] == b.word()[4]);
            assert(a.word()[5] == b.word()[5]);
            assert(a.word()[6] == b.word()[6]);
            assert(a.word()[7] == b.word()[7]);
            assert(a.word()[8] == b.word()[8]);
            assert(a.word()[9] == b.word()[9]);
        }
    }

    /// Reading the word of a value gives the value back.
    pub proof fn of_word_word(v: HarmonyArrangement)
        ensures
            HarmonyArrangement::of_word(v.word()) == Some(v),
    {
        reveal(HarmonyArrangement::of_word);
        HarmonyArrangement::word_injective(v, choose|w: HarmonyArrangement| w.word() == v.word());
    }

    /// The word that a value is written as.
    pub fn as_str(self) -> (r: &'static str)
        ensures
            r@ == self.word(),
    {
        proof {
            reveal(HarmonyArrangement::word);
        }
        match self {
            HarmonyArrangement::Horizontal => "horizontal",
            HarmonyArrangement::Vertical => "vertical",
            HarmonyArrangement::Diagonal => "diagonal",
        }
    }

    /// Reads a value from its word.
    pub fn from_str(s: &str) -> (r: Option<HarmonyArrangement>)
        ensures
            r == HarmonyArrangement::of_word(s@),
    {
        proof {
            reveal(HarmonyArrangement::word);
            reveal(HarmonyArrangement::of_word);
        }
        if same_text(s, "horizontal") {
            proof {
                HarmonyArrangement::of_word_word(HarmonyArrangement::Horizontal);
            }
            return Some(HarmonyArrangement::Horizontal);
        }
        if same_text(s, "vertical") {
            proof {
                HarmonyArrangement::of_word_word(HarmonyArrangement::Vertical);
            }
            return Some(HarmonyArrangement::Vertical);
        }
        if same_text(s, "diagonal") {
            proof {
                HarmonyArrangement::of_word_word(HarmonyArrangement::Diagonal);
            }
            return Some(HarmonyArrangement::Diagonal);
        }
        proof {
            assert forall|v: HarmonyArrangement| v.word() != s@ by {
            }
        }
        None
    }
}

impl Default for HarmonyArrangement {
    fn default() -> (r: HarmonyArrangement)
        ensures
            r == HarmonyArrangement::Horizontal,
    {
        HarmonyArrangement::Horizontal
    }
}

impl Scalar for HarmonyArrangement {
    open spec fn parse(s: Seq<char>) -> Option<HarmonyArrangement> {
        HarmonyArrangement::of_word(s)
    }

    open spec fn text(v: HarmonyArrangement) -> Seq<char> {
        v.word()
    }

    open spec fn initial() -> HarmonyArrangement {
        HarmonyArrangement::Horizontal
    }

    proof fn parse_text(v: HarmonyArrangement) {
        HarmonyArrangement::of_word_word(v);
    }

    fn from_text(s: &str) -> (r: Option<HarmonyArrangement>) {
        HarmonyArrangement::from_str(s)
    }

    fn to_text(&self) -> (r: String) {
        owned(self.as_str())
    }

    fn same(&self, other: &HarmonyArrangement) -> (r: bool) {
        *self == *other
    }

    fn make_initial() -> (r: HarmonyArrangement) {
        HarmonyArrangement::Horizontal
    }
}

/// The kinds of chord.
#[derive(Clone, Copy, Debug, PartialEq, Eq, Structural)]
pub enum HarmonyKind {
    /// Written `major`.
    Major,
    /// Written `minor`.
    Minor,
    /// Written `augmented`.
    Augmented,
    /// Written `diminished`.
    Diminished,
    /// Written `dominant`.
    Dominant,
    /// Written `major-seventh`.
    MajorSeventh,
    /// Written `minor-seventh`.
    MinorSeventh,
    /// Written `diminished-seventh`.
    DiminishedSeventh,
    /// Written `half-diminished-seventh`.
    HalfDiminishedSeventh,
    /// Written `augmented-seventh`.
    AugmentedSeventh,
    /// Written `major-minor-seventh`.
    MajorMinorSeventh,
    /// Written `dominant-ninth`.
    DominantNinth,
    /// Written `major-ninth`.
    MajorNinth,
    /// Written `minor-ninth`.
    MinorNinth,
    /// Written `dominant-11th`.
    Dominant11th,
    /// Written `major-11th`.
    Major11th,
    /// Written `minor-11th`.
    Minor11th,
    /// Written `dominant-13th`.
    Dominant13th,
    /// Written `major-13th`.
    Major13th,
    /// Written `minor-13th`.
    Minor13th,
    /// Written `suspended-second`.
    SuspendedSecond,
    /// Written `suspended-fourth`.
    SuspendedFourth,
    /// Written `neapolitan`.
    Neapolitan,
    /// Written `italian`.
    Italian,
    /// Written `french`.
    French,
    /// Written `german`.
    German,
    /// Written `pedal`.
    Pedal,
    /// Written `power`.
    Power,
    /// Written `tristan`.
    Tristan,
    /// Written `other`.
    Other,
}

impl DeepView for HarmonyKind {
    type V = HarmonyKind;

    open spec fn deep_view(&self) -> HarmonyKind {
        *self
    }
}

impl HarmonyKind {
    /// The word that a value is written as.
    #[verifier::opaque]
    pub open spec fn word(self) -> Seq<char> {
        match self {
            HarmonyKind::Major => "major"@,
            HarmonyKind::Minor => "minor"@,
            HarmonyKind::Augmented => "augmented"@,
            HarmonyKind::Diminished => "diminished"@,
            HarmonyKind::Dominant => "dominant"@,
            HarmonyKind::MajorSeventh => "major-seventh"@,
            HarmonyKind::MinorSeventh => "minor-seventh"@,
            HarmonyKind::DiminishedSeventh => "diminished-seventh"@,
            HarmonyKind::HalfDiminishedSeventh => "half-diminished-seventh"@,
            HarmonyKind::AugmentedSeventh => "augmented-seventh"@,
            HarmonyKind::MajorMinorSeventh => "major-minor-seventh"@,
            HarmonyKind::DominantNinth => "dominant-ninth"@,
            HarmonyKind::MajorNinth => "major-ninth"@,
            HarmonyKind::MinorNinth => "minor-ninth"@,
            HarmonyKind::Dominant11th => "dominant-11th"@,
            HarmonyKind::Major11th => "major-11th"@,
            HarmonyKind::Minor11th => "minor-11th"@,
            HarmonyKind::Dominant13th => "dominant-13th"@,
            HarmonyKind::Major13th => "major-13th"@,
            HarmonyKind::Minor13th => "minor-13th"@,
            HarmonyKind::SuspendedSecond => "suspended-second"@,
            HarmonyKind::SuspendedFourth => "suspended-fourth"@,
            HarmonyKind::Neapolitan => "neapolitan"@,
            HarmonyKind::Italian => "italian"@,
            HarmonyKind::French => "french"@,
            HarmonyKind::German => "german"@,
            HarmonyKind::Pedal => "pedal"@,
            HarmonyKind::Power => "power"@,
            HarmonyKind::Tristan => "tristan"@,
            HarmonyKind::Other => "other"@,
        }
    }

    /// The value that a word denotes, if it denotes one.
    #[verifier::opaque]
    pub open spec fn of_word(s: Seq<char>) -> Option<HarmonyKind> {
        if exists|v: HarmonyKind| v.word() == s {
            Some(choose|v: HarmonyKind| v.word() == s)
        } else {
            None
        }
    }

    /// No two values are written alike.
    pub proof fn word_injective(a: HarmonyKind, b: HarmonyKind)
        ensures
            a.word() == b.word() ==> a == b,
    {
        reveal(HarmonyKind::word);
        reveal_strlit("major");
        reveal_strlit("minor");
        reveal_strlit("augmented");
        reveal_strlit("diminished");
        reveal_strlit("dominant");
        reveal_strlit("major-seventh");
        reveal_strlit("minor-seventh");
        reveal_strlit("diminished-seventh");
        reveal_strlit("half-diminished-seventh");
        reveal_strlit("augmented-seventh");
        reveal_strlit("major-minor-seventh");
        reveal_strlit("dominant-ninth");
        reveal_strlit("major-ninth");
        reveal_strlit("minor-ninth");
        reveal_strlit("dominant-11th");
        reveal_strlit("major-11th");
        reveal_strlit("minor-11th");
        reveal_strlit("dominant-13th");
        reveal_strlit("major-13th");
        reveal_strlit("minor-13th");
        reveal_strlit("suspended-second");
        reveal_strlit("suspended-fourth");
        reveal_strlit("neapolitan");
        reveal_strlit("italian");
        reveal_strlit("french");
        reveal_strlit("german");
        reveal_strlit("pedal");
        reveal_strlit("power");
        reveal_strlit("tristan");
        reveal_strlit("other");
        if a.word() == b.word() {
            assert(a.word().len() == b.word().len());
            assert(a.word()[0] == b.word()[0]);
            assert(a.word()[1] == b.word()[1]);
            assert(a.word()[2] == b.word()[2]);
            assert(a.word()[3] == b.word()[3]);
            assert(a.word()[4] == b.word()[4]);
            assert(a.word()[5] == b.word()[5]);
            assert(a.word()[6] == b.word()[6]);
            assert(a.word()[7] == b.word()[7]);
            assert(a.word()[8] == b.word()[8]);
            assert(a.word()[9] == b.word()[9]);
            assert(a.word()[10] == b.word()[10]);
            assert(a.word()[11] == b.word()[11]);
            assert(a.word()[12] == b.word()[12]);
            assert(a.word()[13] == b.word()[13]);
            assert(a.word()[14] == b.word()[14]);
            assert(a.word()[15] == b.word()[15]);
            assert(a.word()[16] == b.word()[16]);
            assert(a.word()[17] == b.word()[17]);
            assert(a.word()[18] == b.word()[18]);
            assert(a.word()[19] == b.word()[19]);
            assert(a.word()[20] == b.word()[20]);
            assert(a.word()[21] == b.word()[21]);
            assert(a.word()[22] == b.word()[22]);
        }
    }

    /// Reading the word of a value gives the value back.
    pub proof fn of_word_word(v: HarmonyKind)
        ensures
            HarmonyKind::of_word(v.word()) == Some(v),
    {
        reveal(HarmonyKind::of_word);
        HarmonyKind::word_injective(v, choose|w: HarmonyKind| w.word() == v.word());
    }

    /// The word that a value is written as.
    pub fn as_str(self) -> (r: &'static str)
        ensures
            r@ == self.word(),
    {
        proof {
            reveal(HarmonyKind::word);
        }
        match self {
            HarmonyKind::Major => "major",
            HarmonyKind::Minor => "minor",
            HarmonyKind::Augmented => "augmented",
            HarmonyKind::Diminished => "diminished",
            HarmonyKind::Dominant => "dominant",
            HarmonyKind::MajorSeventh => "major-seventh",
            HarmonyKind::MinorSeventh => "minor-seventh",
            HarmonyKind::DiminishedSeventh => "diminished-seventh",
            HarmonyKind::HalfDiminishedSeventh => "half-diminished-seventh",
            HarmonyKind::AugmentedSeventh => "augmented-seventh",
            HarmonyKind::MajorMinorSeventh => "major-minor-seventh",
            HarmonyKind::DominantNinth => "dominant-ninth",
            HarmonyKind::MajorNinth => "major-ninth",
            HarmonyKind::MinorNinth => "minor-ninth",
            HarmonyKind::Dominant11th => "dominant-11th",
            HarmonyKind::Major11th => "major-11th",
            HarmonyKind::Minor11th => "minor-11th",
            HarmonyKind::Dominant13th => "dominant-13th",
            HarmonyKind::Major13th => "major-13th",
            HarmonyKind::Minor13th => "minor-13th",
            HarmonyKind::SuspendedSecond => "suspended-second",
            HarmonyKind::SuspendedFourth => "suspended-fourth",
            HarmonyKind::Neapolitan => "neapolitan",
            HarmonyKind::Italian => "italian",
            HarmonyKind::French => "french",
            HarmonyKind::German => "german",
            HarmonyKind::Pedal => "pedal",
            HarmonyKind::Power => "power",
            HarmonyKind::Tristan => "tristan",
            HarmonyKind::Other => "other",
        }
    }

    /// Reads a value from its word.
    pub fn from_str(s: &str) -> (r: Option<HarmonyKind>)
        ensures
            r == HarmonyKind::of_word(s@),
    {
        proof {
            reveal(HarmonyKind::word);
            reveal(HarmonyKind::of_word);
        }
        if same_text(s, "major") {
            proof {
                HarmonyKind::of_word_word(HarmonyKind::Major);
            }
            return Some(HarmonyKind::Major);
        }
        if same_text(s, "minor") {
            proof {
                HarmonyKind::of_word_word(HarmonyKind::Minor);
            }
            return Some(HarmonyKind::Minor);
        }
        if same_text(s, "augmented") {
            proof {
                HarmonyKind::of_word_word(HarmonyKind::Augmented);
            }
            return Some(HarmonyKind::Augmented);
        }
        if same_text(s, "diminished") {
            proof {
                HarmonyKind::of_word_word(HarmonyKind::Diminished);
            }
            return Some(HarmonyKind::Diminished);
        }
        if same_text(s, "dominant") {
            proof {
                HarmonyKind::of_word_word(HarmonyKind::Dominant);
            }
            return Some(HarmonyKind::Dominant);
        }
        if same_text(s, "major-seventh") {
            proof {
                HarmonyKind::of_word_word(HarmonyKind::MajorSeventh);
            }
            return Some(HarmonyKind::MajorSeventh);
        }
        if same_text(s, "minor-seventh") {
            proof {
                HarmonyKind::of_word_word(HarmonyKind::MinorSeventh);
            }
            return Some(HarmonyKind::MinorSeventh);
        }
        if same_text(s, "diminished-seventh") {
            proof {
                HarmonyKind::of_word_word(HarmonyKind::DiminishedSeventh);
            }
            return Some(HarmonyKind::DiminishedSeventh);
        }
        if same_text(s, "half-diminished-seventh") {
            proof {
                HarmonyKind::of_word_word(HarmonyKind::HalfDiminishedSeventh);
            }
            return Some(HarmonyKind::HalfDiminishedSeventh);
        }
        if same_text(s, "augmented-seventh") {
            proof {
                HarmonyKind::of_word_word(HarmonyKind::AugmentedSeventh);
            }
            return Some(HarmonyKind::AugmentedSeventh);
        }
        if same_text(s, "major-minor-seventh") {
            proof {
                HarmonyKind::of_word_word(HarmonyKind::MajorMinorSeventh);
            }
            return Some(HarmonyKind::MajorMinorSeventh);
        }
        if same_text(s, "dominant-ninth") {
            proof {
                HarmonyKind::of_word_word(HarmonyKind::DominantNinth);
            }
            return Some(HarmonyKind::DominantNinth);
        }
        if same_text(s, "major-ninth") {
            proof {
                HarmonyKind::of_word_word(HarmonyKind::MajorNinth);
            }
            return Some(HarmonyKind::MajorNinth);
        }
        if same_text(s, "minor-ninth") {
            proof {
                HarmonyKind::of_word_word(HarmonyKind::MinorNinth);
            }
            return Some(HarmonyKind::MinorNinth);
        }
        if same_text(s, "dominant-11th") {
            proof {
                HarmonyKind::of_word_word(HarmonyKind::Dominant11th);
            }
            return Some(HarmonyKind::Dominant11th);
        }
        if same_text(s, "major-11th") {
            proof {
                HarmonyKind::of_word_word(HarmonyKind::Major11th);
            }
            return Some(HarmonyKind::Major11th);
        }
        if same_text(s, "minor-11th") {
            proof {
                HarmonyKind::of_word_word(HarmonyKind::Minor11th);
            }
            return Some(HarmonyKind::Minor11th);
        }
        if same_text(s, "dominant-13th") {
            proof {
                HarmonyKind::of_word_word(HarmonyKind::Dominant13th);
            }
            return Some(HarmonyKind::Dominant13th);
        }
        if same_text(s, "major-13th") {
            proof {
                HarmonyKind::of_word_word(HarmonyKind::Major13th);
            }
            return Some(HarmonyKind::Major13th);
        }
        if same_text(s, "minor-13th") {
            proof {
                HarmonyKind::of_word_word(HarmonyKind::Minor13th);
            }
            return Some(HarmonyKind::Minor13th);
        }
        if same_text(s, "suspended-second") {
            proof {
                HarmonyKind::of_word_word(HarmonyKind::SuspendedSecond);
            }
            return Some(HarmonyKind::SuspendedSecond);
        }
        if same_text(s, "suspended-fourth") {
            proof {
                HarmonyKind::of_word_word(HarmonyKind::SuspendedFourth);
            }
            return Some(HarmonyKind::SuspendedFourth);
        }
        if same_text(s, "neapolitan") {
            proof {
                HarmonyKind::of_word_word(HarmonyKind::Neapolitan);
            }
            return Some(HarmonyKind::Neapolitan);
        }
        if same_text(s, "italian") {
            proof {
                HarmonyKind::of_word_word(HarmonyKind::Italian);
            }
            return Some(HarmonyKind::Italian);
        }
        if same_text(s, "french") {
            proof {
                HarmonyKind::of_word_word(HarmonyKind::French);
            }
            return Some(HarmonyKind::French);
        }
        if same_text(s, "german") {
            proof {
                HarmonyKind::of_word_word(HarmonyKind::German);
            }
            return Some(HarmonyKind::German);
        }
        if same_text(s, "pedal") {
            proof {
                HarmonyKind::of_word_word(HarmonyKind::Pedal);
            }
            return Some(HarmonyKind::Pedal);
        }
        if same_text(s, "power") {
            proof {
                HarmonyKind::of_word_word(HarmonyKind::Power);
            }
            return Some(HarmonyKind::Power);
        }
        if same_text(s, "tristan") {
            proof {
                HarmonyKind::of_word_word(HarmonyKind::Tristan);
            }
            return Some(HarmonyKind::Tristan);
        }
        if same_text(s, "other") {
            proof {
                HarmonyKind::of_word_word(HarmonyKind::Other);
            }
            return Some(HarmonyKind::Other);
        }
        proof {
            assert forall|v: HarmonyKind| v.word() != s@ by {
            }
        }
        None
    }
}

impl Default for HarmonyKind {
    fn default() -> (r: HarmonyKind)
        ensures
            r == HarmonyKind::Major,
    {
        HarmonyKind::Major
    }
}

impl Scalar for HarmonyKind {
    open spec fn parse(s: Seq<char>) -> Option<HarmonyKind> {
        HarmonyKind::of_word(s)
    }

    open spec fn text(v: HarmonyKind) -> Seq<char> {
        v.word()
    }

    open spec fn initial() -> HarmonyKind {
        HarmonyKind::Major
    }

    proof fn parse_text(v: HarmonyKind) {
        HarmonyKind::of_word_word(v);
    }

    fn from_text(s: &str) -> (r: Option<HarmonyKind>) {
        HarmonyKind::from_str(s)
    }

    fn to_text(&self) -> (r: String) {
        owned(self.as_str())
    }

    fn same(&self, other: &HarmonyKind) -> (r: bool) {
        *self == *other
    }

    fn make_initial() -> (r: HarmonyKind) {
        HarmonyKind::Major
    }
}

/// A pitch: step and octave.
#[derive(Clone, Copy, Debug, PartialEq, Eq)]
pub struct Pitch {
    /// The text of the child `step`, which must be there.
    pub step: Step,
    /// The text of the child `octave`, which must be there.
    pub octave: u8,
}

impl DeepView for Pitch {
    type V = Pitch;

    open spec fn deep_view(&self) -> Pitch {
        Pitch {
            step: self.step.deep_view(),
            octave: self.octave.deep_view(),
        }
    }
}

impl Pitch {
    /// The value that an element denotes. The fields are read in the order in
    /// which they are declared; the first one that fails gives the error.
    #[verifier::opaque]
    pub open spec fn decode_node(n: NodeView) -> Result<Pitch, DecodeErrorView> {
        let step = n.text_required::<Step>(Name::Step);
        let octave = n.text_required::<u8>(Name::Octave);
        if step is Err {
            Err(step->Err_0)
        } else if octave is Err {
            Err(octave->Err_0)
        } else {
            Ok(
                Pitch {
                    step: step->Ok_0,
                    octave: octave->Ok_0,
                }
            )
        }
    }

    /// The element that a value is written as.
    #[verifier::opaque]
    pub open spec fn encode_value(v: Pitch, tag: Seq<char>) -> NodeView {
        NodeView::new(tag)
            .with_children(text_nodes::<Step>(Name::Step, Some(v.step)))
            .with_children(text_nodes::<u8>(Name::Octave, Some(v.octave)))
    }

    /// An encoded element bears the tag it was given.
    pub proof fn encoded_tag(v: Pitch, tag: Seq<char>)
        ensures
            Pitch::encode_value(v, tag).tag == tag,
    {
        broadcast use group_codec;

        reveal(Pitch::encode_value);
    }

    /// Decoding what was encoded gives the value back.
    pub proof fn round_trip(v: Pitch, tag: Seq<char>)
        requires
            <Pitch as Element>::valid(v),
        ensures
            Pitch::decode_node(Pitch::encode_value(v, tag)) == Ok::<Pitch, DecodeErrorView>(v),
    {
        broadcast use group_codec;

        let n = Pitch::encode_value(v, tag);
        assert(n.text_required::<Step>(Name::Step) == Ok::<Step, DecodeErrorView>(v.step)) by {
            reveal(Pitch::encode_value);
            reveal(NodeView::text_required);
            reveal(NodeView::text_opt);
            reveal(NodeView::only_child);
            reveal(NodeView::content);
            Step::parse_text(v.step);
        }
        assert(n.text_required::<u8>(Name::Octave) == Ok::<u8, DecodeErrorView>(v.octave)) by {
            reveal(Pitch::encode_value);
            reveal(NodeView::text_required);
            reveal(NodeView::text_opt);
            reveal(NodeView::only_child);
            reveal(NodeView::content);
            u8::parse_text(v.octave);
        }
        reveal(Pitch::decode_node);
    }

    /// Decoding gives valid values only.
    pub proof fn decoded_valid(n: NodeView)
        ensures
            Pitch::decode_node(n) matches Ok(v) ==> <Pitch as Element>::valid(v),
    {
        reveal(Pitch::decode_node);
    }

    /// Decodes an element.
    pub fn read_node(node: &Node) -> (r: Result<Pitch, DecodeError>)
        ensures
            r matches Ok(v) ==>
                Pitch::decode_node(node.deep_view()) == Ok::<Pitch, DecodeErrorView>(
                v.deep_view(),
            ),
            r matches Err(e) ==>
                Pitch::decode_node(node.deep_view()) == Err::<Pitch, DecodeErrorView>(
                e.deep_view(),
            ),
    {
        proof {
            reveal(Pitch::decode_node);
        }
        let step = node.text_required::<Step>(Name::Step)?;
        let octave = node.text_required::<u8>(Name::Octave)?;
        Ok(Pitch { step, octave })
    }

    /// Encodes a value as an element with the given tag.
    pub fn write_node(&self, tag: &str) -> (r: Node)
        ensures
            r.deep_view() == Pitch::encode_value(self.deep_view(), tag@),
    {
        proof {
            reveal(Pitch::encode_value);
        }
        let mut node = Node::new(tag);
        node.put_text::<Step>(Name::Step, &self.step);
        node.put_text::<u8>(Name::Octave, &self.octave);
        node
    }
}

impl Element for Pitch {
    open spec fn valid(v: Pitch) -> bool {
        true
    }

    open spec fn decode(n: NodeView) -> Result<Pitch, DecodeErrorView> {
        Pitch::decode_node(n)
    }

    open spec fn encode(v: Pitch, tag: Seq<char>) -> NodeView {
        Pitch::encode_value(v, tag)
    }

    proof fn encode_tag(v: Pitch, tag: Seq<char>) {
        Pitch::encoded_tag(v, tag);
    }

    proof fn decode_encode(v: Pitch, tag: Seq<char>) {
        Pitch::round_trip(v, tag);
    }

    proof fn decode_valid(n: NodeView) {
        Pitch::decoded_valid(n);
    }

    fn from_node(node: &Node) -> (r: Result<Pitch, DecodeError>) {
        Pitch::read_node(node)
    }

    fn to_node(&self, tag: &str) -> (r: Node) {
        self.write_node(tag)
    }
}

/// The offset of a chord symbol.
#[derive(Clone, Copy, Debug, PartialEq, Eq)]
pub struct HarmonyOffset {
    /// The text of the element; zero where it has none.
    pub content: Decimal,
    /// The attribute `sound`, if it is written.
    pub sound: Option<YesNo>,
}

impl DeepView for HarmonyOffset {
    type V = HarmonyOffset;

    open spec fn deep_view(&self) -> HarmonyOffset {
        HarmonyOffset {
            content: self.content.deep_view(),
            sound: self.sound.deep_view(),
        }
    }
}

impl HarmonyOffset {
    /// The value with every field at its default.
    pub open spec fn initial() -> HarmonyOffset {
        HarmonyOffset {
            content: Decimal { negative: false, magnitude: 0, scale: 0 },
            sound: None,
        }
    }
}

impl Default for HarmonyOffset {
    fn default() -> (r: HarmonyOffset)
        ensures
            r.deep_view() == HarmonyOffset::initial(),
    {
        let r = HarmonyOffset {
            content: Decimal { negative: false, magnitude: 0, scale: 0 },
            sound: None,
        };
        r
    }
}

impl HarmonyOffset {
    /// The value that an element denotes. The fields are read in the order in
    /// which they are declared; the first one that fails gives the error.
    #[verifier::opaque]
    pub open spec fn decode_node(n: NodeView) -> Result<HarmonyOffset, DecodeErrorView> {
        let content = n.content_or::<Decimal>(Decimal { negative: false, magnitude: 0, scale: 0 });
        let sound = n.attribute_opt::<YesNo>(Name::Sound);
        if content is Err {
            Err(content->Err_0)
        } else if sound is Err {
            Err(sound->Err_0)
        } else {
            Ok(
                HarmonyOffset {
                    content: content->Ok_0,
                    sound: sound->Ok_0,
                }
            )
        }
    }

    /// The element that a value is written as.
    #[verifier::opaque]
    pub open spec fn encode_value(v: HarmonyOffset, tag: Seq<char>) -> NodeView {
        NodeView::new(tag)
            .with_content::<Decimal>(v.content)
            .with_scalar_opt::<YesNo>(Name::Sound, v.sound)
    }

    /// An encoded element bears the tag it was given.
    pub proof fn encoded_tag(v: HarmonyOffset, tag: Seq<char>)
        ensures
            HarmonyOffset::encode_value(v, tag).tag == tag,
    {
        broadcast use group_codec;

        reveal(HarmonyOffset::encode_value);
    }

    /// Decoding what was encoded gives the value back.
    pub proof fn round_trip(v: HarmonyOffset, tag: Seq<char>)
        requires
            <HarmonyOffset as Element>::valid(v),
        ensures
            HarmonyOffset::decode_node(HarmonyOffset::encode_value(v, tag))
                == Ok::<HarmonyOffset, DecodeErrorView>(v),
    {
        broadcast use group_codec;

        let n = HarmonyOffset::encode_value(v, tag);
        assert(
            n.content_or::<Decimal>(Decimal { negative: false, magnitude: 0, scale: 0 })
                == Ok::<Decimal, DecodeErrorView>(v.content)
        ) by {
            reveal(HarmonyOffset::encode_value);
            reveal(NodeView::content_or);
            reveal(NodeView::content);
            Decimal::parse_text(v.content);
        }
        assert(
            n.attribute_opt::<YesNo>(Name::Sound)
                == Ok::<Option<YesNo>, DecodeErrorView>(v.sound)
        ) by {
            reveal(HarmonyOffset::encode_value);
        }
        reveal(HarmonyOffset::decode_node);
    }

    /// Decoding gives valid values only.
    pub proof fn decoded_valid(n: NodeView)
        ensures
            HarmonyOffset::decode_node(n) matches Ok(v) ==> <HarmonyOffset as Element>::valid(v),
    {
        reveal(HarmonyOffset::decode_node);
    }

    /// Decodes an element.
    pub fn read_node(node: &Node) -> (r: Result<HarmonyOffset, DecodeError>)
        ensures
            r matches Ok(v) ==>
                HarmonyOffset::decode_node(node.deep_view())
                    == Ok::<HarmonyOffset, DecodeErrorView>(
                v.deep_view(),
            ),
            r matches Err(e) ==>
                HarmonyOffset::decode_node(node.deep_view())
                    == Err::<HarmonyOffset, DecodeErrorView>(
                e.deep_view(),
            ),
    {
        proof {
            reveal(HarmonyOffset::decode_node);
        }
        let content = node.content_or::<Decimal>(Decimal {
            negative: false,
            magnitude: 0,
            scale: 0,
        })?;
        let sound = node.attribute_opt::<YesNo>(Name::Sound)?;
        Ok(HarmonyOffset { content, sound })
    }

    /// Encodes a value as an element with the given tag.
    pub fn write_node(&self, tag: &str) -> (r: Node)
        ensures
            r.deep_view() == HarmonyOffset::encode_value(self.deep_view(), tag@),
    {
        proof {
            reveal(HarmonyOffset::encode_value);
        }
        let mut node = Node::new(tag);
        node.put_content::<Decimal>(&self.content);
        node.put_scalar_opt::<YesNo>(Name::Sound, &self.sound);
        node
    }
}

impl Element for HarmonyOffset {
    open spec fn valid(v: HarmonyOffset) -> bool {
        true
    }

    open spec fn decode(n: NodeView) -> Result<HarmonyOffset, DecodeErrorView> {
        HarmonyOffset::decode_node(n)
    }

    open spec fn encode(v: HarmonyOffset, tag: Seq<char>) -> NodeView {
        HarmonyOffset::encode_value(v, tag)
    }

    proof fn encode_tag(v: HarmonyOffset, tag: Seq<char>) {
        HarmonyOffset::encoded_tag(v, tag);
    }

    proof fn decode_encode(v: HarmonyOffset, tag: Seq<char>) {
        HarmonyOffset::round_trip(v, tag);
    }

    proof fn decode_valid(n: NodeView) {
        HarmonyOffset::decoded_valid(n);
    }

    fn from_node(node: &Node) -> (r: Result<HarmonyOffset, DecodeError>) {
        HarmonyOffset::read_node(node)
    }

    fn to_node(&self, tag: &str) -> (r: Node) {
        self.write_node(tag)
    }
}

/// A chord symbol: its items in document order.
#[derive(Clone, Debug, PartialEq)]
pub struct Harmony {
    /// The children, in document order.
    pub items: Vec<HarmonyItem>,
}

/// The mathematical value of a [`Harmony`].
pub struct HarmonyView {
    pub items: Seq<HarmonyItemView>,
}

impl DeepView for Harmony {
    type V = HarmonyView;

    open spec fn deep_view(&self) -> HarmonyView {
        HarmonyView {
            items: self.items.deep_view(),
        }
    }
}

impl Harmony {
    /// The value with every field at its default.
    pub open spec fn initial() -> HarmonyView {
        HarmonyView {
            items: Seq::empty(),
        }
    }
}

impl Default for Harmony {
    fn default() -> (r: Harmony)
        ensures
            r.deep_view() == Harmony::initial(),
    {
        let r = Harmony {
            items: Vec::new(),
        };
        proof {
            assert(r.items.deep_view() =~= Seq::empty());
        }
        r
    }
}

impl Harmony {
    /// The value that an element denotes. The fields are read in the order in
    /// which they are declared; the first one that fails gives the error.
    #[verifier::opaque]
    pub open spec fn decode_node(n: NodeView) -> Result<HarmonyView, DecodeErrorView> {
        let items = n.variants::<HarmonyItem>();
        if items is Err {
            Err(items->Err_0)
        } else {
            Ok(
                HarmonyView {
                    items: items->Ok_0,
                }
            )
        }
    }

    /// The element that a value is written as.
    #[verifier::opaque]
    pub open spec fn encode_value(v: HarmonyView, tag: Seq<char>) -> NodeView {
        NodeView::new(tag)
            .with_children(encode_variants::<HarmonyItem>(v.items))
    }

    /// An encoded element bears the tag it was given.
    pub proof fn encoded_tag(v: HarmonyView, tag: Seq<char>)
        ensures
            Harmony::encode_value(v, tag).tag == tag,
    {
        broadcast use group_codec;

        reveal(Harmony::encode_value);
    }

    /// Decoding what was encoded gives the value back.
    pub proof fn round_trip(v: HarmonyView, tag: Seq<char>)
        requires
            <Harmony as Element>::valid(v),
        ensures
            Harmony::decode_node(Harmony::encode_value(v, tag))
                == Ok::<HarmonyView, DecodeErrorView>(v),
    {
        broadcast use group_codec;

        let n = Harmony::encode_value(v, tag);
        assert(
            n.variants::<HarmonyItem>()
                == Ok::<Seq<HarmonyItemView>, DecodeErrorView>(v.items)
        ) by {
            reveal(Harmony::encode_value);
            reveal(NodeView::variants);
            lemma_decode_encode_variants::<HarmonyItem>(v.items, tag);
        }
        reveal(Harmony::decode_node);
    }

    /// Decoding gives valid values only.
    pub proof fn decoded_valid(n: NodeView)
        ensures
            Harmony::decode_node(n) matches Ok(v) ==> <Harmony as Element>::valid(v),
    {
        reveal(Harmony::decode_node);
        reveal(NodeView::variants);
        lemma_decode_variants_valid::<HarmonyItem>(n.children, n.tag);
    }

    /// Decodes an element.
    pub fn read_node(node: &Node) -> (r: Result<Harmony, DecodeError>)
        ensures
            r matches Ok(v) ==>
                Harmony::decode_node(node.deep_view()) == Ok::<HarmonyView, DecodeErrorView>(
                v.deep_view(),
            ),
            r matches Err(e) ==>
                Harmony::decode_node(node.deep_view()) == Err::<HarmonyView, DecodeErrorView>(
                e.deep_view(),
            ),
    {
        proof {
            reveal(Harmony::decode_node);
        }
        let items = node.variants::<HarmonyItem>()?;
        Ok(Harmony { items })
    }

    /// Encodes a value as an element with the given tag.
    pub fn write_node(&self, tag: &str) -> (r: Node)
        ensures
            r.deep_view() == Harmony::encode_value(self.deep_view(), tag@),
    {
        proof {
            reveal(Harmony::encode_value);
        }
        let mut node = Node::new(tag);
        node.put_variants::<HarmonyItem>(&self.items);
        node
    }
}

impl Element for Harmony {
    open spec fn valid(v: HarmonyView) -> bool {
        &&& all_valid_variants::<HarmonyItem>(v.items)
    }

    open spec fn decode(n: NodeView) -> Result<HarmonyView, DecodeErrorView> {
        Harmony::decode_node(n)
    }

    open spec fn encode(v: HarmonyView, tag: Seq<char>) -> NodeView {
        Harmony::encode_value(v, tag)
    }

    proof fn encode_tag(v: HarmonyView, tag: Seq<char>) {
        Harmony::encoded_tag(v, tag);
    }

    proof fn decode_encode(v: HarmonyView, tag: Seq<char>) {
        Harmony::round_trip(v, tag);
    }

    proof fn decode_valid(n: NodeView) {
        Harmony::decoded_valid(n);
    }

    fn from_node(node: &Node) -> (r: Result<Harmony, DecodeError>) {
        Harmony::read_node(node)
    }

    fn to_node(&self, tag: &str) -> (r: Node) {
        self.write_node(tag)
    }
}

/// An item of a chord symbol.
#[derive(Clone, Debug, PartialEq)]
pub enum HarmonyItem {
    /// The element `root`.
    Root(Root),
    /// The element `numeral`.
    Numeral(Numeral),
    /// The element `kind`.
    Kind(PrintableValue<HarmonyKind>),
    /// The element `inversion`.
    Inversion(PrintableValue<u8>),
    /// The element `bass`.
    Bass(Bass),
    /// The element `degree`.
    Degree(Degree),
    /// The element `frame`.
    Frame(Frame),
    /// The element `offset`.
    Offset(HarmonyOffset),
    /// The element `footnote`.
    Footnote(PrintableValue<String>),
    /// The element `level`.
    Level(Level),
    /// The text of the element `staff`.
    Staff(u8),
}

/// The mathematical value of a [`HarmonyItem`].
pub enum HarmonyItemView {
    Root(RootView),
    Numeral(NumeralView),
    Kind(PrintableValueView<HarmonyKind>),
    Inversion(PrintableValueView<u8>),
    Bass(BassView),
    Degree(DegreeView),
    Frame(FrameView),
    Offset(HarmonyOffset),
    Footnote(PrintableValueView<Seq<char>>),
    Level(LevelView),
    Staff(u8),
}

impl DeepView for HarmonyItem {
    type V = HarmonyItemView;

    open spec fn deep_view(&self) -> HarmonyItemView {
        match self {
            HarmonyItem::Root(x) => HarmonyItemView::Root(x.deep_view()),
            HarmonyItem::Numeral(x) => HarmonyItemView::Numeral(x.deep_view()),
            HarmonyItem::Kind(x) => HarmonyItemView::Kind(x.deep_view()),
            HarmonyItem::Inversion(x) => HarmonyItemView::Inversion(x.deep_view()),
            HarmonyItem::Bass(x) => HarmonyItemView::Bass(x.deep_view()),
            HarmonyItem::Degree(x) => HarmonyItemView::Degree(x.deep_view()),
            HarmonyItem::Frame(x) => HarmonyItemView::Frame(x.deep_view()),
            HarmonyItem::Offset(x) => HarmonyItemView::Offset(x.deep_view()),
            HarmonyItem::Footnote(x) => HarmonyItemView::Footnote(x.deep_view()),
            HarmonyItem::Level(x) => HarmonyItemView::Level(x.deep_view()),
            HarmonyItem::Staff(x) => HarmonyItemView::Staff(x.deep_view()),
        }
    }
}

impl HarmonyItem {
    /// The variant that an element denotes: the tag chooses the variant, the
    /// rest of the element gives what the variant holds.
    #[verifier::opaque]
    pub open spec fn decode_node(n: NodeView) -> Result<HarmonyItemView, DecodeErrorView> {
        match Name::of_text(n.tag) {
            Some(Name::Root) => match Root::decode(n) {
                Ok(x) => Ok(HarmonyItemView::Root(x)),
                Err(e) => Err(e),
            },
            Some(Name::Numeral) => match Numeral::decode(n) {
                Ok(x) => Ok(HarmonyItemView::Numeral(x)),
                Err(e) => Err(e),
            },
            Some(Name::Kind) => match PrintableValue::<HarmonyKind>::decode(n) {
                Ok(x) => Ok(HarmonyItemView::Kind(x)),
                Err(e) => Err(e),
            },
            Some(Name::Inversion) => match PrintableValue::<u8>::decode(n) {
                Ok(x) => Ok(HarmonyItemView::Inversion(x)),
                Err(e) => Err(e),
            },
            Some(Name::Bass) => match Bass::decode(n) {
                Ok(x) => Ok(HarmonyItemView::Bass(x)),
                Err(e) => Err(e),
            },
            Some(Name::Degree) => match Degree::decode(n) {
                Ok(x) => Ok(HarmonyItemView::Degree(x)),
                Err(e) => Err(e),
            },
            Some(Name::Frame) => match Frame::decode(n) {
                Ok(x) => Ok(HarmonyItemView::Frame(x)),
                Err(e) => Err(e),
            },
            Some(Name::Offset) => match HarmonyOffset::decode(n) {
                Ok(x) => Ok(HarmonyItemView::Offset(x)),
                Err(e) => Err(e),
            },
            Some(Name::Footnote) => match PrintableValue::<String>::decode(n) {
                Ok(x) => Ok(HarmonyItemView::Footnote(x)),
                Err(e) => Err(e),
            },
            Some(Name::Level) => match Level::decode(n) {
                Ok(x) => Ok(HarmonyItemView::Level(x)),
                Err(e) => Err(e),
            },
            Some(Name::Staff) => match n.content::<u8>() {
                Ok(x) => Ok(HarmonyItemView::Staff(x)),
                Err(e) => Err(e),
            },
            _ => Err(n.unknown()),
        }
    }

    /// The element that a variant is written as.
    #[verifier::opaque]
    pub open spec fn encode_value(v: HarmonyItemView) -> NodeView {
        match v {
            HarmonyItemView::Root(x) => Root::encode(x, Name::Root.text()),
            HarmonyItemView::Numeral(x) => Numeral::encode(x, Name::Numeral.text()),
            HarmonyItemView::Kind(x) => PrintableValue::<HarmonyKind>::encode(x, Name::Kind.text()),
            HarmonyItemView::Inversion(x) =>
                PrintableValue::<u8>::encode(x, Name::Inversion.text()),
            HarmonyItemView::Bass(x) => Bass::encode(x, Name::Bass.text()),
            HarmonyItemView::Degree(x) => Degree::encode(x, Name::Degree.text()),
            HarmonyItemView::Frame(x) => Frame::encode(x, Name::Frame.text()),
            HarmonyItemView::Offset(x) => HarmonyOffset::encode(x, Name::Offset.text()),
            HarmonyItemView::Footnote(x) =>
                PrintableValue::<String>::encode(x, Name::Footnote.text()),
            HarmonyItemView::Level(x) => Level::encode(x, Name::Level.text()),
            HarmonyItemView::Staff(x) => NodeView::new(Name::Staff.text()).with_content::<u8>(x),
        }
    }

    /// The tag of a variant.
    pub open spec fn name_of(v: HarmonyItemView) -> Name {
        match v {
            HarmonyItemView::Root(_) => Name::Root,
            HarmonyItemView::Numeral(_) => Name::Numeral,
            HarmonyItemView::Kind(_) => Name::Kind,
            HarmonyItemView::Inversion(_) => Name::Inversion,
            HarmonyItemView::Bass(_) => Name::Bass,
            HarmonyItemView::Degree(_) => Name::Degree,
            HarmonyItemView::Frame(_) => Name::Frame,
            HarmonyItemView::Offset(_) => Name::Offset,
            HarmonyItemView::Footnote(_) => Name::Footnote,
            HarmonyItemView::Level(_) => Name::Level,
            HarmonyItemView::Staff(_) => Name::Staff,
        }
    }

    /// An encoded variant bears the tag of the variant.
    pub proof fn encoded_name(v: HarmonyItemView)
        ensures
            HarmonyItem::encode_value(v).tag == HarmonyItem::name_of(v).text(),
    {
        broadcast use group_codec;

        reveal(HarmonyItem::encode_value);
        match v {
            HarmonyItemView::Root(x) => {
                Root::encode_tag(x, Name::Root.text());
            },
            HarmonyItemView::Numeral(x) => {
                Numeral::encode_tag(x, Name::Numeral.text());
            },
            HarmonyItemView::Kind(x) => {
                PrintableValue::<HarmonyKind>::encode_tag(x, Name::Kind.text());
            },
            HarmonyItemView::Inversion(x) => {
                PrintableValue::<u8>::encode_tag(x, Name::Inversion.text());
            },
            HarmonyItemView::Bass(x) => {
                Bass::encode_tag(x, Name::Bass.text());
            },
            HarmonyItemView::Degree(x) => {
                Degree::encode_tag(x, Name::Degree.text());
            },
            HarmonyItemView::Frame(x) => {
                Frame::encode_tag(x, Name::Frame.text());
            },
            HarmonyItemView::Offset(x) => {
                HarmonyOffset::encode_tag(x, Name::Offset.text());
            },
            HarmonyItemView::Footnote(x) => {
                PrintableValue::<String>::encode_tag(x, Name::Footnote.text());
            },
            HarmonyItemView::Level(x) => {
                Level::encode_tag(x, Name::Level.text());
            },
            _ => {
            },
        }
    }

    /// Decoding what was encoded gives the variant back.
    pub proof fn round_trip(v: HarmonyItemView)
        requires
            <HarmonyItem as Tagged>::valid(v),
        ensures
            HarmonyItem::decode_node(HarmonyItem::encode_value(v))
                == Ok::<HarmonyItemView, DecodeErrorView>(v),
    {
        broadcast use group_codec;

        let n = HarmonyItem::encode_value(v);
        assert(Name::of_text(n.tag) == Some(HarmonyItem::name_of(v))) by {
            HarmonyItem::encoded_name(v);
        }
        match v {
            HarmonyItemView::Root(x) => {
                reveal(HarmonyItem::encode_value);
                Root::decode_encode(x, Name::Root.text());
            },
            HarmonyItemView::Numeral(x) => {
                reveal(HarmonyItem::encode_value);
                Numeral::decode_encode(x, Name::Numeral.text());
            },
            HarmonyItemView::Kind(x) => {
                reveal(HarmonyItem::encode_value);
                PrintableValue::<HarmonyKind>::decode_encode(x, Name::Kind.text());
            },
            HarmonyItemView::Inversion(x) => {
                reveal(HarmonyItem::encode_value);
                PrintableValue::<u8>::decode_encode(x, Name::Inversion.text());
            },
            HarmonyItemView::Bass(x) => {
                reveal(HarmonyItem::encode_value);
                Bass::decode_encode(x, Name::Bass.text());
            },
            HarmonyItemView::Degree(x) => {
                reveal(HarmonyItem::encode_value);
                Degree::decode_encode(x, Name::Degree.text());
            },
            HarmonyItemView::Frame(x) => {
                reveal(HarmonyItem::encode_value);
                Frame::decode_encode(x, Name::Frame.text());
            },
            HarmonyItemView::Offset(x) => {
                reveal(HarmonyItem::encode_value);
                HarmonyOffset::decode_encode(x, Name::Offset.text());
            },
            HarmonyItemView::Footnote(x) => {
                reveal(HarmonyItem::encode_value);
                PrintableValue::<String>::decode_encode(x, Name::Footnote.text());
            },
            HarmonyItemView::Level(x) => {
                reveal(HarmonyItem::encode_value);
                Level::decode_encode(x, Name::Level.text());
            },
            HarmonyItemView::Staff(x) => {
                reveal(HarmonyItem::encode_value);
                reveal(NodeView::content);
                u8::parse_text(x);
            },
        }
        reveal(HarmonyItem::decode_node);
    }

    /// Decoding gives valid values only.
    pub proof fn decoded_valid(n: NodeView)
        ensures
            HarmonyItem::decode_node(n) matches Ok(v) ==> <HarmonyItem as Tagged>::valid(v),
    {
        reveal(HarmonyItem::decode_node);
        Root::decode_valid(n);
        Numeral::decode_valid(n);
        PrintableValue::<HarmonyKind>::decode_valid(n);
        PrintableValue::<u8>::decode_valid(n);
        Bass::decode_valid(n);
        Degree::decode_valid(n);
        Frame::decode_valid(n);
        HarmonyOffset::decode_valid(n);
        PrintableValue::<String>::decode_valid(n);
        Level::decode_valid(n);
    }

    /// Decodes an element.
    pub fn read_node(node: &Node) -> (r: Result<HarmonyItem, DecodeError>)
        ensures
            r matches Ok(v) ==>
                HarmonyItem::decode_node(node.deep_view())
                    == Ok::<HarmonyItemView, DecodeErrorView>(
                v.deep_view(),
            ),
            r matches Err(e) ==>
                HarmonyItem::decode_node(node.deep_view())
                    == Err::<HarmonyItemView, DecodeErrorView>(
                e.deep_view(),
            ),
    {
        proof {
            reveal(HarmonyItem::decode_node);
        }
        match Name::from_str(node.tag_str()) {
            Some(Name::Root) => match Root::from_node(node) {
                Ok(x) => Ok(HarmonyItem::Root(x)),
                Err(e) => Err(e),
            },
            Some(Name::Numeral) => match Numeral::from_node(node) {
                Ok(x) => Ok(HarmonyItem::Numeral(x)),
                Err(e) => Err(e),
            },
            Some(Name::Kind) => match PrintableValue::<HarmonyKind>::from_node(node) {
                Ok(x) => Ok(HarmonyItem::Kind(x)),
                Err(e) => Err(e),
            },
            Some(Name::Inversion) => match PrintableValue::<u8>::from_node(node) {
                Ok(x) => Ok(HarmonyItem::Inversion(x)),
                Err(e) => Err(e),
            },
            Some(Name::Bass) => match Bass::from_node(node) {
                Ok(x) => Ok(HarmonyItem::Bass(x)),
                Err(e) => Err(e),
            },
            Some(Name::Degree) => match Degree::from_node(node) {
                Ok(x) => Ok(HarmonyItem::Degree(x)),
                Err(e) => Err(e),
            },
            Some(Name::Frame) => match Frame::from_node(node) {
                Ok(x) => Ok(HarmonyItem::Frame(x)),
                Err(e) => Err(e),
            },
            Some(Name::Offset) => match HarmonyOffset::from_node(node) {
                Ok(x) => Ok(HarmonyItem::Offset(x)),
                Err(e) => Err(e),
            },
            Some(Name::Footnote) => match PrintableValue::<String>::from_node(node) {
                Ok(x) => Ok(HarmonyItem::Footnote(x)),
                Err(e) => Err(e),
            },
            Some(Name::Level) => match Level::from_node(node) {
                Ok(x) => Ok(HarmonyItem::Level(x)),
                Err(e) => Err(e),
            },
            Some(Name::Staff) => match node.content::<u8>() {
                Ok(x) => Ok(HarmonyItem::Staff(x)),
                Err(e) => Err(e),
            },
            _ => Err(DecodeError::at(ErrorKind::StructuralError, node.tag_str())),
        }
    }

    /// Encodes a variant.
    pub fn write_node(&self) -> (r: Node)
        ensures
            r.deep_view() == HarmonyItem::encode_value(self.deep_view()),
    {
        proof {
            reveal(HarmonyItem::encode_value);
        }
        match self {
            HarmonyItem::Root(x) => x.to_node(Name::Root.as_str()),
            HarmonyItem::Numeral(x) => x.to_node(Name::Numeral.as_str()),
            HarmonyItem::Kind(x) => x.to_node(Name::Kind.as_str()),
            HarmonyItem::Inversion(x) => x.to_node(Name::Inversion.as_str()),
            HarmonyItem::Bass(x) => x.to_node(Name::Bass.as_str()),
            HarmonyItem::Degree(x) => x.to_node(Name::Degree.as_str()),
            HarmonyItem::Frame(x) => x.to_node(Name::Frame.as_str()),
            HarmonyItem::Offset(x) => x.to_node(Name::Offset.as_str()),
            HarmonyItem::Footnote(x) => x.to_node(Name::Footnote.as_str()),
            HarmonyItem::Level(x) => x.to_node(Name::Level.as_str()),
            HarmonyItem::Staff(x) => {
                let mut node = Node::new(Name::Staff.as_str());
                node.put_content::<u8>(x);
                node
            },
        }
    }
}

impl Tagged for HarmonyItem {
    open spec fn valid(v: HarmonyItemView) -> bool {
        match v {
            HarmonyItemView::Root(x) => Root::valid(x),
            HarmonyItemView::Numeral(x) => Numeral::valid(x),
            HarmonyItemView::Kind(x) => PrintableValue::<HarmonyKind>::valid(x),
            HarmonyItemView::Inversion(x) => PrintableValue::<u8>::valid(x),
            HarmonyItemView::Bass(x) => Bass::valid(x),
            HarmonyItemView::Degree(x) => Degree::valid(x),
            HarmonyItemView::Frame(x) => Frame::valid(x),
            HarmonyItemView::Offset(x) => HarmonyOffset::valid(x),
            HarmonyItemView::Footnote(x) => PrintableValue::<String>::valid(x),
            HarmonyItemView::Level(x) => Level::valid(x),
            HarmonyItemView::Staff(_) => true,
        }
    }

    open spec fn decode(n: NodeView) -> Result<HarmonyItemView, DecodeErrorView> {
        HarmonyItem::decode_node(n)
    }

    open spec fn encode(v: HarmonyItemView) -> NodeView {
        HarmonyItem::encode_value(v)
    }

    open spec fn name(v: HarmonyItemView) -> Name {
        HarmonyItem::name_of(v)
    }

    proof fn encode_name(v: HarmonyItemView) {
        HarmonyItem::encoded_name(v);
    }

    proof fn decode_encode(v: HarmonyItemView) {
        HarmonyItem::round_trip(v);
    }

    proof fn decode_valid(n: NodeView) {
        HarmonyItem::decoded_valid(n);
    }

    fn from_node(node: &Node) -> (r: Result<HarmonyItem, DecodeError>) {
        HarmonyItem::read_node(node)
    }

    fn to_node(&self) -> (r: Node) {
        self.write_node()
    }
}

} // verus!
