//! Accidentals.
use crate::scalar::Scalar;
use crate::text::{owned, same_text};
use vstd::prelude::*;

verus! {

/// The accidental signs.
#[derive(Clone, Copy, Debug, PartialEq, Eq, Structural)]
pub enum Accidental {
    /// Written `none`.
    Nothing,
    /// Written `sharp`.
    Sharp,
    /// Written `natural`.
    Natural,
    /// Written `flat`.
    Flat,
    /// Written `double-sharp`.
    DoubleSharp,
    /// Written `sharp-sharp`.
    SharpSharp,
    /// Written `flat-flat`.
    FlatFlat,
    /// Written `natural-sharp`.
    NaturalSharp,
    /// Written `natural-flat`.
    NaturalFlat,
    /// Written `quarter-flat`.
    QuarterFlat,
    /// Written `quarter-sharp`.
    QuarterSharp,
    /// Written `three-quarters-flat`.
    ThreeQuartersFlat,
    /// Written `three-quarters-sharp`.
    ThreeQuartersSharp,
    /// Written `sharp-down`.
    SharpDown,
    /// Written `sharp-up`.
    SharpUp,
    /// Written `natural-down`.
    NaturalDown,
    /// Written `natural-up`.
    NaturalUp,
    /// Written `flat-down`.
    FlatDown,
    /// Written `flat-up`.
    FlatUp,
    /// Written `double-sharp-down`.
    DoubleSharpDown,
    /// Written `double-sharp-up`.
    DoubleSharpUp,
    /// Written `flat-flat-down`.
    FlatFlatDown,
    /// Written `flat-flat-up`.
    FlatFlatUp,
    /// Written `arrow-down`.
    ArrowDown,
    /// Written `arrow-up`.
    ArrowUp,
    /// Written `triple-sharp`.
    TripleSharp,
    /// Written `triple-flat`.
    TripleFlat,
    /// Written `slash-quarter-sharp`.
    SlashQuarterSharp,
    /// Written `slash-sharp`.
    SlashSharp,
    /// Written `slash-flat`.
    SlashFlat,
    /// Written `double-slash-flat`.
    DoubleSlashFlat,
    /// Written `sharp-1`.
    Sharp1,
    /// Written `sharp-2`.
    Sharp2,
    /// Written `sharp-3`.
    Sharp3,
    /// Written `sharp-4`.
    Sharp4,
    /// Written `sharp-5`.
    Sharp5,
    /// Written `flat-1`.
    Flat1,
    /// Written `flat-2`.
    Flat2,
    /// Written `flat-3`.
    Flat3,
    /// Written `flat-4`.
    Flat4,
    /// Written `flat-5`.
    Flat5,
    /// Written `sori`.
    Sori,
    /// Written `koron`.
    Koron,
    /// Written `other`.
    Other,
}

impl DeepView for Accidental {
    type V = Accidental;

    open spec fn deep_view(&self) -> Accidental {
        *self
    }
}

impl Accidental {
    /// The word that a value is written as.
    #[verifier::opaque]
    pub open spec fn word(self) -> Seq<char> {
        match self {
            Accidental::Nothing => "none"@,
            Accidental::Sharp => "sharp"@,
            Accidental::Natural => "natural"@,
            Accidental::Flat => "flat"@,
            Accidental::DoubleSharp => "double-sharp"@,
            Accidental::SharpSharp => "sharp-sharp"@,
            Accidental::FlatFlat => "flat-flat"@,
            Accidental::NaturalSharp => "natural-sharp"@,
            Accidental::NaturalFlat => "natural-flat"@,
            Accidental::QuarterFlat => "quarter-flat"@,
            Accidental::QuarterSharp => "quarter-sharp"@,
            Accidental::ThreeQuartersFlat => "three-quarters-flat"@,
            Accidental::ThreeQuartersSharp => "three-quarters-sharp"@,
            Accidental::SharpDown => "sharp-down"@,
            Accidental::SharpUp => "sharp-up"@,
            Accidental::NaturalDown => "natural-down"@,
            Accidental::NaturalUp => "natural-up"@,
            Accidental::FlatDown => "flat-down"@,
            Accidental::FlatUp => "flat-up"@,
            Accidental::DoubleSharpDown => "double-sharp-down"@,
            Accidental::DoubleSharpUp => "double-sharp-up"@,
            Accidental::FlatFlatDown => "flat-flat-down"@,
            Accidental::FlatFlatUp => "flat-flat-up"@,
            Accidental::ArrowDown => "arrow-down"@,
            Accidental::ArrowUp => "arrow-up"@,
            Accidental::TripleSharp => "triple-sharp"@,
            Accidental::TripleFlat => "triple-flat"@,
            Accidental::SlashQuarterSharp => "slash-quarter-sharp"@,
            Accidental::SlashSharp => "slash-sharp"@,
            Accidental::SlashFlat => "slash-flat"@,
            Accidental::DoubleSlashFlat => "double-slash-flat"@,
            Accidental::Sharp1 => "sharp-1"@,
            Accidental::Sharp2 => "sharp-2"@,
            Accidental::Sharp3 => "sharp-3"@,
            Accidental::Sharp4 => "sharp-4"@,
            Accidental::Sharp5 => "sharp-5"@,
            Accidental::Flat1 => "flat-1"@,
            Accidental::Flat2 => "flat-2"@,
            Accidental::Flat3 => "flat-3"@,
            Accidental::Flat4 => "flat-4"@,
            Accidental::Flat5 => "flat-5"@,
            Accidental::Sori => "sori"@,
            Accidental::Koron => "koron"@,
            Accidental::Other => "other"@,
        }
    }

    /// The value that a word denotes, if it denotes one.
    #[verifier::opaque]
    pub open spec fn of_word(s: Seq<char>) -> Option<Accidental> {
        if exists|v: Accidental| v.word() == s {
            Some(choose|v: Accidental| v.word() == s)
        } else {
            None
        }
    }

    /// No two values are written alike.
    pub proof fn word_injective(a: Accidental, b: Accidental)
        ensures
            a.word() == b.word() ==> a == b,
    {
        reveal(Accidental::word);
        reveal_strlit("none");
        reveal_strlit("sharp");
        reveal_strlit("natural");
        reveal_strlit("flat");
        reveal_strlit("double-sharp");
        reveal_strlit("sharp-sharp");
        reveal_strlit("flat-flat");
        reveal_strlit("natural-sharp");
        reveal_strlit("natural-flat");
        reveal_strlit("quarter-flat");
        reveal_strlit("quarter-sharp");
        reveal_strlit("three-quarters-flat");
        reveal_strlit("three-quarters-sharp");
        reveal_strlit("sharp-down");
        reveal_strlit("sharp-up");
        reveal_strlit("natural-down");
        reveal_strlit("natural-up");
        reveal_strlit("flat-down");
        reveal_strlit("flat-up");
        reveal_strlit("double-sharp-down");
        reveal_strlit("double-sharp-up");
        reveal_strlit("flat-flat-down");
        reveal_strlit("flat-flat-up");
        reveal_strlit("arrow-down");
        reveal_strlit("arrow-up");
        reveal_strlit("triple-sharp");
        reveal_strlit("triple-flat");
        reveal_strlit("slash-quarter-sharp");
        reveal_strlit("slash-sharp");
        reveal_strlit("slash-flat");
        reveal_strlit("double-slash-flat");
        reveal_strlit("sharp-1");
        reveal_strlit("sharp-2");
        reveal_strlit("sharp-3");
        reveal_strlit("sharp-4");
        reveal_strlit("sharp-5");
        reveal_strlit("flat-1");
        reveal_strlit("flat-2");
        reveal_strlit("flat-3");
        reveal_strlit("flat-4");
        reveal_strlit("flat-5");
        reveal_strlit("sori");
        reveal_strlit("koron");
        reveal_strlit("other");
        if a.word() == b.word() {
            assert(a.word().len() == b.word().len());
            assert(a.word()[0] == b.word()[0]);
            assert(a.word()[1] == b.word()[1]);
            assert(a.word()[2] == b.word()[2]);
            assert(a.word()[3] == b.word()[3]);
            assert(a.word()[4] == b.word()[4]);
            assert(a.word()[5] == b.word()[5]);
            assert(a.word()[6] == b.word()[6]);
            assert(a.word()[7] == b.word()[7]);
            assert(a.word()[8] == b.word()[8]);
            assert(a.word()[9] == b.word()[9]);
            assert(a.word()[10] == b.word()[10]);
            assert(a.word()[11] == b.word()[11]);
            assert(a.word()[12] == b.word()[12]);
            assert(a.word()[13] == b.word()[13]);
            assert(a.word()[14] == b.word()[14]);
            assert(a.word()[15] == b.word()[15]);
            assert(a.word()[16] == b.word()[16]);
            assert(a.word()[17] == b.word()[17]);
            assert(a.word()[18] == b.word()[18]);
            assert(a.word()[19] == b.word()[19]);
        }
    }

    /// Reading the word of a value gives the value back.
    pub proof fn of_word_word(v: Accidental)
        ensures
            Accidental::of_word(v.word()) == Some(v),
    {
        reveal(Accidental::of_word);
        Accidental::word_injective(v, choose|w: Accidental| w.word() == v.word());
    }

    /// The word that a value is written as.
    pub fn as_str(self) -> (r: &'static str)
        ensures
            r@ == self.word(),
    {
        proof {
            reveal(Accidental::word);
        }
        match self {
            Accidental::Nothing => "none",
            Accidental::Sharp => "sharp",
            Accidental::Natural => "natural",
            Accidental::Flat => "flat",
            Accidental::DoubleSharp => "double-sharp",
            Accidental::SharpSharp => "sharp-sharp",
            Accidental::FlatFlat => "flat-flat",
            Accidental::NaturalSharp => "natural-sharp",
            Accidental::NaturalFlat => "natural-flat",
            Accidental::QuarterFlat => "quarter-flat",
            Accidental::QuarterSharp => "quarter-sharp",
            Accidental::ThreeQuartersFlat => "three-quarters-flat",
            Accidental::ThreeQuartersSharp => "three-quarters-sharp",
            Accidental::SharpDown => "sharp-down",
            Accidental::SharpUp => "sharp-up",
            Accidental::NaturalDown => "natural-down",
            Accidental::NaturalUp => "natural-up",
            Accidental::FlatDown => "flat-down",
            Accidental::FlatUp => "flat-up",
            Accidental::DoubleSharpDown => "double-sharp-down",
            Accidental::DoubleSharpUp => "double-sharp-up",
            Accidental::FlatFlatDown => "flat-flat-down",
            Accidental::FlatFlatUp => "flat-flat-up",
            Accidental::ArrowDown => "arrow-down",
            Accidental::ArrowUp => "arrow-up",
            Accidental::TripleSharp => "triple-sharp",
            Accidental::TripleFlat => "triple-flat",
            Accidental::SlashQuarterSharp => "slash-quarter-sharp",
            Accidental::SlashSharp => "slash-sharp",
            Accidental::SlashFlat => "slash-flat",
            Accidental::DoubleSlashFlat => "double-slash-flat",
            Accidental::Sharp1 => "sharp-1",
            Accidental::Sharp2 => "sharp-2",
            Accidental::Sharp3 => "sharp-3",
            Accidental::Sharp4 => "sharp-4",
            Accidental::Sharp5 => "sharp-5",
            Accidental::Flat1 => "flat-1",
            Accidental::Flat2 => "flat-2",
            Accidental::Flat3 => "flat-3",
            Accidental::Flat4 => "flat-4",
            Accidental::Flat5 => "flat-5",
            Accidental::Sori => "sori",
            Accidental::Koron => "koron",
            Accidental::Other => "other",
        }
    }

    /// Reads a value from its word.
    pub fn from_str(s: &str) -> (r: Option<Accidental>)
        ensures
            r == Accidental::of_word(s@),
    {
        proof {
            reveal(Accidental::word);
            reveal(Accidental::of_word);
        }
        if same_text(s, "none") {
            proof {
                Accidental::of_word_word(Accidental::Nothing);
            }
            return Some(Accidental::Nothing);
        }
        if same_text(s, "sharp") {
            proof {
                Accidental::of_word_word(Accidental::Sharp);
            }
            return Some(Accidental::Sharp);
        }
        if same_text(s, "natural") {
            proof {
                Accidental::of_word_word(Accidental::Natural);
            }
            return Some(Accidental::Natural);
        }
        if same_text(s, "flat") {
            proof {
                Accidental::of_word_word(Accidental::Flat);
            }
            return Some(Accidental::Flat);
        }
        if same_text(s, "double-sharp") {
            proof {
                Accidental::of_word_word(Accidental::DoubleSharp);
            }
            return Some(Accidental::DoubleSharp);
        }
        if same_text(s, "sharp-sharp") {
            proof {
                Accidental::of_word_word(Accidental::SharpSharp);
            }
            return Some(Accidental::SharpSharp);
        }
        if same_text(s, "flat-flat") {
            proof {
                Accidental::of_word_word(Accidental::FlatFlat);
            }
            return Some(Accidental::FlatFlat);
        }
        if same_text(s, "natural-sharp") {
            proof {
                Accidental::of_word_word(Accidental::NaturalSharp);
            }
            return Some(Accidental::NaturalSharp);
        }
        if same_text(s, "natural-flat") {
            proof {
                Accidental::of_word_word(Accidental::NaturalFlat);
            }
            return Some(Accidental::NaturalFlat);
        }
        if same_text(s, "quarter-flat") {
            proof {
                Accidental::of_word_word(Accidental::QuarterFlat);
            }
            return Some(Accidental::QuarterFlat);
        }
        if same_text(s, "quarter-sharp") {
            proof {
                Accidental::of_word_word(Accidental::QuarterSharp);
            }
            return Some(Accidental::QuarterSharp);
        }
        if same_text(s, "three-quarters-flat") {
            proof {
                Accidental::of_word_word(Accidental::ThreeQuartersFlat);
            }
            return Some(Accidental::ThreeQuartersFlat);
        }
        if same_text(s, "three-quarters-sharp") {
            proof {
                Accidental::of_word_word(Accidental::ThreeQuartersSharp);
            }
            return Some(Accidental::ThreeQuartersSharp);
        }
        if same_text(s, "sharp-down") {
            proof {
                Accidental::of_word_word(Accidental::SharpDown);
            }
            return Some(Accidental::SharpDown);
        }
        if same_text(s, "sharp-up") {
            proof {
                Accidental::of_word_word(Accidental::SharpUp);
            }
            return Some(Accidental::SharpUp);
        }
        if same_text(s, "natural-down") {
            proof {
                Accidental::of_word_word(Accidental::NaturalDown);
            }
            return Some(Accidental::NaturalDown);
        }
        if same_text(s, "natural-up") {
            proof {
                Accidental::of_word_word(Accidental::NaturalUp);
            }
            return Some(Accidental::NaturalUp);
        }
        if same_text(s, "flat-down") {
            proof {
                Accidental::of_word_word(Accidental::FlatDown);
            }
            return Some(Accidental::FlatDown);
        }
        if same_text(s, "flat-up") {
            proof {
                Accidental::of_word_word(Accidental::FlatUp);
            }
            return Some(Accidental::FlatUp);
        }
        if same_text(s, "double-sharp-down") {
            proof {
                Accidental::of_word_word(Accidental::DoubleSharpDown);
            }
            return Some(Accidental::DoubleSharpDown);
        }
        if same_text(s, "double-sharp-up") {
            proof {
                Accidental::of_word_word(Accidental::DoubleSharpUp);
            }
            return Some(Accidental::DoubleSharpUp);
        }
        if same_text(s, "flat-flat-down") {
            proof {
                Accidental::of_word_word(Accidental::FlatFlatDown);
            }
            return Some(Accidental::FlatFlatDown);
        }
        if same_text(s, "flat-flat-up") {
            proof {
                Accidental::of_word_word(Accidental::FlatFlatUp);
            }
            return Some(Accidental::FlatFlatUp);
        }
        if same_text(s, "arrow-down") {
            proof {
                Accidental::of_word_word(Accidental::ArrowDown);
            }
            return Some(Accidental::ArrowDown);
        }
        if same_text(s, "arrow-up") {
            proof {
                Accidental::of_word_word(Accidental::ArrowUp);
            }
            return Some(Accidental::ArrowUp);
        }
        if same_text(s, "triple-sharp") {
            proof {
                Accidental::of_word_word(Accidental::TripleSharp);
            }
            return Some(Accidental::TripleSharp);
        }
        if same_text(s, "triple-flat") {
            proof {
                Accidental::of_word_word(Accidental::TripleFlat);
            }
            return Some(Accidental::TripleFlat);
        }
        if same_text(s, "slash-quarter-sharp") {
            proof {
                Accidental::of_word_word(Accidental::SlashQuarterSharp);
            }
            return Some(Accidental::SlashQuarterSharp);
        }
        if same_text(s, "slash-sharp") {
            proof {
                Accidental::of_word_word(Accidental::SlashSharp);
            }
            return Some(Accidental::SlashSharp);
        }
        if same_text(s, "slash-flat") {
            proof {
                Accidental::of_word_word(Accidental::SlashFlat);
            }
            return Some(Accidental::SlashFlat);
        }
        if same_text(s, "double-slash-flat") {
            proof {
                Accidental::of_word_word(Accidental::DoubleSlashFlat);
            }
            return Some(Accidental::DoubleSlashFlat);
        }
        if same_text(s, "sharp-1") {
            proof {
                Accidental::of_word_word(Accidental::Sharp1);
            }
            return Some(Accidental::Sharp1);
        }
        if same_text(s, "sharp-2") {
            proof {
                Accidental::of_word_word(Accidental::Sharp2);
            }
            return Some(Accidental::Sharp2);
        }
        if same_text(s, "sharp-3") {
            proof {
                Accidental::of_word_word(Accidental::Sharp3);
            }
            return Some(Accidental::Sharp3);
        }
        if same_text(s, "sharp-4") {
            proof {
                Accidental::of_word_word(Accidental::Sharp4);
            }
            return Some(Accidental::Sharp4);
        }
        if same_text(s, "sharp-5") {
            proof {
                Accidental::of_word_word(Accidental::Sharp5);
            }
            return Some(Accidental::Sharp5);
        }
        if same_text(s, "flat-1") {
            proof {
                Accidental::of_word_word(Accidental::Flat1);
            }
            return Some(Accidental::Flat1);
        }
        if same_text(s, "flat-2") {
            proof {
                Accidental::of_word_word(Accidental::Flat2);
            }
            return Some(Accidental::Flat2);
        }
        if same_text(s, "flat-3") {
            proof {
                Accidental::of_word_word(Accidental::Flat3);
            }
            return Some(Accidental::Flat3);
        }
        if same_text(s, "flat-4") {
            proof {
                Accidental::of_word_word(Accidental::Flat4);
            }
            return Some(Accidental::Flat4);
        }
        if same_text(s, "flat-5") {
            proof {
                Accidental::of_word_word(Accidental::Flat5);
            }
            return Some(Accidental::Flat5);
        }
        if same_text(s, "sori") {
            proof {
                Accidental::of_word_word(Accidental::Sori);
            }
            return Some(Accidental::Sori);
        }
        if same_text(s, "koron") {
            proof {
                Accidental::of_word_word(Accidental::Koron);
            }
            return Some(Accidental::Koron);
        }
        if same_text(s, "other") {
            proof {
                Accidental::of_word_word(Accidental::Other);
            }
            return Some(Accidental::Other);
        }
        proof {
            assert forall|v: Accidental| v.word() != s@ by {
            }
        }
        None
    }
}

impl Default for Accidental {
    fn default() -> (r: Accidental)
        ensures
            r == Accidental::Nothing,
    {
        Accidental::Nothing
    }
}

impl Scalar for Accidental {
    open spec fn parse(s: Seq<char>) -> Option<Accidental> {
        Accidental::of_word(s)
    }

    open spec fn text(v: Accidental) -> Seq<char> {
        v.word()
    }

    open spec fn initial() -> Accidental {
        Accidental::Nothing
    }

    proof fn parse_text(v: Accidental) {
        Accidental::of_word_word(v);
    }

    fn from_text(s: &str) -> (r: Option<Accidental>) {
        Accidental::from_str(s)
    }

    fn to_text(&self) -> (r: String) {
        owned(self.as_str())
    }

    fn same(&self, other: &Accidental) -> (r: bool) {
        *self == *other
    }

    fn make_initial() -> (r: Accidental) {
        Accidental::Nothing
    }
}

} // verus!
