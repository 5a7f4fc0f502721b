//! Numbering of measures.
use crate::measure::Measure;
use crate::scalar::Scalar;
use crate::text::{owned, same_text};
use vstd::prelude::*;

verus! {

/// How measures are numbered.
#[derive(Clone, Copy, Debug, PartialEq, Eq, Structural)]
pub enum MeasureNumberingValue {
    /// Written `none`.
    Nothing,
    /// Written `measure`.
    Measure,
    /// Written `system`.
    System,
}

impl DeepView for MeasureNumberingValue {
    type V = MeasureNumberingValue;

    open spec fn deep_view(&self) -> MeasureNumberingValue {
        *self
    }
}

impl MeasureNumberingValue {
    /// The word that a value is written as.
    #[verifier::opaque]
    pub open spec fn word(self) -> Seq<char> {
        match self {
            MeasureNumberingValue::Nothing => "none"@,
            MeasureNumberingValue::Measure => "measure"@,
            MeasureNumberingValue::System => "system"@,
        }
    }

    /// The value that a word denotes, if it denotes one.
    #[verifier::opaque]
    pub open spec fn of_word(s: Seq<char>) -> Option<MeasureNumberingValue> {
        if exists|v: MeasureNumberingValue| v.word() == s {
            Some(choose|v: MeasureNumberingValue| v.word() == s)
        } else {
            None
        }
    }

    /// No two values are written alike.
    pub proof fn word_injective(a: MeasureNumberingValue, b: MeasureNumberingValue)
        ensures
            a.word() == b.word() ==> a == b,
    {
        reveal(MeasureNumberingValue::word);
        reveal_strlit("none");
        reveal_strlit("measure");
        reveal_strlit("system");
        if a.word() == b.word() {
            assert(a.word().len() == b.word().len());
            assert(a.word()[0] == b.word()[0]);
            assert(a.word()[1] == b.word()[1]);
            assert(a.word()[2] == b.word()[2]);
            assert(a.word()[3] == b.word()[3]);
            assert(a.word()[4] == b.word()[4]);
            assert(a.word()[5] == b.word()[5]);
            assert(a.word()[6] == b.word()[6]);
        }
    }

    /// Reading the word of a value gives the value back.
    pub proof fn of_word_word(v: MeasureNumberingValue)
        ensures
            MeasureNumberingValue::of_word(v.word()) == Some(v),
    {
        reveal(MeasureNumberingValue::of_word);
        MeasureNumberingValue::word_injective(
            v,
            choose|w: MeasureNumberingValue| w.word() == v.word(),
        );
    }

    /// The word that a value is written as.
    pub fn as_str(self) -> (r: &'static str)
        ensures
            r@ == self.word(),
    {
        proof {
            reveal(MeasureNumberingValue::word);
        }
        match self {
            MeasureNumberingValue::Nothing => "none",
            MeasureNumberingValue::Measure => "measure",
            MeasureNumberingValue::System => "system",
        }
    }

    /// Reads a value from its word.
    pub fn from_str(s: &str) -> (r: Option<MeasureNumberingValue>)
        ensures
            r == MeasureNumberingValue::of_word(s@),
    {
        proof {
            reveal(MeasureNumberingValue::word);
            reveal(MeasureNumberingValue::of_word);
        }
        if same_text(s, "none") {
            proof {
                MeasureNumberingValue::of_word_word(MeasureNumberingValue::Nothing);
            }
            return Some(MeasureNumberingValue::Nothing);
        }
        if same_text(s, "measure") {
            proof {
                MeasureNumberingValue::of_word_word(MeasureNumberingValue::Measure);
            }
            return Some(MeasureNumberingValue::Measure);
        }
        if same_text(s, "system") {
            proof {
                MeasureNumberingValue::of_word_word(MeasureNumberingValue::System);
            }
            return Some(MeasureNumberingValue::System);
        }
        proof {
            assert forall|v: MeasureNumberingValue| v.word() != s@ by {
            }
        }
        None
    }
}

impl Default for MeasureNumberingValue {
    fn default() -> (r: MeasureNumberingValue)
        ensures
            r == MeasureNumberingValue::Nothing,
    {
        MeasureNumberingValue::Nothing
    }
}

impl Scalar for MeasureNumberingValue {
    open spec fn parse(s: Seq<char>) -> Option<MeasureNumberingValue> {
        MeasureNumberingValue::of_word(s)
    }

    open spec fn text(v: MeasureNumberingValue) -> Seq<char> {
        v.word()
    }

    open spec fn initial() -> MeasureNumberingValue {
        MeasureNumberingValue::Nothing
    }

    proof fn parse_text(v: MeasureNumberingValue) {
        MeasureNumberingValue::of_word_word(v);
    }

    fn from_text(s: &str) -> (r: Option<MeasureNumberingValue>) {
        MeasureNumberingValue::from_str(s)
    }

    fn to_text(&self) -> (r: String) {
        owned(self.as_str())
    }

    fn same(&self, other: &MeasureNumberingValue) -> (r: bool) {
        *self == *other
    }

    fn make_initial() -> (r: MeasureNumberingValue) {
        MeasureNumberingValue::Nothing
    }
}

} // verus!
