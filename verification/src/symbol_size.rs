//! Sizes of symbols.
use crate::scalar::Scalar;
use crate::text::{owned, same_text};
use vstd::prelude::*;

verus! {

/// The sizes of a symbol.
#[derive(Clone, Copy, Debug, PartialEq, Eq, Structural)]
pub enum SymbolSize {
    /// Written `cue`.
    Cue,
    /// Written `full`.
    Full,
    /// Written `grace-cue`.
    GraceCue,
    /// Written `large`.
    Large,
}

impl DeepView for SymbolSize {
    type V = SymbolSize;

    open spec fn deep_view(&self) -> SymbolSize {
        *self
    }
}

impl SymbolSize {
    /// The word that a value is written as.
    #[verifier::opaque]
    pub open spec fn word(self) -> Seq<char> {
        match self {
            SymbolSize::Cue => "cue"@,
            SymbolSize::Full => "full"@,
            SymbolSize::GraceCue => "grace-cue"@,
            SymbolSize::Large => "large"@,
        }
    }

    /// The value that a word denotes, if it denotes one.
    #[verifier::opaque]
    pub open spec fn of_word(s: Seq<char>) -> Option<SymbolSize> {
        if exists|v: SymbolSize| v.word() == s {
            Some(choose|v: SymbolSize| v.word() == s)
        } else {
            None
        }
    }

    /// No two values are written alike.
    pub proof fn word_injective(a: SymbolSize, b: SymbolSize)
        ensures
            a.word() == b.word() ==> a == b,
    {
        reveal(SymbolSize::word);
        reveal_strlit("cue");
        reveal_strlit("full");
        reveal_strlit("grace-cue");
        reveal_strlit("large");
        if a.word() == b.word() {
            assert(a.word().len() == b.word().len());
            assert(a.word()[0] == b.word()[0]);
            assert(a.word()[1] == b.word()[1]);
            assert(a.word()[2] == b.word()[2]);
            assert(a.word()[3] == b.word()[3]);
            assert(a.word()[4] == b.word()[4]);
            assert(a.word()[5] == b.word()[5]);
            assert(a.word()[6] == b.word()[6]);
            assert(a.word()[7] == b.word()[7]);
            assert(a.word()[8] == b.word()[8]);
        }
    }

    /// Reading the word of a value gives the value back.
    pub proof fn of_word_word(v: SymbolSize)
        ensures
            SymbolSize::of_word(v.word()) == Some(v),
    {
        reveal(SymbolSize::of_word);
        SymbolSize::word_injective(v, choose|w: SymbolSize| w.word() == v.word());
    }

    /// The word that a value is written as.
    pub fn as_str(self) -> (r: &'static str)
        ensures
            r@ == self.word(),
    {
        proof {
            reveal(SymbolSize::word);
        }
        match self {
            SymbolSize::Cue => "cue",
            SymbolSize::Full => "full",
            SymbolSize::GraceCue => "grace-cue",
            SymbolSize::Large => "large",
        }
    }

    /// Reads a value from its word.
    pub fn from_str(s: &str) -> (r: Option<SymbolSize>)
        ensures
            r == SymbolSize::of_word(s@),
    {
        proof {
            reveal(SymbolSize::word);
            reveal(SymbolSize::of_word);
        }
        if same_text(s, "cue") {
            proof {
                SymbolSize::of_word_word(SymbolSize::Cue);
            }
            return Some(SymbolSize::Cue);
        }
        if same_text(s, "full") {
            proof {
                SymbolSize::of_word_word(SymbolSize::Full);
            }
            return Some(SymbolSize::Full);
        }
        if same_text(s, "grace-cue") {
            proof {
                SymbolSize::of_word_word(SymbolSize::GraceCue);
            }
            return Some(SymbolSize::GraceCue);
        }
        if same_text(s, "large") {
            proof {
                SymbolSize::of_word_word(SymbolSize::Large);
            }
            return Some(SymbolSize::Large);
        }
        proof {
            assert forall|v: SymbolSize| v.word() != s@ by {
            }
        }
        None
    }
}

impl Default for SymbolSize {
    fn default() -> (r: SymbolSize)
        ensures
            r == SymbolSize::Cue,
    {
        SymbolSize::Cue
    }
}

impl Scalar for SymbolSize {
    open spec fn parse(s: Seq<char>) -> Option<SymbolSize> {
        SymbolSize::of_word(s)
    }

    open spec fn text(v: SymbolSize) -> Seq<char> {
        v.word()
    }

    open spec fn initial() -> SymbolSize {
        SymbolSize::Cue
    }

    proof fn parse_text(v: SymbolSize) {
        SymbolSize::of_word_word(v);
    }

    fn from_text(s: &str) -> (r: Option<SymbolSize>) {
        SymbolSize::from_str(s)
    }

    fn to_text(&self) -> (r: String) {
        owned(self.as_str())
    }

    fn same(&self, other: &SymbolSize) -> (r: bool) {
        *self == *other
    }

    fn make_initial() -> (r: SymbolSize) {
        SymbolSize::Cue
    }
}

} // verus!
