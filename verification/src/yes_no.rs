//! Yes or no.
use crate::scalar::Scalar;
use crate::text::{owned, same_text};
use vstd::prelude::*;

verus! {

/// Yes or no.
#[derive(Clone, Copy, Debug, PartialEq, Eq, Structural)]
pub enum YesNo {
    /// Written `yes`.
    Yes,
    /// Written `no`.
    No,
}

impl DeepView for YesNo {
    type V = YesNo;

    open spec fn deep_view(&self) -> YesNo {
        *self
    }
}

impl YesNo {
    /// The word that a value is written as.
    #[verifier::opaque]
    pub open spec fn word(self) -> Seq<char> {
        match self {
            YesNo::Yes => "yes"@,
            YesNo::No => "no"@,
        }
    }

    /// The value that a word denotes, if it denotes one.
    #[verifier::opaque]
    pub open spec fn of_word(s: Seq<char>) -> Option<YesNo> {
        if exists|v: YesNo| v.word() == s {
            Some(choose|v: YesNo| v.word() == s)
        } else {
            None
        }
    }

    /// No two values are written alike.
    pub proof fn word_injective(a: YesNo, b: YesNo)
        ensures
            a.word() == b.word() ==> a == b,
    {
        reveal(YesNo::word);
        reveal_strlit("yes");
        reveal_strlit("no");
        if a.word() == b.word() {
            assert(a.word().len() == b.word().len());
            assert(a.word()[0] == b.word()[0]);
            assert(a.word()[1] == b.word()[1]);
            assert(a.word()[2] == b.word()[2]);
        }
    }

    /// Reading the word of a value gives the value back.
    pub proof fn of_word_word(v: YesNo)
        ensures
            YesNo::of_word(v.word()) == Some(v),
    {
        reveal(YesNo::of_word);
        YesNo::word_injective(v, choose|w: YesNo| w.word() == v.word());
    }

    /// The word that a value is written as.
    pub fn as_str(self) -> (r: &'static str)
        ensures
            r@ == self.word(),
    {
        proof {
            reveal(YesNo::word);
        }
        match self {
            YesNo::Yes => "yes",
            YesNo::No => "no",
        }
    }

    /// Reads a value from its word.
    pub fn from_str(s: &str) -> (r: Option<YesNo>)
        ensures
            r == YesNo::of_word(s@),
    {
        proof {
            reveal(YesNo::word);
            reveal(YesNo::of_word);
        }
        if same_text(s, "yes") {
            proof {
                YesNo::of_word_word(YesNo::Yes);
            }
            return Some(YesNo::Yes);
        }
        if same_text(s, "no") {
            proof {
                YesNo::of_word_word(YesNo::No);
            }
            return Some(YesNo::No);
        }
        proof {
            assert forall|v: YesNo| v.word() != s@ by {
            }
        }
        None
    }
}

impl Default for YesNo {
    fn default() -> (r: YesNo)
        ensures
            r == YesNo::Yes,
    {
        YesNo::Yes
    }
}

impl Scalar for YesNo {
    open spec fn parse(s: Seq<char>) -> Option<YesNo> {
        YesNo::of_word(s)
    }

    open spec fn text(v: YesNo) -> Seq<char> {
        v.word()
    }

    open spec fn initial() -> YesNo {
        YesNo::Yes
    }

    proof fn parse_text(v: YesNo) {
        YesNo::of_word_word(v);
    }

    fn from_text(s: &str) -> (r: Option<YesNo>) {
        YesNo::from_str(s)
    }

    fn to_text(&self) -> (r: String) {
        owned(self.as_str())
    }

    fn same(&self, other: &YesNo) -> (r: bool) {
        *self == *other
    }

    fn make_initial() -> (r: YesNo) {
        YesNo::Yes
    }
}

} // verus!
