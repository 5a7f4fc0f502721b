//! The places of a barline.
use crate::scalar::Scalar;
use crate::text::{owned, same_text};
use vstd::prelude::*;

verus! {

/// The place of a barline in its measure.
#[derive(Clone, Copy, Debug, PartialEq, Eq, Structural)]
pub enum LeftRightMiddle {
    /// Written `left`.
    Left,
    /// Written `right`.
    Right,
    /// Written `middle`.
    Middle,
}

impl DeepView for LeftRightMiddle {
    type V = LeftRightMiddle;

    open spec fn deep_view(&self) -> LeftRightMiddle {
        *self
    }
}

impl LeftRightMiddle {
    /// The word that a value is written as.
    #[verifier::opaque]
    pub open spec fn word(self) -> Seq<char> {
        match self {
            LeftRightMiddle::Left => "left"@,
            LeftRightMiddle::Right => "right"@,
            LeftRightMiddle::Middle => "middle"@,
        }
    }

    /// The value that a word denotes, if it denotes one.
    #[verifier::opaque]
    pub open spec fn of_word(s: Seq<char>) -> Option<LeftRightMiddle> {
        if exists|v: LeftRightMiddle| v.word() == s {
            Some(choose|v: LeftRightMiddle| v.word() == s)
        } else {
            None
        }
    }

    /// No two values are written alike.
    pub proof fn word_injective(a: LeftRightMiddle, b: LeftRightMiddle)
        ensures
            a.word() == b.word() ==> a == b,
    {
        reveal(LeftRightMiddle::word);
        reveal_strlit("left");
        reveal_strlit("right");
        reveal_strlit("middle");
        if a.word() == b.word() {
            assert(a.word().len() == b.word().len());
            assert(a.word()[0] == b.word()[0]);
            assert(a.word()[1] == b.word()[1]);
            assert(a.word()[2] == b.word()[2]);
            assert(a.word()[3] == b.word()[3]);
            assert(a.word()[4] == b.word()[4]);
            assert(a.word()[5] == b.word()[5]);
        }
    }

    /// Reading the word of a value gives the value back.
    pub proof fn of_word_word(v: LeftRightMiddle)
        ensures
            LeftRightMiddle::of_word(v.word()) == Some(v),
    {
        reveal(LeftRightMiddle::of_word);
        LeftRightMiddle::word_injective(v, choose|w: LeftRightMiddle| w.word() == v.word());
    }

    /// The word that a value is written as.
    pub fn as_str(self) -> (r: &'static str)
        ensures
            r@ == self.word(),
    {
        proof {
            reveal(LeftRightMiddle::word);
        }
        match self {
            LeftRightMiddle::Left => "left",
            LeftRightMiddle::Right => "right",
            LeftRightMiddle::Middle => "middle",
        }
    }

    /// Reads a value from its word.
    pub fn from_str(s: &str) -> (r: Option<LeftRightMiddle>)
        ensures
            r == LeftRightMiddle::of_word(s@),
    {
        proof {
            reveal(LeftRightMiddle::word);
            reveal(LeftRightMiddle::of_word);
        }
        if same_text(s, "left") {
            proof {
                LeftRightMiddle::of_word_word(LeftRightMiddle::Left);
            }
            return Some(LeftRightMiddle::Left);
        }
        if same_text(s, "right") {
            proof {
                LeftRightMiddle::of_word_word(LeftRightMiddle::Right);
            }
            return Some(LeftRightMiddle::Right);
        }
        if same_text(s, "middle") {
            proof {
                LeftRightMiddle::of_word_word(LeftRightMiddle::Middle);
            }
            return Some(LeftRightMiddle::Middle);
        }
        proof {
            assert forall|v: LeftRightMiddle| v.word() != s@ by {
            }
        }
        None
    }
}

impl Scalar for LeftRightMiddle {
    open spec fn parse(s: Seq<char>) -> Option<LeftRightMiddle> {
        LeftRightMiddle::of_word(s)
    }

    open spec fn text(v: LeftRightMiddle) -> Seq<char> {
        v.word()
    }

    open spec fn initial() -> LeftRightMiddle {
        LeftRightMiddle::Left
    }

    proof fn parse_text(v: LeftRightMiddle) {
        LeftRightMiddle::of_word_word(v);
    }

    fn from_text(s: &str) -> (r: Option<LeftRightMiddle>) {
        LeftRightMiddle::from_str(s)
    }

    fn to_text(&self) -> (r: String) {
        owned(self.as_str())
    }

    fn same(&self, other: &LeftRightMiddle) -> (r: bool) {
        *self == *other
    }

    fn make_initial() -> (r: LeftRightMiddle) {
        LeftRightMiddle::Left
    }
}

} // verus!
