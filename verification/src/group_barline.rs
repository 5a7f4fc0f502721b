//! Barlines of a group of parts.
use crate::scalar::Scalar;
use crate::text::{owned, same_text};
use vstd::prelude::*;

verus! {

/// How barlines run through a group of parts.
#[derive(Clone, Copy, Debug, PartialEq, Eq, Structural)]
pub enum GroupBarline {
    /// Written `none`.
    Nothing,
    /// Written `yes`.
    Yes,
    /// Written `no`.
    No,
    /// Written `Mensurstrich`.
    Mensurstrich,
}

impl DeepView for GroupBarline {
    type V = GroupBarline;

    open spec fn deep_view(&self) -> GroupBarline {
        *self
    }
}

impl GroupBarline {
    /// The word that a value is written as.
    #[verifier::opaque]
    pub open spec fn word(self) -> Seq<char> {
        match self {
            GroupBarline::Nothing => "none"@,
            GroupBarline::Yes => "yes"@,
            GroupBarline::No => "no"@,
            GroupBarline::Mensurstrich => "Mensurstrich"@,
        }
    }

    /// The value that a word denotes, if it denotes one.
    #[verifier::opaque]
    pub open spec fn of_word(s: Seq<char>) -> Option<GroupBarline> {
        if exists|v: GroupBarline| v.word() == s {
            Some(choose|v: GroupBarline| v.word() == s)
        } else {
            None
        }
    }

    /// No two values are written alike.
    pub proof fn word_injective(a: GroupBarline, b: GroupBarline)
        ensures
            a.word() == b.word() ==> a == b,
    {
        reveal(GroupBarline::word);
        reveal_strlit("none");
        reveal_strlit("yes");
        reveal_strlit("no");
        reveal_strlit("Mensurstrich");
        if a.word() == b.word() {
            assert(a.word().len() == b.word().len());
            assert(a.word()[0] == b.word()[0]);
            assert(a.word()[1] == b.word()[1]);
            assert(a.word()[2] == b.word()[2]);
            assert(a.word()[3] == b.word()[3]);
            assert(a.word()[4] == b.word()[4]);
            assert(a.word()[5] == b.word()[5]);
            assert(a.word()[6] == b.word()[6]);
            assert(a.word()[7] == b.word()[7]);
            assert(a.word()[8] == b.word()[8]);
            assert(a.word()[9] == b.word()[9]);
            assert(a.word()[10] == b.word()[10]);
            assert(a.word()[11] == b.word()[11]);
        }
    }

    /// Reading the word of a value gives the value back.
    pub proof fn of_word_word(v: GroupBarline)
        ensures
            GroupBarline::of_word(v.word()) == Some(v),
    {
        reveal(GroupBarline::of_word);
        GroupBarline::word_injective(v, choose|w: GroupBarline| w.word() == v.word());
    }

    /// The word that a value is written as.
    pub fn as_str(self) -> (r: &'static str)
        ensures
            r@ == self.word(),
    {
        proof {
            reveal(GroupBarline::word);
        }
        match self {
            GroupBarline::Nothing => "none",
            GroupBarline::Yes => "yes",
            GroupBarline::No => "no",
            GroupBarline::Mensurstrich => "Mensurstrich",
        }
    }

    /// Reads a value from its word.
    pub fn from_str(s: &str) -> (r: Option<GroupBarline>)
        ensures
            r == GroupBarline::of_word(s@),
    {
        proof {
            reveal(GroupBarline::word);
            reveal(GroupBarline::of_word);
        }
        if same_text(s, "none") {
            proof {
                GroupBarline::of_word_word(GroupBarline::Nothing);
            }
            return Some(GroupBarline::Nothing);
        }
        if same_text(s, "yes") {
            proof {
                GroupBarline::of_word_word(GroupBarline::Yes);
            }
            return Some(GroupBarline::Yes);
        }
        if same_text(s, "no") {
            proof {
                GroupBarline::of_word_word(GroupBarline::No);
            }
            return Some(GroupBarline::No);
        }
        if same_text(s, "Mensurstrich") {
            proof {
                GroupBarline::of_word_word(GroupBarline::Mensurstrich);
            }
            return Some(GroupBarline::Mensurstrich);
        }
        proof {
            assert forall|v: GroupBarline| v.word() != s@ by {
            }
        }
        None
    }
}

impl Default for GroupBarline {
    fn default() -> (r: GroupBarline)
        ensures
            r == GroupBarline::Nothing,
    {
        GroupBarline::Nothing
    }
}

impl Scalar for GroupBarline {
    open spec fn parse(s: Seq<char>) -> Option<GroupBarline> {
        GroupBarline::of_word(s)
    }

    open spec fn text(v: GroupBarline) -> Seq<char> {
        v.word()
    }

    open spec fn initial() -> GroupBarline {
        GroupBarline::Nothing
    }

    proof fn parse_text(v: GroupBarline) {
        GroupBarline::of_word_word(v);
    }

    fn from_text(s: &str) -> (r: Option<GroupBarline>) {
        GroupBarline::from_str(s)
    }

    fn to_text(&self) -> (r: String) {
        owned(self.as_str())
    }

    fn same(&self, other: &GroupBarline) -> (r: bool) {
        *self == *other
    }

    fn make_initial() -> (r: GroupBarline) {
        GroupBarline::Nothing
    }
}

} // verus!
