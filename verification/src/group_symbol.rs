//! Symbols of a group of parts.
use crate::scalar::Scalar;
use crate::text::{owned, same_text};
use vstd::prelude::*;

verus! {

/// The symbol that joins a group of parts.
#[derive(Clone, Copy, Debug, PartialEq, Eq, Structural)]
pub enum GroupSymbol {
    /// Written `brace`.
    Brace,
    /// Written `bracket`.
    Bracket,
    /// Written `line`.
    Line,
    /// Written `none`.
    Nothing,
    /// Written `square`.
    Square,
}

impl DeepView for GroupSymbol {
    type V = GroupSymbol;

    open spec fn deep_view(&self) -> GroupSymbol {
        *self
    }
}

impl GroupSymbol {
    /// The word that a value is written as.
    #[verifier::opaque]
    pub open spec fn word(self) -> Seq<char> {
        match self {
            GroupSymbol::Brace => "brace"@,
            GroupSymbol::Bracket => "bracket"@,
            GroupSymbol::Line => "line"@,
            GroupSymbol::Nothing => "none"@,
            GroupSymbol::Square => "square"@,
        }
    }

    /// The value that a word denotes, if it denotes one.
    #[verifier::opaque]
    pub open spec fn of_word(s: Seq<char>) -> Option<GroupSymbol> {
        if exists|v: GroupSymbol| v.word() == s {
            Some(choose|v: GroupSymbol| v.word() == s)
        } else {
            None
        }
    }

    /// No two values are written alike.
    pub proof fn word_injective(a: GroupSymbol, b: GroupSymbol)
        ensures
            a.word() == b.word() ==> a == b,
    {
        reveal(GroupSymbol::word);
        reveal_strlit("brace");
        reveal_strlit("bracket");
        reveal_strlit("line");
        reveal_strlit("none");
        reveal_strlit("square");
        if a.word() == b.word() {
            assert(a.word().len() == b.word().len());
            assert(a.word()[0] == b.word()[0]);
            assert(a.word()[1] == b.word()[1]);
            assert(a.word()[2] == b.word()[2]);
            assert(a.word()[3] == b.word()[3]);
            assert(a.word()[4] == b.word()[4]);
            assert(a.word()[5] == b.word()[5]);
            assert(a.word()[6] == b.word()[6]);
        }
    }

    /// Reading the word of a value gives the value back.
    pub proof fn of_word_word(v: GroupSymbol)
        ensures
            GroupSymbol::of_word(v.word()) == Some(v),
    {
        reveal(GroupSymbol::of_word);
        GroupSymbol::word_injective(v, choose|w: GroupSymbol| w.word() == v.word());
    }

    /// The word that a value is written as.
    pub fn as_str(self) -> (r: &'static str)
        ensures
            r@ == self.word(),
    {
        proof {
            reveal(GroupSymbol::word);
        }
        match self {
            GroupSymbol::Brace => "brace",
            GroupSymbol::Bracket => "bracket",
            GroupSymbol::Line => "line",
            GroupSymbol::Nothing => "none",
            GroupSymbol::Square => "square",
        }
    }

    /// Reads a value from its word.
    pub fn from_str(s: &str) -> (r: Option<GroupSymbol>)
        ensures
            r == GroupSymbol::of_word(s@),
    {
        proof {
            reveal(GroupSymbol::word);
            reveal(GroupSymbol::of_word);
        }
        if same_text(s, "brace") {
            proof {
                GroupSymbol::of_word_word(GroupSymbol::Brace);
            }
            return Some(GroupSymbol::Brace);
        }
        if same_text(s, "bracket") {
            proof {
                GroupSymbol::of_word_word(GroupSymbol::Bracket);
            }
            return Some(GroupSymbol::Bracket);
        }
        if same_text(s, "line") {
            proof {
                GroupSymbol::of_word_word(GroupSymbol::Line);
            }
            return Some(GroupSymbol::Line);
        }
        if same_text(s, "none") {
            proof {
                GroupSymbol::of_word_word(GroupSymbol::Nothing);
            }
            return Some(GroupSymbol::Nothing);
        }
        if same_text(s, "square") {
            proof {
                GroupSymbol::of_word_word(GroupSymbol::Square);
            }
            return Some(GroupSymbol::Square);
        }
        proof {
            assert forall|v: GroupSymbol| v.word() != s@ by {
            }
        }
        None
    }
}

impl Default for GroupSymbol {
    fn default() -> (r: GroupSymbol)
        ensures
            r == GroupSymbol::Nothing,
    {
        GroupSymbol::Nothing
    }
}

impl Scalar for GroupSymbol {
    open spec fn parse(s: Seq<char>) -> Option<GroupSymbol> {
        GroupSymbol::of_word(s)
    }

    open spec fn text(v: GroupSymbol) -> Seq<char> {
        v.word()
    }

    open spec fn initial() -> GroupSymbol {
        GroupSymbol::Nothing
    }

    proof fn parse_text(v: GroupSymbol) {
        GroupSymbol::of_word_word(v);
    }

    fn from_text(s: &str) -> (r: Option<GroupSymbol>) {
        GroupSymbol::from_str(s)
    }

    fn to_text(&self) -> (r: String) {
        owned(self.as_str())
    }

    fn same(&self, other: &GroupSymbol) -> (r: bool) {
        *self == *other
    }

    fn make_initial() -> (r: GroupSymbol) {
        GroupSymbol::Nothing
    }
}

} // verus!
