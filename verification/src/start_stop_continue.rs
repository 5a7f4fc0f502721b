//! The ends and the middle of a span.
use crate::scalar::Scalar;
use crate::text::{owned, same_text};
use vstd::prelude::*;

verus! {

/// The ends and the middle of a span.
#[derive(Clone, Copy, Debug, PartialEq, Eq, Structural)]
pub enum StartStopContinue {
    /// Written `start`.
    Start,
    /// Written `stop`.
    Stop,
    /// Written `continue`.
    Continue,
}

impl DeepView for StartStopContinue {
    type V = StartStopContinue;

    open spec fn deep_view(&self) -> StartStopContinue {
        *self
    }
}

impl StartStopContinue {
    /// The word that a value is written as.
    #[verifier::opaque]
    pub open spec fn word(self) -> Seq<char> {
        match self {
            StartStopContinue::Start => "start"@,
            StartStopContinue::Stop => "stop"@,
            StartStopContinue::Continue => "continue"@,
        }
    }

    /// The value that a word denotes, if it denotes one.
    #[verifier::opaque]
    pub open spec fn of_word(s: Seq<char>) -> Option<StartStopContinue> {
        if exists|v: StartStopContinue| v.word() == s {
            Some(choose|v: StartStopContinue| v.word() == s)
        } else {
            None
        }
    }

    /// No two values are written alike.
    pub proof fn word_injective(a: StartStopContinue, b: StartStopContinue)
        ensures
            a.word() == b.word() ==> a == b,
    {
        reveal(StartStopContinue::word);
        reveal_strlit("start");
        reveal_strlit("stop");
        reveal_strlit("continue");
        if a.word() == b.word() {
            assert(a.word().len() == b.word().len());
            assert(a.word()[0] == b.word()[0]);
            assert(a.word()[1] == b.word()[1]);
            assert(a.word()[2] == b.word()[2]);
            assert(a.word()[3] == b.word()[3]);
            assert(a.word()[4] == b.word()[4]);
            assert(a.word()[5] == b.word()[5]);
            assert(a.word()[6] == b.word()[6]);
            assert(a.word()[7] == b.word()[7]);
        }
    }

    /// Reading the word of a value gives the value back.
    pub proof fn of_word_word(v: StartStopContinue)
        ensures
            StartStopContinue::of_word(v.word()) == Some(v),
    {
        reveal(StartStopContinue::of_word);
        StartStopContinue::word_injective(v, choose|w: StartStopContinue| w.word() == v.word());
    }

    /// The word that a value is written as.
    pub fn as_str(self) -> (r: &'static str)
        ensures
            r@ == self.word(),
    {
        proof {
            reveal(StartStopContinue::word);
        }
        match self {
            StartStopContinue::Start => "start",
            StartStopContinue::Stop => "stop",
            StartStopContinue::Continue => "continue",
        }
    }

    /// Reads a value from its word.
    pub fn from_str(s: &str) -> (r: Option<StartStopContinue>)
        ensures
            r == StartStopContinue::of_word(s@),
    {
        proof {
            reveal(StartStopContinue::word);
            reveal(StartStopContinue::of_word);
        }
        if same_text(s, "start") {
            proof {
                StartStopContinue::of_word_word(StartStopContinue::Start);
            }
            return Some(StartStopContinue::Start);
        }
        if same_text(s, "stop") {
            proof {
                StartStopContinue::of_word_word(StartStopContinue::Stop);
            }
            return Some(StartStopContinue::Stop);
        }
        if same_text(s, "continue") {
            proof {
                StartStopContinue::of_word_word(StartStopContinue::Continue);
            }
            return Some(StartStopContinue::Continue);
        }
        proof {
            assert forall|v: StartStopContinue| v.word() != s@ by {
            }
        }
        None
    }
}

impl Default for StartStopContinue {
    fn default() -> (r: StartStopContinue)
        ensures
            r == StartStopContinue::Start,
    {
        StartStopContinue::Start
    }
}

impl Scalar for StartStopContinue {
    open spec fn parse(s: Seq<char>) -> Option<StartStopContinue> {
        StartStopContinue::of_word(s)
    }

    open spec fn text(v: StartStopContinue) -> Seq<char> {
        v.word()
    }

    open spec fn initial() -> StartStopContinue {
        StartStopContinue::Start
    }

    proof fn parse_text(v: StartStopContinue) {
        StartStopContinue::of_word_word(v);
    }

    fn from_text(s: &str) -> (r: Option<StartStopContinue>) {
        StartStopContinue::from_str(s)
    }

    fn to_text(&self) -> (r: String) {
        owned(self.as_str())
    }

    fn same(&self, other: &StartStopContinue) -> (r: bool) {
        *self == *other
    }

    fn make_initial() -> (r: StartStopContinue) {
        StartStopContinue::Start
    }
}

} // verus!
