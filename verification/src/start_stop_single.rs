//! The ends of a span, or a span of one.
use crate::scalar::Scalar;
use crate::text::{owned, same_text};
use vstd::prelude::*;

verus! {

/// The ends of a span, or a span of one.
#[derive(Clone, Copy, Debug, PartialEq, Eq, Structural)]
pub enum StartStopSingle {
    /// Written `start`.
    Start,
    /// Written `stop`.
    Stop,
    /// Written `single`.
    Single,
}

impl DeepView for StartStopSingle {
    type V = StartStopSingle;

    open spec fn deep_view(&self) -> StartStopSingle {
        *self
    }
}

impl StartStopSingle {
    /// The word that a value is written as.
    #[verifier::opaque]
    pub open spec fn word(self) -> Seq<char> {
        match self {
            StartStopSingle::Start => "start"@,
            StartStopSingle::Stop => "stop"@,
            StartStopSingle::Single => "single"@,
        }
    }

    /// The value that a word denotes, if it denotes one.
    #[verifier::opaque]
    pub open spec fn of_word(s: Seq<char>) -> Option<StartStopSingle> {
        if exists|v: StartStopSingle| v.word() == s {
            Some(choose|v: StartStopSingle| v.word() == s)
        } else {
            None
        }
    }

    /// No two values are written alike.
    pub proof fn word_injective(a: StartStopSingle, b: StartStopSingle)
        ensures
            a.word() == b.word() ==> a == b,
    {
        reveal(StartStopSingle::word);
        reveal_strlit("start");
        reveal_strlit("stop");
        reveal_strlit("single");
        if a.word() == b.word() {
            assert(a.word().len() == b.word().len());
            assert(a.word()[0] == b.word()[0]);
            assert(a.word()[1] == b.word()[1]);
            assert(a.word()[2] == b.word()[2]);
            assert(a.word()[3] == b.word()[3]);
            assert(a.word()[4] == b.word()[4]);
            assert(a.word()[5] == b.word()[5]);
        }
    }

    /// Reading the word of a value gives the value back.
    pub proof fn of_word_word(v: StartStopSingle)
        ensures
            StartStopSingle::of_word(v.word()) == Some(v),
    {
        reveal(StartStopSingle::of_word);
        StartStopSingle::word_injective(v, choose|w: StartStopSingle| w.word() == v.word());
    }

    /// The word that a value is written as.
    pub fn as_str(self) -> (r: &'static str)
        ensures
            r@ == self.word(),
    {
        proof {
            reveal(StartStopSingle::word);
        }
        match self {
            StartStopSingle::Start => "start",
            StartStopSingle::Stop => "stop",
            StartStopSingle::Single => "single",
        }
    }

    /// Reads a value from its word.
    pub fn from_str(s: &str) -> (r: Option<StartStopSingle>)
        ensures
            r == StartStopSingle::of_word(s@),
    {
        proof {
            reveal(StartStopSingle::word);
            reveal(StartStopSingle::of_word);
        }
        if same_text(s, "start") {
            proof {
                StartStopSingle::of_word_word(StartStopSingle::Start);
            }
            return Some(StartStopSingle::Start);
        }
        if same_text(s, "stop") {
            proof {
                StartStopSingle::of_word_word(StartStopSingle::Stop);
            }
            return Some(StartStopSingle::Stop);
        }
        if same_text(s, "single") {
            proof {
                StartStopSingle::of_word_word(StartStopSingle::Single);
            }
            return Some(StartStopSingle::Single);
        }
        proof {
            assert forall|v: StartStopSingle| v.word() != s@ by {
            }
        }
        None
    }
}

impl Default for StartStopSingle {
    fn default() -> (r: StartStopSingle)
        ensures
            r == StartStopSingle::Start,
    {
        StartStopSingle::Start
    }
}

impl Scalar for StartStopSingle {
    open spec fn parse(s: Seq<char>) -> Option<StartStopSingle> {
        StartStopSingle::of_word(s)
    }

    open spec fn text(v: StartStopSingle) -> Seq<char> {
        v.word()
    }

    open spec fn initial() -> StartStopSingle {
        StartStopSingle::Start
    }

    proof fn parse_text(v: StartStopSingle) {
        StartStopSingle::of_word_word(v);
    }

    fn from_text(s: &str) -> (r: Option<StartStopSingle>) {
        StartStopSingle::from_str(s)
    }

    fn to_text(&self) -> (r: String) {
        owned(self.as_str())
    }

    fn same(&self, other: &StartStopSingle) -> (r: bool) {
        *self == *other
    }

    fn make_initial() -> (r: StartStopSingle) {
        StartStopSingle::Start
    }
}

} // verus!
