//! Dynamic marks.
use crate::scalar::Scalar;
use crate::text::{owned, same_text};
use vstd::prelude::*;

verus! {

/// The dynamic marks.
#[derive(Clone, Copy, Debug, PartialEq, Eq, Structural)]
pub enum Dynamics {
    /// Written `p`.
    P,
    /// Written `pp`.
    PP,
    /// Written `ppp`.
    PPP,
    /// Written `pppp`.
    PPPP,
    /// Written `ppppp`.
    PPPPP,
    /// Written `pppppp`.
    PPPPPP,
    /// Written `f`.
    F,
    /// Written `ff`.
    FF,
    /// Written `fff`.
    FFF,
    /// Written `ffff`.
    FFFF,
    /// Written `fffff`.
    FFFFF,
    /// Written `ffffff`.
    FFFFFF,
    /// Written `mp`.
    MP,
    /// Written `mf`.
    MF,
    /// Written `sf`.
    SF,
    /// Written `sfp`.
    SFP,
    /// Written `sfpp`.
    SFPP,
    /// Written `fp`.
    FP,
    /// Written `rf`.
    RF,
    /// Written `rfz`.
    RFZ,
    /// Written `sfz`.
    SFZ,
    /// Written `sffz`.
    SFFZ,
    /// Written `fz`.
    FZ,
    /// Written `n`.
    N,
    /// Written `pf`.
    PF,
    /// Written `sfzp`.
    SFZP,
    /// Written `other-dynamics`.
    OtherDynamics,
}

impl DeepView for Dynamics {
    type V = Dynamics;

    open spec fn deep_view(&self) -> Dynamics {
        *self
    }
}

impl Dynamics {
    /// The word that a value is written as.
    #[verifier::opaque]
    pub open spec fn word(self) -> Seq<char> {
        match self {
            Dynamics::P => "p"@,
            Dynamics::PP => "pp"@,
            Dynamics::PPP => "ppp"@,
            Dynamics::PPPP => "pppp"@,
            Dynamics::PPPPP => "ppppp"@,
            Dynamics::PPPPPP => "pppppp"@,
            Dynamics::F => "f"@,
            Dynamics::FF => "ff"@,
            Dynamics::FFF => "fff"@,
            Dynamics::FFFF => "ffff"@,
            Dynamics::FFFFF => "fffff"@,
            Dynamics::FFFFFF => "ffffff"@,
            Dynamics::MP => "mp"@,
            Dynamics::MF => "mf"@,
            Dynamics::SF => "sf"@,
            Dynamics::SFP => "sfp"@,
            Dynamics::SFPP => "sfpp"@,
            Dynamics::FP => "fp"@,
            Dynamics::RF => "rf"@,
            Dynamics::RFZ => "rfz"@,
            Dynamics::SFZ => "sfz"@,
            Dynamics::SFFZ => "sffz"@,
            Dynamics::FZ => "fz"@,
            Dynamics::N => "n"@,
            Dynamics::PF => "pf"@,
            Dynamics::SFZP => "sfzp"@,
            Dynamics::OtherDynamics => "other-dynamics"@,
        }
    }

    /// The value that a word denotes, if it denotes one.
    #[verifier::opaque]
    pub open spec fn of_word(s: Seq<char>) -> Option<Dynamics> {
        if exists|v: Dynamics| v.word() == s {
            Some(choose|v: Dynamics| v.word() == s)
        } else {
            None
        }
    }

    /// No two values are written alike.
    pub proof fn word_injective(a: Dynamics, b: Dynamics)
        ensures
            a.word() == b.word() ==> a == b,
    {
        reveal(Dynamics::word);
        reveal_strlit("p");
        reveal_strlit("pp");
        reveal_strlit("ppp");
        reveal_strlit("pppp");
        reveal_strlit("ppppp");
        reveal_strlit("pppppp");
        reveal_strlit("f");
        reveal_strlit("ff");
        reveal_strlit("fff");
        reveal_strlit("ffff");
        reveal_strlit("fffff");
        reveal_strlit("ffffff");
        reveal_strlit("mp");
        reveal_strlit("mf");
        reveal_strlit("sf");
        reveal_strlit("sfp");
        reveal_strlit("sfpp");
        reveal_strlit("fp");
        reveal_strlit("rf");
        reveal_strlit("rfz");
        reveal_strlit("sfz");
        reveal_strlit("sffz");
        reveal_strlit("fz");
        reveal_strlit("n");
        reveal_strlit("pf");
        reveal_strlit("sfzp");
        reveal_strlit("other-dynamics");
        if a.word() == b.word() {
            assert(a.word().len() == b.word().len());
            assert(a.word()[0] == b.word()[0]);
            assert(a.word()[1] == b.word()[1]);
            assert(a.word()[2] == b.word()[2]);
            assert(a.word()[3] == b.word()[3]);
            assert(a.word()[4] == b.word()[4]);
            assert(a.word()[5] == b.word()[5]);
            assert(a.word()[6] == b.word()[6]);
            assert(a.word()[7] == b.word()[7]);
            assert(a.word()[8] == b.word()[8]);
            assert(a.word()[9] == b.word()[9]);
            assert(a.word()[10] == b.word()[10]);
            assert(a.word()[11] == b.word()[11]);
            assert(a.word()[12] == b.word()[12]);
            assert(a.word()[13] == b.word()[13]);
        }
    }

    /// Reading the word of a value gives the value back.
    pub proof fn of_word_word(v: Dynamics)
        ensures
            Dynamics::of_word(v.word()) == Some(v),
    {
        reveal(Dynamics::of_word);
        Dynamics::word_injective(v, choose|w: Dynamics| w.word() == v.word());
    }

    /// The word that a value is written as.
    pub fn as_str(self) -> (r: &'static str)
        ensures
            r@ == self.word(),
    {
        proof {
            reveal(Dynamics::word);
        }
        match self {
            Dynamics::P => "p",
            Dynamics::PP => "pp",
            Dynamics::PPP => "ppp",
            Dynamics::PPPP => "pppp",
            Dynamics::PPPPP => "ppppp",
            Dynamics::PPPPPP => "pppppp",
            Dynamics::F => "f",
            Dynamics::FF => "ff",
            Dynamics::FFF => "fff",
            Dynamics::FFFF => "ffff",
            Dynamics::FFFFF => "fffff",
            Dynamics::FFFFFF => "ffffff",
            Dynamics::MP => "mp",
            Dynamics::MF => "mf",
            Dynamics::SF => "sf",
            Dynamics::SFP => "sfp",
            Dynamics::SFPP => "sfpp",
            Dynamics::FP => "fp",
            Dynamics::RF => "rf",
            Dynamics::RFZ => "rfz",
            Dynamics::SFZ => "sfz",
            Dynamics::SFFZ => "sffz",
            Dynamics::FZ => "fz",
            Dynamics::N => "n",
            Dynamics::PF => "pf",
            Dynamics::SFZP => "sfzp",
            Dynamics::OtherDynamics => "other-dynamics",
        }
    }

    /// Reads a value from its word.
    pub fn from_str(s: &str) -> (r: Option<Dynamics>)
        ensures
            r == Dynamics::of_word(s@),
    {
        proof {
            reveal(Dynamics::word);
            reveal(Dynamics::of_word);
        }
        if same_text(s, "p") {
            proof {
                Dynamics::of_word_word(Dynamics::P);
            }
            return Some(Dynamics::P);
        }
        if same_text(s, "pp") {
            proof {
                Dynamics::of_word_word(Dynamics::PP);
            }
            return Some(Dynamics::PP);
        }
        if same_text(s, "ppp") {
            proof {
                Dynamics::of_word_word(Dynamics::PPP);
            }
            return Some(Dynamics::PPP);
        }
        if same_text(s, "pppp") {
            proof {
                Dynamics::of_word_word(Dynamics::PPPP);
            }
            return Some(Dynamics::PPPP);
        }
        if same_text(s, "ppppp") {
            proof {
                Dynamics::of_word_word(Dynamics::PPPPP);
            }
            return Some(Dynamics::PPPPP);
        }
        if same_text(s, "pppppp") {
            proof {
                Dynamics::of_word_word(Dynamics::PPPPPP);
            }
            return Some(Dynamics::PPPPPP);
        }
        if same_text(s, "f") {
            proof {
                Dynamics::of_word_word(Dynamics::F);
            }
            return Some(Dynamics::F);
        }
        if same_text(s, "ff") {
            proof {
                Dynamics::of_word_word(Dynamics::FF);
            }
            return Some(Dynamics::FF);
        }
        if same_text(s, "fff") {
            proof {
                Dynamics::of_word_word(Dynamics::FFF);
            }
            return Some(Dynamics::FFF);
        }
        if same_text(s, "ffff") {
            proof {
                Dynamics::of_word_word(Dynamics::FFFF);
            }
            return Some(Dynamics::FFFF);
        }
        if same_text(s, "fffff") {
            proof {
                Dynamics::of_word_word(Dynamics::FFFFF);
            }
            return Some(Dynamics::FFFFF);
        }
        if same_text(s, "ffffff") {
            proof {
                Dynamics::of_word_word(Dynamics::FFFFFF);
            }
            return Some(Dynamics::FFFFFF);
        }
        if same_text(s, "mp") {
            proof {
                Dynamics::of_word_word(Dynamics::MP);
            }
            return Some(Dynamics::MP);
        }
        if same_text(s, "mf") {
            proof {
                Dynamics::of_word_word(Dynamics::MF);
            }
            return Some(Dynamics::MF);
        }
        if same_text(s, "sf") {
            proof {
                Dynamics::of_word_word(Dynamics::SF);
            }
            return Some(Dynamics::SF);
        }
        if same_text(s, "sfp") {
            proof {
                Dynamics::of_word_word(Dynamics::SFP);
            }
            return Some(Dynamics::SFP);
        }
        if same_text(s, "sfpp") {
            proof {
                Dynamics::of_word_word(Dynamics::SFPP);
            }
            return Some(Dynamics::SFPP);
        }
        if same_text(s, "fp") {
            proof {
                Dynamics::of_word_word(Dynamics::FP);
            }
            return Some(Dynamics::FP);
        }
        if same_text(s, "rf") {
            proof {
                Dynamics::of_word_word(Dynamics::RF);
            }
            return Some(Dynamics::RF);
        }
        if same_text(s, "rfz") {
            proof {
                Dynamics::of_word_word(Dynamics::RFZ);
            }
            return Some(Dynamics::RFZ);
        }
        if same_text(s, "sfz") {
            proof {
                Dynamics::of_word_word(Dynamics::SFZ);
            }
            return Some(Dynamics::SFZ);
        }
        if same_text(s, "sffz") {
            proof {
                Dynamics::of_word_word(Dynamics::SFFZ);
            }
            return Some(Dynamics::SFFZ);
        }
        if same_text(s, "fz") {
            proof {
                Dynamics::of_word_word(Dynamics::FZ);
            }
            return Some(Dynamics::FZ);
        }
        if same_text(s, "n") {
            proof {
                Dynamics::of_word_word(Dynamics::N);
            }
            return Some(Dynamics::N);
        }
        if same_text(s, "pf") {
            proof {
                Dynamics::of_word_word(Dynamics::PF);
            }
            return Some(Dynamics::PF);
        }
        if same_text(s, "sfzp") {
            proof {
                Dynamics::of_word_word(Dynamics::SFZP);
            }
            return Some(Dynamics::SFZP);
        }
        if same_text(s, "other-dynamics") {
            proof {
                Dynamics::of_word_word(Dynamics::OtherDynamics);
            }
            return Some(Dynamics::OtherDynamics);
        }
        proof {
            assert forall|v: Dynamics| v.word() != s@ by {
            }
        }
        None
    }
}

impl Default for Dynamics {
    fn default() -> (r: Dynamics)
        ensures
            r == Dynamics::P,
    {
        Dynamics::P
    }
}

impl Scalar for Dynamics {
    open spec fn parse(s: Seq<char>) -> Option<Dynamics> {
        Dynamics::of_word(s)
    }

    open spec fn text(v: Dynamics) -> Seq<char> {
        v.word()
    }

    open spec fn initial() -> Dynamics {
        Dynamics::P
    }

    proof fn parse_text(v: Dynamics) {
        Dynamics::of_word_word(v);
    }

    fn from_text(s: &str) -> (r: Option<Dynamics>) {
        Dynamics::from_str(s)
    }

    fn to_text(&self) -> (r: String) {
        owned(self.as_str())
    }

    fn same(&self, other: &Dynamics) -> (r: bool) {
        *self == *other
    }

    fn make_initial() -> (r: Dynamics) {
        Dynamics::P
    }
}

} // verus!
