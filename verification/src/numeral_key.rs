//! The key of a numeral.
use crate::codec::{Element, group_codec, text_nodes};
use crate::error::{DecodeError, DecodeErrorView};
use crate::names::Name;
use crate::node::{Node, NodeView};
use crate::scalar::Scalar;
use crate::text::{owned, same_text};
use crate::yes_no::YesNo;
use vstd::prelude::*;

verus! {

/// The mode that a numeral is read in.
#[derive(Clone, Copy, Debug, PartialEq, Eq, Structural)]
pub enum NumeralMode {
    /// Written `harmonic minor`.
    HarmonicMinor,
    /// Written `major`.
    Major,
    /// Written `melodic minor`.
    MelodicMinor,
    /// Written `minor`.
    Minor,
    /// Written `natural minor`.
    NaturalMinor,
}

impl DeepView for NumeralMode {
    type V = NumeralMode;

    open spec fn deep_view(&self) -> NumeralMode {
        *self
    }
}

impl NumeralMode {
    /// The word that a value is written as.
    #[verifier::opaque]
    pub open spec fn word(self) -> Seq<char> {
        match self {
            NumeralMode::HarmonicMinor => "harmonic minor"@,
            NumeralMode::Major => "major"@,
            NumeralMode::MelodicMinor => "melodic minor"@,
            NumeralMode::Minor => "minor"@,
            NumeralMode::NaturalMinor => "natural minor"@,
        }
    }

    /// The value that a word denotes, if it denotes one.
    #[verifier::opaque]
    pub open spec fn of_word(s: Seq<char>) -> Option<NumeralMode> {
        if exists|v: NumeralMode| v.word() == s {
            Some(choose|v: NumeralMode| v.word() == s)
        } else {
            None
        }
    }

    /// No two values are written alike.
    pub proof fn word_injective(a: NumeralMode, b: NumeralMode)
        ensures
            a.word() == b.word() ==> a == b,
    {
        reveal(NumeralMode::word);
        reveal_strlit("harmonic minor");
        reveal_strlit("major");
        reveal_strlit("melodic minor");
        reveal_strlit("minor");
        reveal_strlit("natural minor");
        if a.word() == b.word() {
            assert(a.word().len() == b.word().len());
            assert(a.word()[0] == b.word()[0]);
            assert(a.word()[1] == b.word()[1]);
            assert(a.word()[2] == b.word()[2]);
            assert(a.word()[3] == b.word()[3]);
            assert(a.word()[4] == b.word()[4]);
            assert(a.word()[5] == b.word()[5]);
            assert(a.word()[6] == b.word()[6]);
            assert(a.word()[7] == b.word()[7]);
            assert(a.word()[8] == b.word()[8]);
            assert(a.word()[9] == b.word()[9]);
            assert(a.word()[10] == b.word()[10]);
            assert(a.word()[11] == b.word()[11]);
            assert(a.word()[12] == b.word()[12]);
            assert(a.word()[13] == b.word()[13]);
        }
    }

    /// Reading the word of a value gives the value back.
    pub proof fn of_word_word(v: NumeralMode)
        ensures
            NumeralMode::of_word(v.word()) == Some(v),
    {
        reveal(NumeralMode::of_word);
        NumeralMode::word_injective(v, choose|w: NumeralMode| w.word() == v.word());
    }

    /// The word that a value is written as.
    pub fn as_str(self) -> (r: &'static str)
        ensures
            r@ == self.word(),
    {
        proof {
            reveal(NumeralMode::word);
        }
        match self {
            NumeralMode::HarmonicMinor => "harmonic minor",
            NumeralMode::Major => "major",
            NumeralMode::MelodicMinor => "melodic minor",
            NumeralMode::Minor => "minor",
            NumeralMode::NaturalMinor => "natural minor",
        }
    }

    /// Reads a value from its word.
    pub fn from_str(s: &str) -> (r: Option<NumeralMode>)
        ensures
            r == NumeralMode::of_word(s@),
    {
        proof {
            reveal(NumeralMode::word);
            reveal(NumeralMode::of_word);
        }
        if same_text(s, "harmonic minor") {
            proof {
                NumeralMode::of_word_word(NumeralMode::HarmonicMinor);
            }
            return Some(NumeralMode::HarmonicMinor);
        }
        if same_text(s, "major") {
            proof {
                NumeralMode::of_word_word(NumeralMode::Major);
            }
            return Some(NumeralMode::Major);
        }
        if same_text(s, "melodic minor") {
            proof {
                NumeralMode::of_word_word(NumeralMode::MelodicMinor);
            }
            return Some(NumeralMode::MelodicMinor);
        }
        if same_text(s, "minor") {
            proof {
                NumeralMode::of_word_word(NumeralMode::Minor);
            }
            return Some(NumeralMode::Minor);
        }
        if same_text(s, "natural minor") {
            proof {
                NumeralMode::of_word_word(NumeralMode::NaturalMinor);
            }
            return Some(NumeralMode::NaturalMinor);
        }
        proof {
            assert forall|v: NumeralMode| v.word() != s@ by {
            }
        }
        None
    }
}

impl Default for NumeralMode {
    fn default() -> (r: NumeralMode)
        ensures
            r == NumeralMode::HarmonicMinor,
    {
        NumeralMode::HarmonicMinor
    }
}

impl Scalar for NumeralMode {
    open spec fn parse(s: Seq<char>) -> Option<NumeralMode> {
        NumeralMode::of_word(s)
    }

    open spec fn text(v: NumeralMode) -> Seq<char> {
        v.word()
    }

    open spec fn initial() -> NumeralMode {
        NumeralMode::HarmonicMinor
    }

    proof fn parse_text(v: NumeralMode) {
        NumeralMode::of_word_word(v);
    }

    fn from_text(s: &str) -> (r: Option<NumeralMode>) {
        NumeralMode::from_str(s)
    }

    fn to_text(&self) -> (r: String) {
        owned(self.as_str())
    }

    fn same(&self, other: &NumeralMode) -> (r: bool) {
        *self == *other
    }

    fn make_initial() -> (r: NumeralMode) {
        NumeralMode::HarmonicMinor
    }
}

/// The key that a numeral is read in.
#[derive(Clone, Copy, Debug, PartialEq, Eq)]
pub struct NumeralKey {
    /// The text of the child `numeral-fifths`; zero where the child is not
    /// there.
    pub fifths: i8,
    /// The text of the child `numeral-mode`; `NumeralMode::HarmonicMinor`
    /// where the child is not there.
    pub mode: NumeralMode,
    /// The attribute `print-object`, if it is written.
    pub print_object: Option<YesNo>,
}

impl DeepView for NumeralKey {
    type V = NumeralKey;

    open spec fn deep_view(&self) -> NumeralKey {
        NumeralKey {
            fifths: self.fifths.deep_view(),
            mode: self.mode.deep_view(),
            print_object: self.print_object.deep_view(),
        }
    }
}

impl NumeralKey {
    /// The value with every field at its default.
    pub open spec fn initial() -> NumeralKey {
        NumeralKey {
            fifths: 0,
            mode: NumeralMode::HarmonicMinor,
            print_object: None,
        }
    }
}

impl Default for NumeralKey {
    fn default() -> (r: NumeralKey)
        ensures
            r.deep_view() == NumeralKey::initial(),
    {
        let r = NumeralKey {
            fifths: 0,
            mode: NumeralMode::HarmonicMinor,
            print_object: None,
        };
        r
    }
}

impl NumeralKey {
    /// The value that an element denotes. The fields are read in the order in
    /// which they are declared; the first one that fails gives the error.
    #[verifier::opaque]
    pub open spec fn decode_node(n: NodeView) -> Result<NumeralKey, DecodeErrorView> {
        let fifths = n.text_or::<i8>(Name::NumeralFifths, 0);
        let mode = n.text_or::<NumeralMode>(Name::NumeralMode, NumeralMode::HarmonicMinor);
        let print_object = n.attribute_opt::<YesNo>(Name::PrintObject);
        if fifths is Err {
            Err(fifths->Err_0)
        } else if mode is Err {
            Err(mode->Err_0)
        } else if print_object is Err {
            Err(print_object->Err_0)
        } else {
            Ok(
                NumeralKey {
                    fifths: fifths->Ok_0,
                    mode: mode->Ok_0,
                    print_object: print_object->Ok_0,
                }
            )
        }
    }

    /// The element that a value is written as.
    #[verifier::opaque]
    pub open spec fn encode_value(v: NumeralKey, tag: Seq<char>) -> NodeView {
        NodeView::new(tag)
            .with_children(text_nodes::<i8>(Name::NumeralFifths, Some(v.fifths)))
            .with_children(text_nodes::<NumeralMode>(Name::NumeralMode, Some(v.mode)))
            .with_scalar_opt::<YesNo>(Name::PrintObject, v.print_object)
    }

    /// An encoded element bears the tag it was given.
    pub proof fn encoded_tag(v: NumeralKey, tag: Seq<char>)
        ensures
            NumeralKey::encode_value(v, tag).tag == tag,
    {
        broadcast use group_codec;

        reveal(NumeralKey::encode_value);
    }

    /// Decoding what was encoded gives the value back.
    pub proof fn round_trip(v: NumeralKey, tag: Seq<char>)
        requires
            <NumeralKey as Element>::valid(v),
        ensures
            NumeralKey::decode_node(NumeralKey::encode_value(v, tag))
                == Ok::<NumeralKey, DecodeErrorView>(v),
    {
        broadcast use group_codec;

        let n = NumeralKey::encode_value(v, tag);
        assert(n.text_or::<i8>(Name::NumeralFifths, 0) == Ok::<i8, DecodeErrorView>(v.fifths)) by {
            reveal(NumeralKey::encode_value);
            reveal(NodeView::text_or);
            reveal(NodeView::text_opt);
            reveal(NodeView::only_child);
            reveal(NodeView::content);
            i8::parse_text(v.fifths);
        }
        assert(
            n.text_or::<NumeralMode>(Name::NumeralMode, NumeralMode::HarmonicMinor)
                == Ok::<NumeralMode, DecodeErrorView>(v.mode)
        ) by {
            reveal(NumeralKey::encode_value);
            reveal(NodeView::text_or);
            reveal(NodeView::text_opt);
            reveal(NodeView::only_child);
            reveal(NodeView::content);
            NumeralMode::parse_text(v.mode);
        }
        assert(
            n.attribute_opt::<YesNo>(Name::PrintObject)
                == Ok::<Option<YesNo>, DecodeErrorView>(v.print_object)
        ) by {
            reveal(NumeralKey::encode_value);
        }
        reveal(NumeralKey::decode_node);
    }

    /// Decoding gives valid values only.
    pub proof fn decoded_valid(n: NodeView)
        ensures
            NumeralKey::decode_node(n) matches Ok(v) ==> <NumeralKey as Element>::valid(v),
    {
        reveal(NumeralKey::decode_node);
    }

    /// Decodes an element.
    pub fn read_node(node: &Node) -> (r: Result<NumeralKey, DecodeError>)
        ensures
            r matches Ok(v) ==>
                NumeralKey::decode_node(node.deep_view()) == Ok::<NumeralKey, DecodeErrorView>(
                v.deep_view(),
            ),
            r matches Err(e) ==>
                NumeralKey::decode_node(node.deep_view()) == Err::<NumeralKey, DecodeErrorView>(
                e.deep_view(),
            ),
    {
        proof {
            reveal(NumeralKey::decode_node);
        }
        let fifths = node.text_or::<i8>(Name::NumeralFifths, 0)?;
        let mode = node.text_or::<NumeralMode>(Name::NumeralMode, NumeralMode::HarmonicMinor)?;
        let print_object = node.attribute_opt::<YesNo>(Name::PrintObject)?;
        Ok(NumeralKey { fifths, mode, print_object })
    }

    /// Encodes a value as an element with the given tag.
    pub fn write_node(&self, tag: &str) -> (r: Node)
        ensures
            r.deep_view() == NumeralKey::encode_value(self.deep_view(), tag@),
    {
        proof {
            reveal(NumeralKey::encode_value);
        }
        let mut node = Node::new(tag);
        node.put_text::<i8>(Name::NumeralFifths, &self.fifths);
        node.put_text::<NumeralMode>(Name::NumeralMode, &self.mode);
        node.put_scalar_opt::<YesNo>(Name::PrintObject, &self.print_object);
        node
    }
}

impl Element for NumeralKey {
    open spec fn valid(v: NumeralKey) -> bool {
        true
    }

    open spec fn decode(n: NodeView) -> Result<NumeralKey, DecodeErrorView> {
        NumeralKey::decode_node(n)
    }

    open spec fn encode(v: NumeralKey, tag: Seq<char>) -> NodeView {
        NumeralKey::encode_value(v, tag)
    }

    proof fn encode_tag(v: NumeralKey, tag: Seq<char>) {
        NumeralKey::encoded_tag(v, tag);
    }

    proof fn decode_encode(v: NumeralKey, tag: Seq<char>) {
        NumeralKey::round_trip(v, tag);
    }

    proof fn decode_valid(n: NodeView) {
        NumeralKey::decoded_valid(n);
    }

    fn from_node(node: &Node) -> (r: Result<NumeralKey, DecodeError>) {
        NumeralKey::read_node(node)
    }

    fn to_node(&self, tag: &str) -> (r: Node) {
        self.write_node(tag)
    }
}

} // verus!
