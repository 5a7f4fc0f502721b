//! Barlines.
use crate::codec::{Element, element_nodes, group_codec, text_nodes};
use crate::error::{DecodeError, DecodeErrorView};
use crate::left_right_middle::LeftRightMiddle;
use crate::names::Name;
use crate::node::{Node, NodeView};
use crate::primitives::RepeatDirection;
use crate::printable_value::{PrintableValue, PrintableValueView};
use crate::scalar::Scalar;
use crate::text::{owned, same_text};
use vstd::prelude::*;

verus! {

/// The styles of a barline.
#[derive(Clone, Copy, Debug, PartialEq, Eq, Structural)]
pub enum BarStyle {
    /// Written `standard`.
    Standard,
    /// Written `dashed`.
    Dashed,
    /// Written `dotted`.
    Dotted,
    /// Written `heavy`.
    Heavy,
    /// Written `heavy-heavy`.
    HeavyHeavy,
    /// Written `heavy-light`.
    HeavyLight,
    /// Written `light-heavy`.
    LightHeavy,
    /// Written `light-light`.
    LightLight,
    /// Written `none`.
    Nothing,
    /// Written `regular`.
    Regular,
    /// Written `short`.
    Short,
    /// Written `tick`.
    Tick,
}

impl DeepView for BarStyle {
    type V = BarStyle;

    open spec fn deep_view(&self) -> BarStyle {
        *self
    }
}

impl BarStyle {
    /// The word that a value is written as.
    #[verifier::opaque]
    pub open spec fn word(self) -> Seq<char> {
        match self {
            BarStyle::Standard => "standard"@,
            BarStyle::Dashed => "dashed"@,
            BarStyle::Dotted => "dotted"@,
            BarStyle::Heavy => "heavy"@,
            BarStyle::HeavyHeavy => "heavy-heavy"@,
            BarStyle::HeavyLight => "heavy-light"@,
            BarStyle::LightHeavy => "light-heavy"@,
            BarStyle::LightLight => "light-light"@,
            BarStyle::Nothing => "none"@,
            BarStyle::Regular => "regular"@,
            BarStyle::Short => "short"@,
            BarStyle::Tick => "tick"@,
        }
    }

    /// The value that a word denotes, if it denotes one.
    #[verifier::opaque]
    pub open spec fn of_word(s: Seq<char>) -> Option<BarStyle> {
        if exists|v: BarStyle| v.word() == s {
            Some(choose|v: BarStyle| v.word() == s)
        } else {
            None
        }
    }

    /// No two values are written alike.
    pub proof fn word_injective(a: BarStyle, b: BarStyle)
        ensures
            a.word() == b.word() ==> a == b,
    {
        reveal(BarStyle::word);
        reveal_strlit("standard");
        reveal_strlit("dashed");
        reveal_strlit("dotted");
        reveal_strlit("heavy");
        reveal_strlit("heavy-heavy");
        reveal_strlit("heavy-light");
        reveal_strlit("light-heavy");
        reveal_strlit("light-light");
        reveal_strlit("none");
        reveal_strlit("regular");
        reveal_strlit("short");
        reveal_strlit("tick");
        if a.word() == b.word() {
            assert(a.word().len() == b.word().len());
            assert(a.word()[0] == b.word()[0]);
            assert(a.word()[1] == b.word()[1]);
            assert(a.word()[2] == b.word()[2]);
            assert(a.word()[3] == b.word()[3]);
            assert(a.word()[4] == b.word()[4]);
            assert(a.word()[5] == b.word()[5]);
            assert(a.word()[6] == b.word()[6]);
            assert(a.word()[7] == b.word()[7]);
            assert(a.word()[8] == b.word()[8]);
            assert(a.word()[9] == b.word()[9]);
            assert(a.word()[10] == b.word()[10]);
        }
    }

    /// Reading the word of a value gives the value back.
    pub proof fn of_word_word(v: BarStyle)
        ensures
            BarStyle::of_word(v.word()) == Some(v),
    {
        reveal(BarStyle::of_word);
        BarStyle::word_injective(v, choose|w: BarStyle| w.word() == v.word());
    }

    /// The word that a value is written as.
    pub fn as_str(self) -> (r: &'static str)
        ensures
            r@ == self.word(),
    {
        proof {
            reveal(BarStyle::word);
        }
        match self {
            BarStyle::Standard => "standard",
            BarStyle::Dashed => "dashed",
            BarStyle::Dotted => "dotted",
            BarStyle::Heavy => "heavy",
            BarStyle::HeavyHeavy => "heavy-heavy",
            BarStyle::HeavyLight => "heavy-light",
            BarStyle::LightHeavy => "light-heavy",
            BarStyle::LightLight => "light-light",
            BarStyle::Nothing => "none",
            BarStyle::Regular => "regular",
            BarStyle::Short => "short",
            BarStyle::Tick => "tick",
        }
    }

    /// Reads a value from its word.
    pub fn from_str(s: &str) -> (r: Option<BarStyle>)
        ensures
            r == BarStyle::of_word(s@),
    {
        proof {
            reveal(BarStyle::word);
            reveal(BarStyle::of_word);
        }
        if same_text(s, "standard") {
            proof {
                BarStyle::of_word_word(BarStyle::Standard);
            }
            return Some(BarStyle::Standard);
        }
        if same_text(s, "dashed") {
            proof {
                BarStyle::of_word_word(BarStyle::Dashed);
            }
            return Some(BarStyle::Dashed);
        }
        if same_text(s, "dotted") {
            proof {
                BarStyle::of_word_word(BarStyle::Dotted);
            }
            return Some(BarStyle::Dotted);
        }
        if same_text(s, "heavy") {
            proof {
                BarStyle::of_word_word(BarStyle::Heavy);
            }
            return Some(BarStyle::Heavy);
        }
        if same_text(s, "heavy-heavy") {
            proof {
                BarStyle::of_word_word(BarStyle::HeavyHeavy);
            }
            return Some(BarStyle::HeavyHeavy);
        }
        if same_text(s, "heavy-light") {
            proof {
                BarStyle::of_word_word(BarStyle::HeavyLight);
            }
            return Some(BarStyle::HeavyLight);
        }
        if same_text(s, "light-heavy") {
            proof {
                BarStyle::of_word_word(BarStyle::LightHeavy);
            }
            return Some(BarStyle::LightHeavy);
        }
        if same_text(s, "light-light") {
            proof {
                BarStyle::of_word_word(BarStyle::LightLight);
            }
            return Some(BarStyle::LightLight);
        }
        if same_text(s, "none") {
            proof {
                BarStyle::of_word_word(BarStyle::Nothing);
            }
            return Some(BarStyle::Nothing);
        }
        if same_text(s, "regular") {
            proof {
                BarStyle::of_word_word(BarStyle::Regular);
            }
            return Some(BarStyle::Regular);
        }
        if same_text(s, "short") {
            proof {
                BarStyle::of_word_word(BarStyle::Short);
            }
            return Some(BarStyle::Short);
        }
        if same_text(s, "tick") {
            proof {
                BarStyle::of_word_word(BarStyle::Tick);
            }
            return Some(BarStyle::Tick);
        }
        proof {
            assert forall|v: BarStyle| v.word() != s@ by {
            }
        }
        None
    }
}

impl Scalar for BarStyle {
    open spec fn parse(s: Seq<char>) -> Option<BarStyle> {
        BarStyle::of_word(s)
    }

    open spec fn text(v: BarStyle) -> Seq<char> {
        v.word()
    }

    open spec fn initial() -> BarStyle {
        BarStyle::Standard
    }

    proof fn parse_text(v: BarStyle) {
        BarStyle::of_word_word(v);
    }

    fn from_text(s: &str) -> (r: Option<BarStyle>) {
        BarStyle::from_str(s)
    }

    fn to_text(&self) -> (r: String) {
        owned(self.as_str())
    }

    fn same(&self, other: &BarStyle) -> (r: bool) {
        *self == *other
    }

    fn make_initial() -> (r: BarStyle) {
        BarStyle::Standard
    }
}

/// A barline.
#[derive(Clone, Debug, PartialEq)]
pub struct Barline {
    /// The text of the child `bar-style`, if the child is there.
    pub barstyle: Option<BarStyle>,
    /// The child `footnote`, if it is there.
    pub footnote: Option<PrintableValue<String>>,
    /// The attribute `location`, which must be written.
    pub location: LeftRightMiddle,
    /// The text of the child `repeatdirection`, if the child is there.
    pub repeatdirection: Option<RepeatDirection>,
}

/// The mathematical value of a [`Barline`].
pub struct BarlineView {
    pub barstyle: Option<BarStyle>,
    pub footnote: Option<PrintableValueView<Seq<char>>>,
    pub location: LeftRightMiddle,
    pub repeatdirection: Option<RepeatDirection>,
}

impl DeepView for Barline {
    type V = BarlineView;

    open spec fn deep_view(&self) -> BarlineView {
        BarlineView {
            barstyle: self.barstyle.deep_view(),
            footnote: self.footnote.deep_view(),
            location: self.location.deep_view(),
            repeatdirection: self.repeatdirection.deep_view(),
        }
    }
}

impl Barline {
    /// The value that an element denotes. The fields are read in the order in
    /// which they are declared; the first one that fails gives the error.
    #[verifier::opaque]
    pub open spec fn decode_node(n: NodeView) -> Result<BarlineView, DecodeErrorView> {
        let barstyle = n.text_opt::<BarStyle>(Name::BarStyle);
        let footnote = n.element_opt::<PrintableValue<String>>(Name::Footnote);
        let location = n.attribute_required::<LeftRightMiddle>(Name::Location);
        let repeatdirection = n.text_opt::<RepeatDirection>(Name::Repeatdirection);
        if barstyle is Err {
            Err(barstyle->Err_0)
        } else if footnote is Err {
            Err(footnote->Err_0)
        } else if location is Err {
            Err(location->Err_0)
        } else if repeatdirection is Err {
            Err(repeatdirection->Err_0)
        } else {
            Ok(
                BarlineView {
                    barstyle: barstyle->Ok_0,
                    footnote: footnote->Ok_0,
                    location: location->Ok_0,
                    repeatdirection: repeatdirection->Ok_0,
                }
            )
        }
    }

    /// The element that a value is written as.
    #[verifier::opaque]
    pub open spec fn encode_value(v: BarlineView, tag: Seq<char>) -> NodeView {
        NodeView::new(tag)
            .with_children(text_nodes::<BarStyle>(Name::BarStyle, v.barstyle))
            .with_children(element_nodes::<PrintableValue<String>>(Name::Footnote, v.footnote))
            .with_scalar::<LeftRightMiddle>(Name::Location, v.location)
            .with_children(text_nodes::<RepeatDirection>(Name::Repeatdirection, v.repeatdirection))
    }

    /// An encoded element bears the tag it was given.
    pub proof fn encoded_tag(v: BarlineView, tag: Seq<char>)
        ensures
            Barline::encode_value(v, tag).tag == tag,
    {
        broadcast use group_codec;

        reveal(Barline::encode_value);
    }

    /// Decoding what was encoded gives the value back.
    pub proof fn round_trip(v: BarlineView, tag: Seq<char>)
        requires
            <Barline as Element>::valid(v),
        ensures
            Barline::decode_node(Barline::encode_value(v, tag))
                == Ok::<BarlineView, DecodeErrorView>(v),
    {
        broadcast use group_codec;

        let n = Barline::encode_value(v, tag);
        assert(
            n.text_opt::<BarStyle>(Name::BarStyle)
                == Ok::<Option<BarStyle>, DecodeErrorView>(v.barstyle)
        ) by {
            reveal(Barline::encode_value);
            reveal(NodeView::text_opt);
            reveal(NodeView::only_child);
            reveal(NodeView::content);
            if let Some(x) = v.barstyle {
                BarStyle::parse_text(x);
            }
        }
        assert(
            n.element_opt::<PrintableValue<String>>(Name::Footnote)
                == Ok::<Option<PrintableValueView<Seq<char>>>, DecodeErrorView>(v.footnote)
        ) by {
            reveal(Barline::encode_value);
            reveal(NodeView::element_opt);
            reveal(NodeView::only_child);
            if let Some(x) = v.footnote {
                PrintableValue::<String>::decode_encode(x, Name::Footnote.text());
            }
        }
        assert(
            n.attribute_required::<LeftRightMiddle>(Name::Location)
                == Ok::<LeftRightMiddle, DecodeErrorView>(v.location)
        ) by {
            reveal(Barline::encode_value);
        }
        assert(
            n.text_opt::<RepeatDirection>(Name::Repeatdirection)
                == Ok::<Option<RepeatDirection>, DecodeErrorView>(v.repeatdirection)
        ) by {
            reveal(Barline::encode_value);
            reveal(NodeView::text_opt);
            reveal(NodeView::only_child);
            reveal(NodeView::content);
            if let Some(x) = v.repeatdirection {
                RepeatDirection::parse_text(x);
            }
        }
        reveal(Barline::decode_node);
    }

    /// Decoding gives valid values only.
    pub proof fn decoded_valid(n: NodeView)
        ensures
            Barline::decode_node(n) matches Ok(v) ==> <Barline as Element>::valid(v),
    {
        reveal(Barline::decode_node);
        reveal(NodeView::element_opt);
        if let Ok(Some(c)) = n.only_child(Name::Footnote) {
            PrintableValue::<String>::decode_valid(c);
        }
    }

    /// Decodes an element.
    pub fn read_node(node: &Node) -> (r: Result<Barline, DecodeError>)
        ensures
            r matches Ok(v) ==>
                Barline::decode_node(node.deep_view()) == Ok::<BarlineView, DecodeErrorView>(
                v.deep_view(),
            ),
            r matches Err(e) ==>
                Barline::decode_node(node.deep_view()) == Err::<BarlineView, DecodeErrorView>(
                e.deep_view(),
            ),
    {
        proof {
            reveal(Barline::decode_node);
        }
        let barstyle = node.text_opt::<BarStyle>(Name::BarStyle)?;
        let footnote = node.element_opt::<PrintableValue<String>>(Name::Footnote)?;
        let location = node.attribute_required::<LeftRightMiddle>(Name::Location)?;
        let repeatdirection = node.text_opt::<RepeatDirection>(Name::Repeatdirection)?;
        Ok(Barline { barstyle, footnote, location, repeatdirection })
    }

    /// Encodes a value as an element with the given tag.
    pub fn write_node(&self, tag: &str) -> (r: Node)
        ensures
            r.deep_view() == Barline::encode_value(self.deep_view(), tag@),
    {
        proof {
            reveal(Barline::encode_value);
        }
        let mut node = Node::new(tag);
        node.put_text_opt::<BarStyle>(Name::BarStyle, &self.barstyle);
        node.put_element_opt::<PrintableValue<String>>(Name::Footnote, &self.footnote);
        node.put_scalar::<LeftRightMiddle>(Name::Location, &self.location);
        node.put_text_opt::<RepeatDirection>(Name::Repeatdirection, &self.repeatdirection);
        node
    }
}

impl Element for Barline {
    open spec fn valid(v: BarlineView) -> bool {
        &&& (v.footnote matches Some(x) ==> PrintableValue::<String>::valid(x))
    }

    open spec fn decode(n: NodeView) -> Result<BarlineView, DecodeErrorView> {
        Barline::decode_node(n)
    }

    open spec fn encode(v: BarlineView, tag: Seq<char>) -> NodeView {
        Barline::encode_value(v, tag)
    }

    proof fn encode_tag(v: BarlineView, tag: Seq<char>) {
        Barline::encoded_tag(v, tag);
    }

    proof fn decode_encode(v: BarlineView, tag: Seq<char>) {
        Barline::round_trip(v, tag);
    }

    proof fn decode_valid(n: NodeView) {
        Barline::decoded_valid(n);
    }

    fn from_node(node: &Node) -> (r: Result<Barline, DecodeError>) {
        Barline::read_node(node)
    }

    fn to_node(&self, tag: &str) -> (r: Node) {
        self.write_node(tag)
    }
}

} // verus!
