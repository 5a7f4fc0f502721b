//! Margins of a page.
use crate::codec::{Element, group_codec, text_nodes};
use crate::decimal::Decimal;
use crate::error::{DecodeError, DecodeErrorView};
use crate::names::Name;
use crate::node::{Node, NodeView};
use crate::scalar::Scalar;
use crate::text::{owned, same_text};
use vstd::prelude::*;

verus! {

/// The pages that margins apply to.
#[derive(Clone, Copy, Debug, PartialEq, Eq, Structural)]
pub enum MarginType {
    /// Written `both`.
    Both,
    /// Written `even`.
    Even,
    /// Written `odd`.
    Odd,
}

impl DeepView for MarginType {
    type V = MarginType;

    open spec fn deep_view(&self) -> MarginType {
        *self
    }
}

impl MarginType {
    /// The word that a value is written as.
    #[verifier::opaque]
    pub open spec fn word(self) -> Seq<char> {
        match self {
            MarginType::Both => "both"@,
            MarginType::Even => "even"@,
            MarginType::Odd => "odd"@,
        }
    }

    /// The value that a word denotes, if it denotes one.
    #[verifier::opaque]
    pub open spec fn of_word(s: Seq<char>) -> Option<MarginType> {
        if exists|v: MarginType| v.word() == s {
            Some(choose|v: MarginType| v.word() == s)
        } else {
            None
        }
    }

    /// No two values are written alike.
    pub proof fn word_injective(a: MarginType, b: MarginType)
        ensures
            a.word() == b.word() ==> a == b,
    {
        reveal(MarginType::word);
        reveal_strlit("both");
        reveal_strlit("even");
        reveal_strlit("odd");
        if a.word() == b.word() {
            assert(a.word().len() == b.word().len());
            assert(a.word()[0] == b.word()[0]);
            assert(a.word()[1] == b.word()[1]);
            assert(a.word()[2] == b.word()[2]);
            assert(a.word()[3] == b.word()[3]);
        }
    }

    /// Reading the word of a value gives the value back.
    pub proof fn of_word_word(v: MarginType)
        ensures
            MarginType::of_word(v.word()) == Some(v),
    {
        reveal(MarginType::of_word);
        MarginType::word_injective(v, choose|w: MarginType| w.word() == v.word());
    }

    /// The word that a value is written as.
    pub fn as_str(self) -> (r: &'static str)
        ensures
            r@ == self.word(),
    {
        proof {
            reveal(MarginType::word);
        }
        match self {
            MarginType::Both => "both",
            MarginType::Even => "even",
            MarginType::Odd => "odd",
        }
    }

    /// Reads a value from its word.
    pub fn from_str(s: &str) -> (r: Option<MarginType>)
        ensures
            r == MarginType::of_word(s@),
    {
        proof {
            reveal(MarginType::word);
            reveal(MarginType::of_word);
        }
        if same_text(s, "both") {
            proof {
                MarginType::of_word_word(MarginType::Both);
            }
            return Some(MarginType::Both);
        }
        if same_text(s, "even") {
            proof {
                MarginType::of_word_word(MarginType::Even);
            }
            return Some(MarginType::Even);
        }
        if same_text(s, "odd") {
            proof {
                MarginType::of_word_word(MarginType::Odd);
            }
            return Some(MarginType::Odd);
        }
        proof {
            assert forall|v: MarginType| v.word() != s@ by {
            }
        }
        None
    }
}

impl Default for MarginType {
    fn default() -> (r: MarginType)
        ensures
            r == MarginType::Both,
    {
        MarginType::Both
    }
}

impl Scalar for MarginType {
    open spec fn parse(s: Seq<char>) -> Option<MarginType> {
        MarginType::of_word(s)
    }

    open spec fn text(v: MarginType) -> Seq<char> {
        v.word()
    }

    open spec fn initial() -> MarginType {
        MarginType::Both
    }

    proof fn parse_text(v: MarginType) {
        MarginType::of_word_word(v);
    }

    fn from_text(s: &str) -> (r: Option<MarginType>) {
        MarginType::from_str(s)
    }

    fn to_text(&self) -> (r: String) {
        owned(self.as_str())
    }

    fn same(&self, other: &MarginType) -> (r: bool) {
        *self == *other
    }

    fn make_initial() -> (r: MarginType) {
        MarginType::Both
    }
}

/// The margins of a page.
#[derive(Clone, Copy, Debug, PartialEq, Eq)]
pub struct PageMargins {
    /// The text of the child `left-margin`; zero where the child is not
    /// there.
    pub left_margin: Decimal,
    /// The text of the child `right-margin`; zero where the child is not
    /// there.
    pub right_margin: Decimal,
    /// The text of the child `top-margin`; zero where the child is not
    /// there.
    pub top_margin: Decimal,
    /// The text of the child `bottom-margin`; zero where the child is not
    /// there.
    pub bottom_margin: Decimal,
    /// The attribute `type`, if it is written.
    pub type_: Option<MarginType>,
}

impl DeepView for PageMargins {
    type V = PageMargins;

    open spec fn deep_view(&self) -> PageMargins {
        PageMargins {
            left_margin: self.left_margin.deep_view(),
            right_margin: self.right_margin.deep_view(),
            top_margin: self.top_margin.deep_view(),
            bottom_margin: self.bottom_margin.deep_view(),
            type_: self.type_.deep_view(),
        }
    }
}

impl PageMargins {
    /// The value with every field at its default.
    pub open spec fn initial() -> PageMargins {
        PageMargins {
            left_margin: Decimal { negative: false, magnitude: 0, scale: 0 },
            right_margin: Decimal { negative: false, magnitude: 0, scale: 0 },
            top_margin: Decimal { negative: false, magnitude: 0, scale: 0 },
            bottom_margin: Decimal { negative: false, magnitude: 0, scale: 0 },
            type_: None,
        }
    }
}

impl Default for PageMargins {
    fn default() -> (r: PageMargins)
        ensures
            r.deep_view() == PageMargins::initial(),
    {
        let r = PageMargins {
            left_margin: Decimal { negative: false, magnitude: 0, scale: 0 },
            right_margin: Decimal { negative: false, magnitude: 0, scale: 0 },
            top_margin: Decimal { negative: false, magnitude: 0, scale: 0 },
            bottom_margin: Decimal { negative: false, magnitude: 0, scale: 0 },
            type_: None,
        };
        r
    }
}

impl PageMargins {
    /// The value that an element denotes. The fields are read in the order in
    /// which they are declared; the first one that fails gives the error.
    #[verifier::opaque]
    pub open spec fn decode_node(n: NodeView) -> Result<PageMargins, DecodeErrorView> {
        let left_margin = n.text_or::<Decimal>(Name::LeftMargin, Decimal {
            negative: false,
            magnitude: 0,
            scale: 0,
        });
        let right_margin = n.text_or::<Decimal>(Name::RightMargin, Decimal {
            negative: false,
            magnitude: 0,
            scale: 0,
        });
        let top_margin = n.text_or::<Decimal>(Name::TopMargin, Decimal {
            negative: false,
            magnitude: 0,
            scale: 0,
        });
        let bottom_margin = n.text_or::<Decimal>(Name::BottomMargin, Decimal {
            negative: false,
            magnitude: 0,
            scale: 0,
        });
        let type_ = n.attribute_opt::<MarginType>(Name::Type);
        if left_margin is Err {
            Err(left_margin->Err_0)
        } else if right_margin is Err {
            Err(right_margin->Err_0)
        } else if top_margin is Err {
            Err(top_margin->Err_0)
        } else if bottom_margin is Err {
            Err(bottom_margin->Err_0)
        } else if type_ is Err {
            Err(type_->Err_0)
        } else {
            Ok(
                PageMargins {
                    left_margin: left_margin->Ok_0,
                    right_margin: right_margin->Ok_0,
                    top_margin: top_margin->Ok_0,
                    bottom_margin: bottom_margin->Ok_0,
                    type_: type_->Ok_0,
                }
            )
        }
    }

    /// The element that a value is written as.
    #[verifier::opaque]
    pub open spec fn encode_value(v: PageMargins, tag: Seq<char>) -> NodeView {
        NodeView::new(tag)
            .with_children(text_nodes::<Decimal>(Name::LeftMargin, Some(v.left_margin)))
            .with_children(text_nodes::<Decimal>(Name::RightMargin, Some(v.right_margin)))
            .with_children(text_nodes::<Decimal>(Name::TopMargin, Some(v.top_margin)))
            .with_children(text_nodes::<Decimal>(Name::BottomMargin, Some(v.bottom_margin)))
            .with_scalar_opt::<MarginType>(Name::Type, v.type_)
    }

    /// An encoded element bears the tag it was given.
    pub proof fn encoded_tag(v: PageMargins, tag: Seq<char>)
        ensures
            PageMargins::encode_value(v, tag).tag == tag,
    {
        broadcast use group_codec;

        reveal(PageMargins::encode_value);
    }

    /// Decoding what was encoded gives the value back.
    pub proof fn round_trip(v: PageMargins, tag: Seq<char>)
        requires
            <PageMargins as Element>::valid(v),
        ensures
            PageMargins::decode_node(PageMargins::encode_value(v, tag))
                == Ok::<PageMargins, DecodeErrorView>(v),
    {
        broadcast use group_codec;

        let n = PageMargins::encode_value(v, tag);
        assert(
            n.text_or::<Decimal>(Name::LeftMargin, Decimal {
                negative: false,
                magnitude: 0,
                scale: 0,
            })
                == Ok::<Decimal, DecodeErrorView>(v.left_margin)
        ) by {
            reveal(PageMargins::encode_value);
            reveal(NodeView::text_or);
            reveal(NodeView::text_opt);
            reveal(NodeView::only_child);
            reveal(NodeView::content);
            Decimal::parse_text(v.left_margin);
        }
        assert(
            n.text_or::<Decimal>(Name::RightMargin, Decimal {
                negative: false,
                magnitude: 0,
                scale: 0,
            })
                == Ok::<Decimal, DecodeErrorView>(v.right_margin)
        ) by {
            reveal(PageMargins::encode_value);
            reveal(NodeView::text_or);
            reveal(NodeView::text_opt);
            reveal(NodeView::only_child);
            reveal(NodeView::content);
            Decimal::parse_text(v.right_margin);
        }
        assert(
            n.text_or::<Decimal>(Name::TopMargin, Decimal {
                negative: false,
                magnitude: 0,
                scale: 0,
            })
                == Ok::<Decimal, DecodeErrorView>(v.top_margin)
        ) by {
            reveal(PageMargins::encode_value);
            reveal(NodeView::text_or);
            reveal(NodeView::text_opt);
            reveal(NodeView::only_child);
            reveal(NodeView::content);
            Decimal::parse_text(v.top_margin);
        }
        assert(
            n.text_or::<Decimal>(Name::BottomMargin, Decimal {
                negative: false,
                magnitude: 0,
                scale: 0,
            })
                == Ok::<Decimal, DecodeErrorView>(v.bottom_margin)
        ) by {
            reveal(PageMargins::encode_value);
            reveal(NodeView::text_or);
            reveal(NodeView::text_opt);
            reveal(NodeView::only_child);
            reveal(NodeView::content);
            Decimal::parse_text(v.bottom_margin);
        }
        assert(
            n.attribute_opt::<MarginType>(Name::Type)
                == Ok::<Option<MarginType>, DecodeErrorView>(v.type_)
        ) by {
            reveal(PageMargins::encode_value);
        }
        reveal(PageMargins::decode_node);
    }

    /// Decoding gives valid values only.
    pub proof fn decoded_valid(n: NodeView)
        ensures
            PageMargins::decode_node(n) matches Ok(v) ==> <PageMargins as Element>::valid(v),
    {
        reveal(PageMargins::decode_node);
    }

    /// Decodes an element.
    pub fn read_node(node: &Node) -> (r: Result<PageMargins, DecodeError>)
        ensures
            r matches Ok(v) ==>
                PageMargins::decode_node(node.deep_view()) == Ok::<PageMargins, DecodeErrorView>(
                v.deep_view(),
            ),
            r matches Err(e) ==>
                PageMargins::decode_node(node.deep_view()) == Err::<PageMargins, DecodeErrorView>(
                e.deep_view(),
            ),
    {
        proof {
            reveal(PageMargins::decode_node);
        }
        let left_margin = node.text_or::<Decimal>(Name::LeftMargin, Decimal {
            negative: false,
            magnitude: 0,
            scale: 0,
        })?;
        let right_margin = node.text_or::<Decimal>(Name::RightMargin, Decimal {
            negative: false,
            magnitude: 0,
            scale: 0,
        })?;
        let top_margin = node.text_or::<Decimal>(Name::TopMargin, Decimal {
            negative: false,
            magnitude: 0,
            scale: 0,
        })?;
        let bottom_margin = node.text_or::<Decimal>(Name::BottomMargin, Decimal {
            negative: false,
            magnitude: 0,
            scale: 0,
        })?;
        let type_ = node.attribute_opt::<MarginType>(Name::Type)?;
        Ok(PageMargins { left_margin, right_margin, top_margin, bottom_margin, type_ })
    }

    /// Encodes a value as an element with the given tag.
    pub fn write_node(&self, tag: &str) -> (r: Node)
        ensures
            r.deep_view() == PageMargins::encode_value(self.deep_view(), tag@),
    {
        proof {
            reveal(PageMargins::encode_value);
        }
        let mut node = Node::new(tag);
        node.put_text::<Decimal>(Name::LeftMargin, &self.left_margin);
        node.put_text::<Decimal>(Name::RightMargin, &self.right_margin);
        node.put_text::<Decimal>(Name::TopMargin, &self.top_margin);
        node.put_text::<Decimal>(Name::BottomMargin, &self.bottom_margin);
        node.put_scalar_opt::<MarginType>(Name::Type, &self.type_);
        node
    }
}

impl Element for PageMargins {
    open spec fn valid(v: PageMargins) -> bool {
        true
    }

    open spec fn decode(n: NodeView) -> Result<PageMargins, DecodeErrorView> {
        PageMargins::decode_node(n)
    }

    open spec fn encode(v: PageMargins, tag: Seq<char>) -> NodeView {
        PageMargins::encode_value(v, tag)
    }

    proof fn encode_tag(v: PageMargins, tag: Seq<char>) {
        PageMargins::encoded_tag(v, tag);
    }

    proof fn decode_encode(v: PageMargins, tag: Seq<char>) {
        PageMargins::round_trip(v, tag);
    }

    proof fn decode_valid(n: NodeView) {
        PageMargins::decoded_valid(n);
    }

    fn from_node(node: &Node) -> (r: Result<PageMargins, DecodeError>) {
        PageMargins::read_node(node)
    }

    fn to_node(&self, tag: &str) -> (r: Node) {
        self.write_node(tag)
    }
}

} // verus!
