//! Stems.
use crate::codec::{Element, group_codec};
use crate::decimal::Decimal;
use crate::error::{DecodeError, DecodeErrorView};
use crate::names::Name;
use crate::node::{Node, NodeView};
use crate::primitives::DirectionUD;
use crate::scalar::Scalar;
use vstd::prelude::*;

verus! {

/// The stem of a note.
#[derive(Clone, Debug, PartialEq)]
pub struct Stem {
    /// The text of the element; `DirectionUD::Nothing` where it has none.
    pub content: DirectionUD,
    /// The attribute `color`, if it is written.
    pub color: Option<String>,
    /// The attribute `default-x`, if it is written.
    pub default_x: Option<Decimal>,
    /// The attribute `default-y`, if it is written.
    pub default_y: Option<Decimal>,
    /// The attribute `relative-x`, if it is written.
    pub relative_x: Option<String>,
    /// The attribute `relative-y`, if it is written.
    pub relative_y: Option<String>,
}

/// The mathematical value of a [`Stem`].
pub struct StemView {
    pub content: DirectionUD,
    pub color: Option<Seq<char>>,
    pub default_x: Option<Decimal>,
    pub default_y: Option<Decimal>,
    pub relative_x: Option<Seq<char>>,
    pub relative_y: Option<Seq<char>>,
}

impl DeepView for Stem {
    type V = StemView;

    open spec fn deep_view(&self) -> StemView {
        StemView {
            content: self.content.deep_view(),
            color: self.color.deep_view(),
            default_x: self.default_x.deep_view(),
            default_y: self.default_y.deep_view(),
            relative_x: self.relative_x.deep_view(),
            relative_y: self.relative_y.deep_view(),
        }
    }
}

impl Stem {
    /// The value with every field at its default.
    pub open spec fn initial() -> StemView {
        StemView {
            content: DirectionUD::Nothing,
            color: None,
            default_x: None,
            default_y: None,
            relative_x: None,
            relative_y: None,
        }
    }
}

impl Default for Stem {
    fn default() -> (r: Stem)
        ensures
            r.deep_view() == Stem::initial(),
    {
        let r = Stem {
            content: DirectionUD::Nothing,
            color: None,
            default_x: None,
            default_y: None,
            relative_x: None,
            relative_y: None,
        };
        r
    }
}

impl Stem {
    /// The value that an element denotes. The fields are read in the order in
    /// which they are declared; the first one that fails gives the error.
    #[verifier::opaque]
    pub open spec fn decode_node(n: NodeView) -> Result<StemView, DecodeErrorView> {
        let content = n.content_or::<DirectionUD>(DirectionUD::Nothing);
        let color = n.attribute_opt::<String>(Name::Color);
        let default_x = n.attribute_opt::<Decimal>(Name::DefaultX);
        let default_y = n.attribute_opt::<Decimal>(Name::DefaultY);
        let relative_x = n.attribute_opt::<String>(Name::RelativeX);
        let relative_y = n.attribute_opt::<String>(Name::RelativeY);
        if content is Err {
            Err(content->Err_0)
        } else if color is Err {
            Err(color->Err_0)
        } else if default_x is Err {
            Err(default_x->Err_0)
        } else if default_y is Err {
            Err(default_y->Err_0)
        } else if relative_x is Err {
            Err(relative_x->Err_0)
        } else if relative_y is Err {
            Err(relative_y->Err_0)
        } else {
            Ok(
                StemView {
                    content: content->Ok_0,
                    color: color->Ok_0,
                    default_x: default_x->Ok_0,
                    default_y: default_y->Ok_0,
                    relative_x: relative_x->Ok_0,
                    relative_y: relative_y->Ok_0,
                }
            )
        }
    }

    /// The element that a value is written as.
    #[verifier::opaque]
    pub open spec fn encode_value(v: StemView, tag: Seq<char>) -> NodeView {
        NodeView::new(tag)
            .with_content::<DirectionUD>(v.content)
            .with_scalar_opt::<String>(Name::Color, v.color)
            .with_scalar_opt::<Decimal>(Name::DefaultX, v.default_x)
            .with_scalar_opt::<Decimal>(Name::DefaultY, v.default_y)
            .with_scalar_opt::<String>(Name::RelativeX, v.relative_x)
            .with_scalar_opt::<String>(Name::RelativeY, v.relative_y)
    }

    /// An encoded element bears the tag it was given.
    pub proof fn encoded_tag(v: StemView, tag: Seq<char>)
        ensures
            Stem::encode_value(v, tag).tag == tag,
    {
        broadcast use group_codec;

        reveal(Stem::encode_value);
    }

    /// Decoding what was encoded gives the value back.
    pub proof fn round_trip(v: StemView, tag: Seq<char>)
        requires
            <Stem as Element>::valid(v),
        ensures
            Stem::decode_node(Stem::encode_value(v, tag)) == Ok::<StemView, DecodeErrorView>(v),
    {
        broadcast use group_codec;

        let n = Stem::encode_value(v, tag);
        assert(
            n.content_or::<DirectionUD>(DirectionUD::Nothing)
                == Ok::<DirectionUD, DecodeErrorView>(v.content)
        ) by {
            reveal(Stem::encode_value);
            reveal(NodeView::content_or);
            reveal(NodeView::content);
            DirectionUD::parse_text(v.content);
        }
        assert(
            n.attribute_opt::<String>(Name::Color)
                == Ok::<Option<Seq<char>>, DecodeErrorView>(v.color)
        ) by {
            reveal(Stem::encode_value);
        }
        assert(
            n.attribute_opt::<Decimal>(Name::DefaultX)
                == Ok::<Option<Decimal>, DecodeErrorView>(v.default_x)
        ) by {
            reveal(Stem::encode_value);
        }
        assert(
            n.attribute_opt::<Decimal>(Name::DefaultY)
                == Ok::<Option<Decimal>, DecodeErrorView>(v.default_y)
        ) by {
            reveal(Stem::encode_value);
        }
        assert(
            n.attribute_opt::<String>(Name::RelativeX)
                == Ok::<Option<Seq<char>>, DecodeErrorView>(v.relative_x)
        ) by {
            reveal(Stem::encode_value);
        }
        assert(
            n.attribute_opt::<String>(Name::RelativeY)
                == Ok::<Option<Seq<char>>, DecodeErrorView>(v.relative_y)
        ) by {
            reveal(Stem::encode_value);
        }
        reveal(Stem::decode_node);
    }

    /// Decoding gives valid values only.
    pub proof fn decoded_valid(n: NodeView)
        ensures
            Stem::decode_node(n) matches Ok(v) ==> <Stem as Element>::valid(v),
    {
        reveal(Stem::decode_node);
    }

    /// Decodes an element.
    pub fn read_node(node: &Node) -> (r: Result<Stem, DecodeError>)
        ensures
            r matches Ok(v) ==>
                Stem::decode_node(node.deep_view()) == Ok::<StemView, DecodeErrorView>(
                v.deep_view(),
            ),
            r matches Err(e) ==>
                Stem::decode_node(node.deep_view()) == Err::<StemView, DecodeErrorView>(
                e.deep_view(),
            ),
    {
        proof {
            reveal(Stem::decode_node);
        }
        let content = node.content_or::<DirectionUD>(DirectionUD::Nothing)?;
        let color = node.attribute_opt::<String>(Name::Color)?;
        let default_x = node.attribute_opt::<Decimal>(Name::DefaultX)?;
        let default_y = node.attribute_opt::<Decimal>(Name::DefaultY)?;
        let relative_x = node.attribute_opt::<String>(Name::RelativeX)?;
        let relative_y = node.attribute_opt::<String>(Name::RelativeY)?;
        Ok(Stem { content, color, default_x, default_y, relative_x, relative_y })
    }

    /// Encodes a value as an element with the given tag.
    pub fn write_node(&self, tag: &str) -> (r: Node)
        ensures
            r.deep_view() == Stem::encode_value(self.deep_view(), tag@),
    {
        proof {
            reveal(Stem::encode_value);
        }
        let mut node = Node::new(tag);
        node.put_content::<DirectionUD>(&self.content);
        node.put_scalar_opt::<String>(Name::Color, &self.color);
        node.put_scalar_opt::<Decimal>(Name::DefaultX, &self.default_x);
        node.put_scalar_opt::<Decimal>(Name::DefaultY, &self.default_y);
        node.put_scalar_opt::<String>(Name::RelativeX, &self.relative_x);
        node.put_scalar_opt::<String>(Name::RelativeY, &self.relative_y);
        node
    }
}

impl Element for Stem {
    open spec fn valid(v: StemView) -> bool {
        true
    }

    open spec fn decode(n: NodeView) -> Result<StemView, DecodeErrorView> {
        Stem::decode_node(n)
    }

    open spec fn encode(v: StemView, tag: Seq<char>) -> NodeView {
        Stem::encode_value(v, tag)
    }

    proof fn encode_tag(v: StemView, tag: Seq<char>) {
        Stem::encoded_tag(v, tag);
    }

    proof fn decode_encode(v: StemView, tag: Seq<char>) {
        Stem::round_trip(v, tag);
    }

    proof fn decode_valid(n: NodeView) {
        Stem::decoded_valid(n);
    }

    fn from_node(node: &Node) -> (r: Result<Stem, DecodeError>) {
        Stem::read_node(node)
    }

    fn to_node(&self, tag: &str) -> (r: Node) {
        self.write_node(tag)
    }
}

} // verus!
