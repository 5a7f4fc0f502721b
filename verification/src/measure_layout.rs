//! Layout of a measure.
use crate::codec::{Element, group_codec, text_nodes};
use crate::decimal::Decimal;
use crate::error::{DecodeError, DecodeErrorView};
use crate::names::Name;
use crate::node::{Node, NodeView};
use crate::scalar::Scalar;
use vstd::prelude::*;

verus! {

/// The layout of a measure.
#[derive(Clone, Copy, Debug, PartialEq, Eq)]
pub struct MeasureLayout {
    /// The text of the child `measure-distance`, if the child is there.
    pub measure_distance: Option<Decimal>,
}

impl DeepView for MeasureLayout {
    type V = MeasureLayout;

    open spec fn deep_view(&self) -> MeasureLayout {
        MeasureLayout {
            measure_distance: self.measure_distance.deep_view(),
        }
    }
}

impl MeasureLayout {
    /// The value with every field at its default.
    pub open spec fn initial() -> MeasureLayout {
        MeasureLayout {
            measure_distance: None,
        }
    }
}

impl Default for MeasureLayout {
    fn default() -> (r: MeasureLayout)
        ensures
            r.deep_view() == MeasureLayout::initial(),
    {
        let r = MeasureLayout {
            measure_distance: None,
        };
        r
    }
}

impl MeasureLayout {
    /// The value that an element denotes. The fields are read in the order in
    /// which they are declared; the first one that fails gives the error.
    #[verifier::opaque]
    pub open spec fn decode_node(n: NodeView) -> Result<MeasureLayout, DecodeErrorView> {
        let measure_distance = n.text_opt::<Decimal>(Name::MeasureDistance);
        if measure_distance is Err {
            Err(measure_distance->Err_0)
        } else {
            Ok(
                MeasureLayout {
                    measure_distance: measure_distance->Ok_0,
                }
            )
        }
    }

    /// The element that a value is written as.
    #[verifier::opaque]
    pub open spec fn encode_value(v: MeasureLayout, tag: Seq<char>) -> NodeView {
        NodeView::new(tag)
            .with_children(text_nodes::<Decimal>(Name::MeasureDistance, v.measure_distance))
    }

    /// An encoded element bears the tag it was given.
    pub proof fn encoded_tag(v: MeasureLayout, tag: Seq<char>)
        ensures
            MeasureLayout::encode_value(v, tag).tag == tag,
    {
        broadcast use group_codec;

        reveal(MeasureLayout::encode_value);
    }

    /// Decoding what was encoded gives the value back.
    pub proof fn round_trip(v: MeasureLayout, tag: Seq<char>)
        requires
            <MeasureLayout as Element>::valid(v),
        ensures
            MeasureLayout::decode_node(MeasureLayout::encode_value(v, tag))
                == Ok::<MeasureLayout, DecodeErrorView>(v),
    {
        broadcast use group_codec;

        let n = MeasureLayout::encode_value(v, tag);
        assert(
            n.text_opt::<Decimal>(Name::MeasureDistance)
                == Ok::<Option<Decimal>, DecodeErrorView>(v.measure_distance)
        ) by {
            reveal(MeasureLayout::encode_value);
            reveal(NodeView::text_opt);
            reveal(NodeView::only_child);
            reveal(NodeView::content);
            if let Some(x) = v.measure_distance {
                Decimal::parse_text(x);
            }
        }
        reveal(MeasureLayout::decode_node);
    }

    /// Decoding gives valid values only.
    pub proof fn decoded_valid(n: NodeView)
        ensures
            MeasureLayout::decode_node(n) matches Ok(v) ==> <MeasureLayout as Element>::valid(v),
    {
        reveal(MeasureLayout::decode_node);
    }

    /// Decodes an element.
    pub fn read_node(node: &Node) -> (r: Result<MeasureLayout, DecodeError>)
        ensures
            r matches Ok(v) ==>
                MeasureLayout::decode_node(node.deep_view())
                    == Ok::<MeasureLayout, DecodeErrorView>(
                v.deep_view(),
            ),
            r matches Err(e) ==>
                MeasureLayout::decode_node(node.deep_view())
                    == Err::<MeasureLayout, DecodeErrorView>(
                e.deep_view(),
            ),
    {
        proof {
            reveal(MeasureLayout::decode_node);
        }
        let measure_distance = node.text_opt::<Decimal>(Name::MeasureDistance)?;
        Ok(MeasureLayout { measure_distance })
    }

    /// Encodes a value as an element with the given tag.
    pub fn write_node(&self, tag: &str) -> (r: Node)
        ensures
            r.deep_view() == MeasureLayout::encode_value(self.deep_view(), tag@),
    {
        proof {
            reveal(MeasureLayout::encode_value);
        }
        let mut node = Node::new(tag);
        node.put_text_opt::<Decimal>(Name::MeasureDistance, &self.measure_distance);
        node
    }
}

impl Element for MeasureLayout {
    open spec fn valid(v: MeasureLayout) -> bool {
        true
    }

    open spec fn decode(n: NodeView) -> Result<MeasureLayout, DecodeErrorView> {
        MeasureLayout::decode_node(n)
    }

    open spec fn encode(v: MeasureLayout, tag: Seq<char>) -> NodeView {
        MeasureLayout::encode_value(v, tag)
    }

    proof fn encode_tag(v: MeasureLayout, tag: Seq<char>) {
        MeasureLayout::encoded_tag(v, tag);
    }

    proof fn decode_encode(v: MeasureLayout, tag: Seq<char>) {
        MeasureLayout::round_trip(v, tag);
    }

    proof fn decode_valid(n: NodeView) {
        MeasureLayout::decoded_valid(n);
    }

    fn from_node(node: &Node) -> (r: Result<MeasureLayout, DecodeError>) {
        MeasureLayout::read_node(node)
    }

    fn to_node(&self, tag: &str) -> (r: Node) {
        self.write_node(tag)
    }
}

} // verus!
