//! Layout of a staff.
use crate::codec::{Element, group_codec, text_nodes};
use crate::decimal::Decimal;
use crate::error::{DecodeError, DecodeErrorView};
use crate::names::Name;
use crate::node::{Node, NodeView};
use crate::scalar::Scalar;
use vstd::prelude::*;

verus! {

/// The layout of a staff.
#[derive(Clone, Copy, Debug, PartialEq, Eq)]
pub struct StaffLayout {
    /// The text of the child `staff-distance`, if the child is there.
    pub staff_distance: Option<Decimal>,
    /// The attribute `number`, if it is written.
    pub number: Option<u8>,
}

impl DeepView for StaffLayout {
    type V = StaffLayout;

    open spec fn deep_view(&self) -> StaffLayout {
        StaffLayout {
            staff_distance: self.staff_distance.deep_view(),
            number: self.number.deep_view(),
        }
    }
}

impl StaffLayout {
    /// The value with every field at its default.
    pub open spec fn initial() -> StaffLayout {
        StaffLayout {
            staff_distance: None,
            number: None,
        }
    }
}

impl Default for StaffLayout {
    fn default() -> (r: StaffLayout)
        ensures
            r.deep_view() == StaffLayout::initial(),
    {
        let r = StaffLayout {
            staff_distance: None,
            number: None,
        };
        r
    }
}

impl StaffLayout {
    /// The value that an element denotes. The fields are read in the order in
    /// which they are declared; the first one that fails gives the error.
    #[verifier::opaque]
    pub open spec fn decode_node(n: NodeView) -> Result<StaffLayout, DecodeErrorView> {
        let staff_distance = n.text_opt::<Decimal>(Name::StaffDistance);
        let number = n.attribute_opt::<u8>(Name::Number);
        if staff_distance is Err {
            Err(staff_distance->Err_0)
        } else if number is Err {
            Err(number->Err_0)
        } else {
            Ok(
                StaffLayout {
                    staff_distance: staff_distance->Ok_0,
                    number: number->Ok_0,
                }
            )
        }
    }

    /// The element that a value is written as.
    #[verifier::opaque]
    pub open spec fn encode_value(v: StaffLayout, tag: Seq<char>) -> NodeView {
        NodeView::new(tag)
            .with_children(text_nodes::<Decimal>(Name::StaffDistance, v.staff_distance))
            .with_scalar_opt::<u8>(Name::Number, v.number)
    }

    /// An encoded element bears the tag it was given.
    pub proof fn encoded_tag(v: StaffLayout, tag: Seq<char>)
        ensures
            StaffLayout::encode_value(v, tag).tag == tag,
    {
        broadcast use group_codec;

        reveal(StaffLayout::encode_value);
    }

    /// Decoding what was encoded gives the value back.
    pub proof fn round_trip(v: StaffLayout, tag: Seq<char>)
        requires
            <StaffLayout as Element>::valid(v),
        ensures
            StaffLayout::decode_node(StaffLayout::encode_value(v, tag))
                == Ok::<StaffLayout, DecodeErrorView>(v),
    {
        broadcast use group_codec;

        let n = StaffLayout::encode_value(v, tag);
        assert(
            n.text_opt::<Decimal>(Name::StaffDistance)
                == Ok::<Option<Decimal>, DecodeErrorView>(v.staff_distance)
        ) by {
            reveal(StaffLayout::encode_value);
            reveal(NodeView::text_opt);
            reveal(NodeView::only_child);
            reveal(NodeView::content);
            if let Some(x) = v.staff_distance {
                Decimal::parse_text(x);
            }
        }
        assert(
            n.attribute_opt::<u8>(Name::Number)
                == Ok::<Option<u8>, DecodeErrorView>(v.number)
        ) by {
            reveal(StaffLayout::encode_value);
        }
        reveal(StaffLayout::decode_node);
    }

    /// Decoding gives valid values only.
    pub proof fn decoded_valid(n: NodeView)
        ensures
            StaffLayout::decode_node(n) matches Ok(v) ==> <StaffLayout as Element>::valid(v),
    {
        reveal(StaffLayout::decode_node);
    }

    /// Decodes an element.
    pub fn read_node(node: &Node) -> (r: Result<StaffLayout, DecodeError>)
        ensures
            r matches Ok(v) ==>
                StaffLayout::decode_node(node.deep_view()) == Ok::<StaffLayout, DecodeErrorView>(
                v.deep_view(),
            ),
            r matches Err(e) ==>
                StaffLayout::decode_node(node.deep_view()) == Err::<StaffLayout, DecodeErrorView>(
                e.deep_view(),
            ),
    {
        proof {
            reveal(StaffLayout::decode_node);
        }
        let staff_distance = node.text_opt::<Decimal>(Name::StaffDistance)?;
        let number = node.attribute_opt::<u8>(Name::Number)?;
        Ok(StaffLayout { staff_distance, number })
    }

    /// Encodes a value as an element with the given tag.
    pub fn write_node(&self, tag: &str) -> (r: Node)
        ensures
            r.deep_view() == StaffLayout::encode_value(self.deep_view(), tag@),
    {
        proof {
            reveal(StaffLayout::encode_value);
        }
        let mut node = Node::new(tag);
        node.put_text_opt::<Decimal>(Name::StaffDistance, &self.staff_distance);
        node.put_scalar_opt::<u8>(Name::Number, &self.number);
        node
    }
}

impl Element for StaffLayout {
    open spec fn valid(v: StaffLayout) -> bool {
        true
    }

    open spec fn decode(n: NodeView) -> Result<StaffLayout, DecodeErrorView> {
        StaffLayout::decode_node(n)
    }

    open spec fn encode(v: StaffLayout, tag: Seq<char>) -> NodeView {
        StaffLayout::encode_value(v, tag)
    }

    proof fn encode_tag(v: StaffLayout, tag: Seq<char>) {
        StaffLayout::encoded_tag(v, tag);
    }

    proof fn decode_encode(v: StaffLayout, tag: Seq<char>) {
        StaffLayout::round_trip(v, tag);
    }

    proof fn decode_valid(n: NodeView) {
        StaffLayout::decoded_valid(n);
    }

    fn from_node(node: &Node) -> (r: Result<StaffLayout, DecodeError>) {
        StaffLayout::read_node(node)
    }

    fn to_node(&self, tag: &str) -> (r: Node) {
        self.write_node(tag)
    }
}

} // verus!
