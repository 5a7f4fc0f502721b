//! Bodies of parts.
use crate::codec::{
    all_valid, Element, encode_elements, group_codec, lemma_decode_elements_valid,
    lemma_decode_encode_elements,
};
use crate::error::{DecodeError, DecodeErrorView};
use crate::measure::{Measure, MeasureView};
use crate::names::Name;
use crate::node::{Node, NodeView};
use vstd::prelude::*;

verus! {

/// The body of a part: its id and its measures.
#[derive(Clone, Debug, PartialEq)]
pub struct Part {
    /// The attribute `id`; the empty text where it is not written.
    pub id: String,
    /// The children `measure`, in document order.
    pub measures: Vec<Measure>,
}

/// The mathematical value of a [`Part`].
pub struct PartView {
    pub id: Seq<char>,
    pub measures: Seq<MeasureView>,
}

impl DeepView for Part {
    type V = PartView;

    open spec fn deep_view(&self) -> PartView {
        PartView {
            id: self.id.deep_view(),
            measures: self.measures.deep_view(),
        }
    }
}

impl Part {
    /// The value with every field at its default.
    pub open spec fn initial() -> PartView {
        PartView {
            id: Seq::<char>::empty(),
            measures: Seq::empty(),
        }
    }
}

impl Default for Part {
    fn default() -> (r: Part)
        ensures
            r.deep_view() == Part::initial(),
    {
        let r = Part {
            id: String::new(),
            measures: Vec::new(),
        };
        proof {
            assert(r.measures.deep_view() =~= Seq::empty());
        }
        r
    }
}

impl Part {
    /// The value that an element denotes. The fields are read in the order in
    /// which they are declared; the first one that fails gives the error.
    #[verifier::opaque]
    pub open spec fn decode_node(n: NodeView) -> Result<PartView, DecodeErrorView> {
        let id = n.attribute_or::<String>(Name::Id, Seq::<char>::empty());
        let measures = n.elements::<Measure>(Name::Measure);
        if id is Err {
            Err(id->Err_0)
        } else if measures is Err {
            Err(measures->Err_0)
        } else {
            Ok(
                PartView {
                    id: id->Ok_0,
                    measures: measures->Ok_0,
                }
            )
        }
    }

    /// The element that a value is written as.
    #[verifier::opaque]
    pub open spec fn encode_value(v: PartView, tag: Seq<char>) -> NodeView {
        NodeView::new(tag)
            .with_scalar::<String>(Name::Id, v.id)
            .with_children(encode_elements::<Measure>(Name::Measure, v.measures))
    }

    /// An encoded element bears the tag it was given.
    pub proof fn encoded_tag(v: PartView, tag: Seq<char>)
        ensures
            Part::encode_value(v, tag).tag == tag,
    {
        broadcast use group_codec;

        reveal(Part::encode_value);
    }

    /// Decoding what was encoded gives the value back.
    pub proof fn round_trip(v: PartView, tag: Seq<char>)
        requires
            <Part as Element>::valid(v),
        ensures
            Part::decode_node(Part::encode_value(v, tag)) == Ok::<PartView, DecodeErrorView>(v),
    {
        broadcast use group_codec;

        let n = Part::encode_value(v, tag);
        assert(
            n.attribute_or::<String>(Name::Id, Seq::<char>::empty())
                == Ok::<Seq<char>, DecodeErrorView>(v.id)
        ) by {
            reveal(Part::encode_value);
        }
        assert(
            n.elements::<Measure>(Name::Measure)
                == Ok::<Seq<MeasureView>, DecodeErrorView>(v.measures)
        ) by {
            reveal(Part::encode_value);
            reveal(NodeView::elements);
            lemma_decode_encode_elements::<Measure>(Name::Measure, v.measures, tag);
        }
        reveal(Part::decode_node);
    }

    /// Decoding gives valid values only.
    pub proof fn decoded_valid(n: NodeView)
        ensures
            Part::decode_node(n) matches Ok(v) ==> <Part as Element>::valid(v),
    {
        reveal(Part::decode_node);
        reveal(NodeView::elements);
        lemma_decode_elements_valid::<Measure>(n.children_with_tag(Name::Measure.text()), n.tag);
    }

    /// Decodes an element.
    pub fn read_node(node: &Node) -> (r: Result<Part, DecodeError>)
        ensures
            r matches Ok(v) ==>
                Part::decode_node(node.deep_view()) == Ok::<PartView, DecodeErrorView>(
                v.deep_view(),
            ),
            r matches Err(e) ==>
                Part::decode_node(node.deep_view()) == Err::<PartView, DecodeErrorView>(
                e.deep_view(),
            ),
    {
        proof {
            reveal(Part::decode_node);
        }
        let id = node.attribute_or::<String>(Name::Id, String::new())?;
        let measures = node.elements::<Measure>(Name::Measure)?;
        Ok(Part { id, measures })
    }

    /// Encodes a value as an element with the given tag.
    pub fn write_node(&self, tag: &str) -> (r: Node)
        ensures
            r.deep_view() == Part::encode_value(self.deep_view(), tag@),
    {
        proof {
            reveal(Part::encode_value);
        }
        let mut node = Node::new(tag);
        node.put_scalar::<String>(Name::Id, &self.id);
        node.put_elements::<Measure>(Name::Measure, &self.measures);
        node
    }
}

impl Element for Part {
    open spec fn valid(v: PartView) -> bool {
        &&& all_valid::<Measure>(v.measures)
    }

    open spec fn decode(n: NodeView) -> Result<PartView, DecodeErrorView> {
        Part::decode_node(n)
    }

    open spec fn encode(v: PartView, tag: Seq<char>) -> NodeView {
        Part::encode_value(v, tag)
    }

    proof fn encode_tag(v: PartView, tag: Seq<char>) {
        Part::encoded_tag(v, tag);
    }

    proof fn decode_encode(v: PartView, tag: Seq<char>) {
        Part::round_trip(v, tag);
    }

    proof fn decode_valid(n: NodeView) {
        Part::decoded_valid(n);
    }

    fn from_node(node: &Node) -> (r: Result<Part, DecodeError>) {
        Part::read_node(node)
    }

    fn to_node(&self, tag: &str) -> (r: Node) {
        self.write_node(tag)
    }
}

} // verus!
