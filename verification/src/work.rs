//! Works.
use crate::codec::{Element, group_codec, text_nodes};
use crate::error::{DecodeError, DecodeErrorView};
use crate::names::Name;
use crate::node::{Node, NodeView};
use vstd::prelude::*;

verus! {

/// The work that a score belongs to.
#[derive(Clone, Debug, PartialEq)]
pub struct Work {
    /// The text of the child `title`; the empty text where the child is not
    /// there.
    pub title: String,
}

/// The mathematical value of a [`Work`].
pub struct WorkView {
    pub title: Seq<char>,
}

impl DeepView for Work {
    type V = WorkView;

    open spec fn deep_view(&self) -> WorkView {
        WorkView {
            title: self.title.deep_view(),
        }
    }
}

impl Work {
    /// The value that an element denotes. The fields are read in the order in
    /// which they are declared; the first one that fails gives the error.
    #[verifier::opaque]
    pub open spec fn decode_node(n: NodeView) -> Result<WorkView, DecodeErrorView> {
        let title = n.text_or::<String>(Name::Title, Seq::<char>::empty());
        if title is Err {
            Err(title->Err_0)
        } else {
            Ok(
                WorkView {
                    title: title->Ok_0,
                }
            )
        }
    }

    /// The element that a value is written as.
    #[verifier::opaque]
    pub open spec fn encode_value(v: WorkView, tag: Seq<char>) -> NodeView {
        NodeView::new(tag)
            .with_children(text_nodes::<String>(Name::Title, Some(v.title)))
    }

    /// An encoded element bears the tag it was given.
    pub proof fn encoded_tag(v: WorkView, tag: Seq<char>)
        ensures
            Work::encode_value(v, tag).tag == tag,
    {
        broadcast use group_codec;

        reveal(Work::encode_value);
    }

    /// Decoding what was encoded gives the value back.
    pub proof fn round_trip(v: WorkView, tag: Seq<char>)
        requires
            <Work as Element>::valid(v),
        ensures
            Work::decode_node(Work::encode_value(v, tag)) == Ok::<WorkView, DecodeErrorView>(v),
    {
        broadcast use group_codec;

        let n = Work::encode_value(v, tag);
        assert(
            n.text_or::<String>(Name::Title, Seq::<char>::empty())
                == Ok::<Seq<char>, DecodeErrorView>(v.title)
        ) by {
            reveal(Work::encode_value);
            reveal(NodeView::text_or);
            reveal(NodeView::text_opt);
            reveal(NodeView::only_child);
            reveal(NodeView::content);
        }
        reveal(Work::decode_node);
    }

    /// Decoding gives valid values only.
    pub proof fn decoded_valid(n: NodeView)
        ensures
            Work::decode_node(n) matches Ok(v) ==> <Work as Element>::valid(v),
    {
        reveal(Work::decode_node);
    }

    /// Decodes an element.
    pub fn read_node(node: &Node) -> (r: Result<Work, DecodeError>)
        ensures
            r matches Ok(v) ==>
                Work::decode_node(node.deep_view()) == Ok::<WorkView, DecodeErrorView>(
                v.deep_view(),
            ),
            r matches Err(e) ==>
                Work::decode_node(node.deep_view()) == Err::<WorkView, DecodeErrorView>(
                e.deep_view(),
            ),
    {
        proof {
            reveal(Work::decode_node);
        }
        let title = node.text_or::<String>(Name::Title, String::new())?;
        Ok(Work { title })
    }

    /// Encodes a value as an element with the given tag.
    pub fn write_node(&self, tag: &str) -> (r: Node)
        ensures
            r.deep_view() == Work::encode_value(self.deep_view(), tag@),
    {
        proof {
            reveal(Work::encode_value);
        }
        let mut node = Node::new(tag);
        node.put_text::<String>(Name::Title, &self.title);
        node
    }
}

impl Element for Work {
    open spec fn valid(v: WorkView) -> bool {
        true
    }

    open spec fn decode(n: NodeView) -> Result<WorkView, DecodeErrorView> {
        Work::decode_node(n)
    }

    open spec fn encode(v: WorkView, tag: Seq<char>) -> NodeView {
        Work::encode_value(v, tag)
    }

    proof fn encode_tag(v: WorkView, tag: Seq<char>) {
        Work::encoded_tag(v, tag);
    }

    proof fn decode_encode(v: WorkView, tag: Seq<char>) {
        Work::round_trip(v, tag);
    }

    proof fn decode_valid(n: NodeView) {
        Work::decoded_valid(n);
    }

    fn from_node(node: &Node) -> (r: Result<Work, DecodeError>) {
        Work::read_node(node)
    }

    fn to_node(&self, tag: &str) -> (r: Node) {
        self.write_node(tag)
    }
}

} // verus!
