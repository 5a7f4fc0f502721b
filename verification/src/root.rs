//! The root of a chord symbol.
use crate::codec::{Element, element_nodes, group_codec};
use crate::error::{DecodeError, DecodeErrorView};
use crate::harmony::Step;
use crate::names::Name;
use crate::node::{Node, NodeView};
use crate::printable_value::{PrintableValue, PrintableValueView};
use vstd::prelude::*;

verus! {

/// The root of a chord symbol.
#[derive(Clone, Debug, PartialEq)]
pub struct Root {
    /// The child `root-step`; with every field at its default where it is
    /// not there.
    pub step: PrintableValue<Step>,
    /// The child `root-alter`, if it is there.
    pub alter: Option<PrintableValue<u8>>,
}

/// The mathematical value of a [`Root`].
pub struct RootView {
    pub step: PrintableValueView<Step>,
    pub alter: Option<PrintableValueView<u8>>,
}

impl DeepView for Root {
    type V = RootView;

    open spec fn deep_view(&self) -> RootView {
        RootView {
            step: self.step.deep_view(),
            alter: self.alter.deep_view(),
        }
    }
}

impl Root {
    /// The value with every field at its default.
    pub open spec fn initial() -> RootView {
        RootView {
            step: PrintableValue::<Step>::initial(),
            alter: None,
        }
    }
}

impl Default for Root {
    fn default() -> (r: Root)
        ensures
            r.deep_view() == Root::initial(),
    {
        let r = Root {
            step: PrintableValue::<Step>::default(),
            alter: None,
        };
        r
    }
}

impl Root {
    /// The value that an element denotes. The fields are read in the order in
    /// which they are declared; the first one that fails gives the error.
    #[verifier::opaque]
    pub open spec fn decode_node(n: NodeView) -> Result<RootView, DecodeErrorView> {
        let step = n.element_or::<PrintableValue<Step>>(
            Name::RootStep,
            PrintableValue::<Step>::initial(),
        );
        let alter = n.element_opt::<PrintableValue<u8>>(Name::RootAlter);
        if step is Err {
            Err(step->Err_0)
        } else if alter is Err {
            Err(alter->Err_0)
        } else {
            Ok(
                RootView {
                    step: step->Ok_0,
                    alter: alter->Ok_0,
                }
            )
        }
    }

    /// The element that a value is written as.
    #[verifier::opaque]
    pub open spec fn encode_value(v: RootView, tag: Seq<char>) -> NodeView {
        NodeView::new(tag)
            .with_children(element_nodes::<PrintableValue<Step>>(Name::RootStep, Some(v.step)))
            .with_children(element_nodes::<PrintableValue<u8>>(Name::RootAlter, v.alter))
    }

    /// An encoded element bears the tag it was given.
    pub proof fn encoded_tag(v: RootView, tag: Seq<char>)
        ensures
            Root::encode_value(v, tag).tag == tag,
    {
        broadcast use group_codec;

        reveal(Root::encode_value);
    }

    /// Decoding what was encoded gives the value back.
    pub proof fn round_trip(v: RootView, tag: Seq<char>)
        requires
            <Root as Element>::valid(v),
        ensures
            Root::decode_node(Root::encode_value(v, tag)) == Ok::<RootView, DecodeErrorView>(v),
    {
        broadcast use group_codec;

        let n = Root::encode_value(v, tag);
        assert(
            n.element_or::<PrintableValue<Step>>(Name::RootStep, PrintableValue::<Step>::initial())
                == Ok::<PrintableValueView<Step>, DecodeErrorView>(v.step)
        ) by {
            reveal(Root::encode_value);
            reveal(NodeView::element_or);
            reveal(NodeView::element_opt);
            reveal(NodeView::only_child);
            PrintableValue::<Step>::decode_encode(v.step, Name::RootStep.text());
        }
        assert(
            n.element_opt::<PrintableValue<u8>>(Name::RootAlter)
                == Ok::<Option<PrintableValueView<u8>>, DecodeErrorView>(v.alter)
        ) by {
            reveal(Root::encode_value);
            reveal(NodeView::element_opt);
            reveal(NodeView::only_child);
            if let Some(x) = v.alter {
                PrintableValue::<u8>::decode_encode(x, Name::RootAlter.text());
            }
        }
        reveal(Root::decode_node);
    }

    /// Decoding gives valid values only.
    pub proof fn decoded_valid(n: NodeView)
        ensures
            Root::decode_node(n) matches Ok(v) ==> <Root as Element>::valid(v),
    {
        reveal(Root::decode_node);
        reveal(NodeView::element_or);
        reveal(NodeView::element_opt);
        if let Ok(Some(c)) = n.only_child(Name::RootStep) {
            PrintableValue::<Step>::decode_valid(c);
        }
        if let Ok(Some(c)) = n.only_child(Name::RootAlter) {
            PrintableValue::<u8>::decode_valid(c);
        }
    }

    /// Decodes an element.
    pub fn read_node(node: &Node) -> (r: Result<Root, DecodeError>)
        ensures
            r matches Ok(v) ==>
                Root::decode_node(node.deep_view()) == Ok::<RootView, DecodeErrorView>(
                v.deep_view(),
            ),
            r matches Err(e) ==>
                Root::decode_node(node.deep_view()) == Err::<RootView, DecodeErrorView>(
                e.deep_view(),
            ),
    {
        proof {
            reveal(Root::decode_node);
        }
        let step = node.element_or::<PrintableValue<Step>>(
            Name::RootStep,
            PrintableValue::<Step>::default(),
        )?;
        let alter = node.element_opt::<PrintableValue<u8>>(Name::RootAlter)?;
        Ok(Root { step, alter })
    }

    /// Encodes a value as an element with the given tag.
    pub fn write_node(&self, tag: &str) -> (r: Node)
        ensures
            r.deep_view() == Root::encode_value(self.deep_view(), tag@),
    {
        proof {
            reveal(Root::encode_value);
        }
        let mut node = Node::new(tag);
        node.put_element::<PrintableValue<Step>>(Name::RootStep, &self.step);
        node.put_element_opt::<PrintableValue<u8>>(Name::RootAlter, &self.alter);
        node
    }
}

impl Element for Root {
    open spec fn valid(v: RootView) -> bool {
        &&& PrintableValue::<Step>::valid(v.step)
        &&& (v.alter matches Some(x) ==> PrintableValue::<u8>::valid(x))
    }

    open spec fn decode(n: NodeView) -> Result<RootView, DecodeErrorView> {
        Root::decode_node(n)
    }

    open spec fn encode(v: RootView, tag: Seq<char>) -> NodeView {
        Root::encode_value(v, tag)
    }

    proof fn encode_tag(v: RootView, tag: Seq<char>) {
        Root::encoded_tag(v, tag);
    }

    proof fn decode_encode(v: RootView, tag: Seq<char>) {
        Root::round_trip(v, tag);
    }

    proof fn decode_valid(n: NodeView) {
        Root::decoded_valid(n);
    }

    fn from_node(node: &Node) -> (r: Result<Root, DecodeError>) {
        Root::read_node(node)
    }

    fn to_node(&self, tag: &str) -> (r: Node) {
        self.write_node(tag)
    }
}

} // verus!
