//! Display of the name of a part.
use crate::codec::{Element, element_nodes, group_codec};
use crate::error::{DecodeError, DecodeErrorView};
use crate::names::Name;
use crate::node::{Node, NodeView};
use crate::printable_value::{PrintableValue, PrintableValueView};
use vstd::prelude::*;

verus! {

/// How the name of a part is displayed.
#[derive(Clone, Debug, PartialEq)]
pub struct PartDisplay {
    /// The child `display-text`, if it is there.
    pub display_text: Option<PrintableValue<String>>,
    /// The child `accidental-text`, if it is there.
    pub accidental_text: Option<PrintableValue<String>>,
}

/// The mathematical value of a [`PartDisplay`].
pub struct PartDisplayView {
    pub display_text: Option<PrintableValueView<Seq<char>>>,
    pub accidental_text: Option<PrintableValueView<Seq<char>>>,
}

impl DeepView for PartDisplay {
    type V = PartDisplayView;

    open spec fn deep_view(&self) -> PartDisplayView {
        PartDisplayView {
            display_text: self.display_text.deep_view(),
            accidental_text: self.accidental_text.deep_view(),
        }
    }
}

impl PartDisplay {
    /// The value that an element denotes. The fields are read in the order in
    /// which they are declared; the first one that fails gives the error.
    #[verifier::opaque]
    pub open spec fn decode_node(n: NodeView) -> Result<PartDisplayView, DecodeErrorView> {
        let display_text = n.element_opt::<PrintableValue<String>>(Name::DisplayText);
        let accidental_text = n.element_opt::<PrintableValue<String>>(Name::AccidentalText);
        if display_text is Err {
            Err(display_text->Err_0)
        } else if accidental_text is Err {
            Err(accidental_text->Err_0)
        } else {
            Ok(
                PartDisplayView {
                    display_text: display_text->Ok_0,
                    accidental_text: accidental_text->Ok_0,
                }
            )
        }
    }

    /// The element that a value is written as.
    #[verifier::opaque]
    pub open spec fn encode_value(v: PartDisplayView, tag: Seq<char>) -> NodeView {
        NodeView::new(tag)
            .with_children(
                element_nodes::<PrintableValue<String>>(Name::DisplayText, v.display_text),
            )
            .with_children(
                element_nodes::<PrintableValue<String>>(Name::AccidentalText, v.accidental_text),
            )
    }

    /// An encoded element bears the tag it was given.
    pub proof fn encoded_tag(v: PartDisplayView, tag: Seq<char>)
        ensures
            PartDisplay::encode_value(v, tag).tag == tag,
    {
        broadcast use group_codec;

        reveal(PartDisplay::encode_value);
    }

    /// Decoding what was encoded gives the value back.
    pub proof fn round_trip(v: PartDisplayView, tag: Seq<char>)
        requires
            <PartDisplay as Element>::valid(v),
        ensures
            PartDisplay::decode_node(PartDisplay::encode_value(v, tag))
                == Ok::<PartDisplayView, DecodeErrorView>(v),
    {
        broadcast use group_codec;

        let n = PartDisplay::encode_value(v, tag);
        assert(
            n.element_opt::<PrintableValue<String>>(Name::DisplayText)
                == Ok::<Option<PrintableValueView<Seq<char>>>, DecodeErrorView>(v.display_text)
        ) by {
            reveal(PartDisplay::encode_value);
            reveal(NodeView::element_opt);
            reveal(NodeView::only_child);
            if let Some(x) = v.display_text {
                PrintableValue::<String>::decode_encode(x, Name::DisplayText.text());
            }
        }
        assert(
            n.element_opt::<PrintableValue<String>>(Name::AccidentalText)
                == Ok::<Option<PrintableValueView<Seq<char>>>, DecodeErrorView>(v.accidental_text)
        ) by {
            reveal(PartDisplay::encode_value);
            reveal(NodeView::element_opt);
            reveal(NodeView::only_child);
            if let Some(x) = v.accidental_text {
                PrintableValue::<String>::decode_encode(x, Name::AccidentalText.text());
            }
        }
        reveal(PartDisplay::decode_node);
    }

    /// Decoding gives valid values only.
    pub proof fn decoded_valid(n: NodeView)
        ensures
            PartDisplay::decode_node(n) matches Ok(v) ==> <PartDisplay as Element>::valid(v),
    {
        reveal(PartDisplay::decode_node);
        reveal(NodeView::element_opt);
        if let Ok(Some(c)) = n.only_child(Name::DisplayText) {
            PrintableValue::<String>::decode_valid(c);
        }
        if let Ok(Some(c)) = n.only_child(Name::AccidentalText) {
            PrintableValue::<String>::decode_valid(c);
        }
    }

    /// Decodes an element.
    pub fn read_node(node: &Node) -> (r: Result<PartDisplay, DecodeError>)
        ensures
            r matches Ok(v) ==>
                PartDisplay::decode_node(node.deep_view())
                    == Ok::<PartDisplayView, DecodeErrorView>(
                v.deep_view(),
            ),
            r matches Err(e) ==>
                PartDisplay::decode_node(node.deep_view())
                    == Err::<PartDisplayView, DecodeErrorView>(
                e.deep_view(),
            ),
    {
        proof {
            reveal(PartDisplay::decode_node);
        }
        let display_text = node.element_opt::<PrintableValue<String>>(Name::DisplayText)?;
        let accidental_text = node.element_opt::<PrintableValue<String>>(Name::AccidentalText)?;
        Ok(PartDisplay { display_text, accidental_text })
    }

    /// Encodes a value as an element with the given tag.
    pub fn write_node(&self, tag: &str) -> (r: Node)
        ensures
            r.deep_view() == PartDisplay::encode_value(self.deep_view(), tag@),
    {
        proof {
            reveal(PartDisplay::encode_value);
        }
        let mut node = Node::new(tag);
        node.put_element_opt::<PrintableValue<String>>(Name::DisplayText, &self.display_text);
        node.put_element_opt::<PrintableValue<String>>(Name::AccidentalText, &self.accidental_text);
        node
    }
}

impl Element for PartDisplay {
    open spec fn valid(v: PartDisplayView) -> bool {
        &&& (v.display_text matches Some(x) ==> PrintableValue::<String>::valid(x))
        &&& (v.accidental_text matches Some(x) ==> PrintableValue::<String>::valid(x))
    }

    open spec fn decode(n: NodeView) -> Result<PartDisplayView, DecodeErrorView> {
        PartDisplay::decode_node(n)
    }

    open spec fn encode(v: PartDisplayView, tag: Seq<char>) -> NodeView {
        PartDisplay::encode_value(v, tag)
    }

    proof fn encode_tag(v: PartDisplayView, tag: Seq<char>) {
        PartDisplay::encoded_tag(v, tag);
    }

    proof fn decode_encode(v: PartDisplayView, tag: Seq<char>) {
        PartDisplay::round_trip(v, tag);
    }

    proof fn decode_valid(n: NodeView) {
        PartDisplay::decoded_valid(n);
    }

    fn from_node(node: &Node) -> (r: Result<PartDisplay, DecodeError>) {
        PartDisplay::read_node(node)
    }

    fn to_node(&self, tag: &str) -> (r: Node) {
        self.write_node(tag)
    }
}

} // verus!
