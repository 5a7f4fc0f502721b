//! Credits.
use crate::codec::{Element, element_nodes, group_codec, text_nodes};
use crate::error::{DecodeError, DecodeErrorView};
use crate::names::Name;
use crate::node::{Node, NodeView};
use crate::printable_value::{PrintableValue, PrintableValueView};
use vstd::prelude::*;

verus! {

/// Text that appears on a page of the score.
#[derive(Clone, Debug, PartialEq)]
pub struct Credit {
    /// The text of the child `credit-type`, if the child is there.
    pub credit_type: Option<String>,
    /// The child `credit-words`, if it is there.
    pub credit_words: Option<PrintableValue<String>>,
}

/// The mathematical value of a [`Credit`].
pub struct CreditView {
    pub credit_type: Option<Seq<char>>,
    pub credit_words: Option<PrintableValueView<Seq<char>>>,
}

impl DeepView for Credit {
    type V = CreditView;

    open spec fn deep_view(&self) -> CreditView {
        CreditView {
            credit_type: self.credit_type.deep_view(),
            credit_words: self.credit_words.deep_view(),
        }
    }
}

impl Credit {
    /// The value that an element denotes. The fields are read in the order in
    /// which they are declared; the first one that fails gives the error.
    #[verifier::opaque]
    pub open spec fn decode_node(n: NodeView) -> Result<CreditView, DecodeErrorView> {
        let credit_type = n.text_opt::<String>(Name::CreditType);
        let credit_words = n.element_opt::<PrintableValue<String>>(Name::CreditWords);
        if credit_type is Err {
            Err(credit_type->Err_0)
        } else if credit_words is Err {
            Err(credit_words->Err_0)
        } else {
            Ok(
                CreditView {
                    credit_type: credit_type->Ok_0,
                    credit_words: credit_words->Ok_0,
                }
            )
        }
    }

    /// The element that a value is written as.
    #[verifier::opaque]
    pub open spec fn encode_value(v: CreditView, tag: Seq<char>) -> NodeView {
        NodeView::new(tag)
            .with_children(text_nodes::<String>(Name::CreditType, v.credit_type))
            .with_children(
                element_nodes::<PrintableValue<String>>(Name::CreditWords, v.credit_words),
            )
    }

    /// An encoded element bears the tag it was given.
    pub proof fn encoded_tag(v: CreditView, tag: Seq<char>)
        ensures
            Credit::encode_value(v, tag).tag == tag,
    {
        broadcast use group_codec;

        reveal(Credit::encode_value);
    }

    /// Decoding what was encoded gives the value back.
    pub proof fn round_trip(v: CreditView, tag: Seq<char>)
        requires
            <Credit as Element>::valid(v),
        ensures
            Credit::decode_node(Credit::encode_value(v, tag))
                == Ok::<CreditView, DecodeErrorView>(v),
    {
        broadcast use group_codec;

        let n = Credit::encode_value(v, tag);
        assert(
            n.text_opt::<String>(Name::CreditType)
                == Ok::<Option<Seq<char>>, DecodeErrorView>(v.credit_type)
        ) by {
            reveal(Credit::encode_value);
            reveal(NodeView::text_opt);
            reveal(NodeView::only_child);
            reveal(NodeView::content);
        }
        assert(
            n.element_opt::<PrintableValue<String>>(Name::CreditWords)
                == Ok::<Option<PrintableValueView<Seq<char>>>, DecodeErrorView>(v.credit_words)
        ) by {
            reveal(Credit::encode_value);
            reveal(NodeView::element_opt);
            reveal(NodeView::only_child);
            if let Some(x) = v.credit_words {
                PrintableValue::<String>::decode_encode(x, Name::CreditWords.text());
            }
        }
        reveal(Credit::decode_node);
    }

    /// Decoding gives valid values only.
    pub proof fn decoded_valid(n: NodeView)
        ensures
            Credit::decode_node(n) matches Ok(v) ==> <Credit as Element>::valid(v),
    {
        reveal(Credit::decode_node);
        reveal(NodeView::element_opt);
        if let Ok(Some(c)) = n.only_child(Name::CreditWords) {
            PrintableValue::<String>::decode_valid(c);
        }
    }

    /// Decodes an element.
    pub fn read_node(node: &Node) -> (r: Result<Credit, DecodeError>)
        ensures
            r matches Ok(v) ==>
                Credit::decode_node(node.deep_view()) == Ok::<CreditView, DecodeErrorView>(
                v.deep_view(),
            ),
            r matches Err(e) ==>
                Credit::decode_node(node.deep_view()) == Err::<CreditView, DecodeErrorView>(
                e.deep_view(),
            ),
    {
        proof {
            reveal(Credit::decode_node);
        }
        let credit_type = node.text_opt::<String>(Name::CreditType)?;
        let credit_words = node.element_opt::<PrintableValue<String>>(Name::CreditWords)?;
        Ok(Credit { credit_type, credit_words })
    }

    /// Encodes a value as an element with the given tag.
    pub fn write_node(&self, tag: &str) -> (r: Node)
        ensures
            r.deep_view() == Credit::encode_value(self.deep_view(), tag@),
    {
        proof {
            reveal(Credit::encode_value);
        }
        let mut node = Node::new(tag);
        node.put_text_opt::<String>(Name::CreditType, &self.credit_type);
        node.put_element_opt::<PrintableValue<String>>(Name::CreditWords, &self.credit_words);
        node
    }
}

impl Element for Credit {
    open spec fn valid(v: CreditView) -> bool {
        &&& (v.credit_words matches Some(x) ==> PrintableValue::<String>::valid(x))
    }

    open spec fn decode(n: NodeView) -> Result<CreditView, DecodeErrorView> {
        Credit::decode_node(n)
    }

    open spec fn encode(v: CreditView, tag: Seq<char>) -> NodeView {
        Credit::encode_value(v, tag)
    }

    proof fn encode_tag(v: CreditView, tag: Seq<char>) {
        Credit::encoded_tag(v, tag);
    }

    proof fn decode_encode(v: CreditView, tag: Seq<char>) {
        Credit::round_trip(v, tag);
    }

    proof fn decode_valid(n: NodeView) {
        Credit::decoded_valid(n);
    }

    fn from_node(node: &Node) -> (r: Result<Credit, DecodeError>) {
        Credit::read_node(node)
    }

    fn to_node(&self, tag: &str) -> (r: Node) {
        self.write_node(tag)
    }
}

} // verus!
