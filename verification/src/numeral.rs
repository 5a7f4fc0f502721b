//! Chords written as numerals.
use crate::codec::{Element, element_nodes, group_codec};
use crate::error::{DecodeError, DecodeErrorView};
use crate::names::Name;
use crate::node::{Node, NodeView};
use crate::numeral_key::NumeralKey;
use crate::printable_value::{PrintableValue, PrintableValueView};
use vstd::prelude::*;

verus! {

/// A chord written as a numeral.
#[derive(Clone, Debug, PartialEq)]
pub struct Numeral {
    /// The child `numeral-root`; with every field at its default where it
    /// is not there.
    pub root: PrintableValue<u8>,
    /// The child `numeral-alter`, if it is there.
    pub alter: Option<PrintableValue<i8>>,
    /// The child `numeral-key`, if it is there.
    pub key: Option<NumeralKey>,
}

/// The mathematical value of a [`Numeral`].
pub struct NumeralView {
    pub root: PrintableValueView<u8>,
    pub alter: Option<PrintableValueView<i8>>,
    pub key: Option<NumeralKey>,
}

impl DeepView for Numeral {
    type V = NumeralView;

    open spec fn deep_view(&self) -> NumeralView {
        NumeralView {
            root: self.root.deep_view(),
            alter: self.alter.deep_view(),
            key: self.key.deep_view(),
        }
    }
}

impl Numeral {
    /// The value with every field at its default.
    pub open spec fn initial() -> NumeralView {
        NumeralView {
            root: PrintableValue::<u8>::initial(),
            alter: None,
            key: None,
        }
    }
}

impl Default for Numeral {
    fn default() -> (r: Numeral)
        ensures
            r.deep_view() == Numeral::initial(),
    {
        let r = Numeral {
            root: PrintableValue::<u8>::default(),
            alter: None,
            key: None,
        };
        r
    }
}

impl Numeral {
    /// The value that an element denotes. The fields are read in the order in
    /// which they are declared; the first one that fails gives the error.
    #[verifier::opaque]
    pub open spec fn decode_node(n: NodeView) -> Result<NumeralView, DecodeErrorView> {
        let root = n.element_or::<PrintableValue<u8>>(
            Name::NumeralRoot,
            PrintableValue::<u8>::initial(),
        );
        let alter = n.element_opt::<PrintableValue<i8>>(Name::NumeralAlter);
        let key = n.element_opt::<NumeralKey>(Name::NumeralKey);
        if root is Err {
            Err(root->Err_0)
        } else if alter is Err {
            Err(alter->Err_0)
        } else if key is Err {
            Err(key->Err_0)
        } else {
            Ok(
                NumeralView {
                    root: root->Ok_0,
                    alter: alter->Ok_0,
                    key: key->Ok_0,
                }
            )
        }
    }

    /// The element that a value is written as.
    #[verifier::opaque]
    pub open spec fn encode_value(v: NumeralView, tag: Seq<char>) -> NodeView {
        NodeView::new(tag)
            .with_children(element_nodes::<PrintableValue<u8>>(Name::NumeralRoot, Some(v.root)))
            .with_children(element_nodes::<PrintableValue<i8>>(Name::NumeralAlter, v.alter))
            .with_children(element_nodes::<NumeralKey>(Name::NumeralKey, v.key))
    }

    /// An encoded element bears the tag it was given.
    pub proof fn encoded_tag(v: NumeralView, tag: Seq<char>)
        ensures
            Numeral::encode_value(v, tag).tag == tag,
    {
        broadcast use group_codec;

        reveal(Numeral::encode_value);
    }

    /// Decoding what was encoded gives the value back.
    pub proof fn round_trip(v: NumeralView, tag: Seq<char>)
        requires
            <Numeral as Element>::valid(v),
        ensures
            Numeral::decode_node(Numeral::encode_value(v, tag))
                == Ok::<NumeralView, DecodeErrorView>(v),
    {
        broadcast use group_codec;

        let n = Numeral::encode_value(v, tag);
        assert(
            n.element_or::<PrintableValue<u8>>(Name::NumeralRoot, PrintableValue::<u8>::initial())
                == Ok::<PrintableValueView<u8>, DecodeErrorView>(v.root)
        ) by {
            reveal(Numeral::encode_value);
            reveal(NodeView::element_or);
            reveal(NodeView::element_opt);
            reveal(NodeView::only_child);
            PrintableValue::<u8>::decode_encode(v.root, Name::NumeralRoot.text());
        }
        assert(
            n.element_opt::<PrintableValue<i8>>(Name::NumeralAlter)
                == Ok::<Option<PrintableValueView<i8>>, DecodeErrorView>(v.alter)
        ) by {
            reveal(Numeral::encode_value);
            reveal(NodeView::element_opt);
            reveal(NodeView::only_child);
            if let Some(x) = v.alter {
                PrintableValue::<i8>::decode_encode(x, Name::NumeralAlter.text());
            }
        }
        assert(
            n.element_opt::<NumeralKey>(Name::NumeralKey)
                == Ok::<Option<NumeralKey>, DecodeErrorView>(v.key)
        ) by {
            reveal(Numeral::encode_value);
            reveal(NodeView::element_opt);
            reveal(NodeView::only_child);
            if let Some(x) = v.key {
                NumeralKey::decode_encode(x, Name::NumeralKey.text());
            }
        }
        reveal(Numeral::decode_node);
    }

    /// Decoding gives valid values only.
    pub proof fn decoded_valid(n: NodeView)
        ensures
            Numeral::decode_node(n) matches Ok(v) ==> <Numeral as Element>::valid(v),
    {
        reveal(Numeral::decode_node);
        reveal(NodeView::element_or);
        reveal(NodeView::element_opt);
        if let Ok(Some(c)) = n.only_child(Name::NumeralRoot) {
            PrintableValue::<u8>::decode_valid(c);
        }
        if let Ok(Some(c)) = n.only_child(Name::NumeralAlter) {
            PrintableValue::<i8>::decode_valid(c);
        }
        if let Ok(Some(c)) = n.only_child(Name::NumeralKey) {
            NumeralKey::decode_valid(c);
        }
    }

    /// Decodes an element.
    pub fn read_node(node: &Node) -> (r: Result<Numeral, DecodeError>)
        ensures
            r matches Ok(v) ==>
                Numeral::decode_node(node.deep_view()) == Ok::<NumeralView, DecodeErrorView>(
                v.deep_view(),
            ),
            r matches Err(e) ==>
                Numeral::decode_node(node.deep_view()) == Err::<NumeralView, DecodeErrorView>(
                e.deep_view(),
            ),
    {
        proof {
            reveal(Numeral::decode_node);
        }
        let root = node.element_or::<PrintableValue<u8>>(
            Name::NumeralRoot,
            PrintableValue::<u8>::default(),
        )?;
        let alter = node.element_opt::<PrintableValue<i8>>(Name::NumeralAlter)?;
        let key = node.element_opt::<NumeralKey>(Name::NumeralKey)?;
        Ok(Numeral { root, alter, key })
    }

    /// Encodes a value as an element with the given tag.
    pub fn write_node(&self, tag: &str) -> (r: Node)
        ensures
            r.deep_view() == Numeral::encode_value(self.deep_view(), tag@),
    {
        proof {
            reveal(Numeral::encode_value);
        }
        let mut node = Node::new(tag);
        node.put_element::<PrintableValue<u8>>(Name::NumeralRoot, &self.root);
        node.put_element_opt::<PrintableValue<i8>>(Name::NumeralAlter, &self.alter);
        node.put_element_opt::<NumeralKey>(Name::NumeralKey, &self.key);
        node
    }
}

impl Element for Numeral {
    open spec fn valid(v: NumeralView) -> bool {
        &&& PrintableValue::<u8>::valid(v.root)
        &&& (v.alter matches Some(x) ==> PrintableValue::<i8>::valid(x))
        &&& (v.key matches Some(x) ==> NumeralKey::valid(x))
    }

    open spec fn decode(n: NodeView) -> Result<NumeralView, DecodeErrorView> {
        Numeral::decode_node(n)
    }

    open spec fn encode(v: NumeralView, tag: Seq<char>) -> NodeView {
        Numeral::encode_value(v, tag)
    }

    proof fn encode_tag(v: NumeralView, tag: Seq<char>) {
        Numeral::encoded_tag(v, tag);
    }

    proof fn decode_encode(v: NumeralView, tag: Seq<char>) {
        Numeral::round_trip(v, tag);
    }

    proof fn decode_valid(n: NodeView) {
        Numeral::decoded_valid(n);
    }

    fn from_node(node: &Node) -> (r: Result<Numeral, DecodeError>) {
        Numeral::read_node(node)
    }

    fn to_node(&self, tag: &str) -> (r: Node) {
        self.write_node(tag)
    }
}

} // verus!
