//! The bass of a chord symbol.
use crate::codec::{Element, element_nodes, group_codec};
use crate::decimal::Decimal;
use crate::error::{DecodeError, DecodeErrorView};
use crate::harmony::{HarmonyArrangement, Step};
use crate::names::Name;
use crate::node::{Node, NodeView};
use crate::printable_value::{PrintableValue, PrintableValueView};
use vstd::prelude::*;

verus! {

/// The bass note of a chord symbol.
#[derive(Clone, Debug, PartialEq)]
pub struct Bass {
    /// The child `bass-separator`, if it is there.
    pub separator: Option<PrintableValue<String>>,
    /// The child `bass-step`; with every field at its default where it is
    /// not there.
    pub step: PrintableValue<Step>,
    /// The child `bass-alter`, if it is there.
    pub alter: Option<PrintableValue<Decimal>>,
    /// The attribute `arrangement`, if it is written.
    pub arrangement: Option<HarmonyArrangement>,
}

/// The mathematical value of a [`Bass`].
pub struct BassView {
    pub separator: Option<PrintableValueView<Seq<char>>>,
    pub step: PrintableValueView<Step>,
    pub alter: Option<PrintableValueView<Decimal>>,
    pub arrangement: Option<HarmonyArrangement>,
}

impl DeepView for Bass {
    type V = BassView;

    open spec fn deep_view(&self) -> BassView {
        BassView {
            separator: self.separator.deep_view(),
            step: self.step.deep_view(),
            alter: self.alter.deep_view(),
            arrangement: self.arrangement.deep_view(),
        }
    }
}

impl Bass {
    /// The value with every field at its default.
    pub open spec fn initial() -> BassView {
        BassView {
            separator: None,
            step: PrintableValue::<Step>::initial(),
            alter: None,
            arrangement: None,
        }
    }
}

impl Default for Bass {
    fn default() -> (r: Bass)
        ensures
            r.deep_view() == Bass::initial(),
    {
        let r = Bass {
            separator: None,
            step: PrintableValue::<Step>::default(),
            alter: None,
            arrangement: None,
        };
        r
    }
}

impl Bass {
    /// The value that an element denotes. The fields are read in the order in
    /// which they are declared; the first one that fails gives the error.
    #[verifier::opaque]
    pub open spec fn decode_node(n: NodeView) -> Result<BassView, DecodeErrorView> {
        let separator = n.element_opt::<PrintableValue<String>>(Name::BassSeparator);
        let step = n.element_or::<PrintableValue<Step>>(
            Name::BassStep,
            PrintableValue::<Step>::initial(),
        );
        let alter = n.element_opt::<PrintableValue<Decimal>>(Name::BassAlter);
        let arrangement = n.attribute_opt::<HarmonyArrangement>(Name::Arrangement);
        if separator is Err {
            Err(separator->Err_0)
        } else if step is Err {
            Err(step->Err_0)
        } else if alter is Err {
            Err(alter->Err_0)
        } else if arrangement is Err {
            Err(arrangement->Err_0)
        } else {
            Ok(
                BassView {
                    separator: separator->Ok_0,
                    step: step->Ok_0,
                    alter: alter->Ok_0,
                    arrangement: arrangement->Ok_0,
                }
            )
        }
    }

    /// The element that a value is written as.
    #[verifier::opaque]
    pub open spec fn encode_value(v: BassView, tag: Seq<char>) -> NodeView {
        NodeView::new(tag)
            .with_children(
                element_nodes::<PrintableValue<String>>(Name::BassSeparator, v.separator),
            )
            .with_children(element_nodes::<PrintableValue<Step>>(Name::BassStep, Some(v.step)))
            .with_children(element_nodes::<PrintableValue<Decimal>>(Name::BassAlter, v.alter))
            .with_scalar_opt::<HarmonyArrangement>(Name::Arrangement, v.arrangement)
    }

    /// An encoded element bears the tag it was given.
    pub proof fn encoded_tag(v: BassView, tag: Seq<char>)
        ensures
            Bass::encode_value(v, tag).tag == tag,
    {
        broadcast use group_codec;

        reveal(Bass::encode_value);
    }

    /// Decoding what was encoded gives the value back.
    pub proof fn round_trip(v: BassView, tag: Seq<char>)
        requires
            <Bass as Element>::valid(v),
        ensures
            Bass::decode_node(Bass::encode_value(v, tag)) == Ok::<BassView, DecodeErrorView>(v),
    {
        broadcast use group_codec;

        let n = Bass::encode_value(v, tag);
        assert(
            n.element_opt::<PrintableValue<String>>(Name::BassSeparator)
                == Ok::<Option<PrintableValueView<Seq<char>>>, DecodeErrorView>(v.separator)
        ) by {
            reveal(Bass::encode_value);
            reveal(NodeView::element_opt);
            reveal(NodeView::only_child);
            if let Some(x) = v.separator {
                PrintableValue::<String>::decode_encode(x, Name::BassSeparator.text());
            }
        }
        assert(
            n.element_or::<PrintableValue<Step>>(Name::BassStep, PrintableValue::<Step>::initial())
                == Ok::<PrintableValueView<Step>, DecodeErrorView>(v.step)
        ) by {
            reveal(Bass::encode_value);
            reveal(NodeView::element_or);
            reveal(NodeView::element_opt);
            reveal(NodeView::only_child);
            PrintableValue::<Step>::decode_encode(v.step, Name::BassStep.text());
        }
        assert(
            n.element_opt::<PrintableValue<Decimal>>(Name::BassAlter)
                == Ok::<Option<PrintableValueView<Decimal>>, DecodeErrorView>(v.alter)
        ) by {
            reveal(Bass::encode_value);
            reveal(NodeView::element_opt);
            reveal(NodeView::only_child);
            if let Some(x) = v.alter {
                PrintableValue::<Decimal>::decode_encode(x, Name::BassAlter.text());
            }
        }
        assert(
            n.attribute_opt::<HarmonyArrangement>(Name::Arrangement)
                == Ok::<Option<HarmonyArrangement>, DecodeErrorView>(v.arrangement)
        ) by {
            reveal(Bass::encode_value);
        }
        reveal(Bass::decode_node);
    }

    /// Decoding gives valid values only.
    pub proof fn decoded_valid(n: NodeView)
        ensures
            Bass::decode_node(n) matches Ok(v) ==> <Bass as Element>::valid(v),
    {
        reveal(Bass::decode_node);
        reveal(NodeView::element_opt);
        reveal(NodeView::element_or);
        if let Ok(Some(c)) = n.only_child(Name::BassSeparator) {
            PrintableValue::<String>::decode_valid(c);
        }
        if let Ok(Some(c)) = n.only_child(Name::BassStep) {
            PrintableValue::<Step>::decode_valid(c);
        }
        if let Ok(Some(c)) = n.only_child(Name::BassAlter) {
            PrintableValue::<Decimal>::decode_valid(c);
        }
    }

    /// Decodes an element.
    pub fn read_node(node: &Node) -> (r: Result<Bass, DecodeError>)
        ensures
            r matches Ok(v) ==>
                Bass::decode_node(node.deep_view()) == Ok::<BassView, DecodeErrorView>(
                v.deep_view(),
            ),
            r matches Err(e) ==>
                Bass::decode_node(node.deep_view()) == Err::<BassView, DecodeErrorView>(
                e.deep_view(),
            ),
    {
        proof {
            reveal(Bass::decode_node);
        }
        let separator = node.element_opt::<PrintableValue<String>>(Name::BassSeparator)?;
        let step = node.element_or::<PrintableValue<Step>>(
            Name::BassStep,
            PrintableValue::<Step>::default(),
        )?;
        let alter = node.element_opt::<PrintableValue<Decimal>>(Name::BassAlter)?;
        let arrangement = node.attribute_opt::<HarmonyArrangement>(Name::Arrangement)?;
        Ok(Bass { separator, step, alter, arrangement })
    }

    /// Encodes a value as an element with the given tag.
    pub fn write_node(&self, tag: &str) -> (r: Node)
        ensures
            r.deep_view() == Bass::encode_value(self.deep_view(), tag@),
    {
        proof {
            reveal(Bass::encode_value);
        }
        let mut node = Node::new(tag);
        node.put_element_opt::<PrintableValue<String>>(Name::BassSeparator, &self.separator);
        node.put_element::<PrintableValue<Step>>(Name::BassStep, &self.step);
        node.put_element_opt::<PrintableValue<Decimal>>(Name::BassAlter, &self.alter);
        node.put_scalar_opt::<HarmonyArrangement>(Name::Arrangement, &self.arrangement);
        node
    }
}

impl Element for Bass {
    open spec fn valid(v: BassView) -> bool {
        &&& (v.separator matches Some(x) ==> PrintableValue::<String>::valid(x))
        &&& PrintableValue::<Step>::valid(v.step)
        &&& (v.alter matches Some(x) ==> PrintableValue::<Decimal>::valid(x))
    }

    open spec fn decode(n: NodeView) -> Result<BassView, DecodeErrorView> {
        Bass::decode_node(n)
    }

    open spec fn encode(v: BassView, tag: Seq<char>) -> NodeView {
        Bass::encode_value(v, tag)
    }

    proof fn encode_tag(v: BassView, tag: Seq<char>) {
        Bass::encoded_tag(v, tag);
    }

    proof fn decode_encode(v: BassView, tag: Seq<char>) {
        Bass::round_trip(v, tag);
    }

    proof fn decode_valid(n: NodeView) {
        Bass::decoded_valid(n);
    }

    fn from_node(node: &Node) -> (r: Result<Bass, DecodeError>) {
        Bass::read_node(node)
    }

    fn to_node(&self, tag: &str) -> (r: Node) {
        self.write_node(tag)
    }
}

} // verus!
