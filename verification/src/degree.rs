//! Degrees of a chord symbol.
use crate::codec::{Element, element_nodes, group_codec};
use crate::decimal::Decimal;
use crate::error::{DecodeError, DecodeErrorView};
use crate::names::Name;
use crate::node::{Node, NodeView};
use crate::printable_value::{PrintableValue, PrintableValueView};
use crate::scalar::Scalar;
use crate::text::{owned, same_text};
use vstd::prelude::*;

verus! {

/// What a degree does to a chord.
#[derive(Clone, Copy, Debug, PartialEq, Eq, Structural)]
pub enum DegreeTypeValue {
    /// Written `add`.
    Add,
    /// Written `alter`.
    Alter,
    /// Written `subtract`.
    Subtract,
}

impl DeepView for DegreeTypeValue {
    type V = DegreeTypeValue;

    open spec fn deep_view(&self) -> DegreeTypeValue {
        *self
    }
}

impl DegreeTypeValue {
    /// The word that a value is written as.
    #[verifier::opaque]
    pub open spec fn word(self) -> Seq<char> {
        match self {
            DegreeTypeValue::Add => "add"@,
            DegreeTypeValue::Alter => "alter"@,
            DegreeTypeValue::Subtract => "subtract"@,
        }
    }

    /// The value that a word denotes, if it denotes one.
    #[verifier::opaque]
    pub open spec fn of_word(s: Seq<char>) -> Option<DegreeTypeValue> {
        if exists|v: DegreeTypeValue| v.word() == s {
            Some(choose|v: DegreeTypeValue| v.word() == s)
        } else {
            None
        }
    }

    /// No two values are written alike.
    pub proof fn word_injective(a: DegreeTypeValue, b: DegreeTypeValue)
        ensures
            a.word() == b.word() ==> a == b,
    {
        reveal(DegreeTypeValue::word);
        reveal_strlit("add");
        reveal_strlit("alter");
        reveal_strlit("subtract");
        if a.word() == b.word() {
            assert(a.word().len() == b.word().len());
            assert(a.word()[0] == b.word()[0]);
            assert(a.word()[1] == b.word()[1]);
            assert(a.word()[2] == b.word()[2]);
            assert(a.word()[3] == b.word()[3]);
            assert(a.word()[4] == b.word()[4]);
            assert(a.word()[5] == b.word()[5]);
            assert(a.word()[6] == b.word()[6]);
            assert(a.word()[7] == b.word()[7]);
        }
    }

    /// Reading the word of a value gives the value back.
    pub proof fn of_word_word(v: DegreeTypeValue)
        ensures
            DegreeTypeValue::of_word(v.word()) == Some(v),
    {
        reveal(DegreeTypeValue::of_word);
        DegreeTypeValue::word_injective(v, choose|w: DegreeTypeValue| w.word() == v.word());
    }

    /// The word that a value is written as.
    pub fn as_str(self) -> (r: &'static str)
        ensures
            r@ == self.word(),
    {
        proof {
            reveal(DegreeTypeValue::word);
        }
        match self {
            DegreeTypeValue::Add => "add",
            DegreeTypeValue::Alter => "alter",
            DegreeTypeValue::Subtract => "subtract",
        }
    }

    /// Reads a value from its word.
    pub fn from_str(s: &str) -> (r: Option<DegreeTypeValue>)
        ensures
            r == DegreeTypeValue::of_word(s@),
    {
        proof {
            reveal(DegreeTypeValue::word);
            reveal(DegreeTypeValue::of_word);
        }
        if same_text(s, "add") {
            proof {
                DegreeTypeValue::of_word_word(DegreeTypeValue::Add);
            }
            return Some(DegreeTypeValue::Add);
        }
        if same_text(s, "alter") {
            proof {
                DegreeTypeValue::of_word_word(DegreeTypeValue::Alter);
            }
            return Some(DegreeTypeValue::Alter);
        }
        if same_text(s, "subtract") {
            proof {
                DegreeTypeValue::of_word_word(DegreeTypeValue::Subtract);
            }
            return Some(DegreeTypeValue::Subtract);
        }
        proof {
            assert forall|v: DegreeTypeValue| v.word() != s@ by {
            }
        }
        None
    }
}

impl Default for DegreeTypeValue {
    fn default() -> (r: DegreeTypeValue)
        ensures
            r == DegreeTypeValue::Add,
    {
        DegreeTypeValue::Add
    }
}

impl Scalar for DegreeTypeValue {
    open spec fn parse(s: Seq<char>) -> Option<DegreeTypeValue> {
        DegreeTypeValue::of_word(s)
    }

    open spec fn text(v: DegreeTypeValue) -> Seq<char> {
        v.word()
    }

    open spec fn initial() -> DegreeTypeValue {
        DegreeTypeValue::Add
    }

    proof fn parse_text(v: DegreeTypeValue) {
        DegreeTypeValue::of_word_word(v);
    }

    fn from_text(s: &str) -> (r: Option<DegreeTypeValue>) {
        DegreeTypeValue::from_str(s)
    }

    fn to_text(&self) -> (r: String) {
        owned(self.as_str())
    }

    fn same(&self, other: &DegreeTypeValue) -> (r: bool) {
        *self == *other
    }

    fn make_initial() -> (r: DegreeTypeValue) {
        DegreeTypeValue::Add
    }
}

/// A degree added to, altered in or taken from a chord.
#[derive(Clone, Debug, PartialEq)]
pub struct Degree {
    /// The child `degree-value`; with every field at its default where it
    /// is not there.
    pub value: PrintableValue<String>,
    /// The child `degree-alter`; with every field at its default where it
    /// is not there.
    pub alter: PrintableValue<u8>,
    /// The child `degree-type`; with every field at its default where it is
    /// not there.
    pub degree_type: PrintableValue<Decimal>,
}

/// The mathematical value of a [`Degree`].
pub struct DegreeView {
    pub value: PrintableValueView<Seq<char>>,
    pub alter: PrintableValueView<u8>,
    pub degree_type: PrintableValueView<Decimal>,
}

impl DeepView for Degree {
    type V = DegreeView;

    open spec fn deep_view(&self) -> DegreeView {
        DegreeView {
            value: self.value.deep_view(),
            alter: self.alter.deep_view(),
            degree_type: self.degree_type.deep_view(),
        }
    }
}

impl Degree {
    /// The value with every field at its default.
    pub open spec fn initial() -> DegreeView {
        DegreeView {
            value: PrintableValue::<String>::initial(),
            alter: PrintableValue::<u8>::initial(),
            degree_type: PrintableValue::<Decimal>::initial(),
        }
    }
}

impl Default for Degree {
    fn default() -> (r: Degree)
        ensures
            r.deep_view() == Degree::initial(),
    {
        let r = Degree {
            value: PrintableValue::<String>::default(),
            alter: PrintableValue::<u8>::default(),
            degree_type: PrintableValue::<Decimal>::default(),
        };
        r
    }
}

impl Degree {
    /// The value that an element denotes. The fields are read in the order in
    /// which they are declared; the first one that fails gives the error.
    #[verifier::opaque]
    pub open spec fn decode_node(n: NodeView) -> Result<DegreeView, DecodeErrorView> {
        let value = n.element_or::<PrintableValue<String>>(
            Name::DegreeValue,
            PrintableValue::<String>::initial(),
        );
        let alter = n.element_or::<PrintableValue<u8>>(
            Name::DegreeAlter,
            PrintableValue::<u8>::initial(),
        );
        let degree_type = n.element_or::<PrintableValue<Decimal>>(
            Name::DegreeType,
            PrintableValue::<Decimal>::initial(),
        );
        if value is Err {
            Err(value->Err_0)
        } else if alter is Err {
            Err(alter->Err_0)
        } else if degree_type is Err {
            Err(degree_type->Err_0)
        } else {
            Ok(
                DegreeView {
                    value: value->Ok_0,
                    alter: alter->Ok_0,
                    degree_type: degree_type->Ok_0,
                }
            )
        }
    }

    /// The element that a value is written as.
    #[verifier::opaque]
    pub open spec fn encode_value(v: DegreeView, tag: Seq<char>) -> NodeView {
        NodeView::new(tag)
            .with_children(
                element_nodes::<PrintableValue<String>>(Name::DegreeValue, Some(v.value)),
            )
            .with_children(element_nodes::<PrintableValue<u8>>(Name::DegreeAlter, Some(v.alter)))
            .with_children(
                element_nodes::<PrintableValue<Decimal>>(Name::DegreeType, Some(v.degree_type)),
            )
    }

    /// An encoded element bears the tag it was given.
    pub proof fn encoded_tag(v: DegreeView, tag: Seq<char>)
        ensures
            Degree::encode_value(v, tag).tag == tag,
    {
        broadcast use group_codec;

        reveal(Degree::encode_value);
    }

    /// Decoding what was encoded gives the value back.
    pub proof fn round_trip(v: DegreeView, tag: Seq<char>)
        requires
            <Degree as Element>::valid(v),
        ensures
            Degree::decode_node(Degree::encode_value(v, tag))
                == Ok::<DegreeView, DecodeErrorView>(v),
    {
        broadcast use group_codec;

        let n = Degree::encode_value(v, tag);
        assert(
            n.element_or::<PrintableValue<String>>(
                Name::DegreeValue,
                PrintableValue::<String>::initial(),
            )
                == Ok::<PrintableValueView<Seq<char>>, DecodeErrorView>(v.value)
        ) by {
            reveal(Degree::encode_value);
            reveal(NodeView::element_or);
            reveal(NodeView::element_opt);
            reveal(NodeView::only_child);
            PrintableValue::<String>::decode_encode(v.value, Name::DegreeValue.text());
        }
        assert(
            n.element_or::<PrintableValue<u8>>(Name::DegreeAlter, PrintableValue::<u8>::initial())
                == Ok::<PrintableValueView<u8>, DecodeErrorView>(v.alter)
        ) by {
            reveal(Degree::encode_value);
            reveal(NodeView::element_or);
            reveal(NodeView::element_opt);
            reveal(NodeView::only_child);
            PrintableValue::<u8>::decode_encode(v.alter, Name::DegreeAlter.text());
        }
        assert(
            n.element_or::<PrintableValue<Decimal>>(
                Name::DegreeType,
                PrintableValue::<Decimal>::initial(),
            )
                == Ok::<PrintableValueView<Decimal>, DecodeErrorView>(v.degree_type)
        ) by {
            reveal(Degree::encode_value);
            reveal(NodeView::element_or);
            reveal(NodeView::element_opt);
            reveal(NodeView::only_child);
            PrintableValue::<Decimal>::decode_encode(v.degree_type, Name::DegreeType.text());
        }
        reveal(Degree::decode_node);
    }

    /// Decoding gives valid values only.
    pub proof fn decoded_valid(n: NodeView)
        ensures
            Degree::decode_node(n) matches Ok(v) ==> <Degree as Element>::valid(v),
    {
        reveal(Degree::decode_node);
        reveal(NodeView::element_or);
        reveal(NodeView::element_opt);
        if let Ok(Some(c)) = n.only_child(Name::DegreeValue) {
            PrintableValue::<String>::decode_valid(c);
        }
        if let Ok(Some(c)) = n.only_child(Name::DegreeAlter) {
            PrintableValue::<u8>::decode_valid(c);
        }
        if let Ok(Some(c)) = n.only_child(Name::DegreeType) {
            PrintableValue::<Decimal>::decode_valid(c);
        }
    }

    /// Decodes an element.
    pub fn read_node(node: &Node) -> (r: Result<Degree, DecodeError>)
        ensures
            r matches Ok(v) ==>
                Degree::decode_node(node.deep_view()) == Ok::<DegreeView, DecodeErrorView>(
                v.deep_view(),
            ),
            r matches Err(e) ==>
                Degree::decode_node(node.deep_view()) == Err::<DegreeView, DecodeErrorView>(
                e.deep_view(),
            ),
    {
        proof {
            reveal(Degree::decode_node);
        }
        let value = node.element_or::<PrintableValue<String>>(
            Name::DegreeValue,
            PrintableValue::<String>::default(),
        )?;
        let alter = node.element_or::<PrintableValue<u8>>(
            Name::DegreeAlter,
            PrintableValue::<u8>::default(),
        )?;
        let degree_type = node.element_or::<PrintableValue<Decimal>>(
            Name::DegreeType,
            PrintableValue::<Decimal>::default(),
        )?;
        Ok(Degree { value, alter, degree_type })
    }

    /// Encodes a value as an element with the given tag.
    pub fn write_node(&self, tag: &str) -> (r: Node)
        ensures
            r.deep_view() == Degree::encode_value(self.deep_view(), tag@),
    {
        proof {
            reveal(Degree::encode_value);
        }
        let mut node = Node::new(tag);
        node.put_element::<PrintableValue<String>>(Name::DegreeValue, &self.value);
        node.put_element::<PrintableValue<u8>>(Name::DegreeAlter, &self.alter);
        node.put_element::<PrintableValue<Decimal>>(Name::DegreeType, &self.degree_type);
        node
    }
}

impl Element for Degree {
    open spec fn valid(v: DegreeView) -> bool {
        &&& PrintableValue::<String>::valid(v.value)
        &&& PrintableValue::<u8>::valid(v.alter)
        &&& PrintableValue::<Decimal>::valid(v.degree_type)
    }

    open spec fn decode(n: NodeView) -> Result<DegreeView, DecodeErrorView> {
        Degree::decode_node(n)
    }

    open spec fn encode(v: DegreeView, tag: Seq<char>) -> NodeView {
        Degree::encode_value(v, tag)
    }

    proof fn encode_tag(v: DegreeView, tag: Seq<char>) {
        Degree::encoded_tag(v, tag);
    }

    proof fn decode_encode(v: DegreeView, tag: Seq<char>) {
        Degree::round_trip(v, tag);
    }

    proof fn decode_valid(n: NodeView) {
        Degree::decoded_valid(n);
    }

    fn from_node(node: &Node) -> (r: Result<Degree, DecodeError>) {
        Degree::read_node(node)
    }

    fn to_node(&self, tag: &str) -> (r: Node) {
        self.write_node(tag)
    }
}

} // verus!
