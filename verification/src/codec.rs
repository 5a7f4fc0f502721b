//! Decoding of elements into typed values and encoding back: the two kinds of
//! codec, and the field-by-field steps that every codec is made of.
//!
//! A type writes its codec as functions of its own (`decode_node`,
//! `encode_value`, `read_node`, `write_node`) with the laws that hold of them
//! beside them; its impl of [`Element`] or [`Tagged`] hands them on, so that
//! the steps for children and lists can be written once for every type.
use crate::error::{DecodeError, DecodeErrorView, ErrorKind};
use crate::names::Name;
use crate::node::{
    lemma_empty_add, lemma_optional_attribute, lemma_optional_attribute_rest,
    lemma_with_tag_empty, lemma_with_tag_group, lemma_with_tag_others,
    lemma_without_tag_others, lemma_without_tag_same, with_tag, without_tag, Node, NodeView,
};
use crate::scalar::Scalar;
use vstd::prelude::*;

verus! {

/// A value that is written as an element. The tag is chosen by the place
/// where the element stands, not by the value.
pub trait Element: Sized + DeepView {
    /// Whether a value obeys the rules of its kind.
    spec fn valid(v: Self::V) -> bool;

    /// The value that an element denotes, or the error that decoding it
    /// gives.
    spec fn decode(n: NodeView) -> Result<Self::V, DecodeErrorView>;

    /// The element that a value is written as.
    spec fn encode(v: Self::V, tag: Seq<char>) -> NodeView;

    /// An encoded element bears the tag it was given.
    proof fn encode_tag(v: Self::V, tag: Seq<char>)
        ensures
            Self::encode(v, tag).tag == tag,
    ;

    /// Decoding what was encoded gives the value back.
    proof fn decode_encode(v: Self::V, tag: Seq<char>)
        requires
            Self::valid(v),
        ensures
            Self::decode(Self::encode(v, tag)) == Ok::<Self::V, DecodeErrorView>(v),
    ;

    /// Decoding gives valid values only.
    proof fn decode_valid(n: NodeView)
        ensures
            Self::decode(n) matches Ok(v) ==> Self::valid(v),
    ;

    /// Decodes an element.
    fn from_node(node: &Node) -> (r: Result<Self, DecodeError>)
        ensures
            r matches Ok(v) ==> Self::decode(node.deep_view()) == Ok::<Self::V, DecodeErrorView>(
                v.deep_view(),
            ),
            r matches Err(e) ==> Self::decode(node.deep_view()) == Err::<Self::V, DecodeErrorView>(
                e.deep_view(),
            ),
    ;

    /// Encodes a value as an element with the given tag.
    fn to_node(&self, tag: &str) -> (r: Node)
        ensures
            r.deep_view() == Self::encode(self.deep_view(), tag@),
    ;
}

/// A value of a closed set of variants, each written as an element with a
/// tag of its own.
pub trait Tagged: Sized + DeepView {
    /// Whether a value obeys the rules of its kind.
    spec fn valid(v: Self::V) -> bool;

    /// The variant that an element denotes, or the error that decoding it
    /// gives; an element with a tag that names no variant is a
    /// `StructuralError`.
    spec fn decode(n: NodeView) -> Result<Self::V, DecodeErrorView>;

    /// The element that a variant is written as.
    spec fn encode(v: Self::V) -> NodeView;

    /// The tag of a variant.
    spec fn name(v: Self::V) -> Name;

    /// An encoded variant bears the tag of the variant.
    proof fn encode_name(v: Self::V)
        ensures
            Self::encode(v).tag == Self::name(v).text(),
    ;

    /// Decoding what was encoded gives the variant back.
    proof fn decode_encode(v: Self::V)
        requires
            Self::valid(v),
        ensures
            Self::decode(Self::encode(v)) == Ok::<Self::V, DecodeErrorView>(v),
    ;

    /// Decoding gives valid values only.
    proof fn decode_valid(n: NodeView)
        ensures
            Self::decode(n) matches Ok(v) ==> Self::valid(v),
    ;

    /// Decodes an element.
    fn from_node(node: &Node) -> (r: Result<Self, DecodeError>)
        ensures
            r matches Ok(v) ==> Self::decode(node.deep_view()) == Ok::<Self::V, DecodeErrorView>(
                v.deep_view(),
            ),
            r matches Err(e) ==> Self::decode(node.deep_view()) == Err::<Self::V, DecodeErrorView>(
                e.deep_view(),
            ),
    ;

    /// Encodes a variant.
    fn to_node(&self) -> (r: Node)
        ensures
            r.deep_view() == Self::encode(self.deep_view()),
    ;
}

/// The values that the elements of `nodes` denote, or the first error, seen
/// from the parent with tag `parent`.
pub open spec fn decode_elements<T: Element>(nodes: Seq<NodeView>, parent: Seq<char>) -> Result<
    Seq<T::V>,
    DecodeErrorView,
>
    decreases nodes.len(),
{
    if nodes.len() == 0 {
        Ok(Seq::empty())
    } else {
        match decode_elements::<T>(nodes.drop_last(), parent) {
            Err(e) => Err(e),
            Ok(before) => match T::decode(nodes.last()) {
                Err(e) => Err(e.under(parent)),
                Ok(v) => Ok(before.push(v)),
            },
        }
    }
}

/// The variants that the elements of `nodes` denote, or the first error, seen
/// from the parent with tag `parent`.
pub open spec fn decode_variants<T: Tagged>(nodes: Seq<NodeView>, parent: Seq<char>) -> Result<
    Seq<T::V>,
    DecodeErrorView,
>
    decreases nodes.len(),
{
    if nodes.len() == 0 {
        Ok(Seq::empty())
    } else {
        match decode_variants::<T>(nodes.drop_last(), parent) {
            Err(e) => Err(e),
            Ok(before) => match T::decode(nodes.last()) {
                Err(e) => Err(e.under(parent)),
                Ok(v) => Ok(before.push(v)),
            },
        }
    }
}

/// The child that an optional scalar is written as.
pub open spec fn text_nodes<T: Scalar>(tag: Name, v: Option<T::V>) -> Seq<NodeView> {
    match v {
        Some(v) => seq![NodeView::new(tag.text()).with_text(T::text(v))],
        None => Seq::empty(),
    }
}

/// The child that an optional element value is written as.
pub open spec fn element_nodes<T: Element>(tag: Name, v: Option<T::V>) -> Seq<NodeView> {
    match v {
        Some(v) => seq![T::encode(v, tag.text())],
        None => Seq::empty(),
    }
}

/// The children that a list of element values is written as.
pub open spec fn encode_elements<T: Element>(tag: Name, vs: Seq<T::V>) -> Seq<NodeView> {
    Seq::new(vs.len(), |i: int| T::encode(vs[i], tag.text()))
}

/// The children that a list of variants is written as.
pub open spec fn encode_variants<T: Tagged>(vs: Seq<T::V>) -> Seq<NodeView> {
    Seq::new(vs.len(), |i: int| T::encode(vs[i]))
}

/// `count` empty elements with one tag.
pub open spec fn marker_nodes(tag: Name, count: nat) -> Seq<NodeView> {
    Seq::new(count, |i: int| NodeView::new(tag.text()))
}

/// Whether every value of a list is valid.
pub open spec fn all_valid<T: Element>(vs: Seq<T::V>) -> bool {
    forall|i: int| 0 <= i < vs.len() ==> T::valid(#[trigger] vs[i])
}

/// Whether every variant of a list is valid.
pub open spec fn all_valid_variants<T: Tagged>(vs: Seq<T::V>) -> bool {
    forall|i: int| 0 <= i < vs.len() ==> T::valid(#[trigger] vs[i])
}

/// What a query by tag sees after the child of a scalar was appended.
pub broadcast proof fn lemma_text_nodes_tag<T: Scalar>(
    nodes: Seq<NodeView>,
    tag: Name,
    v: Option<T::V>,
    t: Seq<char>,
)
    ensures
        #[trigger] with_tag(nodes + text_nodes::<T>(tag, v), t) == (if t == tag.text() {
            with_tag(nodes, t) + text_nodes::<T>(tag, v)
        } else {
            with_tag(nodes, t)
        }),
{
    lemma_with_tag_group(nodes, text_nodes::<T>(tag, v), tag.text(), t);
}

/// What a query by tag sees after the child of an element value was
/// appended.
pub broadcast proof fn lemma_element_nodes_tag<T: Element>(
    nodes: Seq<NodeView>,
    tag: Name,
    v: Option<T::V>,
    t: Seq<char>,
)
    ensures
        #[trigger] with_tag(nodes + element_nodes::<T>(tag, v), t) == (if t == tag.text() {
            with_tag(nodes, t) + element_nodes::<T>(tag, v)
        } else {
            with_tag(nodes, t)
        }),
{
    if let Some(x) = v {
        T::encode_tag(x, tag.text());
    }
    lemma_with_tag_group(nodes, element_nodes::<T>(tag, v), tag.text(), t);
}

/// What a query by tag sees after the children of a list of values were
/// appended.
pub broadcast proof fn lemma_encode_elements_tag<T: Element>(
    nodes: Seq<NodeView>,
    tag: Name,
    vs: Seq<T::V>,
    t: Seq<char>,
)
    ensures
        #[trigger] with_tag(nodes + encode_elements::<T>(tag, vs), t) == (if t == tag.text() {
            with_tag(nodes, t) + encode_elements::<T>(tag, vs)
        } else {
            with_tag(nodes, t)
        }),
{
    let more = encode_elements::<T>(tag, vs);
    assert forall|i: int| 0 <= i < more.len() implies (#[trigger] more[i]).tag == tag.text() by {
        T::encode_tag(vs[i], tag.text());
    }
    lemma_with_tag_group(nodes, more, tag.text(), t);
}

/// What a query by tag sees after markers were appended.
pub broadcast proof fn lemma_marker_nodes_tag(
    nodes: Seq<NodeView>,
    tag: Name,
    count: nat,
    t: Seq<char>,
)
    ensures
        #[trigger] with_tag(nodes + marker_nodes(tag, count), t) == (if t == tag.text() {
            with_tag(nodes, t) + marker_nodes(tag, count)
        } else {
            with_tag(nodes, t)
        }),
{
    lemma_with_tag_group(nodes, marker_nodes(tag, count), tag.text(), t);
}

/// Decoding the elements that a list of valid values was encoded as gives
/// the list back.
pub proof fn lemma_decode_encode_elements<T: Element>(tag: Name, vs: Seq<T::V>, parent: Seq<char>)
    requires
        all_valid::<T>(vs),
    ensures
        decode_elements::<T>(encode_elements::<T>(tag, vs), parent) == Ok::<
            Seq<T::V>,
            DecodeErrorView,
        >(vs),
    decreases vs.len(),
{
    let nodes = encode_elements::<T>(tag, vs);
    if vs.len() == 0 {
        assert(vs =~= Seq::empty());
    } else {
        assert(nodes.drop_last() =~= encode_elements::<T>(tag, vs.drop_last()));
        lemma_decode_encode_elements::<T>(tag, vs.drop_last(), parent);
        T::decode_encode(vs.last(), tag.text());
        assert(vs.drop_last().push(vs.last()) =~= vs);
    }
}

/// Decoding the elements that a list of valid variants was encoded as gives
/// the list back.
pub proof fn lemma_decode_encode_variants<T: Tagged>(vs: Seq<T::V>, parent: Seq<char>)
    requires
        all_valid_variants::<T>(vs),
    ensures
        decode_variants::<T>(encode_variants::<T>(vs), parent) == Ok::<Seq<T::V>, DecodeErrorView>(
            vs,
        ),
    decreases vs.len(),
{
    let nodes = encode_variants::<T>(vs);
    if vs.len() == 0 {
        assert(vs =~= Seq::empty());
    } else {
        assert(nodes.drop_last() =~= encode_variants::<T>(vs.drop_last()));
        lemma_decode_encode_variants::<T>(vs.drop_last(), parent);
        T::decode_encode(vs.last());
        assert(vs.drop_last().push(vs.last()) =~= vs);
    }
}

/// What an element decodes to can be written and read again: it comes back
/// the same.
pub proof fn lemma_decoded_round_trip<T: Element>(n: NodeView, tag: Seq<char>)
    ensures
        T::decode(n) matches Ok(v) ==> T::decode(T::encode(v, tag)) == Ok::<T::V, DecodeErrorView>(
            v,
        ),
{
    T::decode_valid(n);
    if let Ok(v) = T::decode(n) {
        T::decode_encode(v, tag);
    }
}

/// What an element decodes to as a variant can be written and read again: it
/// comes back the same.
pub proof fn lemma_decoded_variant_round_trip<T: Tagged>(n: NodeView)
    ensures
        T::decode(n) matches Ok(v) ==> T::decode(T::encode(v)) == Ok::<T::V, DecodeErrorView>(v),
{
    T::decode_valid(n);
    if let Ok(v) = T::decode(n) {
        T::decode_encode(v);
    }
}

/// The elements that decode without error decode to valid values.
pub proof fn lemma_decode_elements_valid<T: Element>(nodes: Seq<NodeView>, parent: Seq<char>)
    ensures
        decode_elements::<T>(nodes, parent) matches Ok(vs) ==> all_valid::<T>(vs) && vs.len()
            == nodes.len(),
    decreases nodes.len(),
{
    if nodes.len() > 0 {
        lemma_decode_elements_valid::<T>(nodes.drop_last(), parent);
        T::decode_valid(nodes.last());
    }
}

/// The variants that decode without error decode to valid values.
pub proof fn lemma_decode_variants_valid<T: Tagged>(nodes: Seq<NodeView>, parent: Seq<char>)
    ensures
        decode_variants::<T>(nodes, parent) matches Ok(vs) ==> all_valid_variants::<T>(vs)
            && vs.len() == nodes.len(),
    decreases nodes.len(),
{
    if nodes.len() > 0 {
        lemma_decode_variants_valid::<T>(nodes.drop_last(), parent);
        T::decode_valid(nodes.last());
    }
}

/// Variants of which none bears a given tag, appended to elements: a query
/// for that tag sees nothing new, and a query for all but that tag sees them
/// appended.
pub proof fn lemma_variants_apart<T: Tagged>(nodes: Seq<NodeView>, vs: Seq<T::V>, tag: Name)
    requires
        forall|i: int| 0 <= i < vs.len() ==> T::name(#[trigger] vs[i]) != tag,
    ensures
        with_tag(nodes + encode_variants::<T>(vs), tag.text()) == with_tag(nodes, tag.text()),
        without_tag(nodes + encode_variants::<T>(vs), tag.text()) == without_tag(
            nodes,
            tag.text(),
        ) + encode_variants::<T>(vs),
{
    broadcast use Name::text_injective;

    let more = encode_variants::<T>(vs);
    assert forall|i: int| 0 <= i < more.len() implies (#[trigger] more[i]).tag != tag.text() by {
        T::encode_name(vs[i]);
        assert(T::name(vs[i]) != tag);
    }
    lemma_with_tag_others(nodes, more, tag.text());
    lemma_without_tag_others(nodes, more, tag.text());
}

/// The child of an optional element value is left out by a query for all but
/// its tag.
pub proof fn lemma_element_nodes_without<T: Element>(
    nodes: Seq<NodeView>,
    tag: Name,
    v: Option<T::V>,
)
    ensures
        without_tag(nodes + element_nodes::<T>(tag, v), tag.text()) == without_tag(
            nodes,
            tag.text(),
        ),
{
    if let Some(x) = v {
        T::encode_tag(x, tag.text());
    }
    lemma_without_tag_same(nodes, element_nodes::<T>(tag, v), tag.text());
}

/// A new element has no attributes.
pub broadcast proof fn lemma_attribute_new<U: Scalar>(tag: Seq<char>, asked: Name)
    ensures
        #[trigger] NodeView::new(tag).attribute_opt::<U>(asked) == Ok::<
            Option<U::V>,
            DecodeErrorView,
        >(None),
{
    reveal(NodeView::attribute_opt);
}

/// The scalar written into an attribute is the scalar read from it.
pub broadcast proof fn lemma_attribute_hit<T: Scalar>(n: NodeView, name: Name, v: Option<T::V>)
    ensures
        #[trigger] n.with_scalar_opt::<T>(name, v).attribute_opt::<T>(name) == (match v {
            Some(x) => Ok::<Option<T::V>, DecodeErrorView>(Some(x)),
            None => n.attribute_opt::<T>(name),
        }),
{
    broadcast use lemma_optional_attribute, lemma_optional_attribute_rest;

    reveal(NodeView::attribute_opt);
    if let Some(x) = v {
        T::parse_text(x);
    }
}

/// The scalar written into an attribute is the scalar read from it.
pub broadcast proof fn lemma_attribute_hit_always<T: Scalar>(n: NodeView, name: Name, v: T::V)
    ensures
        #[trigger] n.with_scalar::<T>(name, v).attribute_opt::<T>(name) == Ok::<
            Option<T::V>,
            DecodeErrorView,
        >(Some(v)),
{
    broadcast use lemma_optional_attribute, lemma_optional_attribute_rest;

    reveal(NodeView::attribute_opt);
    T::parse_text(v);
}

/// Writing one attribute leaves what is read from another as it was.
pub broadcast proof fn lemma_attribute_miss<T: Scalar, U: Scalar>(
    n: NodeView,
    name: Name,
    v: Option<T::V>,
    asked: Name,
)
    requires
        asked != name,
    ensures
        #[trigger] n.with_scalar_opt::<T>(name, v).attribute_opt::<U>(asked) == n.attribute_opt::<
            U,
        >(asked),
{
    broadcast use lemma_optional_attribute, lemma_optional_attribute_rest, Name::text_injective;

    reveal(NodeView::attribute_opt);
}

/// Writing one attribute leaves what is read from another as it was.
pub broadcast proof fn lemma_attribute_miss_always<T: Scalar, U: Scalar>(
    n: NodeView,
    name: Name,
    v: T::V,
    asked: Name,
)
    requires
        asked != name,
    ensures
        #[trigger] n.with_scalar::<T>(name, v).attribute_opt::<U>(asked) == n.attribute_opt::<U>(
            asked,
        ),
{
    broadcast use lemma_optional_attribute, lemma_optional_attribute_rest, Name::text_injective;

    reveal(NodeView::attribute_opt);
}

/// Appending children leaves what is read from the attributes as it was.
pub broadcast proof fn lemma_attribute_past_children<U: Scalar>(
    n: NodeView,
    more: Seq<NodeView>,
    asked: Name,
)
    ensures
        #[trigger] n.with_children(more).attribute_opt::<U>(asked) == n.attribute_opt::<U>(asked),
{
    reveal(NodeView::attribute_opt);
}

/// Setting the text leaves what is read from the attributes as it was.
pub broadcast proof fn lemma_attribute_past_content<T: Scalar, U: Scalar>(
    n: NodeView,
    v: T::V,
    asked: Name,
)
    ensures
        #[trigger] n.with_content::<T>(v).attribute_opt::<U>(asked) == n.attribute_opt::<U>(asked),
{
    reveal(NodeView::attribute_opt);
}

/// What the proofs of codecs rest on: how each step of writing an element
/// shows in each way of reading one.
pub broadcast group group_codec {
    lemma_attribute_new,
    lemma_attribute_hit,
    lemma_attribute_hit_always,
    lemma_attribute_miss,
    lemma_attribute_miss_always,
    lemma_attribute_past_children,
    lemma_attribute_past_content,
    lemma_optional_attribute_rest,
    Name::text_injective,
    Name::of_text_text,
    lemma_with_tag_empty,
    lemma_empty_add,
    lemma_text_nodes_tag,
    lemma_element_nodes_tag,
    lemma_encode_elements_tag,
    lemma_marker_nodes_tag,
}

impl NodeView {
    /// A `SchemaMismatch` at this element.
    pub open spec fn mismatch(self) -> DecodeErrorView {
        DecodeErrorView::at(ErrorKind::SchemaMismatch, self.tag)
    }

    /// A `MissingRequiredField` at this element.
    pub open spec fn missing(self) -> DecodeErrorView {
        DecodeErrorView::at(ErrorKind::MissingRequiredField, self.tag)
    }

    /// A `StructuralError` at this element.
    pub open spec fn unknown(self) -> DecodeErrorView {
        DecodeErrorView::at(ErrorKind::StructuralError, self.tag)
    }

    /// The only child with the given tag; none where there is none; a
    /// `SchemaMismatch` where there are several.
    #[verifier::opaque]
    pub open spec fn only_child(self, tag: Name) -> Result<Option<NodeView>, DecodeErrorView> {
        let found = self.children_with_tag(tag.text());
        if found.len() == 0 {
            Ok(None)
        } else if found.len() == 1 {
            Ok(Some(found[0]))
        } else {
            Err(self.mismatch())
        }
    }

    /// The scalar in the attribute with the given name, if the attribute is
    /// there.
    #[verifier::opaque]
    pub open spec fn attribute_opt<T: Scalar>(self, name: Name) -> Result<
        Option<T::V>,
        DecodeErrorView,
    > {
        match self.attribute(name.text()) {
            None => Ok(None),
            Some(t) => match T::parse(t) {
                Some(v) => Ok(Some(v)),
                None => Err(self.mismatch()),
            },
        }
    }

    /// The scalar in the attribute with the given name, or a default.
    pub open spec fn attribute_or<T: Scalar>(self, name: Name, default: T::V) -> Result<
        T::V,
        DecodeErrorView,
    > {
        match self.attribute_opt::<T>(name) {
            Err(e) => Err(e),
            Ok(Some(v)) => Ok(v),
            Ok(None) => Ok(default),
        }
    }

    /// The scalar in the attribute with the given name, which must be there.
    pub open spec fn attribute_required<T: Scalar>(self, name: Name) -> Result<
        T::V,
        DecodeErrorView,
    > {
        match self.attribute_opt::<T>(name) {
            Err(e) => Err(e),
            Ok(Some(v)) => Ok(v),
            Ok(None) => Err(self.missing()),
        }
    }

    /// The scalar that is the element's own text.
    #[verifier::opaque]
    pub open spec fn content<T: Scalar>(self) -> Result<T::V, DecodeErrorView> {
        match T::parse(self.text_or_empty()) {
            Some(v) => Ok(v),
            None => Err(self.mismatch()),
        }
    }

    /// The scalar that is the element's own text, or a default where the
    /// element has no text.
    #[verifier::opaque]
    pub open spec fn content_or<T: Scalar>(self, default: T::V) -> Result<T::V, DecodeErrorView> {
        if self.text is None {
            Ok(default)
        } else {
            self.content::<T>()
        }
    }

    /// The scalar that the element holds as its text or, where it has no
    /// text, as the tag of its only child; a default where it has neither. A
    /// `SchemaMismatch` where it has no text and several children.
    #[verifier::opaque]
    pub open spec fn content_marked_or<T: Scalar>(self, default: T::V) -> Result<
        T::V,
        DecodeErrorView,
    > {
        if self.text is Some {
            self.content::<T>()
        } else if self.children.len() == 0 {
            Ok(default)
        } else if self.children.len() == 1 {
            match T::parse(self.children[0].tag) {
                Some(v) => Ok(v),
                None => Err(self.mismatch()),
            }
        } else {
            Err(self.mismatch())
        }
    }

    /// The scalar that is the text of the only child with the given tag, if
    /// that child is there.
    #[verifier::opaque]
    pub open spec fn text_opt<T: Scalar>(self, tag: Name) -> Result<Option<T::V>, DecodeErrorView> {
        match self.only_child(tag) {
            Err(e) => Err(e),
            Ok(None) => Ok(None),
            Ok(Some(c)) => match c.content::<T>() {
                Ok(v) => Ok(Some(v)),
                Err(e) => Err(e.under(self.tag)),
            },
        }
    }

    /// The scalar that is the text of the only child with the given tag, or
    /// a default.
    #[verifier::opaque]
    pub open spec fn text_or<T: Scalar>(self, tag: Name, default: T::V) -> Result<
        T::V,
        DecodeErrorView,
    > {
        match self.text_opt::<T>(tag) {
            Err(e) => Err(e),
            Ok(Some(v)) => Ok(v),
            Ok(None) => Ok(default),
        }
    }

    /// The scalar that is the text of the only child with the given tag,
    /// which must be there.
    #[verifier::opaque]
    pub open spec fn text_required<T: Scalar>(self, tag: Name) -> Result<T::V, DecodeErrorView> {
        match self.text_opt::<T>(tag) {
            Err(e) => Err(e),
            Ok(Some(v)) => Ok(v),
            Ok(None) => Err(self.missing()),
        }
    }

    /// The number of children with the given tag.
    #[verifier::opaque]
    pub open spec fn marker_count(self, tag: Name) -> nat {
        self.children_with_tag(tag.text()).len()
    }

    /// Whether a child with the given tag is there.
    #[verifier::opaque]
    pub open spec fn marker(self, tag: Name) -> bool {
        self.marker_count(tag) > 0
    }

    /// The value that the only child with the given tag denotes, if that
    /// child is there.
    #[verifier::opaque]
    pub open spec fn element_opt<T: Element>(self, tag: Name) -> Result<
        Option<T::V>,
        DecodeErrorView,
    > {
        match self.only_child(tag) {
            Err(e) => Err(e),
            Ok(None) => Ok(None),
            Ok(Some(c)) => match T::decode(c) {
                Ok(v) => Ok(Some(v)),
                Err(e) => Err(e.under(self.tag)),
            },
        }
    }

    /// The value that the only child with the given tag denotes, or a
    /// default.
    #[verifier::opaque]
    pub open spec fn element_or<T: Element>(self, tag: Name, default: T::V) -> Result<
        T::V,
        DecodeErrorView,
    > {
        match self.element_opt::<T>(tag) {
            Err(e) => Err(e),
            Ok(Some(v)) => Ok(v),
            Ok(None) => Ok(default),
        }
    }

    /// The values that the children with the given tag denote, in document
    /// order.
    #[verifier::opaque]
    pub open spec fn elements<T: Element>(self, tag: Name) -> Result<Seq<T::V>, DecodeErrorView> {
        decode_elements::<T>(self.children_with_tag(tag.text()), self.tag)
    }

    /// The variants that the children denote, in document order.
    #[verifier::opaque]
    pub open spec fn variants<T: Tagged>(self) -> Result<Seq<T::V>, DecodeErrorView> {
        decode_variants::<T>(self.children, self.tag)
    }

    /// The variants that the children other than those with the given tag
    /// denote, in document order.
    #[verifier::opaque]
    pub open spec fn variants_except<T: Tagged>(self, tag: Name) -> Result<
        Seq<T::V>,
        DecodeErrorView,
    > {
        decode_variants::<T>(self.children_without_tag(tag.text()), self.tag)
    }

    /// The element with one more attribute, the text of a scalar.
    pub open spec fn with_scalar<T: Scalar>(self, name: Name, v: T::V) -> NodeView {
        self.with_optional_attribute(name.text(), Some(T::text(v)))
    }

    /// The element with one more attribute where the scalar is there.
    pub open spec fn with_scalar_opt<T: Scalar>(self, name: Name, v: Option<T::V>) -> NodeView {
        self.with_optional_attribute(
            name.text(),
            match v {
                Some(x) => Some(T::text(x)),
                None => None,
            },
        )
    }

    /// The element with the text of a scalar as its own text.
    pub open spec fn with_content<T: Scalar>(self, v: T::V) -> NodeView {
        self.with_text(T::text(v))
    }
}

impl Node {
    /// The only child with the given tag; none where there is none; a
    /// `SchemaMismatch` where there are several.
    pub fn only_child(&self, tag: Name) -> (r: Result<Option<&Node>, DecodeError>)
        ensures
            r matches Ok(v) ==>
                self.deep_view().only_child(tag)
                    == Ok::<Option<NodeView>, DecodeErrorView>(v.deep_view()),
            r matches Err(e) ==>
                self.deep_view().only_child(tag)
                    == Err::<Option<NodeView>, DecodeErrorView>(e.deep_view()),
    {
        proof {
            reveal(NodeView::only_child);
        }
        let found = self.children_with_tag(tag.as_str());
        if found.len() == 0 {
            Ok(None)
        } else if found.len() == 1 {
            Ok(Some(found[0]))
        } else {
            Err(DecodeError::at(ErrorKind::SchemaMismatch, self.tag_str()))
        }
    }

    /// The scalar in the attribute with the given name, if the attribute is
    /// there.
    pub fn attribute_opt<T: Scalar>(&self, name: Name) -> (r: Result<Option<T>, DecodeError>)
        ensures
            r matches Ok(v) ==>
                self.deep_view().attribute_opt::<T>(name)
                    == Ok::<Option<T::V>, DecodeErrorView>(v.deep_view()),
            r matches Err(e) ==>
                self.deep_view().attribute_opt::<T>(name)
                    == Err::<Option<T::V>, DecodeErrorView>(e.deep_view()),
    {
        proof {
            reveal(NodeView::attribute_opt);
        }
        match self.attribute(name.as_str()) {
            None => Ok(None),
            Some(t) => match T::from_text(t.as_str()) {
                Some(v) => Ok(Some(v)),
                None => Err(DecodeError::at(ErrorKind::SchemaMismatch, self.tag_str())),
            },
        }
    }

    /// The scalar in the attribute with the given name, or a default.
    pub fn attribute_or<T: Scalar>(&self, name: Name, default: T) -> (r: Result<T, DecodeError>)
        ensures
            r matches Ok(v) ==>
                self.deep_view().attribute_or::<T>(name, default.deep_view())
                    == Ok::<T::V, DecodeErrorView>(v.deep_view()),
            r matches Err(e) ==>
                self.deep_view().attribute_or::<T>(name, default.deep_view())
                    == Err::<T::V, DecodeErrorView>(e.deep_view()),
    {
        match self.attribute_opt::<T>(name) {
            Err(e) => Err(e),
            Ok(Some(v)) => Ok(v),
            Ok(None) => Ok(default),
        }
    }

    /// The scalar in the attribute with the given name, which must be there.
    pub fn attribute_required<T: Scalar>(&self, name: Name) -> (r: Result<T, DecodeError>)
        ensures
            r matches Ok(v) ==>
                self.deep_view().attribute_required::<T>(name)
                    == Ok::<T::V, DecodeErrorView>(v.deep_view()),
            r matches Err(e) ==>
                self.deep_view().attribute_required::<T>(name)
                    == Err::<T::V, DecodeErrorView>(e.deep_view()),
    {
        match self.attribute_opt::<T>(name) {
            Err(e) => Err(e),
            Ok(Some(v)) => Ok(v),
            Ok(None) => Err(DecodeError::at(ErrorKind::MissingRequiredField, self.tag_str())),
        }
    }

    /// The scalar that is the element's own text.
    pub fn content<T: Scalar>(&self) -> (r: Result<T, DecodeError>)
        ensures
            r matches Ok(v) ==>
                self.deep_view().content::<T>() == Ok::<T::V, DecodeErrorView>(v.deep_view()),
            r matches Err(e) ==>
                self.deep_view().content::<T>() == Err::<T::V, DecodeErrorView>(e.deep_view()),
    {
        proof {
            reveal(NodeView::content);
        }
        match T::from_text(self.text_or_empty()) {
            Some(v) => Ok(v),
            None => Err(DecodeError::at(ErrorKind::SchemaMismatch, self.tag_str())),
        }
    }

    /// The scalar that is the element's own text, or a default where the
    /// element has no text.
    pub fn content_or<T: Scalar>(&self, default: T) -> (r: Result<T, DecodeError>)
        ensures
            r matches Ok(v) ==>
                self.deep_view().content_or::<T>(default.deep_view())
                    == Ok::<T::V, DecodeErrorView>(v.deep_view()),
            r matches Err(e) ==>
                self.deep_view().content_or::<T>(default.deep_view())
                    == Err::<T::V, DecodeErrorView>(e.deep_view()),
    {
        proof {
            reveal(NodeView::content_or);
        }
        if !self.has_text() {
            Ok(default)
        } else {
            self.content::<T>()
        }
    }

    /// The scalar that the element holds as its text or, where it has no
    /// text, as the tag of its only child; a default where it has neither.
    pub fn content_marked_or<T: Scalar>(&self, default: T) -> (r: Result<T, DecodeError>)
        ensures
            r matches Ok(v) ==> self.deep_view().content_marked_or::<T>(default.deep_view())
                == Ok::<T::V, DecodeErrorView>(v.deep_view()),
            r matches Err(e) ==> self.deep_view().content_marked_or::<T>(default.deep_view())
                == Err::<T::V, DecodeErrorView>(e.deep_view()),
    {
        proof {
            reveal(NodeView::content_marked_or);
        }
        if self.has_text() {
            self.content::<T>()
        } else {
            let children = self.all_children();
            if children.len() == 0 {
                Ok(default)
            } else if children.len() == 1 {
                match T::from_text(children[0].tag_str()) {
                    Some(v) => Ok(v),
                    None => Err(DecodeError::at(ErrorKind::SchemaMismatch, self.tag_str())),
                }
            } else {
                Err(DecodeError::at(ErrorKind::SchemaMismatch, self.tag_str()))
            }
        }
    }

    /// The scalar that is the text of the only child with the given tag, if
    /// that child is there.
    pub fn text_opt<T: Scalar>(&self, tag: Name) -> (r: Result<Option<T>, DecodeError>)
        ensures
            r matches Ok(v) ==>
                self.deep_view().text_opt::<T>(tag)
                    == Ok::<Option<T::V>, DecodeErrorView>(v.deep_view()),
            r matches Err(e) ==>
                self.deep_view().text_opt::<T>(tag)
                    == Err::<Option<T::V>, DecodeErrorView>(e.deep_view()),
    {
        proof {
            reveal(NodeView::text_opt);
        }
        match self.only_child(tag) {
            Err(e) => Err(e),
            Ok(None) => Ok(None),
            Ok(Some(c)) => match c.content::<T>() {
                Ok(v) => Ok(Some(v)),
                Err(e) => Err(e.under(self.tag_str())),
            },
        }
    }

    /// The scalar that is the text of the only child with the given tag, or
    /// a default.
    pub fn text_or<T: Scalar>(&self, tag: Name, default: T) -> (r: Result<T, DecodeError>)
        ensures
            r matches Ok(v) ==>
                self.deep_view().text_or::<T>(tag, default.deep_view())
                    == Ok::<T::V, DecodeErrorView>(v.deep_view()),
            r matches Err(e) ==>
                self.deep_view().text_or::<T>(tag, default.deep_view())
                    == Err::<T::V, DecodeErrorView>(e.deep_view()),
    {
        proof {
            reveal(NodeView::text_or);
        }
        match self.text_opt::<T>(tag) {
            Err(e) => Err(e),
            Ok(Some(v)) => Ok(v),
            Ok(None) => Ok(default),
        }
    }

    /// The scalar that is the text of the only child with the given tag,
    /// which must be there.
    pub fn text_required<T: Scalar>(&self, tag: Name) -> (r: Result<T, DecodeError>)
        ensures
            r matches Ok(v) ==>
                self.deep_view().text_required::<T>(tag)
                    == Ok::<T::V, DecodeErrorView>(v.deep_view()),
            r matches Err(e) ==>
                self.deep_view().text_required::<T>(tag)
                    == Err::<T::V, DecodeErrorView>(e.deep_view()),
    {
        proof {
            reveal(NodeView::text_required);
        }
        match self.text_opt::<T>(tag) {
            Err(e) => Err(e),
            Ok(Some(v)) => Ok(v),
            Ok(None) => Err(DecodeError::at(ErrorKind::MissingRequiredField, self.tag_str())),
        }
    }

    /// The number of children with the given tag.
    pub fn marker_count(&self, tag: Name) -> (r: usize)
        ensures
            r == self.deep_view().marker_count(tag),
    {
        proof {
            reveal(NodeView::marker_count);
        }
        let found = self.children_with_tag(tag.as_str());
        assert(found.deep_view().len() == found.len());
        found.len()
    }

    /// Whether a child with the given tag is there.
    pub fn marker(&self, tag: Name) -> (r: bool)
        ensures
            r == self.deep_view().marker(tag),
    {
        proof {
            reveal(NodeView::marker);
        }
        self.marker_count(tag) > 0
    }

    /// The value that the only child with the given tag denotes, if that
    /// child is there.
    pub fn element_opt<T: Element>(&self, tag: Name) -> (r: Result<Option<T>, DecodeError>)
        ensures
            r matches Ok(v) ==>
                self.deep_view().element_opt::<T>(tag)
                    == Ok::<Option<T::V>, DecodeErrorView>(v.deep_view()),
            r matches Err(e) ==>
                self.deep_view().element_opt::<T>(tag)
                    == Err::<Option<T::V>, DecodeErrorView>(e.deep_view()),
    {
        proof {
            reveal(NodeView::element_opt);
        }
        match self.only_child(tag) {
            Err(e) => Err(e),
            Ok(None) => Ok(None),
            Ok(Some(c)) => match T::from_node(c) {
                Ok(v) => Ok(Some(v)),
                Err(e) => Err(e.under(self.tag_str())),
            },
        }
    }

    /// The value that the only child with the given tag denotes, or a
    /// default.
    pub fn element_or<T: Element>(&self, tag: Name, default: T) -> (r: Result<T, DecodeError>)
        ensures
            r matches Ok(v) ==>
                self.deep_view().element_or::<T>(tag, default.deep_view())
                    == Ok::<T::V, DecodeErrorView>(v.deep_view()),
            r matches Err(e) ==>
                self.deep_view().element_or::<T>(tag, default.deep_view())
                    == Err::<T::V, DecodeErrorView>(e.deep_view()),
    {
        proof {
            reveal(NodeView::element_or);
        }
        match self.element_opt::<T>(tag) {
            Err(e) => Err(e),
            Ok(Some(v)) => Ok(v),
            Ok(None) => Ok(default),
        }
    }

    /// The values that the children with the given tag denote, in document
    /// order.
    pub fn elements<T: Element>(&self, tag: Name) -> (r: Result<Vec<T>, DecodeError>)
        ensures
            r matches Ok(v) ==>
                self.deep_view().elements::<T>(tag)
                    == Ok::<Seq<T::V>, DecodeErrorView>(v.deep_view()),
            r matches Err(e) ==>
                self.deep_view().elements::<T>(tag)
                    == Err::<Seq<T::V>, DecodeErrorView>(e.deep_view()),
    {
        proof {
            reveal(NodeView::elements);
        }
        let found = self.children_with_tag(tag.as_str());
        let ghost nodes = found.deep_view();
        let mut values: Vec<T> = Vec::new();
        let mut i: usize = 0;
        proof {
            assert(nodes.subrange(0, 0) =~= Seq::empty());
            assert(values.deep_view() =~= Seq::empty());
        }
        while i < found.len()
            invariant
                i <= found.len(),
                nodes == found.deep_view(),
                nodes == self.deep_view().children_with_tag(tag.text()),
                nodes.len() == found.len(),
                decode_elements::<T>(nodes.subrange(0, i as int), self.deep_view().tag) == Ok::<
                    Seq<T::V>,
                    DecodeErrorView,
                >(values.deep_view()),
            decreases found.len() - i,
        {
            let ghost before = values.deep_view();
            proof {
                assert(nodes.subrange(0, i + 1).drop_last() =~= nodes.subrange(0, i as int));
                assert(nodes.subrange(0, i + 1).last() == found[i as int].deep_view());
            }
            match T::from_node(found[i]) {
                Err(e) => {
                    proof {
                        reveal(NodeView::elements);
                        lemma_decode_elements_fail::<T>(nodes, self.deep_view().tag, i + 1);
                    }
                    return Err(e.under(self.tag_str()));
                },
                Ok(v) => {
                    values.push(v);
                    proof {
                        assert(values.deep_view() =~= before.push(v.deep_view()));
                    }
                },
            }
            i = i + 1;
        }
        proof {
            assert(nodes.subrange(0, i as int) =~= nodes);
        }
        Ok(values)
    }

    /// The variants that the given children denote, in their order.
    fn variants_of<T: Tagged>(&self, found: &Vec<&Node>) -> (r: Result<Vec<T>, DecodeError>)
        ensures
            r matches Ok(v) ==>
                decode_variants::<T>(found.deep_view(), self.deep_view().tag)
                    == Ok::<Seq<T::V>, DecodeErrorView>(v.deep_view()),
            r matches Err(e) ==>
                decode_variants::<T>(found.deep_view(), self.deep_view().tag)
                    == Err::<Seq<T::V>, DecodeErrorView>(e.deep_view()),
    {
        let ghost nodes = found.deep_view();
        let mut values: Vec<T> = Vec::new();
        let mut i: usize = 0;
        proof {
            assert(nodes.subrange(0, 0) =~= Seq::empty());
            assert(values.deep_view() =~= Seq::empty());
        }
        while i < found.len()
            invariant
                i <= found.len(),
                nodes == found.deep_view(),
                nodes.len() == found.len(),
                decode_variants::<T>(nodes.subrange(0, i as int), self.deep_view().tag) == Ok::<
                    Seq<T::V>,
                    DecodeErrorView,
                >(values.deep_view()),
            decreases found.len() - i,
        {
            let ghost before = values.deep_view();
            proof {
                assert(nodes.subrange(0, i + 1).drop_last() =~= nodes.subrange(0, i as int));
                assert(nodes.subrange(0, i + 1).last() == found[i as int].deep_view());
            }
            match T::from_node(found[i]) {
                Err(e) => {
                    proof {
                        lemma_decode_variants_fail::<T>(nodes, self.deep_view().tag, i + 1);
                    }
                    return Err(e.under(self.tag_str()));
                },
                Ok(v) => {
                    values.push(v);
                    proof {
                        assert(values.deep_view() =~= before.push(v.deep_view()));
                    }
                },
            }
            i = i + 1;
        }
        proof {
            assert(nodes.subrange(0, i as int) =~= nodes);
        }
        Ok(values)
    }

    /// The variants that the children denote, in document order.
    pub fn variants<T: Tagged>(&self) -> (r: Result<Vec<T>, DecodeError>)
        ensures
            r matches Ok(v) ==>
                self.deep_view().variants::<T>() == Ok::<Seq<T::V>, DecodeErrorView>(v.deep_view()),
            r matches Err(e) ==>
                self.deep_view().variants::<T>()
                    == Err::<Seq<T::V>, DecodeErrorView>(e.deep_view()),
    {
        proof {
            reveal(NodeView::variants);
        }
        let found = self.all_children();
        self.variants_of::<T>(&found)
    }

    /// The variants that the children other than those with the given tag
    /// denote, in document order.
    pub fn variants_except<T: Tagged>(&self, tag: Name) -> (r: Result<Vec<T>, DecodeError>)
        ensures
            r matches Ok(v) ==>
                self.deep_view().variants_except::<T>(tag)
                    == Ok::<Seq<T::V>, DecodeErrorView>(v.deep_view()),
            r matches Err(e) ==>
                self.deep_view().variants_except::<T>(tag)
                    == Err::<Seq<T::V>, DecodeErrorView>(e.deep_view()),
    {
        proof {
            reveal(NodeView::variants_except);
        }
        let found = self.children_without_tag(tag.as_str());
        self.variants_of::<T>(&found)
    }

    /// Adds an attribute that holds the text of a scalar.
    pub fn put_scalar<T: Scalar>(&mut self, name: Name, v: &T)
        ensures
            final(self).deep_view() == old(self).deep_view().with_scalar::<T>(name, v.deep_view()),
    {
        proof {
            reveal(NodeView::with_optional_attribute);
        }
        self.set_attribute(name.as_str(), v.to_text());
    }

    /// Adds an attribute where the scalar is there.
    pub fn put_scalar_opt<T: Scalar>(&mut self, name: Name, v: &Option<T>)
        ensures
            final(self).deep_view() == old(self).deep_view().with_scalar_opt::<T>(
                name,
                v.deep_view(),
            ),
    {
        proof {
            reveal(NodeView::with_optional_attribute);
        }
        match v {
            Some(x) => self.put_scalar::<T>(name, x),
            None => {},
        }
    }

    /// Sets the element's own text to the text of a scalar.
    pub fn put_content<T: Scalar>(&mut self, v: &T)
        ensures
            final(self).deep_view() == old(self).deep_view().with_content::<T>(v.deep_view()),
    {
        self.set_text(v.to_text());
    }

    /// Appends a child that holds the text of a scalar.
    pub fn put_text<T: Scalar>(&mut self, tag: Name, v: &T)
        ensures
            final(self).deep_view() == old(self).deep_view().with_children(
                text_nodes::<T>(tag, Some(v.deep_view())),
            ),
    {
        let mut child = Node::new(tag.as_str());
        child.set_text(v.to_text());
        let ghost before = self.deep_view().children;
        self.push_child(child);
        proof {
            assert(before.push(child.deep_view()) =~= before + text_nodes::<T>(
                tag,
                Some(v.deep_view()),
            ));
        }
    }

    /// Appends a child that holds the text of a scalar, where the scalar is
    /// there.
    pub fn put_text_opt<T: Scalar>(&mut self, tag: Name, v: &Option<T>)
        ensures
            final(self).deep_view() == old(self).deep_view().with_children(
                text_nodes::<T>(tag, v.deep_view()),
            ),
    {
        match v {
            Some(x) => self.put_text::<T>(tag, x),
            None => {
                proof {
                    let n = self.deep_view();
                    assert(n.children + Seq::<NodeView>::empty() =~= n.children);
                }
            },
        }
    }

    /// Appends `count` empty children with the given tag.
    pub fn put_markers(&mut self, tag: Name, count: usize)
        ensures
            final(self).deep_view() == old(self).deep_view().with_children(
                marker_nodes(tag, count as nat),
            ),
    {
        let ghost start = self.deep_view();
        let mut i: usize = 0;
        proof {
            assert(start.children + marker_nodes(tag, 0) =~= start.children);
        }
        while i < count
            invariant
                i <= count,
                self.deep_view() == start.with_children(marker_nodes(tag, i as nat)),
            decreases count - i,
        {
            self.push_child(Node::new(tag.as_str()));
            proof {
                assert((start.children + marker_nodes(tag, i as nat)).push(
                    NodeView::new(tag.text()),
                ) =~= start.children + marker_nodes(tag, (i + 1) as nat));
            }
            i = i + 1;
        }
    }

    /// Appends an empty child with the given tag where `present` is set.
    pub fn put_marker(&mut self, tag: Name, present: bool)
        ensures
            final(self).deep_view() == old(self).deep_view().with_children(
                marker_nodes(tag, if present { 1nat } else { 0nat }),
            ),
    {
        if present {
            self.put_markers(tag, 1);
        } else {
            self.put_markers(tag, 0);
        }
    }

    /// Appends the element of a value.
    pub fn put_element<T: Element>(&mut self, tag: Name, v: &T)
        ensures
            final(self).deep_view() == old(self).deep_view().with_children(
                element_nodes::<T>(tag, Some(v.deep_view())),
            ),
    {
        let child = v.to_node(tag.as_str());
        let ghost before = self.deep_view().children;
        self.push_child(child);
        proof {
            assert(before.push(child.deep_view()) =~= before + element_nodes::<T>(
                tag,
                Some(v.deep_view()),
            ));
        }
    }

    /// Appends the element of a value, where the value is there.
    pub fn put_element_opt<T: Element>(&mut self, tag: Name, v: &Option<T>)
        ensures
            final(self).deep_view() == old(self).deep_view().with_children(
                element_nodes::<T>(tag, v.deep_view()),
            ),
    {
        match v {
            Some(x) => self.put_element::<T>(tag, x),
            None => {
                proof {
                    let n = self.deep_view();
                    assert(n.children + Seq::<NodeView>::empty() =~= n.children);
                }
            },
        }
    }

    /// Appends the elements of a list of values.
    pub fn put_elements<T: Element>(&mut self, tag: Name, vs: &Vec<T>)
        ensures
            final(self).deep_view() == old(self).deep_view().with_children(
                encode_elements::<T>(tag, vs.deep_view()),
            ),
    {
        let ghost start = self.deep_view();
        let ghost values = vs.deep_view();
        let mut i: usize = 0;
        proof {
            assert(start.children + encode_elements::<T>(tag, values.subrange(0, 0))
                =~= start.children);
        }
        while i < vs.len()
            invariant
                i <= vs.len(),
                values == vs.deep_view(),
                values.len() == vs.len(),
                self.deep_view() == start.with_children(
                    encode_elements::<T>(tag, values.subrange(0, i as int)),
                ),
            decreases vs.len() - i,
        {
            let child = vs[i].to_node(tag.as_str());
            self.push_child(child);
            proof {
                assert(values[i as int] == vs[i as int].deep_view());
                assert((start.children + encode_elements::<T>(
                    tag,
                    values.subrange(0, i as int),
                )).push(child.deep_view()) =~= start.children + encode_elements::<T>(
                    tag,
                    values.subrange(0, i + 1),
                ));
            }
            i = i + 1;
        }
        proof {
            assert(values.subrange(0, i as int) =~= values);
        }
    }

    /// Appends the elements of a list of variants.
    pub fn put_variants<T: Tagged>(&mut self, vs: &Vec<T>)
        ensures
            final(self).deep_view() == old(self).deep_view().with_children(
                encode_variants::<T>(vs.deep_view()),
            ),
    {
        let ghost start = self.deep_view();
        let ghost values = vs.deep_view();
        let mut i: usize = 0;
        proof {
            assert(start.children + encode_variants::<T>(values.subrange(0, 0))
                =~= start.children);
        }
        while i < vs.len()
            invariant
                i <= vs.len(),
                values == vs.deep_view(),
                values.len() == vs.len(),
                self.deep_view() == start.with_children(
                    encode_variants::<T>(values.subrange(0, i as int)),
                ),
            decreases vs.len() - i,
        {
            let child = vs[i].to_node();
            self.push_child(child);
            proof {
                assert(values[i as int] == vs[i as int].deep_view());
                assert((start.children + encode_variants::<T>(values.subrange(0, i as int))).push(
                    child.deep_view(),
                ) =~= start.children + encode_variants::<T>(values.subrange(0, i + 1)));
            }
            i = i + 1;
        }
        proof {
            assert(values.subrange(0, i as int) =~= values);
        }
    }
}

/// Where an element of a list fails to decode, the list fails with that
/// error.
pub proof fn lemma_decode_elements_fail<T: Element>(nodes: Seq<NodeView>, parent: Seq<char>, k: int)
    requires
        0 < k <= nodes.len(),
        decode_elements::<T>(nodes.subrange(0, k - 1), parent) is Ok,
        T::decode(nodes[k - 1]) is Err,
    ensures
        decode_elements::<T>(nodes, parent) == Err::<Seq<T::V>, DecodeErrorView>(
            T::decode(nodes[k - 1])->Err_0.under(parent),
        ),
    decreases nodes.len() - k,
{
    if k == nodes.len() {
        assert(nodes.subrange(0, k) =~= nodes);
        assert(nodes.drop_last() =~= nodes.subrange(0, k - 1));
    } else {
        assert(nodes.drop_last().subrange(0, k - 1) =~= nodes.subrange(0, k - 1));
        lemma_decode_elements_fail::<T>(nodes.drop_last(), parent, k);
    }
}

/// Where a variant of a list fails to decode, the list fails with that
/// error.
pub proof fn lemma_decode_variants_fail<T: Tagged>(nodes: Seq<NodeView>, parent: Seq<char>, k: int)
    requires
        0 < k <= nodes.len(),
        decode_variants::<T>(nodes.subrange(0, k - 1), parent) is Ok,
        T::decode(nodes[k - 1]) is Err,
    ensures
        decode_variants::<T>(nodes, parent) == Err::<Seq<T::V>, DecodeErrorView>(
            T::decode(nodes[k - 1])->Err_0.under(parent),
        ),
    decreases nodes.len() - k,
{
    if k == nodes.len() {
        assert(nodes.subrange(0, k) =~= nodes);
        assert(nodes.drop_last() =~= nodes.subrange(0, k - 1));
    } else {
        assert(nodes.drop_last().subrange(0, k - 1) =~= nodes.subrange(0, k - 1));
        lemma_decode_variants_fail::<T>(nodes.drop_last(), parent, k);
    }
}

} // verus!
