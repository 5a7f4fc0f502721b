//! Identification of a score.
use crate::codec::{
    all_valid, Element, element_nodes, encode_elements, group_codec, lemma_decode_elements_valid,
    lemma_decode_encode_elements, text_nodes,
};
use crate::error::{DecodeError, DecodeErrorView};
use crate::names::Name;
use crate::node::{Node, NodeView};
use crate::yes_no::YesNo;
use vstd::prelude::*;

verus! {

/// A text with a type.
#[derive(Clone, Debug, PartialEq)]
pub struct TypedContent {
    /// The attribute `type`, if it is written.
    pub type_: Option<String>,
    /// The text of the element; the empty text where it has none.
    pub content: String,
}

/// The mathematical value of a [`TypedContent`].
pub struct TypedContentView {
    pub type_: Option<Seq<char>>,
    pub content: Seq<char>,
}

impl DeepView for TypedContent {
    type V = TypedContentView;

    open spec fn deep_view(&self) -> TypedContentView {
        TypedContentView {
            type_: self.type_.deep_view(),
            content: self.content.deep_view(),
        }
    }
}

impl TypedContent {
    /// The value with every field at its default.
    pub open spec fn initial() -> TypedContentView {
        TypedContentView {
            type_: None,
            content: Seq::<char>::empty(),
        }
    }
}

impl Default for TypedContent {
    fn default() -> (r: TypedContent)
        ensures
            r.deep_view() == TypedContent::initial(),
    {
        let r = TypedContent {
            type_: None,
            content: String::new(),
        };
        r
    }
}

impl TypedContent {
    /// The value that an element denotes. The fields are read in the order in
    /// which they are declared; the first one that fails gives the error.
    #[verifier::opaque]
    pub open spec fn decode_node(n: NodeView) -> Result<TypedContentView, DecodeErrorView> {
        let type_ = n.attribute_opt::<String>(Name::Type);
        let content = n.content_or::<String>(Seq::<char>::empty());
        if type_ is Err {
            Err(type_->Err_0)
        } else if content is Err {
            Err(content->Err_0)
        } else {
            Ok(
                TypedContentView {
                    type_: type_->Ok_0,
                    content: content->Ok_0,
                }
            )
        }
    }

    /// The element that a value is written as.
    #[verifier::opaque]
    pub open spec fn encode_value(v: TypedContentView, tag: Seq<char>) -> NodeView {
        NodeView::new(tag)
            .with_scalar_opt::<String>(Name::Type, v.type_)
            .with_content::<String>(v.content)
    }

    /// An encoded element bears the tag it was given.
    pub proof fn encoded_tag(v: TypedContentView, tag: Seq<char>)
        ensures
            TypedContent::encode_value(v, tag).tag == tag,
    {
        broadcast use group_codec;

        reveal(TypedContent::encode_value);
    }

    /// Decoding what was encoded gives the value back.
    pub proof fn round_trip(v: TypedContentView, tag: Seq<char>)
        requires
            <TypedContent as Element>::valid(v),
        ensures
            TypedContent::decode_node(TypedContent::encode_value(v, tag))
                == Ok::<TypedContentView, DecodeErrorView>(v),
    {
        broadcast use group_codec;

        let n = TypedContent::encode_value(v, tag);
        assert(
            n.attribute_opt::<String>(Name::Type)
                == Ok::<Option<Seq<char>>, DecodeErrorView>(v.type_)
        ) by {
            reveal(TypedContent::encode_value);
        }
        assert(
            n.content_or::<String>(Seq::<char>::empty())
                == Ok::<Seq<char>, DecodeErrorView>(v.content)
        ) by {
            reveal(TypedContent::encode_value);
            reveal(NodeView::content_or);
            reveal(NodeView::content);
        }
        reveal(TypedContent::decode_node);
    }

    /// Decoding gives valid values only.
    pub proof fn decoded_valid(n: NodeView)
        ensures
            TypedContent::decode_node(n) matches Ok(v) ==> <TypedContent as Element>::valid(v),
    {
        reveal(TypedContent::decode_node);
    }

    /// Decodes an element.
    pub fn read_node(node: &Node) -> (r: Result<TypedContent, DecodeError>)
        ensures
            r matches Ok(v) ==>
                TypedContent::decode_node(node.deep_view())
                    == Ok::<TypedContentView, DecodeErrorView>(
                v.deep_view(),
            ),
            r matches Err(e) ==>
                TypedContent::decode_node(node.deep_view())
                    == Err::<TypedContentView, DecodeErrorView>(
                e.deep_view(),
            ),
    {
        proof {
            reveal(TypedContent::decode_node);
        }
        let type_ = node.attribute_opt::<String>(Name::Type)?;
        let content = node.content_or::<String>(String::new())?;
        Ok(TypedContent { type_, content })
    }

    /// Encodes a value as an element with the given tag.
    pub fn write_node(&self, tag: &str) -> (r: Node)
        ensures
            r.deep_view() == TypedContent::encode_value(self.deep_view(), tag@),
    {
        proof {
            reveal(TypedContent::encode_value);
        }
        let mut node = Node::new(tag);
        node.put_scalar_opt::<String>(Name::Type, &self.type_);
        node.put_content::<String>(&self.content);
        node
    }
}

impl Element for TypedContent {
    open spec fn valid(v: TypedContentView) -> bool {
        true
    }

    open spec fn decode(n: NodeView) -> Result<TypedContentView, DecodeErrorView> {
        TypedContent::decode_node(n)
    }

    open spec fn encode(v: TypedContentView, tag: Seq<char>) -> NodeView {
        TypedContent::encode_value(v, tag)
    }

    proof fn encode_tag(v: TypedContentView, tag: Seq<char>) {
        TypedContent::encoded_tag(v, tag);
    }

    proof fn decode_encode(v: TypedContentView, tag: Seq<char>) {
        TypedContent::round_trip(v, tag);
    }

    proof fn decode_valid(n: NodeView) {
        TypedContent::decoded_valid(n);
    }

    fn from_node(node: &Node) -> (r: Result<TypedContent, DecodeError>) {
        TypedContent::read_node(node)
    }

    fn to_node(&self, tag: &str) -> (r: Node) {
        self.write_node(tag)
    }
}

/// A feature that the encoding supports.
#[derive(Clone, Debug, PartialEq)]
pub struct Supports {
    /// The attribute `element`; the empty text where it is not written.
    pub element: String,
    /// The attribute `type`; `YesNo::Yes` where it is not written.
    pub type_: YesNo,
    /// The attribute `attribute`, if it is written.
    pub attribute: Option<String>,
    /// The attribute `value`, if it is written.
    pub value: Option<String>,
}

/// The mathematical value of a [`Supports`].
pub struct SupportsView {
    pub element: Seq<char>,
    pub type_: YesNo,
    pub attribute: Option<Seq<char>>,
    pub value: Option<Seq<char>>,
}

impl DeepView for Supports {
    type V = SupportsView;

    open spec fn deep_view(&self) -> SupportsView {
        SupportsView {
            element: self.element.deep_view(),
            type_: self.type_.deep_view(),
            attribute: self.attribute.deep_view(),
            value: self.value.deep_view(),
        }
    }
}

impl Supports {
    /// The value with every field at its default.
    pub open spec fn initial() -> SupportsView {
        SupportsView {
            element: Seq::<char>::empty(),
            type_: YesNo::Yes,
            attribute: None,
            value: None,
        }
    }
}

impl Default for Supports {
    fn default() -> (r: Supports)
        ensures
            r.deep_view() == Supports::initial(),
    {
        let r = Supports {
            element: String::new(),
            type_: YesNo::Yes,
            attribute: None,
            value: None,
        };
        r
    }
}

impl Supports {
    /// The value that an element denotes. The fields are read in the order in
    /// which they are declared; the first one that fails gives the error.
    #[verifier::opaque]
    pub open spec fn decode_node(n: NodeView) -> Result<SupportsView, DecodeErrorView> {
        let element = n.attribute_or::<String>(Name::Element, Seq::<char>::empty());
        let type_ = n.attribute_or::<YesNo>(Name::Type, YesNo::Yes);
        let attribute = n.attribute_opt::<String>(Name::Attribute);
        let value = n.attribute_opt::<String>(Name::Value);
        if element is Err {
            Err(element->Err_0)
        } else if type_ is Err {
            Err(type_->Err_0)
        } else if attribute is Err {
            Err(attribute->Err_0)
        } else if value is Err {
            Err(value->Err_0)
        } else {
            Ok(
                SupportsView {
                    element: element->Ok_0,
                    type_: type_->Ok_0,
                    attribute: attribute->Ok_0,
                    value: value->Ok_0,
                }
            )
        }
    }

    /// The element that a value is written as.
    #[verifier::opaque]
    pub open spec fn encode_value(v: SupportsView, tag: Seq<char>) -> NodeView {
        NodeView::new(tag)
            .with_scalar::<String>(Name::Element, v.element)
            .with_scalar::<YesNo>(Name::Type, v.type_)
            .with_scalar_opt::<String>(Name::Attribute, v.attribute)
            .with_scalar_opt::<String>(Name::Value, v.value)
    }

    /// An encoded element bears the tag it was given.
    pub proof fn encoded_tag(v: SupportsView, tag: Seq<char>)
        ensures
            Supports::encode_value(v, tag).tag == tag,
    {
        broadcast use group_codec;

        reveal(Supports::encode_value);
    }

    /// Decoding what was encoded gives the value back.
    pub proof fn round_trip(v: SupportsView, tag: Seq<char>)
        requires
            <Supports as Element>::valid(v),
        ensures
            Supports::decode_node(Supports::encode_value(v, tag))
                == Ok::<SupportsView, DecodeErrorView>(v),
    {
        broadcast use group_codec;

        let n = Supports::encode_value(v, tag);
        assert(
            n.attribute_or::<String>(Name::Element, Seq::<char>::empty())
                == Ok::<Seq<char>, DecodeErrorView>(v.element)
        ) by {
            reveal(Supports::encode_value);
        }
        assert(
            n.attribute_or::<YesNo>(Name::Type, YesNo::Yes)
                == Ok::<YesNo, DecodeErrorView>(v.type_)
        ) by {
            reveal(Supports::encode_value);
        }
        assert(
            n.attribute_opt::<String>(Name::Attribute)
                == Ok::<Option<Seq<char>>, DecodeErrorView>(v.attribute)
        ) by {
            reveal(Supports::encode_value);
        }
        assert(
            n.attribute_opt::<String>(Name::Value)
                == Ok::<Option<Seq<char>>, DecodeErrorView>(v.value)
        ) by {
            reveal(Supports::encode_value);
        }
        reveal(Supports::decode_node);
    }

    /// Decoding gives valid values only.
    pub proof fn decoded_valid(n: NodeView)
        ensures
            Supports::decode_node(n) matches Ok(v) ==> <Supports as Element>::valid(v),
    {
        reveal(Supports::decode_node);
    }

    /// Decodes an element.
    pub fn read_node(node: &Node) -> (r: Result<Supports, DecodeError>)
        ensures
            r matches Ok(v) ==>
                Supports::decode_node(node.deep_view()) == Ok::<SupportsView, DecodeErrorView>(
                v.deep_view(),
            ),
            r matches Err(e) ==>
                Supports::decode_node(node.deep_view()) == Err::<SupportsView, DecodeErrorView>(
                e.deep_view(),
            ),
    {
        proof {
            reveal(Supports::decode_node);
        }
        let element = node.attribute_or::<String>(Name::Element, String::new())?;
        let type_ = node.attribute_or::<YesNo>(Name::Type, YesNo::Yes)?;
        let attribute = node.attribute_opt::<String>(Name::Attribute)?;
        let value = node.attribute_opt::<String>(Name::Value)?;
        Ok(Supports { element, type_, attribute, value })
    }

    /// Encodes a value as an element with the given tag.
    pub fn write_node(&self, tag: &str) -> (r: Node)
        ensures
            r.deep_view() == Supports::encode_value(self.deep_view(), tag@),
    {
        proof {
            reveal(Supports::encode_value);
        }
        let mut node = Node::new(tag);
        node.put_scalar::<String>(Name::Element, &self.element);
        node.put_scalar::<YesNo>(Name::Type, &self.type_);
        node.put_scalar_opt::<String>(Name::Attribute, &self.attribute);
        node.put_scalar_opt::<String>(Name::Value, &self.value);
        node
    }
}

impl Element for Supports {
    open spec fn valid(v: SupportsView) -> bool {
        true
    }

    open spec fn decode(n: NodeView) -> Result<SupportsView, DecodeErrorView> {
        Supports::decode_node(n)
    }

    open spec fn encode(v: SupportsView, tag: Seq<char>) -> NodeView {
        Supports::encode_value(v, tag)
    }

    proof fn encode_tag(v: SupportsView, tag: Seq<char>) {
        Supports::encoded_tag(v, tag);
    }

    proof fn decode_encode(v: SupportsView, tag: Seq<char>) {
        Supports::round_trip(v, tag);
    }

    proof fn decode_valid(n: NodeView) {
        Supports::decoded_valid(n);
    }

    fn from_node(node: &Node) -> (r: Result<Supports, DecodeError>) {
        Supports::read_node(node)
    }

    fn to_node(&self, tag: &str) -> (r: Node) {
        self.write_node(tag)
    }
}

/// Who encoded the score, when and with what.
#[derive(Clone, Debug, PartialEq)]
pub struct Encoding {
    /// The text of the child `encoding-date`, if the child is there.
    pub encoding_date: Option<String>,
    /// The children `encoder`, in document order.
    pub encoder: Vec<TypedContent>,
    /// The text of the child `software`, if the child is there.
    pub software: Option<String>,
    /// The text of the child `encoding-description`, if the child is there.
    pub encoding_description: Option<String>,
}

/// The mathematical value of a [`Encoding`].
pub struct EncodingView {
    pub encoding_date: Option<Seq<char>>,
    pub encoder: Seq<TypedContentView>,
    pub software: Option<Seq<char>>,
    pub encoding_description: Option<Seq<char>>,
}

impl DeepView for Encoding {
    type V = EncodingView;

    open spec fn deep_view(&self) -> EncodingView {
        EncodingView {
            encoding_date: self.encoding_date.deep_view(),
            encoder: self.encoder.deep_view(),
            software: self.software.deep_view(),
            encoding_description: self.encoding_description.deep_view(),
        }
    }
}

impl Encoding {
    /// The value with every field at its default.
    pub open spec fn initial() -> EncodingView {
        EncodingView {
            encoding_date: None,
            encoder: Seq::empty(),
            software: None,
            encoding_description: None,
        }
    }
}

impl Default for Encoding {
    fn default() -> (r: Encoding)
        ensures
            r.deep_view() == Encoding::initial(),
    {
        let r = Encoding {
            encoding_date: None,
            encoder: Vec::new(),
            software: None,
            encoding_description: None,
        };
        proof {
            assert(r.encoder.deep_view() =~= Seq::empty());
        }
        r
    }
}

impl Encoding {
    /// The value that an element denotes. The fields are read in the order in
    /// which they are declared; the first one that fails gives the error.
    #[verifier::opaque]
    pub open spec fn decode_node(n: NodeView) -> Result<EncodingView, DecodeErrorView> {
        let encoding_date = n.text_opt::<String>(Name::EncodingDate);
        let encoder = n.elements::<TypedContent>(Name::Encoder);
        let software = n.text_opt::<String>(Name::Software);
        let encoding_description = n.text_opt::<String>(Name::EncodingDescription);
        if encoding_date is Err {
            Err(encoding_date->Err_0)
        } else if encoder is Err {
            Err(encoder->Err_0)
        } else if software is Err {
            Err(software->Err_0)
        } else if encoding_description is Err {
            Err(encoding_description->Err_0)
        } else {
            Ok(
                EncodingView {
                    encoding_date: encoding_date->Ok_0,
                    encoder: encoder->Ok_0,
                    software: software->Ok_0,
                    encoding_description: encoding_description->Ok_0,
                }
            )
        }
    }

    /// The element that a value is written as.
    #[verifier::opaque]
    pub open spec fn encode_value(v: EncodingView, tag: Seq<char>) -> NodeView {
        NodeView::new(tag)
            .with_children(text_nodes::<String>(Name::EncodingDate, v.encoding_date))
            .with_children(encode_elements::<TypedContent>(Name::Encoder, v.encoder))
            .with_children(text_nodes::<String>(Name::Software, v.software))
            .with_children(text_nodes::<String>(Name::EncodingDescription, v.encoding_description))
    }

    /// An encoded element bears the tag it was given.
    pub proof fn encoded_tag(v: EncodingView, tag: Seq<char>)
        ensures
            Encoding::encode_value(v, tag).tag == tag,
    {
        broadcast use group_codec;

        reveal(Encoding::encode_value);
    }

    /// Decoding what was encoded gives the value back.
    pub proof fn round_trip(v: EncodingView, tag: Seq<char>)
        requires
            <Encoding as Element>::valid(v),
        ensures
            Encoding::decode_node(Encoding::encode_value(v, tag))
                == Ok::<EncodingView, DecodeErrorView>(v),
    {
        broadcast use group_codec;

        let n = Encoding::encode_value(v, tag);
        assert(
            n.text_opt::<String>(Name::EncodingDate)
                == Ok::<Option<Seq<char>>, DecodeErrorView>(v.encoding_date)
        ) by {
            reveal(Encoding::encode_value);
            reveal(NodeView::text_opt);
            reveal(NodeView::only_child);
            reveal(NodeView::content);
        }
        assert(
            n.elements::<TypedContent>(Name::Encoder)
                == Ok::<Seq<TypedContentView>, DecodeErrorView>(v.encoder)
        ) by {
            reveal(Encoding::encode_value);
            reveal(NodeView::elements);
            lemma_decode_encode_elements::<TypedContent>(Name::Encoder, v.encoder, tag);
        }
        assert(
            n.text_opt::<String>(Name::Software)
                == Ok::<Option<Seq<char>>, DecodeErrorView>(v.software)
        ) by {
            reveal(Encoding::encode_value);
            reveal(NodeView::text_opt);
            reveal(NodeView::only_child);
            reveal(NodeView::content);
        }
        assert(
            n.text_opt::<String>(Name::EncodingDescription)
                == Ok::<Option<Seq<char>>, DecodeErrorView>(v.encoding_description)
        ) by {
            reveal(Encoding::encode_value);
            reveal(NodeView::text_opt);
            reveal(NodeView::only_child);
            reveal(NodeView::content);
        }
        reveal(Encoding::decode_node);
    }

    /// Decoding gives valid values only.
    pub proof fn decoded_valid(n: NodeView)
        ensures
            Encoding::decode_node(n) matches Ok(v) ==> <Encoding as Element>::valid(v),
    {
        reveal(Encoding::decode_node);
        reveal(NodeView::elements);
        lemma_decode_elements_valid::<TypedContent>(
            n.children_with_tag(Name::Encoder.text()),
            n.tag,
        );
    }

    /// Decodes an element.
    pub fn read_node(node: &Node) -> (r: Result<Encoding, DecodeError>)
        ensures
            r matches Ok(v) ==>
                Encoding::decode_node(node.deep_view()) == Ok::<EncodingView, DecodeErrorView>(
                v.deep_view(),
            ),
            r matches Err(e) ==>
                Encoding::decode_node(node.deep_view()) == Err::<EncodingView, DecodeErrorView>(
                e.deep_view(),
            ),
    {
        proof {
            reveal(Encoding::decode_node);
        }
        let encoding_date = node.text_opt::<String>(Name::EncodingDate)?;
        let encoder = node.elements::<TypedContent>(Name::Encoder)?;
        let software = node.text_opt::<String>(Name::Software)?;
        let encoding_description = node.text_opt::<String>(Name::EncodingDescription)?;
        Ok(Encoding { encoding_date, encoder, software, encoding_description })
    }

    /// Encodes a value as an element with the given tag.
    pub fn write_node(&self, tag: &str) -> (r: Node)
        ensures
            r.deep_view() == Encoding::encode_value(self.deep_view(), tag@),
    {
        proof {
            reveal(Encoding::encode_value);
        }
        let mut node = Node::new(tag);
        node.put_text_opt::<String>(Name::EncodingDate, &self.encoding_date);
        node.put_elements::<TypedContent>(Name::Encoder, &self.encoder);
        node.put_text_opt::<String>(Name::Software, &self.software);
        node.put_text_opt::<String>(Name::EncodingDescription, &self.encoding_description);
        node
    }
}

impl Element for Encoding {
    open spec fn valid(v: EncodingView) -> bool {
        &&& all_valid::<TypedContent>(v.encoder)
    }

    open spec fn decode(n: NodeView) -> Result<EncodingView, DecodeErrorView> {
        Encoding::decode_node(n)
    }

    open spec fn encode(v: EncodingView, tag: Seq<char>) -> NodeView {
        Encoding::encode_value(v, tag)
    }

    proof fn encode_tag(v: EncodingView, tag: Seq<char>) {
        Encoding::encoded_tag(v, tag);
    }

    proof fn decode_encode(v: EncodingView, tag: Seq<char>) {
        Encoding::round_trip(v, tag);
    }

    proof fn decode_valid(n: NodeView) {
        Encoding::decoded_valid(n);
    }

    fn from_node(node: &Node) -> (r: Result<Encoding, DecodeError>) {
        Encoding::read_node(node)
    }

    fn to_node(&self, tag: &str) -> (r: Node) {
        self.write_node(tag)
    }
}

/// A named field of further information.
#[derive(Clone, Debug, PartialEq)]
pub struct MiscellaneousField {
    /// The attribute `name`; the empty text where it is not written.
    pub name: String,
    /// The text of the element; the empty text where it has none.
    pub content: String,
}

/// The mathematical value of a [`MiscellaneousField`].
pub struct MiscellaneousFieldView {
    pub name: Seq<char>,
    pub content: Seq<char>,
}

impl DeepView for MiscellaneousField {
    type V = MiscellaneousFieldView;

    open spec fn deep_view(&self) -> MiscellaneousFieldView {
        MiscellaneousFieldView {
            name: self.name.deep_view(),
            content: self.content.deep_view(),
        }
    }
}

impl MiscellaneousField {
    /// The value with every field at its default.
    pub open spec fn initial() -> MiscellaneousFieldView {
        MiscellaneousFieldView {
            name: Seq::<char>::empty(),
            content: Seq::<char>::empty(),
        }
    }
}

impl Default for MiscellaneousField {
    fn default() -> (r: MiscellaneousField)
        ensures
            r.deep_view() == MiscellaneousField::initial(),
    {
        let r = MiscellaneousField {
            name: String::new(),
            content: String::new(),
        };
        r
    }
}

impl MiscellaneousField {
    /// The value that an element denotes. The fields are read in the order in
    /// which they are declared; the first one that fails gives the error.
    #[verifier::opaque]
    pub open spec fn decode_node(n: NodeView) -> Result<MiscellaneousFieldView, DecodeErrorView> {
        let name = n.attribute_or::<String>(Name::Name, Seq::<char>::empty());
        let content = n.content_or::<String>(Seq::<char>::empty());
        if name is Err {
            Err(name->Err_0)
        } else if content is Err {
            Err(content->Err_0)
        } else {
            Ok(
                MiscellaneousFieldView {
                    name: name->Ok_0,
                    content: content->Ok_0,
                }
            )
        }
    }

    /// The element that a value is written as.
    #[verifier::opaque]
    pub open spec fn encode_value(v: MiscellaneousFieldView, tag: Seq<char>) -> NodeView {
        NodeView::new(tag)
            .with_scalar::<String>(Name::Name, v.name)
            .with_content::<String>(v.content)
    }

    /// An encoded element bears the tag it was given.
    pub proof fn encoded_tag(v: MiscellaneousFieldView, tag: Seq<char>)
        ensures
            MiscellaneousField::encode_value(v, tag).tag == tag,
    {
        broadcast use group_codec;

        reveal(MiscellaneousField::encode_value);
    }

    /// Decoding what was encoded gives the value back.
    pub proof fn round_trip(v: MiscellaneousFieldView, tag: Seq<char>)
        requires
            <MiscellaneousField as Element>::valid(v),
        ensures
            MiscellaneousField::decode_node(MiscellaneousField::encode_value(v, tag))
                == Ok::<MiscellaneousFieldView, DecodeErrorView>(v),
    {
        broadcast use group_codec;

        let n = MiscellaneousField::encode_value(v, tag);
        assert(
            n.attribute_or::<String>(Name::Name, Seq::<char>::empty())
                == Ok::<Seq<char>, DecodeErrorView>(v.name)
        ) by {
            reveal(MiscellaneousField::encode_value);
        }
        assert(
            n.content_or::<String>(Seq::<char>::empty())
                == Ok::<Seq<char>, DecodeErrorView>(v.content)
        ) by {
            reveal(MiscellaneousField::encode_value);
            reveal(NodeView::content_or);
            reveal(NodeView::content);
        }
        reveal(MiscellaneousField::decode_node);
    }

    /// Decoding gives valid values only.
    pub proof fn decoded_valid(n: NodeView)
        ensures
            MiscellaneousField::decode_node(n) matches Ok(v) ==>
                <MiscellaneousField as Element>::valid(v),
    {
        reveal(MiscellaneousField::decode_node);
    }

    /// Decodes an element.
    pub fn read_node(node: &Node) -> (r: Result<MiscellaneousField, DecodeError>)
        ensures
            r matches Ok(v) ==>
                MiscellaneousField::decode_node(node.deep_view())
                    == Ok::<MiscellaneousFieldView, DecodeErrorView>(
                v.deep_view(),
            ),
            r matches Err(e) ==>
                MiscellaneousField::decode_node(node.deep_view())
                    == Err::<MiscellaneousFieldView, DecodeErrorView>(
                e.deep_view(),
            ),
    {
        proof {
            reveal(MiscellaneousField::decode_node);
        }
        let name = node.attribute_or::<String>(Name::Name, String::new())?;
        let content = node.content_or::<String>(String::new())?;
        Ok(MiscellaneousField { name, content })
    }

    /// Encodes a value as an element with the given tag.
    pub fn write_node(&self, tag: &str) -> (r: Node)
        ensures
            r.deep_view() == MiscellaneousField::encode_value(self.deep_view(), tag@),
    {
        proof {
            reveal(MiscellaneousField::encode_value);
        }
        let mut node = Node::new(tag);
        node.put_scalar::<String>(Name::Name, &self.name);
        node.put_content::<String>(&self.content);
        node
    }
}

impl Element for MiscellaneousField {
    open spec fn valid(v: MiscellaneousFieldView) -> bool {
        true
    }

    open spec fn decode(n: NodeView) -> Result<MiscellaneousFieldView, DecodeErrorView> {
        MiscellaneousField::decode_node(n)
    }

    open spec fn encode(v: MiscellaneousFieldView, tag: Seq<char>) -> NodeView {
        MiscellaneousField::encode_value(v, tag)
    }

    proof fn encode_tag(v: MiscellaneousFieldView, tag: Seq<char>) {
        MiscellaneousField::encoded_tag(v, tag);
    }

    proof fn decode_encode(v: MiscellaneousFieldView, tag: Seq<char>) {
        MiscellaneousField::round_trip(v, tag);
    }

    proof fn decode_valid(n: NodeView) {
        MiscellaneousField::decoded_valid(n);
    }

    fn from_node(node: &Node) -> (r: Result<MiscellaneousField, DecodeError>) {
        MiscellaneousField::read_node(node)
    }

    fn to_node(&self, tag: &str) -> (r: Node) {
        self.write_node(tag)
    }
}

/// Further information, field by field.
#[derive(Clone, Debug, PartialEq)]
pub struct Miscellaneous {
    /// The children `miscellaneous-field`, in document order.
    pub miscellaneous_fields: Vec<MiscellaneousField>,
}

/// The mathematical value of a [`Miscellaneous`].
pub struct MiscellaneousView {
    pub miscellaneous_fields: Seq<MiscellaneousFieldView>,
}

impl DeepView for Miscellaneous {
    type V = MiscellaneousView;

    open spec fn deep_view(&self) -> MiscellaneousView {
        MiscellaneousView {
            miscellaneous_fields: self.miscellaneous_fields.deep_view(),
        }
    }
}

impl Miscellaneous {
    /// The value with every field at its default.
    pub open spec fn initial() -> MiscellaneousView {
        MiscellaneousView {
            miscellaneous_fields: Seq::empty(),
        }
    }
}

impl Default for Miscellaneous {
    fn default() -> (r: Miscellaneous)
        ensures
            r.deep_view() == Miscellaneous::initial(),
    {
        let r = Miscellaneous {
            miscellaneous_fields: Vec::new(),
        };
        proof {
            assert(r.miscellaneous_fields.deep_view() =~= Seq::empty());
        }
        r
    }
}

impl Miscellaneous {
    /// The value that an element denotes. The fields are read in the order in
    /// which they are declared; the first one that fails gives the error.
    #[verifier::opaque]
    pub open spec fn decode_node(n: NodeView) -> Result<MiscellaneousView, DecodeErrorView> {
        let miscellaneous_fields = n.elements::<MiscellaneousField>(Name::MiscellaneousField);
        if miscellaneous_fields is Err {
            Err(miscellaneous_fields->Err_0)
        } else {
            Ok(
                MiscellaneousView {
                    miscellaneous_fields: miscellaneous_fields->Ok_0,
                }
            )
        }
    }

    /// The element that a value is written as.
    #[verifier::opaque]
    pub open spec fn encode_value(v: MiscellaneousView, tag: Seq<char>) -> NodeView {
        NodeView::new(tag)
            .with_children(
                encode_elements::<MiscellaneousField>(
                    Name::MiscellaneousField,
                    v.miscellaneous_fields,
                ),
            )
    }

    /// An encoded element bears the tag it was given.
    pub proof fn encoded_tag(v: MiscellaneousView, tag: Seq<char>)
        ensures
            Miscellaneous::encode_value(v, tag).tag == tag,
    {
        broadcast use group_codec;

        reveal(Miscellaneous::encode_value);
    }

    /// Decoding what was encoded gives the value back.
    pub proof fn round_trip(v: MiscellaneousView, tag: Seq<char>)
        requires
            <Miscellaneous as Element>::valid(v),
        ensures
            Miscellaneous::decode_node(Miscellaneous::encode_value(v, tag))
                == Ok::<MiscellaneousView, DecodeErrorView>(v),
    {
        broadcast use group_codec;

        let n = Miscellaneous::encode_value(v, tag);
        assert(
            n.elements::<MiscellaneousField>(Name::MiscellaneousField)
                == Ok::<Seq<MiscellaneousFieldView>, DecodeErrorView>(v.miscellaneous_fields)
        ) by {
            reveal(Miscellaneous::encode_value);
            reveal(NodeView::elements);
            lemma_decode_encode_elements::<MiscellaneousField>(
                Name::MiscellaneousField,
                v.miscellaneous_fields,
                tag,
            );
        }
        reveal(Miscellaneous::decode_node);
    }

    /// Decoding gives valid values only.
    pub proof fn decoded_valid(n: NodeView)
        ensures
            Miscellaneous::decode_node(n) matches Ok(v) ==> <Miscellaneous as Element>::valid(v),
    {
        reveal(Miscellaneous::decode_node);
        reveal(NodeView::elements);
        lemma_decode_elements_valid::<MiscellaneousField>(
            n.children_with_tag(Name::MiscellaneousField.text()),
            n.tag,
        );
    }

    /// Decodes an element.
    pub fn read_node(node: &Node) -> (r: Result<Miscellaneous, DecodeError>)
        ensures
            r matches Ok(v) ==>
                Miscellaneous::decode_node(node.deep_view())
                    == Ok::<MiscellaneousView, DecodeErrorView>(
                v.deep_view(),
            ),
            r matches Err(e) ==>
                Miscellaneous::decode_node(node.deep_view())
                    == Err::<MiscellaneousView, DecodeErrorView>(
                e.deep_view(),
            ),
    {
        proof {
            reveal(Miscellaneous::decode_node);
        }
        let miscellaneous_fields = node.elements::<MiscellaneousField>(Name::MiscellaneousField)?;
        Ok(Miscellaneous { miscellaneous_fields })
    }

    /// Encodes a value as an element with the given tag.
    pub fn write_node(&self, tag: &str) -> (r: Node)
        ensures
            r.deep_view() == Miscellaneous::encode_value(self.deep_view(), tag@),
    {
        proof {
            reveal(Miscellaneous::encode_value);
        }
        let mut node = Node::new(tag);
        node.put_elements::<MiscellaneousField>(
            Name::MiscellaneousField,
            &self.miscellaneous_fields,
        );
        node
    }
}

impl Element for Miscellaneous {
    open spec fn valid(v: MiscellaneousView) -> bool {
        &&& all_valid::<MiscellaneousField>(v.miscellaneous_fields)
    }

    open spec fn decode(n: NodeView) -> Result<MiscellaneousView, DecodeErrorView> {
        Miscellaneous::decode_node(n)
    }

    open spec fn encode(v: MiscellaneousView, tag: Seq<char>) -> NodeView {
        Miscellaneous::encode_value(v, tag)
    }

    proof fn encode_tag(v: MiscellaneousView, tag: Seq<char>) {
        Miscellaneous::encoded_tag(v, tag);
    }

    proof fn decode_encode(v: MiscellaneousView, tag: Seq<char>) {
        Miscellaneous::round_trip(v, tag);
    }

    proof fn decode_valid(n: NodeView) {
        Miscellaneous::decoded_valid(n);
    }

    fn from_node(node: &Node) -> (r: Result<Miscellaneous, DecodeError>) {
        Miscellaneous::read_node(node)
    }

    fn to_node(&self, tag: &str) -> (r: Node) {
        self.write_node(tag)
    }
}

/// Who made the score and where it comes from.
#[derive(Clone, Debug, PartialEq)]
pub struct Identification {
    /// The children `creator`, in document order.
    pub creators: Vec<TypedContent>,
    /// The children `rights`, in document order.
    pub rights: Vec<TypedContent>,
    /// The child `encoding`, if it is there.
    pub encoding: Option<Encoding>,
    /// The text of the child `source`, if the child is there.
    pub source: Option<String>,
    /// The text of the child `relation`, if the child is there.
    pub relation: Option<String>,
    /// The child `miscellaneous`, if it is there.
    pub miscellaneous: Option<Miscellaneous>,
}

/// The mathematical value of a [`Identification`].
pub struct IdentificationView {
    pub creators: Seq<TypedContentView>,
    pub rights: Seq<TypedContentView>,
    pub encoding: Option<EncodingView>,
    pub source: Option<Seq<char>>,
    pub relation: Option<Seq<char>>,
    pub miscellaneous: Option<MiscellaneousView>,
}

impl DeepView for Identification {
    type V = IdentificationView;

    open spec fn deep_view(&self) -> IdentificationView {
        IdentificationView {
            creators: self.creators.deep_view(),
            rights: self.rights.deep_view(),
            encoding: self.encoding.deep_view(),
            source: self.source.deep_view(),
            relation: self.relation.deep_view(),
            miscellaneous: self.miscellaneous.deep_view(),
        }
    }
}

impl Identification {
    /// The value with every field at its default.
    pub open spec fn initial() -> IdentificationView {
        IdentificationView {
            creators: Seq::empty(),
            rights: Seq::empty(),
            encoding: None,
            source: None,
            relation: None,
            miscellaneous: None,
        }
    }
}

impl Default for Identification {
    fn default() -> (r: Identification)
        ensures
            r.deep_view() == Identification::initial(),
    {
        let r = Identification {
            creators: Vec::new(),
            rights: Vec::new(),
            encoding: None,
            source: None,
            relation: None,
            miscellaneous: None,
        };
        proof {
            assert(r.creators.deep_view() =~= Seq::empty());
            assert(r.rights.deep_view() =~= Seq::empty());
        }
        r
    }
}

impl Identification {
    /// The value that an element denotes. The fields are read in the order in
    /// which they are declared; the first one that fails gives the error.
    #[verifier::opaque]
    pub open spec fn decode_node(n: NodeView) -> Result<IdentificationView, DecodeErrorView> {
        let creators = n.elements::<TypedContent>(Name::Creator);
        let rights = n.elements::<TypedContent>(Name::Rights);
        let encoding = n.element_opt::<Encoding>(Name::Encoding);
        let source = n.text_opt::<String>(Name::Source);
        let relation = n.text_opt::<String>(Name::Relation);
        let miscellaneous = n.element_opt::<Miscellaneous>(Name::Miscellaneous);
        if creators is Err {
            Err(creators->Err_0)
        } else if rights is Err {
            Err(rights->Err_0)
        } else if encoding is Err {
            Err(encoding->Err_0)
        } else if source is Err {
            Err(source->Err_0)
        } else if relation is Err {
            Err(relation->Err_0)
        } else if miscellaneous is Err {
            Err(miscellaneous->Err_0)
        } else {
            Ok(
                IdentificationView {
                    creators: creators->Ok_0,
                    rights: rights->Ok_0,
                    encoding: encoding->Ok_0,
                    source: source->Ok_0,
                    relation: relation->Ok_0,
                    miscellaneous: miscellaneous->Ok_0,
                }
            )
        }
    }

    /// The element that a value is written as.
    #[verifier::opaque]
    pub open spec fn encode_value(v: IdentificationView, tag: Seq<char>) -> NodeView {
        NodeView::new(tag)
            .with_children(encode_elements::<TypedContent>(Name::Creator, v.creators))
            .with_children(encode_elements::<TypedContent>(Name::Rights, v.rights))
            .with_children(element_nodes::<Encoding>(Name::Encoding, v.encoding))
            .with_children(text_nodes::<String>(Name::Source, v.source))
            .with_children(text_nodes::<String>(Name::Relation, v.relation))
            .with_children(element_nodes::<Miscellaneous>(Name::Miscellaneous, v.miscellaneous))
    }

    /// An encoded element bears the tag it was given.
    pub proof fn encoded_tag(v: IdentificationView, tag: Seq<char>)
        ensures
            Identification::encode_value(v, tag).tag == tag,
    {
        broadcast use group_codec;

        reveal(Identification::encode_value);
    }

    /// Decoding what was encoded gives the value back.
    pub proof fn round_trip(v: IdentificationView, tag: Seq<char>)
        requires
            <Identification as Element>::valid(v),
        ensures
            Identification::decode_node(Identification::encode_value(v, tag))
                == Ok::<IdentificationView, DecodeErrorView>(v),
    {
        broadcast use group_codec;

        let n = Identification::encode_value(v, tag);
        assert(
            n.elements::<TypedContent>(Name::Creator)
                == Ok::<Seq<TypedContentView>, DecodeErrorView>(v.creators)
        ) by {
            reveal(Identification::encode_value);
            reveal(NodeView::elements);
            lemma_decode_encode_elements::<TypedContent>(Name::Creator, v.creators, tag);
        }
        assert(
            n.elements::<TypedContent>(Name::Rights)
                == Ok::<Seq<TypedContentView>, DecodeErrorView>(v.rights)
        ) by {
            reveal(Identification::encode_value);
            reveal(NodeView::elements);
            lemma_decode_encode_elements::<TypedContent>(Name::Rights, v.rights, tag);
        }
        assert(
            n.element_opt::<Encoding>(Name::Encoding)
                == Ok::<Option<EncodingView>, DecodeErrorView>(v.encoding)
        ) by {
            reveal(Identification::encode_value);
            reveal(NodeView::element_opt);
            reveal(NodeView::only_child);
            if let Some(x) = v.encoding {
                Encoding::decode_encode(x, Name::Encoding.text());
            }
        }
        assert(
            n.text_opt::<String>(Name::Source)
                == Ok::<Option<Seq<char>>, DecodeErrorView>(v.source)
        ) by {
            reveal(Identification::encode_value);
            reveal(NodeView::text_opt);
            reveal(NodeView::only_child);
            reveal(NodeView::content);
        }
        assert(
            n.text_opt::<String>(Name::Relation)
                == Ok::<Option<Seq<char>>, DecodeErrorView>(v.relation)
        ) by {
            reveal(Identification::encode_value);
            reveal(NodeView::text_opt);
            reveal(NodeView::only_child);
            reveal(NodeView::content);
        }
        assert(
            n.element_opt::<Miscellaneous>(Name::Miscellaneous)
                == Ok::<Option<MiscellaneousView>, DecodeErrorView>(v.miscellaneous)
        ) by {
            reveal(Identification::encode_value);
            reveal(NodeView::element_opt);
            reveal(NodeView::only_child);
            if let Some(x) = v.miscellaneous {
                Miscellaneous::decode_encode(x, Name::Miscellaneous.text());
            }
        }
        reveal(Identification::decode_node);
    }

    /// Decoding gives valid values only.
    pub proof fn decoded_valid(n: NodeView)
        ensures
            Identification::decode_node(n) matches Ok(v) ==> <Identification as Element>::valid(v),
    {
        reveal(Identification::decode_node);
        reveal(NodeView::elements);
        reveal(NodeView::element_opt);
        lemma_decode_elements_valid::<TypedContent>(
            n.children_with_tag(Name::Creator.text()),
            n.tag,
        );
        lemma_decode_elements_valid::<TypedContent>(
            n.children_with_tag(Name::Rights.text()),
            n.tag,
        );
        if let Ok(Some(c)) = n.only_child(Name::Encoding) {
            Encoding::decode_valid(c);
        }
        if let Ok(Some(c)) = n.only_child(Name::Miscellaneous) {
            Miscellaneous::decode_valid(c);
        }
    }

    /// Decodes an element.
    pub fn read_node(node: &Node) -> (r: Result<Identification, DecodeError>)
        ensures
            r matches Ok(v) ==>
                Identification::decode_node(node.deep_view())
                    == Ok::<IdentificationView, DecodeErrorView>(
                v.deep_view(),
            ),
            r matches Err(e) ==>
                Identification::decode_node(node.deep_view())
                    == Err::<IdentificationView, DecodeErrorView>(
                e.deep_view(),
            ),
    {
        proof {
            reveal(Identification::decode_node);
        }
        let creators = node.elements::<TypedContent>(Name::Creator)?;
        let rights = node.elements::<TypedContent>(Name::Rights)?;
        let encoding = node.element_opt::<Encoding>(Name::Encoding)?;
        let source = node.text_opt::<String>(Name::Source)?;
        let relation = node.text_opt::<String>(Name::Relation)?;
        let miscellaneous = node.element_opt::<Miscellaneous>(Name::Miscellaneous)?;
        Ok(Identification { creators, rights, encoding, source, relation, miscellaneous })
    }

    /// Encodes a value as an element with the given tag.
    pub fn write_node(&self, tag: &str) -> (r: Node)
        ensures
            r.deep_view() == Identification::encode_value(self.deep_view(), tag@),
    {
        proof {
            reveal(Identification::encode_value);
        }
        let mut node = Node::new(tag);
        node.put_elements::<TypedContent>(Name::Creator, &self.creators);
        node.put_elements::<TypedContent>(Name::Rights, &self.rights);
        node.put_element_opt::<Encoding>(Name::Encoding, &self.encoding);
        node.put_text_opt::<String>(Name::Source, &self.source);
        node.put_text_opt::<String>(Name::Relation, &self.relation);
        node.put_element_opt::<Miscellaneous>(Name::Miscellaneous, &self.miscellaneous);
        node
    }
}

impl Element for Identification {
    open spec fn valid(v: IdentificationView) -> bool {
        &&& all_valid::<TypedContent>(v.creators)
        &&& all_valid::<TypedContent>(v.rights)
        &&& (v.encoding matches Some(x) ==> Encoding::valid(x))
        &&& (v.miscellaneous matches Some(x) ==> Miscellaneous::valid(x))
    }

    open spec fn decode(n: NodeView) -> Result<IdentificationView, DecodeErrorView> {
        Identification::decode_node(n)
    }

    open spec fn encode(v: IdentificationView, tag: Seq<char>) -> NodeView {
        Identification::encode_value(v, tag)
    }

    proof fn encode_tag(v: IdentificationView, tag: Seq<char>) {
        Identification::encoded_tag(v, tag);
    }

    proof fn decode_encode(v: IdentificationView, tag: Seq<char>) {
        Identification::round_trip(v, tag);
    }

    proof fn decode_valid(n: NodeView) {
        Identification::decoded_valid(n);
    }

    fn from_node(node: &Node) -> (r: Result<Identification, DecodeError>) {
        Identification::read_node(node)
    }

    fn to_node(&self, tag: &str) -> (r: Node) {
        self.write_node(tag)
    }
}

} // verus!
