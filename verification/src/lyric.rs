//! Lyrics.
use crate::codec::{Element, element_nodes, group_codec, text_nodes};
use crate::decimal::Decimal;
use crate::error::{DecodeError, DecodeErrorView};
use crate::names::Name;
use crate::node::{Node, NodeView};
use crate::primitives::{Placement, SyllabicType};
use crate::printable_value::LeftCenterRight;
use crate::scalar::Scalar;
use crate::start_stop_continue::StartStopContinue;
use crate::yes_no::YesNo;
use vstd::prelude::*;

verus! {

/// The line that extends a syllable.
#[derive(Clone, Debug, PartialEq)]
pub struct Extend {
    /// The attribute `color`, if it is written.
    pub color: Option<String>,
    /// The attribute `default-x`, if it is written.
    pub default_x: Option<Decimal>,
    /// The attribute `default-y`, if it is written.
    pub default_y: Option<Decimal>,
    /// The attribute `relative-x`, if it is written.
    pub relative_x: Option<Decimal>,
    /// The attribute `relative-y`, if it is written.
    pub relative_y: Option<Decimal>,
    /// The attribute `type`, if it is written.
    pub type_: Option<StartStopContinue>,
}

/// The mathematical value of a [`Extend`].
pub struct ExtendView {
    pub color: Option<Seq<char>>,
    pub default_x: Option<Decimal>,
    pub default_y: Option<Decimal>,
    pub relative_x: Option<Decimal>,
    pub relative_y: Option<Decimal>,
    pub type_: Option<StartStopContinue>,
}

impl DeepView for Extend {
    type V = ExtendView;

    open spec fn deep_view(&self) -> ExtendView {
        ExtendView {
            color: self.color.deep_view(),
            default_x: self.default_x.deep_view(),
            default_y: self.default_y.deep_view(),
            relative_x: self.relative_x.deep_view(),
            relative_y: self.relative_y.deep_view(),
            type_: self.type_.deep_view(),
        }
    }
}

impl Extend {
    /// The value that an element denotes. The fields are read in the order in
    /// which they are declared; the first one that fails gives the error.
    #[verifier::opaque]
    pub open spec fn decode_node(n: NodeView) -> Result<ExtendView, DecodeErrorView> {
        let color = n.attribute_opt::<String>(Name::Color);
        let default_x = n.attribute_opt::<Decimal>(Name::DefaultX);
        let default_y = n.attribute_opt::<Decimal>(Name::DefaultY);
        let relative_x = n.attribute_opt::<Decimal>(Name::RelativeX);
        let relative_y = n.attribute_opt::<Decimal>(Name::RelativeY);
        let type_ = n.attribute_opt::<StartStopContinue>(Name::Type);
        if color is Err {
            Err(color->Err_0)
        } else if default_x is Err {
            Err(default_x->Err_0)
        } else if default_y is Err {
            Err(default_y->Err_0)
        } else if relative_x is Err {
            Err(relative_x->Err_0)
        } else if relative_y is Err {
            Err(relative_y->Err_0)
        } else if type_ is Err {
            Err(type_->Err_0)
        } else {
            Ok(
                ExtendView {
                    color: color->Ok_0,
                    default_x: default_x->Ok_0,
                    default_y: default_y->Ok_0,
                    relative_x: relative_x->Ok_0,
                    relative_y: relative_y->Ok_0,
                    type_: type_->Ok_0,
                }
            )
        }
    }

    /// The element that a value is written as.
    #[verifier::opaque]
    pub open spec fn encode_value(v: ExtendView, tag: Seq<char>) -> NodeView {
        NodeView::new(tag)
            .with_scalar_opt::<String>(Name::Color, v.color)
            .with_scalar_opt::<Decimal>(Name::DefaultX, v.default_x)
            .with_scalar_opt::<Decimal>(Name::DefaultY, v.default_y)
            .with_scalar_opt::<Decimal>(Name::RelativeX, v.relative_x)
            .with_scalar_opt::<Decimal>(Name::RelativeY, v.relative_y)
            .with_scalar_opt::<StartStopContinue>(Name::Type, v.type_)
    }

    /// An encoded element bears the tag it was given.
    pub proof fn encoded_tag(v: ExtendView, tag: Seq<char>)
        ensures
            Extend::encode_value(v, tag).tag == tag,
    {
        broadcast use group_codec;

        reveal(Extend::encode_value);
    }

    /// Decoding what was encoded gives the value back.
    pub proof fn round_trip(v: ExtendView, tag: Seq<char>)
        requires
            <Extend as Element>::valid(v),
        ensures
            Extend::decode_node(Extend::encode_value(v, tag))
                == Ok::<ExtendView, DecodeErrorView>(v),
    {
        broadcast use group_codec;

        let n = Extend::encode_value(v, tag);
        assert(
            n.attribute_opt::<String>(Name::Color)
                == Ok::<Option<Seq<char>>, DecodeErrorView>(v.color)
        ) by {
            reveal(Extend::encode_value);
        }
        assert(
            n.attribute_opt::<Decimal>(Name::DefaultX)
                == Ok::<Option<Decimal>, DecodeErrorView>(v.default_x)
        ) by {
            reveal(Extend::encode_value);
        }
        assert(
            n.attribute_opt::<Decimal>(Name::DefaultY)
                == Ok::<Option<Decimal>, DecodeErrorView>(v.default_y)
        ) by {
            reveal(Extend::encode_value);
        }
        assert(
            n.attribute_opt::<Decimal>(Name::RelativeX)
                == Ok::<Option<Decimal>, DecodeErrorView>(v.relative_x)
        ) by {
            reveal(Extend::encode_value);
        }
        assert(
            n.attribute_opt::<Decimal>(Name::RelativeY)
                == Ok::<Option<Decimal>, DecodeErrorView>(v.relative_y)
        ) by {
            reveal(Extend::encode_value);
        }
        assert(
            n.attribute_opt::<StartStopContinue>(Name::Type)
                == Ok::<Option<StartStopContinue>, DecodeErrorView>(v.type_)
        ) by {
            reveal(Extend::encode_value);
        }
        reveal(Extend::decode_node);
    }

    /// Decoding gives valid values only.
    pub proof fn decoded_valid(n: NodeView)
        ensures
            Extend::decode_node(n) matches Ok(v) ==> <Extend as Element>::valid(v),
    {
        reveal(Extend::decode_node);
    }

    /// Decodes an element.
    pub fn read_node(node: &Node) -> (r: Result<Extend, DecodeError>)
        ensures
            r matches Ok(v) ==>
                Extend::decode_node(node.deep_view()) == Ok::<ExtendView, DecodeErrorView>(
                v.deep_view(),
            ),
            r matches Err(e) ==>
                Extend::decode_node(node.deep_view()) == Err::<ExtendView, DecodeErrorView>(
                e.deep_view(),
            ),
    {
        proof {
            reveal(Extend::decode_node);
        }
        let color = node.attribute_opt::<String>(Name::Color)?;
        let default_x = node.attribute_opt::<Decimal>(Name::DefaultX)?;
        let default_y = node.attribute_opt::<Decimal>(Name::DefaultY)?;
        let relative_x = node.attribute_opt::<Decimal>(Name::RelativeX)?;
        let relative_y = node.attribute_opt::<Decimal>(Name::RelativeY)?;
        let type_ = node.attribute_opt::<StartStopContinue>(Name::Type)?;
        Ok(Extend { color, default_x, default_y, relative_x, relative_y, type_ })
    }

    /// Encodes a value as an element with the given tag.
    pub fn write_node(&self, tag: &str) -> (r: Node)
        ensures
            r.deep_view() == Extend::encode_value(self.deep_view(), tag@),
    {
        proof {
            reveal(Extend::encode_value);
        }
        let mut node = Node::new(tag);
        node.put_scalar_opt::<String>(Name::Color, &self.color);
        node.put_scalar_opt::<Decimal>(Name::DefaultX, &self.default_x);
        node.put_scalar_opt::<Decimal>(Name::DefaultY, &self.default_y);
        node.put_scalar_opt::<Decimal>(Name::RelativeX, &self.relative_x);
        node.put_scalar_opt::<Decimal>(Name::RelativeY, &self.relative_y);
        node.put_scalar_opt::<StartStopContinue>(Name::Type, &self.type_);
        node
    }
}

impl Element for Extend {
    open spec fn valid(v: ExtendView) -> bool {
        true
    }

    open spec fn decode(n: NodeView) -> Result<ExtendView, DecodeErrorView> {
        Extend::decode_node(n)
    }

    open spec fn encode(v: ExtendView, tag: Seq<char>) -> NodeView {
        Extend::encode_value(v, tag)
    }

    proof fn encode_tag(v: ExtendView, tag: Seq<char>) {
        Extend::encoded_tag(v, tag);
    }

    proof fn decode_encode(v: ExtendView, tag: Seq<char>) {
        Extend::round_trip(v, tag);
    }

    proof fn decode_valid(n: NodeView) {
        Extend::decoded_valid(n);
    }

    fn from_node(node: &Node) -> (r: Result<Extend, DecodeError>) {
        Extend::read_node(node)
    }

    fn to_node(&self, tag: &str) -> (r: Node) {
        self.write_node(tag)
    }
}

/// A syllable sung to a note.
#[derive(Clone, Debug, PartialEq)]
pub struct Lyric {
    /// The attribute `color`, if it is written.
    pub color: Option<String>,
    /// The attribute `default-x`, if it is written.
    pub default_x: Option<Decimal>,
    /// The attribute `default-y`, if it is written.
    pub default_y: Option<Decimal>,
    /// The attribute `id`, if it is written.
    pub id: Option<String>,
    /// The attribute `justify`, if it is written.
    pub justify: Option<LeftCenterRight>,
    /// The attribute `name`, if it is written.
    pub name: Option<String>,
    /// The attribute `number`, if it is written.
    pub number: Option<u8>,
    /// The attribute `placement`, if it is written.
    pub placement: Option<Placement>,
    /// The attribute `print-object`, if it is written.
    pub print_object: Option<YesNo>,
    /// The attribute `relative-x`, if it is written.
    pub relative_x: Option<Decimal>,
    /// The attribute `relative-y`, if it is written.
    pub relative_y: Option<Decimal>,
    /// The attribute `time-only`, if it is written.
    pub time_only: Option<String>,
    /// The text of the child `syllabic`, if the child is there.
    pub syllabic: Option<SyllabicType>,
    /// The text of the child `text`; the empty text where the child is not
    /// there.
    pub text: String,
    /// The child `extend`, if it is there.
    pub extend: Option<Extend>,
}

/// The mathematical value of a [`Lyric`].
pub struct LyricView {
    pub color: Option<Seq<char>>,
    pub default_x: Option<Decimal>,
    pub default_y: Option<Decimal>,
    pub id: Option<Seq<char>>,
    pub justify: Option<LeftCenterRight>,
    pub name: Option<Seq<char>>,
    pub number: Option<u8>,
    pub placement: Option<Placement>,
    pub print_object: Option<YesNo>,
    pub relative_x: Option<Decimal>,
    pub relative_y: Option<Decimal>,
    pub time_only: Option<Seq<char>>,
    pub syllabic: Option<SyllabicType>,
    pub text: Seq<char>,
    pub extend: Option<ExtendView>,
}

impl DeepView for Lyric {
    type V = LyricView;

    open spec fn deep_view(&self) -> LyricView {
        LyricView {
            color: self.color.deep_view(),
            default_x: self.default_x.deep_view(),
            default_y: self.default_y.deep_view(),
            id: self.id.deep_view(),
            justify: self.justify.deep_view(),
            name: self.name.deep_view(),
            number: self.number.deep_view(),
            placement: self.placement.deep_view(),
            print_object: self.print_object.deep_view(),
            relative_x: self.relative_x.deep_view(),
            relative_y: self.relative_y.deep_view(),
            time_only: self.time_only.deep_view(),
            syllabic: self.syllabic.deep_view(),
            text: self.text.deep_view(),
            extend: self.extend.deep_view(),
        }
    }
}

impl Lyric {
    /// The value that an element denotes. The fields are read in the order in
    /// which they are declared; the first one that fails gives the error.
    #[verifier::opaque]
    pub open spec fn decode_node(n: NodeView) -> Result<LyricView, DecodeErrorView> {
        let color = n.attribute_opt::<String>(Name::Color);
        let default_x = n.attribute_opt::<Decimal>(Name::DefaultX);
        let default_y = n.attribute_opt::<Decimal>(Name::DefaultY);
        let id = n.attribute_opt::<String>(Name::Id);
        let justify = n.attribute_opt::<LeftCenterRight>(Name::Justify);
        let name = n.attribute_opt::<String>(Name::Name);
        let number = n.attribute_opt::<u8>(Name::Number);
        let placement = n.attribute_opt::<Placement>(Name::Placement);
        let print_object = n.attribute_opt::<YesNo>(Name::PrintObject);
        let relative_x = n.attribute_opt::<Decimal>(Name::RelativeX);
        let relative_y = n.attribute_opt::<Decimal>(Name::RelativeY);
        let time_only = n.attribute_opt::<String>(Name::TimeOnly);
        let syllabic = n.text_opt::<SyllabicType>(Name::Syllabic);
        let text = n.text_or::<String>(Name::Text, Seq::<char>::empty());
        let extend = n.element_opt::<Extend>(Name::Extend);
        if color is Err {
            Err(color->Err_0)
        } else if default_x is Err {
            Err(default_x->Err_0)
        } else if default_y is Err {
            Err(default_y->Err_0)
        } else if id is Err {
            Err(id->Err_0)
        } else if justify is Err {
            Err(justify->Err_0)
        } else if name is Err {
            Err(name->Err_0)
        } else if number is Err {
            Err(number->Err_0)
        } else if placement is Err {
            Err(placement->Err_0)
        } else if print_object is Err {
            Err(print_object->Err_0)
        } else if relative_x is Err {
            Err(relative_x->Err_0)
        } else if relative_y is Err {
            Err(relative_y->Err_0)
        } else if time_only is Err {
            Err(time_only->Err_0)
        } else if syllabic is Err {
            Err(syllabic->Err_0)
        } else if text is Err {
            Err(text->Err_0)
        } else if extend is Err {
            Err(extend->Err_0)
        } else {
            Ok(
                LyricView {
                    color: color->Ok_0,
                    default_x: default_x->Ok_0,
                    default_y: default_y->Ok_0,
                    id: id->Ok_0,
                    justify: justify->Ok_0,
                    name: name->Ok_0,
                    number: number->Ok_0,
                    placement: placement->Ok_0,
                    print_object: print_object->Ok_0,
                    relative_x: relative_x->Ok_0,
                    relative_y: relative_y->Ok_0,
                    time_only: time_only->Ok_0,
                    syllabic: syllabic->Ok_0,
                    text: text->Ok_0,
                    extend: extend->Ok_0,
                }
            )
        }
    }

    /// The element that a value is written as.
    #[verifier::opaque]
    pub open spec fn encode_value(v: LyricView, tag: Seq<char>) -> NodeView {
        NodeView::new(tag)
            .with_scalar_opt::<String>(Name::Color, v.color)
            .with_scalar_opt::<Decimal>(Name::DefaultX, v.default_x)
            .with_scalar_opt::<Decimal>(Name::DefaultY, v.default_y)
            .with_scalar_opt::<String>(Name::Id, v.id)
            .with_scalar_opt::<LeftCenterRight>(Name::Justify, v.justify)
            .with_scalar_opt::<String>(Name::Name, v.name)
            .with_scalar_opt::<u8>(Name::Number, v.number)
            .with_scalar_opt::<Placement>(Name::Placement, v.placement)
            .with_scalar_opt::<YesNo>(Name::PrintObject, v.print_object)
            .with_scalar_opt::<Decimal>(Name::RelativeX, v.relative_x)
            .with_scalar_opt::<Decimal>(Name::RelativeY, v.relative_y)
            .with_scalar_opt::<String>(Name::TimeOnly, v.time_only)
            .with_children(text_nodes::<SyllabicType>(Name::Syllabic, v.syllabic))
            .with_children(text_nodes::<String>(Name::Text, Some(v.text)))
            .with_children(element_nodes::<Extend>(Name::Extend, v.extend))
    }

    /// An encoded element bears the tag it was given.
    pub proof fn encoded_tag(v: LyricView, tag: Seq<char>)
        ensures
            Lyric::encode_value(v, tag).tag == tag,
    {
        broadcast use group_codec;

        reveal(Lyric::encode_value);
    }

    /// Decoding what was encoded gives the value back.
    pub proof fn round_trip(v: LyricView, tag: Seq<char>)
        requires
            <Lyric as Element>::valid(v),
        ensures
            Lyric::decode_node(Lyric::encode_value(v, tag)) == Ok::<LyricView, DecodeErrorView>(v),
    {
        broadcast use group_codec;

        let n = Lyric::encode_value(v, tag);
        assert(
            n.attribute_opt::<String>(Name::Color)
                == Ok::<Option<Seq<char>>, DecodeErrorView>(v.color)
        ) by {
            reveal(Lyric::encode_value);
        }
        assert(
            n.attribute_opt::<Decimal>(Name::DefaultX)
                == Ok::<Option<Decimal>, DecodeErrorView>(v.default_x)
        ) by {
            reveal(Lyric::encode_value);
        }
        assert(
            n.attribute_opt::<Decimal>(Name::DefaultY)
                == Ok::<Option<Decimal>, DecodeErrorView>(v.default_y)
        ) by {
            reveal(Lyric::encode_value);
        }
        assert(
            n.attribute_opt::<String>(Name::Id)
                == Ok::<Option<Seq<char>>, DecodeErrorView>(v.id)
        ) by {
            reveal(Lyric::encode_value);
        }
        assert(
            n.attribute_opt::<LeftCenterRight>(Name::Justify)
                == Ok::<Option<LeftCenterRight>, DecodeErrorView>(v.justify)
        ) by {
            reveal(Lyric::encode_value);
        }
        assert(
            n.attribute_opt::<String>(Name::Name)
                == Ok::<Option<Seq<char>>, DecodeErrorView>(v.name)
        ) by {
            reveal(Lyric::encode_value);
        }
        assert(
            n.attribute_opt::<u8>(Name::Number)
                == Ok::<Option<u8>, DecodeErrorView>(v.number)
        ) by {
            reveal(Lyric::encode_value);
        }
        assert(
            n.attribute_opt::<Placement>(Name::Placement)
                == Ok::<Option<Placement>, DecodeErrorView>(v.placement)
        ) by {
            reveal(Lyric::encode_value);
        }
        assert(
            n.attribute_opt::<YesNo>(Name::PrintObject)
                == Ok::<Option<YesNo>, DecodeErrorView>(v.print_object)
        ) by {
            reveal(Lyric::encode_value);
        }
        assert(
            n.attribute_opt::<Decimal>(Name::RelativeX)
                == Ok::<Option<Decimal>, DecodeErrorView>(v.relative_x)
        ) by {
            reveal(Lyric::encode_value);
        }
        assert(
            n.attribute_opt::<Decimal>(Name::RelativeY)
                == Ok::<Option<Decimal>, DecodeErrorView>(v.relative_y)
        ) by {
            reveal(Lyric::encode_value);
        }
        assert(
            n.attribute_opt::<String>(Name::TimeOnly)
                == Ok::<Option<Seq<char>>, DecodeErrorView>(v.time_only)
        ) by {
            reveal(Lyric::encode_value);
        }
        assert(
            n.text_opt::<SyllabicType>(Name::Syllabic)
                == Ok::<Option<SyllabicType>, DecodeErrorView>(v.syllabic)
        ) by {
            reveal(Lyric::encode_value);
            reveal(NodeView::text_opt);
            reveal(NodeView::only_child);
            reveal(NodeView::content);
            if let Some(x) = v.syllabic {
                SyllabicType::parse_text(x);
            }
        }
        assert(
            n.text_or::<String>(Name::Text, Seq::<char>::empty())
                == Ok::<Seq<char>, DecodeErrorView>(v.text)
        ) by {
            reveal(Lyric::encode_value);
            reveal(NodeView::text_or);
            reveal(NodeView::text_opt);
            reveal(NodeView::only_child);
            reveal(NodeView::content);
        }
        assert(
            n.element_opt::<Extend>(Name::Extend)
                == Ok::<Option<ExtendView>, DecodeErrorView>(v.extend)
        ) by {
            reveal(Lyric::encode_value);
            reveal(NodeView::element_opt);
            reveal(NodeView::only_child);
            if let Some(x) = v.extend {
                Extend::decode_encode(x, Name::Extend.text());
            }
        }
        reveal(Lyric::decode_node);
    }

    /// Decoding gives valid values only.
    pub proof fn decoded_valid(n: NodeView)
        ensures
            Lyric::decode_node(n) matches Ok(v) ==> <Lyric as Element>::valid(v),
    {
        reveal(Lyric::decode_node);
        reveal(NodeView::element_opt);
        if let Ok(Some(c)) = n.only_child(Name::Extend) {
            Extend::decode_valid(c);
        }
    }

    /// Decodes an element.
    pub fn read_node(node: &Node) -> (r: Result<Lyric, DecodeError>)
        ensures
            r matches Ok(v) ==>
                Lyric::decode_node(node.deep_view()) == Ok::<LyricView, DecodeErrorView>(
                v.deep_view(),
            ),
            r matches Err(e) ==>
                Lyric::decode_node(node.deep_view()) == Err::<LyricView, DecodeErrorView>(
                e.deep_view(),
            ),
    {
        proof {
            reveal(Lyric::decode_node);
        }
        let color = node.attribute_opt::<String>(Name::Color)?;
        let default_x = node.attribute_opt::<Decimal>(Name::DefaultX)?;
        let default_y = node.attribute_opt::<Decimal>(Name::DefaultY)?;
        let id = node.attribute_opt::<String>(Name::Id)?;
        let justify = node.attribute_opt::<LeftCenterRight>(Name::Justify)?;
        let name = node.attribute_opt::<String>(Name::Name)?;
        let number = node.attribute_opt::<u8>(Name::Number)?;
        let placement = node.attribute_opt::<Placement>(Name::Placement)?;
        let print_object = node.attribute_opt::<YesNo>(Name::PrintObject)?;
        let relative_x = node.attribute_opt::<Decimal>(Name::RelativeX)?;
        let relative_y = node.attribute_opt::<Decimal>(Name::RelativeY)?;
        let time_only = node.attribute_opt::<String>(Name::TimeOnly)?;
        let syllabic = node.text_opt::<SyllabicType>(Name::Syllabic)?;
        let text = node.text_or::<String>(Name::Text, String::new())?;
        let extend = node.element_opt::<Extend>(Name::Extend)?;
        Ok(Lyric {
            color,
            default_x,
            default_y,
            id,
            justify,
            name,
            number,
            placement,
            print_object,
            relative_x,
            relative_y,
            time_only,
            syllabic,
            text,
            extend,
        })
    }

    /// Encodes a value as an element with the given tag.
    pub fn write_node(&self, tag: &str) -> (r: Node)
        ensures
            r.deep_view() == Lyric::encode_value(self.deep_view(), tag@),
    {
        proof {
            reveal(Lyric::encode_value);
        }
        let mut node = Node::new(tag);
        node.put_scalar_opt::<String>(Name::Color, &self.color);
        node.put_scalar_opt::<Decimal>(Name::DefaultX, &self.default_x);
        node.put_scalar_opt::<Decimal>(Name::DefaultY, &self.default_y);
        node.put_scalar_opt::<String>(Name::Id, &self.id);
        node.put_scalar_opt::<LeftCenterRight>(Name::Justify, &self.justify);
        node.put_scalar_opt::<String>(Name::Name, &self.name);
        node.put_scalar_opt::<u8>(Name::Number, &self.number);
        node.put_scalar_opt::<Placement>(Name::Placement, &self.placement);
        node.put_scalar_opt::<YesNo>(Name::PrintObject, &self.print_object);
        node.put_scalar_opt::<Decimal>(Name::RelativeX, &self.relative_x);
        node.put_scalar_opt::<Decimal>(Name::RelativeY, &self.relative_y);
        node.put_scalar_opt::<String>(Name::TimeOnly, &self.time_only);
        node.put_text_opt::<SyllabicType>(Name::Syllabic, &self.syllabic);
        node.put_text::<String>(Name::Text, &self.text);
        node.put_element_opt::<Extend>(Name::Extend, &self.extend);
        node
    }
}

impl Element for Lyric {
    open spec fn valid(v: LyricView) -> bool {
        &&& (v.extend matches Some(x) ==> Extend::valid(x))
    }

    open spec fn decode(n: NodeView) -> Result<LyricView, DecodeErrorView> {
        Lyric::decode_node(n)
    }

    open spec fn encode(v: LyricView, tag: Seq<char>) -> NodeView {
        Lyric::encode_value(v, tag)
    }

    proof fn encode_tag(v: LyricView, tag: Seq<char>) {
        Lyric::encoded_tag(v, tag);
    }

    proof fn decode_encode(v: LyricView, tag: Seq<char>) {
        Lyric::round_trip(v, tag);
    }

    proof fn decode_valid(n: NodeView) {
        Lyric::decoded_valid(n);
    }

    fn from_node(node: &Node) -> (r: Result<Lyric, DecodeError>) {
        Lyric::read_node(node)
    }

    fn to_node(&self, tag: &str) -> (r: Node) {
        self.write_node(tag)
    }
}

} // verus!
