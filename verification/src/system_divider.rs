//! Dividers between systems.
use crate::codec::{Element, group_codec};
use crate::decimal::Decimal;
use crate::error::{DecodeError, DecodeErrorView};
use crate::names::Name;
use crate::node::{Node, NodeView};
use crate::printable_value::{FontStyle, FontWeight, LeftCenterRight, Valign};
use crate::yes_no::YesNo;
use vstd::prelude::*;

verus! {

/// A divider between systems.
#[derive(Clone, Debug, PartialEq)]
pub struct SystemDivider {
    /// The attribute `color`, if it is written.
    pub color: Option<String>,
    /// The attribute `default-x`, if it is written.
    pub default_x: Option<Decimal>,
    /// The attribute `default-y`, if it is written.
    pub default_y: Option<Decimal>,
    /// The attribute `font-family`, if it is written.
    pub font_family: Option<String>,
    /// The attribute `font-size`, if it is written.
    pub font_size: Option<Decimal>,
    /// The attribute `font-style`, if it is written.
    pub font_style: Option<FontStyle>,
    /// The attribute `font-weight`, if it is written.
    pub font_weight: Option<FontWeight>,
    /// The attribute `halign`, if it is written.
    pub halign: Option<LeftCenterRight>,
    /// The attribute `print-object`, if it is written.
    pub print_object: Option<YesNo>,
    /// The attribute `relative-x`, if it is written.
    pub relative_x: Option<String>,
    /// The attribute `relative-y`, if it is written.
    pub relative_y: Option<String>,
    /// The attribute `valign`, if it is written.
    pub valign: Option<Valign>,
}

/// The mathematical value of a [`SystemDivider`].
pub struct SystemDividerView {
    pub color: Option<Seq<char>>,
    pub default_x: Option<Decimal>,
    pub default_y: Option<Decimal>,
    pub font_family: Option<Seq<char>>,
    pub font_size: Option<Decimal>,
    pub font_style: Option<FontStyle>,
    pub font_weight: Option<FontWeight>,
    pub halign: Option<LeftCenterRight>,
    pub print_object: Option<YesNo>,
    pub relative_x: Option<Seq<char>>,
    pub relative_y: Option<Seq<char>>,
    pub valign: Option<Valign>,
}

impl DeepView for SystemDivider {
    type V = SystemDividerView;

    open spec fn deep_view(&self) -> SystemDividerView {
        SystemDividerView {
            color: self.color.deep_view(),
            default_x: self.default_x.deep_view(),
            default_y: self.default_y.deep_view(),
            font_family: self.font_family.deep_view(),
            font_size: self.font_size.deep_view(),
            font_style: self.font_style.deep_view(),
            font_weight: self.font_weight.deep_view(),
            halign: self.halign.deep_view(),
            print_object: self.print_object.deep_view(),
            relative_x: self.relative_x.deep_view(),
            relative_y: self.relative_y.deep_view(),
            valign: self.valign.deep_view(),
        }
    }
}

impl SystemDivider {
    /// The value with every field at its default.
    pub open spec fn initial() -> SystemDividerView {
        SystemDividerView {
            color: None,
            default_x: None,
            default_y: None,
            font_family: None,
            font_size: None,
            font_style: None,
            font_weight: None,
            halign: None,
            print_object: None,
            relative_x: None,
            relative_y: None,
            valign: None,
        }
    }
}

impl Default for SystemDivider {
    fn default() -> (r: SystemDivider)
        ensures
            r.deep_view() == SystemDivider::initial(),
    {
        let r = SystemDivider {
            color: None,
            default_x: None,
            default_y: None,
            font_family: None,
            font_size: None,
            font_style: None,
            font_weight: None,
            halign: None,
            print_object: None,
            relative_x: None,
            relative_y: None,
            valign: None,
        };
        r
    }
}

impl SystemDivider {
    /// The value that an element denotes. The fields are read in the order in
    /// which they are declared; the first one that fails gives the error.
    #[verifier::opaque]
    pub open spec fn decode_node(n: NodeView) -> Result<SystemDividerView, DecodeErrorView> {
        let color = n.attribute_opt::<String>(Name::Color);
        let default_x = n.attribute_opt::<Decimal>(Name::DefaultX);
        let default_y = n.attribute_opt::<Decimal>(Name::DefaultY);
        let font_family = n.attribute_opt::<String>(Name::FontFamily);
        let font_size = n.attribute_opt::<Decimal>(Name::FontSize);
        let font_style = n.attribute_opt::<FontStyle>(Name::FontStyle);
        let font_weight = n.attribute_opt::<FontWeight>(Name::FontWeight);
        let halign = n.attribute_opt::<LeftCenterRight>(Name::Halign);
        let print_object = n.attribute_opt::<YesNo>(Name::PrintObject);
        let relative_x = n.attribute_opt::<String>(Name::RelativeX);
        let relative_y = n.attribute_opt::<String>(Name::RelativeY);
        let valign = n.attribute_opt::<Valign>(Name::Valign);
        if color is Err {
            Err(color->Err_0)
        } else if default_x is Err {
            Err(default_x->Err_0)
        } else if default_y is Err {
            Err(default_y->Err_0)
        } else if font_family is Err {
            Err(font_family->Err_0)
        } else if font_size is Err {
            Err(font_size->Err_0)
        } else if font_style is Err {
            Err(font_style->Err_0)
        } else if font_weight is Err {
            Err(font_weight->Err_0)
        } else if halign is Err {
            Err(halign->Err_0)
        } else if print_object is Err {
            Err(print_object->Err_0)
        } else if relative_x is Err {
            Err(relative_x->Err_0)
        } else if relative_y is Err {
            Err(relative_y->Err_0)
        } else if valign is Err {
            Err(valign->Err_0)
        } else {
            Ok(
                SystemDividerView {
                    color: color->Ok_0,
                    default_x: default_x->Ok_0,
                    default_y: default_y->Ok_0,
                    font_family: font_family->Ok_0,
                    font_size: font_size->Ok_0,
                    font_style: font_style->Ok_0,
                    font_weight: font_weight->Ok_0,
                    halign: halign->Ok_0,
                    print_object: print_object->Ok_0,
                    relative_x: relative_x->Ok_0,
                    relative_y: relative_y->Ok_0,
                    valign: valign->Ok_0,
                }
            )
        }
    }

    /// The element that a value is written as.
    #[verifier::opaque]
    pub open spec fn encode_value(v: SystemDividerView, tag: Seq<char>) -> NodeView {
        NodeView::new(tag)
            .with_scalar_opt::<String>(Name::Color, v.color)
            .with_scalar_opt::<Decimal>(Name::DefaultX, v.default_x)
            .with_scalar_opt::<Decimal>(Name::DefaultY, v.default_y)
            .with_scalar_opt::<String>(Name::FontFamily, v.font_family)
            .with_scalar_opt::<Decimal>(Name::FontSize, v.font_size)
            .with_scalar_opt::<FontStyle>(Name::FontStyle, v.font_style)
            .with_scalar_opt::<FontWeight>(Name::FontWeight, v.font_weight)
            .with_scalar_opt::<LeftCenterRight>(Name::Halign, v.halign)
            .with_scalar_opt::<YesNo>(Name::PrintObject, v.print_object)
            .with_scalar_opt::<String>(Name::RelativeX, v.relative_x)
            .with_scalar_opt::<String>(Name::RelativeY, v.relative_y)
            .with_scalar_opt::<Valign>(Name::Valign, v.valign)
    }

    /// An encoded element bears the tag it was given.
    pub proof fn encoded_tag(v: SystemDividerView, tag: Seq<char>)
        ensures
            SystemDivider::encode_value(v, tag).tag == tag,
    {
        broadcast use group_codec;

        reveal(SystemDivider::encode_value);
    }

    /// Decoding what was encoded gives the value back.
    pub proof fn round_trip(v: SystemDividerView, tag: Seq<char>)
        requires
            <SystemDivider as Element>::valid(v),
        ensures
            SystemDivider::decode_node(SystemDivider::encode_value(v, tag))
                == Ok::<SystemDividerView, DecodeErrorView>(v),
    {
        broadcast use group_codec;

        let n = SystemDivider::encode_value(v, tag);
        assert(
            n.attribute_opt::<String>(Name::Color)
                == Ok::<Option<Seq<char>>, DecodeErrorView>(v.color)
        ) by {
            reveal(SystemDivider::encode_value);
        }
        assert(
            n.attribute_opt::<Decimal>(Name::DefaultX)
                == Ok::<Option<Decimal>, DecodeErrorView>(v.default_x)
        ) by {
            reveal(SystemDivider::encode_value);
        }
        assert(
            n.attribute_opt::<Decimal>(Name::DefaultY)
                == Ok::<Option<Decimal>, DecodeErrorView>(v.default_y)
        ) by {
            reveal(SystemDivider::encode_value);
        }
        assert(
            n.attribute_opt::<String>(Name::FontFamily)
                == Ok::<Option<Seq<char>>, DecodeErrorView>(v.font_family)
        ) by {
            reveal(SystemDivider::encode_value);
        }
        assert(
            n.attribute_opt::<Decimal>(Name::FontSize)
                == Ok::<Option<Decimal>, DecodeErrorView>(v.font_size)
        ) by {
            reveal(SystemDivider::encode_value);
        }
        assert(
            n.attribute_opt::<FontStyle>(Name::FontStyle)
                == Ok::<Option<FontStyle>, DecodeErrorView>(v.font_style)
        ) by {
            reveal(SystemDivider::encode_value);
        }
        assert(
            n.attribute_opt::<FontWeight>(Name::FontWeight)
                == Ok::<Option<FontWeight>, DecodeErrorView>(v.font_weight)
        ) by {
            reveal(SystemDivider::encode_value);
        }
        assert(
            n.attribute_opt::<LeftCenterRight>(Name::Halign)
                == Ok::<Option<LeftCenterRight>, DecodeErrorView>(v.halign)
        ) by {
            reveal(SystemDivider::encode_value);
        }
        assert(
            n.attribute_opt::<YesNo>(Name::PrintObject)
                == Ok::<Option<YesNo>, DecodeErrorView>(v.print_object)
        ) by {
            reveal(SystemDivider::encode_value);
        }
        assert(
            n.attribute_opt::<String>(Name::RelativeX)
                == Ok::<Option<Seq<char>>, DecodeErrorView>(v.relative_x)
        ) by {
            reveal(SystemDivider::encode_value);
        }
        assert(
            n.attribute_opt::<String>(Name::RelativeY)
                == Ok::<Option<Seq<char>>, DecodeErrorView>(v.relative_y)
        ) by {
            reveal(SystemDivider::encode_value);
        }
        assert(
            n.attribute_opt::<Valign>(Name::Valign)
                == Ok::<Option<Valign>, DecodeErrorView>(v.valign)
        ) by {
            reveal(SystemDivider::encode_value);
        }
        reveal(SystemDivider::decode_node);
    }

    /// Decoding gives valid values only.
    pub proof fn decoded_valid(n: NodeView)
        ensures
            SystemDivider::decode_node(n) matches Ok(v) ==> <SystemDivider as Element>::valid(v),
    {
        reveal(SystemDivider::decode_node);
    }

    /// Decodes an element.
    pub fn read_node(node: &Node) -> (r: Result<SystemDivider, DecodeError>)
        ensures
            r matches Ok(v) ==>
                SystemDivider::decode_node(node.deep_view())
                    == Ok::<SystemDividerView, DecodeErrorView>(
                v.deep_view(),
            ),
            r matches Err(e) ==>
                SystemDivider::decode_node(node.deep_view())
                    == Err::<SystemDividerView, DecodeErrorView>(
                e.deep_view(),
            ),
    {
        proof {
            reveal(SystemDivider::decode_node);
        }
        let color = node.attribute_opt::<String>(Name::Color)?;
        let default_x = node.attribute_opt::<Decimal>(Name::DefaultX)?;
        let default_y = node.attribute_opt::<Decimal>(Name::DefaultY)?;
        let font_family = node.attribute_opt::<String>(Name::FontFamily)?;
        let font_size = node.attribute_opt::<Decimal>(Name::FontSize)?;
        let font_style = node.attribute_opt::<FontStyle>(Name::FontStyle)?;
        let font_weight = node.attribute_opt::<FontWeight>(Name::FontWeight)?;
        let halign = node.attribute_opt::<LeftCenterRight>(Name::Halign)?;
        let print_object = node.attribute_opt::<YesNo>(Name::PrintObject)?;
        let relative_x = node.attribute_opt::<String>(Name::RelativeX)?;
        let relative_y = node.attribute_opt::<String>(Name::RelativeY)?;
        let valign = node.attribute_opt::<Valign>(Name::Valign)?;
        Ok(SystemDivider {
            color,
            default_x,
            default_y,
            font_family,
            font_size,
            font_style,
            font_weight,
            halign,
            print_object,
            relative_x,
            relative_y,
            valign,
        })
    }

    /// Encodes a value as an element with the given tag.
    pub fn write_node(&self, tag: &str) -> (r: Node)
        ensures
            r.deep_view() == SystemDivider::encode_value(self.deep_view(), tag@),
    {
        proof {
            reveal(SystemDivider::encode_value);
        }
        let mut node = Node::new(tag);
        node.put_scalar_opt::<String>(Name::Color, &self.color);
        node.put_scalar_opt::<Decimal>(Name::DefaultX, &self.default_x);
        node.put_scalar_opt::<Decimal>(Name::DefaultY, &self.default_y);
        node.put_scalar_opt::<String>(Name::FontFamily, &self.font_family);
        node.put_scalar_opt::<Decimal>(Name::FontSize, &self.font_size);
        node.put_scalar_opt::<FontStyle>(Name::FontStyle, &self.font_style);
        node.put_scalar_opt::<FontWeight>(Name::FontWeight, &self.font_weight);
        node.put_scalar_opt::<LeftCenterRight>(Name::Halign, &self.halign);
        node.put_scalar_opt::<YesNo>(Name::PrintObject, &self.print_object);
        node.put_scalar_opt::<String>(Name::RelativeX, &self.relative_x);
        node.put_scalar_opt::<String>(Name::RelativeY, &self.relative_y);
        node.put_scalar_opt::<Valign>(Name::Valign, &self.valign);
        node
    }
}

impl Element for SystemDivider {
    open spec fn valid(v: SystemDividerView) -> bool {
        true
    }

    open spec fn decode(n: NodeView) -> Result<SystemDividerView, DecodeErrorView> {
        SystemDivider::decode_node(n)
    }

    open spec fn encode(v: SystemDividerView, tag: Seq<char>) -> NodeView {
        SystemDivider::encode_value(v, tag)
    }

    proof fn encode_tag(v: SystemDividerView, tag: Seq<char>) {
        SystemDivider::encoded_tag(v, tag);
    }

    proof fn decode_encode(v: SystemDividerView, tag: Seq<char>) {
        SystemDivider::round_trip(v, tag);
    }

    proof fn decode_valid(n: NodeView) {
        SystemDivider::decoded_valid(n);
    }

    fn from_node(node: &Node) -> (r: Result<SystemDivider, DecodeError>) {
        SystemDivider::read_node(node)
    }

    fn to_node(&self, tag: &str) -> (r: Node) {
        self.write_node(tag)
    }
}

} // verus!
