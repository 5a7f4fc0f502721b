//! Articulations of a note.
use crate::codec::{
    all_valid_variants, Element, encode_variants, group_codec, lemma_decode_encode_variants,
    lemma_decode_variants_valid, Tagged,
};
use crate::decimal::Decimal;
use crate::error::{DecodeError, DecodeErrorView, ErrorKind};
use crate::names::Name;
use crate::node::{Node, NodeView};
use crate::primitives::Placement;
use crate::printable_value::{FontStyle, FontWeight};
use vstd::prelude::*;

verus! {

/// How an articulation is printed.
#[derive(Clone, Debug, PartialEq)]
pub struct ArticulationMeta {
    /// The attribute `type`, if it is written.
    pub type_: Option<String>,
    /// The attribute `color`, if it is written.
    pub color: Option<String>,
    /// The attribute `default-x`, if it is written.
    pub default_x: Option<Decimal>,
    /// The attribute `default-y`, if it is written.
    pub default_y: Option<Decimal>,
    /// The attribute `font-family`, if it is written.
    pub font_family: Option<String>,
    /// The attribute `font-size`, if it is written.
    pub font_size: Option<Decimal>,
    /// The attribute `font-style`, if it is written.
    pub font_style: Option<String>,
    /// The attribute `font-weight`, if it is written.
    pub font_weigth: Option<String>,
    /// The attribute `placement`, if it is written.
    pub placement: Option<Placement>,
    /// The attribute `relative-x`, if it is written.
    pub relative_x: Option<Decimal>,
    /// The attribute `relative-y`, if it is written.
    pub relative_y: Option<Decimal>,
}

/// The mathematical value of a [`ArticulationMeta`].
pub struct ArticulationMetaView {
    pub type_: Option<Seq<char>>,
    pub color: Option<Seq<char>>,
    pub default_x: Option<Decimal>,
    pub default_y: Option<Decimal>,
    pub font_family: Option<Seq<char>>,
    pub font_size: Option<Decimal>,
    pub font_style: Option<Seq<char>>,
    pub font_weigth: Option<Seq<char>>,
    pub placement: Option<Placement>,
    pub relative_x: Option<Decimal>,
    pub relative_y: Option<Decimal>,
}

impl DeepView for ArticulationMeta {
    type V = ArticulationMetaView;

    open spec fn deep_view(&self) -> ArticulationMetaView {
        ArticulationMetaView {
            type_: self.type_.deep_view(),
            color: self.color.deep_view(),
            default_x: self.default_x.deep_view(),
            default_y: self.default_y.deep_view(),
            font_family: self.font_family.deep_view(),
            font_size: self.font_size.deep_view(),
            font_style: self.font_style.deep_view(),
            font_weigth: self.font_weigth.deep_view(),
            placement: self.placement.deep_view(),
            relative_x: self.relative_x.deep_view(),
            relative_y: self.relative_y.deep_view(),
        }
    }
}

impl ArticulationMeta {
    /// The value with every field at its default.
    pub open spec fn initial() -> ArticulationMetaView {
        ArticulationMetaView {
            type_: None,
            color: None,
            default_x: None,
            default_y: None,
            font_family: None,
            font_size: None,
            font_style: None,
            font_weigth: None,
            placement: None,
            relative_x: None,
            relative_y: None,
        }
    }
}

impl Default for ArticulationMeta {
    fn default() -> (r: ArticulationMeta)
        ensures
            r.deep_view() == ArticulationMeta::initial(),
    {
        let r = ArticulationMeta {
            type_: None,
            color: None,
            default_x: None,
            default_y: None,
            font_family: None,
            font_size: None,
            font_style: None,
            font_weigth: None,
            placement: None,
            relative_x: None,
            relative_y: None,
        };
        r
    }
}

impl ArticulationMeta {
    /// The value that an element denotes. The fields are read in the order in
    /// which they are declared; the first one that fails gives the error.
    #[verifier::opaque]
    pub open spec fn decode_node(n: NodeView) -> Result<ArticulationMetaView, DecodeErrorView> {
        let type_ = n.attribute_opt::<String>(Name::Type);
        let color = n.attribute_opt::<String>(Name::Color);
        let default_x = n.attribute_opt::<Decimal>(Name::DefaultX);
        let default_y = n.attribute_opt::<Decimal>(Name::DefaultY);
        let font_family = n.attribute_opt::<String>(Name::FontFamily);
        let font_size = n.attribute_opt::<Decimal>(Name::FontSize);
        let font_style = n.attribute_opt::<String>(Name::FontStyle);
        let font_weigth = n.attribute_opt::<String>(Name::FontWeight);
        let placement = n.attribute_opt::<Placement>(Name::Placement);
        let relative_x = n.attribute_opt::<Decimal>(Name::RelativeX);
        let relative_y = n.attribute_opt::<Decimal>(Name::RelativeY);
        if type_ is Err {
            Err(type_->Err_0)
        } else if color is Err {
            Err(color->Err_0)
        } else if default_x is Err {
            Err(default_x->Err_0)
        } else if default_y is Err {
            Err(default_y->Err_0)
        } else if font_family is Err {
            Err(font_family->Err_0)
        } else if font_size is Err {
            Err(font_size->Err_0)
        } else if font_style is Err {
            Err(font_style->Err_0)
        } else if font_weigth is Err {
            Err(font_weigth->Err_0)
        } else if placement is Err {
            Err(placement->Err_0)
        } else if relative_x is Err {
            Err(relative_x->Err_0)
        } else if relative_y is Err {
            Err(relative_y->Err_0)
        } else {
            Ok(
                ArticulationMetaView {
                    type_: type_->Ok_0,
                    color: color->Ok_0,
                    default_x: default_x->Ok_0,
                    default_y: default_y->Ok_0,
                    font_family: font_family->Ok_0,
                    font_size: font_size->Ok_0,
                    font_style: font_style->Ok_0,
                    font_weigth: font_weigth->Ok_0,
                    placement: placement->Ok_0,
                    relative_x: relative_x->Ok_0,
                    relative_y: relative_y->Ok_0,
                }
            )
        }
    }

    /// The element that a value is written as.
    #[verifier::opaque]
    pub open spec fn encode_value(v: ArticulationMetaView, tag: Seq<char>) -> NodeView {
        NodeView::new(tag)
            .with_scalar_opt::<String>(Name::Type, v.type_)
            .with_scalar_opt::<String>(Name::Color, v.color)
            .with_scalar_opt::<Decimal>(Name::DefaultX, v.default_x)
            .with_scalar_opt::<Decimal>(Name::DefaultY, v.default_y)
            .with_scalar_opt::<String>(Name::FontFamily, v.font_family)
            .with_scalar_opt::<Decimal>(Name::FontSize, v.font_size)
            .with_scalar_opt::<String>(Name::FontStyle, v.font_style)
            .with_scalar_opt::<String>(Name::FontWeight, v.font_weigth)
            .with_scalar_opt::<Placement>(Name::Placement, v.placement)
            .with_scalar_opt::<Decimal>(Name::RelativeX, v.relative_x)
            .with_scalar_opt::<Decimal>(Name::RelativeY, v.relative_y)
    }

    /// An encoded element bears the tag it was given.
    pub proof fn encoded_tag(v: ArticulationMetaView, tag: Seq<char>)
        ensures
            ArticulationMeta::encode_value(v, tag).tag == tag,
    {
        broadcast use group_codec;

        reveal(ArticulationMeta::encode_value);
    }

    /// Decoding what was encoded gives the value back.
    pub proof fn round_trip(v: ArticulationMetaView, tag: Seq<char>)
        requires
            <ArticulationMeta as Element>::valid(v),
        ensures
            ArticulationMeta::decode_node(ArticulationMeta::encode_value(v, tag))
                == Ok::<ArticulationMetaView, DecodeErrorView>(v),
    {
        broadcast use group_codec;

        let n = ArticulationMeta::encode_value(v, tag);
        assert(
            n.attribute_opt::<String>(Name::Type)
                == Ok::<Option<Seq<char>>, DecodeErrorView>(v.type_)
        ) by {
            reveal(ArticulationMeta::encode_value);
        }
        assert(
            n.attribute_opt::<String>(Name::Color)
                == Ok::<Option<Seq<char>>, DecodeErrorView>(v.color)
        ) by {
            reveal(ArticulationMeta::encode_value);
        }
        assert(
            n.attribute_opt::<Decimal>(Name::DefaultX)
                == Ok::<Option<Decimal>, DecodeErrorView>(v.default_x)
        ) by {
            reveal(ArticulationMeta::encode_value);
        }
        assert(
            n.attribute_opt::<Decimal>(Name::DefaultY)
                == Ok::<Option<Decimal>, DecodeErrorView>(v.default_y)
        ) by {
            reveal(ArticulationMeta::encode_value);
        }
        assert(
            n.attribute_opt::<String>(Name::FontFamily)
                == Ok::<Option<Seq<char>>, DecodeErrorView>(v.font_family)
        ) by {
            reveal(ArticulationMeta::encode_value);
        }
        assert(
            n.attribute_opt::<Decimal>(Name::FontSize)
                == Ok::<Option<Decimal>, DecodeErrorView>(v.font_size)
        ) by {
            reveal(ArticulationMeta::encode_value);
        }
        assert(
            n.attribute_opt::<String>(Name::FontStyle)
                == Ok::<Option<Seq<char>>, DecodeErrorView>(v.font_style)
        ) by {
            reveal(ArticulationMeta::encode_value);
        }
        assert(
            n.attribute_opt::<String>(Name::FontWeight)
                == Ok::<Option<Seq<char>>, DecodeErrorView>(v.font_weigth)
        ) by {
            reveal(ArticulationMeta::encode_value);
        }
        assert(
            n.attribute_opt::<Placement>(Name::Placement)
                == Ok::<Option<Placement>, DecodeErrorView>(v.placement)
        ) by {
            reveal(ArticulationMeta::encode_value);
        }
        assert(
            n.attribute_opt::<Decimal>(Name::RelativeX)
                == Ok::<Option<Decimal>, DecodeErrorView>(v.relative_x)
        ) by {
            reveal(ArticulationMeta::encode_value);
        }
        assert(
            n.attribute_opt::<Decimal>(Name::RelativeY)
                == Ok::<Option<Decimal>, DecodeErrorView>(v.relative_y)
        ) by {
            reveal(ArticulationMeta::encode_value);
        }
        reveal(ArticulationMeta::decode_node);
    }

    /// Decoding gives valid values only.
    pub proof fn decoded_valid(n: NodeView)
        ensures
            ArticulationMeta::decode_node(n) matches Ok(v) ==>
                <ArticulationMeta as Element>::valid(v),
    {
        reveal(ArticulationMeta::decode_node);
    }

    /// Decodes an element.
    pub fn read_node(node: &Node) -> (r: Result<ArticulationMeta, DecodeError>)
        ensures
            r matches Ok(v) ==>
                ArticulationMeta::decode_node(node.deep_view())
                    == Ok::<ArticulationMetaView, DecodeErrorView>(
                v.deep_view(),
            ),
            r matches Err(e) ==>
                ArticulationMeta::decode_node(node.deep_view())
                    == Err::<ArticulationMetaView, DecodeErrorView>(
                e.deep_view(),
            ),
    {
        proof {
            reveal(ArticulationMeta::decode_node);
        }
        let type_ = node.attribute_opt::<String>(Name::Type)?;
        let color = node.attribute_opt::<String>(Name::Color)?;
        let default_x = node.attribute_opt::<Decimal>(Name::DefaultX)?;
        let default_y = node.attribute_opt::<Decimal>(Name::DefaultY)?;
        let font_family = node.attribute_opt::<String>(Name::FontFamily)?;
        let font_size = node.attribute_opt::<Decimal>(Name::FontSize)?;
        let font_style = node.attribute_opt::<String>(Name::FontStyle)?;
        let font_weigth = node.attribute_opt::<String>(Name::FontWeight)?;
        let placement = node.attribute_opt::<Placement>(Name::Placement)?;
        let relative_x = node.attribute_opt::<Decimal>(Name::RelativeX)?;
        let relative_y = node.attribute_opt::<Decimal>(Name::RelativeY)?;
        Ok(ArticulationMeta {
            type_,
            color,
            default_x,
            default_y,
            font_family,
            font_size,
            font_style,
            font_weigth,
            placement,
            relative_x,
            relative_y,
        })
    }

    /// Encodes a value as an element with the given tag.
    pub fn write_node(&self, tag: &str) -> (r: Node)
        ensures
            r.deep_view() == ArticulationMeta::encode_value(self.deep_view(), tag@),
    {
        proof {
            reveal(ArticulationMeta::encode_value);
        }
        let mut node = Node::new(tag);
        node.put_scalar_opt::<String>(Name::Type, &self.type_);
        node.put_scalar_opt::<String>(Name::Color, &self.color);
        node.put_scalar_opt::<Decimal>(Name::DefaultX, &self.default_x);
        node.put_scalar_opt::<Decimal>(Name::DefaultY, &self.default_y);
        node.put_scalar_opt::<String>(Name::FontFamily, &self.font_family);
        node.put_scalar_opt::<Decimal>(Name::FontSize, &self.font_size);
        node.put_scalar_opt::<String>(Name::FontStyle, &self.font_style);
        node.put_scalar_opt::<String>(Name::FontWeight, &self.font_weigth);
        node.put_scalar_opt::<Placement>(Name::Placement, &self.placement);
        node.put_scalar_opt::<Decimal>(Name::RelativeX, &self.relative_x);
        node.put_scalar_opt::<Decimal>(Name::RelativeY, &self.relative_y);
        node
    }
}

impl Element for ArticulationMeta {
    open spec fn valid(v: ArticulationMetaView) -> bool {
        true
    }

    open spec fn decode(n: NodeView) -> Result<ArticulationMetaView, DecodeErrorView> {
        ArticulationMeta::decode_node(n)
    }

    open spec fn encode(v: ArticulationMetaView, tag: Seq<char>) -> NodeView {
        ArticulationMeta::encode_value(v, tag)
    }

    proof fn encode_tag(v: ArticulationMetaView, tag: Seq<char>) {
        ArticulationMeta::encoded_tag(v, tag);
    }

    proof fn decode_encode(v: ArticulationMetaView, tag: Seq<char>) {
        ArticulationMeta::round_trip(v, tag);
    }

    proof fn decode_valid(n: NodeView) {
        ArticulationMeta::decoded_valid(n);
    }

    fn from_node(node: &Node) -> (r: Result<ArticulationMeta, DecodeError>) {
        ArticulationMeta::read_node(node)
    }

    fn to_node(&self, tag: &str) -> (r: Node) {
        self.write_node(tag)
    }
}

/// The articulations of a note, in document order.
#[derive(Clone, Debug, PartialEq)]
pub struct Articulations {
    /// The children, in document order.
    pub articulations: Vec<ArticulationType>,
}

/// The mathematical value of a [`Articulations`].
pub struct ArticulationsView {
    pub articulations: Seq<ArticulationTypeView>,
}

impl DeepView for Articulations {
    type V = ArticulationsView;

    open spec fn deep_view(&self) -> ArticulationsView {
        ArticulationsView {
            articulations: self.articulations.deep_view(),
        }
    }
}

impl Articulations {
    /// The value that an element denotes. The fields are read in the order in
    /// which they are declared; the first one that fails gives the error.
    #[verifier::opaque]
    pub open spec fn decode_node(n: NodeView) -> Result<ArticulationsView, DecodeErrorView> {
        let articulations = n.variants::<ArticulationType>();
        if articulations is Err {
            Err(articulations->Err_0)
        } else {
            Ok(
                ArticulationsView {
                    articulations: articulations->Ok_0,
                }
            )
        }
    }

    /// The element that a value is written as.
    #[verifier::opaque]
    pub open spec fn encode_value(v: ArticulationsView, tag: Seq<char>) -> NodeView {
        NodeView::new(tag)
            .with_children(encode_variants::<ArticulationType>(v.articulations))
    }

    /// An encoded element bears the tag it was given.
    pub proof fn encoded_tag(v: ArticulationsView, tag: Seq<char>)
        ensures
            Articulations::encode_value(v, tag).tag == tag,
    {
        broadcast use group_codec;

        reveal(Articulations::encode_value);
    }

    /// Decoding what was encoded gives the value back.
    pub proof fn round_trip(v: ArticulationsView, tag: Seq<char>)
        requires
            <Articulations as Element>::valid(v),
        ensures
            Articulations::decode_node(Articulations::encode_value(v, tag))
                == Ok::<ArticulationsView, DecodeErrorView>(v),
    {
        broadcast use group_codec;

        let n = Articulations::encode_value(v, tag);
        assert(
            n.variants::<ArticulationType>()
                == Ok::<Seq<ArticulationTypeView>, DecodeErrorView>(v.articulations)
        ) by {
            reveal(Articulations::encode_value);
            reveal(NodeView::variants);
            lemma_decode_encode_variants::<ArticulationType>(v.articulations, tag);
        }
        reveal(Articulations::decode_node);
    }

    /// Decoding gives valid values only.
    pub proof fn decoded_valid(n: NodeView)
        ensures
            Articulations::decode_node(n) matches Ok(v) ==> <Articulations as Element>::valid(v),
    {
        reveal(Articulations::decode_node);
        reveal(NodeView::variants);
        lemma_decode_variants_valid::<ArticulationType>(n.children, n.tag);
    }

    /// Decodes an element.
    pub fn read_node(node: &Node) -> (r: Result<Articulations, DecodeError>)
        ensures
            r matches Ok(v) ==>
                Articulations::decode_node(node.deep_view())
                    == Ok::<ArticulationsView, DecodeErrorView>(
                v.deep_view(),
            ),
            r matches Err(e) ==>
                Articulations::decode_node(node.deep_view())
                    == Err::<ArticulationsView, DecodeErrorView>(
                e.deep_view(),
            ),
    {
        proof {
            reveal(Articulations::decode_node);
        }
        let articulations = node.variants::<ArticulationType>()?;
        Ok(Articulations { articulations })
    }

    /// Encodes a value as an element with the given tag.
    pub fn write_node(&self, tag: &str) -> (r: Node)
        ensures
            r.deep_view() == Articulations::encode_value(self.deep_view(), tag@),
    {
        proof {
            reveal(Articulations::encode_value);
        }
        let mut node = Node::new(tag);
        node.put_variants::<ArticulationType>(&self.articulations);
        node
    }
}

impl Element for Articulations {
    open spec fn valid(v: ArticulationsView) -> bool {
        &&& all_valid_variants::<ArticulationType>(v.articulations)
    }

    open spec fn decode(n: NodeView) -> Result<ArticulationsView, DecodeErrorView> {
        Articulations::decode_node(n)
    }

    open spec fn encode(v: ArticulationsView, tag: Seq<char>) -> NodeView {
        Articulations::encode_value(v, tag)
    }

    proof fn encode_tag(v: ArticulationsView, tag: Seq<char>) {
        Articulations::encoded_tag(v, tag);
    }

    proof fn decode_encode(v: ArticulationsView, tag: Seq<char>) {
        Articulations::round_trip(v, tag);
    }

    proof fn decode_valid(n: NodeView) {
        Articulations::decoded_valid(n);
    }

    fn from_node(node: &Node) -> (r: Result<Articulations, DecodeError>) {
        Articulations::read_node(node)
    }

    fn to_node(&self, tag: &str) -> (r: Node) {
        self.write_node(tag)
    }
}

/// An articulation of a note.
#[derive(Clone, Debug, PartialEq)]
pub enum ArticulationType {
    /// The element `accent`.
    Accent(ArticulationMeta),
    /// The element `strong-accent`.
    StrongAccent(ArticulationMeta),
    /// The element `staccato`.
    Staccato(ArticulationMeta),
    /// The element `tenuto`.
    Tenuto(ArticulationMeta),
    /// The element `detached-legato`.
    DetachedLegato(ArticulationMeta),
    /// The element `staccatissimo`.
    Staccatissimo(ArticulationMeta),
    /// The element `spiccato`.
    Spiccato(ArticulationMeta),
    /// The element `scoop`.
    Scoop(ArticulationMeta),
    /// The element `plop`.
    Plop(ArticulationMeta),
    /// The element `doit`.
    Doit(ArticulationMeta),
    /// The element `falloff`.
    Falloff(ArticulationMeta),
    /// The element `breath-mark`.
    BreathMark(ArticulationMeta),
    /// The element `caesura`.
    Caesura(ArticulationMeta),
    /// The element `stress`.
    Stress(ArticulationMeta),
    /// The element `unstress`.
    Unstress(ArticulationMeta),
    /// The element `soft-accent`.
    SoftAccent(ArticulationMeta),
    /// The element `other-articulation`.
    OtherArticulation(ArticulationMeta),
}

/// The mathematical value of a [`ArticulationType`].
pub enum ArticulationTypeView {
    Accent(ArticulationMetaView),
    StrongAccent(ArticulationMetaView),
    Staccato(ArticulationMetaView),
    Tenuto(ArticulationMetaView),
    DetachedLegato(ArticulationMetaView),
    Staccatissimo(ArticulationMetaView),
    Spiccato(ArticulationMetaView),
    Scoop(ArticulationMetaView),
    Plop(ArticulationMetaView),
    Doit(ArticulationMetaView),
    Falloff(ArticulationMetaView),
    BreathMark(ArticulationMetaView),
    Caesura(ArticulationMetaView),
    Stress(ArticulationMetaView),
    Unstress(ArticulationMetaView),
    SoftAccent(ArticulationMetaView),
    OtherArticulation(ArticulationMetaView),
}

impl DeepView for ArticulationType {
    type V = ArticulationTypeView;

    open spec fn deep_view(&self) -> ArticulationTypeView {
        match self {
            ArticulationType::Accent(x) => ArticulationTypeView::Accent(x.deep_view()),
            ArticulationType::StrongAccent(x) => ArticulationTypeView::StrongAccent(x.deep_view()),
            ArticulationType::Staccato(x) => ArticulationTypeView::Staccato(x.deep_view()),
            ArticulationType::Tenuto(x) => ArticulationTypeView::Tenuto(x.deep_view()),
            ArticulationType::DetachedLegato(x) =>
                ArticulationTypeView::DetachedLegato(x.deep_view()),
            ArticulationType::Staccatissimo(x) =>
                ArticulationTypeView::Staccatissimo(x.deep_view()),
            ArticulationType::Spiccato(x) => ArticulationTypeView::Spiccato(x.deep_view()),
            ArticulationType::Scoop(x) => ArticulationTypeView::Scoop(x.deep_view()),
            ArticulationType::Plop(x) => ArticulationTypeView::Plop(x.deep_view()),
            ArticulationType::Doit(x) => ArticulationTypeView::Doit(x.deep_view()),
            ArticulationType::Falloff(x) => ArticulationTypeView::Falloff(x.deep_view()),
            ArticulationType::BreathMark(x) => ArticulationTypeView::BreathMark(x.deep_view()),
            ArticulationType::Caesura(x) => ArticulationTypeView::Caesura(x.deep_view()),
            ArticulationType::Stress(x) => ArticulationTypeView::Stress(x.deep_view()),
            ArticulationType::Unstress(x) => ArticulationTypeView::Unstress(x.deep_view()),
            ArticulationType::SoftAccent(x) => ArticulationTypeView::SoftAccent(x.deep_view()),
            ArticulationType::OtherArticulation(x) =>
                ArticulationTypeView::OtherArticulation(x.deep_view()),
        }
    }
}

impl ArticulationType {
    /// The variant that an element denotes: the tag chooses the variant, the
    /// rest of the element gives what the variant holds.
    #[verifier::opaque]
    pub open spec fn decode_node(n: NodeView) -> Result<ArticulationTypeView, DecodeErrorView> {
        match Name::of_text(n.tag) {
            Some(Name::Accent) => match ArticulationMeta::decode(n) {
                Ok(x) => Ok(ArticulationTypeView::Accent(x)),
                Err(e) => Err(e),
            },
            Some(Name::StrongAccent) => match ArticulationMeta::decode(n) {
                Ok(x) => Ok(ArticulationTypeView::StrongAccent(x)),
                Err(e) => Err(e),
            },
            Some(Name::Staccato) => match ArticulationMeta::decode(n) {
                Ok(x) => Ok(ArticulationTypeView::Staccato(x)),
                Err(e) => Err(e),
            },
            Some(Name::Tenuto) => match ArticulationMeta::decode(n) {
                Ok(x) => Ok(ArticulationTypeView::Tenuto(x)),
                Err(e) => Err(e),
            },
            Some(Name::DetachedLegato) => match ArticulationMeta::decode(n) {
                Ok(x) => Ok(ArticulationTypeView::DetachedLegato(x)),
                Err(e) => Err(e),
            },
            Some(Name::Staccatissimo) => match ArticulationMeta::decode(n) {
                Ok(x) => Ok(ArticulationTypeView::Staccatissimo(x)),
                Err(e) => Err(e),
            },
            Some(Name::Spiccato) => match ArticulationMeta::decode(n) {
                Ok(x) => Ok(ArticulationTypeView::Spiccato(x)),
                Err(e) => Err(e),
            },
            Some(Name::Scoop) => match ArticulationMeta::decode(n) {
                Ok(x) => Ok(ArticulationTypeView::Scoop(x)),
                Err(e) => Err(e),
            },
            Some(Name::Plop) => match ArticulationMeta::decode(n) {
                Ok(x) => Ok(ArticulationTypeView::Plop(x)),
                Err(e) => Err(e),
            },
            Some(Name::Doit) => match ArticulationMeta::decode(n) {
                Ok(x) => Ok(ArticulationTypeView::Doit(x)),
                Err(e) => Err(e),
            },
            Some(Name::Falloff) => match ArticulationMeta::decode(n) {
                Ok(x) => Ok(ArticulationTypeView::Falloff(x)),
                Err(e) => Err(e),
            },
            Some(Name::BreathMark) => match ArticulationMeta::decode(n) {
                Ok(x) => Ok(ArticulationTypeView::BreathMark(x)),
                Err(e) => Err(e),
            },
            Some(Name::Caesura) => match ArticulationMeta::decode(n) {
                Ok(x) => Ok(ArticulationTypeView::Caesura(x)),
                Err(e) => Err(e),
            },
            Some(Name::Stress) => match ArticulationMeta::decode(n) {
                Ok(x) => Ok(ArticulationTypeView::Stress(x)),
                Err(e) => Err(e),
            },
            Some(Name::Unstress) => match ArticulationMeta::decode(n) {
                Ok(x) => Ok(ArticulationTypeView::Unstress(x)),
                Err(e) => Err(e),
            },
            Some(Name::SoftAccent) => match ArticulationMeta::decode(n) {
                Ok(x) => Ok(ArticulationTypeView::SoftAccent(x)),
                Err(e) => Err(e),
            },
            Some(Name::OtherArticulation) => match ArticulationMeta::decode(n) {
                Ok(x) => Ok(ArticulationTypeView::OtherArticulation(x)),
                Err(e) => Err(e),
            },
            _ => Err(n.unknown()),
        }
    }

    /// The element that a variant is written as.
    #[verifier::opaque]
    pub open spec fn encode_value(v: ArticulationTypeView) -> NodeView {
        match v {
            ArticulationTypeView::Accent(x) => ArticulationMeta::encode(x, Name::Accent.text()),
            ArticulationTypeView::StrongAccent(x) =>
                ArticulationMeta::encode(x, Name::StrongAccent.text()),
            ArticulationTypeView::Staccato(x) => ArticulationMeta::encode(x, Name::Staccato.text()),
            ArticulationTypeView::Tenuto(x) => ArticulationMeta::encode(x, Name::Tenuto.text()),
            ArticulationTypeView::DetachedLegato(x) =>
                ArticulationMeta::encode(x, Name::DetachedLegato.text()),
            ArticulationTypeView::Staccatissimo(x) =>
                ArticulationMeta::encode(x, Name::Staccatissimo.text()),
            ArticulationTypeView::Spiccato(x) => ArticulationMeta::encode(x, Name::Spiccato.text()),
            ArticulationTypeView::Scoop(x) => ArticulationMeta::encode(x, Name::Scoop.text()),
            ArticulationTypeView::Plop(x) => ArticulationMeta::encode(x, Name::Plop.text()),
            ArticulationTypeView::Doit(x) => ArticulationMeta::encode(x, Name::Doit.text()),
            ArticulationTypeView::Falloff(x) => ArticulationMeta::encode(x, Name::Falloff.text()),
            ArticulationTypeView::BreathMark(x) =>
                ArticulationMeta::encode(x, Name::BreathMark.text()),
            ArticulationTypeView::Caesura(x) => ArticulationMeta::encode(x, Name::Caesura.text()),
            ArticulationTypeView::Stress(x) => ArticulationMeta::encode(x, Name::Stress.text()),
            ArticulationTypeView::Unstress(x) => ArticulationMeta::encode(x, Name::Unstress.text()),
            ArticulationTypeView::SoftAccent(x) =>
                ArticulationMeta::encode(x, Name::SoftAccent.text()),
            ArticulationTypeView::OtherArticulation(x) =>
                ArticulationMeta::encode(x, Name::OtherArticulation.text()),
        }
    }

    /// The tag of a variant.
    pub open spec fn name_of(v: ArticulationTypeView) -> Name {
        match v {
            ArticulationTypeView::Accent(_) => Name::Accent,
            ArticulationTypeView::StrongAccent(_) => Name::StrongAccent,
            ArticulationTypeView::Staccato(_) => Name::Staccato,
            ArticulationTypeView::Tenuto(_) => Name::Tenuto,
            ArticulationTypeView::DetachedLegato(_) => Name::DetachedLegato,
            ArticulationTypeView::Staccatissimo(_) => Name::Staccatissimo,
            ArticulationTypeView::Spiccato(_) => Name::Spiccato,
            ArticulationTypeView::Scoop(_) => Name::Scoop,
            ArticulationTypeView::Plop(_) => Name::Plop,
            ArticulationTypeView::Doit(_) => Name::Doit,
            ArticulationTypeView::Falloff(_) => Name::Falloff,
            ArticulationTypeView::BreathMark(_) => Name::BreathMark,
            ArticulationTypeView::Caesura(_) => Name::Caesura,
            ArticulationTypeView::Stress(_) => Name::Stress,
            ArticulationTypeView::Unstress(_) => Name::Unstress,
            ArticulationTypeView::SoftAccent(_) => Name::SoftAccent,
            ArticulationTypeView::OtherArticulation(_) => Name::OtherArticulation,
        }
    }

    /// An encoded variant bears the tag of the variant.
    pub proof fn encoded_name(v: ArticulationTypeView)
        ensures
            ArticulationType::encode_value(v).tag == ArticulationType::name_of(v).text(),
    {
        broadcast use group_codec;

        reveal(ArticulationType::encode_value);
        match v {
            ArticulationTypeView::Accent(x) => {
                ArticulationMeta::encode_tag(x, Name::Accent.text());
            },
            ArticulationTypeView::StrongAccent(x) => {
                ArticulationMeta::encode_tag(x, Name::StrongAccent.text());
            },
            ArticulationTypeView::Staccato(x) => {
                ArticulationMeta::encode_tag(x, Name::Staccato.text());
            },
            ArticulationTypeView::Tenuto(x) => {
                ArticulationMeta::encode_tag(x, Name::Tenuto.text());
            },
            ArticulationTypeView::DetachedLegato(x) => {
                ArticulationMeta::encode_tag(x, Name::DetachedLegato.text());
            },
            ArticulationTypeView::Staccatissimo(x) => {
                ArticulationMeta::encode_tag(x, Name::Staccatissimo.text());
            },
            ArticulationTypeView::Spiccato(x) => {
                ArticulationMeta::encode_tag(x, Name::Spiccato.text());
            },
            ArticulationTypeView::Scoop(x) => {
                ArticulationMeta::encode_tag(x, Name::Scoop.text());
            },
            ArticulationTypeView::Plop(x) => {
                ArticulationMeta::encode_tag(x, Name::Plop.text());
            },
            ArticulationTypeView::Doit(x) => {
                ArticulationMeta::encode_tag(x, Name::Doit.text());
            },
            ArticulationTypeView::Falloff(x) => {
                ArticulationMeta::encode_tag(x, Name::Falloff.text());
            },
            ArticulationTypeView::BreathMark(x) => {
                ArticulationMeta::encode_tag(x, Name::BreathMark.text());
            },
            ArticulationTypeView::Caesura(x) => {
                ArticulationMeta::encode_tag(x, Name::Caesura.text());
            },
            ArticulationTypeView::Stress(x) => {
                ArticulationMeta::encode_tag(x, Name::Stress.text());
            },
            ArticulationTypeView::Unstress(x) => {
                ArticulationMeta::encode_tag(x, Name::Unstress.text());
            },
            ArticulationTypeView::SoftAccent(x) => {
                ArticulationMeta::encode_tag(x, Name::SoftAccent.text());
            },
            ArticulationTypeView::OtherArticulation(x) => {
                ArticulationMeta::encode_tag(x, Name::OtherArticulation.text());
            },
            _ => {
            },
        }
    }

    /// Decoding what was encoded gives the variant back.
    pub proof fn round_trip(v: ArticulationTypeView)
        requires
            <ArticulationType as Tagged>::valid(v),
        ensures
            ArticulationType::decode_node(ArticulationType::encode_value(v))
                == Ok::<ArticulationTypeView, DecodeErrorView>(v),
    {
        broadcast use group_codec;

        let n = ArticulationType::encode_value(v);
        assert(Name::of_text(n.tag) == Some(ArticulationType::name_of(v))) by {
            ArticulationType::encoded_name(v);
        }
        match v {
            ArticulationTypeView::Accent(x) => {
                reveal(ArticulationType::encode_value);
                ArticulationMeta::decode_encode(x, Name::Accent.text());
            },
            ArticulationTypeView::StrongAccent(x) => {
                reveal(ArticulationType::encode_value);
                ArticulationMeta::decode_encode(x, Name::StrongAccent.text());
            },
            ArticulationTypeView::Staccato(x) => {
                reveal(ArticulationType::encode_value);
                ArticulationMeta::decode_encode(x, Name::Staccato.text());
            },
            ArticulationTypeView::Tenuto(x) => {
                reveal(ArticulationType::encode_value);
                ArticulationMeta::decode_encode(x, Name::Tenuto.text());
            },
            ArticulationTypeView::DetachedLegato(x) => {
                reveal(ArticulationType::encode_value);
                ArticulationMeta::decode_encode(x, Name::DetachedLegato.text());
            },
            ArticulationTypeView::Staccatissimo(x) => {
                reveal(ArticulationType::encode_value);
                ArticulationMeta::decode_encode(x, Name::Staccatissimo.text());
            },
            ArticulationTypeView::Spiccato(x) => {
                reveal(ArticulationType::encode_value);
                ArticulationMeta::decode_encode(x, Name::Spiccato.text());
            },
            ArticulationTypeView::Scoop(x) => {
                reveal(ArticulationType::encode_value);
                ArticulationMeta::decode_encode(x, Name::Scoop.text());
            },
            ArticulationTypeView::Plop(x) => {
                reveal(ArticulationType::encode_value);
                ArticulationMeta::decode_encode(x, Name::Plop.text());
            },
            ArticulationTypeView::Doit(x) => {
                reveal(ArticulationType::encode_value);
                ArticulationMeta::decode_encode(x, Name::Doit.text());
            },
            ArticulationTypeView::Falloff(x) => {
                reveal(ArticulationType::encode_value);
                ArticulationMeta::decode_encode(x, Name::Falloff.text());
            },
            ArticulationTypeView::BreathMark(x) => {
                reveal(ArticulationType::encode_value);
                ArticulationMeta::decode_encode(x, Name::BreathMark.text());
            },
            ArticulationTypeView::Caesura(x) => {
                reveal(ArticulationType::encode_value);
                ArticulationMeta::decode_encode(x, Name::Caesura.text());
            },
            ArticulationTypeView::Stress(x) => {
                reveal(ArticulationType::encode_value);
                ArticulationMeta::decode_encode(x, Name::Stress.text());
            },
            ArticulationTypeView::Unstress(x) => {
                reveal(ArticulationType::encode_value);
                ArticulationMeta::decode_encode(x, Name::Unstress.text());
            },
            ArticulationTypeView::SoftAccent(x) => {
                reveal(ArticulationType::encode_value);
                ArticulationMeta::decode_encode(x, Name::SoftAccent.text());
            },
            ArticulationTypeView::OtherArticulation(x) => {
                reveal(ArticulationType::encode_value);
                ArticulationMeta::decode_encode(x, Name::OtherArticulation.text());
            },
        }
        reveal(ArticulationType::decode_node);
    }

    /// Decoding gives valid values only.
    pub proof fn decoded_valid(n: NodeView)
        ensures
            ArticulationType::decode_node(n) matches Ok(v) ==>
                <ArticulationType as Tagged>::valid(v),
    {
        reveal(ArticulationType::decode_node);
        ArticulationMeta::decode_valid(n);
    }

    /// Decodes an element.
    pub fn read_node(node: &Node) -> (r: Result<ArticulationType, DecodeError>)
        ensures
            r matches Ok(v) ==>
                ArticulationType::decode_node(node.deep_view())
                    == Ok::<ArticulationTypeView, DecodeErrorView>(
                v.deep_view(),
            ),
            r matches Err(e) ==>
                ArticulationType::decode_node(node.deep_view())
                    == Err::<ArticulationTypeView, DecodeErrorView>(
                e.deep_view(),
            ),
    {
        proof {
            reveal(ArticulationType::decode_node);
        }
        match Name::from_str(node.tag_str()) {
            Some(Name::Accent) => match ArticulationMeta::from_node(node) {
                Ok(x) => Ok(ArticulationType::Accent(x)),
                Err(e) => Err(e),
            },
            Some(Name::StrongAccent) => match ArticulationMeta::from_node(node) {
                Ok(x) => Ok(ArticulationType::StrongAccent(x)),
                Err(e) => Err(e),
            },
            Some(Name::Staccato) => match ArticulationMeta::from_node(node) {
                Ok(x) => Ok(ArticulationType::Staccato(x)),
                Err(e) => Err(e),
            },
            Some(Name::Tenuto) => match ArticulationMeta::from_node(node) {
                Ok(x) => Ok(ArticulationType::Tenuto(x)),
                Err(e) => Err(e),
            },
            Some(Name::DetachedLegato) => match ArticulationMeta::from_node(node) {
                Ok(x) => Ok(ArticulationType::DetachedLegato(x)),
                Err(e) => Err(e),
            },
            Some(Name::Staccatissimo) => match ArticulationMeta::from_node(node) {
                Ok(x) => Ok(ArticulationType::Staccatissimo(x)),
                Err(e) => Err(e),
            },
            Some(Name::Spiccato) => match ArticulationMeta::from_node(node) {
                Ok(x) => Ok(ArticulationType::Spiccato(x)),
                Err(e) => Err(e),
            },
            Some(Name::Scoop) => match ArticulationMeta::from_node(node) {
                Ok(x) => Ok(ArticulationType::Scoop(x)),
                Err(e) => Err(e),
            },
            Some(Name::Plop) => match ArticulationMeta::from_node(node) {
                Ok(x) => Ok(ArticulationType::Plop(x)),
                Err(e) => Err(e),
            },
            Some(Name::Doit) => match ArticulationMeta::from_node(node) {
                Ok(x) => Ok(ArticulationType::Doit(x)),
                Err(e) => Err(e),
            },
            Some(Name::Falloff) => match ArticulationMeta::from_node(node) {
                Ok(x) => Ok(ArticulationType::Falloff(x)),
                Err(e) => Err(e),
            },
            Some(Name::BreathMark) => match ArticulationMeta::from_node(node) {
                Ok(x) => Ok(ArticulationType::BreathMark(x)),
                Err(e) => Err(e),
            },
            Some(Name::Caesura) => match ArticulationMeta::from_node(node) {
                Ok(x) => Ok(ArticulationType::Caesura(x)),
                Err(e) => Err(e),
            },
            Some(Name::Stress) => match ArticulationMeta::from_node(node) {
                Ok(x) => Ok(ArticulationType::Stress(x)),
                Err(e) => Err(e),
            },
            Some(Name::Unstress) => match ArticulationMeta::from_node(node) {
                Ok(x) => Ok(ArticulationType::Unstress(x)),
                Err(e) => Err(e),
            },
            Some(Name::SoftAccent) => match ArticulationMeta::from_node(node) {
                Ok(x) => Ok(ArticulationType::SoftAccent(x)),
                Err(e) => Err(e),
            },
            Some(Name::OtherArticulation) => match ArticulationMeta::from_node(node) {
                Ok(x) => Ok(ArticulationType::OtherArticulation(x)),
                Err(e) => Err(e),
            },
            _ => Err(DecodeError::at(ErrorKind::StructuralError, node.tag_str())),
        }
    }

    /// Encodes a variant.
    pub fn write_node(&self) -> (r: Node)
        ensures
            r.deep_view() == ArticulationType::encode_value(self.deep_view()),
    {
        proof {
            reveal(ArticulationType::encode_value);
        }
        match self {
            ArticulationType::Accent(x) => x.to_node(Name::Accent.as_str()),
            ArticulationType::StrongAccent(x) => x.to_node(Name::StrongAccent.as_str()),
            ArticulationType::Staccato(x) => x.to_node(Name::Staccato.as_str()),
            ArticulationType::Tenuto(x) => x.to_node(Name::Tenuto.as_str()),
            ArticulationType::DetachedLegato(x) => x.to_node(Name::DetachedLegato.as_str()),
            ArticulationType::Staccatissimo(x) => x.to_node(Name::Staccatissimo.as_str()),
            ArticulationType::Spiccato(x) => x.to_node(Name::Spiccato.as_str()),
            ArticulationType::Scoop(x) => x.to_node(Name::Scoop.as_str()),
            ArticulationType::Plop(x) => x.to_node(Name::Plop.as_str()),
            ArticulationType::Doit(x) => x.to_node(Name::Doit.as_str()),
            ArticulationType::Falloff(x) => x.to_node(Name::Falloff.as_str()),
            ArticulationType::BreathMark(x) => x.to_node(Name::BreathMark.as_str()),
            ArticulationType::Caesura(x) => x.to_node(Name::Caesura.as_str()),
            ArticulationType::Stress(x) => x.to_node(Name::Stress.as_str()),
            ArticulationType::Unstress(x) => x.to_node(Name::Unstress.as_str()),
            ArticulationType::SoftAccent(x) => x.to_node(Name::SoftAccent.as_str()),
            ArticulationType::OtherArticulation(x) => x.to_node(Name::OtherArticulation.as_str()),
        }
    }
}

impl Tagged for ArticulationType {
    open spec fn valid(v: ArticulationTypeView) -> bool {
        match v {
            ArticulationTypeView::Accent(x) => ArticulationMeta::valid(x),
            ArticulationTypeView::StrongAccent(x) => ArticulationMeta::valid(x),
            ArticulationTypeView::Staccato(x) => ArticulationMeta::valid(x),
            ArticulationTypeView::Tenuto(x) => ArticulationMeta::valid(x),
            ArticulationTypeView::DetachedLegato(x) => ArticulationMeta::valid(x),
            ArticulationTypeView::Staccatissimo(x) => ArticulationMeta::valid(x),
            ArticulationTypeView::Spiccato(x) => ArticulationMeta::valid(x),
            ArticulationTypeView::Scoop(x) => ArticulationMeta::valid(x),
            ArticulationTypeView::Plop(x) => ArticulationMeta::valid(x),
            ArticulationTypeView::Doit(x) => ArticulationMeta::valid(x),
            ArticulationTypeView::Falloff(x) => ArticulationMeta::valid(x),
            ArticulationTypeView::BreathMark(x) => ArticulationMeta::valid(x),
            ArticulationTypeView::Caesura(x) => ArticulationMeta::valid(x),
            ArticulationTypeView::Stress(x) => ArticulationMeta::valid(x),
            ArticulationTypeView::Unstress(x) => ArticulationMeta::valid(x),
            ArticulationTypeView::SoftAccent(x) => ArticulationMeta::valid(x),
            ArticulationTypeView::OtherArticulation(x) => ArticulationMeta::valid(x),
        }
    }

    open spec fn decode(n: NodeView) -> Result<ArticulationTypeView, DecodeErrorView> {
        ArticulationType::decode_node(n)
    }

    open spec fn encode(v: ArticulationTypeView) -> NodeView {
        ArticulationType::encode_value(v)
    }

    open spec fn name(v: ArticulationTypeView) -> Name {
        ArticulationType::name_of(v)
    }

    proof fn encode_name(v: ArticulationTypeView) {
        ArticulationType::encoded_name(v);
    }

    proof fn decode_encode(v: ArticulationTypeView) {
        ArticulationType::round_trip(v);
    }

    proof fn decode_valid(n: NodeView) {
        ArticulationType::decoded_valid(n);
    }

    fn from_node(node: &Node) -> (r: Result<ArticulationType, DecodeError>) {
        ArticulationType::read_node(node)
    }

    fn to_node(&self) -> (r: Node) {
        self.write_node()
    }
}

impl ArticulationType {
    /// The articulation with the given tag, printed by default; none where
    /// the tag names no articulation.
    pub open spec fn of_tag(s: Seq<char>) -> Option<ArticulationTypeView> {
        match Name::of_text(s) {
            Some(Name::Accent) => Some(ArticulationTypeView::Accent(ArticulationMeta::initial())),
            Some(Name::StrongAccent) => Some(
                ArticulationTypeView::StrongAccent(ArticulationMeta::initial()),
            ),
            Some(Name::Staccato) => Some(
                ArticulationTypeView::Staccato(ArticulationMeta::initial()),
            ),
            Some(Name::Tenuto) => Some(ArticulationTypeView::Tenuto(ArticulationMeta::initial())),
            Some(Name::DetachedLegato) => Some(
                ArticulationTypeView::DetachedLegato(ArticulationMeta::initial()),
            ),
            Some(Name::Staccatissimo) => Some(
                ArticulationTypeView::Staccatissimo(ArticulationMeta::initial()),
            ),
            Some(Name::Spiccato) => Some(
                ArticulationTypeView::Spiccato(ArticulationMeta::initial()),
            ),
            Some(Name::Scoop) => Some(ArticulationTypeView::Scoop(ArticulationMeta::initial())),
            Some(Name::Plop) => Some(ArticulationTypeView::Plop(ArticulationMeta::initial())),
            Some(Name::Doit) => Some(ArticulationTypeView::Doit(ArticulationMeta::initial())),
            Some(Name::Falloff) => Some(ArticulationTypeView::Falloff(ArticulationMeta::initial())),
            Some(Name::BreathMark) => Some(
                ArticulationTypeView::BreathMark(ArticulationMeta::initial()),
            ),
            Some(Name::Caesura) => Some(ArticulationTypeView::Caesura(ArticulationMeta::initial())),
            Some(Name::Stress) => Some(ArticulationTypeView::Stress(ArticulationMeta::initial())),
            Some(Name::Unstress) => Some(
                ArticulationTypeView::Unstress(ArticulationMeta::initial()),
            ),
            Some(Name::SoftAccent) => Some(
                ArticulationTypeView::SoftAccent(ArticulationMeta::initial()),
            ),
            Some(Name::OtherArticulation) => Some(
                ArticulationTypeView::OtherArticulation(ArticulationMeta::initial()),
            ),
            _ => None,
        }
    }

    /// The articulation with the given tag, printed by default.
    pub fn from_str(s: &str) -> (r: Option<ArticulationType>)
        ensures
            r.deep_view() == ArticulationType::of_tag(s@),
    {
        let meta = ArticulationMeta::default();
        match Name::from_str(s) {
            Some(Name::Accent) => Some(ArticulationType::Accent(meta)),
            Some(Name::StrongAccent) => Some(ArticulationType::StrongAccent(meta)),
            Some(Name::Staccato) => Some(ArticulationType::Staccato(meta)),
            Some(Name::Tenuto) => Some(ArticulationType::Tenuto(meta)),
            Some(Name::DetachedLegato) => Some(ArticulationType::DetachedLegato(meta)),
            Some(Name::Staccatissimo) => Some(ArticulationType::Staccatissimo(meta)),
            Some(Name::Spiccato) => Some(ArticulationType::Spiccato(meta)),
            Some(Name::Scoop) => Some(ArticulationType::Scoop(meta)),
            Some(Name::Plop) => Some(ArticulationType::Plop(meta)),
            Some(Name::Doit) => Some(ArticulationType::Doit(meta)),
            Some(Name::Falloff) => Some(ArticulationType::Falloff(meta)),
            Some(Name::BreathMark) => Some(ArticulationType::BreathMark(meta)),
            Some(Name::Caesura) => Some(ArticulationType::Caesura(meta)),
            Some(Name::Stress) => Some(ArticulationType::Stress(meta)),
            Some(Name::Unstress) => Some(ArticulationType::Unstress(meta)),
            Some(Name::SoftAccent) => Some(ArticulationType::SoftAccent(meta)),
            Some(Name::OtherArticulation) => Some(ArticulationType::OtherArticulation(meta)),
            _ => None,
        }
    }
}

} // verus!
