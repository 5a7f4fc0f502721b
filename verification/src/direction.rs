//! Directions.
use crate::codec::{
    all_valid, Element, encode_elements, group_codec, lemma_decode_elements_valid,
    lemma_decode_encode_elements, Tagged, text_nodes,
};
use crate::dynamics::Dynamics;
use crate::error::{DecodeError, DecodeErrorView, ErrorKind};
use crate::names::Name;
use crate::node::{Node, NodeView};
use crate::primitives::{DurationType, Placement};
use crate::printable_value::{PrintableValue, PrintableValueView};
use crate::scalar::Scalar;
use crate::text::{owned, same_text};
use crate::yes_no::YesNo;
use vstd::prelude::*;

verus! {

/// The kinds of hairpin.
#[derive(Clone, Copy, Debug, PartialEq, Eq, Structural)]
pub enum WedgeType {
    /// Written `none`.
    Nothing,
    /// Written `crescendo`.
    Crescendo,
    /// Written `diminuendo`.
    Diminuendo,
    /// Written `stop`.
    Stop,
    /// Written `continue`.
    Continue,
}

impl DeepView for WedgeType {
    type V = WedgeType;

    open spec fn deep_view(&self) -> WedgeType {
        *self
    }
}

impl WedgeType {
    /// The word that a value is written as.
    #[verifier::opaque]
    pub open spec fn word(self) -> Seq<char> {
        match self {
            WedgeType::Nothing => "none"@,
            WedgeType::Crescendo => "crescendo"@,
            WedgeType::Diminuendo => "diminuendo"@,
            WedgeType::Stop => "stop"@,
            WedgeType::Continue => "continue"@,
        }
    }

    /// The value that a word denotes, if it denotes one.
    #[verifier::opaque]
    pub open spec fn of_word(s: Seq<char>) -> Option<WedgeType> {
        if exists|v: WedgeType| v.word() == s {
            Some(choose|v: WedgeType| v.word() == s)
        } else {
            None
        }
    }

    /// No two values are written alike.
    pub proof fn word_injective(a: WedgeType, b: WedgeType)
        ensures
            a.word() == b.word() ==> a == b,
    {
        reveal(WedgeType::word);
        reveal_strlit("none");
        reveal_strlit("crescendo");
        reveal_strlit("diminuendo");
        reveal_strlit("stop");
        reveal_strlit("continue");
        if a.word() == b.word() {
            assert(a.word().len() == b.word().len());
            assert(a.word()[0] == b.word()[0]);
            assert(a.word()[1] == b.word()[1]);
            assert(a.word()[2] == b.word()[2]);
            assert(a.word()[3] == b.word()[3]);
            assert(a.word()[4] == b.word()[4]);
            assert(a.word()[5] == b.word()[5]);
            assert(a.word()[6] == b.word()[6]);
            assert(a.word()[7] == b.word()[7]);
            assert(a.word()[8] == b.word()[8]);
            assert(a.word()[9] == b.word()[9]);
        }
    }

    /// Reading the word of a value gives the value back.
    pub proof fn of_word_word(v: WedgeType)
        ensures
            WedgeType::of_word(v.word()) == Some(v),
    {
        reveal(WedgeType::of_word);
        WedgeType::word_injective(v, choose|w: WedgeType| w.word() == v.word());
    }

    /// The word that a value is written as.
    pub fn as_str(self) -> (r: &'static str)
        ensures
            r@ == self.word(),
    {
        proof {
            reveal(WedgeType::word);
        }
        match self {
            WedgeType::Nothing => "none",
            WedgeType::Crescendo => "crescendo",
            WedgeType::Diminuendo => "diminuendo",
            WedgeType::Stop => "stop",
            WedgeType::Continue => "continue",
        }
    }

    /// Reads a value from its word.
    pub fn from_str(s: &str) -> (r: Option<WedgeType>)
        ensures
            r == WedgeType::of_word(s@),
    {
        proof {
            reveal(WedgeType::word);
            reveal(WedgeType::of_word);
        }
        if same_text(s, "none") {
            proof {
                WedgeType::of_word_word(WedgeType::Nothing);
            }
            return Some(WedgeType::Nothing);
        }
        if same_text(s, "crescendo") {
            proof {
                WedgeType::of_word_word(WedgeType::Crescendo);
            }
            return Some(WedgeType::Crescendo);
        }
        if same_text(s, "diminuendo") {
            proof {
                WedgeType::of_word_word(WedgeType::Diminuendo);
            }
            return Some(WedgeType::Diminuendo);
        }
        if same_text(s, "stop") {
            proof {
                WedgeType::of_word_word(WedgeType::Stop);
            }
            return Some(WedgeType::Stop);
        }
        if same_text(s, "continue") {
            proof {
                WedgeType::of_word_word(WedgeType::Continue);
            }
            return Some(WedgeType::Continue);
        }
        proof {
            assert forall|v: WedgeType| v.word() != s@ by {
            }
        }
        None
    }
}

impl Default for WedgeType {
    fn default() -> (r: WedgeType)
        ensures
            r == WedgeType::Nothing,
    {
        WedgeType::Nothing
    }
}

impl Scalar for WedgeType {
    open spec fn parse(s: Seq<char>) -> Option<WedgeType> {
        WedgeType::of_word(s)
    }

    open spec fn text(v: WedgeType) -> Seq<char> {
        v.word()
    }

    open spec fn initial() -> WedgeType {
        WedgeType::Nothing
    }

    proof fn parse_text(v: WedgeType) {
        WedgeType::of_word_word(v);
    }

    fn from_text(s: &str) -> (r: Option<WedgeType>) {
        WedgeType::from_str(s)
    }

    fn to_text(&self) -> (r: String) {
        owned(self.as_str())
    }

    fn same(&self, other: &WedgeType) -> (r: bool) {
        *self == *other
    }

    fn make_initial() -> (r: WedgeType) {
        WedgeType::Nothing
    }
}

/// A direction of the score.
#[derive(Clone, Debug, PartialEq)]
pub struct Direction {
    /// The children `direction-type`, in document order.
    pub directiontypes: Vec<DirectionType>,
    /// The text of the child `staff`; zero where the child is not there.
    pub staff: u8,
    /// The attribute `placement`, if it is written.
    pub placement: Option<Placement>,
    /// The attribute `directive`; `YesNo::Yes` where it is not written.
    pub directive: YesNo,
}

/// The mathematical value of a [`Direction`].
pub struct DirectionView {
    pub directiontypes: Seq<DirectionTypeView>,
    pub staff: u8,
    pub placement: Option<Placement>,
    pub directive: YesNo,
}

impl DeepView for Direction {
    type V = DirectionView;

    open spec fn deep_view(&self) -> DirectionView {
        DirectionView {
            directiontypes: self.directiontypes.deep_view(),
            staff: self.staff.deep_view(),
            placement: self.placement.deep_view(),
            directive: self.directive.deep_view(),
        }
    }
}

impl Direction {
    /// The value that an element denotes. The fields are read in the order in
    /// which they are declared; the first one that fails gives the error.
    #[verifier::opaque]
    pub open spec fn decode_node(n: NodeView) -> Result<DirectionView, DecodeErrorView> {
        let directiontypes = n.elements::<DirectionType>(Name::DirectionType);
        let staff = n.text_or::<u8>(Name::Staff, 0);
        let placement = n.attribute_opt::<Placement>(Name::Placement);
        let directive = n.attribute_or::<YesNo>(Name::Directive, YesNo::Yes);
        if directiontypes is Err {
            Err(directiontypes->Err_0)
        } else if staff is Err {
            Err(staff->Err_0)
        } else if placement is Err {
            Err(placement->Err_0)
        } else if directive is Err {
            Err(directive->Err_0)
        } else {
            Ok(
                DirectionView {
                    directiontypes: directiontypes->Ok_0,
                    staff: staff->Ok_0,
                    placement: placement->Ok_0,
                    directive: directive->Ok_0,
                }
            )
        }
    }

    /// The element that a value is written as.
    #[verifier::opaque]
    pub open spec fn encode_value(v: DirectionView, tag: Seq<char>) -> NodeView {
        NodeView::new(tag)
            .with_children(encode_elements::<DirectionType>(Name::DirectionType, v.directiontypes))
            .with_children(text_nodes::<u8>(Name::Staff, Some(v.staff)))
            .with_scalar_opt::<Placement>(Name::Placement, v.placement)
            .with_scalar::<YesNo>(Name::Directive, v.directive)
    }

    /// An encoded element bears the tag it was given.
    pub proof fn encoded_tag(v: DirectionView, tag: Seq<char>)
        ensures
            Direction::encode_value(v, tag).tag == tag,
    {
        broadcast use group_codec;

        reveal(Direction::encode_value);
    }

    /// Decoding what was encoded gives the value back.
    pub proof fn round_trip(v: DirectionView, tag: Seq<char>)
        requires
            <Direction as Element>::valid(v),
        ensures
            Direction::decode_node(Direction::encode_value(v, tag))
                == Ok::<DirectionView, DecodeErrorView>(v),
    {
        broadcast use group_codec;

        let n = Direction::encode_value(v, tag);
        assert(
            n.elements::<DirectionType>(Name::DirectionType)
                == Ok::<Seq<DirectionTypeView>, DecodeErrorView>(v.directiontypes)
        ) by {
            reveal(Direction::encode_value);
            reveal(NodeView::elements);
            lemma_decode_encode_elements::<DirectionType>(
                Name::DirectionType,
                v.directiontypes,
                tag,
            );
        }
        assert(n.text_or::<u8>(Name::Staff, 0) == Ok::<u8, DecodeErrorView>(v.staff)) by {
            reveal(Direction::encode_value);
            reveal(NodeView::text_or);
            reveal(NodeView::text_opt);
            reveal(NodeView::only_child);
            reveal(NodeView::content);
            u8::parse_text(v.staff);
        }
        assert(
            n.attribute_opt::<Placement>(Name::Placement)
                == Ok::<Option<Placement>, DecodeErrorView>(v.placement)
        ) by {
            reveal(Direction::encode_value);
        }
        assert(
            n.attribute_or::<YesNo>(Name::Directive, YesNo::Yes)
                == Ok::<YesNo, DecodeErrorView>(v.directive)
        ) by {
            reveal(Direction::encode_value);
        }
        reveal(Direction::decode_node);
    }

    /// Decoding gives valid values only.
    pub proof fn decoded_valid(n: NodeView)
        ensures
            Direction::decode_node(n) matches Ok(v) ==> <Direction as Element>::valid(v),
    {
        reveal(Direction::decode_node);
        reveal(NodeView::elements);
        lemma_decode_elements_valid::<DirectionType>(
            n.children_with_tag(Name::DirectionType.text()),
            n.tag,
        );
    }

    /// Decodes an element.
    pub fn read_node(node: &Node) -> (r: Result<Direction, DecodeError>)
        ensures
            r matches Ok(v) ==>
                Direction::decode_node(node.deep_view()) == Ok::<DirectionView, DecodeErrorView>(
                v.deep_view(),
            ),
            r matches Err(e) ==>
                Direction::decode_node(node.deep_view()) == Err::<DirectionView, DecodeErrorView>(
                e.deep_view(),
            ),
    {
        proof {
            reveal(Direction::decode_node);
        }
        let directiontypes = node.elements::<DirectionType>(Name::DirectionType)?;
        let staff = node.text_or::<u8>(Name::Staff, 0)?;
        let placement = node.attribute_opt::<Placement>(Name::Placement)?;
        let directive = node.attribute_or::<YesNo>(Name::Directive, YesNo::Yes)?;
        Ok(Direction { directiontypes, staff, placement, directive })
    }

    /// Encodes a value as an element with the given tag.
    pub fn write_node(&self, tag: &str) -> (r: Node)
        ensures
            r.deep_view() == Direction::encode_value(self.deep_view(), tag@),
    {
        proof {
            reveal(Direction::encode_value);
        }
        let mut node = Node::new(tag);
        node.put_elements::<DirectionType>(Name::DirectionType, &self.directiontypes);
        node.put_text::<u8>(Name::Staff, &self.staff);
        node.put_scalar_opt::<Placement>(Name::Placement, &self.placement);
        node.put_scalar::<YesNo>(Name::Directive, &self.directive);
        node
    }
}

impl Element for Direction {
    open spec fn valid(v: DirectionView) -> bool {
        &&& all_valid::<DirectionType>(v.directiontypes)
    }

    open spec fn decode(n: NodeView) -> Result<DirectionView, DecodeErrorView> {
        Direction::decode_node(n)
    }

    open spec fn encode(v: DirectionView, tag: Seq<char>) -> NodeView {
        Direction::encode_value(v, tag)
    }

    proof fn encode_tag(v: DirectionView, tag: Seq<char>) {
        Direction::encoded_tag(v, tag);
    }

    proof fn decode_encode(v: DirectionView, tag: Seq<char>) {
        Direction::round_trip(v, tag);
    }

    proof fn decode_valid(n: NodeView) {
        Direction::decoded_valid(n);
    }

    fn from_node(node: &Node) -> (r: Result<Direction, DecodeError>) {
        Direction::read_node(node)
    }

    fn to_node(&self, tag: &str) -> (r: Node) {
        self.write_node(tag)
    }
}

/// What a direction says.
#[derive(Clone, Debug, PartialEq)]
pub enum DirectionType {
    /// The element `wedge`.
    Wedge {
        /// The attribute `type`; `WedgeType::Nothing` where it is not
        /// written.
        type_: WedgeType,
        /// The attribute `number`; zero where it is not written.
        number: u8,
    },
    /// The element `dynamics`.
    Dynamic(PrintableValue<Dynamics>),
    /// The element `words`.
    Words(PrintableValue<String>),
    /// The element `metronome`.
    Metronome {
        /// The text of the child `beat-unit`; `DurationType::Sixtyfourth`
        /// where the child is not there.
        beat_unit: DurationType,
        /// The text of the child `per-minute`; zero where the child is not
        /// there.
        per_minute: u8,
    },
    /// The element `rehersal`.
    Rehersal {
        /// The text of the child `text`, which must be there.
        text: String,
    },
    /// The element `coda`, which holds nothing.
    Coda,
    /// The element `segno`, which holds nothing.
    Segno,
}

/// The mathematical value of a [`DirectionType`].
pub enum DirectionTypeView {
    Wedge {
        type_: WedgeType,
        number: u8,
    },
    Dynamic(PrintableValueView<Dynamics>),
    Words(PrintableValueView<Seq<char>>),
    Metronome {
        beat_unit: DurationType,
        per_minute: u8,
    },
    Rehersal {
        text: Seq<char>,
    },
    Coda,
    Segno,
}

impl DeepView for DirectionType {
    type V = DirectionTypeView;

    open spec fn deep_view(&self) -> DirectionTypeView {
        match self {
            DirectionType::Wedge { type_, number } => DirectionTypeView::Wedge {
                type_: type_.deep_view(),
                number: number.deep_view(),
            },
            DirectionType::Dynamic(x) => DirectionTypeView::Dynamic(x.deep_view()),
            DirectionType::Words(x) => DirectionTypeView::Words(x.deep_view()),
            DirectionType::Metronome { beat_unit, per_minute } => DirectionTypeView::Metronome {
                beat_unit: beat_unit.deep_view(),
                per_minute: per_minute.deep_view(),
            },
            DirectionType::Rehersal { text } => DirectionTypeView::Rehersal {
                text: text.deep_view(),
            },
            DirectionType::Coda => DirectionTypeView::Coda,
            DirectionType::Segno => DirectionTypeView::Segno,
        }
    }
}

impl DirectionType {
    /// The variant that an element denotes: the tag chooses the variant, the
    /// rest of the element gives what the variant holds.
    #[verifier::opaque]
    pub open spec fn decode_node(n: NodeView) -> Result<DirectionTypeView, DecodeErrorView> {
        match Name::of_text(n.tag) {
            Some(Name::Wedge) => {
                let type_ = n.attribute_or::<WedgeType>(Name::Type, WedgeType::Nothing);
                let number = n.attribute_or::<u8>(Name::Number, 0);
                if type_ is Err {
                    Err(type_->Err_0)
                } else if number is Err {
                    Err(number->Err_0)
                } else {
                    Ok(
                        DirectionTypeView::Wedge {
                            type_: type_->Ok_0,
                            number: number->Ok_0,
                        }
                    )
                }
            },
            Some(Name::Dynamics) => match PrintableValue::<Dynamics>::decode(n) {
                Ok(x) => Ok(DirectionTypeView::Dynamic(x)),
                Err(e) => Err(e),
            },
            Some(Name::Words) => match PrintableValue::<String>::decode(n) {
                Ok(x) => Ok(DirectionTypeView::Words(x)),
                Err(e) => Err(e),
            },
            Some(Name::Metronome) => {
                let beat_unit = n.text_or::<DurationType>(
                    Name::BeatUnit,
                    DurationType::Sixtyfourth,
                );
                let per_minute = n.text_or::<u8>(Name::PerMinute, 0);
                if beat_unit is Err {
                    Err(beat_unit->Err_0)
                } else if per_minute is Err {
                    Err(per_minute->Err_0)
                } else {
                    Ok(
                        DirectionTypeView::Metronome {
                            beat_unit: beat_unit->Ok_0,
                            per_minute: per_minute->Ok_0,
                        }
                    )
                }
            },
            Some(Name::Rehersal) => {
                let text = n.text_required::<String>(Name::Text);
                if text is Err {
                    Err(text->Err_0)
                } else {
                    Ok(
                        DirectionTypeView::Rehersal {
                            text: text->Ok_0,
                        }
                    )
                }
            },
            Some(Name::Coda) => Ok(DirectionTypeView::Coda),
            Some(Name::Segno) => Ok(DirectionTypeView::Segno),
            _ => Err(n.unknown()),
        }
    }

    /// The element that a variant is written as.
    #[verifier::opaque]
    pub open spec fn encode_value(v: DirectionTypeView) -> NodeView {
        match v {
            DirectionTypeView::Wedge { type_, number } => NodeView::new(Name::Wedge.text())
                .with_scalar::<WedgeType>(Name::Type, type_)
                .with_scalar::<u8>(Name::Number, number),
            DirectionTypeView::Dynamic(x) =>
                PrintableValue::<Dynamics>::encode(x, Name::Dynamics.text()),
            DirectionTypeView::Words(x) => PrintableValue::<String>::encode(x, Name::Words.text()),
            DirectionTypeView::Metronome {
                beat_unit,
                per_minute,
            } => NodeView::new(Name::Metronome.text())
                .with_children(text_nodes::<DurationType>(Name::BeatUnit, Some(beat_unit)))
                .with_children(text_nodes::<u8>(Name::PerMinute, Some(per_minute))),
            DirectionTypeView::Rehersal { text } => NodeView::new(Name::Rehersal.text())
                .with_children(text_nodes::<String>(Name::Text, Some(text))),
            DirectionTypeView::Coda => NodeView::new(Name::Coda.text()),
            DirectionTypeView::Segno => NodeView::new(Name::Segno.text()),
        }
    }

    /// The tag of a variant.
    pub open spec fn name_of(v: DirectionTypeView) -> Name {
        match v {
            DirectionTypeView::Wedge { .. } => Name::Wedge,
            DirectionTypeView::Dynamic(_) => Name::Dynamics,
            DirectionTypeView::Words(_) => Name::Words,
            DirectionTypeView::Metronome { .. } => Name::Metronome,
            DirectionTypeView::Rehersal { .. } => Name::Rehersal,
            DirectionTypeView::Coda => Name::Coda,
            DirectionTypeView::Segno => Name::Segno,
        }
    }

    /// An encoded variant bears the tag of the variant.
    pub proof fn encoded_name(v: DirectionTypeView)
        ensures
            DirectionType::encode_value(v).tag == DirectionType::name_of(v).text(),
    {
        broadcast use group_codec;

        reveal(DirectionType::encode_value);
        match v {
            DirectionTypeView::Dynamic(x) => {
                PrintableValue::<Dynamics>::encode_tag(x, Name::Dynamics.text());
            },
            DirectionTypeView::Words(x) => {
                PrintableValue::<String>::encode_tag(x, Name::Words.text());
            },
            _ => {
            },
        }
    }

    /// Decoding what was encoded gives the variant back.
    pub proof fn round_trip(v: DirectionTypeView)
        requires
            <DirectionType as Tagged>::valid(v),
        ensures
            DirectionType::decode_node(DirectionType::encode_value(v))
                == Ok::<DirectionTypeView, DecodeErrorView>(v),
    {
        broadcast use group_codec;

        let n = DirectionType::encode_value(v);
        assert(Name::of_text(n.tag) == Some(DirectionType::name_of(v))) by {
            DirectionType::encoded_name(v);
        }
        match v {
            DirectionTypeView::Wedge { type_, number } => {
                assert(
                    n.attribute_or::<WedgeType>(Name::Type, WedgeType::Nothing)
                        == Ok::<WedgeType, DecodeErrorView>(type_)
                ) by {
                    reveal(DirectionType::encode_value);
                }
                assert(
                    n.attribute_or::<u8>(Name::Number, 0)
                        == Ok::<u8, DecodeErrorView>(number)
                ) by {
                    reveal(DirectionType::encode_value);
                }
            },
            DirectionTypeView::Dynamic(x) => {
                reveal(DirectionType::encode_value);
                PrintableValue::<Dynamics>::decode_encode(x, Name::Dynamics.text());
            },
            DirectionTypeView::Words(x) => {
                reveal(DirectionType::encode_value);
                PrintableValue::<String>::decode_encode(x, Name::Words.text());
            },
            DirectionTypeView::Metronome { beat_unit, per_minute } => {
                assert(
                    n.text_or::<DurationType>(Name::BeatUnit, DurationType::Sixtyfourth)
                        == Ok::<DurationType, DecodeErrorView>(beat_unit)
                ) by {
                    reveal(DirectionType::encode_value);
                    reveal(NodeView::text_or);
                    reveal(NodeView::text_opt);
                    reveal(NodeView::only_child);
                    reveal(NodeView::content);
                    DurationType::parse_text(beat_unit);
                }
                assert(
                    n.text_or::<u8>(Name::PerMinute, 0)
                        == Ok::<u8, DecodeErrorView>(per_minute)
                ) by {
                    reveal(DirectionType::encode_value);
                    reveal(NodeView::text_or);
                    reveal(NodeView::text_opt);
                    reveal(NodeView::only_child);
                    reveal(NodeView::content);
                    u8::parse_text(per_minute);
                }
            },
            DirectionTypeView::Rehersal { text } => {
                assert(
                    n.text_required::<String>(Name::Text)
                        == Ok::<Seq<char>, DecodeErrorView>(text)
                ) by {
                    reveal(DirectionType::encode_value);
                    reveal(NodeView::text_required);
                    reveal(NodeView::text_opt);
                    reveal(NodeView::only_child);
                    reveal(NodeView::content);
                }
            },
            DirectionTypeView::Coda => {
            },
            DirectionTypeView::Segno => {
            },
        }
        reveal(DirectionType::decode_node);
    }

    /// Decoding gives valid values only.
    pub proof fn decoded_valid(n: NodeView)
        ensures
            DirectionType::decode_node(n) matches Ok(v) ==> <DirectionType as Tagged>::valid(v),
    {
        reveal(DirectionType::decode_node);
        PrintableValue::<Dynamics>::decode_valid(n);
        PrintableValue::<String>::decode_valid(n);
    }

    /// Decodes an element.
    pub fn read_node(node: &Node) -> (r: Result<DirectionType, DecodeError>)
        ensures
            r matches Ok(v) ==>
                DirectionType::decode_node(node.deep_view())
                    == Ok::<DirectionTypeView, DecodeErrorView>(
                v.deep_view(),
            ),
            r matches Err(e) ==>
                DirectionType::decode_node(node.deep_view())
                    == Err::<DirectionTypeView, DecodeErrorView>(
                e.deep_view(),
            ),
    {
        proof {
            reveal(DirectionType::decode_node);
        }
        match Name::from_str(node.tag_str()) {
            Some(Name::Wedge) => {
                let type_ = node.attribute_or::<WedgeType>(Name::Type, WedgeType::Nothing)?;
                let number = node.attribute_or::<u8>(Name::Number, 0)?;
                Ok(DirectionType::Wedge { type_, number })
            },
            Some(Name::Dynamics) => match PrintableValue::<Dynamics>::from_node(node) {
                Ok(x) => Ok(DirectionType::Dynamic(x)),
                Err(e) => Err(e),
            },
            Some(Name::Words) => match PrintableValue::<String>::from_node(node) {
                Ok(x) => Ok(DirectionType::Words(x)),
                Err(e) => Err(e),
            },
            Some(Name::Metronome) => {
                let beat_unit = node.text_or::<DurationType>(
                    Name::BeatUnit,
                    DurationType::Sixtyfourth,
                )?;
                let per_minute = node.text_or::<u8>(Name::PerMinute, 0)?;
                Ok(DirectionType::Metronome { beat_unit, per_minute })
            },
            Some(Name::Rehersal) => {
                let text = node.text_required::<String>(Name::Text)?;
                Ok(DirectionType::Rehersal { text })
            },
            Some(Name::Coda) => Ok(DirectionType::Coda),
            Some(Name::Segno) => Ok(DirectionType::Segno),
            _ => Err(DecodeError::at(ErrorKind::StructuralError, node.tag_str())),
        }
    }

    /// Encodes a variant.
    pub fn write_node(&self) -> (r: Node)
        ensures
            r.deep_view() == DirectionType::encode_value(self.deep_view()),
    {
        proof {
            reveal(DirectionType::encode_value);
        }
        match self {
            DirectionType::Wedge { type_, number } => {
                let mut node = Node::new(Name::Wedge.as_str());
                node.put_scalar::<WedgeType>(Name::Type, type_);
                node.put_scalar::<u8>(Name::Number, number);
                node
            },
            DirectionType::Dynamic(x) => x.to_node(Name::Dynamics.as_str()),
            DirectionType::Words(x) => x.to_node(Name::Words.as_str()),
            DirectionType::Metronome { beat_unit, per_minute } => {
                let mut node = Node::new(Name::Metronome.as_str());
                node.put_text::<DurationType>(Name::BeatUnit, beat_unit);
                node.put_text::<u8>(Name::PerMinute, per_minute);
                node
            },
            DirectionType::Rehersal { text } => {
                let mut node = Node::new(Name::Rehersal.as_str());
                node.put_text::<String>(Name::Text, text);
                node
            },
            DirectionType::Coda => Node::new(Name::Coda.as_str()),
            DirectionType::Segno => Node::new(Name::Segno.as_str()),
        }
    }
}

impl Tagged for DirectionType {
    open spec fn valid(v: DirectionTypeView) -> bool {
        match v {
            DirectionTypeView::Wedge { .. } => true,
            DirectionTypeView::Dynamic(x) => PrintableValue::<Dynamics>::valid(x),
            DirectionTypeView::Words(x) => PrintableValue::<String>::valid(x),
            DirectionTypeView::Metronome { .. } => true,
            DirectionTypeView::Rehersal { .. } => true,
            DirectionTypeView::Coda => true,
            DirectionTypeView::Segno => true,
        }
    }

    open spec fn decode(n: NodeView) -> Result<DirectionTypeView, DecodeErrorView> {
        DirectionType::decode_node(n)
    }

    open spec fn encode(v: DirectionTypeView) -> NodeView {
        DirectionType::encode_value(v)
    }

    open spec fn name(v: DirectionTypeView) -> Name {
        DirectionType::name_of(v)
    }

    proof fn encode_name(v: DirectionTypeView) {
        DirectionType::encoded_name(v);
    }

    proof fn decode_encode(v: DirectionTypeView) {
        DirectionType::round_trip(v);
    }

    proof fn decode_valid(n: NodeView) {
        DirectionType::decoded_valid(n);
    }

    fn from_node(node: &Node) -> (r: Result<DirectionType, DecodeError>) {
        DirectionType::read_node(node)
    }

    fn to_node(&self) -> (r: Node) {
        self.write_node()
    }
}

/// A direction type stands in an element of its own, as the only child of
/// it.
impl Element for DirectionType {
    open spec fn valid(v: DirectionTypeView) -> bool {
        <DirectionType as Tagged>::valid(v)
    }

    open spec fn decode(n: NodeView) -> Result<DirectionTypeView, DecodeErrorView> {
        if n.children.len() == 1 {
            match <DirectionType as Tagged>::decode(n.children[0]) {
                Ok(v) => Ok(v),
                Err(e) => Err(e.under(n.tag)),
            }
        } else {
            Err(n.mismatch())
        }
    }

    open spec fn encode(v: DirectionTypeView, tag: Seq<char>) -> NodeView {
        NodeView::new(tag).with_child(<DirectionType as Tagged>::encode(v))
    }

    proof fn encode_tag(v: DirectionTypeView, tag: Seq<char>) {
    }

    proof fn decode_encode(v: DirectionTypeView, tag: Seq<char>) {
        <DirectionType as Tagged>::decode_encode(v);
    }

    proof fn decode_valid(n: NodeView) {
        if n.children.len() == 1 {
            <DirectionType as Tagged>::decode_valid(n.children[0]);
        }
    }

    fn from_node(node: &Node) -> (r: Result<DirectionType, DecodeError>) {
        let children = node.all_children();
        if children.len() == 1 {
            match <DirectionType as Tagged>::from_node(children[0]) {
                Ok(v) => Ok(v),
                Err(e) => Err(e.under(node.tag_str())),
            }
        } else {
            Err(DecodeError::at(ErrorKind::SchemaMismatch, node.tag_str()))
        }
    }

    fn to_node(&self, tag: &str) -> (r: Node) {
        let mut node = Node::new(tag);
        node.push_child(<DirectionType as Tagged>::to_node(self));
        node
    }
}

} // verus!
