//! Measures, and the replay that places their notes in time.
use crate::attributes::Attributes;
use crate::backup::{Backup, BackupView};
use crate::barline::{Barline, BarlineView};
use crate::codec::{
    all_valid_variants, Element, encode_variants, group_codec, lemma_decode_encode_variants,
    lemma_decode_variants_valid, Tagged,
};
use crate::decimal::Decimal;
use crate::direction::{Direction, DirectionView};
use crate::error::{DecodeError, DecodeErrorView, ErrorKind, IntegrityFault};
use crate::forward::{Forward, ForwardView};
use crate::harmony::{Harmony, HarmonyView};
use crate::names::Name;
use crate::node::{Node, NodeView};
use crate::note::{Note, NoteView};
use crate::print::{Print, PrintView};
use crate::scalar::Scalar;
use crate::yes_no::YesNo;
use vstd::prelude::*;

verus! {

/// A measure: its events in document order. The order is the order in which
/// the events are replayed.
#[derive(Clone, Debug, PartialEq)]
pub struct Measure {
    /// The children, in document order.
    pub content: Vec<MeasureContent>,
}

/// The mathematical value of a [`Measure`].
pub struct MeasureView {
    pub content: Seq<MeasureContentView>,
}

impl DeepView for Measure {
    type V = MeasureView;

    open spec fn deep_view(&self) -> MeasureView {
        MeasureView {
            content: self.content.deep_view(),
        }
    }
}

impl Measure {
    /// The value that an element denotes. The fields are read in the order in
    /// which they are declared; the first one that fails gives the error.
    #[verifier::opaque]
    pub open spec fn decode_node(n: NodeView) -> Result<MeasureView, DecodeErrorView> {
        let content = n.variants::<MeasureContent>();
        if content is Err {
            Err(content->Err_0)
        } else {
            Ok(
                MeasureView {
                    content: content->Ok_0,
                }
            )
        }
    }

    /// The element that a value is written as.
    #[verifier::opaque]
    pub open spec fn encode_value(v: MeasureView, tag: Seq<char>) -> NodeView {
        NodeView::new(tag)
            .with_children(encode_variants::<MeasureContent>(v.content))
    }

    /// An encoded element bears the tag it was given.
    pub proof fn encoded_tag(v: MeasureView, tag: Seq<char>)
        ensures
            Measure::encode_value(v, tag).tag == tag,
    {
        broadcast use group_codec;

        reveal(Measure::encode_value);
    }

    /// Decoding what was encoded gives the value back.
    pub proof fn round_trip(v: MeasureView, tag: Seq<char>)
        requires
            <Measure as Element>::valid(v),
        ensures
            Measure::decode_node(Measure::encode_value(v, tag))
                == Ok::<MeasureView, DecodeErrorView>(v),
    {
        broadcast use group_codec;

        let n = Measure::encode_value(v, tag);
        assert(
            n.variants::<MeasureContent>()
                == Ok::<Seq<MeasureContentView>, DecodeErrorView>(v.content)
        ) by {
            reveal(Measure::encode_value);
            reveal(NodeView::variants);
            lemma_decode_encode_variants::<MeasureContent>(v.content, tag);
        }
        reveal(Measure::decode_node);
    }

    /// Decoding gives valid values only.
    pub proof fn decoded_valid(n: NodeView)
        ensures
            Measure::decode_node(n) matches Ok(v) ==> <Measure as Element>::valid(v),
    {
        reveal(Measure::decode_node);
        reveal(NodeView::variants);
        lemma_decode_variants_valid::<MeasureContent>(n.children, n.tag);
    }

    /// Decodes an element.
    pub fn read_node(node: &Node) -> (r: Result<Measure, DecodeError>)
        ensures
            r matches Ok(v) ==>
                Measure::decode_node(node.deep_view()) == Ok::<MeasureView, DecodeErrorView>(
                v.deep_view(),
            ),
            r matches Err(e) ==>
                Measure::decode_node(node.deep_view()) == Err::<MeasureView, DecodeErrorView>(
                e.deep_view(),
            ),
    {
        proof {
            reveal(Measure::decode_node);
        }
        let content = node.variants::<MeasureContent>()?;
        Ok(Measure { content })
    }

    /// Encodes a value as an element with the given tag.
    pub fn write_node(&self, tag: &str) -> (r: Node)
        ensures
            r.deep_view() == Measure::encode_value(self.deep_view(), tag@),
    {
        proof {
            reveal(Measure::encode_value);
        }
        let mut node = Node::new(tag);
        node.put_variants::<MeasureContent>(&self.content);
        node
    }
}

impl Element for Measure {
    open spec fn valid(v: MeasureView) -> bool {
        &&& all_valid_variants::<MeasureContent>(v.content)
    }

    open spec fn decode(n: NodeView) -> Result<MeasureView, DecodeErrorView> {
        Measure::decode_node(n)
    }

    open spec fn encode(v: MeasureView, tag: Seq<char>) -> NodeView {
        Measure::encode_value(v, tag)
    }

    proof fn encode_tag(v: MeasureView, tag: Seq<char>) {
        Measure::encoded_tag(v, tag);
    }

    proof fn decode_encode(v: MeasureView, tag: Seq<char>) {
        Measure::round_trip(v, tag);
    }

    proof fn decode_valid(n: NodeView) {
        Measure::decoded_valid(n);
    }

    fn from_node(node: &Node) -> (r: Result<Measure, DecodeError>) {
        Measure::read_node(node)
    }

    fn to_node(&self, tag: &str) -> (r: Node) {
        self.write_node(tag)
    }
}

/// An event of a measure.
#[derive(Clone, Debug, PartialEq)]
pub enum MeasureContent {
    /// The element `note`.
    Note(Note),
    /// The element `backup`.
    Backup(Backup),
    /// The element `barline`.
    Barline(Barline),
    /// The element `attributes`.
    Attributes(Attributes),
    /// The element `harmony`.
    Harmony(Harmony),
    /// The element `forward`.
    Forward(Forward),
    /// The element `print`.
    Print(Print),
    /// The element `direction`.
    Direction(Direction),
    /// The text of the element `non-controlling`.
    NonControlling(YesNo),
    /// The text of the element `implicit`.
    Implicit(YesNo),
    /// The text of the element `id`.
    Id(String),
    /// The text of the element `width`.
    Width(Decimal),
    /// The text of the element `number`.
    Number(String),
}

/// The mathematical value of a [`MeasureContent`].
pub enum MeasureContentView {
    Note(NoteView),
    Backup(BackupView),
    Barline(BarlineView),
    Attributes(Attributes),
    Harmony(HarmonyView),
    Forward(ForwardView),
    Print(PrintView),
    Direction(DirectionView),
    NonControlling(YesNo),
    Implicit(YesNo),
    Id(Seq<char>),
    Width(Decimal),
    Number(Seq<char>),
}

impl DeepView for MeasureContent {
    type V = MeasureContentView;

    open spec fn deep_view(&self) -> MeasureContentView {
        match self {
            MeasureContent::Note(x) => MeasureContentView::Note(x.deep_view()),
            MeasureContent::Backup(x) => MeasureContentView::Backup(x.deep_view()),
            MeasureContent::Barline(x) => MeasureContentView::Barline(x.deep_view()),
            MeasureContent::Attributes(x) => MeasureContentView::Attributes(x.deep_view()),
            MeasureContent::Harmony(x) => MeasureContentView::Harmony(x.deep_view()),
            MeasureContent::Forward(x) => MeasureContentView::Forward(x.deep_view()),
            MeasureContent::Print(x) => MeasureContentView::Print(x.deep_view()),
            MeasureContent::Direction(x) => MeasureContentView::Direction(x.deep_view()),
            MeasureContent::NonControlling(x) => MeasureContentView::NonControlling(x.deep_view()),
            MeasureContent::Implicit(x) => MeasureContentView::Implicit(x.deep_view()),
            MeasureContent::Id(x) => MeasureContentView::Id(x.deep_view()),
            MeasureContent::Width(x) => MeasureContentView::Width(x.deep_view()),
            MeasureContent::Number(x) => MeasureContentView::Number(x.deep_view()),
        }
    }
}

impl MeasureContent {
    /// The variant that an element denotes: the tag chooses the variant, the
    /// rest of the element gives what the variant holds.
    #[verifier::opaque]
    pub open spec fn decode_node(n: NodeView) -> Result<MeasureContentView, DecodeErrorView> {
        match Name::of_text(n.tag) {
            Some(Name::Note) => match Note::decode(n) {
                Ok(x) => Ok(MeasureContentView::Note(x)),
                Err(e) => Err(e),
            },
            Some(Name::Backup) => match Backup::decode(n) {
                Ok(x) => Ok(MeasureContentView::Backup(x)),
                Err(e) => Err(e),
            },
            Some(Name::Barline) => match Barline::decode(n) {
                Ok(x) => Ok(MeasureContentView::Barline(x)),
                Err(e) => Err(e),
            },
            Some(Name::Attributes) => match Attributes::decode(n) {
                Ok(x) => Ok(MeasureContentView::Attributes(x)),
                Err(e) => Err(e),
            },
            Some(Name::Harmony) => match Harmony::decode(n) {
                Ok(x) => Ok(MeasureContentView::Harmony(x)),
                Err(e) => Err(e),
            },
            Some(Name::Forward) => match Forward::decode(n) {
                Ok(x) => Ok(MeasureContentView::Forward(x)),
                Err(e) => Err(e),
            },
            Some(Name::Print) => match Print::decode(n) {
                Ok(x) => Ok(MeasureContentView::Print(x)),
                Err(e) => Err(e),
            },
            Some(Name::Direction) => match Direction::decode(n) {
                Ok(x) => Ok(MeasureContentView::Direction(x)),
                Err(e) => Err(e),
            },
            Some(Name::NonControlling) => match n.content::<YesNo>() {
                Ok(x) => Ok(MeasureContentView::NonControlling(x)),
                Err(e) => Err(e),
            },
            Some(Name::Implicit) => match n.content::<YesNo>() {
                Ok(x) => Ok(MeasureContentView::Implicit(x)),
                Err(e) => Err(e),
            },
            Some(Name::Id) => match n.content::<String>() {
                Ok(x) => Ok(MeasureContentView::Id(x)),
                Err(e) => Err(e),
            },
            Some(Name::Width) => match n.content::<Decimal>() {
                Ok(x) => Ok(MeasureContentView::Width(x)),
                Err(e) => Err(e),
            },
            Some(Name::Number) => match n.content::<String>() {
                Ok(x) => Ok(MeasureContentView::Number(x)),
                Err(e) => Err(e),
            },
            _ => Err(n.unknown()),
        }
    }

    /// The element that a variant is written as.
    #[verifier::opaque]
    pub open spec fn encode_value(v: MeasureContentView) -> NodeView {
        match v {
            MeasureContentView::Note(x) => Note::encode(x, Name::Note.text()),
            MeasureContentView::Backup(x) => Backup::encode(x, Name::Backup.text()),
            MeasureContentView::Barline(x) => Barline::encode(x, Name::Barline.text()),
            MeasureContentView::Attributes(x) => Attributes::encode(x, Name::Attributes.text()),
            MeasureContentView::Harmony(x) => Harmony::encode(x, Name::Harmony.text()),
            MeasureContentView::Forward(x) => Forward::encode(x, Name::Forward.text()),
            MeasureContentView::Print(x) => Print::encode(x, Name::Print.text()),
            MeasureContentView::Direction(x) => Direction::encode(x, Name::Direction.text()),
            MeasureContentView::NonControlling(x) =>
                NodeView::new(Name::NonControlling.text()).with_content::<YesNo>(x),
            MeasureContentView::Implicit(x) =>
                NodeView::new(Name::Implicit.text()).with_content::<YesNo>(x),
            MeasureContentView::Id(x) => NodeView::new(Name::Id.text()).with_content::<String>(x),
            MeasureContentView::Width(x) =>
                NodeView::new(Name::Width.text()).with_content::<Decimal>(x),
            MeasureContentView::Number(x) =>
                NodeView::new(Name::Number.text()).with_content::<String>(x),
        }
    }

    /// The tag of a variant.
    pub open spec fn name_of(v: MeasureContentView) -> Name {
        match v {
            MeasureContentView::Note(_) => Name::Note,
            MeasureContentView::Backup(_) => Name::Backup,
            MeasureContentView::Barline(_) => Name::Barline,
            MeasureContentView::Attributes(_) => Name::Attributes,
            MeasureContentView::Harmony(_) => Name::Harmony,
            MeasureContentView::Forward(_) => Name::Forward,
            MeasureContentView::Print(_) => Name::Print,
            MeasureContentView::Direction(_) => Name::Direction,
            MeasureContentView::NonControlling(_) => Name::NonControlling,
            MeasureContentView::Implicit(_) => Name::Implicit,
            MeasureContentView::Id(_) => Name::Id,
            MeasureContentView::Width(_) => Name::Width,
            MeasureContentView::Number(_) => Name::Number,
        }
    }

    /// An encoded variant bears the tag of the variant.
    pub proof fn encoded_name(v: MeasureContentView)
        ensures
            MeasureContent::encode_value(v).tag == MeasureContent::name_of(v).text(),
    {
        broadcast use group_codec;

        reveal(MeasureContent::encode_value);
        match v {
            MeasureContentView::Note(x) => {
                Note::encode_tag(x, Name::Note.text());
            },
            MeasureContentView::Backup(x) => {
                Backup::encode_tag(x, Name::Backup.text());
            },
            MeasureContentView::Barline(x) => {
                Barline::encode_tag(x, Name::Barline.text());
            },
            MeasureContentView::Attributes(x) => {
                Attributes::encode_tag(x, Name::Attributes.text());
            },
            MeasureContentView::Harmony(x) => {
                Harmony::encode_tag(x, Name::Harmony.text());
            },
            MeasureContentView::Forward(x) => {
                Forward::encode_tag(x, Name::Forward.text());
            },
            MeasureContentView::Print(x) => {
                Print::encode_tag(x, Name::Print.text());
            },
            MeasureContentView::Direction(x) => {
                Direction::encode_tag(x, Name::Direction.text());
            },
            _ => {
            },
        }
    }

    /// Decoding what was encoded gives the variant back.
    pub proof fn round_trip(v: MeasureContentView)
        requires
            <MeasureContent as Tagged>::valid(v),
        ensures
            MeasureContent::decode_node(MeasureContent::encode_value(v))
                == Ok::<MeasureContentView, DecodeErrorView>(v),
    {
        broadcast use group_codec;

        let n = MeasureContent::encode_value(v);
        assert(Name::of_text(n.tag) == Some(MeasureContent::name_of(v))) by {
            MeasureContent::encoded_name(v);
        }
        match v {
            MeasureContentView::Note(x) => {
                reveal(MeasureContent::encode_value);
                Note::decode_encode(x, Name::Note.text());
            },
            MeasureContentView::Backup(x) => {
                reveal(MeasureContent::encode_value);
                Backup::decode_encode(x, Name::Backup.text());
            },
            MeasureContentView::Barline(x) => {
                reveal(MeasureContent::encode_value);
                Barline::decode_encode(x, Name::Barline.text());
            },
            MeasureContentView::Attributes(x) => {
                reveal(MeasureContent::encode_value);
                Attributes::decode_encode(x, Name::Attributes.text());
            },
            MeasureContentView::Harmony(x) => {
                reveal(MeasureContent::encode_value);
                Harmony::decode_encode(x, Name::Harmony.text());
            },
            MeasureContentView::Forward(x) => {
                reveal(MeasureContent::encode_value);
                Forward::decode_encode(x, Name::Forward.text());
            },
            MeasureContentView::Print(x) => {
                reveal(MeasureContent::encode_value);
                Print::decode_encode(x, Name::Print.text());
            },
            MeasureContentView::Direction(x) => {
                reveal(MeasureContent::encode_value);
                Direction::decode_encode(x, Name::Direction.text());
            },
            MeasureContentView::NonControlling(x) => {
                reveal(MeasureContent::encode_value);
                reveal(NodeView::content);
                YesNo::parse_text(x);
            },
            MeasureContentView::Implicit(x) => {
                reveal(MeasureContent::encode_value);
                reveal(NodeView::content);
                YesNo::parse_text(x);
            },
            MeasureContentView::Id(x) => {
                reveal(MeasureContent::encode_value);
                reveal(NodeView::content);
            },
            MeasureContentView::Width(x) => {
                reveal(MeasureContent::encode_value);
                reveal(NodeView::content);
                Decimal::parse_text(x);
            },
            MeasureContentView::Number(x) => {
                reveal(MeasureContent::encode_value);
                reveal(NodeView::content);
            },
        }
        reveal(MeasureContent::decode_node);
    }

    /// Decoding gives valid values only.
    pub proof fn decoded_valid(n: NodeView)
        ensures
            MeasureContent::decode_node(n) matches Ok(v) ==> <MeasureContent as Tagged>::valid(v),
    {
        reveal(MeasureContent::decode_node);
        Note::decode_valid(n);
        Backup::decode_valid(n);
        Barline::decode_valid(n);
        Attributes::decode_valid(n);
        Harmony::decode_valid(n);
        Forward::decode_valid(n);
        Print::decode_valid(n);
        Direction::decode_valid(n);
    }

    /// Decodes an element.
    pub fn read_node(node: &Node) -> (r: Result<MeasureContent, DecodeError>)
        ensures
            r matches Ok(v) ==>
                MeasureContent::decode_node(node.deep_view())
                    == Ok::<MeasureContentView, DecodeErrorView>(
                v.deep_view(),
            ),
            r matches Err(e) ==>
                MeasureContent::decode_node(node.deep_view())
                    == Err::<MeasureContentView, DecodeErrorView>(
                e.deep_view(),
            ),
    {
        proof {
            reveal(MeasureContent::decode_node);
        }
        match Name::from_str(node.tag_str()) {
            Some(Name::Note) => match Note::from_node(node) {
                Ok(x) => Ok(MeasureContent::Note(x)),
                Err(e) => Err(e),
            },
            Some(Name::Backup) => match Backup::from_node(node) {
                Ok(x) => Ok(MeasureContent::Backup(x)),
                Err(e) => Err(e),
            },
            Some(Name::Barline) => match Barline::from_node(node) {
                Ok(x) => Ok(MeasureContent::Barline(x)),
                Err(e) => Err(e),
            },
            Some(Name::Attributes) => match Attributes::from_node(node) {
                Ok(x) => Ok(MeasureContent::Attributes(x)),
                Err(e) => Err(e),
            },
            Some(Name::Harmony) => match Harmony::from_node(node) {
                Ok(x) => Ok(MeasureContent::Harmony(x)),
                Err(e) => Err(e),
            },
            Some(Name::Forward) => match Forward::from_node(node) {
                Ok(x) => Ok(MeasureContent::Forward(x)),
                Err(e) => Err(e),
            },
            Some(Name::Print) => match Print::from_node(node) {
                Ok(x) => Ok(MeasureContent::Print(x)),
                Err(e) => Err(e),
            },
            Some(Name::Direction) => match Direction::from_node(node) {
                Ok(x) => Ok(MeasureContent::Direction(x)),
                Err(e) => Err(e),
            },
            Some(Name::NonControlling) => match node.content::<YesNo>() {
                Ok(x) => Ok(MeasureContent::NonControlling(x)),
                Err(e) => Err(e),
            },
            Some(Name::Implicit) => match node.content::<YesNo>() {
                Ok(x) => Ok(MeasureContent::Implicit(x)),
                Err(e) => Err(e),
            },
            Some(Name::Id) => match node.content::<String>() {
                Ok(x) => Ok(MeasureContent::Id(x)),
                Err(e) => Err(e),
            },
            Some(Name::Width) => match node.content::<Decimal>() {
                Ok(x) => Ok(MeasureContent::Width(x)),
                Err(e) => Err(e),
            },
            Some(Name::Number) => match node.content::<String>() {
                Ok(x) => Ok(MeasureContent::Number(x)),
                Err(e) => Err(e),
            },
            _ => Err(DecodeError::at(ErrorKind::StructuralError, node.tag_str())),
        }
    }

    /// Encodes a variant.
    pub fn write_node(&self) -> (r: Node)
        ensures
            r.deep_view() == MeasureContent::encode_value(self.deep_view()),
    {
        proof {
            reveal(MeasureContent::encode_value);
        }
        match self {
            MeasureContent::Note(x) => x.to_node(Name::Note.as_str()),
            MeasureContent::Backup(x) => x.to_node(Name::Backup.as_str()),
            MeasureContent::Barline(x) => x.to_node(Name::Barline.as_str()),
            MeasureContent::Attributes(x) => x.to_node(Name::Attributes.as_str()),
            MeasureContent::Harmony(x) => x.to_node(Name::Harmony.as_str()),
            MeasureContent::Forward(x) => x.to_node(Name::Forward.as_str()),
            MeasureContent::Print(x) => x.to_node(Name::Print.as_str()),
            MeasureContent::Direction(x) => x.to_node(Name::Direction.as_str()),
            MeasureContent::NonControlling(x) => {
                let mut node = Node::new(Name::NonControlling.as_str());
                node.put_content::<YesNo>(x);
                node
            },
            MeasureContent::Implicit(x) => {
                let mut node = Node::new(Name::Implicit.as_str());
                node.put_content::<YesNo>(x);
                node
            },
            MeasureContent::Id(x) => {
                let mut node = Node::new(Name::Id.as_str());
                node.put_content::<String>(x);
                node
            },
            MeasureContent::Width(x) => {
                let mut node = Node::new(Name::Width.as_str());
                node.put_content::<Decimal>(x);
                node
            },
            MeasureContent::Number(x) => {
                let mut node = Node::new(Name::Number.as_str());
                node.put_content::<String>(x);
                node
            },
        }
    }
}

impl Tagged for MeasureContent {
    open spec fn valid(v: MeasureContentView) -> bool {
        match v {
            MeasureContentView::Note(x) => Note::valid(x),
            MeasureContentView::Backup(x) => Backup::valid(x),
            MeasureContentView::Barline(x) => Barline::valid(x),
            MeasureContentView::Attributes(x) => Attributes::valid(x),
            MeasureContentView::Harmony(x) => Harmony::valid(x),
            MeasureContentView::Forward(x) => Forward::valid(x),
            MeasureContentView::Print(x) => Print::valid(x),
            MeasureContentView::Direction(x) => Direction::valid(x),
            MeasureContentView::NonControlling(_) => true,
            MeasureContentView::Implicit(_) => true,
            MeasureContentView::Id(_) => true,
            MeasureContentView::Width(_) => true,
            MeasureContentView::Number(_) => true,
        }
    }

    open spec fn decode(n: NodeView) -> Result<MeasureContentView, DecodeErrorView> {
        MeasureContent::decode_node(n)
    }

    open spec fn encode(v: MeasureContentView) -> NodeView {
        MeasureContent::encode_value(v)
    }

    open spec fn name(v: MeasureContentView) -> Name {
        MeasureContent::name_of(v)
    }

    proof fn encode_name(v: MeasureContentView) {
        MeasureContent::encoded_name(v);
    }

    proof fn decode_encode(v: MeasureContentView) {
        MeasureContent::round_trip(v);
    }

    proof fn decode_valid(n: NodeView) {
        MeasureContent::decoded_valid(n);
    }

    fn from_node(node: &Node) -> (r: Result<MeasureContent, DecodeError>) {
        MeasureContent::read_node(node)
    }

    fn to_node(&self) -> (r: Node) {
        self.write_node()
    }
}

/// Where the cursor of a measure stands after an event, from where it stood
/// before. A note that is no chord note moves it on by its duration, a
/// forward moves it on, a backup moves it back; nothing else moves it. There
/// is no such place where a backup would reach below zero, or where the
/// cursor would leave what the machine can count.
pub open spec fn advance(at: usize, event: MeasureContentView) -> Option<usize> {
    match event {
        MeasureContentView::Note(n) => if n.chord {
            Some(at)
        } else if at + n.duration > usize::MAX {
            None
        } else {
            Some((at + n.duration) as usize)
        },
        MeasureContentView::Backup(b) => if b.duration > at {
            None
        } else {
            Some((at - b.duration) as usize)
        },
        MeasureContentView::Forward(f) => if at + f.duration > usize::MAX {
            None
        } else {
            Some((at + f.duration) as usize)
        },
        _ => Some(at),
    }
}

/// Where the cursor stands after the events, replayed in their order from
/// zero.
pub open spec fn cursor_after(events: Seq<MeasureContentView>) -> Option<usize>
    decreases events.len(),
{
    if events.len() == 0 {
        Some(0)
    } else {
        match cursor_after(events.drop_last()) {
            None => None,
            Some(at) => advance(at, events.last()),
        }
    }
}

/// Whether an event is a note of the voice that is no chord note.
pub open spec fn leads(event: MeasureContentView, voice: u8) -> bool {
    event matches MeasureContentView::Note(n) && n.voice == voice && !n.chord
}

/// Where the last note of the voice that is no chord note began, if the
/// events hold one.
pub open spec fn anchor_after(events: Seq<MeasureContentView>, voice: u8) -> Option<usize>
    decreases events.len(),
{
    if events.len() == 0 {
        None
    } else if leads(events.last(), voice) {
        cursor_after(events.drop_last())
    } else {
        anchor_after(events.drop_last(), voice)
    }
}

/// The position of a note that follows the events: the cursor, or for a
/// chord note the beginning of the note of its voice that it sounds with.
pub open spec fn position_after(events: Seq<MeasureContentView>, note: NoteView) -> usize {
    if note.chord && anchor_after(events, note.voice) is Some {
        anchor_after(events, note.voice)->Some_0
    } else {
        match cursor_after(events) {
            Some(at) => at,
            None => 0,
        }
    }
}

/// The notes of a voice with their positions, in document order.
pub open spec fn placed(events: Seq<MeasureContentView>, voice: u8) -> Seq<(NoteView, usize)>
    decreases events.len(),
{
    if events.len() == 0 {
        Seq::empty()
    } else {
        match events.last() {
            MeasureContentView::Note(n) => if n.voice == voice {
                placed(events.drop_last(), voice).push((n, position_after(events.drop_last(), n)))
            } else {
                placed(events.drop_last(), voice)
            },
            _ => placed(events.drop_last(), voice),
        }
    }
}

/// An entry put into entries that are in order of position: behind every
/// entry that is not later than itself.
pub open spec fn place(entries: Seq<(NoteView, usize)>, entry: (NoteView, usize)) -> Seq<
    (NoteView, usize),
>
    decreases entries.len(),
{
    if entries.len() == 0 || entries.last().1 <= entry.1 {
        entries.push(entry)
    } else {
        place(entries.drop_last(), entry).push(entries.last())
    }
}

/// The entries in order of position; entries at one position keep their
/// order.
pub open spec fn arrange(entries: Seq<(NoteView, usize)>) -> Seq<(NoteView, usize)>
    decreases entries.len(),
{
    if entries.len() == 0 {
        Seq::empty()
    } else {
        place(arrange(entries.drop_last()), entries.last())
    }
}

/// The notes of a voice with their positions, in order of position.
pub open spec fn voice_entries(events: Seq<MeasureContentView>, voice: u8) -> Seq<
    (NoteView, usize),
> {
    arrange(placed(events, voice))
}

/// Whether entries are in order of position.
pub open spec fn in_order(entries: Seq<(NoteView, usize)>) -> bool {
    forall|i: int, j: int| 0 <= i <= j < entries.len() ==> entries[i].1 <= entries[j].1
}

/// The attributes blocks among the events, in document order.
pub open spec fn attribute_blocks(events: Seq<MeasureContentView>) -> Seq<Attributes>
    decreases events.len(),
{
    if events.len() == 0 {
        Seq::empty()
    } else {
        match events.last() {
            MeasureContentView::Attributes(a) => attribute_blocks(events.drop_last()).push(a),
            _ => attribute_blocks(events.drop_last()),
        }
    }
}

/// Once the cursor has failed, it stays failed.
pub proof fn lemma_cursor_fails(events: Seq<MeasureContentView>, k: int)
    requires
        0 <= k <= events.len(),
        cursor_after(events.subrange(0, k)) is None,
    ensures
        cursor_after(events) is None,
    decreases events.len() - k,
{
    if k == events.len() {
        assert(events.subrange(0, k) =~= events);
    } else {
        assert(events.drop_last().subrange(0, k) =~= events.subrange(0, k));
        lemma_cursor_fails(events.drop_last(), k);
    }
}

/// A backup that is followed at once by a forward of the same duration
/// leaves the cursor where it was.
pub proof fn lemma_backup_then_forward(at: usize, backup: BackupView, forward: ForwardView)
    requires
        backup.duration == forward.duration,
        backup.duration <= at,
    ensures
        advance(at, MeasureContentView::Backup(backup)) matches Some(back) && advance(
            back,
            MeasureContentView::Forward(forward),
        ) == Some(at),
{
}

/// A backup moves the cursor back by its duration where the cursor has come
/// that far, and fails where it has not: the cursor is never negative and
/// never wraps.
pub proof fn lemma_backup(at: usize, backup: BackupView)
    ensures
        backup.duration > at ==> advance(at, MeasureContentView::Backup(backup)) is None,
        backup.duration <= at ==> advance(at, MeasureContentView::Backup(backup)) == Some(
            (at - backup.duration) as usize,
        ),
{
}

/// A backup beyond the cursor anywhere in a measure makes the replay of the
/// whole measure fail.
pub proof fn lemma_backup_beyond_cursor(events: Seq<MeasureContentView>, k: int)
    requires
        0 <= k < events.len(),
        events[k] matches MeasureContentView::Backup(b) && (cursor_after(events.subrange(0, k))
            matches Some(at) ==> b.duration > at),
    ensures
        cursor_after(events) is None,
{
    let upto = events.subrange(0, k + 1);
    assert(upto.drop_last() =~= events.subrange(0, k));
    assert(upto.last() == events[k]);
    lemma_cursor_fails(events, k + 1);
}

/// Putting an entry into entries in order gives entries in order.
pub proof fn lemma_place_in_order(entries: Seq<(NoteView, usize)>, entry: (NoteView, usize))
    requires
        in_order(entries),
    ensures
        in_order(place(entries, entry)),
        place(entries, entry).len() == entries.len() + 1,
        forall|i: int|
            0 <= i < place(entries, entry).len() ==> (#[trigger] place(entries, entry)[i]) == entry
                || exists|j: int| 0 <= j < entries.len() && entries[j] == place(entries, entry)[i],
    decreases entries.len(),
{
    let result = place(entries, entry);
    if entries.len() == 0 || entries.last().1 <= entry.1 {
        assert forall|i: int, j: int| 0 <= i <= j < result.len() implies result[i].1
            <= result[j].1 by {
            if j == entries.len() {
                if i < entries.len() {
                    assert(entries[i].1 <= entries[entries.len() - 1].1);
                }
            }
        }
        assert forall|i: int| 0 <= i < result.len() implies (#[trigger] result[i]) == entry
            || exists|j: int| 0 <= j < entries.len() && entries[j] == result[i] by {
            if i < entries.len() {
                assert(entries[i] == result[i]);
            }
        }
    } else {
        let rest = entries.drop_last();
        assert(in_order(rest)) by {
            assert forall|i: int, j: int| 0 <= i <= j < rest.len() implies rest[i].1
                <= rest[j].1 by {
                assert(entries[i].1 <= entries[j].1);
            }
        }
        lemma_place_in_order(rest, entry);
        let inner = place(rest, entry);
        assert forall|i: int| 0 <= i < inner.len() implies (#[trigger] inner[i]).1
            <= entries.last().1 by {
            if inner[i] != entry {
                let j = choose|j: int| 0 <= j < rest.len() && rest[j] == inner[i];
                assert(entries[j].1 <= entries[entries.len() - 1].1);
            }
        }
        assert forall|i: int, j: int| 0 <= i <= j < result.len() implies result[i].1
            <= result[j].1 by {
            if j < inner.len() {
                assert(inner[i].1 <= inner[j].1);
            } else if i < inner.len() {
                assert(inner[i].1 <= entries.last().1);
            }
        }
        assert forall|i: int| 0 <= i < result.len() implies (#[trigger] result[i]) == entry
            || exists|j: int| 0 <= j < entries.len() && entries[j] == result[i] by {
            if i < inner.len() {
                if inner[i] != entry {
                    let j = choose|j: int| 0 <= j < rest.len() && rest[j] == inner[i];
                    assert(entries[j] == result[i]);
                }
            } else {
                assert(entries[entries.len() - 1] == result[i]);
            }
        }
    }
}

/// Arranged entries are in order of position, and as many as before.
pub proof fn lemma_arrange_in_order(entries: Seq<(NoteView, usize)>)
    ensures
        in_order(arrange(entries)),
        arrange(entries).len() == entries.len(),
    decreases entries.len(),
{
    if entries.len() > 0 {
        lemma_arrange_in_order(entries.drop_last());
        lemma_place_in_order(arrange(entries.drop_last()), entries.last());
    }
}

/// The entries of a voice come in non-decreasing order of position.
pub proof fn lemma_voice_in_order(events: Seq<MeasureContentView>, voice: u8)
    ensures
        in_order(voice_entries(events, voice)),
{
    lemma_arrange_in_order(placed(events, voice));
}

/// A backup and at once a forward of the same duration, replayed after any
/// events that bring the cursor far enough, leave the cursor where those
/// events left it.
pub proof fn lemma_detour(events: Seq<MeasureContentView>, backup: BackupView, forward: ForwardView)
    requires
        backup.duration == forward.duration,
        cursor_after(events) matches Some(at) && backup.duration <= at,
    ensures
        cursor_after(
            events.push(MeasureContentView::Backup(backup)).push(
                MeasureContentView::Forward(forward),
            ),
        ) == cursor_after(events),
{
    let back = events.push(MeasureContentView::Backup(backup));
    let both = back.push(MeasureContentView::Forward(forward));
    let at = cursor_after(events)->Some_0;
    assert(back.drop_last() =~= events);
    assert(both.drop_last() =~= back);
    assert(cursor_after(back) == advance(at, MeasureContentView::Backup(backup)));
    assert(cursor_after(both) == advance(
        cursor_after(back)->Some_0,
        MeasureContentView::Forward(forward),
    ));
}

/// The number of entries that are no chord notes.
pub open spec fn count_leading(entries: Seq<(NoteView, usize)>) -> nat
    decreases entries.len(),
{
    if entries.len() == 0 {
        0
    } else if entries.last().0.chord {
        count_leading(entries.drop_last())
    } else {
        count_leading(entries.drop_last()) + 1
    }
}

/// The positions of the entries that are no chord notes.
pub open spec fn leading_positions(entries: Seq<(NoteView, usize)>) -> Set<usize>
    decreases entries.len(),
{
    if entries.len() == 0 {
        Set::empty()
    } else if entries.last().0.chord {
        leading_positions(entries.drop_last())
    } else {
        leading_positions(entries.drop_last()).insert(entries.last().1)
    }
}

/// Whether the entry at an index stands at a position.
pub open spec fn stands_at(entries: Seq<(NoteView, usize)>, i: int, p: usize) -> bool {
    0 <= i < entries.len() && entries[i].1 == p
}

/// Whether the entry at an index is no chord note and stands at a position.
pub open spec fn leads_at(entries: Seq<(NoteView, usize)>, i: int, p: usize) -> bool {
    0 <= i < entries.len() && !entries[i].0.chord && entries[i].1 == p
}

/// The positions at which entries stand.
pub open spec fn positions(entries: Seq<(NoteView, usize)>) -> Set<usize> {
    Set::new(|p: usize| exists|i: int| stands_at(entries, i, p))
}

/// No two entries that are no chord notes stand at one position.
pub open spec fn leading_apart(entries: Seq<(NoteView, usize)>) -> bool {
    forall|i: int, j: int, p: usize|
        leads_at(entries, i, p) && leads_at(entries, j, p) ==> i == j
}

/// Every chord note stands where an entry that is no chord note stands.
pub open spec fn chords_anchored(entries: Seq<(NoteView, usize)>) -> bool {
    forall|i: int, p: usize| #[trigger]
        stands_at(entries, i, p) ==> exists|j: int| leads_at(entries, j, p)
}

/// The positions of the entries that are no chord notes are as many as
/// those entries, where no two of them stand at one position.
pub proof fn lemma_leading_positions(entries: Seq<(NoteView, usize)>)
    requires
        leading_apart(entries),
    ensures
        leading_positions(entries).finite(),
        leading_positions(entries).len() == count_leading(entries),
        forall|p: usize|
            #[trigger] leading_positions(entries).contains(p) <==> exists|j: int|
                leads_at(entries, j, p),
    decreases entries.len(),
{
    if entries.len() > 0 {
        let rest = entries.drop_last();
        let last = entries.last();
        let end = entries.len() - 1;
        assert(leading_apart(rest)) by {
            assert forall|i: int, j: int, p: usize|
                leads_at(rest, i, p) && leads_at(rest, j, p) implies i == j by {
                assert(leads_at(entries, i, p) && leads_at(entries, j, p));
            }
        }
        lemma_leading_positions(rest);
        assert forall|p: usize| #[trigger]
            leading_positions(entries).contains(p) implies exists|j: int|
            leads_at(entries, j, p) by {
            if leading_positions(rest).contains(p) {
                let j = choose|j: int| leads_at(rest, j, p);
                assert(leads_at(entries, j, p));
            } else {
                assert(leads_at(entries, end, p));
            }
        }
        assert forall|p: usize| (exists|j: int| leads_at(entries, j, p)) implies #[trigger]
            leading_positions(entries).contains(p) by {
            let j = choose|j: int| leads_at(entries, j, p);
            if j < rest.len() {
                assert(leads_at(rest, j, p));
            }
        }
        if !last.0.chord {
            if leading_positions(rest).contains(last.1) {
                let j = choose|j: int| leads_at(rest, j, last.1);
                assert(leads_at(entries, j, last.1) && leads_at(entries, end, last.1));
            }
        }
    }
}

/// Where no two notes of a voice that are no chord notes stand at one
/// position, and every entry stands where such a note stands, the entries
/// stand at as many positions as there are notes that are no chord notes.
pub proof fn lemma_distinct_positions(entries: Seq<(NoteView, usize)>)
    requires
        leading_apart(entries),
        chords_anchored(entries),
    ensures
        positions(entries).finite(),
        positions(entries).len() == count_leading(entries),
{
    lemma_leading_positions(entries);
    assert forall|p: usize| #[trigger] positions(entries).contains(p) implies leading_positions(
        entries,
    ).contains(p) by {
        let i = choose|i: int| stands_at(entries, i, p);
        assert(stands_at(entries, i, p));
    }
    assert forall|p: usize| #[trigger] leading_positions(entries).contains(p) implies positions(
        entries,
    ).contains(p) by {
        let j = choose|j: int| leads_at(entries, j, p);
        assert(stands_at(entries, j, p));
    }
    assert(positions(entries) =~= leading_positions(entries));
}

/// The law of distinct positions, for the entries of a voice of a measure.
pub proof fn lemma_voice_distinct_positions(events: Seq<MeasureContentView>, voice: u8)
    requires
        leading_apart(voice_entries(events, voice)),
        chords_anchored(voice_entries(events, voice)),
    ensures
        positions(voice_entries(events, voice)).len() == count_leading(
            voice_entries(events, voice),
        ),
{
    lemma_distinct_positions(voice_entries(events, voice));
}

/// Putting an entry into entries is inserting it behind the last entry that
/// is not later than itself.
pub proof fn lemma_place_is_insert(
    entries: Seq<(NoteView, usize)>,
    entry: (NoteView, usize),
    k: int,
)
    requires
        0 <= k <= entries.len(),
        forall|j: int| k <= j < entries.len() ==> (#[trigger] entries[j]).1 > entry.1,
        k > 0 ==> entries[k - 1].1 <= entry.1,
    ensures
        place(entries, entry) == entries.insert(k, entry),
    decreases entries.len() - k,
{
    if k == entries.len() {
        assert(entries.insert(k, entry) =~= entries.push(entry));
    } else {
        assert(entries[entries.len() - 1].1 > entry.1);
        let rest = entries.drop_last();
        assert forall|j: int| k <= j < rest.len() implies (#[trigger] rest[j]).1 > entry.1 by {
            assert(rest[j] == entries[j]);
        }
        lemma_place_is_insert(rest, entry, k);
        assert(rest.insert(k, entry).push(entries.last()) =~= entries.insert(k, entry));
    }
}

/// Puts an entry into entries in order of position, behind every entry that
/// is not later than itself.
fn insert_entry<'a>(entries: &mut Vec<(&'a Note, usize)>, note: &'a Note, position: usize)
    ensures
        final(entries).deep_view() == place(old(entries).deep_view(), (note.deep_view(), position)),
{
    let ghost before = entries.deep_view();
    let mut k: usize = entries.len();
    while k > 0 && entries[k - 1].1 > position
        invariant
            k <= entries.len(),
            before == entries.deep_view(),
            forall|j: int| k <= j < before.len() ==> (#[trigger] before[j]).1 > position,
        decreases k,
    {
        k = k - 1;
    }
    proof {
        lemma_place_is_insert(before, (note.deep_view(), position), k as int);
    }
    entries.insert(k, (note, position));
    proof {
        assert(entries.deep_view() =~= before.insert(k as int, (note.deep_view(), position)));
    }
}

impl Measure {
    /// The notes of a voice with their positions in ticks from the start of
    /// the measure, in order of position. The measure is replayed from its
    /// first event with the cursor at zero. A `CursorError` where a backup
    /// reaches below zero or the cursor leaves what the machine can count.
    pub fn get_voice(&self, voice_idx: u8) -> (r: Result<Vec<(&Note, usize)>, ErrorKind>)
        ensures
            r matches Ok(entries) ==> cursor_after(self.deep_view().content) is Some
                && entries.deep_view() == voice_entries(self.deep_view().content, voice_idx)
                && in_order(entries.deep_view()),
            r matches Err(e) ==> e == ErrorKind::CursorError && cursor_after(
                self.deep_view().content,
            ) is None,
    {
        let ghost events = self.deep_view().content;
        let mut entries: Vec<(&Note, usize)> = Vec::new();
        let mut at: usize = 0;
        let mut anchor: Option<usize> = None;
        let mut i: usize = 0;
        proof {
            assert(events.subrange(0, 0) =~= Seq::empty());
            assert(entries.deep_view() =~= Seq::empty());
        }
        while i < self.content.len()
            invariant
                i <= self.content.len(),
                events == self.deep_view().content,
                events.len() == self.content.len(),
                cursor_after(events.subrange(0, i as int)) == Some(at),
                anchor == anchor_after(events.subrange(0, i as int), voice_idx),
                entries.deep_view() == arrange(placed(events.subrange(0, i as int), voice_idx)),
            decreases self.content.len() - i,
        {
            let ghost seen = events.subrange(0, i as int);
            let ghost upto = events.subrange(0, i + 1);
            proof {
                assert(upto.drop_last() =~= seen);
                assert(upto.last() == self.content[i as int].deep_view());
            }
            let moved: Option<usize> = match &self.content[i] {
                MeasureContent::Note(note) => {
                    if note.voice == voice_idx {
                        let position: usize = if note.chord {
                            match anchor {
                                Some(a) => a,
                                None => at,
                            }
                        } else {
                            at
                        };
                        insert_entry(&mut entries, note, position);
                        proof {
                            let entry = (note.deep_view(), position);
                            let before = placed(seen, voice_idx);
                            assert(position == position_after(seen, note.deep_view()));
                            assert(placed(upto, voice_idx) == before.push(entry));
                            assert(before.push(entry).drop_last() =~= before);
                            assert(before.push(entry).last() == entry);
                        }
                    }
                    if note.chord {
                        Some(at)
                    } else {
                        if note.voice == voice_idx {
                            anchor = Some(at);
                        }
                        at.checked_add(note.duration)
                    }
                },
                MeasureContent::Backup(backup) => at.checked_sub(backup.duration),
                MeasureContent::Forward(forward) => at.checked_add(forward.duration),
                _ => Some(at),
            };
            match moved {
                Some(next) => {
                    at = next;
                },
                None => {
                    proof {
                        lemma_cursor_fails(events, i + 1);
                    }
                    return Err(ErrorKind::CursorError);
                },
            }
            i = i + 1;
        }
        proof {
            assert(events.subrange(0, i as int) =~= events);
            lemma_voice_in_order(events, voice_idx);
        }
        Ok(entries)
    }

    /// The attributes block of the measure where it holds exactly one; none
    /// where it holds no block, and none where it holds several.
    pub fn get_attributes(&self) -> (r: Option<&Attributes>)
        ensures
            r.deep_view() == (if attribute_blocks(self.deep_view().content).len() == 1 {
                Some(attribute_blocks(self.deep_view().content)[0])
            } else {
                None
            }),
    {
        let ghost events = self.deep_view().content;
        let mut first: Option<&Attributes> = None;
        let mut several = false;
        let mut i: usize = 0;
        proof {
            assert(events.subrange(0, 0) =~= Seq::empty());
        }
        while i < self.content.len()
            invariant
                i <= self.content.len(),
                events == self.deep_view().content,
                events.len() == self.content.len(),
                first is None <==> attribute_blocks(events.subrange(0, i as int)).len() == 0,
                first matches Some(a) ==> a.deep_view() == attribute_blocks(
                    events.subrange(0, i as int),
                )[0],
                several <==> attribute_blocks(events.subrange(0, i as int)).len() > 1,
            decreases self.content.len() - i,
        {
            let ghost seen = events.subrange(0, i as int);
            let ghost upto = events.subrange(0, i + 1);
            proof {
                assert(upto.drop_last() =~= seen);
                assert(upto.last() == self.content[i as int].deep_view());
            }
            match &self.content[i] {
                MeasureContent::Attributes(a) => {
                    if first.is_some() {
                        several = true;
                    } else {
                        first = Some(a);
                    }
                },
                _ => {},
            }
            i = i + 1;
        }
        proof {
            assert(events.subrange(0, i as int) =~= events);
        }
        if several {
            None
        } else {
            first
        }
    }

    /// The attributes block of the measure where it holds exactly one; an
    /// `IntegrityError` where it holds no block or several.
    pub fn require_attributes(&self) -> (r: Result<&Attributes, ErrorKind>)
        ensures
            r matches Ok(a) ==> attribute_blocks(self.deep_view().content).len() == 1
                && a.deep_view() == attribute_blocks(self.deep_view().content)[0],
            r matches Err(e) ==> e == ErrorKind::IntegrityError(IntegrityFault::AmbiguousAttributes)
                && attribute_blocks(self.deep_view().content).len() != 1,
    {
        match self.get_attributes() {
            Some(a) => Ok(a),
            None => Err(ErrorKind::IntegrityError(IntegrityFault::AmbiguousAttributes)),
        }
    }
}

} // verus!
