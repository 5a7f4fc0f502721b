//! Notes and their notations.
use crate::articulations::{Articulations, ArticulationsView};
use crate::codec::{
    all_valid, all_valid_variants, decode_elements, Element, element_nodes, encode_elements,
    encode_variants, group_codec, lemma_decode_elements_valid, lemma_decode_encode_elements,
    lemma_decode_encode_variants, lemma_decode_variants_valid, marker_nodes, Tagged, text_nodes,
};
use crate::decimal::Decimal;
use crate::dynamics::Dynamics;
use crate::error::{DecodeError, DecodeErrorView, ErrorKind};
use crate::harmony::Pitch;
use crate::lyric::{Lyric, LyricView};
use crate::names::Name;
use crate::node::{Node, NodeView};
use crate::primitives::{DurationType, Placement};
use crate::scalar::Scalar;
use crate::stem::{Stem, StemView};
use crate::text::{owned, same_text};
use vstd::prelude::*;

verus! {

/// The two ends of a span.
#[derive(Clone, Copy, Debug, PartialEq, Eq, Structural)]
pub enum StartStop {
    /// Written `start`.
    Start,
    /// Written `stop`.
    Stop,
}

impl DeepView for StartStop {
    type V = StartStop;

    open spec fn deep_view(&self) -> StartStop {
        *self
    }
}

impl StartStop {
    /// The word that a value is written as.
    #[verifier::opaque]
    pub open spec fn word(self) -> Seq<char> {
        match self {
            StartStop::Start => "start"@,
            StartStop::Stop => "stop"@,
        }
    }

    /// The value that a word denotes, if it denotes one.
    #[verifier::opaque]
    pub open spec fn of_word(s: Seq<char>) -> Option<StartStop> {
        if exists|v: StartStop| v.word() == s {
            Some(choose|v: StartStop| v.word() == s)
        } else {
            None
        }
    }

    /// No two values are written alike.
    pub proof fn word_injective(a: StartStop, b: StartStop)
        ensures
            a.word() == b.word() ==> a == b,
    {
        reveal(StartStop::word);
        reveal_strlit("start");
        reveal_strlit("stop");
        if a.word() == b.word() {
            assert(a.word().len() == b.word().len());
            assert(a.word()[0] == b.word()[0]);
            assert(a.word()[1] == b.word()[1]);
            assert(a.word()[2] == b.word()[2]);
            assert(a.word()[3] == b.word()[3]);
            assert(a.word()[4] == b.word()[4]);
        }
    }

    /// Reading the word of a value gives the value back.
    pub proof fn of_word_word(v: StartStop)
        ensures
            StartStop::of_word(v.word()) == Some(v),
    {
        reveal(StartStop::of_word);
        StartStop::word_injective(v, choose|w: StartStop| w.word() == v.word());
    }

    /// The word that a value is written as.
    pub fn as_str(self) -> (r: &'static str)
        ensures
            r@ == self.word(),
    {
        proof {
            reveal(StartStop::word);
        }
        match self {
            StartStop::Start => "start",
            StartStop::Stop => "stop",
        }
    }

    /// Reads a value from its word.
    pub fn from_str(s: &str) -> (r: Option<StartStop>)
        ensures
            r == StartStop::of_word(s@),
    {
        proof {
            reveal(StartStop::word);
            reveal(StartStop::of_word);
        }
        if same_text(s, "start") {
            proof {
                StartStop::of_word_word(StartStop::Start);
            }
            return Some(StartStop::Start);
        }
        if same_text(s, "stop") {
            proof {
                StartStop::of_word_word(StartStop::Stop);
            }
            return Some(StartStop::Stop);
        }
        proof {
            assert forall|v: StartStop| v.word() != s@ by {
            }
        }
        None
    }
}

impl Default for StartStop {
    fn default() -> (r: StartStop)
        ensures
            r == StartStop::Start,
    {
        StartStop::Start
    }
}

impl Scalar for StartStop {
    open spec fn parse(s: Seq<char>) -> Option<StartStop> {
        StartStop::of_word(s)
    }

    open spec fn text(v: StartStop) -> Seq<char> {
        v.word()
    }

    open spec fn initial() -> StartStop {
        StartStop::Start
    }

    proof fn parse_text(v: StartStop) {
        StartStop::of_word_word(v);
    }

    fn from_text(s: &str) -> (r: Option<StartStop>) {
        StartStop::from_str(s)
    }

    fn to_text(&self) -> (r: String) {
        owned(self.as_str())
    }

    fn same(&self, other: &StartStop) -> (r: bool) {
        *self == *other
    }

    fn make_initial() -> (r: StartStop) {
        StartStop::Start
    }
}

/// The notations of a note, in document order.
#[derive(Clone, Debug, PartialEq)]
pub struct Notations {
    /// The children, in document order.
    pub notations: Vec<NotationType>,
}

/// The mathematical value of a [`Notations`].
pub struct NotationsView {
    pub notations: Seq<NotationTypeView>,
}

impl DeepView for Notations {
    type V = NotationsView;

    open spec fn deep_view(&self) -> NotationsView {
        NotationsView {
            notations: self.notations.deep_view(),
        }
    }
}

impl Notations {
    /// The value with every field at its default.
    pub open spec fn initial() -> NotationsView {
        NotationsView {
            notations: Seq::empty(),
        }
    }
}

impl Default for Notations {
    fn default() -> (r: Notations)
        ensures
            r.deep_view() == Notations::initial(),
    {
        let r = Notations {
            notations: Vec::new(),
        };
        proof {
            assert(r.notations.deep_view() =~= Seq::empty());
        }
        r
    }
}

impl Notations {
    /// The value that an element denotes. The fields are read in the order in
    /// which they are declared; the first one that fails gives the error.
    #[verifier::opaque]
    pub open spec fn decode_node(n: NodeView) -> Result<NotationsView, DecodeErrorView> {
        let notations = n.variants::<NotationType>();
        if notations is Err {
            Err(notations->Err_0)
        } else {
            Ok(
                NotationsView {
                    notations: notations->Ok_0,
                }
            )
        }
    }

    /// The element that a value is written as.
    #[verifier::opaque]
    pub open spec fn encode_value(v: NotationsView, tag: Seq<char>) -> NodeView {
        NodeView::new(tag)
            .with_children(encode_variants::<NotationType>(v.notations))
    }

    /// An encoded element bears the tag it was given.
    pub proof fn encoded_tag(v: NotationsView, tag: Seq<char>)
        ensures
            Notations::encode_value(v, tag).tag == tag,
    {
        broadcast use group_codec;

        reveal(Notations::encode_value);
    }

    /// Decoding what was encoded gives the value back.
    pub proof fn round_trip(v: NotationsView, tag: Seq<char>)
        requires
            <Notations as Element>::valid(v),
        ensures
            Notations::decode_node(Notations::encode_value(v, tag))
                == Ok::<NotationsView, DecodeErrorView>(v),
    {
        broadcast use group_codec;

        let n = Notations::encode_value(v, tag);
        assert(
            n.variants::<NotationType>()
                == Ok::<Seq<NotationTypeView>, DecodeErrorView>(v.notations)
        ) by {
            reveal(Notations::encode_value);
            reveal(NodeView::variants);
            lemma_decode_encode_variants::<NotationType>(v.notations, tag);
        }
        reveal(Notations::decode_node);
    }

    /// Decoding gives valid values only.
    pub proof fn decoded_valid(n: NodeView)
        ensures
            Notations::decode_node(n) matches Ok(v) ==> <Notations as Element>::valid(v),
    {
        reveal(Notations::decode_node);
        reveal(NodeView::variants);
        lemma_decode_variants_valid::<NotationType>(n.children, n.tag);
    }

    /// Decodes an element.
    pub fn read_node(node: &Node) -> (r: Result<Notations, DecodeError>)
        ensures
            r matches Ok(v) ==>
                Notations::decode_node(node.deep_view()) == Ok::<NotationsView, DecodeErrorView>(
                v.deep_view(),
            ),
            r matches Err(e) ==>
                Notations::decode_node(node.deep_view()) == Err::<NotationsView, DecodeErrorView>(
                e.deep_view(),
            ),
    {
        proof {
            reveal(Notations::decode_node);
        }
        let notations = node.variants::<NotationType>()?;
        Ok(Notations { notations })
    }

    /// Encodes a value as an element with the given tag.
    pub fn write_node(&self, tag: &str) -> (r: Node)
        ensures
            r.deep_view() == Notations::encode_value(self.deep_view(), tag@),
    {
        proof {
            reveal(Notations::encode_value);
        }
        let mut node = Node::new(tag);
        node.put_variants::<NotationType>(&self.notations);
        node
    }
}

impl Element for Notations {
    open spec fn valid(v: NotationsView) -> bool {
        &&& all_valid_variants::<NotationType>(v.notations)
    }

    open spec fn decode(n: NodeView) -> Result<NotationsView, DecodeErrorView> {
        Notations::decode_node(n)
    }

    open spec fn encode(v: NotationsView, tag: Seq<char>) -> NodeView {
        Notations::encode_value(v, tag)
    }

    proof fn encode_tag(v: NotationsView, tag: Seq<char>) {
        Notations::encoded_tag(v, tag);
    }

    proof fn decode_encode(v: NotationsView, tag: Seq<char>) {
        Notations::round_trip(v, tag);
    }

    proof fn decode_valid(n: NodeView) {
        Notations::decoded_valid(n);
    }

    fn from_node(node: &Node) -> (r: Result<Notations, DecodeError>) {
        Notations::read_node(node)
    }

    fn to_node(&self, tag: &str) -> (r: Node) {
        self.write_node(tag)
    }
}

/// A note or a rest. It has a pitch or is a rest, never both. Its lyrics
/// are kept by placement: those above the staff and those below.
#[derive(Clone, Debug, PartialEq)]
pub struct Note {
    /// The text of the child `duration`; zero where the child is not there.
    pub duration: usize,
    /// The text of the child `type`, which must be there.
    pub notetype: DurationType,
    /// The child `pitch`, if it is there.
    pub pitch: Option<Pitch>,
    /// The text of the child `voice`; zero where the child is not there.
    pub voice: u8,
    /// The text of the child `staff`; zero where the child is not there.
    pub staff: u8,
    /// Whether a child `rest` is there.
    pub rest: bool,
    /// One for each child `dot`.
    pub dot: Vec<Dot>,
    /// The child `stem`, if it is there.
    pub stem: Option<Stem>,
    /// Whether a child `chord` is there.
    pub chord: bool,
    /// The children `lyric` that are not placed below the staff, in
    /// document order.
    pub lyrics_above: Vec<Lyric>,
    /// The children `lyric` that are placed below the staff, in document
    /// order.
    pub lyrics_below: Vec<Lyric>,
    /// The child `notations`, if it is there.
    pub notations: Option<Notations>,
    /// The attribute `attack`, if it is written.
    pub attack: Option<Decimal>,
    /// The attribute `color`, if it is written.
    pub color: Option<String>,
    /// The attribute `default-x`, if it is written.
    pub default_x: Option<Decimal>,
    /// The attribute `default-y`, if it is written.
    pub default_y: Option<Decimal>,
}

/// The mathematical value of a [`Note`].
pub struct NoteView {
    pub duration: usize,
    pub notetype: DurationType,
    pub pitch: Option<Pitch>,
    pub voice: u8,
    pub staff: u8,
    pub rest: bool,
    pub dot: Seq<Dot>,
    pub stem: Option<StemView>,
    pub chord: bool,
    pub lyrics_above: Seq<LyricView>,
    pub lyrics_below: Seq<LyricView>,
    pub notations: Option<NotationsView>,
    pub attack: Option<Decimal>,
    pub color: Option<Seq<char>>,
    pub default_x: Option<Decimal>,
    pub default_y: Option<Decimal>,
}

impl DeepView for Note {
    type V = NoteView;

    open spec fn deep_view(&self) -> NoteView {
        NoteView {
            duration: self.duration.deep_view(),
            notetype: self.notetype.deep_view(),
            pitch: self.pitch.deep_view(),
            voice: self.voice.deep_view(),
            staff: self.staff.deep_view(),
            rest: self.rest,
            dot: self.dot.deep_view(),
            stem: self.stem.deep_view(),
            chord: self.chord,
            lyrics_above: self.lyrics_above.deep_view(),
            lyrics_below: self.lyrics_below.deep_view(),
            notations: self.notations.deep_view(),
            attack: self.attack.deep_view(),
            color: self.color.deep_view(),
            default_x: self.default_x.deep_view(),
            default_y: self.default_y.deep_view(),
        }
    }
}

impl Note {
    /// The value that an element denotes. The fields are read in the order in
    /// which they are declared; the first one that fails gives the error.
    #[verifier::opaque]
    pub open spec fn decode_node(n: NodeView) -> Result<NoteView, DecodeErrorView> {
        let duration = n.text_or::<usize>(Name::Duration, 0);
        let notetype = n.text_required::<DurationType>(Name::Type);
        let pitch = n.element_opt::<Pitch>(Name::Pitch);
        let voice = n.text_or::<u8>(Name::Voice, 0);
        let staff = n.text_or::<u8>(Name::Staff, 0);
        let rest = n.marker(Name::Rest);
        let dot = dots(n.marker_count(Name::Dot));
        let stem = n.element_opt::<Stem>(Name::Stem);
        let chord = n.marker(Name::Chord);
        let lyrics_above = lyrics_of(n, false);
        let lyrics_below = lyrics_of(n, true);
        let notations = n.element_opt::<Notations>(Name::Notations);
        let attack = n.attribute_opt::<Decimal>(Name::Attack);
        let color = n.attribute_opt::<String>(Name::Color);
        let default_x = n.attribute_opt::<Decimal>(Name::DefaultX);
        let default_y = n.attribute_opt::<Decimal>(Name::DefaultY);
        if duration is Err {
            Err(duration->Err_0)
        } else if notetype is Err {
            Err(notetype->Err_0)
        } else if pitch is Err {
            Err(pitch->Err_0)
        } else if voice is Err {
            Err(voice->Err_0)
        } else if staff is Err {
            Err(staff->Err_0)
        } else if stem is Err {
            Err(stem->Err_0)
        } else if lyrics_above is Err {
            Err(lyrics_above->Err_0)
        } else if lyrics_below is Err {
            Err(lyrics_below->Err_0)
        } else if notations is Err {
            Err(notations->Err_0)
        } else if attack is Err {
            Err(attack->Err_0)
        } else if color is Err {
            Err(color->Err_0)
        } else if default_x is Err {
            Err(default_x->Err_0)
        } else if default_y is Err {
            Err(default_y->Err_0)
        } else {
            let v = NoteView {
                duration: duration->Ok_0,
                notetype: notetype->Ok_0,
                pitch: pitch->Ok_0,
                voice: voice->Ok_0,
                staff: staff->Ok_0,
                rest: rest,
                dot: dot,
                stem: stem->Ok_0,
                chord: chord,
                lyrics_above: lyrics_above->Ok_0,
                lyrics_below: lyrics_below->Ok_0,
                notations: notations->Ok_0,
                attack: attack->Ok_0,
                color: color->Ok_0,
                default_x: default_x->Ok_0,
                default_y: default_y->Ok_0,
            };
            if Note::rule(v) {
                Ok(v)
            } else {
                Err(DecodeErrorView::at(ErrorKind::SchemaMismatch, n.tag))
            }
        }
    }

    /// The element that a value is written as.
    #[verifier::opaque]
    pub open spec fn encode_value(v: NoteView, tag: Seq<char>) -> NodeView {
        NodeView::new(tag)
            .with_children(text_nodes::<usize>(Name::Duration, Some(v.duration)))
            .with_children(text_nodes::<DurationType>(Name::Type, Some(v.notetype)))
            .with_children(element_nodes::<Pitch>(Name::Pitch, v.pitch))
            .with_children(text_nodes::<u8>(Name::Voice, Some(v.voice)))
            .with_children(text_nodes::<u8>(Name::Staff, Some(v.staff)))
            .with_children(marker_nodes(Name::Rest, if v.rest { 1 } else { 0 }))
            .with_children(marker_nodes(Name::Dot, v.dot.len()))
            .with_children(element_nodes::<Stem>(Name::Stem, v.stem))
            .with_children(marker_nodes(Name::Chord, if v.chord { 1 } else { 0 }))
            .with_children(encode_elements::<Lyric>(Name::Lyric, v.lyrics_above))
            .with_children(encode_elements::<Lyric>(Name::Lyric, v.lyrics_below))
            .with_children(element_nodes::<Notations>(Name::Notations, v.notations))
            .with_scalar_opt::<Decimal>(Name::Attack, v.attack)
            .with_scalar_opt::<String>(Name::Color, v.color)
            .with_scalar_opt::<Decimal>(Name::DefaultX, v.default_x)
            .with_scalar_opt::<Decimal>(Name::DefaultY, v.default_y)
    }

    /// An encoded element bears the tag it was given.
    pub proof fn encoded_tag(v: NoteView, tag: Seq<char>)
        ensures
            Note::encode_value(v, tag).tag == tag,
    {
        broadcast use group_codec;

        reveal(Note::encode_value);
    }

    /// Decoding what was encoded gives the value back.
    pub proof fn round_trip(v: NoteView, tag: Seq<char>)
        requires
            <Note as Element>::valid(v),
        ensures
            Note::decode_node(Note::encode_value(v, tag)) == Ok::<NoteView, DecodeErrorView>(v),
    {
        broadcast use group_codec;

        let n = Note::encode_value(v, tag);
        assert(
            n.text_or::<usize>(Name::Duration, 0)
                == Ok::<usize, DecodeErrorView>(v.duration)
        ) by {
            reveal(Note::encode_value);
            reveal(NodeView::text_or);
            reveal(NodeView::text_opt);
            reveal(NodeView::only_child);
            reveal(NodeView::content);
            usize::parse_text(v.duration);
        }
        assert(
            n.text_required::<DurationType>(Name::Type)
                == Ok::<DurationType, DecodeErrorView>(v.notetype)
        ) by {
            reveal(Note::encode_value);
            reveal(NodeView::text_required);
            reveal(NodeView::text_opt);
            reveal(NodeView::only_child);
            reveal(NodeView::content);
            DurationType::parse_text(v.notetype);
        }
        assert(
            n.element_opt::<Pitch>(Name::Pitch)
                == Ok::<Option<Pitch>, DecodeErrorView>(v.pitch)
        ) by {
            reveal(Note::encode_value);
            reveal(NodeView::element_opt);
            reveal(NodeView::only_child);
            if let Some(x) = v.pitch {
                Pitch::decode_encode(x, Name::Pitch.text());
            }
        }
        assert(n.text_or::<u8>(Name::Voice, 0) == Ok::<u8, DecodeErrorView>(v.voice)) by {
            reveal(Note::encode_value);
            reveal(NodeView::text_or);
            reveal(NodeView::text_opt);
            reveal(NodeView::only_child);
            reveal(NodeView::content);
            u8::parse_text(v.voice);
        }
        assert(n.text_or::<u8>(Name::Staff, 0) == Ok::<u8, DecodeErrorView>(v.staff)) by {
            reveal(Note::encode_value);
            reveal(NodeView::text_or);
            reveal(NodeView::text_opt);
            reveal(NodeView::only_child);
            reveal(NodeView::content);
            u8::parse_text(v.staff);
        }
        assert(n.marker(Name::Rest) == v.rest) by {
            reveal(Note::encode_value);
            reveal(NodeView::marker);
            reveal(NodeView::marker_count);
        }
        assert(dots(n.marker_count(Name::Dot)) == v.dot) by {
            reveal(Note::encode_value);
            reveal(NodeView::marker_count);
            assert(dots(v.dot.len()) =~= v.dot);
        }
        assert(
            n.element_opt::<Stem>(Name::Stem)
                == Ok::<Option<StemView>, DecodeErrorView>(v.stem)
        ) by {
            reveal(Note::encode_value);
            reveal(NodeView::element_opt);
            reveal(NodeView::only_child);
            if let Some(x) = v.stem {
                Stem::decode_encode(x, Name::Stem.text());
            }
        }
        assert(n.marker(Name::Chord) == v.chord) by {
            reveal(Note::encode_value);
            reveal(NodeView::marker);
            reveal(NodeView::marker_count);
        }
        assert(lyrics_of(n, false) == Ok::<Seq<LyricView>, DecodeErrorView>(v.lyrics_above)) by {
            reveal(Note::encode_value);
            reveal(NodeView::elements);
            lemma_lyrics_written(v.lyrics_above, v.lyrics_below, tag);
        }
        assert(lyrics_of(n, true) == Ok::<Seq<LyricView>, DecodeErrorView>(v.lyrics_below)) by {
            reveal(Note::encode_value);
            reveal(NodeView::elements);
            lemma_lyrics_written(v.lyrics_above, v.lyrics_below, tag);
        }
        assert(
            n.element_opt::<Notations>(Name::Notations)
                == Ok::<Option<NotationsView>, DecodeErrorView>(v.notations)
        ) by {
            reveal(Note::encode_value);
            reveal(NodeView::element_opt);
            reveal(NodeView::only_child);
            if let Some(x) = v.notations {
                Notations::decode_encode(x, Name::Notations.text());
            }
        }
        assert(
            n.attribute_opt::<Decimal>(Name::Attack)
                == Ok::<Option<Decimal>, DecodeErrorView>(v.attack)
        ) by {
            reveal(Note::encode_value);
        }
        assert(
            n.attribute_opt::<String>(Name::Color)
                == Ok::<Option<Seq<char>>, DecodeErrorView>(v.color)
        ) by {
            reveal(Note::encode_value);
        }
        assert(
            n.attribute_opt::<Decimal>(Name::DefaultX)
                == Ok::<Option<Decimal>, DecodeErrorView>(v.default_x)
        ) by {
            reveal(Note::encode_value);
        }
        assert(
            n.attribute_opt::<Decimal>(Name::DefaultY)
                == Ok::<Option<Decimal>, DecodeErrorView>(v.default_y)
        ) by {
            reveal(Note::encode_value);
        }
        reveal(Note::decode_node);
    }

    /// Decoding gives valid values only.
    pub proof fn decoded_valid(n: NodeView)
        ensures
            Note::decode_node(n) matches Ok(v) ==> <Note as Element>::valid(v),
    {
        reveal(Note::decode_node);
        reveal(NodeView::element_opt);
        if let Ok(Some(c)) = n.only_child(Name::Pitch) {
            Pitch::decode_valid(c);
        }
        if let Ok(Some(c)) = n.only_child(Name::Stem) {
            Stem::decode_valid(c);
        }
        lemma_lyrics_of_valid(n, false);
        lemma_lyrics_of_valid(n, true);
        if let Ok(Some(c)) = n.only_child(Name::Notations) {
            Notations::decode_valid(c);
        }
    }

    /// Decodes an element.
    pub fn read_node(node: &Node) -> (r: Result<Note, DecodeError>)
        ensures
            r matches Ok(v) ==>
                Note::decode_node(node.deep_view()) == Ok::<NoteView, DecodeErrorView>(
                v.deep_view(),
            ),
            r matches Err(e) ==>
                Note::decode_node(node.deep_view()) == Err::<NoteView, DecodeErrorView>(
                e.deep_view(),
            ),
    {
        proof {
            reveal(Note::decode_node);
        }
        let duration = node.text_or::<usize>(Name::Duration, 0)?;
        let notetype = node.text_required::<DurationType>(Name::Type)?;
        let pitch = node.element_opt::<Pitch>(Name::Pitch)?;
        let voice = node.text_or::<u8>(Name::Voice, 0)?;
        let staff = node.text_or::<u8>(Name::Staff, 0)?;
        let rest = node.marker(Name::Rest);
        let dot = make_dots(node.marker_count(Name::Dot));
        let stem = node.element_opt::<Stem>(Name::Stem)?;
        let chord = node.marker(Name::Chord);
        let lyrics_above = read_lyrics(node, false)?;
        let lyrics_below = read_lyrics(node, true)?;
        let notations = node.element_opt::<Notations>(Name::Notations)?;
        let attack = node.attribute_opt::<Decimal>(Name::Attack)?;
        let color = node.attribute_opt::<String>(Name::Color)?;
        let default_x = node.attribute_opt::<Decimal>(Name::DefaultX)?;
        let default_y = node.attribute_opt::<Decimal>(Name::DefaultY)?;
        let value = Note {
            duration,
            notetype,
            pitch,
            voice,
            staff,
            rest,
            dot,
            stem,
            chord,
            lyrics_above,
            lyrics_below,
            notations,
            attack,
            color,
            default_x,
            default_y,
        };
        if !value.obeys_rule() {
            return Err(DecodeError::at(ErrorKind::SchemaMismatch, node.tag_str()));
        }
        Ok(value)
    }

    /// Encodes a value as an element with the given tag.
    pub fn write_node(&self, tag: &str) -> (r: Node)
        ensures
            r.deep_view() == Note::encode_value(self.deep_view(), tag@),
    {
        proof {
            reveal(Note::encode_value);
        }
        let mut node = Node::new(tag);
        node.put_text::<usize>(Name::Duration, &self.duration);
        node.put_text::<DurationType>(Name::Type, &self.notetype);
        node.put_element_opt::<Pitch>(Name::Pitch, &self.pitch);
        node.put_text::<u8>(Name::Voice, &self.voice);
        node.put_text::<u8>(Name::Staff, &self.staff);
        node.put_marker(Name::Rest, *&self.rest);
        node.put_markers(Name::Dot, self.dot.len());
        node.put_element_opt::<Stem>(Name::Stem, &self.stem);
        node.put_marker(Name::Chord, *&self.chord);
        node.put_elements::<Lyric>(Name::Lyric, &self.lyrics_above);
        node.put_elements::<Lyric>(Name::Lyric, &self.lyrics_below);
        node.put_element_opt::<Notations>(Name::Notations, &self.notations);
        node.put_scalar_opt::<Decimal>(Name::Attack, &self.attack);
        node.put_scalar_opt::<String>(Name::Color, &self.color);
        node.put_scalar_opt::<Decimal>(Name::DefaultX, &self.default_x);
        node.put_scalar_opt::<Decimal>(Name::DefaultY, &self.default_y);
        node
    }
}

impl Element for Note {
    open spec fn valid(v: NoteView) -> bool {
        &&& (v.pitch matches Some(x) ==> Pitch::valid(x))
        &&& (v.stem matches Some(x) ==> Stem::valid(x))
        &&& all_valid::<Lyric>(v.lyrics_above) && all_placed(v.lyrics_above, false)
        &&& all_valid::<Lyric>(v.lyrics_below) && all_placed(v.lyrics_below, true)
        &&& (v.notations matches Some(x) ==> Notations::valid(x))
        &&& Note::rule(v)
    }

    open spec fn decode(n: NodeView) -> Result<NoteView, DecodeErrorView> {
        Note::decode_node(n)
    }

    open spec fn encode(v: NoteView, tag: Seq<char>) -> NodeView {
        Note::encode_value(v, tag)
    }

    proof fn encode_tag(v: NoteView, tag: Seq<char>) {
        Note::encoded_tag(v, tag);
    }

    proof fn decode_encode(v: NoteView, tag: Seq<char>) {
        Note::round_trip(v, tag);
    }

    proof fn decode_valid(n: NodeView) {
        Note::decoded_valid(n);
    }

    fn from_node(node: &Node) -> (r: Result<Note, DecodeError>) {
        Note::read_node(node)
    }

    fn to_node(&self, tag: &str) -> (r: Node) {
        self.write_node(tag)
    }
}

/// A notation attached to a note.
#[derive(Clone, Debug, PartialEq)]
pub enum NotationType {
    /// The element `tied`.
    Tied {
        /// The attribute `type`; `StartStop::Start` where it is not
        /// written.
        type_: StartStop,
        /// The attribute `bezier-offset`, if it is written.
        bezier_offset: Option<Decimal>,
        /// The attribute `bezier-offset2`, if it is written.
        bezier_offset2: Option<Decimal>,
        /// The attribute `bezier-x`, if it is written.
        bezier_x: Option<Decimal>,
        /// The attribute `bezier-x2`, if it is written.
        bezier_x2: Option<Decimal>,
        /// The attribute `bezier-y`, if it is written.
        bezier_y: Option<Decimal>,
        /// The attribute `bezier-y2`, if it is written.
        bezier_y2: Option<Decimal>,
        /// The attribute `color`, if it is written.
        color: Option<String>,
    },
    /// The element `slur`.
    Slur {
        /// The attribute `type`; `StartStop::Start` where it is not
        /// written.
        type_: StartStop,
        /// The attribute `number`; zero where it is not written.
        number: u8,
    },
    /// The element `tuplet`.
    Tuplet {
        /// The attribute `type`; `StartStop::Start` where it is not
        /// written.
        type_: StartStop,
        /// The attribute `number`; zero where it is not written.
        number: u8,
    },
    /// The element `glissando`.
    Glissando {
        /// The attribute `type`; `StartStop::Start` where it is not
        /// written.
        type_: StartStop,
        /// The attribute `number`; zero where it is not written.
        number: u8,
    },
    /// The element `slide`.
    Slide {
        /// The attribute `type`; `StartStop::Start` where it is not
        /// written.
        type_: StartStop,
        /// The attribute `number`; zero where it is not written.
        number: u8,
    },
    /// The element `ornaments`.
    Ornaments {
        /// The attribute `type`; `StartStop::Start` where it is not
        /// written.
        type_: StartStop,
        /// The attribute `number`; zero where it is not written.
        number: u8,
    },
    /// The element `technical`.
    Technical {
        /// The attribute `type`; `StartStop::Start` where it is not
        /// written.
        type_: StartStop,
        /// The attribute `number`; zero where it is not written.
        number: u8,
    },
    /// The element `articulations`.
    Articulations(Articulations),
    /// The element `dynamics`.
    Dynamics {
        /// The attribute `type`; `StartStop::Start` where it is not
        /// written.
        type_: StartStop,
        /// The attribute `number`; zero where it is not written.
        number: u8,
    },
    /// The element `fermata`.
    Fermata {
        /// The attribute `type`; `StartStop::Start` where it is not
        /// written.
        type_: StartStop,
        /// The attribute `number`; zero where it is not written.
        number: u8,
    },
    /// The element `arpeggiate`.
    Arpeggiate {
        /// The attribute `type`; `StartStop::Start` where it is not
        /// written.
        type_: StartStop,
        /// The attribute `number`; zero where it is not written.
        number: u8,
    },
    /// The element `non-arpeggiate`.
    NonArpeggiate {
        /// The attribute `type`; `StartStop::Start` where it is not
        /// written.
        type_: StartStop,
        /// The attribute `number`; zero where it is not written.
        number: u8,
    },
    /// The element `accidental-mark`.
    AccidentalMark {
        /// The attribute `type`; `StartStop::Start` where it is not
        /// written.
        type_: StartStop,
        /// The attribute `number`; zero where it is not written.
        number: u8,
    },
    /// The element `other-notation`.
    OtherNotation {
        /// The attribute `type`; `StartStop::Start` where it is not
        /// written.
        type_: StartStop,
        /// The attribute `number`; zero where it is not written.
        number: u8,
    },
}

/// The mathematical value of a [`NotationType`].
pub enum NotationTypeView {
    Tied {
        type_: StartStop,
        bezier_offset: Option<Decimal>,
        bezier_offset2: Option<Decimal>,
        bezier_x: Option<Decimal>,
        bezier_x2: Option<Decimal>,
        bezier_y: Option<Decimal>,
        bezier_y2: Option<Decimal>,
        color: Option<Seq<char>>,
    },
    Slur {
        type_: StartStop,
        number: u8,
    },
    Tuplet {
        type_: StartStop,
        number: u8,
    },
    Glissando {
        type_: StartStop,
        number: u8,
    },
    Slide {
        type_: StartStop,
        number: u8,
    },
    Ornaments {
        type_: StartStop,
        number: u8,
    },
    Technical {
        type_: StartStop,
        number: u8,
    },
    Articulations(ArticulationsView),
    Dynamics {
        type_: StartStop,
        number: u8,
    },
    Fermata {
        type_: StartStop,
        number: u8,
    },
    Arpeggiate {
        type_: StartStop,
        number: u8,
    },
    NonArpeggiate {
        type_: StartStop,
        number: u8,
    },
    AccidentalMark {
        type_: StartStop,
        number: u8,
    },
    OtherNotation {
        type_: StartStop,
        number: u8,
    },
}

impl DeepView for NotationType {
    type V = NotationTypeView;

    open spec fn deep_view(&self) -> NotationTypeView {
        match self {
            NotationType::Tied {
                type_,
                bezier_offset,
                bezier_offset2,
                bezier_x,
                bezier_x2,
                bezier_y,
                bezier_y2,
                color,
            } => NotationTypeView::Tied {
                type_: type_.deep_view(),
                bezier_offset: bezier_offset.deep_view(),
                bezier_offset2: bezier_offset2.deep_view(),
                bezier_x: bezier_x.deep_view(),
                bezier_x2: bezier_x2.deep_view(),
                bezier_y: bezier_y.deep_view(),
                bezier_y2: bezier_y2.deep_view(),
                color: color.deep_view(),
            },
            NotationType::Slur { type_, number } => NotationTypeView::Slur {
                type_: type_.deep_view(),
                number: number.deep_view(),
            },
            NotationType::Tuplet { type_, number } => NotationTypeView::Tuplet {
                type_: type_.deep_view(),
                number: number.deep_view(),
            },
            NotationType::Glissando { type_, number } => NotationTypeView::Glissando {
                type_: type_.deep_view(),
                number: number.deep_view(),
            },
            NotationType::Slide { type_, number } => NotationTypeView::Slide {
                type_: type_.deep_view(),
                number: number.deep_view(),
            },
            NotationType::Ornaments { type_, number } => NotationTypeView::Ornaments {
                type_: type_.deep_view(),
                number: number.deep_view(),
            },
            NotationType::Technical { type_, number } => NotationTypeView::Technical {
                type_: type_.deep_view(),
                number: number.deep_view(),
            },
            NotationType::Articulations(x) => NotationTypeView::Articulations(x.deep_view()),
            NotationType::Dynamics { type_, number } => NotationTypeView::Dynamics {
                type_: type_.deep_view(),
                number: number.deep_view(),
            },
            NotationType::Fermata { type_, number } => NotationTypeView::Fermata {
                type_: type_.deep_view(),
                number: number.deep_view(),
            },
            NotationType::Arpeggiate { type_, number } => NotationTypeView::Arpeggiate {
                type_: type_.deep_view(),
                number: number.deep_view(),
            },
            NotationType::NonArpeggiate { type_, number } => NotationTypeView::NonArpeggiate {
                type_: type_.deep_view(),
                number: number.deep_view(),
            },
            NotationType::AccidentalMark { type_, number } => NotationTypeView::AccidentalMark {
                type_: type_.deep_view(),
                number: number.deep_view(),
            },
            NotationType::OtherNotation { type_, number } => NotationTypeView::OtherNotation {
                type_: type_.deep_view(),
                number: number.deep_view(),
            },
        }
    }
}

impl NotationType {
    /// The variant that an element denotes: the tag chooses the variant, the
    /// rest of the element gives what the variant holds.
    #[verifier::opaque]
    pub open spec fn decode_node(n: NodeView) -> Result<NotationTypeView, DecodeErrorView> {
        match Name::of_text(n.tag) {
            Some(Name::Tied) => {
                let type_ = n.attribute_or::<StartStop>(Name::Type, StartStop::Start);
                let bezier_offset = n.attribute_opt::<Decimal>(Name::BezierOffset);
                let bezier_offset2 = n.attribute_opt::<Decimal>(Name::BezierOffset2);
                let bezier_x = n.attribute_opt::<Decimal>(Name::BezierX);
                let bezier_x2 = n.attribute_opt::<Decimal>(Name::BezierX2);
                let bezier_y = n.attribute_opt::<Decimal>(Name::BezierY);
                let bezier_y2 = n.attribute_opt::<Decimal>(Name::BezierY2);
                let color = n.attribute_opt::<String>(Name::Color);
                if type_ is Err {
                    Err(type_->Err_0)
                } else if bezier_offset is Err {
                    Err(bezier_offset->Err_0)
                } else if bezier_offset2 is Err {
                    Err(bezier_offset2->Err_0)
                } else if bezier_x is Err {
                    Err(bezier_x->Err_0)
                } else if bezier_x2 is Err {
                    Err(bezier_x2->Err_0)
                } else if bezier_y is Err {
                    Err(bezier_y->Err_0)
                } else if bezier_y2 is Err {
                    Err(bezier_y2->Err_0)
                } else if color is Err {
                    Err(color->Err_0)
                } else {
                    Ok(
                        NotationTypeView::Tied {
                            type_: type_->Ok_0,
                            bezier_offset: bezier_offset->Ok_0,
                            bezier_offset2: bezier_offset2->Ok_0,
                            bezier_x: bezier_x->Ok_0,
                            bezier_x2: bezier_x2->Ok_0,
                            bezier_y: bezier_y->Ok_0,
                            bezier_y2: bezier_y2->Ok_0,
                            color: color->Ok_0,
                        }
                    )
                }
            },
            Some(Name::Slur) => {
                let type_ = n.attribute_or::<StartStop>(Name::Type, StartStop::Start);
                let number = n.attribute_or::<u8>(Name::Number, 0);
                if type_ is Err {
                    Err(type_->Err_0)
                } else if number is Err {
                    Err(number->Err_0)
                } else {
                    Ok(
                        NotationTypeView::Slur {
                            type_: type_->Ok_0,
                            number: number->Ok_0,
                        }
                    )
                }
            },
            Some(Name::Tuplet) => {
                let type_ = n.attribute_or::<StartStop>(Name::Type, StartStop::Start);
                let number = n.attribute_or::<u8>(Name::Number, 0);
                if type_ is Err {
                    Err(type_->Err_0)
                } else if number is Err {
                    Err(number->Err_0)
                } else {
                    Ok(
                        NotationTypeView::Tuplet {
                            type_: type_->Ok_0,
                            number: number->Ok_0,
                        }
                    )
                }
            },
            Some(Name::Glissando) => {
                let type_ = n.attribute_or::<StartStop>(Name::Type, StartStop::Start);
                let number = n.attribute_or::<u8>(Name::Number, 0);
                if type_ is Err {
                    Err(type_->Err_0)
                } else if number is Err {
                    Err(number->Err_0)
                } else {
                    Ok(
                        NotationTypeView::Glissando {
                            type_: type_->Ok_0,
                            number: number->Ok_0,
                        }
                    )
                }
            },
            Some(Name::Slide) => {
                let type_ = n.attribute_or::<StartStop>(Name::Type, StartStop::Start);
                let number = n.attribute_or::<u8>(Name::Number, 0);
                if type_ is Err {
                    Err(type_->Err_0)
                } else if number is Err {
                    Err(number->Err_0)
                } else {
                    Ok(
                        NotationTypeView::Slide {
                            type_: type_->Ok_0,
                            number: number->Ok_0,
                        }
                    )
                }
            },
            Some(Name::Ornaments) => {
                let type_ = n.attribute_or::<StartStop>(Name::Type, StartStop::Start);
                let number = n.attribute_or::<u8>(Name::Number, 0);
                if type_ is Err {
                    Err(type_->Err_0)
                } else if number is Err {
                    Err(number->Err_0)
                } else {
                    Ok(
                        NotationTypeView::Ornaments {
                            type_: type_->Ok_0,
                            number: number->Ok_0,
                        }
                    )
                }
            },
            Some(Name::Technical) => {
                let type_ = n.attribute_or::<StartStop>(Name::Type, StartStop::Start);
                let number = n.attribute_or::<u8>(Name::Number, 0);
                if type_ is Err {
                    Err(type_->Err_0)
                } else if number is Err {
                    Err(number->Err_0)
                } else {
                    Ok(
                        NotationTypeView::Technical {
                            type_: type_->Ok_0,
                            number: number->Ok_0,
                        }
                    )
                }
            },
            Some(Name::Articulations) => match Articulations::decode(n) {
                Ok(x) => Ok(NotationTypeView::Articulations(x)),
                Err(e) => Err(e),
            },
            Some(Name::Dynamics) => {
                let type_ = n.attribute_or::<StartStop>(Name::Type, StartStop::Start);
                let number = n.attribute_or::<u8>(Name::Number, 0);
                if type_ is Err {
                    Err(type_->Err_0)
                } else if number is Err {
                    Err(number->Err_0)
                } else {
                    Ok(
                        NotationTypeView::Dynamics {
                            type_: type_->Ok_0,
                            number: number->Ok_0,
                        }
                    )
                }
            },
            Some(Name::Fermata) => {
                let type_ = n.attribute_or::<StartStop>(Name::Type, StartStop::Start);
                let number = n.attribute_or::<u8>(Name::Number, 0);
                if type_ is Err {
                    Err(type_->Err_0)
                } else if number is Err {
                    Err(number->Err_0)
                } else {
                    Ok(
                        NotationTypeView::Fermata {
                            type_: type_->Ok_0,
                            number: number->Ok_0,
                        }
                    )
                }
            },
            Some(Name::Arpeggiate) => {
                let type_ = n.attribute_or::<StartStop>(Name::Type, StartStop::Start);
                let number = n.attribute_or::<u8>(Name::Number, 0);
                if type_ is Err {
                    Err(type_->Err_0)
                } else if number is Err {
                    Err(number->Err_0)
                } else {
                    Ok(
                        NotationTypeView::Arpeggiate {
                            type_: type_->Ok_0,
                            number: number->Ok_0,
                        }
                    )
                }
            },
            Some(Name::NonArpeggiate) => {
                let type_ = n.attribute_or::<StartStop>(Name::Type, StartStop::Start);
                let number = n.attribute_or::<u8>(Name::Number, 0);
                if type_ is Err {
                    Err(type_->Err_0)
                } else if number is Err {
                    Err(number->Err_0)
                } else {
                    Ok(
                        NotationTypeView::NonArpeggiate {
                            type_: type_->Ok_0,
                            number: number->Ok_0,
                        }
                    )
                }
            },
            Some(Name::AccidentalMark) => {
                let type_ = n.attribute_or::<StartStop>(Name::Type, StartStop::Start);
                let number = n.attribute_or::<u8>(Name::Number, 0);
                if type_ is Err {
                    Err(type_->Err_0)
                } else if number is Err {
                    Err(number->Err_0)
                } else {
                    Ok(
                        NotationTypeView::AccidentalMark {
                            type_: type_->Ok_0,
                            number: number->Ok_0,
                        }
                    )
                }
            },
            Some(Name::OtherNotation) => {
                let type_ = n.attribute_or::<StartStop>(Name::Type, StartStop::Start);
                let number = n.attribute_or::<u8>(Name::Number, 0);
                if type_ is Err {
                    Err(type_->Err_0)
                } else if number is Err {
                    Err(number->Err_0)
                } else {
                    Ok(
                        NotationTypeView::OtherNotation {
                            type_: type_->Ok_0,
                            number: number->Ok_0,
                        }
                    )
                }
            },
            _ => Err(n.unknown()),
        }
    }

    /// The element that a variant is written as.
    #[verifier::opaque]
    pub open spec fn encode_value(v: NotationTypeView) -> NodeView {
        match v {
            NotationTypeView::Tied {
                type_,
                bezier_offset,
                bezier_offset2,
                bezier_x,
                bezier_x2,
                bezier_y,
                bezier_y2,
                color,
            } => NodeView::new(Name::Tied.text())
                .with_scalar::<StartStop>(Name::Type, type_)
                .with_scalar_opt::<Decimal>(Name::BezierOffset, bezier_offset)
                .with_scalar_opt::<Decimal>(Name::BezierOffset2, bezier_offset2)
                .with_scalar_opt::<Decimal>(Name::BezierX, bezier_x)
                .with_scalar_opt::<Decimal>(Name::BezierX2, bezier_x2)
                .with_scalar_opt::<Decimal>(Name::BezierY, bezier_y)
                .with_scalar_opt::<Decimal>(Name::BezierY2, bezier_y2)
                .with_scalar_opt::<String>(Name::Color, color),
            NotationTypeView::Slur { type_, number } => NodeView::new(Name::Slur.text())
                .with_scalar::<StartStop>(Name::Type, type_)
                .with_scalar::<u8>(Name::Number, number),
            NotationTypeView::Tuplet { type_, number } => NodeView::new(Name::Tuplet.text())
                .with_scalar::<StartStop>(Name::Type, type_)
                .with_scalar::<u8>(Name::Number, number),
            NotationTypeView::Glissando { type_, number } => NodeView::new(Name::Glissando.text())
                .with_scalar::<StartStop>(Name::Type, type_)
                .with_scalar::<u8>(Name::Number, number),
            NotationTypeView::Slide { type_, number } => NodeView::new(Name::Slide.text())
                .with_scalar::<StartStop>(Name::Type, type_)
                .with_scalar::<u8>(Name::Number, number),
            NotationTypeView::Ornaments { type_, number } => NodeView::new(Name::Ornaments.text())
                .with_scalar::<StartStop>(Name::Type, type_)
                .with_scalar::<u8>(Name::Number, number),
            NotationTypeView::Technical { type_, number } => NodeView::new(Name::Technical.text())
                .with_scalar::<StartStop>(Name::Type, type_)
                .with_scalar::<u8>(Name::Number, number),
            NotationTypeView::Articulations(x) =>
                Articulations::encode(x, Name::Articulations.text()),
            NotationTypeView::Dynamics { type_, number } => NodeView::new(Name::Dynamics.text())
                .with_scalar::<StartStop>(Name::Type, type_)
                .with_scalar::<u8>(Name::Number, number),
            NotationTypeView::Fermata { type_, number } => NodeView::new(Name::Fermata.text())
                .with_scalar::<StartStop>(Name::Type, type_)
                .with_scalar::<u8>(Name::Number, number),
            NotationTypeView::Arpeggiate { type_, number } => NodeView::new(Name::Arpeggiate.text())
                .with_scalar::<StartStop>(Name::Type, type_)
                .with_scalar::<u8>(Name::Number, number),
            NotationTypeView::NonArpeggiate {
                type_,
                number,
            } => NodeView::new(Name::NonArpeggiate.text())
                .with_scalar::<StartStop>(Name::Type, type_)
                .with_scalar::<u8>(Name::Number, number),
            NotationTypeView::AccidentalMark {
                type_,
                number,
            } => NodeView::new(Name::AccidentalMark.text())
                .with_scalar::<StartStop>(Name::Type, type_)
                .with_scalar::<u8>(Name::Number, number),
            NotationTypeView::OtherNotation {
                type_,
                number,
            } => NodeView::new(Name::OtherNotation.text())
                .with_scalar::<StartStop>(Name::Type, type_)
                .with_scalar::<u8>(Name::Number, number),
        }
    }

    /// The tag of a variant.
    pub open spec fn name_of(v: NotationTypeView) -> Name {
        match v {
            NotationTypeView::Tied { .. } => Name::Tied,
            NotationTypeView::Slur { .. } => Name::Slur,
            NotationTypeView::Tuplet { .. } => Name::Tuplet,
            NotationTypeView::Glissando { .. } => Name::Glissando,
            NotationTypeView::Slide { .. } => Name::Slide,
            NotationTypeView::Ornaments { .. } => Name::Ornaments,
            NotationTypeView::Technical { .. } => Name::Technical,
            NotationTypeView::Articulations(_) => Name::Articulations,
            NotationTypeView::Dynamics { .. } => Name::Dynamics,
            NotationTypeView::Fermata { .. } => Name::Fermata,
            NotationTypeView::Arpeggiate { .. } => Name::Arpeggiate,
            NotationTypeView::NonArpeggiate { .. } => Name::NonArpeggiate,
            NotationTypeView::AccidentalMark { .. } => Name::AccidentalMark,
            NotationTypeView::OtherNotation { .. } => Name::OtherNotation,
        }
    }

    /// An encoded variant bears the tag of the variant.
    pub proof fn encoded_name(v: NotationTypeView)
        ensures
            NotationType::encode_value(v).tag == NotationType::name_of(v).text(),
    {
        broadcast use group_codec;

        reveal(NotationType::encode_value);
        match v {
            NotationTypeView::Articulations(x) => {
                Articulations::encode_tag(x, Name::Articulations.text());
            },
            _ => {
            },
        }
    }

    /// Decoding what was encoded gives the variant back.
    pub proof fn round_trip(v: NotationTypeView)
        requires
            <NotationType as Tagged>::valid(v),
        ensures
            NotationType::decode_node(NotationType::encode_value(v))
                == Ok::<NotationTypeView, DecodeErrorView>(v),
    {
        broadcast use group_codec;

        let n = NotationType::encode_value(v);
        assert(Name::of_text(n.tag) == Some(NotationType::name_of(v))) by {
            NotationType::encoded_name(v);
        }
        match v {
            NotationTypeView::Tied {
                type_,
                bezier_offset,
                bezier_offset2,
                bezier_x,
                bezier_x2,
                bezier_y,
                bezier_y2,
                color,
            } => {
                assert(
                    n.attribute_or::<StartStop>(Name::Type, StartStop::Start)
                        == Ok::<StartStop, DecodeErrorView>(type_)
                ) by {
                    reveal(NotationType::encode_value);
                }
                assert(
                    n.attribute_opt::<Decimal>(Name::BezierOffset)
                        == Ok::<Option<Decimal>, DecodeErrorView>(bezier_offset)
                ) by {
                    reveal(NotationType::encode_value);
                }
                assert(
                    n.attribute_opt::<Decimal>(Name::BezierOffset2)
                        == Ok::<Option<Decimal>, DecodeErrorView>(bezier_offset2)
                ) by {
                    reveal(NotationType::encode_value);
                }
                assert(
                    n.attribute_opt::<Decimal>(Name::BezierX)
                        == Ok::<Option<Decimal>, DecodeErrorView>(bezier_x)
                ) by {
                    reveal(NotationType::encode_value);
                }
                assert(
                    n.attribute_opt::<Decimal>(Name::BezierX2)
                        == Ok::<Option<Decimal>, DecodeErrorView>(bezier_x2)
                ) by {
                    reveal(NotationType::encode_value);
                }
                assert(
                    n.attribute_opt::<Decimal>(Name::BezierY)
                        == Ok::<Option<Decimal>, DecodeErrorView>(bezier_y)
                ) by {
                    reveal(NotationType::encode_value);
                }
                assert(
                    n.attribute_opt::<Decimal>(Name::BezierY2)
                        == Ok::<Option<Decimal>, DecodeErrorView>(bezier_y2)
                ) by {
                    reveal(NotationType::encode_value);
                }
                assert(
                    n.attribute_opt::<String>(Name::Color)
                        == Ok::<Option<Seq<char>>, DecodeErrorView>(color)
                ) by {
                    reveal(NotationType::encode_value);
                }
            },
            NotationTypeView::Slur { type_, number } => {
                assert(
                    n.attribute_or::<StartStop>(Name::Type, StartStop::Start)
                        == Ok::<StartStop, DecodeErrorView>(type_)
                ) by {
                    reveal(NotationType::encode_value);
                }
                assert(
                    n.attribute_or::<u8>(Name::Number, 0)
                        == Ok::<u8, DecodeErrorView>(number)
                ) by {
                    reveal(NotationType::encode_value);
                }
            },
            NotationTypeView::Tuplet { type_, number } => {
                assert(
                    n.attribute_or::<StartStop>(Name::Type, StartStop::Start)
                        == Ok::<StartStop, DecodeErrorView>(type_)
                ) by {
                    reveal(NotationType::encode_value);
                }
                assert(
                    n.attribute_or::<u8>(Name::Number, 0)
                        == Ok::<u8, DecodeErrorView>(number)
                ) by {
                    reveal(NotationType::encode_value);
                }
            },
            NotationTypeView::Glissando { type_, number } => {
                assert(
                    n.attribute_or::<StartStop>(Name::Type, StartStop::Start)
                        == Ok::<StartStop, DecodeErrorView>(type_)
                ) by {
                    reveal(NotationType::encode_value);
                }
                assert(
                    n.attribute_or::<u8>(Name::Number, 0)
                        == Ok::<u8, DecodeErrorView>(number)
                ) by {
                    reveal(NotationType::encode_value);
                }
            },
            NotationTypeView::Slide { type_, number } => {
                assert(
                    n.attribute_or::<StartStop>(Name::Type, StartStop::Start)
                        == Ok::<StartStop, DecodeErrorView>(type_)
                ) by {
                    reveal(NotationType::encode_value);
                }
                assert(
                    n.attribute_or::<u8>(Name::Number, 0)
                        == Ok::<u8, DecodeErrorView>(number)
                ) by {
                    reveal(NotationType::encode_value);
                }
            },
            NotationTypeView::Ornaments { type_, number } => {
                assert(
                    n.attribute_or::<StartStop>(Name::Type, StartStop::Start)
                        == Ok::<StartStop, DecodeErrorView>(type_)
                ) by {
                    reveal(NotationType::encode_value);
                }
                assert(
                    n.attribute_or::<u8>(Name::Number, 0)
                        == Ok::<u8, DecodeErrorView>(number)
                ) by {
                    reveal(NotationType::encode_value);
                }
            },
            NotationTypeView::Technical { type_, number } => {
                assert(
                    n.attribute_or::<StartStop>(Name::Type, StartStop::Start)
                        == Ok::<StartStop, DecodeErrorView>(type_)
                ) by {
                    reveal(NotationType::encode_value);
                }
                assert(
                    n.attribute_or::<u8>(Name::Number, 0)
                        == Ok::<u8, DecodeErrorView>(number)
                ) by {
                    reveal(NotationType::encode_value);
                }
            },
            NotationTypeView::Articulations(x) => {
                reveal(NotationType::encode_value);
                Articulations::decode_encode(x, Name::Articulations.text());
            },
            NotationTypeView::Dynamics { type_, number } => {
                assert(
                    n.attribute_or::<StartStop>(Name::Type, StartStop::Start)
                        == Ok::<StartStop, DecodeErrorView>(type_)
                ) by {
                    reveal(NotationType::encode_value);
                }
                assert(
                    n.attribute_or::<u8>(Name::Number, 0)
                        == Ok::<u8, DecodeErrorView>(number)
                ) by {
                    reveal(NotationType::encode_value);
                }
            },
            NotationTypeView::Fermata { type_, number } => {
                assert(
                    n.attribute_or::<StartStop>(Name::Type, StartStop::Start)
                        == Ok::<StartStop, DecodeErrorView>(type_)
                ) by {
                    reveal(NotationType::encode_value);
                }
                assert(
                    n.attribute_or::<u8>(Name::Number, 0)
                        == Ok::<u8, DecodeErrorView>(number)
                ) by {
                    reveal(NotationType::encode_value);
                }
            },
            NotationTypeView::Arpeggiate { type_, number } => {
                assert(
                    n.attribute_or::<StartStop>(Name::Type, StartStop::Start)
                        == Ok::<StartStop, DecodeErrorView>(type_)
                ) by {
                    reveal(NotationType::encode_value);
                }
                assert(
                    n.attribute_or::<u8>(Name::Number, 0)
                        == Ok::<u8, DecodeErrorView>(number)
                ) by {
                    reveal(NotationType::encode_value);
                }
            },
            NotationTypeView::NonArpeggiate { type_, number } => {
                assert(
                    n.attribute_or::<StartStop>(Name::Type, StartStop::Start)
                        == Ok::<StartStop, DecodeErrorView>(type_)
                ) by {
                    reveal(NotationType::encode_value);
                }
                assert(
                    n.attribute_or::<u8>(Name::Number, 0)
                        == Ok::<u8, DecodeErrorView>(number)
                ) by {
                    reveal(NotationType::encode_value);
                }
            },
            NotationTypeView::AccidentalMark { type_, number } => {
                assert(
                    n.attribute_or::<StartStop>(Name::Type, StartStop::Start)
                        == Ok::<StartStop, DecodeErrorView>(type_)
                ) by {
                    reveal(NotationType::encode_value);
                }
                assert(
                    n.attribute_or::<u8>(Name::Number, 0)
                        == Ok::<u8, DecodeErrorView>(number)
                ) by {
                    reveal(NotationType::encode_value);
                }
            },
            NotationTypeView::OtherNotation { type_, number } => {
                assert(
                    n.attribute_or::<StartStop>(Name::Type, StartStop::Start)
                        == Ok::<StartStop, DecodeErrorView>(type_)
                ) by {
                    reveal(NotationType::encode_value);
                }
                assert(
                    n.attribute_or::<u8>(Name::Number, 0)
                        == Ok::<u8, DecodeErrorView>(number)
                ) by {
                    reveal(NotationType::encode_value);
                }
            },
        }
        reveal(NotationType::decode_node);
    }

    /// Decoding gives valid values only.
    pub proof fn decoded_valid(n: NodeView)
        ensures
            NotationType::decode_node(n) matches Ok(v) ==> <NotationType as Tagged>::valid(v),
    {
        reveal(NotationType::decode_node);
        Articulations::decode_valid(n);
    }

    /// Decodes an element.
    pub fn read_node(node: &Node) -> (r: Result<NotationType, DecodeError>)
        ensures
            r matches Ok(v) ==>
                NotationType::decode_node(node.deep_view())
                    == Ok::<NotationTypeView, DecodeErrorView>(
                v.deep_view(),
            ),
            r matches Err(e) ==>
                NotationType::decode_node(node.deep_view())
                    == Err::<NotationTypeView, DecodeErrorView>(
                e.deep_view(),
            ),
    {
        proof {
            reveal(NotationType::decode_node);
        }
        match Name::from_str(node.tag_str()) {
            Some(Name::Tied) => {
                let type_ = node.attribute_or::<StartStop>(Name::Type, StartStop::Start)?;
                let bezier_offset = node.attribute_opt::<Decimal>(Name::BezierOffset)?;
                let bezier_offset2 = node.attribute_opt::<Decimal>(Name::BezierOffset2)?;
                let bezier_x = node.attribute_opt::<Decimal>(Name::BezierX)?;
                let bezier_x2 = node.attribute_opt::<Decimal>(Name::BezierX2)?;
                let bezier_y = node.attribute_opt::<Decimal>(Name::BezierY)?;
                let bezier_y2 = node.attribute_opt::<Decimal>(Name::BezierY2)?;
                let color = node.attribute_opt::<String>(Name::Color)?;
                Ok(NotationType::Tied {
                    type_,
                    bezier_offset,
                    bezier_offset2,
                    bezier_x,
                    bezier_x2,
                    bezier_y,
                    bezier_y2,
                    color,
                })
            },
            Some(Name::Slur) => {
                let type_ = node.attribute_or::<StartStop>(Name::Type, StartStop::Start)?;
                let number = node.attribute_or::<u8>(Name::Number, 0)?;
                Ok(NotationType::Slur { type_, number })
            },
            Some(Name::Tuplet) => {
                let type_ = node.attribute_or::<StartStop>(Name::Type, StartStop::Start)?;
                let number = node.attribute_or::<u8>(Name::Number, 0)?;
                Ok(NotationType::Tuplet { type_, number })
            },
            Some(Name::Glissando) => {
                let type_ = node.attribute_or::<StartStop>(Name::Type, StartStop::Start)?;
                let number = node.attribute_or::<u8>(Name::Number, 0)?;
                Ok(NotationType::Glissando { type_, number })
            },
            Some(Name::Slide) => {
                let type_ = node.attribute_or::<StartStop>(Name::Type, StartStop::Start)?;
                let number = node.attribute_or::<u8>(Name::Number, 0)?;
                Ok(NotationType::Slide { type_, number })
            },
            Some(Name::Ornaments) => {
                let type_ = node.attribute_or::<StartStop>(Name::Type, StartStop::Start)?;
                let number = node.attribute_or::<u8>(Name::Number, 0)?;
                Ok(NotationType::Ornaments { type_, number })
            },
            Some(Name::Technical) => {
                let type_ = node.attribute_or::<StartStop>(Name::Type, StartStop::Start)?;
                let number = node.attribute_or::<u8>(Name::Number, 0)?;
                Ok(NotationType::Technical { type_, number })
            },
            Some(Name::Articulations) => match Articulations::from_node(node) {
                Ok(x) => Ok(NotationType::Articulations(x)),
                Err(e) => Err(e),
            },
            Some(Name::Dynamics) => {
                let type_ = node.attribute_or::<StartStop>(Name::Type, StartStop::Start)?;
                let number = node.attribute_or::<u8>(Name::Number, 0)?;
                Ok(NotationType::Dynamics { type_, number })
            },
            Some(Name::Fermata) => {
                let type_ = node.attribute_or::<StartStop>(Name::Type, StartStop::Start)?;
                let number = node.attribute_or::<u8>(Name::Number, 0)?;
                Ok(NotationType::Fermata { type_, number })
            },
            Some(Name::Arpeggiate) => {
                let type_ = node.attribute_or::<StartStop>(Name::Type, StartStop::Start)?;
                let number = node.attribute_or::<u8>(Name::Number, 0)?;
                Ok(NotationType::Arpeggiate { type_, number })
            },
            Some(Name::NonArpeggiate) => {
                let type_ = node.attribute_or::<StartStop>(Name::Type, StartStop::Start)?;
                let number = node.attribute_or::<u8>(Name::Number, 0)?;
                Ok(NotationType::NonArpeggiate { type_, number })
            },
            Some(Name::AccidentalMark) => {
                let type_ = node.attribute_or::<StartStop>(Name::Type, StartStop::Start)?;
                let number = node.attribute_or::<u8>(Name::Number, 0)?;
                Ok(NotationType::AccidentalMark { type_, number })
            },
            Some(Name::OtherNotation) => {
                let type_ = node.attribute_or::<StartStop>(Name::Type, StartStop::Start)?;
                let number = node.attribute_or::<u8>(Name::Number, 0)?;
                Ok(NotationType::OtherNotation { type_, number })
            },
            _ => Err(DecodeError::at(ErrorKind::StructuralError, node.tag_str())),
        }
    }

    /// Encodes a variant.
    pub fn write_node(&self) -> (r: Node)
        ensures
            r.deep_view() == NotationType::encode_value(self.deep_view()),
    {
        proof {
            reveal(NotationType::encode_value);
        }
        match self {
            NotationType::Tied {
                type_,
                bezier_offset,
                bezier_offset2,
                bezier_x,
                bezier_x2,
                bezier_y,
                bezier_y2,
                color,
            } => {
                let mut node = Node::new(Name::Tied.as_str());
                node.put_scalar::<StartStop>(Name::Type, type_);
                node.put_scalar_opt::<Decimal>(Name::BezierOffset, bezier_offset);
                node.put_scalar_opt::<Decimal>(Name::BezierOffset2, bezier_offset2);
                node.put_scalar_opt::<Decimal>(Name::BezierX, bezier_x);
                node.put_scalar_opt::<Decimal>(Name::BezierX2, bezier_x2);
                node.put_scalar_opt::<Decimal>(Name::BezierY, bezier_y);
                node.put_scalar_opt::<Decimal>(Name::BezierY2, bezier_y2);
                node.put_scalar_opt::<String>(Name::Color, color);
                node
            },
            NotationType::Slur { type_, number } => {
                let mut node = Node::new(Name::Slur.as_str());
                node.put_scalar::<StartStop>(Name::Type, type_);
                node.put_scalar::<u8>(Name::Number, number);
                node
            },
            NotationType::Tuplet { type_, number } => {
                let mut node = Node::new(Name::Tuplet.as_str());
                node.put_scalar::<StartStop>(Name::Type, type_);
                node.put_scalar::<u8>(Name::Number, number);
                node
            },
            NotationType::Glissando { type_, number } => {
                let mut node = Node::new(Name::Glissando.as_str());
                node.put_scalar::<StartStop>(Name::Type, type_);
                node.put_scalar::<u8>(Name::Number, number);
                node
            },
            NotationType::Slide { type_, number } => {
                let mut node = Node::new(Name::Slide.as_str());
                node.put_scalar::<StartStop>(Name::Type, type_);
                node.put_scalar::<u8>(Name::Number, number);
                node
            },
            NotationType::Ornaments { type_, number } => {
                let mut node = Node::new(Name::Ornaments.as_str());
                node.put_scalar::<StartStop>(Name::Type, type_);
                node.put_scalar::<u8>(Name::Number, number);
                node
            },
            NotationType::Technical { type_, number } => {
                let mut node = Node::new(Name::Technical.as_str());
                node.put_scalar::<StartStop>(Name::Type, type_);
                node.put_scalar::<u8>(Name::Number, number);
                node
            },
            NotationType::Articulations(x) => x.to_node(Name::Articulations.as_str()),
            NotationType::Dynamics { type_, number } => {
                let mut node = Node::new(Name::Dynamics.as_str());
                node.put_scalar::<StartStop>(Name::Type, type_);
                node.put_scalar::<u8>(Name::Number, number);
                node
            },
            NotationType::Fermata { type_, number } => {
                let mut node = Node::new(Name::Fermata.as_str());
                node.put_scalar::<StartStop>(Name::Type, type_);
                node.put_scalar::<u8>(Name::Number, number);
                node
            },
            NotationType::Arpeggiate { type_, number } => {
                let mut node = Node::new(Name::Arpeggiate.as_str());
                node.put_scalar::<StartStop>(Name::Type, type_);
                node.put_scalar::<u8>(Name::Number, number);
                node
            },
            NotationType::NonArpeggiate { type_, number } => {
                let mut node = Node::new(Name::NonArpeggiate.as_str());
                node.put_scalar::<StartStop>(Name::Type, type_);
                node.put_scalar::<u8>(Name::Number, number);
                node
            },
            NotationType::AccidentalMark { type_, number } => {
                let mut node = Node::new(Name::AccidentalMark.as_str());
                node.put_scalar::<StartStop>(Name::Type, type_);
                node.put_scalar::<u8>(Name::Number, number);
                node
            },
            NotationType::OtherNotation { type_, number } => {
                let mut node = Node::new(Name::OtherNotation.as_str());
                node.put_scalar::<StartStop>(Name::Type, type_);
                node.put_scalar::<u8>(Name::Number, number);
                node
            },
        }
    }
}

impl Tagged for NotationType {
    open spec fn valid(v: NotationTypeView) -> bool {
        match v {
            NotationTypeView::Tied { .. } => true,
            NotationTypeView::Slur { .. } => true,
            NotationTypeView::Tuplet { .. } => true,
            NotationTypeView::Glissando { .. } => true,
            NotationTypeView::Slide { .. } => true,
            NotationTypeView::Ornaments { .. } => true,
            NotationTypeView::Technical { .. } => true,
            NotationTypeView::Articulations(x) => Articulations::valid(x),
            NotationTypeView::Dynamics { .. } => true,
            NotationTypeView::Fermata { .. } => true,
            NotationTypeView::Arpeggiate { .. } => true,
            NotationTypeView::NonArpeggiate { .. } => true,
            NotationTypeView::AccidentalMark { .. } => true,
            NotationTypeView::OtherNotation { .. } => true,
        }
    }

    open spec fn decode(n: NodeView) -> Result<NotationTypeView, DecodeErrorView> {
        NotationType::decode_node(n)
    }

    open spec fn encode(v: NotationTypeView) -> NodeView {
        NotationType::encode_value(v)
    }

    open spec fn name(v: NotationTypeView) -> Name {
        NotationType::name_of(v)
    }

    proof fn encode_name(v: NotationTypeView) {
        NotationType::encoded_name(v);
    }

    proof fn decode_encode(v: NotationTypeView) {
        NotationType::round_trip(v);
    }

    proof fn decode_valid(n: NodeView) {
        NotationType::decoded_valid(n);
    }

    fn from_node(node: &Node) -> (r: Result<NotationType, DecodeError>) {
        NotationType::read_node(node)
    }

    fn to_node(&self) -> (r: Node) {
        self.write_node()
    }
}

/// A dot of a dotted note. It is counted and carries nothing.
#[derive(Clone, Copy, Debug, PartialEq, Eq)]
pub struct Dot {}

impl DeepView for Dot {
    type V = Dot;

    open spec fn deep_view(&self) -> Dot {
        *self
    }
}

/// `count` dots.
pub open spec fn dots(count: nat) -> Seq<Dot> {
    Seq::new(count, |i: int| Dot {  })
}

/// `count` dots.
pub fn make_dots(count: usize) -> (r: Vec<Dot>)
    ensures
        r.deep_view() == dots(count as nat),
{
    let mut r: Vec<Dot> = Vec::new();
    let mut i: usize = 0;
    while i < count
        invariant
            i <= count,
            r.len() == i,
        decreases count - i,
    {
        r.push(Dot {  });
        i = i + 1;
    }
    assert(r.deep_view() =~= dots(count as nat));
    r
}

/// Whether a lyric stands below the staff. One without a placement stands
/// above.
pub open spec fn is_below(l: LyricView) -> bool {
    l.placement == Some(Placement::Below)
}

/// Whether all of the lyrics stand on one side of the staff.
pub open spec fn all_placed(ls: Seq<LyricView>, below: bool) -> bool {
    forall|i: int| 0 <= i < ls.len() ==> is_below(#[trigger] ls[i]) == below
}

/// The lyrics on one side of the staff, in their order.
pub open spec fn lyrics_placed(all: Seq<LyricView>, below: bool) -> Seq<LyricView>
    decreases all.len(),
{
    if all.len() == 0 {
        Seq::empty()
    } else if is_below(all.last()) == below {
        lyrics_placed(all.drop_last(), below).push(all.last())
    } else {
        lyrics_placed(all.drop_last(), below)
    }
}

/// The lyrics of a note element on one side of the staff.
pub open spec fn lyrics_of(n: NodeView, below: bool) -> Result<Seq<LyricView>, DecodeErrorView> {
    match n.elements::<Lyric>(Name::Lyric) {
        Ok(all) => Ok(lyrics_placed(all, below)),
        Err(e) => Err(e),
    }
}

/// The lyrics picked for one side stand on that side, are valid where all
/// were, and are all of them or none where all stood on one side.
pub proof fn lemma_lyrics_placed(all: Seq<LyricView>, below: bool)
    ensures
        all_placed(lyrics_placed(all, below), below),
        all_valid::<Lyric>(all) ==> all_valid::<Lyric>(lyrics_placed(all, below)),
        all_placed(all, below) ==> lyrics_placed(all, below) == all,
        all_placed(all, !below) ==> lyrics_placed(all, below) == Seq::<LyricView>::empty(),
    decreases all.len(),
{
    if all.len() > 0 {
        lemma_lyrics_placed(all.drop_last(), below);
        let rest = lyrics_placed(all.drop_last(), below);
        assert(all.drop_last().push(all.last()) =~= all);
        if all_valid::<Lyric>(all) {
            assert forall|i: int| 0 <= i < all.len() - 1 implies Lyric::valid(
                #[trigger] all.drop_last()[i],
            ) by {
                assert(all.drop_last()[i] == all[i]);
            }
            assert(Lyric::valid(all[all.len() - 1]));
        }
        if all_placed(all, below) {
            assert forall|i: int| 0 <= i < all.len() - 1 implies is_below(
                #[trigger] all.drop_last()[i],
            ) == below by {
                assert(all.drop_last()[i] == all[i]);
            }
            assert(is_below(all[all.len() - 1]) == below);
        }
        if all_placed(all, !below) {
            assert forall|i: int| 0 <= i < all.len() - 1 implies is_below(
                #[trigger] all.drop_last()[i],
            ) == !below by {
                assert(all.drop_last()[i] == all[i]);
            }
            assert(is_below(all[all.len() - 1]) == !below);
        }
    }
}

/// Picking from two runs of lyrics is picking from the first and then from
/// the second.
pub proof fn lemma_lyrics_placed_add(a: Seq<LyricView>, b: Seq<LyricView>, below: bool)
    ensures
        lyrics_placed(a + b, below) == lyrics_placed(a, below) + lyrics_placed(b, below),
    decreases b.len(),
{
    if b.len() == 0 {
        assert(a + b =~= a);
        assert(lyrics_placed(a, below) + Seq::<LyricView>::empty() =~= lyrics_placed(a, below));
    } else {
        assert((a + b).drop_last() =~= a + b.drop_last());
        lemma_lyrics_placed_add(a, b.drop_last(), below);
        if is_below(b.last()) == below {
            assert(lyrics_placed(a, below) + lyrics_placed(b.drop_last(), below).push(b.last())
                =~= (lyrics_placed(a, below) + lyrics_placed(b.drop_last(), below)).push(
                b.last(),
            ));
        }
    }
}

/// The lyrics that decode from a note element are valid and stand on the
/// side asked for.
pub proof fn lemma_lyrics_of_valid(n: NodeView, below: bool)
    ensures
        lyrics_of(n, below) matches Ok(ls) ==> all_valid::<Lyric>(ls) && all_placed(ls, below),
{
    reveal(NodeView::elements);
    lemma_decode_elements_valid::<Lyric>(n.children_with_tag(Name::Lyric.text()), n.tag);
    if let Ok(all) = n.elements::<Lyric>(Name::Lyric) {
        lemma_lyrics_placed(all, below);
    }
}

/// Lyrics written side by side decode to the same lyrics, each on its side.
pub proof fn lemma_lyrics_written(above: Seq<LyricView>, below: Seq<LyricView>, tag: Seq<char>)
    requires
        all_valid::<Lyric>(above),
        all_placed(above, false),
        all_valid::<Lyric>(below),
        all_placed(below, true),
    ensures
        decode_elements::<Lyric>(
            encode_elements::<Lyric>(Name::Lyric, above) + encode_elements::<Lyric>(
                Name::Lyric,
                below,
            ),
            tag,
        ) == Ok::<Seq<LyricView>, DecodeErrorView>(above + below),
        lyrics_placed(above + below, false) == above,
        lyrics_placed(above + below, true) == below,
{
    let both = above + below;
    assert(encode_elements::<Lyric>(Name::Lyric, above) + encode_elements::<Lyric>(
        Name::Lyric,
        below,
    ) =~= encode_elements::<Lyric>(Name::Lyric, both));
    assert(all_valid::<Lyric>(both)) by {
        assert forall|i: int| 0 <= i < both.len() implies Lyric::valid(#[trigger] both[i]) by {
            if i < above.len() {
                assert(both[i] == above[i]);
            } else {
                assert(both[i] == below[i - above.len()]);
            }
        }
    }
    lemma_decode_encode_elements::<Lyric>(Name::Lyric, both, tag);
    lemma_lyrics_placed_add(above, below, false);
    lemma_lyrics_placed_add(above, below, true);
    lemma_lyrics_placed(above, false);
    lemma_lyrics_placed(above, true);
    lemma_lyrics_placed(below, false);
    lemma_lyrics_placed(below, true);
    assert(above + Seq::<LyricView>::empty() =~= above);
    assert(Seq::<LyricView>::empty() + below =~= below);
}

/// The lyrics of a note element on one side of the staff.
pub fn read_lyrics(node: &Node, below: bool) -> (r: Result<Vec<Lyric>, DecodeError>)
    ensures
        r matches Ok(v) ==> lyrics_of(node.deep_view(), below) == Ok::<
            Seq<LyricView>,
            DecodeErrorView,
        >(v.deep_view()),
        r matches Err(e) ==> lyrics_of(node.deep_view(), below) == Err::<
            Seq<LyricView>,
            DecodeErrorView,
        >(e.deep_view()),
{
    proof {
        reveal(NodeView::elements);
    }
    let mut all = match node.elements::<Lyric>(Name::Lyric) {
        Ok(all) => all,
        Err(e) => {
            return Err(e);
        },
    };
    let ghost every = all.deep_view();
    let total: usize = all.len();
    let mut kept: Vec<Lyric> = Vec::new();
    let mut i: usize = 0;
    proof {
        assert(every.subrange(0, total as int) =~= every);
        assert(kept.deep_view() =~= lyrics_placed(every.subrange(0, 0), below));
    }
    while i < total
        invariant
            i <= total,
            total == every.len(),
            all.len() == total - i,
            all.deep_view() == every.subrange(i as int, total as int),
            kept.deep_view() == lyrics_placed(every.subrange(0, i as int), below),
        decreases total - i,
    {
        let ghost rest = all.deep_view();
        let ghost items = all@;
        let ghost before = kept.deep_view();
        let lyric = all.remove(0);
        proof {
            assert(lyric.deep_view() == rest[0]);
            assert forall|j: int| 0 <= j < all.len() implies all.deep_view()[j] == every[i + 1
                + j] by {
                assert(all@[j] == items[j + 1]);
                assert(rest[j + 1] == items[j + 1].deep_view());
                assert(rest[j + 1] == every[i + 1 + j]);
            }
            assert(all.deep_view() =~= every.subrange(i + 1, total as int));
            assert(every.subrange(0, i + 1).drop_last() =~= every.subrange(0, i as int));
            assert(every.subrange(0, i + 1).last() == lyric.deep_view());
        }
        let low = match lyric.placement {
            Some(Placement::Below) => true,
            _ => false,
        };
        if low == below {
            kept.push(lyric);
            proof {
                assert(kept.deep_view() =~= before.push(lyric.deep_view()));
            }
        }
        i = i + 1;
    }
    proof {
        assert(every.subrange(0, total as int) =~= every);
    }
    Ok(kept)
}

impl Note {
    /// A note has a pitch or is a rest, never both.
    pub open spec fn rule(v: NoteView) -> bool {
        !(v.pitch is Some && v.rest)
    }

    /// Whether the note obeys the rule of its kind.
    pub fn obeys_rule(&self) -> (r: bool)
        ensures
            r == Note::rule(self.deep_view()),
    {
        !(self.pitch.is_some() && self.rest)
    }
}

} // verus!
