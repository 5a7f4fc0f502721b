//! Fretboard diagrams.
use crate::codec::{
    all_valid, Element, element_nodes, encode_elements, group_codec, lemma_decode_elements_valid,
    lemma_decode_encode_elements, text_nodes,
};
use crate::error::{DecodeError, DecodeErrorView};
use crate::names::Name;
use crate::node::{Node, NodeView};
use crate::note::StartStop;
use crate::printable_value::{LeftRight, PrintableValue, PrintableValueView};
use crate::scalar::Scalar;
use vstd::prelude::*;

verus! {

/// The first fret of a frame.
#[derive(Clone, Debug, PartialEq)]
pub struct FirstFret {
    /// The text of the element; zero where it has none.
    pub content: u8,
    /// The attribute `location`; `LeftRight::Left` where it is not written.
    pub location: LeftRight,
    /// The attribute `text`; the empty text where it is not written.
    pub text: String,
}

/// The mathematical value of a [`FirstFret`].
pub struct FirstFretView {
    pub content: u8,
    pub location: LeftRight,
    pub text: Seq<char>,
}

impl DeepView for FirstFret {
    type V = FirstFretView;

    open spec fn deep_view(&self) -> FirstFretView {
        FirstFretView {
            content: self.content.deep_view(),
            location: self.location.deep_view(),
            text: self.text.deep_view(),
        }
    }
}

impl FirstFret {
    /// The value with every field at its default.
    pub open spec fn initial() -> FirstFretView {
        FirstFretView {
            content: 0,
            location: LeftRight::Left,
            text: Seq::<char>::empty(),
        }
    }
}

impl Default for FirstFret {
    fn default() -> (r: FirstFret)
        ensures
            r.deep_view() == FirstFret::initial(),
    {
        let r = FirstFret {
            content: 0,
            location: LeftRight::Left,
            text: String::new(),
        };
        r
    }
}

impl FirstFret {
    /// The value that an element denotes. The fields are read in the order in
    /// which they are declared; the first one that fails gives the error.
    #[verifier::opaque]
    pub open spec fn decode_node(n: NodeView) -> Result<FirstFretView, DecodeErrorView> {
        let content = n.content_or::<u8>(0);
        let location = n.attribute_or::<LeftRight>(Name::Location, LeftRight::Left);
        let text = n.attribute_or::<String>(Name::Text, Seq::<char>::empty());
        if content is Err {
            Err(content->Err_0)
        } else if location is Err {
            Err(location->Err_0)
        } else if text is Err {
            Err(text->Err_0)
        } else {
            Ok(
                FirstFretView {
                    content: content->Ok_0,
                    location: location->Ok_0,
                    text: text->Ok_0,
                }
            )
        }
    }

    /// The element that a value is written as.
    #[verifier::opaque]
    pub open spec fn encode_value(v: FirstFretView, tag: Seq<char>) -> NodeView {
        NodeView::new(tag)
            .with_content::<u8>(v.content)
            .with_scalar::<LeftRight>(Name::Location, v.location)
            .with_scalar::<String>(Name::Text, v.text)
    }

    /// An encoded element bears the tag it was given.
    pub proof fn encoded_tag(v: FirstFretView, tag: Seq<char>)
        ensures
            FirstFret::encode_value(v, tag).tag == tag,
    {
        broadcast use group_codec;

        reveal(FirstFret::encode_value);
    }

    /// Decoding what was encoded gives the value back.
    pub proof fn round_trip(v: FirstFretView, tag: Seq<char>)
        requires
            <FirstFret as Element>::valid(v),
        ensures
            FirstFret::decode_node(FirstFret::encode_value(v, tag))
                == Ok::<FirstFretView, DecodeErrorView>(v),
    {
        broadcast use group_codec;

        let n = FirstFret::encode_value(v, tag);
        assert(n.content_or::<u8>(0) == Ok::<u8, DecodeErrorView>(v.content)) by {
            reveal(FirstFret::encode_value);
            reveal(NodeView::content_or);
            reveal(NodeView::content);
            u8::parse_text(v.content);
        }
        assert(
            n.attribute_or::<LeftRight>(Name::Location, LeftRight::Left)
                == Ok::<LeftRight, DecodeErrorView>(v.location)
        ) by {
            reveal(FirstFret::encode_value);
        }
        assert(
            n.attribute_or::<String>(Name::Text, Seq::<char>::empty())
                == Ok::<Seq<char>, DecodeErrorView>(v.text)
        ) by {
            reveal(FirstFret::encode_value);
        }
        reveal(FirstFret::decode_node);
    }

    /// Decoding gives valid values only.
    pub proof fn decoded_valid(n: NodeView)
        ensures
            FirstFret::decode_node(n) matches Ok(v) ==> <FirstFret as Element>::valid(v),
    {
        reveal(FirstFret::decode_node);
    }

    /// Decodes an element.
    pub fn read_node(node: &Node) -> (r: Result<FirstFret, DecodeError>)
        ensures
            r matches Ok(v) ==>
                FirstFret::decode_node(node.deep_view()) == Ok::<FirstFretView, DecodeErrorView>(
                v.deep_view(),
            ),
            r matches Err(e) ==>
                FirstFret::decode_node(node.deep_view()) == Err::<FirstFretView, DecodeErrorView>(
                e.deep_view(),
            ),
    {
        proof {
            reveal(FirstFret::decode_node);
        }
        let content = node.content_or::<u8>(0)?;
        let location = node.attribute_or::<LeftRight>(Name::Location, LeftRight::Left)?;
        let text = node.attribute_or::<String>(Name::Text, String::new())?;
        Ok(FirstFret { content, location, text })
    }

    /// Encodes a value as an element with the given tag.
    pub fn write_node(&self, tag: &str) -> (r: Node)
        ensures
            r.deep_view() == FirstFret::encode_value(self.deep_view(), tag@),
    {
        proof {
            reveal(FirstFret::encode_value);
        }
        let mut node = Node::new(tag);
        node.put_content::<u8>(&self.content);
        node.put_scalar::<LeftRight>(Name::Location, &self.location);
        node.put_scalar::<String>(Name::Text, &self.text);
        node
    }
}

impl Element for FirstFret {
    open spec fn valid(v: FirstFretView) -> bool {
        true
    }

    open spec fn decode(n: NodeView) -> Result<FirstFretView, DecodeErrorView> {
        FirstFret::decode_node(n)
    }

    open spec fn encode(v: FirstFretView, tag: Seq<char>) -> NodeView {
        FirstFret::encode_value(v, tag)
    }

    proof fn encode_tag(v: FirstFretView, tag: Seq<char>) {
        FirstFret::encoded_tag(v, tag);
    }

    proof fn decode_encode(v: FirstFretView, tag: Seq<char>) {
        FirstFret::round_trip(v, tag);
    }

    proof fn decode_valid(n: NodeView) {
        FirstFret::decoded_valid(n);
    }

    fn from_node(node: &Node) -> (r: Result<FirstFret, DecodeError>) {
        FirstFret::read_node(node)
    }

    fn to_node(&self, tag: &str) -> (r: Node) {
        self.write_node(tag)
    }
}

/// A barre of a frame.
#[derive(Clone, Debug, PartialEq)]
pub struct Barre {
    /// The attribute `location`; `StartStop::Start` where it is not
    /// written.
    pub type_: StartStop,
    /// The attribute `text`, if it is written.
    pub color: Option<String>,
}

/// The mathematical value of a [`Barre`].
pub struct BarreView {
    pub type_: StartStop,
    pub color: Option<Seq<char>>,
}

impl DeepView for Barre {
    type V = BarreView;

    open spec fn deep_view(&self) -> BarreView {
        BarreView {
            type_: self.type_.deep_view(),
            color: self.color.deep_view(),
        }
    }
}

impl Barre {
    /// The value with every field at its default.
    pub open spec fn initial() -> BarreView {
        BarreView {
            type_: StartStop::Start,
            color: None,
        }
    }
}

impl Default for Barre {
    fn default() -> (r: Barre)
        ensures
            r.deep_view() == Barre::initial(),
    {
        let r = Barre {
            type_: StartStop::Start,
            color: None,
        };
        r
    }
}

impl Barre {
    /// The value that an element denotes. The fields are read in the order in
    /// which they are declared; the first one that fails gives the error.
    #[verifier::opaque]
    pub open spec fn decode_node(n: NodeView) -> Result<BarreView, DecodeErrorView> {
        let type_ = n.attribute_or::<StartStop>(Name::Location, StartStop::Start);
        let color = n.attribute_opt::<String>(Name::Text);
        if type_ is Err {
            Err(type_->Err_0)
        } else if color is Err {
            Err(color->Err_0)
        } else {
            Ok(
                BarreView {
                    type_: type_->Ok_0,
                    color: color->Ok_0,
                }
            )
        }
    }

    /// The element that a value is written as.
    #[verifier::opaque]
    pub open spec fn encode_value(v: BarreView, tag: Seq<char>) -> NodeView {
        NodeView::new(tag)
            .with_scalar::<StartStop>(Name::Location, v.type_)
            .with_scalar_opt::<String>(Name::Text, v.color)
    }

    /// An encoded element bears the tag it was given.
    pub proof fn encoded_tag(v: BarreView, tag: Seq<char>)
        ensures
            Barre::encode_value(v, tag).tag == tag,
    {
        broadcast use group_codec;

        reveal(Barre::encode_value);
    }

    /// Decoding what was encoded gives the value back.
    pub proof fn round_trip(v: BarreView, tag: Seq<char>)
        requires
            <Barre as Element>::valid(v),
        ensures
            Barre::decode_node(Barre::encode_value(v, tag)) == Ok::<BarreView, DecodeErrorView>(v),
    {
        broadcast use group_codec;

        let n = Barre::encode_value(v, tag);
        assert(
            n.attribute_or::<StartStop>(Name::Location, StartStop::Start)
                == Ok::<StartStop, DecodeErrorView>(v.type_)
        ) by {
            reveal(Barre::encode_value);
        }
        assert(
            n.attribute_opt::<String>(Name::Text)
                == Ok::<Option<Seq<char>>, DecodeErrorView>(v.color)
        ) by {
            reveal(Barre::encode_value);
        }
        reveal(Barre::decode_node);
    }

    /// Decoding gives valid values only.
    pub proof fn decoded_valid(n: NodeView)
        ensures
            Barre::decode_node(n) matches Ok(v) ==> <Barre as Element>::valid(v),
    {
        reveal(Barre::decode_node);
    }

    /// Decodes an element.
    pub fn read_node(node: &Node) -> (r: Result<Barre, DecodeError>)
        ensures
            r matches Ok(v) ==>
                Barre::decode_node(node.deep_view()) == Ok::<BarreView, DecodeErrorView>(
                v.deep_view(),
            ),
            r matches Err(e) ==>
                Barre::decode_node(node.deep_view()) == Err::<BarreView, DecodeErrorView>(
                e.deep_view(),
            ),
    {
        proof {
            reveal(Barre::decode_node);
        }
        let type_ = node.attribute_or::<StartStop>(Name::Location, StartStop::Start)?;
        let color = node.attribute_opt::<String>(Name::Text)?;
        Ok(Barre { type_, color })
    }

    /// Encodes a value as an element with the given tag.
    pub fn write_node(&self, tag: &str) -> (r: Node)
        ensures
            r.deep_view() == Barre::encode_value(self.deep_view(), tag@),
    {
        proof {
            reveal(Barre::encode_value);
        }
        let mut node = Node::new(tag);
        node.put_scalar::<StartStop>(Name::Location, &self.type_);
        node.put_scalar_opt::<String>(Name::Text, &self.color);
        node
    }
}

impl Element for Barre {
    open spec fn valid(v: BarreView) -> bool {
        true
    }

    open spec fn decode(n: NodeView) -> Result<BarreView, DecodeErrorView> {
        Barre::decode_node(n)
    }

    open spec fn encode(v: BarreView, tag: Seq<char>) -> NodeView {
        Barre::encode_value(v, tag)
    }

    proof fn encode_tag(v: BarreView, tag: Seq<char>) {
        Barre::encoded_tag(v, tag);
    }

    proof fn decode_encode(v: BarreView, tag: Seq<char>) {
        Barre::round_trip(v, tag);
    }

    proof fn decode_valid(n: NodeView) {
        Barre::decoded_valid(n);
    }

    fn from_node(node: &Node) -> (r: Result<Barre, DecodeError>) {
        Barre::read_node(node)
    }

    fn to_node(&self, tag: &str) -> (r: Node) {
        self.write_node(tag)
    }
}

/// One string of a frame.
#[derive(Clone, Debug, PartialEq)]
pub struct FrameNote {
    /// The child `string`; with every field at its default where it is not
    /// there.
    pub content: PrintableValue<u8>,
    /// The child `fret`; with every field at its default where it is not
    /// there.
    pub fret: PrintableValue<u8>,
    /// The child `fingering`, if it is there.
    pub fingering: Option<PrintableValue<String>>,
    /// The child `barre`, if it is there.
    pub barre: Option<PrintableValue<String>>,
}

/// The mathematical value of a [`FrameNote`].
pub struct FrameNoteView {
    pub content: PrintableValueView<u8>,
    pub fret: PrintableValueView<u8>,
    pub fingering: Option<PrintableValueView<Seq<char>>>,
    pub barre: Option<PrintableValueView<Seq<char>>>,
}

impl DeepView for FrameNote {
    type V = FrameNoteView;

    open spec fn deep_view(&self) -> FrameNoteView {
        FrameNoteView {
            content: self.content.deep_view(),
            fret: self.fret.deep_view(),
            fingering: self.fingering.deep_view(),
            barre: self.barre.deep_view(),
        }
    }
}

impl FrameNote {
    /// The value with every field at its default.
    pub open spec fn initial() -> FrameNoteView {
        FrameNoteView {
            content: PrintableValue::<u8>::initial(),
            fret: PrintableValue::<u8>::initial(),
            fingering: None,
            barre: None,
        }
    }
}

impl Default for FrameNote {
    fn default() -> (r: FrameNote)
        ensures
            r.deep_view() == FrameNote::initial(),
    {
        let r = FrameNote {
            content: PrintableValue::<u8>::default(),
            fret: PrintableValue::<u8>::default(),
            fingering: None,
            barre: None,
        };
        r
    }
}

impl FrameNote {
    /// The value that an element denotes. The fields are read in the order in
    /// which they are declared; the first one that fails gives the error.
    #[verifier::opaque]
    pub open spec fn decode_node(n: NodeView) -> Result<FrameNoteView, DecodeErrorView> {
        let content = n.element_or::<PrintableValue<u8>>(
            Name::String,
            PrintableValue::<u8>::initial(),
        );
        let fret = n.element_or::<PrintableValue<u8>>(Name::Fret, PrintableValue::<u8>::initial());
        let fingering = n.element_opt::<PrintableValue<String>>(Name::Fingering);
        let barre = n.element_opt::<PrintableValue<String>>(Name::Barre);
        if content is Err {
            Err(content->Err_0)
        } else if fret is Err {
            Err(fret->Err_0)
        } else if fingering is Err {
            Err(fingering->Err_0)
        } else if barre is Err {
            Err(barre->Err_0)
        } else {
            Ok(
                FrameNoteView {
                    content: content->Ok_0,
                    fret: fret->Ok_0,
                    fingering: fingering->Ok_0,
                    barre: barre->Ok_0,
                }
            )
        }
    }

    /// The element that a value is written as.
    #[verifier::opaque]
    pub open spec fn encode_value(v: FrameNoteView, tag: Seq<char>) -> NodeView {
        NodeView::new(tag)
            .with_children(element_nodes::<PrintableValue<u8>>(Name::String, Some(v.content)))
            .with_children(element_nodes::<PrintableValue<u8>>(Name::Fret, Some(v.fret)))
            .with_children(element_nodes::<PrintableValue<String>>(Name::Fingering, v.fingering))
            .with_children(element_nodes::<PrintableValue<String>>(Name::Barre, v.barre))
    }

    /// An encoded element bears the tag it was given.
    pub proof fn encoded_tag(v: FrameNoteView, tag: Seq<char>)
        ensures
            FrameNote::encode_value(v, tag).tag == tag,
    {
        broadcast use group_codec;

        reveal(FrameNote::encode_value);
    }

    /// Decoding what was encoded gives the value back.
    pub proof fn round_trip(v: FrameNoteView, tag: Seq<char>)
        requires
            <FrameNote as Element>::valid(v),
        ensures
            FrameNote::decode_node(FrameNote::encode_value(v, tag))
                == Ok::<FrameNoteView, DecodeErrorView>(v),
    {
        broadcast use group_codec;

        let n = FrameNote::encode_value(v, tag);
        assert(
            n.element_or::<PrintableValue<u8>>(Name::String, PrintableValue::<u8>::initial())
                == Ok::<PrintableValueView<u8>, DecodeErrorView>(v.content)
        ) by {
            reveal(FrameNote::encode_value);
            reveal(NodeView::element_or);
            reveal(NodeView::element_opt);
            reveal(NodeView::only_child);
            PrintableValue::<u8>::decode_encode(v.content, Name::String.text());
        }
        assert(
            n.element_or::<PrintableValue<u8>>(Name::Fret, PrintableValue::<u8>::initial())
                == Ok::<PrintableValueView<u8>, DecodeErrorView>(v.fret)
        ) by {
            reveal(FrameNote::encode_value);
            reveal(NodeView::element_or);
            reveal(NodeView::element_opt);
            reveal(NodeView::only_child);
            PrintableValue::<u8>::decode_encode(v.fret, Name::Fret.text());
        }
        assert(
            n.element_opt::<PrintableValue<String>>(Name::Fingering)
                == Ok::<Option<PrintableValueView<Seq<char>>>, DecodeErrorView>(v.fingering)
        ) by {
            reveal(FrameNote::encode_value);
            reveal(NodeView::element_opt);
            reveal(NodeView::only_child);
            if let Some(x) = v.fingering {
                PrintableValue::<String>::decode_encode(x, Name::Fingering.text());
            }
        }
        assert(
            n.element_opt::<PrintableValue<String>>(Name::Barre)
                == Ok::<Option<PrintableValueView<Seq<char>>>, DecodeErrorView>(v.barre)
        ) by {
            reveal(FrameNote::encode_value);
            reveal(NodeView::element_opt);
            reveal(NodeView::only_child);
            if let Some(x) = v.barre {
                PrintableValue::<String>::decode_encode(x, Name::Barre.text());
            }
        }
        reveal(FrameNote::decode_node);
    }

    /// Decoding gives valid values only.
    pub proof fn decoded_valid(n: NodeView)
        ensures
            FrameNote::decode_node(n) matches Ok(v) ==> <FrameNote as Element>::valid(v),
    {
        reveal(FrameNote::decode_node);
        reveal(NodeView::element_or);
        reveal(NodeView::element_opt);
        if let Ok(Some(c)) = n.only_child(Name::String) {
            PrintableValue::<u8>::decode_valid(c);
        }
        if let Ok(Some(c)) = n.only_child(Name::Fret) {
            PrintableValue::<u8>::decode_valid(c);
        }
        if let Ok(Some(c)) = n.only_child(Name::Fingering) {
            PrintableValue::<String>::decode_valid(c);
        }
        if let Ok(Some(c)) = n.only_child(Name::Barre) {
            PrintableValue::<String>::decode_valid(c);
        }
    }

    /// Decodes an element.
    pub fn read_node(node: &Node) -> (r: Result<FrameNote, DecodeError>)
        ensures
            r matches Ok(v) ==>
                FrameNote::decode_node(node.deep_view()) == Ok::<FrameNoteView, DecodeErrorView>(
                v.deep_view(),
            ),
            r matches Err(e) ==>
                FrameNote::decode_node(node.deep_view()) == Err::<FrameNoteView, DecodeErrorView>(
                e.deep_view(),
            ),
    {
        proof {
            reveal(FrameNote::decode_node);
        }
        let content = node.element_or::<PrintableValue<u8>>(
            Name::String,
            PrintableValue::<u8>::default(),
        )?;
        let fret = node.element_or::<PrintableValue<u8>>(
            Name::Fret,
            PrintableValue::<u8>::default(),
        )?;
        let fingering = node.element_opt::<PrintableValue<String>>(Name::Fingering)?;
        let barre = node.element_opt::<PrintableValue<String>>(Name::Barre)?;
        Ok(FrameNote { content, fret, fingering, barre })
    }

    /// Encodes a value as an element with the given tag.
    pub fn write_node(&self, tag: &str) -> (r: Node)
        ensures
            r.deep_view() == FrameNote::encode_value(self.deep_view(), tag@),
    {
        proof {
            reveal(FrameNote::encode_value);
        }
        let mut node = Node::new(tag);
        node.put_element::<PrintableValue<u8>>(Name::String, &self.content);
        node.put_element::<PrintableValue<u8>>(Name::Fret, &self.fret);
        node.put_element_opt::<PrintableValue<String>>(Name::Fingering, &self.fingering);
        node.put_element_opt::<PrintableValue<String>>(Name::Barre, &self.barre);
        node
    }
}

impl Element for FrameNote {
    open spec fn valid(v: FrameNoteView) -> bool {
        &&& PrintableValue::<u8>::valid(v.content)
        &&& PrintableValue::<u8>::valid(v.fret)
        &&& (v.fingering matches Some(x) ==> PrintableValue::<String>::valid(x))
        &&& (v.barre matches Some(x) ==> PrintableValue::<String>::valid(x))
    }

    open spec fn decode(n: NodeView) -> Result<FrameNoteView, DecodeErrorView> {
        FrameNote::decode_node(n)
    }

    open spec fn encode(v: FrameNoteView, tag: Seq<char>) -> NodeView {
        FrameNote::encode_value(v, tag)
    }

    proof fn encode_tag(v: FrameNoteView, tag: Seq<char>) {
        FrameNote::encoded_tag(v, tag);
    }

    proof fn decode_encode(v: FrameNoteView, tag: Seq<char>) {
        FrameNote::round_trip(v, tag);
    }

    proof fn decode_valid(n: NodeView) {
        FrameNote::decoded_valid(n);
    }

    fn from_node(node: &Node) -> (r: Result<FrameNote, DecodeError>) {
        FrameNote::read_node(node)
    }

    fn to_node(&self, tag: &str) -> (r: Node) {
        self.write_node(tag)
    }
}

/// A fretboard diagram.
#[derive(Clone, Debug, PartialEq)]
pub struct Frame {
    /// The text of the child `frame-strings`; zero where the child is not
    /// there.
    pub frame_strings: u8,
    /// The text of the child `frame-frets`; zero where the child is not
    /// there.
    pub frame_frets: u8,
    /// The child `first-fret`, if it is there.
    pub first_fret: Option<FirstFret>,
    /// The children `frame-note`, in document order.
    pub frame_notes: Vec<FrameNote>,
}

/// The mathematical value of a [`Frame`].
pub struct FrameView {
    pub frame_strings: u8,
    pub frame_frets: u8,
    pub first_fret: Option<FirstFretView>,
    pub frame_notes: Seq<FrameNoteView>,
}

impl DeepView for Frame {
    type V = FrameView;

    open spec fn deep_view(&self) -> FrameView {
        FrameView {
            frame_strings: self.frame_strings.deep_view(),
            frame_frets: self.frame_frets.deep_view(),
            first_fret: self.first_fret.deep_view(),
            frame_notes: self.frame_notes.deep_view(),
        }
    }
}

impl Frame {
    /// The value with every field at its default.
    pub open spec fn initial() -> FrameView {
        FrameView {
            frame_strings: 0,
            frame_frets: 0,
            first_fret: None,
            frame_notes: Seq::empty(),
        }
    }
}

impl Default for Frame {
    fn default() -> (r: Frame)
        ensures
            r.deep_view() == Frame::initial(),
    {
        let r = Frame {
            frame_strings: 0,
            frame_frets: 0,
            first_fret: None,
            frame_notes: Vec::new(),
        };
        proof {
            assert(r.frame_notes.deep_view() =~= Seq::empty());
        }
        r
    }
}

impl Frame {
    /// The value that an element denotes. The fields are read in the order in
    /// which they are declared; the first one that fails gives the error.
    #[verifier::opaque]
    pub open spec fn decode_node(n: NodeView) -> Result<FrameView, DecodeErrorView> {
        let frame_strings = n.text_or::<u8>(Name::FrameStrings, 0);
        let frame_frets = n.text_or::<u8>(Name::FrameFrets, 0);
        let first_fret = n.element_opt::<FirstFret>(Name::FirstFret);
        let frame_notes = n.elements::<FrameNote>(Name::FrameNote);
        if frame_strings is Err {
            Err(frame_strings->Err_0)
        } else if frame_frets is Err {
            Err(frame_frets->Err_0)
        } else if first_fret is Err {
            Err(first_fret->Err_0)
        } else if frame_notes is Err {
            Err(frame_notes->Err_0)
        } else {
            Ok(
                FrameView {
                    frame_strings: frame_strings->Ok_0,
                    frame_frets: frame_frets->Ok_0,
                    first_fret: first_fret->Ok_0,
                    frame_notes: frame_notes->Ok_0,
                }
            )
        }
    }

    /// The element that a value is written as.
    #[verifier::opaque]
    pub open spec fn encode_value(v: FrameView, tag: Seq<char>) -> NodeView {
        NodeView::new(tag)
            .with_children(text_nodes::<u8>(Name::FrameStrings, Some(v.frame_strings)))
            .with_children(text_nodes::<u8>(Name::FrameFrets, Some(v.frame_frets)))
            .with_children(element_nodes::<FirstFret>(Name::FirstFret, v.first_fret))
            .with_children(encode_elements::<FrameNote>(Name::FrameNote, v.frame_notes))
    }

    /// An encoded element bears the tag it was given.
    pub proof fn encoded_tag(v: FrameView, tag: Seq<char>)
        ensures
            Frame::encode_value(v, tag).tag == tag,
    {
        broadcast use group_codec;

        reveal(Frame::encode_value);
    }

    /// Decoding what was encoded gives the value back.
    pub proof fn round_trip(v: FrameView, tag: Seq<char>)
        requires
            <Frame as Element>::valid(v),
        ensures
            Frame::decode_node(Frame::encode_value(v, tag)) == Ok::<FrameView, DecodeErrorView>(v),
    {
        broadcast use group_codec;

        let n = Frame::encode_value(v, tag);
        assert(
            n.text_or::<u8>(Name::FrameStrings, 0)
                == Ok::<u8, DecodeErrorView>(v.frame_strings)
        ) by {
            reveal(Frame::encode_value);
            reveal(NodeView::text_or);
            reveal(NodeView::text_opt);
            reveal(NodeView::only_child);
            reveal(NodeView::content);
            u8::parse_text(v.frame_strings);
        }
        assert(
            n.text_or::<u8>(Name::FrameFrets, 0)
                == Ok::<u8, DecodeErrorView>(v.frame_frets)
        ) by {
            reveal(Frame::encode_value);
            reveal(NodeView::text_or);
            reveal(NodeView::text_opt);
            reveal(NodeView::only_child);
            reveal(NodeView::content);
            u8::parse_text(v.frame_frets);
        }
        assert(
            n.element_opt::<FirstFret>(Name::FirstFret)
                == Ok::<Option<FirstFretView>, DecodeErrorView>(v.first_fret)
        ) by {
            reveal(Frame::encode_value);
            reveal(NodeView::element_opt);
            reveal(NodeView::only_child);
            if let Some(x) = v.first_fret {
                FirstFret::decode_encode(x, Name::FirstFret.text());
            }
        }
        assert(
            n.elements::<FrameNote>(Name::FrameNote)
                == Ok::<Seq<FrameNoteView>, DecodeErrorView>(v.frame_notes)
        ) by {
            reveal(Frame::encode_value);
            reveal(NodeView::elements);
            lemma_decode_encode_elements::<FrameNote>(Name::FrameNote, v.frame_notes, tag);
        }
        reveal(Frame::decode_node);
    }

    /// Decoding gives valid values only.
    pub proof fn decoded_valid(n: NodeView)
        ensures
            Frame::decode_node(n) matches Ok(v) ==> <Frame as Element>::valid(v),
    {
        reveal(Frame::decode_node);
        reveal(NodeView::element_opt);
        reveal(NodeView::elements);
        if let Ok(Some(c)) = n.only_child(Name::FirstFret) {
            FirstFret::decode_valid(c);
        }
        lemma_decode_elements_valid::<FrameNote>(
            n.children_with_tag(Name::FrameNote.text()),
            n.tag,
        );
    }

    /// Decodes an element.
    pub fn read_node(node: &Node) -> (r: Result<Frame, DecodeError>)
        ensures
            r matches Ok(v) ==>
                Frame::decode_node(node.deep_view()) == Ok::<FrameView, DecodeErrorView>(
                v.deep_view(),
            ),
            r matches Err(e) ==>
                Frame::decode_node(node.deep_view()) == Err::<FrameView, DecodeErrorView>(
                e.deep_view(),
            ),
    {
        proof {
            reveal(Frame::decode_node);
        }
        let frame_strings = node.text_or::<u8>(Name::FrameStrings, 0)?;
        let frame_frets = node.text_or::<u8>(Name::FrameFrets, 0)?;
        let first_fret = node.element_opt::<FirstFret>(Name::FirstFret)?;
        let frame_notes = node.elements::<FrameNote>(Name::FrameNote)?;
        Ok(Frame { frame_strings, frame_frets, first_fret, frame_notes })
    }

    /// Encodes a value as an element with the given tag.
    pub fn write_node(&self, tag: &str) -> (r: Node)
        ensures
            r.deep_view() == Frame::encode_value(self.deep_view(), tag@),
    {
        proof {
            reveal(Frame::encode_value);
        }
        let mut node = Node::new(tag);
        node.put_text::<u8>(Name::FrameStrings, &self.frame_strings);
        node.put_text::<u8>(Name::FrameFrets, &self.frame_frets);
        node.put_element_opt::<FirstFret>(Name::FirstFret, &self.first_fret);
        node.put_elements::<FrameNote>(Name::FrameNote, &self.frame_notes);
        node
    }
}

impl Element for Frame {
    open spec fn valid(v: FrameView) -> bool {
        &&& (v.first_fret matches Some(x) ==> FirstFret::valid(x))
        &&& all_valid::<FrameNote>(v.frame_notes)
    }

    open spec fn decode(n: NodeView) -> Result<FrameView, DecodeErrorView> {
        Frame::decode_node(n)
    }

    open spec fn encode(v: FrameView, tag: Seq<char>) -> NodeView {
        Frame::encode_value(v, tag)
    }

    proof fn encode_tag(v: FrameView, tag: Seq<char>) {
        Frame::encoded_tag(v, tag);
    }

    proof fn decode_encode(v: FrameView, tag: Seq<char>) {
        Frame::round_trip(v, tag);
    }

    proof fn decode_valid(n: NodeView) {
        Frame::decoded_valid(n);
    }

    fn from_node(node: &Node) -> (r: Result<Frame, DecodeError>) {
        Frame::read_node(node)
    }

    fn to_node(&self, tag: &str) -> (r: Node) {
        self.write_node(tag)
    }
}

} // verus!
