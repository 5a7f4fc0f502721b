//! MIDI instruments.
use crate::codec::{Element, group_codec, text_nodes};
use crate::decimal::Decimal;
use crate::error::{DecodeError, DecodeErrorView};
use crate::names::Name;
use crate::node::{Node, NodeView};
use crate::scalar::Scalar;
use vstd::prelude::*;

verus! {

/// A MIDI instrument.
#[derive(Clone, Debug, PartialEq)]
pub struct MidiInstrument {
    /// The attribute `id`; the empty text where it is not written.
    pub id: String,
    /// The text of the child `midi-channel`; zero where the child is not
    /// there.
    pub midi_channel: u8,
    /// The text of the child `midi-program`; zero where the child is not
    /// there.
    pub midi_program: u8,
    /// The text of the child `volume`; zero where the child is not there.
    pub volume: Decimal,
    /// The text of the child `pan`; zero where the child is not there.
    pub pan: Decimal,
}

/// The mathematical value of a [`MidiInstrument`].
pub struct MidiInstrumentView {
    pub id: Seq<char>,
    pub midi_channel: u8,
    pub midi_program: u8,
    pub volume: Decimal,
    pub pan: Decimal,
}

impl DeepView for MidiInstrument {
    type V = MidiInstrumentView;

    open spec fn deep_view(&self) -> MidiInstrumentView {
        MidiInstrumentView {
            id: self.id.deep_view(),
            midi_channel: self.midi_channel.deep_view(),
            midi_program: self.midi_program.deep_view(),
            volume: self.volume.deep_view(),
            pan: self.pan.deep_view(),
        }
    }
}

impl MidiInstrument {
    /// The value with every field at its default.
    pub open spec fn initial() -> MidiInstrumentView {
        MidiInstrumentView {
            id: Seq::<char>::empty(),
            midi_channel: 0,
            midi_program: 0,
            volume: Decimal { negative: false, magnitude: 0, scale: 0 },
            pan: Decimal { negative: false, magnitude: 0, scale: 0 },
        }
    }
}

impl Default for MidiInstrument {
    fn default() -> (r: MidiInstrument)
        ensures
            r.deep_view() == MidiInstrument::initial(),
    {
        let r = MidiInstrument {
            id: String::new(),
            midi_channel: 0,
            midi_program: 0,
            volume: Decimal { negative: false, magnitude: 0, scale: 0 },
            pan: Decimal { negative: false, magnitude: 0, scale: 0 },
        };
        r
    }
}

impl MidiInstrument {
    /// The value that an element denotes. The fields are read in the order in
    /// which they are declared; the first one that fails gives the error.
    #[verifier::opaque]
    pub open spec fn decode_node(n: NodeView) -> Result<MidiInstrumentView, DecodeErrorView> {
        let id = n.attribute_or::<String>(Name::Id, Seq::<char>::empty());
        let midi_channel = n.text_or::<u8>(Name::MidiChannel, 0);
        let midi_program = n.text_or::<u8>(Name::MidiProgram, 0);
        let volume = n.text_or::<Decimal>(Name::Volume, Decimal {
            negative: false,
            magnitude: 0,
            scale: 0,
        });
        let pan = n.text_or::<Decimal>(Name::Pan, Decimal {
            negative: false,
            magnitude: 0,
            scale: 0,
        });
        if id is Err {
            Err(id->Err_0)
        } else if midi_channel is Err {
            Err(midi_channel->Err_0)
        } else if midi_program is Err {
            Err(midi_program->Err_0)
        } else if volume is Err {
            Err(volume->Err_0)
        } else if pan is Err {
            Err(pan->Err_0)
        } else {
            Ok(
                MidiInstrumentView {
                    id: id->Ok_0,
                    midi_channel: midi_channel->Ok_0,
                    midi_program: midi_program->Ok_0,
                    volume: volume->Ok_0,
                    pan: pan->Ok_0,
                }
            )
        }
    }

    /// The element that a value is written as.
    #[verifier::opaque]
    pub open spec fn encode_value(v: MidiInstrumentView, tag: Seq<char>) -> NodeView {
        NodeView::new(tag)
            .with_scalar::<String>(Name::Id, v.id)
            .with_children(text_nodes::<u8>(Name::MidiChannel, Some(v.midi_channel)))
            .with_children(text_nodes::<u8>(Name::MidiProgram, Some(v.midi_program)))
            .with_children(text_nodes::<Decimal>(Name::Volume, Some(v.volume)))
            .with_children(text_nodes::<Decimal>(Name::Pan, Some(v.pan)))
    }

    /// An encoded element bears the tag it was given.
    pub proof fn encoded_tag(v: MidiInstrumentView, tag: Seq<char>)
        ensures
            MidiInstrument::encode_value(v, tag).tag == tag,
    {
        broadcast use group_codec;

        reveal(MidiInstrument::encode_value);
    }

    /// Decoding what was encoded gives the value back.
    pub proof fn round_trip(v: MidiInstrumentView, tag: Seq<char>)
        requires
            <MidiInstrument as Element>::valid(v),
        ensures
            MidiInstrument::decode_node(MidiInstrument::encode_value(v, tag))
                == Ok::<MidiInstrumentView, DecodeErrorView>(v),
    {
        broadcast use group_codec;

        let n = MidiInstrument::encode_value(v, tag);
        assert(
            n.attribute_or::<String>(Name::Id, Seq::<char>::empty())
                == Ok::<Seq<char>, DecodeErrorView>(v.id)
        ) by {
            reveal(MidiInstrument::encode_value);
        }
        assert(
            n.text_or::<u8>(Name::MidiChannel, 0)
                == Ok::<u8, DecodeErrorView>(v.midi_channel)
        ) by {
            reveal(MidiInstrument::encode_value);
            reveal(NodeView::text_or);
            reveal(NodeView::text_opt);
            reveal(NodeView::only_child);
            reveal(NodeView::content);
            u8::parse_text(v.midi_channel);
        }
        assert(
            n.text_or::<u8>(Name::MidiProgram, 0)
                == Ok::<u8, DecodeErrorView>(v.midi_program)
        ) by {
            reveal(MidiInstrument::encode_value);
            reveal(NodeView::text_or);
            reveal(NodeView::text_opt);
            reveal(NodeView::only_child);
            reveal(NodeView::content);
            u8::parse_text(v.midi_program);
        }
        assert(
            n.text_or::<Decimal>(Name::Volume, Decimal { negative: false, magnitude: 0, scale: 0 })
                == Ok::<Decimal, DecodeErrorView>(v.volume)
        ) by {
            reveal(MidiInstrument::encode_value);
            reveal(NodeView::text_or);
            reveal(NodeView::text_opt);
            reveal(NodeView::only_child);
            reveal(NodeView::content);
            Decimal::parse_text(v.volume);
        }
        assert(
            n.text_or::<Decimal>(Name::Pan, Decimal { negative: false, magnitude: 0, scale: 0 })
                == Ok::<Decimal, DecodeErrorView>(v.pan)
        ) by {
            reveal(MidiInstrument::encode_value);
            reveal(NodeView::text_or);
            reveal(NodeView::text_opt);
            reveal(NodeView::only_child);
            reveal(NodeView::content);
            Decimal::parse_text(v.pan);
        }
        reveal(MidiInstrument::decode_node);
    }

    /// Decoding gives valid values only.
    pub proof fn decoded_valid(n: NodeView)
        ensures
            MidiInstrument::decode_node(n) matches Ok(v) ==> <MidiInstrument as Element>::valid(v),
    {
        reveal(MidiInstrument::decode_node);
    }

    /// Decodes an element.
    pub fn read_node(node: &Node) -> (r: Result<MidiInstrument, DecodeError>)
        ensures
            r matches Ok(v) ==>
                MidiInstrument::decode_node(node.deep_view())
                    == Ok::<MidiInstrumentView, DecodeErrorView>(
                v.deep_view(),
            ),
            r matches Err(e) ==>
                MidiInstrument::decode_node(node.deep_view())
                    == Err::<MidiInstrumentView, DecodeErrorView>(
                e.deep_view(),
            ),
    {
        proof {
            reveal(MidiInstrument::decode_node);
        }
        let id = node.attribute_or::<String>(Name::Id, String::new())?;
        let midi_channel = node.text_or::<u8>(Name::MidiChannel, 0)?;
        let midi_program = node.text_or::<u8>(Name::MidiProgram, 0)?;
        let volume = node.text_or::<Decimal>(Name::Volume, Decimal {
            negative: false,
            magnitude: 0,
            scale: 0,
        })?;
        let pan = node.text_or::<Decimal>(Name::Pan, Decimal {
            negative: false,
            magnitude: 0,
            scale: 0,
        })?;
        Ok(MidiInstrument { id, midi_channel, midi_program, volume, pan })
    }

    /// Encodes a value as an element with the given tag.
    pub fn write_node(&self, tag: &str) -> (r: Node)
        ensures
            r.deep_view() == MidiInstrument::encode_value(self.deep_view(), tag@),
    {
        proof {
            reveal(MidiInstrument::encode_value);
        }
        let mut node = Node::new(tag);
        node.put_scalar::<String>(Name::Id, &self.id);
        node.put_text::<u8>(Name::MidiChannel, &self.midi_channel);
        node.put_text::<u8>(Name::MidiProgram, &self.midi_program);
        node.put_text::<Decimal>(Name::Volume, &self.volume);
        node.put_text::<Decimal>(Name::Pan, &self.pan);
        node
    }
}

impl Element for MidiInstrument {
    open spec fn valid(v: MidiInstrumentView) -> bool {
        true
    }

    open spec fn decode(n: NodeView) -> Result<MidiInstrumentView, DecodeErrorView> {
        MidiInstrument::decode_node(n)
    }

    open spec fn encode(v: MidiInstrumentView, tag: Seq<char>) -> NodeView {
        MidiInstrument::encode_value(v, tag)
    }

    proof fn encode_tag(v: MidiInstrumentView, tag: Seq<char>) {
        MidiInstrument::encoded_tag(v, tag);
    }

    proof fn decode_encode(v: MidiInstrumentView, tag: Seq<char>) {
        MidiInstrument::round_trip(v, tag);
    }

    proof fn decode_valid(n: NodeView) {
        MidiInstrument::decoded_valid(n);
    }

    fn from_node(node: &Node) -> (r: Result<MidiInstrument, DecodeError>) {
        MidiInstrument::read_node(node)
    }

    fn to_node(&self, tag: &str) -> (r: Node) {
        self.write_node(tag)
    }
}

} // verus!
