//! Instruments of a part.
use crate::codec::{Element, group_codec, text_nodes};
use crate::error::{DecodeError, DecodeErrorView};
use crate::names::Name;
use crate::node::{Node, NodeView};
use vstd::prelude::*;

verus! {

/// An instrument of a part.
#[derive(Clone, Debug, PartialEq)]
pub struct ScoreInstrument {
    /// The attribute `id`; the empty text where it is not written.
    pub id: String,
    /// The text of the child `instrument-name`; the empty text where the
    /// child is not there.
    pub instrument_name: String,
    /// The text of the child `instrument-sound`; the empty text where the
    /// child is not there.
    pub instrument_sound: String,
}

/// The mathematical value of a [`ScoreInstrument`].
pub struct ScoreInstrumentView {
    pub id: Seq<char>,
    pub instrument_name: Seq<char>,
    pub instrument_sound: Seq<char>,
}

impl DeepView for ScoreInstrument {
    type V = ScoreInstrumentView;

    open spec fn deep_view(&self) -> ScoreInstrumentView {
        ScoreInstrumentView {
            id: self.id.deep_view(),
            instrument_name: self.instrument_name.deep_view(),
            instrument_sound: self.instrument_sound.deep_view(),
        }
    }
}

impl ScoreInstrument {
    /// The value that an element denotes. The fields are read in the order in
    /// which they are declared; the first one that fails gives the error.
    #[verifier::opaque]
    pub open spec fn decode_node(n: NodeView) -> Result<ScoreInstrumentView, DecodeErrorView> {
        let id = n.attribute_or::<String>(Name::Id, Seq::<char>::empty());
        let instrument_name = n.text_or::<String>(Name::InstrumentName, Seq::<char>::empty());
        let instrument_sound = n.text_or::<String>(Name::InstrumentSound, Seq::<char>::empty());
        if id is Err {
            Err(id->Err_0)
        } else if instrument_name is Err {
            Err(instrument_name->Err_0)
        } else if instrument_sound is Err {
            Err(instrument_sound->Err_0)
        } else {
            Ok(
                ScoreInstrumentView {
                    id: id->Ok_0,
                    instrument_name: instrument_name->Ok_0,
                    instrument_sound: instrument_sound->Ok_0,
                }
            )
        }
    }

    /// The element that a value is written as.
    #[verifier::opaque]
    pub open spec fn encode_value(v: ScoreInstrumentView, tag: Seq<char>) -> NodeView {
        NodeView::new(tag)
            .with_scalar::<String>(Name::Id, v.id)
            .with_children(text_nodes::<String>(Name::InstrumentName, Some(v.instrument_name)))
            .with_children(text_nodes::<String>(Name::InstrumentSound, Some(v.instrument_sound)))
    }

    /// An encoded element bears the tag it was given.
    pub proof fn encoded_tag(v: ScoreInstrumentView, tag: Seq<char>)
        ensures
            ScoreInstrument::encode_value(v, tag).tag == tag,
    {
        broadcast use group_codec;

        reveal(ScoreInstrument::encode_value);
    }

    /// Decoding what was encoded gives the value back.
    pub proof fn round_trip(v: ScoreInstrumentView, tag: Seq<char>)
        requires
            <ScoreInstrument as Element>::valid(v),
        ensures
            ScoreInstrument::decode_node(ScoreInstrument::encode_value(v, tag))
                == Ok::<ScoreInstrumentView, DecodeErrorView>(v),
    {
        broadcast use group_codec;

        let n = ScoreInstrument::encode_value(v, tag);
        assert(
            n.attribute_or::<String>(Name::Id, Seq::<char>::empty())
                == Ok::<Seq<char>, DecodeErrorView>(v.id)
        ) by {
            reveal(ScoreInstrument::encode_value);
        }
        assert(
            n.text_or::<String>(Name::InstrumentName, Seq::<char>::empty())
                == Ok::<Seq<char>, DecodeErrorView>(v.instrument_name)
        ) by {
            reveal(ScoreInstrument::encode_value);
            reveal(NodeView::text_or);
            reveal(NodeView::text_opt);
            reveal(NodeView::only_child);
            reveal(NodeView::content);
        }
        assert(
            n.text_or::<String>(Name::InstrumentSound, Seq::<char>::empty())
                == Ok::<Seq<char>, DecodeErrorView>(v.instrument_sound)
        ) by {
            reveal(ScoreInstrument::encode_value);
            reveal(NodeView::text_or);
            reveal(NodeView::text_opt);
            reveal(NodeView::only_child);
            reveal(NodeView::content);
        }
        reveal(ScoreInstrument::decode_node);
    }

    /// Decoding gives valid values only.
    pub proof fn decoded_valid(n: NodeView)
        ensures
            ScoreInstrument::decode_node(n) matches Ok(v) ==>
                <ScoreInstrument as Element>::valid(v),
    {
        reveal(ScoreInstrument::decode_node);
    }

    /// Decodes an element.
    pub fn read_node(node: &Node) -> (r: Result<ScoreInstrument, DecodeError>)
        ensures
            r matches Ok(v) ==>
                ScoreInstrument::decode_node(node.deep_view())
                    == Ok::<ScoreInstrumentView, DecodeErrorView>(
                v.deep_view(),
            ),
            r matches Err(e) ==>
                ScoreInstrument::decode_node(node.deep_view())
                    == Err::<ScoreInstrumentView, DecodeErrorView>(
                e.deep_view(),
            ),
    {
        proof {
            reveal(ScoreInstrument::decode_node);
        }
        let id = node.attribute_or::<String>(Name::Id, String::new())?;
        let instrument_name = node.text_or::<String>(Name::InstrumentName, String::new())?;
        let instrument_sound = node.text_or::<String>(Name::InstrumentSound, String::new())?;
        Ok(ScoreInstrument { id, instrument_name, instrument_sound })
    }

    /// Encodes a value as an element with the given tag.
    pub fn write_node(&self, tag: &str) -> (r: Node)
        ensures
            r.deep_view() == ScoreInstrument::encode_value(self.deep_view(), tag@),
    {
        proof {
            reveal(ScoreInstrument::encode_value);
        }
        let mut node = Node::new(tag);
        node.put_scalar::<String>(Name::Id, &self.id);
        node.put_text::<String>(Name::InstrumentName, &self.instrument_name);
        node.put_text::<String>(Name::InstrumentSound, &self.instrument_sound);
        node
    }
}

impl Element for ScoreInstrument {
    open spec fn valid(v: ScoreInstrumentView) -> bool {
        true
    }

    open spec fn decode(n: NodeView) -> Result<ScoreInstrumentView, DecodeErrorView> {
        ScoreInstrument::decode_node(n)
    }

    open spec fn encode(v: ScoreInstrumentView, tag: Seq<char>) -> NodeView {
        ScoreInstrument::encode_value(v, tag)
    }

    proof fn encode_tag(v: ScoreInstrumentView, tag: Seq<char>) {
        ScoreInstrument::encoded_tag(v, tag);
    }

    proof fn decode_encode(v: ScoreInstrumentView, tag: Seq<char>) {
        ScoreInstrument::round_trip(v, tag);
    }

    proof fn decode_valid(n: NodeView) {
        ScoreInstrument::decoded_valid(n);
    }

    fn from_node(node: &Node) -> (r: Result<ScoreInstrument, DecodeError>) {
        ScoreInstrument::read_node(node)
    }

    fn to_node(&self, tag: &str) -> (r: Node) {
        self.write_node(tag)
    }
}

} // verus!
