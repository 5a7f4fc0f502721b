//! MIDI devices.
use crate::codec::{Element, group_codec};
use crate::error::{DecodeError, DecodeErrorView};
use crate::names::Name;
use crate::node::{Node, NodeView};
use vstd::prelude::*;

verus! {

/// A MIDI device.
#[derive(Clone, Debug, PartialEq)]
pub struct MidiDevice {
    /// The attribute `id`; the empty text where it is not written.
    pub id: String,
    /// The attribute `port`; zero where it is not written.
    pub port: u8,
}

/// The mathematical value of a [`MidiDevice`].
pub struct MidiDeviceView {
    pub id: Seq<char>,
    pub port: u8,
}

impl DeepView for MidiDevice {
    type V = MidiDeviceView;

    open spec fn deep_view(&self) -> MidiDeviceView {
        MidiDeviceView {
            id: self.id.deep_view(),
            port: self.port.deep_view(),
        }
    }
}

impl MidiDevice {
    /// The value with every field at its default.
    pub open spec fn initial() -> MidiDeviceView {
        MidiDeviceView {
            id: Seq::<char>::empty(),
            port: 0,
        }
    }
}

impl Default for MidiDevice {
    fn default() -> (r: MidiDevice)
        ensures
            r.deep_view() == MidiDevice::initial(),
    {
        let r = MidiDevice {
            id: String::new(),
            port: 0,
        };
        r
    }
}

impl MidiDevice {
    /// The value that an element denotes. The fields are read in the order in
    /// which they are declared; the first one that fails gives the error.
    #[verifier::opaque]
    pub open spec fn decode_node(n: NodeView) -> Result<MidiDeviceView, DecodeErrorView> {
        let id = n.attribute_or::<String>(Name::Id, Seq::<char>::empty());
        let port = n.attribute_or::<u8>(Name::Port, 0);
        if id is Err {
            Err(id->Err_0)
        } else if port is Err {
            Err(port->Err_0)
        } else {
            Ok(
                MidiDeviceView {
                    id: id->Ok_0,
                    port: port->Ok_0,
                }
            )
        }
    }

    /// The element that a value is written as.
    #[verifier::opaque]
    pub open spec fn encode_value(v: MidiDeviceView, tag: Seq<char>) -> NodeView {
        NodeView::new(tag)
            .with_scalar::<String>(Name::Id, v.id)
            .with_scalar::<u8>(Name::Port, v.port)
    }

    /// An encoded element bears the tag it was given.
    pub proof fn encoded_tag(v: MidiDeviceView, tag: Seq<char>)
        ensures
            MidiDevice::encode_value(v, tag).tag == tag,
    {
        broadcast use group_codec;

        reveal(MidiDevice::encode_value);
    }

    /// Decoding what was encoded gives the value back.
    pub proof fn round_trip(v: MidiDeviceView, tag: Seq<char>)
        requires
            <MidiDevice as Element>::valid(v),
        ensures
            MidiDevice::decode_node(MidiDevice::encode_value(v, tag))
                == Ok::<MidiDeviceView, DecodeErrorView>(v),
    {
        broadcast use group_codec;

        let n = MidiDevice::encode_value(v, tag);
        assert(
            n.attribute_or::<String>(Name::Id, Seq::<char>::empty())
                == Ok::<Seq<char>, DecodeErrorView>(v.id)
        ) by {
            reveal(MidiDevice::encode_value);
        }
        assert(n.attribute_or::<u8>(Name::Port, 0) == Ok::<u8, DecodeErrorView>(v.port)) by {
            reveal(MidiDevice::encode_value);
        }
        reveal(MidiDevice::decode_node);
    }

    /// Decoding gives valid values only.
    pub proof fn decoded_valid(n: NodeView)
        ensures
            MidiDevice::decode_node(n) matches Ok(v) ==> <MidiDevice as Element>::valid(v),
    {
        reveal(MidiDevice::decode_node);
    }

    /// Decodes an element.
    pub fn read_node(node: &Node) -> (r: Result<MidiDevice, DecodeError>)
        ensures
            r matches Ok(v) ==>
                MidiDevice::decode_node(node.deep_view()) == Ok::<MidiDeviceView, DecodeErrorView>(
                v.deep_view(),
            ),
            r matches Err(e) ==>
                MidiDevice::decode_node(node.deep_view()) == Err::<MidiDeviceView, DecodeErrorView>(
                e.deep_view(),
            ),
    {
        proof {
            reveal(MidiDevice::decode_node);
        }
        let id = node.attribute_or::<String>(Name::Id, String::new())?;
        let port = node.attribute_or::<u8>(Name::Port, 0)?;
        Ok(MidiDevice { id, port })
    }

    /// Encodes a value as an element with the given tag.
    pub fn write_node(&self, tag: &str) -> (r: Node)
        ensures
            r.deep_view() == MidiDevice::encode_value(self.deep_view(), tag@),
    {
        proof {
            reveal(MidiDevice::encode_value);
        }
        let mut node = Node::new(tag);
        node.put_scalar::<String>(Name::Id, &self.id);
        node.put_scalar::<u8>(Name::Port, &self.port);
        node
    }
}

impl Element for MidiDevice {
    open spec fn valid(v: MidiDeviceView) -> bool {
        true
    }

    open spec fn decode(n: NodeView) -> Result<MidiDeviceView, DecodeErrorView> {
        MidiDevice::decode_node(n)
    }

    open spec fn encode(v: MidiDeviceView, tag: Seq<char>) -> NodeView {
        MidiDevice::encode_value(v, tag)
    }

    proof fn encode_tag(v: MidiDeviceView, tag: Seq<char>) {
        MidiDevice::encoded_tag(v, tag);
    }

    proof fn decode_encode(v: MidiDeviceView, tag: Seq<char>) {
        MidiDevice::round_trip(v, tag);
    }

    proof fn decode_valid(n: NodeView) {
        MidiDevice::decoded_valid(n);
    }

    fn from_node(node: &Node) -> (r: Result<MidiDevice, DecodeError>) {
        MidiDevice::read_node(node)
    }

    fn to_node(&self, tag: &str) -> (r: Node) {
        self.write_node(tag)
    }
}

} // verus!
