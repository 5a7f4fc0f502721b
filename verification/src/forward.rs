//! The forward marker.
use crate::codec::{Element, element_nodes, group_codec, text_nodes};
use crate::error::{DecodeError, DecodeErrorView};
use crate::level::{Level, LevelView};
use crate::names::Name;
use crate::node::{Node, NodeView};
use crate::printable_value::{PrintableValue, PrintableValueView};
use crate::scalar::Scalar;
use vstd::prelude::*;

verus! {

/// Moves the cursor of a measure on by a duration.
#[derive(Clone, Debug, PartialEq)]
pub struct Forward {
    /// The text of the child `duration`; zero where the child is not there.
    pub duration: usize,
    /// The child `footnote`, if it is there.
    pub footnote: Option<PrintableValue<String>>,
    /// The child `level`, if it is there.
    pub level: Option<Level>,
    /// The text of the child `voice`, if the child is there.
    pub voice: Option<String>,
    /// The text of the child `staff`, if the child is there.
    pub staff: Option<u8>,
}

/// The mathematical value of a [`Forward`].
pub struct ForwardView {
    pub duration: usize,
    pub footnote: Option<PrintableValueView<Seq<char>>>,
    pub level: Option<LevelView>,
    pub voice: Option<Seq<char>>,
    pub staff: Option<u8>,
}

impl DeepView for Forward {
    type V = ForwardView;

    open spec fn deep_view(&self) -> ForwardView {
        ForwardView {
            duration: self.duration.deep_view(),
            footnote: self.footnote.deep_view(),
            level: self.level.deep_view(),
            voice: self.voice.deep_view(),
            staff: self.staff.deep_view(),
        }
    }
}

impl Forward {
    /// The value with every field at its default.
    pub open spec fn initial() -> ForwardView {
        ForwardView {
            duration: 0,
            footnote: None,
            level: None,
            voice: None,
            staff: None,
        }
    }
}

impl Default for Forward {
    fn default() -> (r: Forward)
        ensures
            r.deep_view() == Forward::initial(),
    {
        let r = Forward {
            duration: 0,
            footnote: None,
            level: None,
            voice: None,
            staff: None,
        };
        r
    }
}

impl Forward {
    /// The value that an element denotes. The fields are read in the order in
    /// which they are declared; the first one that fails gives the error.
    #[verifier::opaque]
    pub open spec fn decode_node(n: NodeView) -> Result<ForwardView, DecodeErrorView> {
        let duration = n.text_or::<usize>(Name::Duration, 0);
        let footnote = n.element_opt::<PrintableValue<String>>(Name::Footnote);
        let level = n.element_opt::<Level>(Name::Level);
        let voice = n.text_opt::<String>(Name::Voice);
        let staff = n.text_opt::<u8>(Name::Staff);
        if duration is Err {
            Err(duration->Err_0)
        } else if footnote is Err {
            Err(footnote->Err_0)
        } else if level is Err {
            Err(level->Err_0)
        } else if voice is Err {
            Err(voice->Err_0)
        } else if staff is Err {
            Err(staff->Err_0)
        } else {
            Ok(
                ForwardView {
                    duration: duration->Ok_0,
                    footnote: footnote->Ok_0,
                    level: level->Ok_0,
                    voice: voice->Ok_0,
                    staff: staff->Ok_0,
                }
            )
        }
    }

    /// The element that a value is written as.
    #[verifier::opaque]
    pub open spec fn encode_value(v: ForwardView, tag: Seq<char>) -> NodeView {
        NodeView::new(tag)
            .with_children(text_nodes::<usize>(Name::Duration, Some(v.duration)))
            .with_children(element_nodes::<PrintableValue<String>>(Name::Footnote, v.footnote))
            .with_children(element_nodes::<Level>(Name::Level, v.level))
            .with_children(text_nodes::<String>(Name::Voice, v.voice))
            .with_children(text_nodes::<u8>(Name::Staff, v.staff))
    }

    /// An encoded element bears the tag it was given.
    pub proof fn encoded_tag(v: ForwardView, tag: Seq<char>)
        ensures
            Forward::encode_value(v, tag).tag == tag,
    {
        broadcast use group_codec;

        reveal(Forward::encode_value);
    }

    /// Decoding what was encoded gives the value back.
    pub proof fn round_trip(v: ForwardView, tag: Seq<char>)
        requires
            <Forward as Element>::valid(v),
        ensures
            Forward::decode_node(Forward::encode_value(v, tag))
                == Ok::<ForwardView, DecodeErrorView>(v),
    {
        broadcast use group_codec;

        let n = Forward::encode_value(v, tag);
        assert(
            n.text_or::<usize>(Name::Duration, 0)
                == Ok::<usize, DecodeErrorView>(v.duration)
        ) by {
            reveal(Forward::encode_value);
            reveal(NodeView::text_or);
            reveal(NodeView::text_opt);
            reveal(NodeView::only_child);
            reveal(NodeView::content);
            usize::parse_text(v.duration);
        }
        assert(
            n.element_opt::<PrintableValue<String>>(Name::Footnote)
                == Ok::<Option<PrintableValueView<Seq<char>>>, DecodeErrorView>(v.footnote)
        ) by {
            reveal(Forward::encode_value);
            reveal(NodeView::element_opt);
            reveal(NodeView::only_child);
            if let Some(x) = v.footnote {
                PrintableValue::<String>::decode_encode(x, Name::Footnote.text());
            }
        }
        assert(
            n.element_opt::<Level>(Name::Level)
                == Ok::<Option<LevelView>, DecodeErrorView>(v.level)
        ) by {
            reveal(Forward::encode_value);
            reveal(NodeView::element_opt);
            reveal(NodeView::only_child);
            if let Some(x) = v.level {
                Level::decode_encode(x, Name::Level.text());
            }
        }
        assert(
            n.text_opt::<String>(Name::Voice)
                == Ok::<Option<Seq<char>>, DecodeErrorView>(v.voice)
        ) by {
            reveal(Forward::encode_value);
            reveal(NodeView::text_opt);
            reveal(NodeView::only_child);
            reveal(NodeView::content);
        }
        assert(n.text_opt::<u8>(Name::Staff) == Ok::<Option<u8>, DecodeErrorView>(v.staff)) by {
            reveal(Forward::encode_value);
            reveal(NodeView::text_opt);
            reveal(NodeView::only_child);
            reveal(NodeView::content);
            if let Some(x) = v.staff {
                u8::parse_text(x);
            }
        }
        reveal(Forward::decode_node);
    }

    /// Decoding gives valid values only.
    pub proof fn decoded_valid(n: NodeView)
        ensures
            Forward::decode_node(n) matches Ok(v) ==> <Forward as Element>::valid(v),
    {
        reveal(Forward::decode_node);
        reveal(NodeView::element_opt);
        if let Ok(Some(c)) = n.only_child(Name::Footnote) {
            PrintableValue::<String>::decode_valid(c);
        }
        if let Ok(Some(c)) = n.only_child(Name::Level) {
            Level::decode_valid(c);
        }
    }

    /// Decodes an element.
    pub fn read_node(node: &Node) -> (r: Result<Forward, DecodeError>)
        ensures
            r matches Ok(v) ==>
                Forward::decode_node(node.deep_view()) == Ok::<ForwardView, DecodeErrorView>(
                v.deep_view(),
            ),
            r matches Err(e) ==>
                Forward::decode_node(node.deep_view()) == Err::<ForwardView, DecodeErrorView>(
                e.deep_view(),
            ),
    {
        proof {
            reveal(Forward::decode_node);
        }
        let duration = node.text_or::<usize>(Name::Duration, 0)?;
        let footnote = node.element_opt::<PrintableValue<String>>(Name::Footnote)?;
        let level = node.element_opt::<Level>(Name::Level)?;
        let voice = node.text_opt::<String>(Name::Voice)?;
        let staff = node.text_opt::<u8>(Name::Staff)?;
        Ok(Forward { duration, footnote, level, voice, staff })
    }

    /// Encodes a value as an element with the given tag.
    pub fn write_node(&self, tag: &str) -> (r: Node)
        ensures
            r.deep_view() == Forward::encode_value(self.deep_view(), tag@),
    {
        proof {
            reveal(Forward::encode_value);
        }
        let mut node = Node::new(tag);
        node.put_text::<usize>(Name::Duration, &self.duration);
        node.put_element_opt::<PrintableValue<String>>(Name::Footnote, &self.footnote);
        node.put_element_opt::<Level>(Name::Level, &self.level);
        node.put_text_opt::<String>(Name::Voice, &self.voice);
        node.put_text_opt::<u8>(Name::Staff, &self.staff);
        node
    }
}

impl Element for Forward {
    open spec fn valid(v: ForwardView) -> bool {
        &&& (v.footnote matches Some(x) ==> PrintableValue::<String>::valid(x))
        &&& (v.level matches Some(x) ==> Level::valid(x))
    }

    open spec fn decode(n: NodeView) -> Result<ForwardView, DecodeErrorView> {
        Forward::decode_node(n)
    }

    open spec fn encode(v: ForwardView, tag: Seq<char>) -> NodeView {
        Forward::encode_value(v, tag)
    }

    proof fn encode_tag(v: ForwardView, tag: Seq<char>) {
        Forward::encoded_tag(v, tag);
    }

    proof fn decode_encode(v: ForwardView, tag: Seq<char>) {
        Forward::round_trip(v, tag);
    }

    proof fn decode_valid(n: NodeView) {
        Forward::decoded_valid(n);
    }

    fn from_node(node: &Node) -> (r: Result<Forward, DecodeError>) {
        Forward::read_node(node)
    }

    fn to_node(&self, tag: &str) -> (r: Node) {
        self.write_node(tag)
    }
}

} // verus!
