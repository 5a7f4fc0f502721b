//! The backup marker.
use crate::codec::{Element, element_nodes, group_codec, text_nodes};
use crate::error::{DecodeError, DecodeErrorView};
use crate::level::{Level, LevelView};
use crate::names::Name;
use crate::node::{Node, NodeView};
use crate::printable_value::{PrintableValue, PrintableValueView};
use crate::scalar::Scalar;
use vstd::prelude::*;

verus! {

/// Moves the cursor of a measure back by a duration.
#[derive(Clone, Debug, PartialEq)]
pub struct Backup {
    /// The text of the child `duration`; zero where the child is not there.
    pub duration: usize,
    /// The child `footnote`, if it is there.
    pub footnote: Option<PrintableValue<String>>,
    /// The child `level`, if it is there.
    pub level: Option<Level>,
}

/// The mathematical value of a [`Backup`].
pub struct BackupView {
    pub duration: usize,
    pub footnote: Option<PrintableValueView<Seq<char>>>,
    pub level: Option<LevelView>,
}

impl DeepView for Backup {
    type V = BackupView;

    open spec fn deep_view(&self) -> BackupView {
        BackupView {
            duration: self.duration.deep_view(),
            footnote: self.footnote.deep_view(),
            level: self.level.deep_view(),
        }
    }
}

impl Backup {
    /// The value that an element denotes. The fields are read in the order in
    /// which they are declared; the first one that fails gives the error.
    #[verifier::opaque]
    pub open spec fn decode_node(n: NodeView) -> Result<BackupView, DecodeErrorView> {
        let duration = n.text_or::<usize>(Name::Duration, 0);
        let footnote = n.element_opt::<PrintableValue<String>>(Name::Footnote);
        let level = n.element_opt::<Level>(Name::Level);
        if duration is Err {
            Err(duration->Err_0)
        } else if footnote is Err {
            Err(footnote->Err_0)
        } else if level is Err {
            Err(level->Err_0)
        } else {
            Ok(
                BackupView {
                    duration: duration->Ok_0,
                    footnote: footnote->Ok_0,
                    level: level->Ok_0,
                }
            )
        }
    }

    /// The element that a value is written as.
    #[verifier::opaque]
    pub open spec fn encode_value(v: BackupView, tag: Seq<char>) -> NodeView {
        NodeView::new(tag)
            .with_children(text_nodes::<usize>(Name::Duration, Some(v.duration)))
            .with_children(element_nodes::<PrintableValue<String>>(Name::Footnote, v.footnote))
            .with_children(element_nodes::<Level>(Name::Level, v.level))
    }

    /// An encoded element bears the tag it was given.
    pub proof fn encoded_tag(v: BackupView, tag: Seq<char>)
        ensures
            Backup::encode_value(v, tag).tag == tag,
    {
        broadcast use group_codec;

        reveal(Backup::encode_value);
    }

    /// Decoding what was encoded gives the value back.
    pub proof fn round_trip(v: BackupView, tag: Seq<char>)
        requires
            <Backup as Element>::valid(v),
        ensures
            Backup::decode_node(Backup::encode_value(v, tag))
                == Ok::<BackupView, DecodeErrorView>(v),
    {
        broadcast use group_codec;

        let n = Backup::encode_value(v, tag);
        assert(
            n.text_or::<usize>(Name::Duration, 0)
                == Ok::<usize, DecodeErrorView>(v.duration)
        ) by {
            reveal(Backup::encode_value);
            reveal(NodeView::text_or);
            reveal(NodeView::text_opt);
            reveal(NodeView::only_child);
            reveal(NodeView::content);
            usize::parse_text(v.duration);
        }
        assert(
            n.element_opt::<PrintableValue<String>>(Name::Footnote)
                == Ok::<Option<PrintableValueView<Seq<char>>>, DecodeErrorView>(v.footnote)
        ) by {
            reveal(Backup::encode_value);
            reveal(NodeView::element_opt);
            reveal(NodeView::only_child);
            if let Some(x) = v.footnote {
                PrintableValue::<String>::decode_encode(x, Name::Footnote.text());
            }
        }
        assert(
            n.element_opt::<Level>(Name::Level)
                == Ok::<Option<LevelView>, DecodeErrorView>(v.level)
        ) by {
            reveal(Backup::encode_value);
            reveal(NodeView::element_opt);
            reveal(NodeView::only_child);
            if let Some(x) = v.level {
                Level::decode_encode(x, Name::Level.text());
            }
        }
        reveal(Backup::decode_node);
    }

    /// Decoding gives valid values only.
    pub proof fn decoded_valid(n: NodeView)
        ensures
            Backup::decode_node(n) matches Ok(v) ==> <Backup as Element>::valid(v),
    {
        reveal(Backup::decode_node);
        reveal(NodeView::element_opt);
        if let Ok(Some(c)) = n.only_child(Name::Footnote) {
            PrintableValue::<String>::decode_valid(c);
        }
        if let Ok(Some(c)) = n.only_child(Name::Level) {
            Level::decode_valid(c);
        }
    }

    /// Decodes an element.
    pub fn read_node(node: &Node) -> (r: Result<Backup, DecodeError>)
        ensures
            r matches Ok(v) ==>
                Backup::decode_node(node.deep_view()) == Ok::<BackupView, DecodeErrorView>(
                v.deep_view(),
            ),
            r matches Err(e) ==>
                Backup::decode_node(node.deep_view()) == Err::<BackupView, DecodeErrorView>(
                e.deep_view(),
            ),
    {
        proof {
            reveal(Backup::decode_node);
        }
        let duration = node.text_or::<usize>(Name::Duration, 0)?;
        let footnote = node.element_opt::<PrintableValue<String>>(Name::Footnote)?;
        let level = node.element_opt::<Level>(Name::Level)?;
        Ok(Backup { duration, footnote, level })
    }

    /// Encodes a value as an element with the given tag.
    pub fn write_node(&self, tag: &str) -> (r: Node)
        ensures
            r.deep_view() == Backup::encode_value(self.deep_view(), tag@),
    {
        proof {
            reveal(Backup::encode_value);
        }
        let mut node = Node::new(tag);
        node.put_text::<usize>(Name::Duration, &self.duration);
        node.put_element_opt::<PrintableValue<String>>(Name::Footnote, &self.footnote);
        node.put_element_opt::<Level>(Name::Level, &self.level);
        node
    }
}

impl Element for Backup {
    open spec fn valid(v: BackupView) -> bool {
        &&& (v.footnote matches Some(x) ==> PrintableValue::<String>::valid(x))
        &&& (v.level matches Some(x) ==> Level::valid(x))
    }

    open spec fn decode(n: NodeView) -> Result<BackupView, DecodeErrorView> {
        Backup::decode_node(n)
    }

    open spec fn encode(v: BackupView, tag: Seq<char>) -> NodeView {
        Backup::encode_value(v, tag)
    }

    proof fn encode_tag(v: BackupView, tag: Seq<char>) {
        Backup::encoded_tag(v, tag);
    }

    proof fn decode_encode(v: BackupView, tag: Seq<char>) {
        Backup::round_trip(v, tag);
    }

    proof fn decode_valid(n: NodeView) {
        Backup::decoded_valid(n);
    }

    fn from_node(node: &Node) -> (r: Result<Backup, DecodeError>) {
        Backup::read_node(node)
    }

    fn to_node(&self, tag: &str) -> (r: Node) {
        self.write_node(tag)
    }
}

} // verus!
