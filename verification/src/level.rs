//! Editorial levels.
use crate::codec::{Element, group_codec};
use crate::error::{DecodeError, DecodeErrorView};
use crate::names::Name;
use crate::node::{Node, NodeView};
use crate::start_stop_single::StartStopSingle;
use crate::symbol_size::SymbolSize;
use crate::yes_no::YesNo;
use vstd::prelude::*;

verus! {

/// An editorial level.
#[derive(Clone, Debug, PartialEq)]
pub struct Level {
    /// The text of the element; the empty text where it has none.
    pub content: String,
    /// The attribute `bracket`, if it is written.
    pub bracket: Option<YesNo>,
    /// The attribute `parentheses`, if it is written.
    pub parentheses: Option<YesNo>,
    /// The attribute `reference`, if it is written.
    pub reference: Option<YesNo>,
    /// The attribute `size`, if it is written.
    pub size: Option<SymbolSize>,
    /// The attribute `type`, if it is written.
    pub type_: Option<StartStopSingle>,
}

/// The mathematical value of a [`Level`].
pub struct LevelView {
    pub content: Seq<char>,
    pub bracket: Option<YesNo>,
    pub parentheses: Option<YesNo>,
    pub reference: Option<YesNo>,
    pub size: Option<SymbolSize>,
    pub type_: Option<StartStopSingle>,
}

impl DeepView for Level {
    type V = LevelView;

    open spec fn deep_view(&self) -> LevelView {
        LevelView {
            content: self.content.deep_view(),
            bracket: self.bracket.deep_view(),
            parentheses: self.parentheses.deep_view(),
            reference: self.reference.deep_view(),
            size: self.size.deep_view(),
            type_: self.type_.deep_view(),
        }
    }
}

impl Level {
    /// The value with every field at its default.
    pub open spec fn initial() -> LevelView {
        LevelView {
            content: Seq::<char>::empty(),
            bracket: None,
            parentheses: None,
            reference: None,
            size: None,
            type_: None,
        }
    }
}

impl Default for Level {
    fn default() -> (r: Level)
        ensures
            r.deep_view() == Level::initial(),
    {
        let r = Level {
            content: String::new(),
            bracket: None,
            parentheses: None,
            reference: None,
            size: None,
            type_: None,
        };
        r
    }
}

impl Level {
    /// The value that an element denotes. The fields are read in the order in
    /// which they are declared; the first one that fails gives the error.
    #[verifier::opaque]
    pub open spec fn decode_node(n: NodeView) -> Result<LevelView, DecodeErrorView> {
        let content = n.content_or::<String>(Seq::<char>::empty());
        let bracket = n.attribute_opt::<YesNo>(Name::Bracket);
        let parentheses = n.attribute_opt::<YesNo>(Name::Parentheses);
        let reference = n.attribute_opt::<YesNo>(Name::Reference);
        let size = n.attribute_opt::<SymbolSize>(Name::Size);
        let type_ = n.attribute_opt::<StartStopSingle>(Name::Type);
        if content is Err {
            Err(content->Err_0)
        } else if bracket is Err {
            Err(bracket->Err_0)
        } else if parentheses is Err {
            Err(parentheses->Err_0)
        } else if reference is Err {
            Err(reference->Err_0)
        } else if size is Err {
            Err(size->Err_0)
        } else if type_ is Err {
            Err(type_->Err_0)
        } else {
            Ok(
                LevelView {
                    content: content->Ok_0,
                    bracket: bracket->Ok_0,
                    parentheses: parentheses->Ok_0,
                    reference: reference->Ok_0,
                    size: size->Ok_0,
                    type_: type_->Ok_0,
                }
            )
        }
    }

    /// The element that a value is written as.
    #[verifier::opaque]
    pub open spec fn encode_value(v: LevelView, tag: Seq<char>) -> NodeView {
        NodeView::new(tag)
            .with_content::<String>(v.content)
            .with_scalar_opt::<YesNo>(Name::Bracket, v.bracket)
            .with_scalar_opt::<YesNo>(Name::Parentheses, v.parentheses)
            .with_scalar_opt::<YesNo>(Name::Reference, v.reference)
            .with_scalar_opt::<SymbolSize>(Name::Size, v.size)
            .with_scalar_opt::<StartStopSingle>(Name::Type, v.type_)
    }

    /// An encoded element bears the tag it was given.
    pub proof fn encoded_tag(v: LevelView, tag: Seq<char>)
        ensures
            Level::encode_value(v, tag).tag == tag,
    {
        broadcast use group_codec;

        reveal(Level::encode_value);
    }

    /// Decoding what was encoded gives the value back.
    pub proof fn round_trip(v: LevelView, tag: Seq<char>)
        requires
            <Level as Element>::valid(v),
        ensures
            Level::decode_node(Level::encode_value(v, tag)) == Ok::<LevelView, DecodeErrorView>(v),
    {
        broadcast use group_codec;

        let n = Level::encode_value(v, tag);
        assert(
            n.content_or::<String>(Seq::<char>::empty())
                == Ok::<Seq<char>, DecodeErrorView>(v.content)
        ) by {
            reveal(Level::encode_value);
            reveal(NodeView::content_or);
            reveal(NodeView::content);
        }
        assert(
            n.attribute_opt::<YesNo>(Name::Bracket)
                == Ok::<Option<YesNo>, DecodeErrorView>(v.bracket)
        ) by {
            reveal(Level::encode_value);
        }
        assert(
            n.attribute_opt::<YesNo>(Name::Parentheses)
                == Ok::<Option<YesNo>, DecodeErrorView>(v.parentheses)
        ) by {
            reveal(Level::encode_value);
        }
        assert(
            n.attribute_opt::<YesNo>(Name::Reference)
                == Ok::<Option<YesNo>, DecodeErrorView>(v.reference)
        ) by {
            reveal(Level::encode_value);
        }
        assert(
            n.attribute_opt::<SymbolSize>(Name::Size)
                == Ok::<Option<SymbolSize>, DecodeErrorView>(v.size)
        ) by {
            reveal(Level::encode_value);
        }
        assert(
            n.attribute_opt::<StartStopSingle>(Name::Type)
                == Ok::<Option<StartStopSingle>, DecodeErrorView>(v.type_)
        ) by {
            reveal(Level::encode_value);
        }
        reveal(Level::decode_node);
    }

    /// Decoding gives valid values only.
    pub proof fn decoded_valid(n: NodeView)
        ensures
            Level::decode_node(n) matches Ok(v) ==> <Level as Element>::valid(v),
    {
        reveal(Level::decode_node);
    }

    /// Decodes an element.
    pub fn read_node(node: &Node) -> (r: Result<Level, DecodeError>)
        ensures
            r matches Ok(v) ==>
                Level::decode_node(node.deep_view()) == Ok::<LevelView, DecodeErrorView>(
                v.deep_view(),
            ),
            r matches Err(e) ==>
                Level::decode_node(node.deep_view()) == Err::<LevelView, DecodeErrorView>(
                e.deep_view(),
            ),
    {
        proof {
            reveal(Level::decode_node);
        }
        let content = node.content_or::<String>(String::new())?;
        let bracket = node.attribute_opt::<YesNo>(Name::Bracket)?;
        let parentheses = node.attribute_opt::<YesNo>(Name::Parentheses)?;
        let reference = node.attribute_opt::<YesNo>(Name::Reference)?;
        let size = node.attribute_opt::<SymbolSize>(Name::Size)?;
        let type_ = node.attribute_opt::<StartStopSingle>(Name::Type)?;
        Ok(Level { content, bracket, parentheses, reference, size, type_ })
    }

    /// Encodes a value as an element with the given tag.
    pub fn write_node(&self, tag: &str) -> (r: Node)
        ensures
            r.deep_view() == Level::encode_value(self.deep_view(), tag@),
    {
        proof {
            reveal(Level::encode_value);
        }
        let mut node = Node::new(tag);
        node.put_content::<String>(&self.content);
        node.put_scalar_opt::<YesNo>(Name::Bracket, &self.bracket);
        node.put_scalar_opt::<YesNo>(Name::Parentheses, &self.parentheses);
        node.put_scalar_opt::<YesNo>(Name::Reference, &self.reference);
        node.put_scalar_opt::<SymbolSize>(Name::Size, &self.size);
        node.put_scalar_opt::<StartStopSingle>(Name::Type, &self.type_);
        node
    }
}

impl Element for Level {
    open spec fn valid(v: LevelView) -> bool {
        true
    }

    open spec fn decode(n: NodeView) -> Result<LevelView, DecodeErrorView> {
        Level::decode_node(n)
    }

    open spec fn encode(v: LevelView, tag: Seq<char>) -> NodeView {
        Level::encode_value(v, tag)
    }

    proof fn encode_tag(v: LevelView, tag: Seq<char>) {
        Level::encoded_tag(v, tag);
    }

    proof fn decode_encode(v: LevelView, tag: Seq<char>) {
        Level::round_trip(v, tag);
    }

    proof fn decode_valid(n: NodeView) {
        Level::decoded_valid(n);
    }

    fn from_node(node: &Node) -> (r: Result<Level, DecodeError>) {
        Level::read_node(node)
    }

    fn to_node(&self, tag: &str) -> (r: Node) {
        self.write_node(tag)
    }
}

} // verus!
