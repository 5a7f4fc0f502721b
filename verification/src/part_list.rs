//! The part list.
use crate::codec::{
    all_valid_variants, Element, encode_variants, group_codec, lemma_decode_encode_variants,
    lemma_decode_variants_valid, Tagged,
};
use crate::error::{DecodeError, DecodeErrorView, ErrorKind};
use crate::names::Name;
use crate::node::{Node, NodeView};
use crate::part_group::{PartGroup, PartGroupView};
use crate::printable_value::{PrintableValue, PrintableValueView};
use crate::score_part::{ScorePart, ScorePartView};
use vstd::prelude::*;

verus! {

/// The declarations of the parts of a score.
#[derive(Clone, Debug, PartialEq)]
pub struct PartList {
    /// The children, in document order.
    pub parts: Vec<PartListContent>,
}

/// The mathematical value of a [`PartList`].
pub struct PartListView {
    pub parts: Seq<PartListContentView>,
}

impl DeepView for PartList {
    type V = PartListView;

    open spec fn deep_view(&self) -> PartListView {
        PartListView {
            parts: self.parts.deep_view(),
        }
    }
}

impl PartList {
    /// The value with every field at its default.
    pub open spec fn initial() -> PartListView {
        PartListView {
            parts: Seq::empty(),
        }
    }
}

impl Default for PartList {
    fn default() -> (r: PartList)
        ensures
            r.deep_view() == PartList::initial(),
    {
        let r = PartList {
            parts: Vec::new(),
        };
        proof {
            assert(r.parts.deep_view() =~= Seq::empty());
        }
        r
    }
}

impl PartList {
    /// The value that an element denotes. The fields are read in the order in
    /// which they are declared; the first one that fails gives the error.
    #[verifier::opaque]
    pub open spec fn decode_node(n: NodeView) -> Result<PartListView, DecodeErrorView> {
        let parts = n.variants::<PartListContent>();
        if parts is Err {
            Err(parts->Err_0)
        } else {
            Ok(
                PartListView {
                    parts: parts->Ok_0,
                }
            )
        }
    }

    /// The element that a value is written as.
    #[verifier::opaque]
    pub open spec fn encode_value(v: PartListView, tag: Seq<char>) -> NodeView {
        NodeView::new(tag)
            .with_children(encode_variants::<PartListContent>(v.parts))
    }

    /// An encoded element bears the tag it was given.
    pub proof fn encoded_tag(v: PartListView, tag: Seq<char>)
        ensures
            PartList::encode_value(v, tag).tag == tag,
    {
        broadcast use group_codec;

        reveal(PartList::encode_value);
    }

    /// Decoding what was encoded gives the value back.
    pub proof fn round_trip(v: PartListView, tag: Seq<char>)
        requires
            <PartList as Element>::valid(v),
        ensures
            PartList::decode_node(PartList::encode_value(v, tag))
                == Ok::<PartListView, DecodeErrorView>(v),
    {
        broadcast use group_codec;

        let n = PartList::encode_value(v, tag);
        assert(
            n.variants::<PartListContent>()
                == Ok::<Seq<PartListContentView>, DecodeErrorView>(v.parts)
        ) by {
            reveal(PartList::encode_value);
            reveal(NodeView::variants);
            lemma_decode_encode_variants::<PartListContent>(v.parts, tag);
        }
        reveal(PartList::decode_node);
    }

    /// Decoding gives valid values only.
    pub proof fn decoded_valid(n: NodeView)
        ensures
            PartList::decode_node(n) matches Ok(v) ==> <PartList as Element>::valid(v),
    {
        reveal(PartList::decode_node);
        reveal(NodeView::variants);
        lemma_decode_variants_valid::<PartListContent>(n.children, n.tag);
    }

    /// Decodes an element.
    pub fn read_node(node: &Node) -> (r: Result<PartList, DecodeError>)
        ensures
            r matches Ok(v) ==>
                PartList::decode_node(node.deep_view()) == Ok::<PartListView, DecodeErrorView>(
                v.deep_view(),
            ),
            r matches Err(e) ==>
                PartList::decode_node(node.deep_view()) == Err::<PartListView, DecodeErrorView>(
                e.deep_view(),
            ),
    {
        proof {
            reveal(PartList::decode_node);
        }
        let parts = node.variants::<PartListContent>()?;
        Ok(PartList { parts })
    }

    /// Encodes a value as an element with the given tag.
    pub fn write_node(&self, tag: &str) -> (r: Node)
        ensures
            r.deep_view() == PartList::encode_value(self.deep_view(), tag@),
    {
        proof {
            reveal(PartList::encode_value);
        }
        let mut node = Node::new(tag);
        node.put_variants::<PartListContent>(&self.parts);
        node
    }
}

impl Element for PartList {
    open spec fn valid(v: PartListView) -> bool {
        &&& all_valid_variants::<PartListContent>(v.parts)
    }

    open spec fn decode(n: NodeView) -> Result<PartListView, DecodeErrorView> {
        PartList::decode_node(n)
    }

    open spec fn encode(v: PartListView, tag: Seq<char>) -> NodeView {
        PartList::encode_value(v, tag)
    }

    proof fn encode_tag(v: PartListView, tag: Seq<char>) {
        PartList::encoded_tag(v, tag);
    }

    proof fn decode_encode(v: PartListView, tag: Seq<char>) {
        PartList::round_trip(v, tag);
    }

    proof fn decode_valid(n: NodeView) {
        PartList::decoded_valid(n);
    }

    fn from_node(node: &Node) -> (r: Result<PartList, DecodeError>) {
        PartList::read_node(node)
    }

    fn to_node(&self, tag: &str) -> (r: Node) {
        self.write_node(tag)
    }
}

/// An entry of the part list.
#[derive(Clone, Debug, PartialEq)]
pub enum PartListContent {
    /// The element `part-group`.
    PartGroup(PartGroup),
    /// The element `score-part`.
    ScorePart(ScorePart),
    /// The element `part-name`.
    PartName(PrintableValue<String>),
}

/// The mathematical value of a [`PartListContent`].
pub enum PartListContentView {
    PartGroup(PartGroupView),
    ScorePart(ScorePartView),
    PartName(PrintableValueView<Seq<char>>),
}

impl DeepView for PartListContent {
    type V = PartListContentView;

    open spec fn deep_view(&self) -> PartListContentView {
        match self {
            PartListContent::PartGroup(x) => PartListContentView::PartGroup(x.deep_view()),
            PartListContent::ScorePart(x) => PartListContentView::ScorePart(x.deep_view()),
            PartListContent::PartName(x) => PartListContentView::PartName(x.deep_view()),
        }
    }
}

impl PartListContent {
    /// The variant that an element denotes: the tag chooses the variant, the
    /// rest of the element gives what the variant holds.
    #[verifier::opaque]
    pub open spec fn decode_node(n: NodeView) -> Result<PartListContentView, DecodeErrorView> {
        match Name::of_text(n.tag) {
            Some(Name::PartGroup) => match PartGroup::decode(n) {
                Ok(x) => Ok(PartListContentView::PartGroup(x)),
                Err(e) => Err(e),
            },
            Some(Name::ScorePart) => match ScorePart::decode(n) {
                Ok(x) => Ok(PartListContentView::ScorePart(x)),
                Err(e) => Err(e),
            },
            Some(Name::PartName) => match PrintableValue::<String>::decode(n) {
                Ok(x) => Ok(PartListContentView::PartName(x)),
                Err(e) => Err(e),
            },
            _ => Err(n.unknown()),
        }
    }

    /// The element that a variant is written as.
    #[verifier::opaque]
    pub open spec fn encode_value(v: PartListContentView) -> NodeView {
        match v {
            PartListContentView::PartGroup(x) => PartGroup::encode(x, Name::PartGroup.text()),
            PartListContentView::ScorePart(x) => ScorePart::encode(x, Name::ScorePart.text()),
            PartListContentView::PartName(x) =>
                PrintableValue::<String>::encode(x, Name::PartName.text()),
        }
    }

    /// The tag of a variant.
    pub open spec fn name_of(v: PartListContentView) -> Name {
        match v {
            PartListContentView::PartGroup(_) => Name::PartGroup,
            PartListContentView::ScorePart(_) => Name::ScorePart,
            PartListContentView::PartName(_) => Name::PartName,
        }
    }

    /// An encoded variant bears the tag of the variant.
    pub proof fn encoded_name(v: PartListContentView)
        ensures
            PartListContent::encode_value(v).tag == PartListContent::name_of(v).text(),
    {
        broadcast use group_codec;

        reveal(PartListContent::encode_value);
        match v {
            PartListContentView::PartGroup(x) => {
                PartGroup::encode_tag(x, Name::PartGroup.text());
            },
            PartListContentView::ScorePart(x) => {
                ScorePart::encode_tag(x, Name::ScorePart.text());
            },
            PartListContentView::PartName(x) => {
                PrintableValue::<String>::encode_tag(x, Name::PartName.text());
            },
            _ => {
            },
        }
    }

    /// Decoding what was encoded gives the variant back.
    pub proof fn round_trip(v: PartListContentView)
        requires
            <PartListContent as Tagged>::valid(v),
        ensures
            PartListContent::decode_node(PartListContent::encode_value(v))
                == Ok::<PartListContentView, DecodeErrorView>(v),
    {
        broadcast use group_codec;

        let n = PartListContent::encode_value(v);
        assert(Name::of_text(n.tag) == Some(PartListContent::name_of(v))) by {
            PartListContent::encoded_name(v);
        }
        match v {
            PartListContentView::PartGroup(x) => {
                reveal(PartListContent::encode_value);
                PartGroup::decode_encode(x, Name::PartGroup.text());
            },
            PartListContentView::ScorePart(x) => {
                reveal(PartListContent::encode_value);
                ScorePart::decode_encode(x, Name::ScorePart.text());
            },
            PartListContentView::PartName(x) => {
                reveal(PartListContent::encode_value);
                PrintableValue::<String>::decode_encode(x, Name::PartName.text());
            },
        }
        reveal(PartListContent::decode_node);
    }

    /// Decoding gives valid values only.
    pub proof fn decoded_valid(n: NodeView)
        ensures
            PartListContent::decode_node(n) matches Ok(v) ==> <PartListContent as Tagged>::valid(v),
    {
        reveal(PartListContent::decode_node);
        PartGroup::decode_valid(n);
        ScorePart::decode_valid(n);
        PrintableValue::<String>::decode_valid(n);
    }

    /// Decodes an element.
    pub fn read_node(node: &Node) -> (r: Result<PartListContent, DecodeError>)
        ensures
            r matches Ok(v) ==>
                PartListContent::decode_node(node.deep_view())
                    == Ok::<PartListContentView, DecodeErrorView>(
                v.deep_view(),
            ),
            r matches Err(e) ==>
                PartListContent::decode_node(node.deep_view())
                    == Err::<PartListContentView, DecodeErrorView>(
                e.deep_view(),
            ),
    {
        proof {
            reveal(PartListContent::decode_node);
        }
        match Name::from_str(node.tag_str()) {
            Some(Name::PartGroup) => match PartGroup::from_node(node) {
                Ok(x) => Ok(PartListContent::PartGroup(x)),
                Err(e) => Err(e),
            },
            Some(Name::ScorePart) => match ScorePart::from_node(node) {
                Ok(x) => Ok(PartListContent::ScorePart(x)),
                Err(e) => Err(e),
            },
            Some(Name::PartName) => match PrintableValue::<String>::from_node(node) {
                Ok(x) => Ok(PartListContent::PartName(x)),
                Err(e) => Err(e),
            },
            _ => Err(DecodeError::at(ErrorKind::StructuralError, node.tag_str())),
        }
    }

    /// Encodes a variant.
    pub fn write_node(&self) -> (r: Node)
        ensures
            r.deep_view() == PartListContent::encode_value(self.deep_view()),
    {
        proof {
            reveal(PartListContent::encode_value);
        }
        match self {
            PartListContent::PartGroup(x) => x.to_node(Name::PartGroup.as_str()),
            PartListContent::ScorePart(x) => x.to_node(Name::ScorePart.as_str()),
            PartListContent::PartName(x) => x.to_node(Name::PartName.as_str()),
        }
    }
}

impl Tagged for PartListContent {
    open spec fn valid(v: PartListContentView) -> bool {
        match v {
            PartListContentView::PartGroup(x) => PartGroup::valid(x),
            PartListContentView::ScorePart(x) => ScorePart::valid(x),
            PartListContentView::PartName(x) => PrintableValue::<String>::valid(x),
        }
    }

    open spec fn decode(n: NodeView) -> Result<PartListContentView, DecodeErrorView> {
        PartListContent::decode_node(n)
    }

    open spec fn encode(v: PartListContentView) -> NodeView {
        PartListContent::encode_value(v)
    }

    open spec fn name(v: PartListContentView) -> Name {
        PartListContent::name_of(v)
    }

    proof fn encode_name(v: PartListContentView) {
        PartListContent::encoded_name(v);
    }

    proof fn decode_encode(v: PartListContentView) {
        PartListContent::round_trip(v);
    }

    proof fn decode_valid(n: NodeView) {
        PartListContent::decoded_valid(n);
    }

    fn from_node(node: &Node) -> (r: Result<PartListContent, DecodeError>) {
        PartListContent::read_node(node)
    }

    fn to_node(&self) -> (r: Node) {
        self.write_node()
    }
}

} // verus!
