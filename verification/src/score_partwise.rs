//! Scores, and the rule that ties part bodies to their declarations.
use crate::codec::{
    all_valid, Element, element_nodes, encode_elements, group_codec, lemma_decode_elements_valid,
    lemma_decode_encode_elements, text_nodes,
};
use crate::credit::{Credit, CreditView};
use crate::error::{DecodeError, DecodeErrorView, ErrorKind, IntegrityFault};
use crate::identification::{Identification, IdentificationView};
use crate::names::Name;
use crate::node::{Node, NodeView};
use crate::part::{Part, PartView};
use crate::part_list::{PartList, PartListContent, PartListContentView, PartListView};
use crate::score_part::{ScorePart, ScorePartView};
use crate::text::same_text;
use crate::work::{Work, WorkView};
use vstd::prelude::*;

verus! {

/// A score, part by part: its declarations and the bodies of its parts.
#[derive(Clone, Debug, PartialEq)]
pub struct ScorePartwise {
    /// The child `work`, if it is there.
    pub work: Option<Work>,
    /// The text of the child `movement-number`, if the child is there.
    pub movement_number: Option<String>,
    /// The text of the child `movement-title`, if the child is there.
    pub movement_title: Option<String>,
    /// The attribute `version`; the empty text where it is not written.
    pub version: String,
    /// The child `part-list`; with every field at its default where it is
    /// not there.
    pub part_list: PartList,
    /// The children `part`, in document order.
    pub parts: Vec<Part>,
    /// The child `identification`, if it is there.
    pub identification: Option<Identification>,
    /// The children `credits`, in document order.
    pub credits: Vec<Credit>,
}

/// The mathematical value of a [`ScorePartwise`].
pub struct ScorePartwiseView {
    pub work: Option<WorkView>,
    pub movement_number: Option<Seq<char>>,
    pub movement_title: Option<Seq<char>>,
    pub version: Seq<char>,
    pub part_list: PartListView,
    pub parts: Seq<PartView>,
    pub identification: Option<IdentificationView>,
    pub credits: Seq<CreditView>,
}

impl DeepView for ScorePartwise {
    type V = ScorePartwiseView;

    open spec fn deep_view(&self) -> ScorePartwiseView {
        ScorePartwiseView {
            work: self.work.deep_view(),
            movement_number: self.movement_number.deep_view(),
            movement_title: self.movement_title.deep_view(),
            version: self.version.deep_view(),
            part_list: self.part_list.deep_view(),
            parts: self.parts.deep_view(),
            identification: self.identification.deep_view(),
            credits: self.credits.deep_view(),
        }
    }
}

impl ScorePartwise {
    /// The value that an element denotes. The fields are read in the order in
    /// which they are declared; the first one that fails gives the error.
    #[verifier::opaque]
    pub open spec fn decode_node(n: NodeView) -> Result<ScorePartwiseView, DecodeErrorView> {
        let work = n.element_opt::<Work>(Name::Work);
        let movement_number = n.text_opt::<String>(Name::MovementNumber);
        let movement_title = n.text_opt::<String>(Name::MovementTitle);
        let version = n.attribute_or::<String>(Name::Version, Seq::<char>::empty());
        let part_list = n.element_or::<PartList>(Name::PartList, PartList::initial());
        let parts = n.elements::<Part>(Name::Part);
        let identification = n.element_opt::<Identification>(Name::Identification);
        let credits = n.elements::<Credit>(Name::Credits);
        if work is Err {
            Err(work->Err_0)
        } else if movement_number is Err {
            Err(movement_number->Err_0)
        } else if movement_title is Err {
            Err(movement_title->Err_0)
        } else if version is Err {
            Err(version->Err_0)
        } else if part_list is Err {
            Err(part_list->Err_0)
        } else if parts is Err {
            Err(parts->Err_0)
        } else if identification is Err {
            Err(identification->Err_0)
        } else if credits is Err {
            Err(credits->Err_0)
        } else {
            let v = ScorePartwiseView {
                work: work->Ok_0,
                movement_number: movement_number->Ok_0,
                movement_title: movement_title->Ok_0,
                version: version->Ok_0,
                part_list: part_list->Ok_0,
                parts: parts->Ok_0,
                identification: identification->Ok_0,
                credits: credits->Ok_0,
            };
            if ScorePartwise::rule(v) {
                Ok(v)
            } else {
                Err(
                    DecodeErrorView::at(
                        ErrorKind::IntegrityError(IntegrityFault::UnresolvedPartId),
                        n.tag,
                    ),
                )
            }
        }
    }

    /// The element that a value is written as.
    #[verifier::opaque]
    pub open spec fn encode_value(v: ScorePartwiseView, tag: Seq<char>) -> NodeView {
        NodeView::new(tag)
            .with_children(element_nodes::<Work>(Name::Work, v.work))
            .with_children(text_nodes::<String>(Name::MovementNumber, v.movement_number))
            .with_children(text_nodes::<String>(Name::MovementTitle, v.movement_title))
            .with_scalar::<String>(Name::Version, v.version)
            .with_children(element_nodes::<PartList>(Name::PartList, Some(v.part_list)))
            .with_children(encode_elements::<Part>(Name::Part, v.parts))
            .with_children(element_nodes::<Identification>(Name::Identification, v.identification))
            .with_children(encode_elements::<Credit>(Name::Credits, v.credits))
    }

    /// An encoded element bears the tag it was given.
    pub proof fn encoded_tag(v: ScorePartwiseView, tag: Seq<char>)
        ensures
            ScorePartwise::encode_value(v, tag).tag == tag,
    {
        broadcast use group_codec;

        reveal(ScorePartwise::encode_value);
    }

    /// Decoding what was encoded gives the value back.
    pub proof fn round_trip(v: ScorePartwiseView, tag: Seq<char>)
        requires
            <ScorePartwise as Element>::valid(v),
        ensures
            ScorePartwise::decode_node(ScorePartwise::encode_value(v, tag))
                == Ok::<ScorePartwiseView, DecodeErrorView>(v),
    {
        broadcast use group_codec;

        let n = ScorePartwise::encode_value(v, tag);
        assert(
            n.element_opt::<Work>(Name::Work)
                == Ok::<Option<WorkView>, DecodeErrorView>(v.work)
        ) by {
            reveal(ScorePartwise::encode_value);
            reveal(NodeView::element_opt);
            reveal(NodeView::only_child);
            if let Some(x) = v.work {
                Work::decode_encode(x, Name::Work.text());
            }
        }
        assert(
            n.text_opt::<String>(Name::MovementNumber)
                == Ok::<Option<Seq<char>>, DecodeErrorView>(v.movement_number)
        ) by {
            reveal(ScorePartwise::encode_value);
            reveal(NodeView::text_opt);
            reveal(NodeView::only_child);
            reveal(NodeView::content);
        }
        assert(
            n.text_opt::<String>(Name::MovementTitle)
                == Ok::<Option<Seq<char>>, DecodeErrorView>(v.movement_title)
        ) by {
            reveal(ScorePartwise::encode_value);
            reveal(NodeView::text_opt);
            reveal(NodeView::only_child);
            reveal(NodeView::content);
        }
        assert(
            n.attribute_or::<String>(Name::Version, Seq::<char>::empty())
                == Ok::<Seq<char>, DecodeErrorView>(v.version)
        ) by {
            reveal(ScorePartwise::encode_value);
        }
        assert(
            n.element_or::<PartList>(Name::PartList, PartList::initial())
                == Ok::<PartListView, DecodeErrorView>(v.part_list)
        ) by {
            reveal(ScorePartwise::encode_value);
            reveal(NodeView::element_or);
            reveal(NodeView::element_opt);
            reveal(NodeView::only_child);
            PartList::decode_encode(v.part_list, Name::PartList.text());
        }
        assert(n.elements::<Part>(Name::Part) == Ok::<Seq<PartView>, DecodeErrorView>(v.parts)) by {
            reveal(ScorePartwise::encode_value);
            reveal(NodeView::elements);
            lemma_decode_encode_elements::<Part>(Name::Part, v.parts, tag);
        }
        assert(
            n.element_opt::<Identification>(Name::Identification)
                == Ok::<Option<IdentificationView>, DecodeErrorView>(v.identification)
        ) by {
            reveal(ScorePartwise::encode_value);
            reveal(NodeView::element_opt);
            reveal(NodeView::only_child);
            if let Some(x) = v.identification {
                Identification::decode_encode(x, Name::Identification.text());
            }
        }
        assert(
            n.elements::<Credit>(Name::Credits)
                == Ok::<Seq<CreditView>, DecodeErrorView>(v.credits)
        ) by {
            reveal(ScorePartwise::encode_value);
            reveal(NodeView::elements);
            lemma_decode_encode_elements::<Credit>(Name::Credits, v.credits, tag);
        }
        reveal(ScorePartwise::decode_node);
    }

    /// Decoding gives valid values only.
    pub proof fn decoded_valid(n: NodeView)
        ensures
            ScorePartwise::decode_node(n) matches Ok(v) ==> <ScorePartwise as Element>::valid(v),
    {
        reveal(ScorePartwise::decode_node);
        reveal(NodeView::element_opt);
        reveal(NodeView::element_or);
        reveal(NodeView::elements);
        if let Ok(Some(c)) = n.only_child(Name::Work) {
            Work::decode_valid(c);
        }
        if let Ok(Some(c)) = n.only_child(Name::PartList) {
            PartList::decode_valid(c);
        }
        lemma_decode_elements_valid::<Part>(n.children_with_tag(Name::Part.text()), n.tag);
        if let Ok(Some(c)) = n.only_child(Name::Identification) {
            Identification::decode_valid(c);
        }
        lemma_decode_elements_valid::<Credit>(n.children_with_tag(Name::Credits.text()), n.tag);
    }

    /// Decodes an element.
    pub fn read_node(node: &Node) -> (r: Result<ScorePartwise, DecodeError>)
        ensures
            r matches Ok(v) ==>
                ScorePartwise::decode_node(node.deep_view())
                    == Ok::<ScorePartwiseView, DecodeErrorView>(
                v.deep_view(),
            ),
            r matches Err(e) ==>
                ScorePartwise::decode_node(node.deep_view())
                    == Err::<ScorePartwiseView, DecodeErrorView>(
                e.deep_view(),
            ),
    {
        proof {
            reveal(ScorePartwise::decode_node);
        }
        let work = node.element_opt::<Work>(Name::Work)?;
        let movement_number = node.text_opt::<String>(Name::MovementNumber)?;
        let movement_title = node.text_opt::<String>(Name::MovementTitle)?;
        let version = node.attribute_or::<String>(Name::Version, String::new())?;
        let part_list = node.element_or::<PartList>(Name::PartList, PartList::default())?;
        let parts = node.elements::<Part>(Name::Part)?;
        let identification = node.element_opt::<Identification>(Name::Identification)?;
        let credits = node.elements::<Credit>(Name::Credits)?;
        let value = ScorePartwise {
            work,
            movement_number,
            movement_title,
            version,
            part_list,
            parts,
            identification,
            credits,
        };
        if !value.obeys_rule() {
            return Err(
                DecodeError::at(
                    ErrorKind::IntegrityError(IntegrityFault::UnresolvedPartId),
                    node.tag_str(),
                ),
            );
        }
        Ok(value)
    }

    /// Encodes a value as an element with the given tag.
    pub fn write_node(&self, tag: &str) -> (r: Node)
        ensures
            r.deep_view() == ScorePartwise::encode_value(self.deep_view(), tag@),
    {
        proof {
            reveal(ScorePartwise::encode_value);
        }
        let mut node = Node::new(tag);
        node.put_element_opt::<Work>(Name::Work, &self.work);
        node.put_text_opt::<String>(Name::MovementNumber, &self.movement_number);
        node.put_text_opt::<String>(Name::MovementTitle, &self.movement_title);
        node.put_scalar::<String>(Name::Version, &self.version);
        node.put_element::<PartList>(Name::PartList, &self.part_list);
        node.put_elements::<Part>(Name::Part, &self.parts);
        node.put_element_opt::<Identification>(Name::Identification, &self.identification);
        node.put_elements::<Credit>(Name::Credits, &self.credits);
        node
    }
}

impl Element for ScorePartwise {
    open spec fn valid(v: ScorePartwiseView) -> bool {
        &&& (v.work matches Some(x) ==> Work::valid(x))
        &&& PartList::valid(v.part_list)
        &&& all_valid::<Part>(v.parts)
        &&& (v.identification matches Some(x) ==> Identification::valid(x))
        &&& all_valid::<Credit>(v.credits)
        &&& ScorePartwise::rule(v)
    }

    open spec fn decode(n: NodeView) -> Result<ScorePartwiseView, DecodeErrorView> {
        ScorePartwise::decode_node(n)
    }

    open spec fn encode(v: ScorePartwiseView, tag: Seq<char>) -> NodeView {
        ScorePartwise::encode_value(v, tag)
    }

    proof fn encode_tag(v: ScorePartwiseView, tag: Seq<char>) {
        ScorePartwise::encoded_tag(v, tag);
    }

    proof fn decode_encode(v: ScorePartwiseView, tag: Seq<char>) {
        ScorePartwise::round_trip(v, tag);
    }

    proof fn decode_valid(n: NodeView) {
        ScorePartwise::decoded_valid(n);
    }

    fn from_node(node: &Node) -> (r: Result<ScorePartwise, DecodeError>) {
        ScorePartwise::read_node(node)
    }

    fn to_node(&self, tag: &str) -> (r: Node) {
        self.write_node(tag)
    }
}

/// The number of declarations of a part with the given id among the entries
/// of a part list.
pub open spec fn declarations(entries: Seq<PartListContentView>, id: Seq<char>) -> nat
    decreases entries.len(),
{
    if entries.len() == 0 {
        0
    } else {
        declarations(entries.drop_last(), id) + (if declares(entries.last(), id) {
            1nat
        } else {
            0nat
        })
    }
}

/// Whether an entry of a part list declares the part with the given id.
pub open spec fn declares(entry: PartListContentView, id: Seq<char>) -> bool {
    entry matches PartListContentView::ScorePart(p) && p.id == id
}

/// The first declaration of a part with the given id among the entries of a
/// part list.
pub open spec fn first_declaration(entries: Seq<PartListContentView>, id: Seq<char>) -> Option<
    ScorePartView,
>
    decreases entries.len(),
{
    if entries.len() == 0 {
        None
    } else if declares(entries[0], id) {
        Some(entries[0]->ScorePart_0)
    } else {
        first_declaration(entries.skip(1), id)
    }
}

/// The number of declarations of a part with the given id in a part list.
fn count_declarations(list: &PartList, id: &str) -> (r: usize)
    ensures
        r == declarations(list.deep_view().parts, id@),
{
    let ghost entries = list.deep_view().parts;
    let mut count: usize = 0;
    let mut i: usize = 0;
    proof {
        assert(entries.subrange(0, 0) =~= Seq::empty());
    }
    while i < list.parts.len()
        invariant
            i <= list.parts.len(),
            entries == list.deep_view().parts,
            entries.len() == list.parts.len(),
            count == declarations(entries.subrange(0, i as int), id@),
            count <= i,
        decreases list.parts.len() - i,
    {
        proof {
            assert(entries.subrange(0, i + 1).drop_last() =~= entries.subrange(0, i as int));
            assert(entries.subrange(0, i + 1).last() == list.parts[i as int].deep_view());
        }
        match &list.parts[i] {
            PartListContent::ScorePart(p) => {
                if same_text(p.id.as_str(), id) {
                    count = count + 1;
                }
            },
            _ => {},
        }
        i = i + 1;
    }
    proof {
        assert(entries.subrange(0, i as int) =~= entries);
    }
    count
}

impl ScorePartwise {
    /// Every part body bears an id that the part list declares exactly once.
    pub open spec fn rule(v: ScorePartwiseView) -> bool {
        forall|i: int|
            0 <= i < v.parts.len() ==> declarations(v.part_list.parts, (#[trigger] v.parts[i]).id)
                == 1
    }

    /// Whether every part body bears an id that the part list declares
    /// exactly once.
    pub fn obeys_rule(&self) -> (r: bool)
        ensures
            r == ScorePartwise::rule(self.deep_view()),
    {
        let ghost v = self.deep_view();
        let mut i: usize = 0;
        while i < self.parts.len()
            invariant
                i <= self.parts.len(),
                v == self.deep_view(),
                v.parts.len() == self.parts.len(),
                forall|j: int|
                    0 <= j < i ==> declarations(v.part_list.parts, (#[trigger] v.parts[j]).id)
                        == 1,
            decreases self.parts.len() - i,
        {
            proof {
                assert(v.parts[i as int] == self.parts[i as int].deep_view());
            }
            if count_declarations(&self.part_list, self.parts[i].id.as_str()) != 1 {
                return false;
            }
            i = i + 1;
        }
        true
    }

    /// The declaration of the part with the given id: the first one in the
    /// part list, if there is one.
    pub fn declaration(&self, id: &str) -> (r: Option<&ScorePart>)
        ensures
            r.deep_view() == first_declaration(self.deep_view().part_list.parts, id@),
    {
        let ghost entries = self.deep_view().part_list.parts;
        let mut i: usize = 0;
        proof {
            assert(entries.subrange(0, entries.len() as int) =~= entries);
        }
        while i < self.part_list.parts.len()
            invariant
                i <= self.part_list.parts.len(),
                entries == self.deep_view().part_list.parts,
                entries.len() == self.part_list.parts.len(),
                first_declaration(entries, id@) == first_declaration(
                    entries.subrange(i as int, entries.len() as int),
                    id@,
                ),
            decreases self.part_list.parts.len() - i,
        {
            let ghost rest = entries.subrange(i as int, entries.len() as int);
            proof {
                assert(rest[0] == self.part_list.parts[i as int].deep_view());
                assert(rest.skip(1) =~= entries.subrange(i + 1, entries.len() as int));
            }
            match &self.part_list.parts[i] {
                PartListContent::ScorePart(p) => {
                    if same_text(p.id.as_str(), id) {
                        return Some(p);
                    }
                },
                _ => {},
            }
            i = i + 1;
        }
        None
    }

    /// The score that a document denotes: its root is a `score-partwise`
    /// element, anything else is a `StructuralError`.
    pub open spec fn decode_document(root: NodeView) -> Result<ScorePartwiseView, DecodeErrorView> {
        if root.tag == Name::ScorePartwise.text() {
            ScorePartwise::decode_node(root)
        } else {
            Err(root.unknown())
        }
    }

    /// The document that a score is written as.
    pub open spec fn encode_document(v: ScorePartwiseView) -> NodeView {
        ScorePartwise::encode_value(v, Name::ScorePartwise.text())
    }

    /// Decodes a document. Nothing of the score is returned where any part of
    /// it fails to decode or a part body is not declared exactly once.
    pub fn from_document(root: &Node) -> (r: Result<ScorePartwise, DecodeError>)
        ensures
            r matches Ok(v) ==> ScorePartwise::decode_document(root.deep_view()) == Ok::<
                ScorePartwiseView,
                DecodeErrorView,
            >(v.deep_view()),
            r matches Err(e) ==> ScorePartwise::decode_document(root.deep_view()) == Err::<
                ScorePartwiseView,
                DecodeErrorView,
            >(e.deep_view()),
    {
        if same_text(root.tag_str(), Name::ScorePartwise.as_str()) {
            ScorePartwise::read_node(root)
        } else {
            Err(DecodeError::at(ErrorKind::StructuralError, root.tag_str()))
        }
    }

    /// Encodes a score as a document.
    pub fn to_document(&self) -> (r: Node)
        ensures
            r.deep_view() == ScorePartwise::encode_document(self.deep_view()),
    {
        self.write_node(Name::ScorePartwise.as_str())
    }

    /// Decoding the document that a valid score was encoded as gives the
    /// score back.
    pub proof fn document_round_trip(v: ScorePartwiseView)
        requires
            <ScorePartwise as Element>::valid(v),
        ensures
            ScorePartwise::decode_document(ScorePartwise::encode_document(v)) == Ok::<
                ScorePartwiseView,
                DecodeErrorView,
            >(v),
    {
        ScorePartwise::encoded_tag(v, Name::ScorePartwise.text());
        ScorePartwise::round_trip(v, Name::ScorePartwise.text());
    }

    /// A score decodes only where every part body is declared exactly once.
    pub proof fn decoded_parts_resolve(root: NodeView)
        ensures
            ScorePartwise::decode_document(root) matches Ok(v) ==> ScorePartwise::rule(v),
    {
        ScorePartwise::decoded_valid(root);
    }
}

} // verus!
