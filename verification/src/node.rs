//! The generic element tree that a score is decoded from and encoded to.
use vstd::prelude::*;

verus! {

/// An element: its tag, its attributes in the order written, its child
/// elements in document order and its own text, if it has any.
#[derive(Debug)]
pub struct Node {
    pub tag: String,
    pub attributes: Vec<(String, String)>,
    pub children: Vec<Node>,
    pub text: Option<String>,
}

/// The mathematical value of a [`Node`]. The attributes form a map: of two
/// attributes with one name the later one counts.
pub struct NodeView {
    pub tag: Seq<char>,
    pub attributes: Map<Seq<char>, Seq<char>>,
    pub children: Seq<NodeView>,
    pub text: Option<Seq<char>>,
}

/// The map that a list of attributes stands for.
pub open spec fn attribute_map(pairs: Seq<(Seq<char>, Seq<char>)>) -> Map<Seq<char>, Seq<char>>
    decreases pairs.len(),
{
    if pairs.len() == 0 {
        Map::empty()
    } else {
        attribute_map(pairs.drop_last()).insert(pairs.last().0, pairs.last().1)
    }
}

/// The elements of `nodes` with the given tag, in their order.
#[verifier::opaque]
pub open spec fn with_tag(nodes: Seq<NodeView>, tag: Seq<char>) -> Seq<NodeView>
    decreases nodes.len(),
{
    if nodes.len() == 0 {
        Seq::empty()
    } else if nodes.last().tag == tag {
        with_tag(nodes.drop_last(), tag).push(nodes.last())
    } else {
        with_tag(nodes.drop_last(), tag)
    }
}

/// A name that no attribute bears is not in the map.
pub proof fn lemma_attribute_map_absent(pairs: Seq<(Seq<char>, Seq<char>)>, name: Seq<char>)
    requires
        forall|j: int| 0 <= j < pairs.len() ==> (#[trigger] pairs[j]).0 != name,
    ensures
        !attribute_map(pairs).contains_key(name),
    decreases pairs.len(),
{
    if pairs.len() > 0 {
        lemma_attribute_map_absent(pairs.drop_last(), name);
    }
}

/// The map gives a name the value of the last attribute that bears it.
pub proof fn lemma_attribute_map_last(pairs: Seq<(Seq<char>, Seq<char>)>, name: Seq<char>, at: int)
    requires
        0 <= at < pairs.len(),
        pairs[at].0 == name,
        forall|j: int| at < j < pairs.len() ==> (#[trigger] pairs[j]).0 != name,
    ensures
        attribute_map(pairs).contains_key(name),
        attribute_map(pairs)[name] == pairs[at].1,
    decreases pairs.len(),
{
    if at < pairs.len() - 1 {
        lemma_attribute_map_last(pairs.drop_last(), name, at);
    }
}

/// A query on no elements sees none.
pub broadcast proof fn lemma_with_tag_empty(tag: Seq<char>)
    ensures
        #[trigger] with_tag(Seq::<NodeView>::empty(), tag) == Seq::<NodeView>::empty(),
{
    reveal(with_tag);
}

/// A query on two runs of elements sees what it sees in the first, then what
/// it sees in the second.
pub proof fn lemma_with_tag_add(
    nodes: Seq<NodeView>,
    more: Seq<NodeView>,
    tag: Seq<char>,
)
    ensures
        with_tag(nodes + more, tag) == with_tag(nodes, tag) + with_tag(more, tag),
    decreases more.len(),
{
    reveal(with_tag);
    if more.len() == 0 {
        assert(nodes + more =~= nodes);
        assert(with_tag(nodes, tag) + Seq::<NodeView>::empty() =~= with_tag(nodes, tag));
    } else {
        assert((nodes + more).drop_last() =~= nodes + more.drop_last());
        lemma_with_tag_add(nodes, more.drop_last(), tag);
        if more.last().tag == tag {
            assert(with_tag(nodes, tag) + with_tag(more.drop_last(), tag).push(more.last())
                =~= (with_tag(nodes, tag) + with_tag(more.drop_last(), tag)).push(more.last()));
        }
    }
}

/// Elements that all bear one tag pass a query for it unchanged and leave
/// nothing to a query for another.
pub proof fn lemma_with_tag_uniform(nodes: Seq<NodeView>, own: Seq<char>, tag: Seq<char>)
    requires
        forall|i: int| 0 <= i < nodes.len() ==> (#[trigger] nodes[i]).tag == own,
    ensures
        with_tag(nodes, tag) == (if own == tag {
            nodes
        } else {
            Seq::<NodeView>::empty()
        }),
    decreases nodes.len(),
{
    reveal(with_tag);
    if nodes.len() > 0 {
        lemma_with_tag_uniform(nodes.drop_last(), own, tag);
        assert(nodes[nodes.len() - 1].tag == own);
        if own == tag {
            assert(nodes.drop_last().push(nodes.last()) =~= nodes);
        }
    }
}

/// Appending elements that all bear one tag: a query for that tag sees them
/// appended, a query for another tag sees nothing new.
pub proof fn lemma_with_tag_group(
    nodes: Seq<NodeView>,
    more: Seq<NodeView>,
    own: Seq<char>,
    tag: Seq<char>,
)
    requires
        forall|i: int| 0 <= i < more.len() ==> (#[trigger] more[i]).tag == own,
    ensures
        with_tag(nodes + more, tag) == (if own == tag {
            with_tag(nodes, tag) + more
        } else {
            with_tag(nodes, tag)
        }),
{
    lemma_with_tag_add(nodes, more, tag);
    lemma_with_tag_uniform(more, own, tag);
    assert(with_tag(nodes, tag) + Seq::<NodeView>::empty() =~= with_tag(nodes, tag));
}

/// Appending elements of which none bears the tag asked for shows a query
/// nothing new.
pub proof fn lemma_with_tag_others(nodes: Seq<NodeView>, more: Seq<NodeView>, tag: Seq<char>)
    requires
        forall|i: int| 0 <= i < more.len() ==> (#[trigger] more[i]).tag != tag,
    ensures
        with_tag(nodes + more, tag) == with_tag(nodes, tag),
    decreases more.len(),
{
    reveal(with_tag);
    if more.len() == 0 {
        assert(nodes + more =~= nodes);
    } else {
        assert((nodes + more).drop_last() =~= nodes + more.drop_last());
        assert(more[more.len() - 1].tag != tag);
        lemma_with_tag_others(nodes, more.drop_last(), tag);
    }
}

/// The elements of `nodes` that do not bear the given tag, in their order.
#[verifier::opaque]
pub open spec fn without_tag(nodes: Seq<NodeView>, tag: Seq<char>) -> Seq<NodeView>
    decreases nodes.len(),
{
    if nodes.len() == 0 {
        Seq::empty()
    } else if nodes.last().tag != tag {
        without_tag(nodes.drop_last(), tag).push(nodes.last())
    } else {
        without_tag(nodes.drop_last(), tag)
    }
}

/// A query on no elements sees none.
pub proof fn lemma_without_tag_empty(tag: Seq<char>)
    ensures
        without_tag(Seq::<NodeView>::empty(), tag) == Seq::<NodeView>::empty(),
{
    reveal(without_tag);
}

/// Appending elements that all bear the tag left out changes nothing.
pub proof fn lemma_without_tag_same(nodes: Seq<NodeView>, more: Seq<NodeView>, tag: Seq<char>)
    requires
        forall|i: int| 0 <= i < more.len() ==> (#[trigger] more[i]).tag == tag,
    ensures
        without_tag(nodes + more, tag) == without_tag(nodes, tag),
    decreases more.len(),
{
    reveal(without_tag);
    if more.len() == 0 {
        assert(nodes + more =~= nodes);
    } else {
        assert((nodes + more).drop_last() =~= nodes + more.drop_last());
        assert(more[more.len() - 1].tag == tag);
        lemma_without_tag_same(nodes, more.drop_last(), tag);
    }
}

/// Appending elements of which none bears the tag left out appends them.
pub proof fn lemma_without_tag_others(nodes: Seq<NodeView>, more: Seq<NodeView>, tag: Seq<char>)
    requires
        forall|i: int| 0 <= i < more.len() ==> (#[trigger] more[i]).tag != tag,
    ensures
        without_tag(nodes + more, tag) == without_tag(nodes, tag) + more,
    decreases more.len(),
{
    reveal(without_tag);
    if more.len() == 0 {
        assert(nodes + more =~= nodes);
        assert(without_tag(nodes, tag) + more =~= without_tag(nodes, tag));
    } else {
        assert((nodes + more).drop_last() =~= nodes + more.drop_last());
        assert(more[more.len() - 1].tag != tag);
        lemma_without_tag_others(nodes, more.drop_last(), tag);
        assert((without_tag(nodes, tag) + more.drop_last()).push(more.last()) =~= without_tag(
            nodes,
            tag,
        ) + more);
    }
}

/// What a query for an attribute sees after an attribute was added.
pub broadcast proof fn lemma_optional_attribute(
    n: NodeView,
    name: Seq<char>,
    value: Option<Seq<char>>,
    asked: Seq<char>,
)
    ensures
        #[trigger] n.with_optional_attribute(name, value).attribute(asked) == (if asked == name
            && value is Some {
            value
        } else {
            n.attribute(asked)
        }),
{
    reveal(NodeView::with_optional_attribute);
}

/// Adding an attribute changes nothing else.
pub broadcast proof fn lemma_optional_attribute_rest(
    n: NodeView,
    name: Seq<char>,
    value: Option<Seq<char>>,
)
    ensures
        (#[trigger] n.with_optional_attribute(name, value)).tag == n.tag,
        n.with_optional_attribute(name, value).children == n.children,
        n.with_optional_attribute(name, value).text == n.text,
{
    reveal(NodeView::with_optional_attribute);
}

/// Elements appended to none are those elements.
pub broadcast proof fn lemma_empty_add(nodes: Seq<NodeView>)
    ensures
        #[trigger] (Seq::<NodeView>::empty() + nodes) == nodes,
{
    assert(Seq::<NodeView>::empty() + nodes =~= nodes);
}

impl NodeView {
    /// The value of the attribute with the given name.
    pub open spec fn attribute(self, name: Seq<char>) -> Option<Seq<char>> {
        if self.attributes.contains_key(name) {
            Some(self.attributes[name])
        } else {
            None
        }
    }

    /// The children with the given tag, in document order.
    pub open spec fn children_with_tag(self, tag: Seq<char>) -> Seq<NodeView> {
        with_tag(self.children, tag)
    }

    /// The children that do not bear the given tag, in document order.
    pub open spec fn children_without_tag(self, tag: Seq<char>) -> Seq<NodeView> {
        without_tag(self.children, tag)
    }

    /// An element with a tag and nothing else.
    pub open spec fn new(tag: Seq<char>) -> NodeView {
        NodeView { tag, attributes: Map::empty(), children: Seq::empty(), text: None }
    }

    /// The element with one more attribute.
    pub open spec fn with_attribute(self, name: Seq<char>, value: Seq<char>) -> NodeView {
        NodeView { attributes: self.attributes.insert(name, value), ..self }
    }

    /// The element with one more attribute where a value is given.
    #[verifier::opaque]
    pub open spec fn with_optional_attribute(
        self,
        name: Seq<char>,
        value: Option<Seq<char>>,
    ) -> NodeView {
        match value {
            Some(t) => self.with_attribute(name, t),
            None => self,
        }
    }

    /// The element with one more child.
    pub open spec fn with_child(self, child: NodeView) -> NodeView {
        NodeView { children: self.children.push(child), ..self }
    }

    /// The element with more children.
    pub open spec fn with_children(self, more: Seq<NodeView>) -> NodeView {
        NodeView { children: self.children + more, ..self }
    }

    /// The element with the given text as its own.
    pub open spec fn with_text(self, text: Seq<char>) -> NodeView {
        NodeView { text: Some(text), ..self }
    }
}

/// The mathematical value of an element and, through it, of its subtree.
#[verifier::opaque]
pub open spec fn node_view(node: &Node) -> NodeView
    decreases node,
{
    NodeView {
        tag: node.tag@,
        attributes: attribute_map(node.attributes.deep_view()),
        children: Seq::new(
            node.children.len() as nat,
            |i: int|
                if 0 <= i < node.children.len() {
                    node_view(&node.children[i])
                } else {
                    arbitrary()
                },
        ),
        text: node.text.deep_view(),
    }
}

impl DeepView for Node {
    type V = NodeView;

    open spec fn deep_view(&self) -> NodeView {
        node_view(self)
    }
}

impl Node {
    /// An element with a tag and nothing else.
    pub fn new(tag: &str) -> (r: Node)
        ensures
            r.deep_view() == NodeView::new(tag@),
    {
        let r = Node {
            tag: tag.to_owned(),
            attributes: Vec::new(),
            children: Vec::new(),
            text: None,
        };
        proof {
            reveal(node_view);
            assert(r.attributes.deep_view() =~= Seq::empty());
            assert(r.deep_view().children =~= Seq::empty());
        }
        r
    }

    /// Sets an attribute.
    pub fn set_attribute(&mut self, name: &str, value: String)
        ensures
            final(self).deep_view() == old(self).deep_view().with_attribute(name@, value@),
    {
        let ghost before = self.attributes.deep_view();
        self.attributes.push((name.to_owned(), value));
        proof {
            reveal(node_view);
            let after = self.attributes.deep_view();
            assert(after.drop_last() =~= before);
            assert(after.last() == (name@, value@));
            assert(self.deep_view().children =~= old(self).deep_view().children);
        }
    }

    /// Appends a child.
    pub fn push_child(&mut self, child: Node)
        ensures
            final(self).deep_view() == old(self).deep_view().with_child(child.deep_view()),
    {
        self.children.push(child);
        proof {
            reveal(node_view);
            assert(self.deep_view().children =~= old(self).deep_view().children.push(
                child.deep_view(),
            ));
        }
    }

    /// Sets the element's own text.
    pub fn set_text(&mut self, text: String)
        ensures
            final(self).deep_view() == old(self).deep_view().with_text(text@),
    {
        self.text = Some(text);
        proof {
            reveal(node_view);
            assert(self.deep_view().children =~= old(self).deep_view().children);
        }
    }

    /// The tag.
    pub fn tag_str(&self) -> (r: &str)
        ensures
            r@ == self.deep_view().tag,
    {
        proof {
            reveal(node_view);
        }
        self.tag.as_str()
    }

    /// Whether the element has text of its own.
    pub fn has_text(&self) -> (r: bool)
        ensures
            r == (self.deep_view().text is Some),
    {
        proof {
            reveal(node_view);
        }
        self.text.is_some()
    }

    /// The element's own text, or the empty text where it has none.
    pub fn text_or_empty(&self) -> (r: &str)
        ensures
            r@ == self.deep_view().text_or_empty(),
    {
        proof {
            reveal(node_view);
            reveal_strlit("");
            assert(""@ =~= Seq::<char>::empty());
        }
        match &self.text {
            Some(t) => t.as_str(),
            None => "",
        }
    }

    /// The value of the attribute with the given name.
    pub fn attribute(&self, name: &str) -> (r: Option<&String>)
        ensures
            r.deep_view() == self.deep_view().attribute(name@),
    {
        proof {
            reveal(node_view);
        }
        let ghost pairs = self.attributes.deep_view();
        let mut i: usize = self.attributes.len();
        while i > 0
            invariant
                i <= self.attributes.len(),
                pairs == self.attributes.deep_view(),
                forall|j: int| i <= j < pairs.len() ==> (#[trigger] pairs[j]).0 != name@,
            decreases i,
        {
            i = i - 1;
            if crate::text::same_text(self.attributes[i].0.as_str(), name) {
                proof {
                    reveal(node_view);
                    lemma_attribute_map_last(pairs, name@, i as int);
                }
                return Some(&self.attributes[i].1);
            }
        }
        proof {
            lemma_attribute_map_absent(pairs, name@);
        }
        None
    }

    /// The children, in document order.
    pub fn all_children(&self) -> (r: Vec<&Node>)
        ensures
            r.deep_view() == self.deep_view().children,
    {
        let mut found: Vec<&Node> = Vec::new();
        let mut i: usize = 0;
        while i < self.children.len()
            invariant
                i <= self.children.len(),
                found.len() == i,
                forall|j: int| 0 <= j < i ==> *(#[trigger] found[j]) == self.children[j],
            decreases self.children.len() - i,
        {
            found.push(&self.children[i]);
            i = i + 1;
        }
        proof {
            reveal(node_view);
            assert(found.deep_view() =~= self.deep_view().children);
        }
        found
    }

    /// The children with the given tag, in document order.
    pub fn children_with_tag(&self, tag: &str) -> (r: Vec<&Node>)
        ensures
            r.deep_view() == self.deep_view().children_with_tag(tag@),
    {
        let all = self.all_children();
        let ghost nodes = all.deep_view();
        let mut found: Vec<&Node> = Vec::new();
        let mut i: usize = 0;
        proof {
            reveal(with_tag);
            assert(nodes.subrange(0, 0) =~= Seq::empty());
            assert(found.deep_view() =~= Seq::empty());
        }
        while i < all.len()
            invariant
                i <= all.len(),
                nodes == all.deep_view(),
                found.deep_view() == with_tag(nodes.subrange(0, i as int), tag@),
            decreases all.len() - i,
        {
            let child = all[i];
            let ghost before = found.deep_view();
            proof {
                reveal(with_tag);
                assert(nodes.subrange(0, i + 1).drop_last() =~= nodes.subrange(0, i as int));
                assert(nodes.subrange(0, i + 1).last() == child.deep_view());
            }
            if crate::text::same_text(child.tag_str(), tag) {
                found.push(child);
                proof {
                    assert(found.deep_view() =~= before.push(child.deep_view()));
                }
            }
            i = i + 1;
        }
        proof {
            assert(nodes.subrange(0, i as int) =~= nodes);
        }
        found
    }

    /// The children that do not bear the given tag, in document order.
    pub fn children_without_tag(&self, tag: &str) -> (r: Vec<&Node>)
        ensures
            r.deep_view() == self.deep_view().children_without_tag(tag@),
    {
        let all = self.all_children();
        let ghost nodes = all.deep_view();
        let mut found: Vec<&Node> = Vec::new();
        let mut i: usize = 0;
        proof {
            reveal(without_tag);
            assert(nodes.subrange(0, 0) =~= Seq::empty());
            assert(found.deep_view() =~= Seq::empty());
        }
        while i < all.len()
            invariant
                i <= all.len(),
                nodes == all.deep_view(),
                found.deep_view() == without_tag(nodes.subrange(0, i as int), tag@),
            decreases all.len() - i,
        {
            let child = all[i];
            let ghost before = found.deep_view();
            proof {
                reveal(without_tag);
                assert(nodes.subrange(0, i + 1).drop_last() =~= nodes.subrange(0, i as int));
                assert(nodes.subrange(0, i + 1).last() == child.deep_view());
            }
            if !crate::text::same_text(child.tag_str(), tag) {
                found.push(child);
                proof {
                    assert(found.deep_view() =~= before.push(child.deep_view()));
                }
            }
            i = i + 1;
        }
        proof {
            assert(nodes.subrange(0, i as int) =~= nodes);
        }
        found
    }
}

impl NodeView {
    /// The element's own text, or the empty text where it has none.
    pub open spec fn text_or_empty(self) -> Seq<char> {
        match self.text {
            Some(t) => t,
            None => Seq::empty(),
        }
    }
}

} // verus!
