//! Layout of a page.
use crate::codec::{
    all_valid, Element, encode_elements, group_codec, lemma_decode_elements_valid,
    lemma_decode_encode_elements, text_nodes,
};
use crate::decimal::Decimal;
use crate::error::{DecodeError, DecodeErrorView};
use crate::names::Name;
use crate::node::{Node, NodeView};
use crate::page_margins::PageMargins;
use crate::scalar::Scalar;
use vstd::prelude::*;

verus! {

/// The layout of a page.
#[derive(Clone, Debug, PartialEq)]
pub struct PageLayout {
    /// The text of the child `page-height`, if the child is there.
    pub page_height: Option<Decimal>,
    /// The text of the child `page-width`, if the child is there.
    pub page_width: Option<Decimal>,
    /// The children `page-margins`, in document order.
    pub page_margins: Vec<PageMargins>,
}

/// The mathematical value of a [`PageLayout`].
pub struct PageLayoutView {
    pub page_height: Option<Decimal>,
    pub page_width: Option<Decimal>,
    pub page_margins: Seq<PageMargins>,
}

impl DeepView for PageLayout {
    type V = PageLayoutView;

    open spec fn deep_view(&self) -> PageLayoutView {
        PageLayoutView {
            page_height: self.page_height.deep_view(),
            page_width: self.page_width.deep_view(),
            page_margins: self.page_margins.deep_view(),
        }
    }
}

impl PageLayout {
    /// The value that an element denotes. The fields are read in the order in
    /// which they are declared; the first one that fails gives the error.
    #[verifier::opaque]
    pub open spec fn decode_node(n: NodeView) -> Result<PageLayoutView, DecodeErrorView> {
        let page_height = n.text_opt::<Decimal>(Name::PageHeight);
        let page_width = n.text_opt::<Decimal>(Name::PageWidth);
        let page_margins = n.elements::<PageMargins>(Name::PageMargins);
        if page_height is Err {
            Err(page_height->Err_0)
        } else if page_width is Err {
            Err(page_width->Err_0)
        } else if page_margins is Err {
            Err(page_margins->Err_0)
        } else {
            Ok(
                PageLayoutView {
                    page_height: page_height->Ok_0,
                    page_width: page_width->Ok_0,
                    page_margins: page_margins->Ok_0,
                }
            )
        }
    }

    /// The element that a value is written as.
    #[verifier::opaque]
    pub open spec fn encode_value(v: PageLayoutView, tag: Seq<char>) -> NodeView {
        NodeView::new(tag)
            .with_children(text_nodes::<Decimal>(Name::PageHeight, v.page_height))
            .with_children(text_nodes::<Decimal>(Name::PageWidth, v.page_width))
            .with_children(encode_elements::<PageMargins>(Name::PageMargins, v.page_margins))
    }

    /// An encoded element bears the tag it was given.
    pub proof fn encoded_tag(v: PageLayoutView, tag: Seq<char>)
        ensures
            PageLayout::encode_value(v, tag).tag == tag,
    {
        broadcast use group_codec;

        reveal(PageLayout::encode_value);
    }

    /// Decoding what was encoded gives the value back.
    pub proof fn round_trip(v: PageLayoutView, tag: Seq<char>)
        requires
            <PageLayout as Element>::valid(v),
        ensures
            PageLayout::decode_node(PageLayout::encode_value(v, tag))
                == Ok::<PageLayoutView, DecodeErrorView>(v),
    {
        broadcast use group_codec;

        let n = PageLayout::encode_value(v, tag);
        assert(
            n.text_opt::<Decimal>(Name::PageHeight)
                == Ok::<Option<Decimal>, DecodeErrorView>(v.page_height)
        ) by {
            reveal(PageLayout::encode_value);
            reveal(NodeView::text_opt);
            reveal(NodeView::only_child);
            reveal(NodeView::content);
            if let Some(x) = v.page_height {
                Decimal::parse_text(x);
            }
        }
        assert(
            n.text_opt::<Decimal>(Name::PageWidth)
                == Ok::<Option<Decimal>, DecodeErrorView>(v.page_width)
        ) by {
            reveal(PageLayout::encode_value);
            reveal(NodeView::text_opt);
            reveal(NodeView::only_child);
            reveal(NodeView::content);
            if let Some(x) = v.page_width {
                Decimal::parse_text(x);
            }
        }
        assert(
            n.elements::<PageMargins>(Name::PageMargins)
                == Ok::<Seq<PageMargins>, DecodeErrorView>(v.page_margins)
        ) by {
            reveal(PageLayout::encode_value);
            reveal(NodeView::elements);
            lemma_decode_encode_elements::<PageMargins>(Name::PageMargins, v.page_margins, tag);
        }
        reveal(PageLayout::decode_node);
    }

    /// Decoding gives valid values only.
    pub proof fn decoded_valid(n: NodeView)
        ensures
            PageLayout::decode_node(n) matches Ok(v) ==> <PageLayout as Element>::valid(v),
    {
        reveal(PageLayout::decode_node);
        reveal(NodeView::elements);
        lemma_decode_elements_valid::<PageMargins>(
            n.children_with_tag(Name::PageMargins.text()),
            n.tag,
        );
    }

    /// Decodes an element.
    pub fn read_node(node: &Node) -> (r: Result<PageLayout, DecodeError>)
        ensures
            r matches Ok(v) ==>
                PageLayout::decode_node(node.deep_view()) == Ok::<PageLayoutView, DecodeErrorView>(
                v.deep_view(),
            ),
            r matches Err(e) ==>
                PageLayout::decode_node(node.deep_view()) == Err::<PageLayoutView, DecodeErrorView>(
                e.deep_view(),
            ),
    {
        proof {
            reveal(PageLayout::decode_node);
        }
        let page_height = node.text_opt::<Decimal>(Name::PageHeight)?;
        let page_width = node.text_opt::<Decimal>(Name::PageWidth)?;
        let page_margins = node.elements::<PageMargins>(Name::PageMargins)?;
        Ok(PageLayout { page_height, page_width, page_margins })
    }

    /// Encodes a value as an element with the given tag.
    pub fn write_node(&self, tag: &str) -> (r: Node)
        ensures
            r.deep_view() == PageLayout::encode_value(self.deep_view(), tag@),
    {
        proof {
            reveal(PageLayout::encode_value);
        }
        let mut node = Node::new(tag);
        node.put_text_opt::<Decimal>(Name::PageHeight, &self.page_height);
        node.put_text_opt::<Decimal>(Name::PageWidth, &self.page_width);
        node.put_elements::<PageMargins>(Name::PageMargins, &self.page_margins);
        node
    }
}

impl Element for PageLayout {
    open spec fn valid(v: PageLayoutView) -> bool {
        &&& all_valid::<PageMargins>(v.page_margins)
    }

    open spec fn decode(n: NodeView) -> Result<PageLayoutView, DecodeErrorView> {
        PageLayout::decode_node(n)
    }

    open spec fn encode(v: PageLayoutView, tag: Seq<char>) -> NodeView {
        PageLayout::encode_value(v, tag)
    }

    proof fn encode_tag(v: PageLayoutView, tag: Seq<char>) {
        PageLayout::encoded_tag(v, tag);
    }

    proof fn decode_encode(v: PageLayoutView, tag: Seq<char>) {
        PageLayout::round_trip(v, tag);
    }

    proof fn decode_valid(n: NodeView) {
        PageLayout::decoded_valid(n);
    }

    fn from_node(node: &Node) -> (r: Result<PageLayout, DecodeError>) {
        PageLayout::read_node(node)
    }

    fn to_node(&self, tag: &str) -> (r: Node) {
        self.write_node(tag)
    }
}

} // verus!
