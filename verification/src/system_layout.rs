//! Layout of a system.
use crate::codec::{Element, element_nodes, group_codec, text_nodes};
use crate::decimal::Decimal;
use crate::error::{DecodeError, DecodeErrorView};
use crate::names::Name;
use crate::node::{Node, NodeView};
use crate::scalar::Scalar;
use crate::system_divider::{SystemDivider, SystemDividerView};
use vstd::prelude::*;

verus! {

/// The margins of a system.
#[derive(Clone, Copy, Debug, PartialEq, Eq)]
pub struct SystemMargins {
    /// The text of the child `left-margin`; zero where the child is not
    /// there.
    pub left_margin: Decimal,
    /// The text of the child `right-margin`; zero where the child is not
    /// there.
    pub right_margin: Decimal,
}

impl DeepView for SystemMargins {
    type V = SystemMargins;

    open spec fn deep_view(&self) -> SystemMargins {
        SystemMargins {
            left_margin: self.left_margin.deep_view(),
            right_margin: self.right_margin.deep_view(),
        }
    }
}

impl SystemMargins {
    /// The value that an element denotes. The fields are read in the order in
    /// which they are declared; the first one that fails gives the error.
    #[verifier::opaque]
    pub open spec fn decode_node(n: NodeView) -> Result<SystemMargins, DecodeErrorView> {
        let left_margin = n.text_or::<Decimal>(Name::LeftMargin, Decimal {
            negative: false,
            magnitude: 0,
            scale: 0,
        });
        let right_margin = n.text_or::<Decimal>(Name::RightMargin, Decimal {
            negative: false,
            magnitude: 0,
            scale: 0,
        });
        if left_margin is Err {
            Err(left_margin->Err_0)
        } else if right_margin is Err {
            Err(right_margin->Err_0)
        } else {
            Ok(
                SystemMargins {
                    left_margin: left_margin->Ok_0,
                    right_margin: right_margin->Ok_0,
                }
            )
        }
    }

    /// The element that a value is written as.
    #[verifier::opaque]
    pub open spec fn encode_value(v: SystemMargins, tag: Seq<char>) -> NodeView {
        NodeView::new(tag)
            .with_children(text_nodes::<Decimal>(Name::LeftMargin, Some(v.left_margin)))
            .with_children(text_nodes::<Decimal>(Name::RightMargin, Some(v.right_margin)))
    }

    /// An encoded element bears the tag it was given.
    pub proof fn encoded_tag(v: SystemMargins, tag: Seq<char>)
        ensures
            SystemMargins::encode_value(v, tag).tag == tag,
    {
        broadcast use group_codec;

        reveal(SystemMargins::encode_value);
    }

    /// Decoding what was encoded gives the value back.
    pub proof fn round_trip(v: SystemMargins, tag: Seq<char>)
        requires
            <SystemMargins as Element>::valid(v),
        ensures
            SystemMargins::decode_node(SystemMargins::encode_value(v, tag))
                == Ok::<SystemMargins, DecodeErrorView>(v),
    {
        broadcast use group_codec;

        let n = SystemMargins::encode_value(v, tag);
        assert(
            n.text_or::<Decimal>(Name::LeftMargin, Decimal {
                negative: false,
                magnitude: 0,
                scale: 0,
            })
                == Ok::<Decimal, DecodeErrorView>(v.left_margin)
        ) by {
            reveal(SystemMargins::encode_value);
            reveal(NodeView::text_or);
            reveal(NodeView::text_opt);
            reveal(NodeView::only_child);
            reveal(NodeView::content);
            Decimal::parse_text(v.left_margin);
        }
        assert(
            n.text_or::<Decimal>(Name::RightMargin, Decimal {
                negative: false,
                magnitude: 0,
                scale: 0,
            })
                == Ok::<Decimal, DecodeErrorView>(v.right_margin)
        ) by {
            reveal(SystemMargins::encode_value);
            reveal(NodeView::text_or);
            reveal(NodeView::text_opt);
            reveal(NodeView::only_child);
            reveal(NodeView::content);
            Decimal::parse_text(v.right_margin);
        }
        reveal(SystemMargins::decode_node);
    }

    /// Decoding gives valid values only.
    pub proof fn decoded_valid(n: NodeView)
        ensures
            SystemMargins::decode_node(n) matches Ok(v) ==> <SystemMargins as Element>::valid(v),
    {
        reveal(SystemMargins::decode_node);
    }

    /// Decodes an element.
    pub fn read_node(node: &Node) -> (r: Result<SystemMargins, DecodeError>)
        ensures
            r matches Ok(v) ==>
                SystemMargins::decode_node(node.deep_view())
                    == Ok::<SystemMargins, DecodeErrorView>(
                v.deep_view(),
            ),
            r matches Err(e) ==>
                SystemMargins::decode_node(node.deep_view())
                    == Err::<SystemMargins, DecodeErrorView>(
                e.deep_view(),
            ),
    {
        proof {
            reveal(SystemMargins::decode_node);
        }
        let left_margin = node.text_or::<Decimal>(Name::LeftMargin, Decimal {
            negative: false,
            magnitude: 0,
            scale: 0,
        })?;
        let right_margin = node.text_or::<Decimal>(Name::RightMargin, Decimal {
            negative: false,
            magnitude: 0,
            scale: 0,
        })?;
        Ok(SystemMargins { left_margin, right_margin })
    }

    /// Encodes a value as an element with the given tag.
    pub fn write_node(&self, tag: &str) -> (r: Node)
        ensures
            r.deep_view() == SystemMargins::encode_value(self.deep_view(), tag@),
    {
        proof {
            reveal(SystemMargins::encode_value);
        }
        let mut node = Node::new(tag);
        node.put_text::<Decimal>(Name::LeftMargin, &self.left_margin);
        node.put_text::<Decimal>(Name::RightMargin, &self.right_margin);
        node
    }
}

impl Element for SystemMargins {
    open spec fn valid(v: SystemMargins) -> bool {
        true
    }

    open spec fn decode(n: NodeView) -> Result<SystemMargins, DecodeErrorView> {
        SystemMargins::decode_node(n)
    }

    open spec fn encode(v: SystemMargins, tag: Seq<char>) -> NodeView {
        SystemMargins::encode_value(v, tag)
    }

    proof fn encode_tag(v: SystemMargins, tag: Seq<char>) {
        SystemMargins::encoded_tag(v, tag);
    }

    proof fn decode_encode(v: SystemMargins, tag: Seq<char>) {
        SystemMargins::round_trip(v, tag);
    }

    proof fn decode_valid(n: NodeView) {
        SystemMargins::decoded_valid(n);
    }

    fn from_node(node: &Node) -> (r: Result<SystemMargins, DecodeError>) {
        SystemMargins::read_node(node)
    }

    fn to_node(&self, tag: &str) -> (r: Node) {
        self.write_node(tag)
    }
}

/// The dividers to the left and right of a system.
#[derive(Clone, Debug, PartialEq)]
pub struct SystemDividers {
    /// The child `left-divider`; with every field at its default where it
    /// is not there.
    pub left_divider: SystemDivider,
    /// The child `right-divider`; with every field at its default where it
    /// is not there.
    pub right_divider: SystemDivider,
}

/// The mathematical value of a [`SystemDividers`].
pub struct SystemDividersView {
    pub left_divider: SystemDividerView,
    pub right_divider: SystemDividerView,
}

impl DeepView for SystemDividers {
    type V = SystemDividersView;

    open spec fn deep_view(&self) -> SystemDividersView {
        SystemDividersView {
            left_divider: self.left_divider.deep_view(),
            right_divider: self.right_divider.deep_view(),
        }
    }
}

impl SystemDividers {
    /// The value that an element denotes. The fields are read in the order in
    /// which they are declared; the first one that fails gives the error.
    #[verifier::opaque]
    pub open spec fn decode_node(n: NodeView) -> Result<SystemDividersView, DecodeErrorView> {
        let left_divider = n.element_or::<SystemDivider>(
            Name::LeftDivider,
            SystemDivider::initial(),
        );
        let right_divider = n.element_or::<SystemDivider>(
            Name::RightDivider,
            SystemDivider::initial(),
        );
        if left_divider is Err {
            Err(left_divider->Err_0)
        } else if right_divider is Err {
            Err(right_divider->Err_0)
        } else {
            Ok(
                SystemDividersView {
                    left_divider: left_divider->Ok_0,
                    right_divider: right_divider->Ok_0,
                }
            )
        }
    }

    /// The element that a value is written as.
    #[verifier::opaque]
    pub open spec fn encode_value(v: SystemDividersView, tag: Seq<char>) -> NodeView {
        NodeView::new(tag)
            .with_children(element_nodes::<SystemDivider>(Name::LeftDivider, Some(v.left_divider)))
            .with_children(
                element_nodes::<SystemDivider>(Name::RightDivider, Some(v.right_divider)),
            )
    }

    /// An encoded element bears the tag it was given.
    pub proof fn encoded_tag(v: SystemDividersView, tag: Seq<char>)
        ensures
            SystemDividers::encode_value(v, tag).tag == tag,
    {
        broadcast use group_codec;

        reveal(SystemDividers::encode_value);
    }

    /// Decoding what was encoded gives the value back.
    pub proof fn round_trip(v: SystemDividersView, tag: Seq<char>)
        requires
            <SystemDividers as Element>::valid(v),
        ensures
            SystemDividers::decode_node(SystemDividers::encode_value(v, tag))
                == Ok::<SystemDividersView, DecodeErrorView>(v),
    {
        broadcast use group_codec;

        let n = SystemDividers::encode_value(v, tag);
        assert(
            n.element_or::<SystemDivider>(Name::LeftDivider, SystemDivider::initial())
                == Ok::<SystemDividerView, DecodeErrorView>(v.left_divider)
        ) by {
            reveal(SystemDividers::encode_value);
            reveal(NodeView::element_or);
            reveal(NodeView::element_opt);
            reveal(NodeView::only_child);
            SystemDivider::decode_encode(v.left_divider, Name::LeftDivider.text());
        }
        assert(
            n.element_or::<SystemDivider>(Name::RightDivider, SystemDivider::initial())
                == Ok::<SystemDividerView, DecodeErrorView>(v.right_divider)
        ) by {
            reveal(SystemDividers::encode_value);
            reveal(NodeView::element_or);
            reveal(NodeView::element_opt);
            reveal(NodeView::only_child);
            SystemDivider::decode_encode(v.right_divider, Name::RightDivider.text());
        }
        reveal(SystemDividers::decode_node);
    }

    /// Decoding gives valid values only.
    pub proof fn decoded_valid(n: NodeView)
        ensures
            SystemDividers::decode_node(n) matches Ok(v) ==> <SystemDividers as Element>::valid(v),
    {
        reveal(SystemDividers::decode_node);
        reveal(NodeView::element_or);
        reveal(NodeView::element_opt);
        if let Ok(Some(c)) = n.only_child(Name::LeftDivider) {
            SystemDivider::decode_valid(c);
        }
        if let Ok(Some(c)) = n.only_child(Name::RightDivider) {
            SystemDivider::decode_valid(c);
        }
    }

    /// Decodes an element.
    pub fn read_node(node: &Node) -> (r: Result<SystemDividers, DecodeError>)
        ensures
            r matches Ok(v) ==>
                SystemDividers::decode_node(node.deep_view())
                    == Ok::<SystemDividersView, DecodeErrorView>(
                v.deep_view(),
            ),
            r matches Err(e) ==>
                SystemDividers::decode_node(node.deep_view())
                    == Err::<SystemDividersView, DecodeErrorView>(
                e.deep_view(),
            ),
    {
        proof {
            reveal(SystemDividers::decode_node);
        }
        let left_divider = node.element_or::<SystemDivider>(
            Name::LeftDivider,
            SystemDivider::default(),
        )?;
        let right_divider = node.element_or::<SystemDivider>(
            Name::RightDivider,
            SystemDivider::default(),
        )?;
        Ok(SystemDividers { left_divider, right_divider })
    }

    /// Encodes a value as an element with the given tag.
    pub fn write_node(&self, tag: &str) -> (r: Node)
        ensures
            r.deep_view() == SystemDividers::encode_value(self.deep_view(), tag@),
    {
        proof {
            reveal(SystemDividers::encode_value);
        }
        let mut node = Node::new(tag);
        node.put_element::<SystemDivider>(Name::LeftDivider, &self.left_divider);
        node.put_element::<SystemDivider>(Name::RightDivider, &self.right_divider);
        node
    }
}

impl Element for SystemDividers {
    open spec fn valid(v: SystemDividersView) -> bool {
        &&& SystemDivider::valid(v.left_divider)
        &&& SystemDivider::valid(v.right_divider)
    }

    open spec fn decode(n: NodeView) -> Result<SystemDividersView, DecodeErrorView> {
        SystemDividers::decode_node(n)
    }

    open spec fn encode(v: SystemDividersView, tag: Seq<char>) -> NodeView {
        SystemDividers::encode_value(v, tag)
    }

    proof fn encode_tag(v: SystemDividersView, tag: Seq<char>) {
        SystemDividers::encoded_tag(v, tag);
    }

    proof fn decode_encode(v: SystemDividersView, tag: Seq<char>) {
        SystemDividers::round_trip(v, tag);
    }

    proof fn decode_valid(n: NodeView) {
        SystemDividers::decoded_valid(n);
    }

    fn from_node(node: &Node) -> (r: Result<SystemDividers, DecodeError>) {
        SystemDividers::read_node(node)
    }

    fn to_node(&self, tag: &str) -> (r: Node) {
        self.write_node(tag)
    }
}

/// The layout of a system.
#[derive(Clone, Debug, PartialEq)]
pub struct SystemLayout {
    /// The child `system-margins`, if it is there.
    pub system_margins: Option<SystemMargins>,
    /// The text of the child `system-distance`, if the child is there.
    pub system_distance: Option<Decimal>,
    /// The text of the child `top-system-distance`, if the child is there.
    pub top_system_distance: Option<Decimal>,
    /// The child `system-dividers`, if it is there.
    pub system_dividers: Option<SystemDividers>,
}

/// The mathematical value of a [`SystemLayout`].
pub struct SystemLayoutView {
    pub system_margins: Option<SystemMargins>,
    pub system_distance: Option<Decimal>,
    pub top_system_distance: Option<Decimal>,
    pub system_dividers: Option<SystemDividersView>,
}

impl DeepView for SystemLayout {
    type V = SystemLayoutView;

    open spec fn deep_view(&self) -> SystemLayoutView {
        SystemLayoutView {
            system_margins: self.system_margins.deep_view(),
            system_distance: self.system_distance.deep_view(),
            top_system_distance: self.top_system_distance.deep_view(),
            system_dividers: self.system_dividers.deep_view(),
        }
    }
}

impl SystemLayout {
    /// The value that an element denotes. The fields are read in the order in
    /// which they are declared; the first one that fails gives the error.
    #[verifier::opaque]
    pub open spec fn decode_node(n: NodeView) -> Result<SystemLayoutView, DecodeErrorView> {
        let system_margins = n.element_opt::<SystemMargins>(Name::SystemMargins);
        let system_distance = n.text_opt::<Decimal>(Name::SystemDistance);
        let top_system_distance = n.text_opt::<Decimal>(Name::TopSystemDistance);
        let system_dividers = n.element_opt::<SystemDividers>(Name::SystemDividers);
        if system_margins is Err {
            Err(system_margins->Err_0)
        } else if system_distance is Err {
            Err(system_distance->Err_0)
        } else if top_system_distance is Err {
            Err(top_system_distance->Err_0)
        } else if system_dividers is Err {
            Err(system_dividers->Err_0)
        } else {
            Ok(
                SystemLayoutView {
                    system_margins: system_margins->Ok_0,
                    system_distance: system_distance->Ok_0,
                    top_system_distance: top_system_distance->Ok_0,
                    system_dividers: system_dividers->Ok_0,
                }
            )
        }
    }

    /// The element that a value is written as.
    #[verifier::opaque]
    pub open spec fn encode_value(v: SystemLayoutView, tag: Seq<char>) -> NodeView {
        NodeView::new(tag)
            .with_children(element_nodes::<SystemMargins>(Name::SystemMargins, v.system_margins))
            .with_children(text_nodes::<Decimal>(Name::SystemDistance, v.system_distance))
            .with_children(text_nodes::<Decimal>(Name::TopSystemDistance, v.top_system_distance))
            .with_children(element_nodes::<SystemDividers>(Name::SystemDividers, v.system_dividers))
    }

    /// An encoded element bears the tag it was given.
    pub proof fn encoded_tag(v: SystemLayoutView, tag: Seq<char>)
        ensures
            SystemLayout::encode_value(v, tag).tag == tag,
    {
        broadcast use group_codec;

        reveal(SystemLayout::encode_value);
    }

    /// Decoding what was encoded gives the value back.
    pub proof fn round_trip(v: SystemLayoutView, tag: Seq<char>)
        requires
            <SystemLayout as Element>::valid(v),
        ensures
            SystemLayout::decode_node(SystemLayout::encode_value(v, tag))
                == Ok::<SystemLayoutView, DecodeErrorView>(v),
    {
        broadcast use group_codec;

        let n = SystemLayout::encode_value(v, tag);
        assert(
            n.element_opt::<SystemMargins>(Name::SystemMargins)
                == Ok::<Option<SystemMargins>, DecodeErrorView>(v.system_margins)
        ) by {
            reveal(SystemLayout::encode_value);
            reveal(NodeView::element_opt);
            reveal(NodeView::only_child);
            if let Some(x) = v.system_margins {
                SystemMargins::decode_encode(x, Name::SystemMargins.text());
            }
        }
        assert(
            n.text_opt::<Decimal>(Name::SystemDistance)
                == Ok::<Option<Decimal>, DecodeErrorView>(v.system_distance)
        ) by {
            reveal(SystemLayout::encode_value);
            reveal(NodeView::text_opt);
            reveal(NodeView::only_child);
            reveal(NodeView::content);
            if let Some(x) = v.system_distance {
                Decimal::parse_text(x);
            }
        }
        assert(
            n.text_opt::<Decimal>(Name::TopSystemDistance)
                == Ok::<Option<Decimal>, DecodeErrorView>(v.top_system_distance)
        ) by {
            reveal(SystemLayout::encode_value);
            reveal(NodeView::text_opt);
            reveal(NodeView::only_child);
            reveal(NodeView::content);
            if let Some(x) = v.top_system_distance {
                Decimal::parse_text(x);
            }
        }
        assert(
            n.element_opt::<SystemDividers>(Name::SystemDividers)
                == Ok::<Option<SystemDividersView>, DecodeErrorView>(v.system_dividers)
        ) by {
            reveal(SystemLayout::encode_value);
            reveal(NodeView::element_opt);
            reveal(NodeView::only_child);
            if let Some(x) = v.system_dividers {
                SystemDividers::decode_encode(x, Name::SystemDividers.text());
            }
        }
        reveal(SystemLayout::decode_node);
    }

    /// Decoding gives valid values only.
    pub proof fn decoded_valid(n: NodeView)
        ensures
            SystemLayout::decode_node(n) matches Ok(v) ==> <SystemLayout as Element>::valid(v),
    {
        reveal(SystemLayout::decode_node);
        reveal(NodeView::element_opt);
        if let Ok(Some(c)) = n.only_child(Name::SystemMargins) {
            SystemMargins::decode_valid(c);
        }
        if let Ok(Some(c)) = n.only_child(Name::SystemDividers) {
            SystemDividers::decode_valid(c);
        }
    }

    /// Decodes an element.
    pub fn read_node(node: &Node) -> (r: Result<SystemLayout, DecodeError>)
        ensures
            r matches Ok(v) ==>
                SystemLayout::decode_node(node.deep_view())
                    == Ok::<SystemLayoutView, DecodeErrorView>(
                v.deep_view(),
            ),
            r matches Err(e) ==>
                SystemLayout::decode_node(node.deep_view())
                    == Err::<SystemLayoutView, DecodeErrorView>(
                e.deep_view(),
            ),
    {
        proof {
            reveal(SystemLayout::decode_node);
        }
        let system_margins = node.element_opt::<SystemMargins>(Name::SystemMargins)?;
        let system_distance = node.text_opt::<Decimal>(Name::SystemDistance)?;
        let top_system_distance = node.text_opt::<Decimal>(Name::TopSystemDistance)?;
        let system_dividers = node.element_opt::<SystemDividers>(Name::SystemDividers)?;
        Ok(SystemLayout { system_margins, system_distance, top_system_distance, system_dividers })
    }

    /// Encodes a value as an element with the given tag.
    pub fn write_node(&self, tag: &str) -> (r: Node)
        ensures
            r.deep_view() == SystemLayout::encode_value(self.deep_view(), tag@),
    {
        proof {
            reveal(SystemLayout::encode_value);
        }
        let mut node = Node::new(tag);
        node.put_element_opt::<SystemMargins>(Name::SystemMargins, &self.system_margins);
        node.put_text_opt::<Decimal>(Name::SystemDistance, &self.system_distance);
        node.put_text_opt::<Decimal>(Name::TopSystemDistance, &self.top_system_distance);
        node.put_element_opt::<SystemDividers>(Name::SystemDividers, &self.system_dividers);
        node
    }
}

impl Element for SystemLayout {
    open spec fn valid(v: SystemLayoutView) -> bool {
        &&& (v.system_margins matches Some(x) ==> SystemMargins::valid(x))
        &&& (v.system_dividers matches Some(x) ==> SystemDividers::valid(x))
    }

    open spec fn decode(n: NodeView) -> Result<SystemLayoutView, DecodeErrorView> {
        SystemLayout::decode_node(n)
    }

    open spec fn encode(v: SystemLayoutView, tag: Seq<char>) -> NodeView {
        SystemLayout::encode_value(v, tag)
    }

    proof fn encode_tag(v: SystemLayoutView, tag: Seq<char>) {
        SystemLayout::encoded_tag(v, tag);
    }

    proof fn decode_encode(v: SystemLayoutView, tag: Seq<char>) {
        SystemLayout::round_trip(v, tag);
    }

    proof fn decode_valid(n: NodeView) {
        SystemLayout::decoded_valid(n);
    }

    fn from_node(node: &Node) -> (r: Result<SystemLayout, DecodeError>) {
        SystemLayout::read_node(node)
    }

    fn to_node(&self, tag: &str) -> (r: Node) {
        self.write_node(tag)
    }
}

} // verus!
