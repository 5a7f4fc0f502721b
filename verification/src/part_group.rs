//! Groups of parts.
use crate::accidental::Accidental;
use crate::codec::{Element, element_nodes, group_codec, text_nodes};
use crate::error::{DecodeError, DecodeErrorView};
use crate::group_barline::GroupBarline;
use crate::group_symbol::GroupSymbol;
use crate::level::{Level, LevelView};
use crate::names::Name;
use crate::node::{Node, NodeView};
use crate::note::StartStop;
use crate::scalar::Scalar;
use crate::yes_no::YesNo;
use vstd::prelude::*;

verus! {

/// How the name of a group is displayed.
#[derive(Clone, Debug, PartialEq)]
pub struct GroupDisplay {
    /// The text of the child `display-text`; the empty text where the child
    /// is not there.
    pub display_text: String,
    /// The text of the child `accidental-text`, if the child is there.
    pub accidental_text: Option<Accidental>,
    /// The attribute `print-object`, if it is written.
    pub print_object: Option<YesNo>,
}

/// The mathematical value of a [`GroupDisplay`].
pub struct GroupDisplayView {
    pub display_text: Seq<char>,
    pub accidental_text: Option<Accidental>,
    pub print_object: Option<YesNo>,
}

impl DeepView for GroupDisplay {
    type V = GroupDisplayView;

    open spec fn deep_view(&self) -> GroupDisplayView {
        GroupDisplayView {
            display_text: self.display_text.deep_view(),
            accidental_text: self.accidental_text.deep_view(),
            print_object: self.print_object.deep_view(),
        }
    }
}

impl GroupDisplay {
    /// The value with every field at its default.
    pub open spec fn initial() -> GroupDisplayView {
        GroupDisplayView {
            display_text: Seq::<char>::empty(),
            accidental_text: None,
            print_object: None,
        }
    }
}

impl Default for GroupDisplay {
    fn default() -> (r: GroupDisplay)
        ensures
            r.deep_view() == GroupDisplay::initial(),
    {
        let r = GroupDisplay {
            display_text: String::new(),
            accidental_text: None,
            print_object: None,
        };
        r
    }
}

impl GroupDisplay {
    /// The value that an element denotes. The fields are read in the order in
    /// which they are declared; the first one that fails gives the error.
    #[verifier::opaque]
    pub open spec fn decode_node(n: NodeView) -> Result<GroupDisplayView, DecodeErrorView> {
        let display_text = n.text_or::<String>(Name::DisplayText, Seq::<char>::empty());
        let accidental_text = n.text_opt::<Accidental>(Name::AccidentalText);
        let print_object = n.attribute_opt::<YesNo>(Name::PrintObject);
        if display_text is Err {
            Err(display_text->Err_0)
        } else if accidental_text is Err {
            Err(accidental_text->Err_0)
        } else if print_object is Err {
            Err(print_object->Err_0)
        } else {
            Ok(
                GroupDisplayView {
                    display_text: display_text->Ok_0,
                    accidental_text: accidental_text->Ok_0,
                    print_object: print_object->Ok_0,
                }
            )
        }
    }

    /// The element that a value is written as.
    #[verifier::opaque]
    pub open spec fn encode_value(v: GroupDisplayView, tag: Seq<char>) -> NodeView {
        NodeView::new(tag)
            .with_children(text_nodes::<String>(Name::DisplayText, Some(v.display_text)))
            .with_children(text_nodes::<Accidental>(Name::AccidentalText, v.accidental_text))
            .with_scalar_opt::<YesNo>(Name::PrintObject, v.print_object)
    }

    /// An encoded element bears the tag it was given.
    pub proof fn encoded_tag(v: GroupDisplayView, tag: Seq<char>)
        ensures
            GroupDisplay::encode_value(v, tag).tag == tag,
    {
        broadcast use group_codec;

        reveal(GroupDisplay::encode_value);
    }

    /// Decoding what was encoded gives the value back.
    pub proof fn round_trip(v: GroupDisplayView, tag: Seq<char>)
        requires
            <GroupDisplay as Element>::valid(v),
        ensures
            GroupDisplay::decode_node(GroupDisplay::encode_value(v, tag))
                == Ok::<GroupDisplayView, DecodeErrorView>(v),
    {
        broadcast use group_codec;

        let n = GroupDisplay::encode_value(v, tag);
        assert(
            n.text_or::<String>(Name::DisplayText, Seq::<char>::empty())
                == Ok::<Seq<char>, DecodeErrorView>(v.display_text)
        ) by {
            reveal(GroupDisplay::encode_value);
            reveal(NodeView::text_or);
            reveal(NodeView::text_opt);
            reveal(NodeView::only_child);
            reveal(NodeView::content);
        }
        assert(
            n.text_opt::<Accidental>(Name::AccidentalText)
                == Ok::<Option<Accidental>, DecodeErrorView>(v.accidental_text)
        ) by {
            reveal(GroupDisplay::encode_value);
            reveal(NodeView::text_opt);
            reveal(NodeView::only_child);
            reveal(NodeView::content);
            if let Some(x) = v.accidental_text {
                Accidental::parse_text(x);
            }
        }
        assert(
            n.attribute_opt::<YesNo>(Name::PrintObject)
                == Ok::<Option<YesNo>, DecodeErrorView>(v.print_object)
        ) by {
            reveal(GroupDisplay::encode_value);
        }
        reveal(GroupDisplay::decode_node);
    }

    /// Decoding gives valid values only.
    pub proof fn decoded_valid(n: NodeView)
        ensures
            GroupDisplay::decode_node(n) matches Ok(v) ==> <GroupDisplay as Element>::valid(v),
    {
        reveal(GroupDisplay::decode_node);
    }

    /// Decodes an element.
    pub fn read_node(node: &Node) -> (r: Result<GroupDisplay, DecodeError>)
        ensures
            r matches Ok(v) ==>
                GroupDisplay::decode_node(node.deep_view())
                    == Ok::<GroupDisplayView, DecodeErrorView>(
                v.deep_view(),
            ),
            r matches Err(e) ==>
                GroupDisplay::decode_node(node.deep_view())
                    == Err::<GroupDisplayView, DecodeErrorView>(
                e.deep_view(),
            ),
    {
        proof {
            reveal(GroupDisplay::decode_node);
        }
        let display_text = node.text_or::<String>(Name::DisplayText, String::new())?;
        let accidental_text = node.text_opt::<Accidental>(Name::AccidentalText)?;
        let print_object = node.attribute_opt::<YesNo>(Name::PrintObject)?;
        Ok(GroupDisplay { display_text, accidental_text, print_object })
    }

    /// Encodes a value as an element with the given tag.
    pub fn write_node(&self, tag: &str) -> (r: Node)
        ensures
            r.deep_view() == GroupDisplay::encode_value(self.deep_view(), tag@),
    {
        proof {
            reveal(GroupDisplay::encode_value);
        }
        let mut node = Node::new(tag);
        node.put_text::<String>(Name::DisplayText, &self.display_text);
        node.put_text_opt::<Accidental>(Name::AccidentalText, &self.accidental_text);
        node.put_scalar_opt::<YesNo>(Name::PrintObject, &self.print_object);
        node
    }
}

impl Element for GroupDisplay {
    open spec fn valid(v: GroupDisplayView) -> bool {
        true
    }

    open spec fn decode(n: NodeView) -> Result<GroupDisplayView, DecodeErrorView> {
        GroupDisplay::decode_node(n)
    }

    open spec fn encode(v: GroupDisplayView, tag: Seq<char>) -> NodeView {
        GroupDisplay::encode_value(v, tag)
    }

    proof fn encode_tag(v: GroupDisplayView, tag: Seq<char>) {
        GroupDisplay::encoded_tag(v, tag);
    }

    proof fn decode_encode(v: GroupDisplayView, tag: Seq<char>) {
        GroupDisplay::round_trip(v, tag);
    }

    proof fn decode_valid(n: NodeView) {
        GroupDisplay::decoded_valid(n);
    }

    fn from_node(node: &Node) -> (r: Result<GroupDisplay, DecodeError>) {
        GroupDisplay::read_node(node)
    }

    fn to_node(&self, tag: &str) -> (r: Node) {
        self.write_node(tag)
    }
}

/// The start or the end of a group of parts.
#[derive(Clone, Debug, PartialEq)]
pub struct PartGroup {
    /// The text of the child `group-name`, if the child is there.
    pub group_name: Option<String>,
    /// The child `group-name-display`, if it is there.
    pub group_name_display: Option<GroupDisplay>,
    /// The text of the child `group-abbreviation`, if the child is there.
    pub group_abbreviation: Option<String>,
    /// The child `group-abbreviation-display`, if it is there.
    pub group_abbreviation_display: Option<GroupDisplay>,
    /// The text of the child `group-symbol`, if the child is there.
    pub group_symbol: Option<GroupSymbol>,
    /// The text of the child `group-barline`, if the child is there.
    pub group_barline: Option<GroupBarline>,
    /// The text of the child `footnote`, if the child is there.
    pub footnote: Option<String>,
    /// The child `level`, if it is there.
    pub level: Option<Level>,
    /// The attribute `type`; `StartStop::Start` where it is not written.
    pub type_: StartStop,
    /// The attribute `number`, if it is written.
    pub number: Option<String>,
}

/// The mathematical value of a [`PartGroup`].
pub struct PartGroupView {
    pub group_name: Option<Seq<char>>,
    pub group_name_display: Option<GroupDisplayView>,
    pub group_abbreviation: Option<Seq<char>>,
    pub group_abbreviation_display: Option<GroupDisplayView>,
    pub group_symbol: Option<GroupSymbol>,
    pub group_barline: Option<GroupBarline>,
    pub footnote: Option<Seq<char>>,
    pub level: Option<LevelView>,
    pub type_: StartStop,
    pub number: Option<Seq<char>>,
}

impl DeepView for PartGroup {
    type V = PartGroupView;

    open spec fn deep_view(&self) -> PartGroupView {
        PartGroupView {
            group_name: self.group_name.deep_view(),
            group_name_display: self.group_name_display.deep_view(),
            group_abbreviation: self.group_abbreviation.deep_view(),
            group_abbreviation_display: self.group_abbreviation_display.deep_view(),
            group_symbol: self.group_symbol.deep_view(),
            group_barline: self.group_barline.deep_view(),
            footnote: self.footnote.deep_view(),
            level: self.level.deep_view(),
            type_: self.type_.deep_view(),
            number: self.number.deep_view(),
        }
    }
}

impl PartGroup {
    /// The value with every field at its default.
    pub open spec fn initial() -> PartGroupView {
        PartGroupView {
            group_name: None,
            group_name_display: None,
            group_abbreviation: None,
            group_abbreviation_display: None,
            group_symbol: None,
            group_barline: None,
            footnote: None,
            level: None,
            type_: StartStop::Start,
            number: None,
        }
    }
}

impl Default for PartGroup {
    fn default() -> (r: PartGroup)
        ensures
            r.deep_view() == PartGroup::initial(),
    {
        let r = PartGroup {
            group_name: None,
            group_name_display: None,
            group_abbreviation: None,
            group_abbreviation_display: None,
            group_symbol: None,
            group_barline: None,
            footnote: None,
            level: None,
            type_: StartStop::Start,
            number: None,
        };
        r
    }
}

impl PartGroup {
    /// The value that an element denotes. The fields are read in the order in
    /// which they are declared; the first one that fails gives the error.
    #[verifier::opaque]
    pub open spec fn decode_node(n: NodeView) -> Result<PartGroupView, DecodeErrorView> {
        let group_name = n.text_opt::<String>(Name::GroupName);
        let group_name_display = n.element_opt::<GroupDisplay>(Name::GroupNameDisplay);
        let group_abbreviation = n.text_opt::<String>(Name::GroupAbbreviation);
        let group_abbreviation_display = n.element_opt::<GroupDisplay>(
            Name::GroupAbbreviationDisplay,
        );
        let group_symbol = n.text_opt::<GroupSymbol>(Name::GroupSymbol);
        let group_barline = n.text_opt::<GroupBarline>(Name::GroupBarline);
        let footnote = n.text_opt::<String>(Name::Footnote);
        let level = n.element_opt::<Level>(Name::Level);
        let type_ = n.attribute_or::<StartStop>(Name::Type, StartStop::Start);
        let number = n.attribute_opt::<String>(Name::Number);
        if group_name is Err {
            Err(group_name->Err_0)
        } else if group_name_display is Err {
            Err(group_name_display->Err_0)
        } else if group_abbreviation is Err {
            Err(group_abbreviation->Err_0)
        } else if group_abbreviation_display is Err {
            Err(group_abbreviation_display->Err_0)
        } else if group_symbol is Err {
            Err(group_symbol->Err_0)
        } else if group_barline is Err {
            Err(group_barline->Err_0)
        } else if footnote is Err {
            Err(footnote->Err_0)
        } else if level is Err {
            Err(level->Err_0)
        } else if type_ is Err {
            Err(type_->Err_0)
        } else if number is Err {
            Err(number->Err_0)
        } else {
            Ok(
                PartGroupView {
                    group_name: group_name->Ok_0,
                    group_name_display: group_name_display->Ok_0,
                    group_abbreviation: group_abbreviation->Ok_0,
                    group_abbreviation_display: group_abbreviation_display->Ok_0,
                    group_symbol: group_symbol->Ok_0,
                    group_barline: group_barline->Ok_0,
                    footnote: footnote->Ok_0,
                    level: level->Ok_0,
                    type_: type_->Ok_0,
                    number: number->Ok_0,
                }
            )
        }
    }

    /// The element that a value is written as.
    #[verifier::opaque]
    pub open spec fn encode_value(v: PartGroupView, tag: Seq<char>) -> NodeView {
        NodeView::new(tag)
            .with_children(text_nodes::<String>(Name::GroupName, v.group_name))
            .with_children(
                element_nodes::<GroupDisplay>(Name::GroupNameDisplay, v.group_name_display),
            )
            .with_children(text_nodes::<String>(Name::GroupAbbreviation, v.group_abbreviation))
            .with_children(
                element_nodes::<GroupDisplay>(
                    Name::GroupAbbreviationDisplay,
                    v.group_abbreviation_display,
                ),
            )
            .with_children(text_nodes::<GroupSymbol>(Name::GroupSymbol, v.group_symbol))
            .with_children(text_nodes::<GroupBarline>(Name::GroupBarline, v.group_barline))
            .with_children(text_nodes::<String>(Name::Footnote, v.footnote))
            .with_children(element_nodes::<Level>(Name::Level, v.level))
            .with_scalar::<StartStop>(Name::Type, v.type_)
            .with_scalar_opt::<String>(Name::Number, v.number)
    }

    /// An encoded element bears the tag it was given.
    pub proof fn encoded_tag(v: PartGroupView, tag: Seq<char>)
        ensures
            PartGroup::encode_value(v, tag).tag == tag,
    {
        broadcast use group_codec;

        reveal(PartGroup::encode_value);
    }

    /// Decoding what was encoded gives the value back.
    pub proof fn round_trip(v: PartGroupView, tag: Seq<char>)
        requires
            <PartGroup as Element>::valid(v),
        ensures
            PartGroup::decode_node(PartGroup::encode_value(v, tag))
                == Ok::<PartGroupView, DecodeErrorView>(v),
    {
        broadcast use group_codec;

        let n = PartGroup::encode_value(v, tag);
        assert(
            n.text_opt::<String>(Name::GroupName)
                == Ok::<Option<Seq<char>>, DecodeErrorView>(v.group_name)
        ) by {
            reveal(PartGroup::encode_value);
            reveal(NodeView::text_opt);
            reveal(NodeView::only_child);
            reveal(NodeView::content);
        }
        assert(
            n.element_opt::<GroupDisplay>(Name::GroupNameDisplay)
                == Ok::<Option<GroupDisplayView>, DecodeErrorView>(v.group_name_display)
        ) by {
            reveal(PartGroup::encode_value);
            reveal(NodeView::element_opt);
            reveal(NodeView::only_child);
            if let Some(x) = v.group_name_display {
                GroupDisplay::decode_encode(x, Name::GroupNameDisplay.text());
            }
        }
        assert(
            n.text_opt::<String>(Name::GroupAbbreviation)
                == Ok::<Option<Seq<char>>, DecodeErrorView>(v.group_abbreviation)
        ) by {
            reveal(PartGroup::encode_value);
            reveal(NodeView::text_opt);
            reveal(NodeView::only_child);
            reveal(NodeView::content);
        }
        assert(
            n.element_opt::<GroupDisplay>(Name::GroupAbbreviationDisplay)
                == Ok::<Option<GroupDisplayView>, DecodeErrorView>(v.group_abbreviation_display)
        ) by {
            reveal(PartGroup::encode_value);
            reveal(NodeView::element_opt);
            reveal(NodeView::only_child);
            if let Some(x) = v.group_abbreviation_display {
                GroupDisplay::decode_encode(x, Name::GroupAbbreviationDisplay.text());
            }
        }
        assert(
            n.text_opt::<GroupSymbol>(Name::GroupSymbol)
                == Ok::<Option<GroupSymbol>, DecodeErrorView>(v.group_symbol)
        ) by {
            reveal(PartGroup::encode_value);
            reveal(NodeView::text_opt);
            reveal(NodeView::only_child);
            reveal(NodeView::content);
            if let Some(x) = v.group_symbol {
                GroupSymbol::parse_text(x);
            }
        }
        assert(
            n.text_opt::<GroupBarline>(Name::GroupBarline)
                == Ok::<Option<GroupBarline>, DecodeErrorView>(v.group_barline)
        ) by {
            reveal(PartGroup::encode_value);
            reveal(NodeView::text_opt);
            reveal(NodeView::only_child);
            reveal(NodeView::content);
            if let Some(x) = v.group_barline {
                GroupBarline::parse_text(x);
            }
        }
        assert(
            n.text_opt::<String>(Name::Footnote)
                == Ok::<Option<Seq<char>>, DecodeErrorView>(v.footnote)
        ) by {
            reveal(PartGroup::encode_value);
            reveal(NodeView::text_opt);
            reveal(NodeView::only_child);
            reveal(NodeView::content);
        }
        assert(
            n.element_opt::<Level>(Name::Level)
                == Ok::<Option<LevelView>, DecodeErrorView>(v.level)
        ) by {
            reveal(PartGroup::encode_value);
            reveal(NodeView::element_opt);
            reveal(NodeView::only_child);
            if let Some(x) = v.level {
                Level::decode_encode(x, Name::Level.text());
            }
        }
        assert(
            n.attribute_or::<StartStop>(Name::Type, StartStop::Start)
                == Ok::<StartStop, DecodeErrorView>(v.type_)
        ) by {
            reveal(PartGroup::encode_value);
        }
        assert(
            n.attribute_opt::<String>(Name::Number)
                == Ok::<Option<Seq<char>>, DecodeErrorView>(v.number)
        ) by {
            reveal(PartGroup::encode_value);
        }
        reveal(PartGroup::decode_node);
    }

    /// Decoding gives valid values only.
    pub proof fn decoded_valid(n: NodeView)
        ensures
            PartGroup::decode_node(n) matches Ok(v) ==> <PartGroup as Element>::valid(v),
    {
        reveal(PartGroup::decode_node);
        reveal(NodeView::element_opt);
        if let Ok(Some(c)) = n.only_child(Name::GroupNameDisplay) {
            GroupDisplay::decode_valid(c);
        }
        if let Ok(Some(c)) = n.only_child(Name::GroupAbbreviationDisplay) {
            GroupDisplay::decode_valid(c);
        }
        if let Ok(Some(c)) = n.only_child(Name::Level) {
            Level::decode_valid(c);
        }
    }

    /// Decodes an element.
    pub fn read_node(node: &Node) -> (r: Result<PartGroup, DecodeError>)
        ensures
            r matches Ok(v) ==>
                PartGroup::decode_node(node.deep_view()) == Ok::<PartGroupView, DecodeErrorView>(
                v.deep_view(),
            ),
            r matches Err(e) ==>
                PartGroup::decode_node(node.deep_view()) == Err::<PartGroupView, DecodeErrorView>(
                e.deep_view(),
            ),
    {
        proof {
            reveal(PartGroup::decode_node);
        }
        let group_name = node.text_opt::<String>(Name::GroupName)?;
        let group_name_display = node.element_opt::<GroupDisplay>(Name::GroupNameDisplay)?;
        let group_abbreviation = node.text_opt::<String>(Name::GroupAbbreviation)?;
        let group_abbreviation_display = node.element_opt::<GroupDisplay>(
            Name::GroupAbbreviationDisplay,
        )?;
        let group_symbol = node.text_opt::<GroupSymbol>(Name::GroupSymbol)?;
        let group_barline = node.text_opt::<GroupBarline>(Name::GroupBarline)?;
        let footnote = node.text_opt::<String>(Name::Footnote)?;
        let level = node.element_opt::<Level>(Name::Level)?;
        let type_ = node.attribute_or::<StartStop>(Name::Type, StartStop::Start)?;
        let number = node.attribute_opt::<String>(Name::Number)?;
        Ok(PartGroup {
            group_name,
            group_name_display,
            group_abbreviation,
            group_abbreviation_display,
            group_symbol,
            group_barline,
            footnote,
            level,
            type_,
            number,
        })
    }

    /// Encodes a value as an element with the given tag.
    pub fn write_node(&self, tag: &str) -> (r: Node)
        ensures
            r.deep_view() == PartGroup::encode_value(self.deep_view(), tag@),
    {
        proof {
            reveal(PartGroup::encode_value);
        }
        let mut node = Node::new(tag);
        node.put_text_opt::<String>(Name::GroupName, &self.group_name);
        node.put_element_opt::<GroupDisplay>(Name::GroupNameDisplay, &self.group_name_display);
        node.put_text_opt::<String>(Name::GroupAbbreviation, &self.group_abbreviation);
        node.put_element_opt::<GroupDisplay>(
            Name::GroupAbbreviationDisplay,
            &self.group_abbreviation_display,
        );
        node.put_text_opt::<GroupSymbol>(Name::GroupSymbol, &self.group_symbol);
        node.put_text_opt::<GroupBarline>(Name::GroupBarline, &self.group_barline);
        node.put_text_opt::<String>(Name::Footnote, &self.footnote);
        node.put_element_opt::<Level>(Name::Level, &self.level);
        node.put_scalar::<StartStop>(Name::Type, &self.type_);
        node.put_scalar_opt::<String>(Name::Number, &self.number);
        node
    }
}

impl Element for PartGroup {
    open spec fn valid(v: PartGroupView) -> bool {
        &&& (v.group_name_display matches Some(x) ==> GroupDisplay::valid(x))
        &&& (v.group_abbreviation_display matches Some(x) ==> GroupDisplay::valid(x))
        &&& (v.level matches Some(x) ==> Level::valid(x))
    }

    open spec fn decode(n: NodeView) -> Result<PartGroupView, DecodeErrorView> {
        PartGroup::decode_node(n)
    }

    open spec fn encode(v: PartGroupView, tag: Seq<char>) -> NodeView {
        PartGroup::encode_value(v, tag)
    }

    proof fn encode_tag(v: PartGroupView, tag: Seq<char>) {
        PartGroup::encoded_tag(v, tag);
    }

    proof fn decode_encode(v: PartGroupView, tag: Seq<char>) {
        PartGroup::round_trip(v, tag);
    }

    proof fn decode_valid(n: NodeView) {
        PartGroup::decoded_valid(n);
    }

    fn from_node(node: &Node) -> (r: Result<PartGroup, DecodeError>) {
        PartGroup::read_node(node)
    }

    fn to_node(&self, tag: &str) -> (r: Node) {
        self.write_node(tag)
    }
}

} // verus!
