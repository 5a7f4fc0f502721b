//! Layout changes at a measure.
use crate::codec::{Element, element_nodes, group_codec};
use crate::decimal::Decimal;
use crate::error::{DecodeError, DecodeErrorView};
use crate::measure_layout::MeasureLayout;
use crate::measure_numbering_value::MeasureNumberingValue;
use crate::names::Name;
use crate::node::{Node, NodeView};
use crate::page_layout::{PageLayout, PageLayoutView};
use crate::part_display::{PartDisplay, PartDisplayView};
use crate::printable_value::{PrintableValue, PrintableValueView};
use crate::staff_layout::StaffLayout;
use crate::system_layout::{SystemLayout, SystemLayoutView};
use crate::yes_no::YesNo;
use vstd::prelude::*;

verus! {

/// How the score is laid out from a measure on.
#[derive(Clone, Debug, PartialEq)]
pub struct Print {
    /// The child `page-layout`, if it is there.
    pub page_layout: Option<PageLayout>,
    /// The child `system-layout`, if it is there.
    pub system_layout: Option<SystemLayout>,
    /// The child `staff-layout`, if it is there.
    pub staff_layout: Option<StaffLayout>,
    /// The child `measure-layout`, if it is there.
    pub measure_layout: Option<MeasureLayout>,
    /// The child `measure-numbering`, if it is there.
    pub measure_numbering: Option<PrintableValue<MeasureNumberingValue>>,
    /// The child `part-name-display`, if it is there.
    pub part_name_display: Option<PartDisplay>,
    /// The child `part-abbreviation-display`, if it is there.
    pub part_abbreviation_display: Option<PartDisplay>,
    /// The attribute `blank-page`, if it is written.
    pub blank_page: Option<u8>,
    /// The attribute `id`, if it is written.
    pub id: Option<String>,
    /// The attribute `new-page`, if it is written.
    pub new_page: Option<YesNo>,
    /// The attribute `new-system`, if it is written.
    pub new_system: Option<YesNo>,
    /// The attribute `page-number`, if it is written.
    pub page_number: Option<String>,
    /// The attribute `staff-spacing`, if it is written.
    pub staff_spacing: Option<Decimal>,
}

/// The mathematical value of a [`Print`].
pub struct PrintView {
    pub page_layout: Option<PageLayoutView>,
    pub system_layout: Option<SystemLayoutView>,
    pub staff_layout: Option<StaffLayout>,
    pub measure_layout: Option<MeasureLayout>,
    pub measure_numbering: Option<PrintableValueView<MeasureNumberingValue>>,
    pub part_name_display: Option<PartDisplayView>,
    pub part_abbreviation_display: Option<PartDisplayView>,
    pub blank_page: Option<u8>,
    pub id: Option<Seq<char>>,
    pub new_page: Option<YesNo>,
    pub new_system: Option<YesNo>,
    pub page_number: Option<Seq<char>>,
    pub staff_spacing: Option<Decimal>,
}

impl DeepView for Print {
    type V = PrintView;

    open spec fn deep_view(&self) -> PrintView {
        PrintView {
            page_layout: self.page_layout.deep_view(),
            system_layout: self.system_layout.deep_view(),
            staff_layout: self.staff_layout.deep_view(),
            measure_layout: self.measure_layout.deep_view(),
            measure_numbering: self.measure_numbering.deep_view(),
            part_name_display: self.part_name_display.deep_view(),
            part_abbreviation_display: self.part_abbreviation_display.deep_view(),
            blank_page: self.blank_page.deep_view(),
            id: self.id.deep_view(),
            new_page: self.new_page.deep_view(),
            new_system: self.new_system.deep_view(),
            page_number: self.page_number.deep_view(),
            staff_spacing: self.staff_spacing.deep_view(),
        }
    }
}

impl Print {
    /// The value that an element denotes. The fields are read in the order in
    /// which they are declared; the first one that fails gives the error.
    #[verifier::opaque]
    pub open spec fn decode_node(n: NodeView) -> Result<PrintView, DecodeErrorView> {
        let page_layout = n.element_opt::<PageLayout>(Name::PageLayout);
        let system_layout = n.element_opt::<SystemLayout>(Name::SystemLayout);
        let staff_layout = n.element_opt::<StaffLayout>(Name::StaffLayout);
        let measure_layout = n.element_opt::<MeasureLayout>(Name::MeasureLayout);
        let measure_numbering = n.element_opt::<PrintableValue<MeasureNumberingValue>>(
            Name::MeasureNumbering,
        );
        let part_name_display = n.element_opt::<PartDisplay>(Name::PartNameDisplay);
        let part_abbreviation_display = n.element_opt::<PartDisplay>(Name::PartAbbreviationDisplay);
        let blank_page = n.attribute_opt::<u8>(Name::BlankPage);
        let id = n.attribute_opt::<String>(Name::Id);
        let new_page = n.attribute_opt::<YesNo>(Name::NewPage);
        let new_system = n.attribute_opt::<YesNo>(Name::NewSystem);
        let page_number = n.attribute_opt::<String>(Name::PageNumber);
        let staff_spacing = n.attribute_opt::<Decimal>(Name::StaffSpacing);
        if page_layout is Err {
            Err(page_layout->Err_0)
        } else if system_layout is Err {
            Err(system_layout->Err_0)
        } else if staff_layout is Err {
            Err(staff_layout->Err_0)
        } else if measure_layout is Err {
            Err(measure_layout->Err_0)
        } else if measure_numbering is Err {
            Err(measure_numbering->Err_0)
        } else if part_name_display is Err {
            Err(part_name_display->Err_0)
        } else if part_abbreviation_display is Err {
            Err(part_abbreviation_display->Err_0)
        } else if blank_page is Err {
            Err(blank_page->Err_0)
        } else if id is Err {
            Err(id->Err_0)
        } else if new_page is Err {
            Err(new_page->Err_0)
        } else if new_system is Err {
            Err(new_system->Err_0)
        } else if page_number is Err {
            Err(page_number->Err_0)
        } else if staff_spacing is Err {
            Err(staff_spacing->Err_0)
        } else {
            Ok(
                PrintView {
                    page_layout: page_layout->Ok_0,
                    system_layout: system_layout->Ok_0,
                    staff_layout: staff_layout->Ok_0,
                    measure_layout: measure_layout->Ok_0,
                    measure_numbering: measure_numbering->Ok_0,
                    part_name_display: part_name_display->Ok_0,
                    part_abbreviation_display: part_abbreviation_display->Ok_0,
                    blank_page: blank_page->Ok_0,
                    id: id->Ok_0,
                    new_page: new_page->Ok_0,
                    new_system: new_system->Ok_0,
                    page_number: page_number->Ok_0,
                    staff_spacing: staff_spacing->Ok_0,
                }
            )
        }
    }

    /// The element that a value is written as.
    #[verifier::opaque]
    pub open spec fn encode_value(v: PrintView, tag: Seq<char>) -> NodeView {
        NodeView::new(tag)
            .with_children(element_nodes::<PageLayout>(Name::PageLayout, v.page_layout))
            .with_children(element_nodes::<SystemLayout>(Name::SystemLayout, v.system_layout))
            .with_children(element_nodes::<StaffLayout>(Name::StaffLayout, v.staff_layout))
            .with_children(element_nodes::<MeasureLayout>(Name::MeasureLayout, v.measure_layout))
            .with_children(
                element_nodes::<PrintableValue<MeasureNumberingValue>>(
                    Name::MeasureNumbering,
                    v.measure_numbering,
                ),
            )
            .with_children(element_nodes::<PartDisplay>(Name::PartNameDisplay, v.part_name_display))
            .with_children(
                element_nodes::<PartDisplay>(
                    Name::PartAbbreviationDisplay,
                    v.part_abbreviation_display,
                ),
            )
            .with_scalar_opt::<u8>(Name::BlankPage, v.blank_page)
            .with_scalar_opt::<String>(Name::Id, v.id)
            .with_scalar_opt::<YesNo>(Name::NewPage, v.new_page)
            .with_scalar_opt::<YesNo>(Name::NewSystem, v.new_system)
            .with_scalar_opt::<String>(Name::PageNumber, v.page_number)
            .with_scalar_opt::<Decimal>(Name::StaffSpacing, v.staff_spacing)
    }

    /// An encoded element bears the tag it was given.
    pub proof fn encoded_tag(v: PrintView, tag: Seq<char>)
        ensures
            Print::encode_value(v, tag).tag == tag,
    {
        broadcast use group_codec;

        reveal(Print::encode_value);
    }

    /// Decoding what was encoded gives the value back.
    pub proof fn round_trip(v: PrintView, tag: Seq<char>)
        requires
            <Print as Element>::valid(v),
        ensures
            Print::decode_node(Print::encode_value(v, tag)) == Ok::<PrintView, DecodeErrorView>(v),
    {
        broadcast use group_codec;

        let n = Print::encode_value(v, tag);
        assert(
            n.element_opt::<PageLayout>(Name::PageLayout)
                == Ok::<Option<PageLayoutView>, DecodeErrorView>(v.page_layout)
        ) by {
            reveal(Print::encode_value);
            reveal(NodeView::element_opt);
            reveal(NodeView::only_child);
            if let Some(x) = v.page_layout {
                PageLayout::decode_encode(x, Name::PageLayout.text());
            }
        }
        assert(
            n.element_opt::<SystemLayout>(Name::SystemLayout)
                == Ok::<Option<SystemLayoutView>, DecodeErrorView>(v.system_layout)
        ) by {
            reveal(Print::encode_value);
            reveal(NodeView::element_opt);
            reveal(NodeView::only_child);
            if let Some(x) = v.system_layout {
                SystemLayout::decode_encode(x, Name::SystemLayout.text());
            }
        }
        assert(
            n.element_opt::<StaffLayout>(Name::StaffLayout)
                == Ok::<Option<StaffLayout>, DecodeErrorView>(v.staff_layout)
        ) by {
            reveal(Print::encode_value);
            reveal(NodeView::element_opt);
            reveal(NodeView::only_child);
            if let Some(x) = v.staff_layout {
                StaffLayout::decode_encode(x, Name::StaffLayout.text());
            }
        }
        assert(
            n.element_opt::<MeasureLayout>(Name::MeasureLayout)
                == Ok::<Option<MeasureLayout>, DecodeErrorView>(v.measure_layout)
        ) by {
            reveal(Print::encode_value);
            reveal(NodeView::element_opt);
            reveal(NodeView::only_child);
            if let Some(x) = v.measure_layout {
                MeasureLayout::decode_encode(x, Name::MeasureLayout.text());
            }
        }
        assert(
            n.element_opt::<PrintableValue<MeasureNumberingValue>>(Name::MeasureNumbering)
                == Ok::<Option<PrintableValueView<MeasureNumberingValue>>, DecodeErrorView>(
                    v.measure_numbering,
                )
        ) by {
            reveal(Print::encode_value);
            reveal(NodeView::element_opt);
            reveal(NodeView::only_child);
            if let Some(x) = v.measure_numbering {
                PrintableValue::<MeasureNumberingValue>::decode_encode(
                    x,
                    Name::MeasureNumbering.text(),
                );
            }
        }
        assert(
            n.element_opt::<PartDisplay>(Name::PartNameDisplay)
                == Ok::<Option<PartDisplayView>, DecodeErrorView>(v.part_name_display)
        ) by {
            reveal(Print::encode_value);
            reveal(NodeView::element_opt);
            reveal(NodeView::only_child);
            if let Some(x) = v.part_name_display {
                PartDisplay::decode_encode(x, Name::PartNameDisplay.text());
            }
        }
        assert(
            n.element_opt::<PartDisplay>(Name::PartAbbreviationDisplay)
                == Ok::<Option<PartDisplayView>, DecodeErrorView>(v.part_abbreviation_display)
        ) by {
            reveal(Print::encode_value);
            reveal(NodeView::element_opt);
            reveal(NodeView::only_child);
            if let Some(x) = v.part_abbreviation_display {
                PartDisplay::decode_encode(x, Name::PartAbbreviationDisplay.text());
            }
        }
        assert(
            n.attribute_opt::<u8>(Name::BlankPage)
                == Ok::<Option<u8>, DecodeErrorView>(v.blank_page)
        ) by {
            reveal(Print::encode_value);
        }
        assert(
            n.attribute_opt::<String>(Name::Id)
                == Ok::<Option<Seq<char>>, DecodeErrorView>(v.id)
        ) by {
            reveal(Print::encode_value);
        }
        assert(
            n.attribute_opt::<YesNo>(Name::NewPage)
                == Ok::<Option<YesNo>, DecodeErrorView>(v.new_page)
        ) by {
            reveal(Print::encode_value);
        }
        assert(
            n.attribute_opt::<YesNo>(Name::NewSystem)
                == Ok::<Option<YesNo>, DecodeErrorView>(v.new_system)
        ) by {
            reveal(Print::encode_value);
        }
        assert(
            n.attribute_opt::<String>(Name::PageNumber)
                == Ok::<Option<Seq<char>>, DecodeErrorView>(v.page_number)
        ) by {
            reveal(Print::encode_value);
        }
        assert(
            n.attribute_opt::<Decimal>(Name::StaffSpacing)
                == Ok::<Option<Decimal>, DecodeErrorView>(v.staff_spacing)
        ) by {
            reveal(Print::encode_value);
        }
        reveal(Print::decode_node);
    }

    /// Decoding gives valid values only.
    pub proof fn decoded_valid(n: NodeView)
        ensures
            Print::decode_node(n) matches Ok(v) ==> <Print as Element>::valid(v),
    {
        reveal(Print::decode_node);
        reveal(NodeView::element_opt);
        if let Ok(Some(c)) = n.only_child(Name::PageLayout) {
            PageLayout::decode_valid(c);
        }
        if let Ok(Some(c)) = n.only_child(Name::SystemLayout) {
            SystemLayout::decode_valid(c);
        }
        if let Ok(Some(c)) = n.only_child(Name::StaffLayout) {
            StaffLayout::decode_valid(c);
        }
        if let Ok(Some(c)) = n.only_child(Name::MeasureLayout) {
            MeasureLayout::decode_valid(c);
        }
        if let Ok(Some(c)) = n.only_child(Name::MeasureNumbering) {
            PrintableValue::<MeasureNumberingValue>::decode_valid(c);
        }
        if let Ok(Some(c)) = n.only_child(Name::PartNameDisplay) {
            PartDisplay::decode_valid(c);
        }
        if let Ok(Some(c)) = n.only_child(Name::PartAbbreviationDisplay) {
            PartDisplay::decode_valid(c);
        }
    }

    /// Decodes an element.
    pub fn read_node(node: &Node) -> (r: Result<Print, DecodeError>)
        ensures
            r matches Ok(v) ==>
                Print::decode_node(node.deep_view()) == Ok::<PrintView, DecodeErrorView>(
                v.deep_view(),
            ),
            r matches Err(e) ==>
                Print::decode_node(node.deep_view()) == Err::<PrintView, DecodeErrorView>(
                e.deep_view(),
            ),
    {
        proof {
            reveal(Print::decode_node);
        }
        let page_layout = node.element_opt::<PageLayout>(Name::PageLayout)?;
        let system_layout = node.element_opt::<SystemLayout>(Name::SystemLayout)?;
        let staff_layout = node.element_opt::<StaffLayout>(Name::StaffLayout)?;
        let measure_layout = node.element_opt::<MeasureLayout>(Name::MeasureLayout)?;
        let measure_numbering = node.element_opt::<PrintableValue<MeasureNumberingValue>>(
            Name::MeasureNumbering,
        )?;
        let part_name_display = node.element_opt::<PartDisplay>(Name::PartNameDisplay)?;
        let part_abbreviation_display = node.element_opt::<PartDisplay>(
            Name::PartAbbreviationDisplay,
        )?;
        let blank_page = node.attribute_opt::<u8>(Name::BlankPage)?;
        let id = node.attribute_opt::<String>(Name::Id)?;
        let new_page = node.attribute_opt::<YesNo>(Name::NewPage)?;
        let new_system = node.attribute_opt::<YesNo>(Name::NewSystem)?;
        let page_number = node.attribute_opt::<String>(Name::PageNumber)?;
        let staff_spacing = node.attribute_opt::<Decimal>(Name::StaffSpacing)?;
        Ok(Print {
            page_layout,
            system_layout,
            staff_layout,
            measure_layout,
            measure_numbering,
            part_name_display,
            part_abbreviation_display,
            blank_page,
            id,
            new_page,
            new_system,
            page_number,
            staff_spacing,
        })
    }

    /// Encodes a value as an element with the given tag.
    pub fn write_node(&self, tag: &str) -> (r: Node)
        ensures
            r.deep_view() == Print::encode_value(self.deep_view(), tag@),
    {
        proof {
            reveal(Print::encode_value);
        }
        let mut node = Node::new(tag);
        node.put_element_opt::<PageLayout>(Name::PageLayout, &self.page_layout);
        node.put_element_opt::<SystemLayout>(Name::SystemLayout, &self.system_layout);
        node.put_element_opt::<StaffLayout>(Name::StaffLayout, &self.staff_layout);
        node.put_element_opt::<MeasureLayout>(Name::MeasureLayout, &self.measure_layout);
        node.put_element_opt::<PrintableValue<MeasureNumberingValue>>(
            Name::MeasureNumbering,
            &self.measure_numbering,
        );
        node.put_element_opt::<PartDisplay>(Name::PartNameDisplay, &self.part_name_display);
        node.put_element_opt::<PartDisplay>(
            Name::PartAbbreviationDisplay,
            &self.part_abbreviation_display,
        );
        node.put_scalar_opt::<u8>(Name::BlankPage, &self.blank_page);
        node.put_scalar_opt::<String>(Name::Id, &self.id);
        node.put_scalar_opt::<YesNo>(Name::NewPage, &self.new_page);
        node.put_scalar_opt::<YesNo>(Name::NewSystem, &self.new_system);
        node.put_scalar_opt::<String>(Name::PageNumber, &self.page_number);
        node.put_scalar_opt::<Decimal>(Name::StaffSpacing, &self.staff_spacing);
        node
    }
}

impl Element for Print {
    open spec fn valid(v: PrintView) -> bool {
        &&& (v.page_layout matches Some(x) ==> PageLayout::valid(x))
        &&& (v.system_layout matches Some(x) ==> SystemLayout::valid(x))
        &&& (v.staff_layout matches Some(x) ==> StaffLayout::valid(x))
        &&& (v.measure_layout matches Some(x) ==> MeasureLayout::valid(x))
        &&& (v.measure_numbering matches Some(x) ==> PrintableValue::<MeasureNumberingValue>::valid(
            x,
        ))
        &&& (v.part_name_display matches Some(x) ==> PartDisplay::valid(x))
        &&& (v.part_abbreviation_display matches Some(x) ==> PartDisplay::valid(x))
    }

    open spec fn decode(n: NodeView) -> Result<PrintView, DecodeErrorView> {
        Print::decode_node(n)
    }

    open spec fn encode(v: PrintView, tag: Seq<char>) -> NodeView {
        Print::encode_value(v, tag)
    }

    proof fn encode_tag(v: PrintView, tag: Seq<char>) {
        Print::encoded_tag(v, tag);
    }

    proof fn decode_encode(v: PrintView, tag: Seq<char>) {
        Print::round_trip(v, tag);
    }

    proof fn decode_valid(n: NodeView) {
        Print::decoded_valid(n);
    }

    fn from_node(node: &Node) -> (r: Result<Print, DecodeError>) {
        Print::read_node(node)
    }

    fn to_node(&self, tag: &str) -> (r: Node) {
        self.write_node(tag)
    }
}

} // verus!
