//! A gamepad descriptor assembled from a button count, a list of axes and an
//! optional hat switch.
use vstd::prelude::*;
use crate::codes::{
    CollectionAttr, ItemTag, ReportID, Unit, Usage, UsagePage, report_id_code, unit_code,
    usage_code, usage_page_code,
};
use crate::collection::{Collection, HIDReport, closed, collection_header};
use crate::hex::{hex_of, hex_string};
use crate::input_flags::{
    ABS, CONST, DATA, LINEAR, NO_NULL_POSITION, NO_WRAP, NULL_STATE, PREFERRED_STATE, VAR,
};
use crate::item::{Item, encode};

verus! {

/// Flags of a variable, absolute data field.
pub const VALUE_FIELD: u8 = DATA + VAR + ABS + NO_WRAP + LINEAR + PREFERRED_STATE + NO_NULL_POSITION;

/// Flags of a constant field that only pads.
pub const PADDING_FIELD: u8 = CONST + VAR + ABS + NO_WRAP + LINEAR + PREFERRED_STATE + NO_NULL_POSITION;

/// Flags of the hat switch's field, which has a null state.
pub const HAT_FIELD: u8 = VAR + ABS + NULL_STATE;

/// The absolute axes that a gamepad can expose.
#[derive(Clone, Copy, Debug, PartialEq, Eq)]
pub enum AbsAxis {
    X,
    Y,
    Z,
    Rx,
    Ry,
    Rz,
}

/// The Generic Desktop usage of each axis.
pub open spec fn axis_usage(kind: AbsAxis) -> Usage {
    match kind {
        AbsAxis::X => Usage::X,
        AbsAxis::Y => Usage::Y,
        AbsAxis::Z => Usage::Z,
        AbsAxis::Rx => Usage::Rx,
        AbsAxis::Ry => Usage::Ry,
        AbsAxis::Rz => Usage::Rz,
    }
}

/// The report size, in bits, of a field whose largest value is `max_value`.
pub open spec fn report_size_for(max_value: u32) -> u32 {
    if max_value > 0xFFFF {
        32
    } else if max_value > 0xFF {
        16
    } else {
        8
    }
}

/// One analog axis of a gamepad and its inclusive range.
pub struct HidAxis {
    kind: Usage,
    max_value: u32,
    min_value: u32,
    report_size: u32,
}

impl HidAxis {
    pub closed spec fn kind(&self) -> Usage {
        self.kind
    }

    pub closed spec fn max_value(&self) -> u32 {
        self.max_value
    }

    pub closed spec fn min_value(&self) -> u32 {
        self.min_value
    }

    pub closed spec fn report_size(&self) -> u32 {
        self.report_size
    }

    /// The range is not empty and the report size fits its maximum.
    #[verifier::type_invariant]
    spec fn wf(&self) -> bool {
        &&& self.min_value <= self.max_value
        &&& self.report_size == report_size_for(self.max_value)
    }

    /// An axis of the given kind over `[min_value, max_value]`.
    pub fn new(kind: AbsAxis, max_value: u32, min_value: u32) -> (r: HidAxis)
        requires
            max_value >= min_value,
        ensures
            r.kind() == axis_usage(kind),
            r.max_value() == max_value,
            r.min_value() == min_value,
            r.report_size() == report_size_for(max_value),
    {
        let usage = match kind {
            AbsAxis::X => Usage::X,
            AbsAxis::Y => Usage::Y,
            AbsAxis::Z => Usage::Z,
            AbsAxis::Rx => Usage::Rx,
            AbsAxis::Ry => Usage::Ry,
            AbsAxis::Rz => Usage::Rz,
        };
        let report_size: u32 = if max_value > 0xFFFF {
            32
        } else if max_value > 0xFF {
            16
        } else {
            8
        };
        HidAxis { kind: usage, max_value, min_value, report_size }
    }
}

/// The encoding of `tag` with payload `v`.
pub open spec fn item(tag: ItemTag, v: u32) -> Seq<u8> {
    encode(tag, Some(v))
}

/// The buttons' field and the report identifier before it.
pub open spec fn button_items(n: u32) -> Seq<u8> {
    item(ItemTag::ReportID, report_id_code(ReportID::InputReport) as u32)
        + item(ItemTag::UsagePage, usage_page_code(UsagePage::Button) as u32)
        + item(ItemTag::UsageMinimum, 1)
        + item(ItemTag::UsageMaximum, n)
        + item(ItemTag::LogicalMinimum, 0)
        + item(ItemTag::LogicalMaximum, 1)
        + item(ItemTag::ReportCount, n)
        + item(ItemTag::ReportSize, 1)
        + item(ItemTag::Input, VALUE_FIELD as u32)
}

/// The constant field that pads `n` one-bit buttons to a whole byte; nothing
/// when `n` is a multiple of 8.
pub open spec fn padding_items(n: u32) -> Seq<u8> {
    if n % 8 != 0 {
        item(ItemTag::ReportCount, 1)
            + item(ItemTag::ReportSize, (8 - n % 8) as u32)
            + item(ItemTag::Input, PADDING_FIELD as u32)
    } else {
        Seq::empty()
    }
}

/// The field of one axis.
pub open spec fn axis_items(a: HidAxis) -> Seq<u8> {
    item(ItemTag::Usage, usage_code(a.kind()) as u32)
        + item(ItemTag::LogicalMinimum, a.min_value())
        + item(ItemTag::LogicalMaximum, a.max_value())
        + item(ItemTag::ReportSize, a.report_size())
        + item(ItemTag::ReportCount, 1)
        + item(ItemTag::Input, VALUE_FIELD as u32)
}

/// The fields of all axes, in order.
pub open spec fn axes_items(axes: Seq<HidAxis>) -> Seq<u8>
    decreases axes.len(),
{
    if axes.len() == 0 {
        Seq::empty()
    } else {
        axes_items(axes.drop_last()) + axis_items(axes.last())
    }
}

/// The open physical collection of the axes.
pub open spec fn axes_block(axes: Seq<HidAxis>) -> Seq<u8> {
    collection_header(CollectionAttr::Physical)
        + item(ItemTag::UsagePage, usage_page_code(UsagePage::GenericDesktopCtrls) as u32)
        + axes_items(axes)
}

/// The open physical collection of the hat switch: its four-bit field and
/// the four bits that pad it to a byte.
pub open spec fn hat_block() -> Seq<u8> {
    collection_header(CollectionAttr::Physical)
        + item(ItemTag::UsagePage, usage_page_code(UsagePage::GenericDesktopCtrls) as u32)
        + item(ItemTag::Usage, usage_code(Usage::HatSwitch) as u32)
        + item(ItemTag::LogicalMinimum, 0)
        + item(ItemTag::LogicalMaximum, 8)
        + item(ItemTag::PhysicalMinimum, 0)
        + item(ItemTag::PhysicalMaximum, 315)
        + item(ItemTag::Unit, unit_code(Unit::EnglishRotationDegrees) as u32)
        + item(ItemTag::ReportSize, 4)
        + item(ItemTag::ReportCount, 1)
        + item(ItemTag::Input, HAT_FIELD as u32)
        + item(ItemTag::ReportCount, 1)
        + item(ItemTag::ReportSize, 4)
        + item(ItemTag::Input, PADDING_FIELD as u32)
}

/// The open report collection.
pub open spec fn report_block(n: u32, axes: Seq<HidAxis>, hat: bool) -> Seq<u8> {
    collection_header(CollectionAttr::Report) + button_items(n) + padding_items(n) + closed(
        axes_block(axes),
    ) + if hat {
        closed(hat_block())
    } else {
        Seq::empty()
    }
}

/// The whole descriptor of a gamepad.
pub open spec fn descriptor(n: u32, axes: Seq<HidAxis>, hat: bool) -> Seq<u8> {
    item(ItemTag::UsagePage, usage_page_code(UsagePage::GenericDesktopCtrls) as u32)
        + item(ItemTag::Usage, usage_code(Usage::Gamepad) as u32)
        + closed(collection_header(CollectionAttr::Application) + closed(report_block(n, axes, hat)))
}

/// Appends the buttons' field, and its padding where the count is not a
/// multiple of 8.
fn add_button_block(report: &mut Collection, button_number: u32)
    ensures
        final(report)@ == old(report)@ + button_items(button_number) + padding_items(
            button_number,
        ),
{
    report.add_item(Item::new(ItemTag::ReportID, Some(ReportID::InputReport.code() as u32)));
    report.add_item(Item::new(ItemTag::UsagePage, Some(UsagePage::Button.code() as u32)));
    report.add_item(Item::new(ItemTag::UsageMinimum, Some(1)));
    report.add_item(Item::new(ItemTag::UsageMaximum, Some(button_number)));
    report.add_item(Item::new(ItemTag::LogicalMinimum, Some(0)));
    report.add_item(Item::new(ItemTag::LogicalMaximum, Some(1)));
    report.add_item(Item::new(ItemTag::ReportCount, Some(button_number)));
    report.add_item(Item::new(ItemTag::ReportSize, Some(1)));
    report.add_item(Item::new(ItemTag::Input, Some(VALUE_FIELD as u32)));
    assert(report@ =~= old(report)@ + button_items(button_number));
    let ghost with_buttons = report@;
    if button_number % 8 != 0 {
        report.add_item(Item::new(ItemTag::ReportCount, Some(1)));
        report.add_item(Item::new(ItemTag::ReportSize, Some(8 - button_number % 8)));
        report.add_item(Item::new(ItemTag::Input, Some(PADDING_FIELD as u32)));
    }
    assert(report@ =~= with_buttons + padding_items(button_number));
}

/// The open physical collection of the axes.
fn axes_collection(axes: &Vec<HidAxis>) -> (r: Collection)
    ensures
        r@ == axes_block(axes@),
{
    let mut c = Collection::new(CollectionAttr::Physical);
    c.add_item(
        Item::new(ItemTag::UsagePage, Some(UsagePage::GenericDesktopCtrls.code() as u32)),
    );
    let ghost head = c@;
    let mut i: usize = 0;
    while i < axes.len()
        invariant
            i <= axes.len(),
            c@ == head + axes_items(axes@.subrange(0, i as int)),
        decreases axes.len() - i,
    {
        let axis = &axes[i];
        let ghost before = c@;
        c.add_item(Item::new(ItemTag::Usage, Some(axis.kind.code() as u32)));
        c.add_item(Item::new(ItemTag::LogicalMinimum, Some(axis.min_value)));
        c.add_item(Item::new(ItemTag::LogicalMaximum, Some(axis.max_value)));
        c.add_item(Item::new(ItemTag::ReportSize, Some(axis.report_size)));
        c.add_item(Item::new(ItemTag::ReportCount, Some(1)));
        c.add_item(Item::new(ItemTag::Input, Some(VALUE_FIELD as u32)));
        assert(c@ =~= before + axis_items(*axis));
        assert(axes@.subrange(0, i + 1).drop_last() =~= axes@.subrange(0, i as int));
        i = i + 1;
    }
    assert(axes@.subrange(0, i as int) =~= axes@);
    assert(c@ =~= axes_block(axes@));
    c
}

/// The open physical collection of the hat switch.
fn hat_collection() -> (r: Collection)
    ensures
        r@ == hat_block(),
{
    let mut c = Collection::new(CollectionAttr::Physical);
    c.add_item(
        Item::new(ItemTag::UsagePage, Some(UsagePage::GenericDesktopCtrls.code() as u32)),
    );
    c.add_item(Item::new(ItemTag::Usage, Some(Usage::HatSwitch.code() as u32)));
    c.add_item(Item::new(ItemTag::LogicalMinimum, Some(0)));
    c.add_item(Item::new(ItemTag::LogicalMaximum, Some(8)));
    c.add_item(Item::new(ItemTag::PhysicalMinimum, Some(0)));
    c.add_item(Item::new(ItemTag::PhysicalMaximum, Some(315)));
    c.add_item(Item::new(ItemTag::Unit, Some(Unit::EnglishRotationDegrees.code() as u32)));
    c.add_item(Item::new(ItemTag::ReportSize, Some(4)));
    c.add_item(Item::new(ItemTag::ReportCount, Some(1)));
    c.add_item(Item::new(ItemTag::Input, Some(HAT_FIELD as u32)));
    c.add_item(Item::new(ItemTag::ReportCount, Some(1)));
    c.add_item(Item::new(ItemTag::ReportSize, Some(4)));
    c.add_item(Item::new(ItemTag::Input, Some(PADDING_FIELD as u32)));
    assert(c@ =~= hat_block());
    c
}

/// What a gamepad exposes: its buttons, its axes in order, and whether it
/// has a hat switch.
pub struct HidGamepad {
    button_number: u32,
    axes: Vec<HidAxis>,
    hat: bool,
}

impl HidGamepad {
    pub closed spec fn button_number(&self) -> u32 {
        self.button_number
    }

    pub closed spec fn axes(&self) -> Seq<HidAxis> {
        self.axes@
    }

    pub closed spec fn hat(&self) -> bool {
        self.hat
    }

    /// The descriptor that this gamepad's report is described by.
    pub open spec fn spec_descriptor(&self) -> Seq<u8> {
        descriptor(self.button_number(), self.axes(), self.hat())
    }

    pub fn new(button_number: u32, axes: Vec<HidAxis>, hat: bool) -> (r: HidGamepad)
        ensures
            r.button_number() == button_number,
            r.axes() == axes@,
            r.hat() == hat,
    {
        HidGamepad { button_number, axes, hat }
    }

    /// The bytes of this gamepad's report descriptor.
    pub fn descriptor_bytes(&self) -> (r: Vec<u8>)
        ensures
            r@ == self.spec_descriptor(),
    {
        let mut hid_report = HIDReport::new();
        hid_report.add_item(
            Item::new(ItemTag::UsagePage, Some(UsagePage::GenericDesktopCtrls.code() as u32)),
        );
        hid_report.add_item(Item::new(ItemTag::Usage, Some(Usage::Gamepad.code() as u32)));
        let mut collection_app = Collection::new(CollectionAttr::Application);
        let mut collection_report = Collection::new(CollectionAttr::Report);
        add_button_block(&mut collection_report, self.button_number);
        collection_report.add_collection(axes_collection(&self.axes));
        if self.hat {
            collection_report.add_collection(hat_collection());
        }
        assert(collection_report@ =~= report_block(self.button_number, self.axes@, self.hat));
        collection_app.add_collection(collection_report);
        hid_report.add_collection(collection_app);
        assert(hid_report@ =~= self.spec_descriptor());
        let mut bytes: Vec<u8> = Vec::new();
        let src = hid_report.get_bytes();
        let mut i: usize = 0;
        while i < src.len()
            invariant
                i <= src.len(),
                bytes@ == src@.subrange(0, i as int),
            decreases src.len() - i,
        {
            bytes.push(src[i]);
            i = i + 1;
            assert(bytes@ =~= src@.subrange(0, i as int));
        }
        assert(bytes@ =~= src@);
        bytes
    }

    /// This gamepad's report descriptor as lowercase hexadecimal text, two
    /// digits per byte, with no separator.
    pub fn generate_report(&self) -> (r: String)
        ensures
            r@ == hex_of(self.spec_descriptor()),
    {
        let bytes = self.descriptor_bytes();
        hex_string(&bytes)
    }
}

/// Two gamepads alike in buttons, axes and hat are described by the same
/// bytes and the same text: building a report twice gives the same result.
pub proof fn lemma_report_deterministic(a: &HidGamepad, b: &HidGamepad)
    requires
        a.button_number() == b.button_number(),
        a.axes() == b.axes(),
        a.hat() == b.hat(),
    ensures
        a.spec_descriptor() == b.spec_descriptor(),
        hex_of(a.spec_descriptor()) == hex_of(b.spec_descriptor()),
{
}

} // verus!
