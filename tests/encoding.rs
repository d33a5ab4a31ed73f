use hid_descriptor::codes::{CollectionAttr, ItemTag, ReportID, Unit, Usage, UsagePage};
use hid_descriptor::collection::{Collection, HIDReport};
use hid_descriptor::hex::hex_string;
use hid_descriptor::input_flags::{
    ABS, CONST, DATA, LINEAR, NO_NULL_POSITION, NO_WRAP, NULL_STATE, PREFERRED_STATE, VAR,
};
use hid_descriptor::item::Item;

#[test]
fn test_usage_page_desktop() {
    let mut report = HIDReport::new();
    report.add_item(Item::new(ItemTag::UsagePage, Some(UsagePage::GenericDesktopCtrls.code() as u32)));
    assert_eq!(*report.get_bytes(), vec![0x05, 0x01]);
}

#[test]
fn test_usage_page_button() {
    let mut report = HIDReport::new();
    report.add_item(Item::new(ItemTag::UsagePage, Some(UsagePage::Button.code() as u32)));
    assert_eq!(*report.get_bytes(), vec![0x05, 0x09]);
}

#[test]
fn test_logical_maximum() {
    let mut report = HIDReport::new();
    report.add_item(Item::new(ItemTag::LogicalMaximum, Some(32767)));
    assert_eq!(*report.get_bytes(), vec![0x26, 0xff, 0x7f]);
}

#[test]
fn test_hid_report() {
    let button_number: u32 = 12;
    let value_field = DATA + VAR + ABS + NO_WRAP + LINEAR + PREFERRED_STATE + NO_NULL_POSITION;
    let padding_field = CONST + VAR + ABS + NO_WRAP + LINEAR + PREFERRED_STATE + NO_NULL_POSITION;

    let mut hid_report = HIDReport::new();
    hid_report.add_item(Item::new(ItemTag::UsagePage, Some(UsagePage::GenericDesktopCtrls.code() as u32)));
    hid_report.add_item(Item::new(ItemTag::Usage, Some(Usage::Gamepad.code() as u32)));

    let mut collection_app = Collection::new(CollectionAttr::Application);

    let mut collection_report = Collection::new(CollectionAttr::Report);
    collection_report.add_item(Item::new(ItemTag::ReportID, Some(ReportID::InputReport.code() as u32)));
    collection_report.add_item(Item::new(ItemTag::UsagePage, Some(UsagePage::Button.code() as u32)));
    collection_report.add_item(Item::new(ItemTag::UsageMinimum, Some(1)));
    collection_report.add_item(Item::new(ItemTag::UsageMaximum, Some(button_number)));
    collection_report.add_item(Item::new(ItemTag::LogicalMinimum, Some(0)));
    collection_report.add_item(Item::new(ItemTag::LogicalMaximum, Some(1)));
    collection_report.add_item(Item::new(ItemTag::ReportCount, Some(button_number)));
    collection_report.add_item(Item::new(ItemTag::ReportSize, Some(1)));
    collection_report.add_item(Item::new(ItemTag::Input, Some(value_field as u32)));
    if button_number % 8 != 0 {
        collection_report.add_item(Item::new(ItemTag::ReportCount, Some(1)));
        collection_report.add_item(Item::new(ItemTag::ReportSize, Some(8 - button_number % 8)));
        collection_report.add_item(Item::new(ItemTag::Input, Some(padding_field as u32)));
    }

    let mut axes_collection = Collection::new(CollectionAttr::Physical);
    axes_collection.add_item(Item::new(ItemTag::UsagePage, Some(UsagePage::GenericDesktopCtrls.code() as u32)));
    axes_collection.add_item(Item::new(ItemTag::Usage, Some(Usage::X.code() as u32)));
    axes_collection.add_item(Item::new(ItemTag::Usage, Some(Usage::Y.code() as u32)));
    axes_collection.add_item(Item::new(ItemTag::Usage, Some(Usage::Z.code() as u32)));
    axes_collection.add_item(Item::new(ItemTag::Usage, Some(Usage::Rz.code() as u32)));
    axes_collection.add_item(Item::new(ItemTag::LogicalMinimum, Some(0)));
    axes_collection.add_item(Item::new(ItemTag::LogicalMaximum, Some(0xffff)));
    axes_collection.add_item(Item::new(ItemTag::ReportSize, Some(16)));
    axes_collection.add_item(Item::new(ItemTag::ReportCount, Some(4)));
    axes_collection.add_item(Item::new(ItemTag::Input, Some(value_field as u32)));

    collection_report.add_collection(axes_collection);

    let mut hat_collection = Collection::new(CollectionAttr::Physical);
    hat_collection.add_item(Item::new(ItemTag::UsagePage, Some(UsagePage::GenericDesktopCtrls.code() as u32)));
    hat_collection.add_item(Item::new(ItemTag::Usage, Some(Usage::HatSwitch.code() as u32)));
    hat_collection.add_item(Item::new(ItemTag::LogicalMinimum, Some(0)));
    hat_collection.add_item(Item::new(ItemTag::LogicalMaximum, Some(8)));
    hat_collection.add_item(Item::new(ItemTag::PhysicalMinimum, Some(0)));
    hat_collection.add_item(Item::new(ItemTag::PhysicalMaximum, Some(315)));
    hat_collection.add_item(Item::new(ItemTag::Unit, Some(Unit::EnglishRotationDegrees.code() as u32)));
    hat_collection.add_item(Item::new(ItemTag::ReportSize, Some(4)));
    hat_collection.add_item(Item::new(ItemTag::ReportCount, Some(1)));
    hat_collection.add_item(Item::new(ItemTag::Input, Some((VAR + ABS + NULL_STATE) as u32)));
    hat_collection.add_item(Item::new(ItemTag::ReportCount, Some(1)));
    hat_collection.add_item(Item::new(ItemTag::ReportSize, Some(4)));
    hat_collection.add_item(Item::new(ItemTag::Input, Some(padding_field as u32)));

    collection_report.add_collection(hat_collection);
    collection_app.add_collection(collection_report);
    hid_report.add_collection(collection_app);

    let hid = hex_string(hid_report.get_bytes());
    assert_eq!(hid, "05010905a101a103850105091901290c15002501950c75018102950175048103a10005010930093109320935150026ffff751095048102c0a10005010939150025083500463b016514750495018142950175048103c0c0c0");
}

#[test]
fn item_without_payload_is_its_tag_code() {
    assert_eq!(*Item::new(ItemTag::Input, None).get_bytes(), vec![0x80]);
    assert_eq!(*Item::new(ItemTag::Collection, None).get_bytes(), vec![0xA0]);
    assert_eq!(*Item::new(ItemTag::ReportCount, None).get_bytes(), vec![0x94]);
}

#[test]
fn item_zero_payload_takes_one_byte() {
    assert_eq!(*Item::new(ItemTag::LogicalMinimum, Some(0)).get_bytes(), vec![0x15, 0x00]);
}

#[test]
fn item_payload_width_boundaries() {
    assert_eq!(*Item::new(ItemTag::ReportCount, Some(255)).get_bytes(), vec![0x95, 0xFF]);
    assert_eq!(*Item::new(ItemTag::ReportCount, Some(256)).get_bytes(), vec![0x96, 0x00, 0x01]);
    assert_eq!(*Item::new(ItemTag::ReportCount, Some(65535)).get_bytes(), vec![0x96, 0xFF, 0xFF]);
    assert_eq!(
        *Item::new(ItemTag::ReportCount, Some(65536)).get_bytes(),
        vec![0x97, 0x00, 0x00, 0x01, 0x00]
    );
    assert_eq!(
        *Item::new(ItemTag::UsageMaximum, Some(0x12345678)).get_bytes(),
        vec![0x2B, 0x78, 0x56, 0x34, 0x12]
    );
    assert_eq!(
        *Item::new(ItemTag::UsageMaximum, Some(u32::MAX)).get_bytes(),
        vec![0x2B, 0xFF, 0xFF, 0xFF, 0xFF]
    );
}

#[test]
fn item_payload_decodes_back() {
    for v in [0u32, 1, 200, 255, 256, 315, 32767, 65535, 65536, 100000, u32::MAX] {
        let item = Item::new(ItemTag::PhysicalMaximum, Some(v));
        let bytes = item.get_bytes();
        let size = bytes[0] % 4;
        let width = if size == 3 { 4 } else { size as usize };
        assert_eq!(bytes[0] - size, 0x44);
        assert_eq!(bytes.len(), 1 + width);
        let mut value: u64 = 0;
        for (i, b) in bytes[1..].iter().enumerate() {
            value += (*b as u64) << (8 * i);
        }
        assert_eq!(value, v as u64);
    }
}

#[test]
fn collection_opens_with_its_kind() {
    assert_eq!(*Collection::new(CollectionAttr::Application).get_bytes(), vec![0xA1, 0x01]);
    assert_eq!(*Collection::new(CollectionAttr::Physical).get_bytes(), vec![0xA1, 0x00]);
    assert_eq!(*Collection::new(CollectionAttr::Report).get_bytes(), vec![0xA1, 0x03]);
}

#[test]
fn finished_collection_ends_with_one_end_byte() {
    let mut c = Collection::new(CollectionAttr::Physical);
    c.add_item(Item::new(ItemTag::Usage, Some(0x30)));
    let bytes = c.finish_and_get_bytes();
    assert_eq!(bytes, vec![0xA1, 0x00, 0x09, 0x30, 0xC0]);
}

#[test]
fn nested_collections_close_once_each() {
    let mut outer = Collection::new(CollectionAttr::Application);
    let inner = Collection::new(CollectionAttr::Physical);
    outer.add_collection(inner);
    assert_eq!(*outer.get_bytes(), vec![0xA1, 0x01, 0xA1, 0x00, 0xC0]);
    let mut report = HIDReport::new();
    report.add_collection(outer);
    assert_eq!(*report.get_bytes(), vec![0xA1, 0x01, 0xA1, 0x00, 0xC0, 0xC0]);
    assert_eq!(report.get_bytes().iter().filter(|b| **b == 0xC0).count(), 2);
}

#[test]
fn empty_report_has_no_bytes() {
    assert!(HIDReport::new().get_bytes().is_empty());
}

#[test]
fn hex_string_is_lowercase_two_digits_per_byte() {
    assert_eq!(hex_string(&vec![0x00, 0xAB, 0x0F, 0x9C]), "00ab0f9c");
    assert_eq!(hex_string(&vec![]), "");
}
