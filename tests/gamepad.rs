use hid_descriptor::gamepad::{AbsAxis, HidAxis, HidGamepad};

fn contains(haystack: &[u8], needle: &[u8]) -> bool {
    haystack.windows(needle.len()).any(|w| w == needle)
}

fn four_axis_pad(hat: bool) -> HidGamepad {
    let axes = vec![
        HidAxis::new(AbsAxis::X, 65535, 0),
        HidAxis::new(AbsAxis::Y, 65535, 0),
        HidAxis::new(AbsAxis::Z, 65535, 0),
        HidAxis::new(AbsAxis::Rz, 65535, 0),
    ];
    HidGamepad::new(12, axes, hat)
}

#[test]
fn gamepad_report_with_hat() {
    assert_eq!(
        four_axis_pad(true).generate_report(),
        "05010905a101a103850105091901290c15002501950c75018102950175048103a10005010930150026ffff7510950181020931150026ffff7510950181020932150026ffff7510950181020935150026ffff751095018102c0a10005010939150025083500463b016514750495018142950175048103c0c0c0"
    );
}

#[test]
fn gamepad_twelve_buttons_get_padding() {
    let bytes = four_axis_pad(false).descriptor_bytes();
    assert!(contains(&bytes, &[0x81, 0x02, 0x95, 0x01, 0x75, 0x04, 0x81, 0x03, 0xA1, 0x00]));
}

#[test]
fn gamepad_eight_buttons_need_no_padding() {
    let pad = HidGamepad::new(8, vec![HidAxis::new(AbsAxis::X, 255, 0)], false);
    assert_eq!(
        pad.generate_report(),
        "05010905a101a103850105091901290815002501950875018102a10005010930150025ff750895018102c0c0c0"
    );
}

#[test]
fn gamepad_wide_axis_uses_four_byte_range_and_32_bits() {
    let pad = HidGamepad::new(16, vec![HidAxis::new(AbsAxis::Rx, 100000, 10)], false);
    assert_eq!(
        pad.generate_report(),
        "05010905a101a103850105091901291015002501951075018102a10005010933150a27a0860100752095018102c0c0c0"
    );
}

#[test]
fn gamepad_axis_report_sizes() {
    for (max, size) in [(0u32, 8u8), (255, 8), (256, 16), (65535, 16), (65536, 32)] {
        let pad = HidGamepad::new(8, vec![HidAxis::new(AbsAxis::Ry, max, 0)], false);
        let bytes = pad.descriptor_bytes();
        assert!(contains(&bytes, &[0x75, size, 0x95, 0x01, 0x81, 0x02]));
    }
}

#[test]
fn gamepad_without_axes_or_buttons() {
    let pad = HidGamepad::new(0, vec![], false);
    assert_eq!(
        pad.generate_report(),
        "05010905a101a103850105091901290015002501950075018102a1000501c0c0c0"
    );
}

#[test]
fn gamepad_report_is_repeatable() {
    let pad = four_axis_pad(true);
    assert_eq!(pad.generate_report(), pad.generate_report());
    assert_eq!(pad.descriptor_bytes(), four_axis_pad(true).descriptor_bytes());
}
