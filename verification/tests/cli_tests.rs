use pcap_converter::cli::{build_display_filter, derive_session_id, detect_device_address};

#[test]
fn device_address_from_two_dot_pattern() {
    assert_eq!(detect_device_address("capture.16.pcapng"), Some(16));
    assert_eq!(detect_device_address("a.b.capture.3.pcapng"), Some(3));
}

#[test]
fn device_address_needs_two_dots() {
    assert_eq!(detect_device_address("capture.pcapng"), None);
    assert_eq!(detect_device_address("capture"), None);
}

#[test]
fn device_address_segment_must_be_a_byte() {
    assert_eq!(detect_device_address("capture.256.pcapng"), None);
    assert_eq!(detect_device_address("capture.dev.pcapng"), None);
    assert_eq!(detect_device_address("capture..pcapng"), None);
    assert_eq!(detect_device_address("capture.255.pcapng"), Some(255));
}

#[test]
fn session_id_cuts_the_extension() {
    assert_eq!(derive_session_id("capture.16.pcapng"), "capture.16");
    assert_eq!(derive_session_id("capture.pcapng"), "capture");
    assert_eq!(derive_session_id("capture"), "capture");
}

#[test]
fn display_filter_plain() {
    assert_eq!(build_display_filter(16, false), "usb.device_address == 16");
    assert_eq!(build_display_filter(0, false), "usb.device_address == 0");
    assert_eq!(build_display_filter(255, false), "usb.device_address == 255");
}

#[test]
fn display_filter_payload_only() {
    assert_eq!(
        build_display_filter(7, true),
        "usb.device_address == 7 && usb.capdata"
    );
}
