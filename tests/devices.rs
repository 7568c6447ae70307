use wacom_randr::devices::{
    has_transform_property, input_version_supported, is_wacom_device, wacom_device_ids, ApplyReport, DeviceOutcome, XcbInputDevice,
    XcbInputDevices,
};
use wacom_randr::error::{ProtocolErrorCode, XcbError};
use wacom_randr::text::{same_chars, starts_with_chars};

fn device(id: u16, name: &str) -> XcbInputDevice {
    XcbInputDevice { deviceid: id, _type: 3, attachment: 2, enabled: true, name: name.to_string() }
}

#[test]
fn wacom_pen_selected_virtual_pointer_not() {
    assert!(is_wacom_device("WacomTabletPen"));
    assert!(!is_wacom_device("VirtualCore Pointer"));
}

#[test]
fn wacom_prefix_edges() {
    assert!(is_wacom_device("Wacom"));
    assert!(is_wacom_device("Wacom Intuos Pro M Pen stylus"));
    assert!(!is_wacom_device("Waco"));
    assert!(!is_wacom_device(""));
    assert!(!is_wacom_device("wacom pen"));
    assert!(!is_wacom_device(" Wacom pen"));
}

#[test]
fn device_ids_in_listing_order() {
    let devices = XcbInputDevices {
        devices: vec![
            device(2, "Virtual core pointer"),
            device(9, "Wacom Intuos Pen stylus"),
            device(4, "Virtual core XTEST pointer"),
            device(10, "Wacom Intuos Pad pad"),
            device(11, "WacomTabletPen"),
        ],
    };
    assert_eq!(wacom_device_ids(&devices), vec![9, 10, 11]);
    assert!(wacom_device_ids(&XcbInputDevices { devices: Vec::new() }).is_empty());
}

#[test]
fn transform_property_detection() {
    let pen = vec![
        "Device Enabled".to_string(),
        "Coordinate Transformation Matrix".to_string(),
        "Wacom Tablet Area".to_string(),
    ];
    assert!(has_transform_property(&pen));
    let pad = vec!["Device Enabled".to_string(), "Wacom Tablet Area".to_string()];
    assert!(!has_transform_property(&pad));
    let near = vec!["Coordinate Transformation Matrix ".to_string(),
        "coordinate transformation matrix".to_string()];
    assert!(!has_transform_property(&near));
    assert!(!has_transform_property(&Vec::new()));
}

#[test]
fn report_collects_per_device_outcomes() {
    let mut r = ApplyReport::new();
    assert!(r.all_succeeded());
    r.record(9, DeviceOutcome::Updated);
    r.record(10, DeviceOutcome::NoTransformProperty);
    assert!(r.all_succeeded());
    let code = ProtocolErrorCode { error_code: 3, major_code: 131, minor_code: 57 };
    r.record(11, DeviceOutcome::Failed(XcbError::from(code)));
    r.record(12, DeviceOutcome::Updated);
    assert_eq!(r.updated, vec![9, 12]);
    assert_eq!(r.skipped, vec![10]);
    assert_eq!(r.failed.len(), 1);
    assert_eq!(r.failed[0].0, 11);
    assert!(matches!(r.failed[0].1, XcbError::ProtoError(c) if c == code));
    assert!(!r.all_succeeded());
}

#[test]
fn character_comparisons() {
    assert!(starts_with_chars("héllo", "hé"));
    assert!(!starts_with_chars("hé", "héllo"));
    assert!(starts_with_chars("abc", ""));
    assert!(same_chars("Coordinate", "Coordinate"));
    assert!(!same_chars("Coordinate", "Coordinates"));
    assert!(!same_chars("abc", "abd"));
}

#[test]
fn input_version_at_least_two_three() {
    assert!(input_version_supported(2, 3));
    assert!(input_version_supported(2, 4));
    assert!(input_version_supported(3, 0));
    assert!(!input_version_supported(2, 2));
    assert!(!input_version_supported(1, 9));
}
