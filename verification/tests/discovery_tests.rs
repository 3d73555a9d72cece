use open_steam_controller::discovery::{
    classify_device, contains_id, distinct_entries, controller_interfaces, count_compatible_devices_in, device_kind,
    product_ids, should_retry_as_feature_report, unsupported_devices_message, vendor_ids, DeviceClass,
    DeviceKind,
};

#[test]
fn supported_ids() {
    assert_eq!(vendor_ids(), vec![0x28de]);
    assert_eq!(product_ids(), vec![0x1302, 0x1303, 0x1304]);
    assert_eq!(device_kind(0x28de, 0x1303), Some(DeviceKind::SteamController));
    assert_eq!(device_kind(0x28de, 0x1142), None);
    assert_eq!(device_kind(0x045e, 0x1302), None);
    assert!(contains_id(&[1, 2, 3], 2));
    assert!(!contains_id(&[], 2));
}

#[test]
fn counting_compatible_interfaces() {
    let devices = vec![(0x28de, 0x1302), (0x28de, 0x1302), (0x045e, 0x0b12), (0x28de, 0x1304), (0x28de, 0x1000)];
    assert_eq!(count_compatible_devices_in(&devices), 3);
    assert_eq!(count_compatible_devices_in(&vec![]), 0);
}

#[test]
fn every_third_interface_is_a_controller() {
    let devices = vec![(0x28de, 0x1304); 7];
    assert_eq!(controller_interfaces(&devices), Some(vec![0, 3, 6]));
    let mixed = vec![(0x1, 0x2), (0x28de, 0x1302), (0x28de, 0x1302), (0x28de, 0x1302)];
    assert_eq!(controller_interfaces(&mixed), Some(vec![3]));
    assert_eq!(controller_interfaces(&vec![(0x1, 0x2)]), None);
    assert_eq!(controller_interfaces(&vec![]), None);
}

#[test]
fn classifying_interfaces() {
    let products = [0x1302u16, 0x1303];
    let vendors = [0x28deu16];
    assert_eq!(classify_device(&products, &vendors, 0x28de, 0x1302, None), DeviceClass::Candidate);
    assert_eq!(
        classify_device(&products, &vendors, 0x28de, 0x1205, Some("Valve Steam Controller 2")),
        DeviceClass::UnsupportedSteamController
    );
    assert_eq!(classify_device(&products, &vendors, 0x28de, 0x1205, Some("Steam Deck")), DeviceClass::Other);
    assert_eq!(classify_device(&products, &vendors, 0x28de, 0x1205, None), DeviceClass::Other);
    assert_eq!(classify_device(&products, &vendors, 0x1234, 0x1302, Some("Keyboard")), DeviceClass::Other);
}

#[test]
fn message_for_one_unsupported_controller() {
    let entries = vec![(0x28de, 0x1205, Some("Steam Controller X".to_string()))];
    assert_eq!(
        unsupported_devices_message(&entries),
        "Found the following Steam Controllers : [\n    vendorID: 0x28DE productID: 0x1205 name: Steam Controller X\n]\nHowever, either it is not supported or the product ID is not yet known."
    );
}

#[test]
fn message_for_two_unsupported_controllers() {
    let entries = vec![(0x28de, 0x00ab, None), (0x0001, 0xffff, Some("Steam Controller".to_string()))];
    assert_eq!(
        unsupported_devices_message(&entries),
        "Found the following Steam Controllers s: [\n    vendorID: 0x28DE productID: 0x00AB name: Unknown,\n    vendorID: 0x0001 productID: 0xFFFF name: Steam Controller\n]\nHowever, either they are not supported or the product ID is not yet known."
    );
}

#[test]
fn feature_report_retry_rule() {
    assert!(should_retry_as_feature_report("WriteFile: (0x00000001) Incorrect function."));
    assert!(should_retry_as_feature_report("Incorrect function"));
    assert!(should_retry_as_feature_report("code (0x00000001)"));
    assert!(!should_retry_as_feature_report("Access denied (0x00000005)"));
    assert!(!should_retry_as_feature_report(""));
}

#[test]
fn repeated_unsupported_entries_are_reported_once() {
    let entries = vec![
        (0x28de, 0x1205, Some("Steam Controller".to_string())),
        (0x28de, 0x1205, None),
        (0x28de, 0x1205, Some("Steam Controller".to_string())),
        (0x28de, 0x1206, Some("Steam Controller".to_string())),
        (0x28de, 0x1205, None),
    ];
    let distinct = distinct_entries(&entries);
    assert_eq!(
        distinct,
        vec![
            (0x28de, 0x1205, Some("Steam Controller".to_string())),
            (0x28de, 0x1205, None),
            (0x28de, 0x1206, Some("Steam Controller".to_string())),
        ]
    );
    assert!(distinct_entries(&vec![]).is_empty());
}
