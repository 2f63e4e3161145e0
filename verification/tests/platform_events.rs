use vauchi_gtk::exchange::{
    direct_send_event, notification_priority, qr_paste_body_key, qr_paste_event, unavailable_event,
    MissingFeature, MissingHardware, NotificationPriority, NotificationUrgency, PlatformEvent,
    Unsupported,
};

#[test]
fn missing_hardware_is_named_as_the_user_reads_it() {
    assert_eq!(MissingHardware::Audio.transport_name(), "Audio");
    assert_eq!(MissingHardware::BluetoothLe.transport_name(), "Bluetooth LE");
    assert_eq!(MissingHardware::Nfc.transport_name(), "NFC");
}

#[test]
fn missing_features_have_their_own_messages() {
    assert_eq!(MissingFeature::Audio.message_key(), "platform.audio_built_without_feature");
    assert_eq!(MissingFeature::Ble.message_key(), "platform.ble_built_without_feature");
    assert_eq!(MissingFeature::Nfc.message_key(), "platform.nfc_built_without_feature");
}

#[test]
fn unsupported_capabilities_are_named_for_core() {
    let names: Vec<&str> = [
        Unsupported::PhotoLibrary,
        Unsupported::Camera,
        Unsupported::ScreenBrightness,
        Unsupported::IdleTimer,
        Unsupported::ShareSheet,
        Unsupported::CameraSwitch,
        Unsupported::OrientationLock,
        Unsupported::Location,
    ]
    .iter()
    .map(|u| u.transport_name())
    .collect();
    assert_eq!(
        names,
        vec![
            "photo_library",
            "camera",
            "screen_brightness",
            "idle_timer",
            "share_sheet",
            "camera_switch",
            "orientation_lock",
            "location"
        ]
    );
}

#[test]
fn unavailable_event_carries_the_transport() {
    match unavailable_event("camera") {
        PlatformEvent::HardwareUnavailable { transport } => assert_eq!(transport, "camera"),
        other => panic!("unexpected {other:?}"),
    }
}

#[test]
fn card_leg_reports_the_peer_card() {
    match direct_send_event(true, Ok(vec![1, 2, 3])) {
        PlatformEvent::DirectCardReceived { ciphertext } => assert_eq!(ciphertext, vec![1, 2, 3]),
        other => panic!("unexpected {other:?}"),
    }
}

#[test]
fn first_leg_reports_the_peer_payload() {
    match direct_send_event(false, Ok(vec![9])) {
        PlatformEvent::DirectPayloadReceived { data } => assert_eq!(data, vec![9]),
        other => panic!("unexpected {other:?}"),
    }
}

#[test]
fn failed_transfer_is_a_usb_error() {
    match direct_send_event(true, Err("refused".to_string())) {
        PlatformEvent::HardwareError { transport, error } => {
            assert_eq!(transport, "USB");
            assert_eq!(error, "refused");
        }
        other => panic!("unexpected {other:?}"),
    }
}

#[test]
fn blank_paste_is_not_sent() {
    assert!(qr_paste_event(String::new()).is_none());
    assert!(qr_paste_event("  \t\n ".to_string()).is_none());
}

#[test]
fn pasted_qr_data_is_sent_as_pasted() {
    match qr_paste_event(" vauchi://abc ".to_string()) {
        Some(PlatformEvent::QrScanned { data }) => assert_eq!(data, " vauchi://abc "),
        other => panic!("unexpected {other:?}"),
    }
}

#[test]
fn paste_dialog_explains_why_it_appears() {
    assert_eq!(qr_paste_body_key(true), "platform.qr_camera_not_available");
    assert_eq!(qr_paste_body_key(false), "platform.qr_no_camera");
}

#[test]
fn notification_urgency_maps_to_desktop_priority() {
    assert_eq!(notification_priority(NotificationUrgency::Default), NotificationPriority::Normal);
    assert_eq!(notification_priority(NotificationUrgency::High), NotificationPriority::High);
    assert_eq!(notification_priority(NotificationUrgency::Urgent), NotificationPriority::Urgent);
}

#[test]
fn unicode_white_space_alone_is_blank() {
    assert!(qr_paste_event("\u{a0}\u{3000}\u{2028}".to_string()).is_none());
    assert!(qr_paste_event("\u{200b}".to_string()).is_some());
}
