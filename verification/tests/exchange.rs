use vauchi_gtk::exchange::{
    plan_exchange, BuildFeatures, Hardware, MissingFeature, MissingHardware, PlatformAction,
    PlatformRequest, Unsupported,
};

const NO_HARDWARE: Hardware = Hardware { audio: false, bluetooth: false, nfc: false, camera: false };
const ALL_HARDWARE: Hardware = Hardware { audio: true, bluetooth: true, nfc: true, camera: true };
const NO_FEATURES: BuildFeatures = BuildFeatures { audio: false, ble: false, nfc: false, camera: false };
const ALL_FEATURES: BuildFeatures = BuildFeatures { audio: true, ble: true, nfc: true, camera: true };

#[test]
fn missing_bluetooth_is_reported_once_per_batch() {
    let actions = plan_exchange(
        &vec![
            PlatformRequest::BleStartScanning,
            PlatformRequest::BleStartAdvertising,
            PlatformRequest::BleStartScanning,
        ],
        NO_HARDWARE,
        ALL_FEATURES,
    );
    assert_eq!(
        actions,
        vec![
            PlatformAction::ReportHardwareUnavailable(MissingHardware::BluetoothLe),
            PlatformAction::Nothing,
            PlatformAction::Nothing,
        ]
    );
}

#[test]
fn a_build_without_a_transport_says_so_once() {
    let actions = plan_exchange(
        &vec![
            PlatformRequest::AudioEmitChallenge,
            PlatformRequest::AudioListenForResponse,
            PlatformRequest::NfcActivate,
            PlatformRequest::BleStartScanning,
            PlatformRequest::BleStartAdvertising,
        ],
        ALL_HARDWARE,
        NO_FEATURES,
    );
    assert_eq!(
        actions,
        vec![
            PlatformAction::ToastBuiltWithout(MissingFeature::Audio),
            PlatformAction::Nothing,
            PlatformAction::ToastBuiltWithout(MissingFeature::Nfc),
            PlatformAction::ToastBuiltWithout(MissingFeature::Ble),
            PlatformAction::Nothing,
        ]
    );
}

#[test]
fn present_hardware_and_features_run_the_transports() {
    let actions = plan_exchange(
        &vec![
            PlatformRequest::AudioEmitChallenge,
            PlatformRequest::AudioListenForResponse,
            PlatformRequest::AudioStop,
            PlatformRequest::BleStartScanning,
            PlatformRequest::BleStartAdvertising,
            PlatformRequest::BleConnect,
            PlatformRequest::BleWriteCharacteristic,
            PlatformRequest::BleReadCharacteristic,
            PlatformRequest::BleDisconnect,
            PlatformRequest::NfcActivate,
            PlatformRequest::QrRequestScan,
        ],
        ALL_HARDWARE,
        ALL_FEATURES,
    );
    assert_eq!(
        actions,
        vec![
            PlatformAction::EmitAudioChallenge,
            PlatformAction::ListenForAudioResponse,
            PlatformAction::StopAudio,
            PlatformAction::StartBleScanning,
            PlatformAction::StartBleAdvertising,
            PlatformAction::ConnectBle,
            PlatformAction::WriteBleCharacteristic,
            PlatformAction::ReadBleCharacteristic,
            PlatformAction::DisconnectBle,
            PlatformAction::ActivateNfc,
            PlatformAction::ScanQrWithCamera,
        ]
    );
}

#[test]
fn without_a_camera_the_qr_scan_falls_back_to_pasting() {
    let with_feature_no_camera = Hardware { camera: false, ..ALL_HARDWARE };
    assert_eq!(
        plan_exchange(&vec![PlatformRequest::QrRequestScan], with_feature_no_camera, ALL_FEATURES),
        vec![PlatformAction::ShowQrPasteDialog]
    );
    assert_eq!(
        plan_exchange(&vec![PlatformRequest::QrRequestScan], ALL_HARDWARE, NO_FEATURES),
        vec![PlatformAction::ShowQrPasteDialog]
    );
}

#[test]
fn desktop_gaps_are_reported_to_core_once_each() {
    let actions = plan_exchange(
        &vec![
            PlatformRequest::SetScreenBrightness,
            PlatformRequest::SetScreenBrightness,
            PlatformRequest::SetIdleTimerDisabled,
            PlatformRequest::ShowShareSheet,
            PlatformRequest::SwitchCamera,
            PlatformRequest::SetOrientationLock,
            PlatformRequest::LocationRequest,
            PlatformRequest::LocationRequest,
            PlatformRequest::ImagePickFromLibrary,
            PlatformRequest::ImagePickFromLibrary,
            PlatformRequest::ImageCaptureFromCamera,
        ],
        ALL_HARDWARE,
        ALL_FEATURES,
    );
    assert_eq!(
        actions,
        vec![
            PlatformAction::ReportUnsupported(Unsupported::ScreenBrightness),
            PlatformAction::Nothing,
            PlatformAction::ReportUnsupported(Unsupported::IdleTimer),
            PlatformAction::ReportUnsupported(Unsupported::ShareSheet),
            PlatformAction::ReportUnsupported(Unsupported::CameraSwitch),
            PlatformAction::ReportUnsupported(Unsupported::OrientationLock),
            PlatformAction::ReportUnsupported(Unsupported::Location),
            PlatformAction::Nothing,
            PlatformAction::ReportUnsupported(Unsupported::PhotoLibrary),
            PlatformAction::ReportUnsupported(Unsupported::PhotoLibrary),
            PlatformAction::ReportUnsupported(Unsupported::Camera),
        ]
    );
}

#[test]
fn files_notifications_and_direct_transfers_are_always_handled() {
    let actions = plan_exchange(
        &vec![
            PlatformRequest::ImagePickFromFile,
            PlatformRequest::FilePickFromUser,
            PlatformRequest::ExportFile,
            PlatformRequest::PostNotification,
            PlatformRequest::DirectSend,
            PlatformRequest::DirectSendCard,
            PlatformRequest::QrDisplay,
            PlatformRequest::NfcDeactivate,
            PlatformRequest::ResetApplication,
            PlatformRequest::Other,
        ],
        NO_HARDWARE,
        NO_FEATURES,
    );
    assert_eq!(
        actions,
        vec![
            PlatformAction::OpenImagePicker,
            PlatformAction::OpenFilePicker,
            PlatformAction::OpenExport,
            PlatformAction::PostNotification,
            PlatformAction::DirectSend { card_leg: false },
            PlatformAction::DirectSend { card_leg: true },
            PlatformAction::Nothing,
            PlatformAction::Nothing,
            PlatformAction::Nothing,
            PlatformAction::Nothing,
        ]
    );
}

#[test]
fn without_the_ble_feature_connection_commands_do_nothing() {
    let actions = plan_exchange(
        &vec![
            PlatformRequest::BleConnect,
            PlatformRequest::BleWriteCharacteristic,
            PlatformRequest::BleReadCharacteristic,
            PlatformRequest::BleDisconnect,
            PlatformRequest::AudioStop,
        ],
        ALL_HARDWARE,
        NO_FEATURES,
    );
    assert!(actions.iter().all(|a| *a == PlatformAction::Nothing));
}
