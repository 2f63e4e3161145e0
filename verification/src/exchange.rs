//! Decides what the shell does for each hardware and platform command Core
//! sends during a contact exchange (BLE, NFC, audio, camera, files, direct
//! transfer). A transport that is missing is reported back to Core so the
//! exchange can fall back, and the user is told at most once per batch.

use vstd::prelude::*;
use vstd::string::*;

use crate::text::{owned, trim, trimmed};

verus! {

/// The platform commands, by kind. The shell keeps each command's payload
/// and reads it when it acts.
#[derive(Clone, Copy, Debug, PartialEq, Eq, Structural)]
pub enum PlatformRequest {
    QrDisplay,
    QrRequestScan,
    AudioEmitChallenge,
    AudioListenForResponse,
    AudioStop,
    BleStartScanning,
    BleStartAdvertising,
    BleConnect,
    BleWriteCharacteristic,
    BleReadCharacteristic,
    BleDisconnect,
    NfcActivate,
    NfcDeactivate,
    ImagePickFromFile,
    FilePickFromUser,
    ExportFile,
    PostNotification,
    ResetApplication,
    ImagePickFromLibrary,
    ImageCaptureFromCamera,
    DirectSend,
    DirectSendCard,
    SetScreenBrightness,
    SetIdleTimerDisabled,
    ShowShareSheet,
    SwitchCamera,
    SetOrientationLock,
    LocationRequest,
    Other,
}

/// Which devices this machine has.
#[derive(Clone, Copy, Debug)]
pub struct Hardware {
    pub audio: bool,
    pub bluetooth: bool,
    pub nfc: bool,
    pub camera: bool,
}

/// Which transports this build was compiled with.
#[derive(Clone, Copy, Debug)]
pub struct BuildFeatures {
    pub audio: bool,
    pub ble: bool,
    pub nfc: bool,
    pub camera: bool,
}

/// What the user is told at most once per batch, and what Core is told at
/// most once per batch for a capability the desktop lacks.
#[derive(Clone, Copy, Debug, PartialEq, Eq, Structural)]
pub enum Notice {
    Audio,
    Ble,
    Nfc,
    ScreenBrightness,
    IdleTimer,
    ShareSheet,
    CameraSwitch,
    OrientationLock,
    Location,
}

/// A transport whose absence is both shown to the user and reported to
/// Core.
#[derive(Clone, Copy, Debug, PartialEq, Eq, Structural)]
pub enum MissingHardware {
    Audio,
    BluetoothLe,
    Nfc,
}

/// A transport this build was compiled without.
#[derive(Clone, Copy, Debug, PartialEq, Eq, Structural)]
pub enum MissingFeature {
    Audio,
    Ble,
    Nfc,
}

/// A capability the desktop lacks, reported to Core without a toast.
#[derive(Clone, Copy, Debug, PartialEq, Eq, Structural)]
pub enum Unsupported {
    PhotoLibrary,
    Camera,
    ScreenBrightness,
    IdleTimer,
    ShareSheet,
    CameraSwitch,
    OrientationLock,
    Location,
}

/// What the shell does for one platform command.
#[derive(Clone, Copy, Debug, PartialEq, Eq, Structural)]
pub enum PlatformAction {
    Nothing,
    ScanQrWithCamera,
    ShowQrPasteDialog,
    EmitAudioChallenge,
    ListenForAudioResponse,
    StopAudio,
    StartBleScanning,
    StartBleAdvertising,
    ConnectBle,
    WriteBleCharacteristic,
    ReadBleCharacteristic,
    DisconnectBle,
    ActivateNfc,
    /// Toast that the build lacks the transport.
    ToastBuiltWithout(MissingFeature),
    /// Toast that the hardware is missing, and report it to Core.
    ReportHardwareUnavailable(MissingHardware),
    /// Report to Core that the desktop lacks the capability.
    ReportUnsupported(Unsupported),
    OpenImagePicker,
    OpenFilePicker,
    OpenExport,
    PostNotification,
    /// Run the direct transfer; `card_leg` is the second, card-swapping leg.
    DirectSend { card_leg: bool },
}

/// What one command asks for, given what has already been noticed in this
/// batch; the notice it spends, if any.
pub open spec fn action_spec(
    request: PlatformRequest,
    hardware: Hardware,
    build: BuildFeatures,
    noticed: Set<Notice>,
) -> (PlatformAction, Option<Notice>) {
    let once = |n: Notice, a: PlatformAction|
        if noticed.contains(n) {
            (PlatformAction::Nothing, None::<Notice>)
        } else {
            (a, Some(n))
        };
    match request {
        PlatformRequest::QrRequestScan => if build.camera && hardware.camera {
            (PlatformAction::ScanQrWithCamera, None)
        } else {
            (PlatformAction::ShowQrPasteDialog, None)
        },
        PlatformRequest::AudioEmitChallenge => if !hardware.audio {
            once(Notice::Audio, PlatformAction::ReportHardwareUnavailable(MissingHardware::Audio))
        } else if build.audio {
            (PlatformAction::EmitAudioChallenge, None)
        } else {
            once(Notice::Audio, PlatformAction::ToastBuiltWithout(MissingFeature::Audio))
        },
        PlatformRequest::AudioListenForResponse => if !hardware.audio {
            once(Notice::Audio, PlatformAction::ReportHardwareUnavailable(MissingHardware::Audio))
        } else if build.audio {
            (PlatformAction::ListenForAudioResponse, None)
        } else {
            once(Notice::Audio, PlatformAction::ToastBuiltWithout(MissingFeature::Audio))
        },
        PlatformRequest::AudioStop => if build.audio {
            (PlatformAction::StopAudio, None)
        } else {
            (PlatformAction::Nothing, None)
        },
        PlatformRequest::BleStartScanning => if !hardware.bluetooth {
            once(Notice::Ble, PlatformAction::ReportHardwareUnavailable(MissingHardware::BluetoothLe))
        } else if build.ble {
            (PlatformAction::StartBleScanning, None)
        } else {
            once(Notice::Ble, PlatformAction::ToastBuiltWithout(MissingFeature::Ble))
        },
        PlatformRequest::BleStartAdvertising => if !hardware.bluetooth {
            once(Notice::Ble, PlatformAction::ReportHardwareUnavailable(MissingHardware::BluetoothLe))
        } else if build.ble {
            (PlatformAction::StartBleAdvertising, None)
        } else {
            (PlatformAction::Nothing, None)
        },
        PlatformRequest::BleConnect => if build.ble {
            (PlatformAction::ConnectBle, None)
        } else {
            (PlatformAction::Nothing, None)
        },
        PlatformRequest::BleWriteCharacteristic => if build.ble {
            (PlatformAction::WriteBleCharacteristic, None)
        } else {
            (PlatformAction::Nothing, None)
        },
        PlatformRequest::BleReadCharacteristic => if build.ble {
            (PlatformAction::ReadBleCharacteristic, None)
        } else {
            (PlatformAction::Nothing, None)
        },
        PlatformRequest::BleDisconnect => if build.ble {
            (PlatformAction::DisconnectBle, None)
        } else {
            (PlatformAction::Nothing, None)
        },
        PlatformRequest::NfcActivate => if !hardware.nfc {
            once(Notice::Nfc, PlatformAction::ReportHardwareUnavailable(MissingHardware::Nfc))
        } else if build.nfc {
            (PlatformAction::ActivateNfc, None)
        } else {
            once(Notice::Nfc, PlatformAction::ToastBuiltWithout(MissingFeature::Nfc))
        },
        PlatformRequest::ImagePickFromFile => (PlatformAction::OpenImagePicker, None),
        PlatformRequest::FilePickFromUser => (PlatformAction::OpenFilePicker, None),
        PlatformRequest::ExportFile => (PlatformAction::OpenExport, None),
        PlatformRequest::PostNotification => (PlatformAction::PostNotification, None),
        PlatformRequest::ImagePickFromLibrary => (
            PlatformAction::ReportUnsupported(Unsupported::PhotoLibrary),
            None,
        ),
        PlatformRequest::ImageCaptureFromCamera => (
            PlatformAction::ReportUnsupported(Unsupported::Camera),
            None,
        ),
        PlatformRequest::DirectSend => (PlatformAction::DirectSend { card_leg: false }, None),
        PlatformRequest::DirectSendCard => (PlatformAction::DirectSend { card_leg: true }, None),
        PlatformRequest::SetScreenBrightness => once(
            Notice::ScreenBrightness,
            PlatformAction::ReportUnsupported(Unsupported::ScreenBrightness),
        ),
        PlatformRequest::SetIdleTimerDisabled => once(
            Notice::IdleTimer,
            PlatformAction::ReportUnsupported(Unsupported::IdleTimer),
        ),
        PlatformRequest::ShowShareSheet => once(
            Notice::ShareSheet,
            PlatformAction::ReportUnsupported(Unsupported::ShareSheet),
        ),
        PlatformRequest::SwitchCamera => once(
            Notice::CameraSwitch,
            PlatformAction::ReportUnsupported(Unsupported::CameraSwitch),
        ),
        PlatformRequest::SetOrientationLock => once(
            Notice::OrientationLock,
            PlatformAction::ReportUnsupported(Unsupported::OrientationLock),
        ),
        PlatformRequest::LocationRequest => once(
            Notice::Location,
            PlatformAction::ReportUnsupported(Unsupported::Location),
        ),
        _ => (PlatformAction::Nothing, None),
    }
}

/// The actions for the first `n` requests of a batch, and the notices spent.
pub open spec fn plan_exchange_prefix(
    requests: Seq<PlatformRequest>,
    hardware: Hardware,
    build: BuildFeatures,
    n: nat,
) -> (Seq<PlatformAction>, Set<Notice>)
    decreases n,
{
    if n == 0 {
        (seq![], Set::empty())
    } else {
        let (actions, noticed) = plan_exchange_prefix(requests, hardware, build, (n - 1) as nat);
        let (action, notice) = action_spec(requests[n - 1], hardware, build, noticed);
        (
            actions.push(action),
            match notice {
                Some(k) => noticed.insert(k),
                None => noticed,
            },
        )
    }
}

/// The actions for a whole batch, one per request, in order.
pub open spec fn plan_exchange_spec(
    requests: Seq<PlatformRequest>,
    hardware: Hardware,
    build: BuildFeatures,
) -> Seq<PlatformAction> {
    plan_exchange_prefix(requests, hardware, build, requests.len()).0
}

fn noticed_contains(noticed: &Vec<Notice>, n: Notice) -> (r: bool)
    ensures
        r == noticed@.contains(n),
{
    let mut i: usize = 0;
    while i < noticed.len()
        invariant
            i <= noticed@.len(),
            forall|j: int| 0 <= j < i ==> noticed@[j] != n,
        decreases noticed@.len() - i,
    {
        if noticed[i] == n {
            return true;
        }
        i = i + 1;
    }
    false
}

fn once(noticed: &Vec<Notice>, n: Notice, a: PlatformAction) -> (r: (PlatformAction, Option<Notice>))
    ensures
        r == (if noticed@.to_set().contains(n) {
            (PlatformAction::Nothing, None::<Notice>)
        } else {
            (a, Some(n))
        }),
{
    proof {
        assert(noticed@.contains(n) == noticed@.to_set().contains(n));
    }
    if noticed_contains(noticed, n) {
        (PlatformAction::Nothing, None)
    } else {
        (a, Some(n))
    }
}

/// What one command asks for, given the notices already spent.
pub fn action_for(
    request: PlatformRequest,
    hardware: Hardware,
    build: BuildFeatures,
    noticed: &Vec<Notice>,
) -> (r: (PlatformAction, Option<Notice>))
    ensures
        r == action_spec(request, hardware, build, noticed@.to_set()),
{
    match request {
        PlatformRequest::QrRequestScan => if build.camera && hardware.camera {
            (PlatformAction::ScanQrWithCamera, None)
        } else {
            (PlatformAction::ShowQrPasteDialog, None)
        },
        PlatformRequest::AudioEmitChallenge => if !hardware.audio {
            once(noticed, Notice::Audio, PlatformAction::ReportHardwareUnavailable(MissingHardware::Audio))
        } else if build.audio {
            (PlatformAction::EmitAudioChallenge, None)
        } else {
            once(noticed, Notice::Audio, PlatformAction::ToastBuiltWithout(MissingFeature::Audio))
        },
        PlatformRequest::AudioListenForResponse => if !hardware.audio {
            once(noticed, Notice::Audio, PlatformAction::ReportHardwareUnavailable(MissingHardware::Audio))
        } else if build.audio {
            (PlatformAction::ListenForAudioResponse, None)
        } else {
            once(noticed, Notice::Audio, PlatformAction::ToastBuiltWithout(MissingFeature::Audio))
        },
        PlatformRequest::AudioStop => if build.audio {
            (PlatformAction::StopAudio, None)
        } else {
            (PlatformAction::Nothing, None)
        },
        PlatformRequest::BleStartScanning => if !hardware.bluetooth {
            once(
                noticed,
                Notice::Ble,
                PlatformAction::ReportHardwareUnavailable(MissingHardware::BluetoothLe),
            )
        } else if build.ble {
            (PlatformAction::StartBleScanning, None)
        } else {
            once(noticed, Notice::Ble, PlatformAction::ToastBuiltWithout(MissingFeature::Ble))
        },
        PlatformRequest::BleStartAdvertising => if !hardware.bluetooth {
            once(
                noticed,
                Notice::Ble,
                PlatformAction::ReportHardwareUnavailable(MissingHardware::BluetoothLe),
            )
        } else if build.ble {
            (PlatformAction::StartBleAdvertising, None)
        } else {
            (PlatformAction::Nothing, None)
        },
        PlatformRequest::BleConnect => if build.ble {
            (PlatformAction::ConnectBle, None)
        } else {
            (PlatformAction::Nothing, None)
        },
        PlatformRequest::BleWriteCharacteristic => if build.ble {
            (PlatformAction::WriteBleCharacteristic, None)
        } else {
            (PlatformAction::Nothing, None)
        },
        PlatformRequest::BleReadCharacteristic => if build.ble {
            (PlatformAction::ReadBleCharacteristic, None)
        } else {
            (PlatformAction::Nothing, None)
        },
        PlatformRequest::BleDisconnect => if build.ble {
            (PlatformAction::DisconnectBle, None)
        } else {
            (PlatformAction::Nothing, None)
        },
        PlatformRequest::NfcActivate => if !hardware.nfc {
            once(noticed, Notice::Nfc, PlatformAction::ReportHardwareUnavailable(MissingHardware::Nfc))
        } else if build.nfc {
            (PlatformAction::ActivateNfc, None)
        } else {
            once(noticed, Notice::Nfc, PlatformAction::ToastBuiltWithout(MissingFeature::Nfc))
        },
        PlatformRequest::ImagePickFromFile => (PlatformAction::OpenImagePicker, None),
        PlatformRequest::FilePickFromUser => (PlatformAction::OpenFilePicker, None),
        PlatformRequest::ExportFile => (PlatformAction::OpenExport, None),
        PlatformRequest::PostNotification => (PlatformAction::PostNotification, None),
        PlatformRequest::ImagePickFromLibrary => (
            PlatformAction::ReportUnsupported(Unsupported::PhotoLibrary),
            None,
        ),
        PlatformRequest::ImageCaptureFromCamera => (
            PlatformAction::ReportUnsupported(Unsupported::Camera),
            None,
        ),
        PlatformRequest::DirectSend => (PlatformAction::DirectSend { card_leg: false }, None),
        PlatformRequest::DirectSendCard => (PlatformAction::DirectSend { card_leg: true }, None),
        PlatformRequest::SetScreenBrightness => once(
            noticed,
            Notice::ScreenBrightness,
            PlatformAction::ReportUnsupported(Unsupported::ScreenBrightness),
        ),
        PlatformRequest::SetIdleTimerDisabled => once(
            noticed,
            Notice::IdleTimer,
            PlatformAction::ReportUnsupported(Unsupported::IdleTimer),
        ),
        PlatformRequest::ShowShareSheet => once(
            noticed,
            Notice::ShareSheet,
            PlatformAction::ReportUnsupported(Unsupported::ShareSheet),
        ),
        PlatformRequest::SwitchCamera => once(
            noticed,
            Notice::CameraSwitch,
            PlatformAction::ReportUnsupported(Unsupported::CameraSwitch),
        ),
        PlatformRequest::SetOrientationLock => once(
            noticed,
            Notice::OrientationLock,
            PlatformAction::ReportUnsupported(Unsupported::OrientationLock),
        ),
        PlatformRequest::LocationRequest => once(
            noticed,
            Notice::Location,
            PlatformAction::ReportUnsupported(Unsupported::Location),
        ),
        _ => (PlatformAction::Nothing, None),
    }
}

/// The actions for one batch of platform commands, one per command, in
/// order.
pub fn plan_exchange(requests: &Vec<PlatformRequest>, hardware: Hardware, build: BuildFeatures) -> (actions: Vec<PlatformAction>)
    ensures
        actions@ == plan_exchange_spec(requests@, hardware, build),
{
    let mut actions: Vec<PlatformAction> = Vec::new();
    let mut noticed: Vec<Notice> = Vec::new();
    let n = requests.len();
    let mut i: usize = 0;
    while i < n
        invariant
            n == requests@.len(),
            i <= n,
            (actions@, noticed@.to_set()) == plan_exchange_prefix(requests@, hardware, build, i as nat),
        decreases n - i,
    {
        let (action, notice) = action_for(requests[i], hardware, build, &noticed);
        actions.push(action);
        match notice {
            Some(k) => {
                let ghost prev = noticed@;
                noticed.push(k);
                proof {
                    assert(noticed@.to_set() =~= prev.to_set().insert(k)) by {
                        assert forall|x: Notice| #[trigger] noticed@.contains(x) <==> (prev.contains(x) || x == k) by {
                            if x == k {
                                assert(noticed@[prev.len() as int] == k);
                            }
                            if prev.contains(x) {
                                let j = choose|j: int| 0 <= j < prev.len() && prev[j] == x;
                                assert(noticed@[j] == x);
                            }
                        }
                    }
                }
            },
            None => {},
        }
        i = i + 1;
    }
    actions
}

/// The notice an action spends, if it tells the user or Core about a
/// missing capability that is told once per batch.
pub open spec fn notice_of(action: PlatformAction) -> Option<Notice> {
    match action {
        PlatformAction::ReportHardwareUnavailable(MissingHardware::Audio) => Some(Notice::Audio),
        PlatformAction::ReportHardwareUnavailable(MissingHardware::BluetoothLe) => Some(Notice::Ble),
        PlatformAction::ReportHardwareUnavailable(MissingHardware::Nfc) => Some(Notice::Nfc),
        PlatformAction::ToastBuiltWithout(MissingFeature::Audio) => Some(Notice::Audio),
        PlatformAction::ToastBuiltWithout(MissingFeature::Ble) => Some(Notice::Ble),
        PlatformAction::ToastBuiltWithout(MissingFeature::Nfc) => Some(Notice::Nfc),
        PlatformAction::ReportUnsupported(Unsupported::ScreenBrightness) => Some(Notice::ScreenBrightness),
        PlatformAction::ReportUnsupported(Unsupported::IdleTimer) => Some(Notice::IdleTimer),
        PlatformAction::ReportUnsupported(Unsupported::ShareSheet) => Some(Notice::ShareSheet),
        PlatformAction::ReportUnsupported(Unsupported::CameraSwitch) => Some(Notice::CameraSwitch),
        PlatformAction::ReportUnsupported(Unsupported::OrientationLock) => Some(Notice::OrientationLock),
        PlatformAction::ReportUnsupported(Unsupported::Location) => Some(Notice::Location),
        _ => None,
    }
}

proof fn lemma_action_spends_its_notice(
    request: PlatformRequest,
    hardware: Hardware,
    build: BuildFeatures,
    noticed: Set<Notice>,
)
    ensures
        action_spec(request, hardware, build, noticed).1 == notice_of(
            action_spec(request, hardware, build, noticed).0,
        ),
        notice_of(action_spec(request, hardware, build, noticed).0) matches Some(k)
            ==> !noticed.contains(k),
{
}

proof fn lemma_notices_once(
    requests: Seq<PlatformRequest>,
    hardware: Hardware,
    build: BuildFeatures,
    n: nat,
)
    requires
        n <= requests.len(),
    ensures
        ({
            let (actions, noticed) = plan_exchange_prefix(requests, hardware, build, n);
            &&& actions.len() == n
            &&& forall|k: Notice|
                noticed.contains(k) <==> exists|i: int|
                    0 <= i < n && #[trigger] notice_of(actions[i]) == Some(k)
            &&& forall|i: int, j: int|
                0 <= i < j < n && notice_of(actions[i]) is Some ==> notice_of(
                    #[trigger] actions[j],
                ) != notice_of(#[trigger] actions[i])
        }),
    decreases n,
{
    if n > 0 {
        lemma_notices_once(requests, hardware, build, (n - 1) as nat);
        let (prev, noticed) = plan_exchange_prefix(requests, hardware, build, (n - 1) as nat);
        lemma_action_spends_its_notice(requests[n - 1], hardware, build, noticed);
        let (actions, after) = plan_exchange_prefix(requests, hardware, build, n);
        assert(forall|i: int| 0 <= i < n - 1 ==> actions[i] == prev[i]);
        assert forall|k: Notice| after.contains(k) <==> exists|i: int|
            0 <= i < n && #[trigger] notice_of(actions[i]) == Some(k) by {
            if after.contains(k) && !noticed.contains(k) {
                assert(notice_of(actions[n - 1]) == Some(k));
            }
            if noticed.contains(k) {
                let i = choose|i: int| 0 <= i < n - 1 && #[trigger] notice_of(prev[i]) == Some(k);
                assert(notice_of(actions[i]) == Some(k));
            }
            if exists|i: int| 0 <= i < n && #[trigger] notice_of(actions[i]) == Some(k) {
                let i = choose|i: int| 0 <= i < n && #[trigger] notice_of(actions[i]) == Some(k);
                if i < n - 1 {
                    assert(notice_of(prev[i]) == Some(k));
                }
            }
        }
        assert forall|i: int, j: int|
            0 <= i < j < n && notice_of(actions[i]) is Some implies notice_of(
            #[trigger] actions[j],
        ) != notice_of(#[trigger] actions[i]) by {
            if j == n - 1 {
                assert(notice_of(prev[i]) == notice_of(actions[i]));
                assert(noticed.contains(notice_of(actions[i])->0));
            } else {
                assert(actions[j] == prev[j]);
                assert(actions[i] == prev[i]);
            }
        }
    }
}

/// One action answers each command, and each missing capability is told at
/// most once in a batch: no two actions spend the same notice.
pub proof fn law_missing_capability_told_once_per_batch(
    requests: Seq<PlatformRequest>,
    hardware: Hardware,
    build: BuildFeatures,
)
    ensures
        plan_exchange_spec(requests, hardware, build).len() == requests.len(),
        forall|i: int, j: int|
            0 <= i < j < requests.len() && notice_of(
                plan_exchange_spec(requests, hardware, build)[i],
            ) is Some ==> notice_of(#[trigger] plan_exchange_spec(requests, hardware, build)[j])
                != notice_of(#[trigger] plan_exchange_spec(requests, hardware, build)[i]),
{
    lemma_notices_once(requests, hardware, build, requests.len());
}

/// Whether a request needs the transport `t` to do its work.
pub open spec fn needs_transport(request: PlatformRequest, t: MissingHardware) -> bool {
    match t {
        MissingHardware::Audio => request == PlatformRequest::AudioEmitChallenge || request
            == PlatformRequest::AudioListenForResponse,
        MissingHardware::BluetoothLe => request == PlatformRequest::BleStartScanning || request
            == PlatformRequest::BleStartAdvertising,
        MissingHardware::Nfc => request == PlatformRequest::NfcActivate,
    }
}

/// Whether this machine lacks the device behind transport `t`.
pub open spec fn lacks_device(hardware: Hardware, t: MissingHardware) -> bool {
    match t {
        MissingHardware::Audio => !hardware.audio,
        MissingHardware::BluetoothLe => !hardware.bluetooth,
        MissingHardware::Nfc => !hardware.nfc,
    }
}

/// Whether some request before position `i` needs transport `t`.
pub open spec fn needed_before(requests: Seq<PlatformRequest>, t: MissingHardware, i: int) -> bool {
    exists|j: int| 0 <= j < i && #[trigger] needs_transport(requests[j], t)
}

proof fn lemma_missing_device_in_prefix(
    requests: Seq<PlatformRequest>,
    hardware: Hardware,
    build: BuildFeatures,
    t: MissingHardware,
    n: nat,
)
    requires
        lacks_device(hardware, t),
        n <= requests.len(),
    ensures
        plan_exchange_prefix(requests, hardware, build, n).0.len() == n,
        plan_exchange_prefix(requests, hardware, build, n).1.contains(
            notice_of(PlatformAction::ReportHardwareUnavailable(t))->0,
        ) <==> needed_before(requests, t, n as int),
        forall|i: int|
            0 <= i < n && needs_transport(requests[i], t) ==> #[trigger] plan_exchange_prefix(
                requests,
                hardware,
                build,
                n,
            ).0[i] == (if needed_before(requests, t, i) {
                PlatformAction::Nothing
            } else {
                PlatformAction::ReportHardwareUnavailable(t)
            }),
    decreases n,
{
    let k = notice_of(PlatformAction::ReportHardwareUnavailable(t))->0;
    if n > 0 {
        lemma_missing_device_in_prefix(requests, hardware, build, t, (n - 1) as nat);
        let (prev, noticed) = plan_exchange_prefix(requests, hardware, build, (n - 1) as nat);
        let (actions, after) = plan_exchange_prefix(requests, hardware, build, n);
        let r = requests[n - 1];
        let step = action_spec(r, hardware, build, noticed);
        assert(actions == prev.push(step.0));
        if needs_transport(r, t) {
            assert(needed_before(requests, t, n as int));
            assert(step.0 == (if noticed.contains(k) {
                PlatformAction::Nothing
            } else {
                PlatformAction::ReportHardwareUnavailable(t)
            }));
            assert(after.contains(k));
        } else {
            assert(step.1 != Some(k));
            assert(after.contains(k) == noticed.contains(k));
            if needed_before(requests, t, n as int) {
                let j = choose|j: int| 0 <= j < n && #[trigger] needs_transport(requests[j], t);
                assert(j < n - 1);
                assert(needed_before(requests, t, n - 1));
            }
        }
        assert forall|i: int|
            0 <= i < n && needs_transport(requests[i], t) implies #[trigger] actions[i] == (
            if needed_before(requests, t, i) {
                PlatformAction::Nothing
            } else {
                PlatformAction::ReportHardwareUnavailable(t)
            }) by {
            if i < n - 1 {
                assert(actions[i] == prev[i]);
            }
        }
    }
}

/// A request whose transport this machine lacks is never dropped in
/// silence: the first such request in a batch reports the missing device
/// (to the user and to Core), and later ones for the same transport do
/// nothing more.
pub proof fn law_missing_device_reported_first_time(
    requests: Seq<PlatformRequest>,
    hardware: Hardware,
    build: BuildFeatures,
    t: MissingHardware,
    i: int,
)
    requires
        lacks_device(hardware, t),
        0 <= i < requests.len(),
        needs_transport(requests[i], t),
    ensures
        plan_exchange_spec(requests, hardware, build)[i] == (if needed_before(requests, t, i) {
            PlatformAction::Nothing
        } else {
            PlatformAction::ReportHardwareUnavailable(t)
        }),
{
    lemma_missing_device_in_prefix(requests, hardware, build, t, requests.len());
}

impl MissingHardware {
    /// The transport's name as the user sees it and Core receives it.
    pub fn transport_name(self) -> (name: &'static str)
        ensures
            name@ == match self {
                MissingHardware::Audio => "Audio"@,
                MissingHardware::BluetoothLe => "Bluetooth LE"@,
                MissingHardware::Nfc => "NFC"@,
            },
    {
        match self {
            MissingHardware::Audio => "Audio",
            MissingHardware::BluetoothLe => "Bluetooth LE",
            MissingHardware::Nfc => "NFC",
        }
    }
}

impl MissingFeature {
    /// The message key of the toast saying the build lacks the transport.
    pub fn message_key(self) -> (key: &'static str)
        ensures
            key@ == match self {
                MissingFeature::Audio => "platform.audio_built_without_feature"@,
                MissingFeature::Ble => "platform.ble_built_without_feature"@,
                MissingFeature::Nfc => "platform.nfc_built_without_feature"@,
            },
    {
        match self {
            MissingFeature::Audio => "platform.audio_built_without_feature",
            MissingFeature::Ble => "platform.ble_built_without_feature",
            MissingFeature::Nfc => "platform.nfc_built_without_feature",
        }
    }
}

impl Unsupported {
    /// The capability's name as Core receives it.
    pub fn transport_name(self) -> (name: &'static str)
        ensures
            name@ == match self {
                Unsupported::PhotoLibrary => "photo_library"@,
                Unsupported::Camera => "camera"@,
                Unsupported::ScreenBrightness => "screen_brightness"@,
                Unsupported::IdleTimer => "idle_timer"@,
                Unsupported::ShareSheet => "share_sheet"@,
                Unsupported::CameraSwitch => "camera_switch"@,
                Unsupported::OrientationLock => "orientation_lock"@,
                Unsupported::Location => "location"@,
            },
    {
        match self {
            Unsupported::PhotoLibrary => "photo_library",
            Unsupported::Camera => "camera",
            Unsupported::ScreenBrightness => "screen_brightness",
            Unsupported::IdleTimer => "idle_timer",
            Unsupported::ShareSheet => "share_sheet",
            Unsupported::CameraSwitch => "camera_switch",
            Unsupported::OrientationLock => "orientation_lock",
            Unsupported::Location => "location",
        }
    }
}

/// The events the shell hands back to Core after platform work.
#[derive(Debug)]
#[allow(inconsistent_fields)]
pub enum PlatformEvent {
    QrScanned { data: String },
    DirectPayloadReceived { data: Vec<u8> },
    DirectCardReceived { ciphertext: Vec<u8> },
    HardwareError { transport: String, error: String },
    HardwareUnavailable { transport: String },
}

/// Core's answer that `transport` is missing here.
pub fn unavailable_event(transport: &str) -> (event: PlatformEvent)
    ensures
        event matches PlatformEvent::HardwareUnavailable { transport: t } && t@ == transport@,
{
    PlatformEvent::HardwareUnavailable { transport: owned(transport) }
}

/// What a finished direct (USB) transfer reports: the peer's card on the
/// card leg, the peer's payload on the first leg, or the transfer's error
/// against the USB transport.
pub fn direct_send_event(card_leg: bool, outcome: Result<Vec<u8>, String>) -> (event: PlatformEvent)
    ensures
        match outcome {
            Ok(bytes) => if card_leg {
                event matches PlatformEvent::DirectCardReceived { ciphertext } && ciphertext@ == bytes@
            } else {
                event matches PlatformEvent::DirectPayloadReceived { data } && data@ == bytes@
            },
            Err(message) => event matches PlatformEvent::HardwareError { transport, error }
                && transport@ == "USB"@ && error@ == message@,
        },
{
    match outcome {
        Ok(bytes) => if card_leg {
            PlatformEvent::DirectCardReceived { ciphertext: bytes }
        } else {
            PlatformEvent::DirectPayloadReceived { data: bytes }
        },
        Err(message) => {
            proof {
                reveal_strlit("USB");
            }
            PlatformEvent::HardwareError { transport: owned("USB"), error: message }
        },
    }
}

/// What confirming the QR paste dialog reports: nothing when the pasted
/// text is blank (the user is told there is no QR data), else the text as
/// pasted.
pub fn qr_paste_event(pasted: String) -> (event: Option<PlatformEvent>)
    ensures
        match event {
            None => trimmed(pasted@).len() == 0,
            Some(e) => trimmed(pasted@).len() != 0 && (e matches PlatformEvent::QrScanned { data }
                && data@ == pasted@),
        },
{
    let blank = trim(pasted.as_str()).unicode_len() == 0;
    if blank {
        None
    } else {
        Some(PlatformEvent::QrScanned { data: pasted })
    }
}

/// The message key of the QR paste dialog's body: the camera failed, or
/// there is none.
pub fn qr_paste_body_key(has_camera: bool) -> (key: &'static str)
    ensures
        key@ == if has_camera {
            "platform.qr_camera_not_available"@
        } else {
            "platform.qr_no_camera"@
        },
{
    if has_camera {
        "platform.qr_camera_not_available"
    } else {
        "platform.qr_no_camera"
    }
}

/// How urgent Core says a notification is.
#[derive(Clone, Copy, Debug, PartialEq, Eq, Structural)]
pub enum NotificationUrgency {
    Default,
    High,
    Urgent,
}

/// The desktop notification priorities.
#[derive(Clone, Copy, Debug, PartialEq, Eq, Structural)]
pub enum NotificationPriority {
    Normal,
    High,
    Urgent,
}

/// The desktop priority a notification of this urgency is posted with.
pub fn notification_priority(urgency: NotificationUrgency) -> (priority: NotificationPriority)
    ensures
        priority == match urgency {
            NotificationUrgency::Default => NotificationPriority::Normal,
            NotificationUrgency::High => NotificationPriority::High,
            NotificationUrgency::Urgent => NotificationPriority::Urgent,
        },
{
    match urgency {
        NotificationUrgency::Default => NotificationPriority::Normal,
        NotificationUrgency::High => NotificationPriority::High,
        NotificationUrgency::Urgent => NotificationPriority::Urgent,
    }
}

} // verus!
