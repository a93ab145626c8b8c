use mikado::sys::avfoundation;
use mikado::{
    list_cameras, list_displays, list_microphones, list_speakers, request_permissions,
    CameraInfo, DeviceManager, DeviceObserver, MediaError, MicrophoneInfo, Permissions,
    SpeakerInfo,
};

struct Silent;

impl DeviceObserver for Silent {}

#[test]
fn device_manager_takes_observer() {
    let _manager = DeviceManager::new(Silent);
    let s = Silent;
    s.on_camera_connected(&CameraInfo::default());
    s.on_camera_disconnected(&CameraInfo::default());
    s.on_microphone_connected(&MicrophoneInfo::default());
    s.on_microphone_disconnected(&MicrophoneInfo::default());
    s.on_speaker_connected(&SpeakerInfo::default());
    s.on_speaker_disconnected(&SpeakerInfo::default());
}

#[test]
fn backend_lists_no_devices() {
    assert!(list_cameras().is_empty());
    assert!(list_microphones().is_empty());
    assert!(list_speakers().is_empty());
    assert!(list_displays().is_empty());
}

#[test]
fn permissions_are_granted() {
    assert!(request_permissions(Permissions::camera().union(Permissions::microphone())).is_ok());
    assert!(request_permissions(Permissions::empty()).is_ok());
}

#[test]
fn avfoundation_backend_stub() {
    assert!(avfoundation::init().is_ok());
    assert!(avfoundation::list_cameras().unwrap().is_empty());
}

#[test]
fn media_error_carries_message() {
    let e = MediaError::Internal("no window".to_string());
    match e.clone() {
        MediaError::Internal(msg) => assert_eq!(msg, "no window"),
    }
    assert_eq!(format!("{:?}", e), "Internal(\"no window\")");
    assert_eq!(e.message(), "internal error: no window");
}
