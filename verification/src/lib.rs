pub mod colorcvt;
pub mod permissions;
pub mod sys;

pub use permissions::Permissions;

use vstd::prelude::*;
use vstd::string::StringExecFns;

verus! {

/// Errors of the media layer.
#[derive(Debug, Clone)]
pub enum MediaError {
    /// A failure inside a platform backend, with its description.
    Internal(String),
}

impl MediaError {
    /// The error's text: `internal error: ` followed by the description.
    pub fn message(&self) -> (text: String)
        ensures
            text@ == "internal error: "@ + match self {
                MediaError::Internal(description) => description@,
            },
    {
        let mut text = String::from_str("internal error: ");
        match self {
            MediaError::Internal(description) => text.append(description.as_str()),
        }
        text
    }
}

pub type Result<T> = core::result::Result<T, MediaError>;

/// Receives notice of media devices that come and go. Every method does
/// nothing unless the implementor overrides it.
pub trait DeviceObserver {
    fn on_camera_connected(&self, info: &CameraInfo) {
    }

    fn on_camera_disconnected(&self, info: &CameraInfo) {
    }

    fn on_microphone_connected(&self, info: &MicrophoneInfo) {
    }

    fn on_microphone_disconnected(&self, info: &MicrophoneInfo) {
    }

    fn on_speaker_connected(&self, info: &SpeakerInfo) {
    }

    fn on_speaker_disconnected(&self, info: &SpeakerInfo) {
    }
}

/// Tracks media devices on behalf of an observer.
pub struct DeviceManager<O: DeviceObserver> {
    observer: O,
}

impl<O: DeviceObserver> DeviceManager<O> {
    /// The observer that the manager reports to.
    pub closed spec fn observer(&self) -> O {
        self.observer
    }

    /// A manager that reports to `observer`.
    pub fn new(observer: O) -> (m: Self)
        ensures
            m.observer() == observer,
    {
        Self { observer }
    }
}

/// A camera.
#[derive(Default, Debug, Clone)]
pub struct CameraInfo {}

/// A microphone.
#[derive(Default, Debug, Clone)]
pub struct MicrophoneInfo {}

/// A speaker.
#[derive(Default, Debug, Clone)]
pub struct SpeakerInfo {}

/// A display.
#[derive(Default, Debug, Clone)]
pub struct DisplayInfo {}

/// Asks the platform for `perms`. The backend grants without asking, so
/// this always succeeds.
pub fn request_permissions(perms: Permissions) -> (r: Result<()>)
    ensures
        r is Ok,
{
    Ok(())
}

/// The cameras the platform backend reports (none, where it fails; the
/// backend never fails).
pub fn list_cameras() -> (cameras: Vec<CameraInfo>)
    ensures
        cameras@ == sys::avfoundation::reported_cameras(),
{
    match sys::avfoundation::list_cameras() {
        Ok(cameras) => cameras,
        Err(_) => Vec::new(),
    }
}

/// The microphones the platform backend reports: none yet.
pub fn list_microphones() -> (microphones: Vec<MicrophoneInfo>)
    ensures
        microphones@.len() == 0,
{
    Vec::new()
}

/// The speakers the platform backend reports: none yet.
pub fn list_speakers() -> (speakers: Vec<SpeakerInfo>)
    ensures
        speakers@.len() == 0,
{
    Vec::new()
}

/// The displays the platform backend reports: none yet.
pub fn list_displays() -> (displays: Vec<DisplayInfo>)
    ensures
        displays@.len() == 0,
{
    Vec::new()
}

} // verus!
