//! What the parts of the program tell each other.

use vstd::prelude::*;
use crate::recognition::SongRecognizedMessage;

verus! {

/// An audio input device as the device list shows it.
pub struct DeviceListItem {
    /// The name by which the audio system knows the device.
    pub inner_name: String,
    /// The name shown to the user.
    pub display_name: String,
    /// The device records what another device plays.
    pub is_monitor: bool,
}

/// An application that plays audio.
pub struct AppListItem {
    /// The audio system's index of the application's stream.
    pub index: u32,
    pub display_name: String,
}

/// What the main window is told. The microphone's volume, a fraction, is
/// carried beside these by the program around the library.
pub enum GuiMessage {
    DevicesList(Vec<DeviceListItem>),
    MicrophoneRecording,
    NetworkStatus(bool),
    RateLimitState(bool),
    ErrorMessage(String),
    SongRecognized(SongRecognizedMessage),
    AppendToLog(String),
    ShowWindow,
    QuitApplication,
}

/// What the recording side is told.
pub enum MicrophoneMessage {
    MicrophoneRecordStart(String),
    MicrophoneRecordStop,
    ProcessingDone,
}

} // verus!
