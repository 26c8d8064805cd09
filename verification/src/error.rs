//! The failures the pipeline reports.

use crate::text::{glue, glue3, decimal, decimal_string};
use vstd::prelude::*;
use vstd::string::*;

verus! {

/// Everything that can go wrong between a key press and a transcript.
#[derive(Debug, Clone, PartialEq, Eq)]
pub enum PipelineError {
    /// No input device could be opened, configured or started.
    DeviceUnavailable { detail: String },
    /// The device's preferred sample encoding is neither 32-bit float nor
    /// 16-bit integer.
    UnsupportedFormat { detail: String },
    /// A capture session is already active.
    AlreadyRecording,
    /// No capture session is active.
    NotRecording,
    /// The session ended without a single sample.
    NoAudioCaptured,
    /// The session store holds nothing under the given identifier.
    SessionNotFound,
    /// The stored session has no samples.
    EmptyAudio,
    /// The catalog has no model of this identifier.
    UnknownModel { model_id: String },
    /// Required files of the model are missing on disk.
    ModelNotDownloaded { model_id: String },
    /// The engine for a model could not be constructed.
    EngineLoadFailed { detail: String },
    /// The engine ran and failed, or could not be run.
    InferenceFailed { detail: String },
    /// A remote engine answered with a non-success status.
    RemoteApiError { status: u16, message: String },
    /// The text given for a new key binding is no key binding.
    InvalidHotkeySpec { spec: String, detail: String },
}

impl PipelineError {
    /// True of the failures that `start` attributes to the audio device.
    pub open spec fn is_device_error(self) -> bool {
        self is DeviceUnavailable || self is UnsupportedFormat
    }

    /// The description shown to the user.
    pub open spec fn description(self) -> Seq<char> {
        match self {
            PipelineError::DeviceUnavailable { detail } => detail@,
            PipelineError::UnsupportedFormat { detail } => detail@,
            PipelineError::AlreadyRecording => "Recording already in progress"@,
            PipelineError::NotRecording => "No active recording"@,
            PipelineError::NoAudioCaptured => "No audio data captured"@,
            PipelineError::SessionNotFound => "Session not found"@,
            PipelineError::EmptyAudio => "No audio data in session"@,
            PipelineError::UnknownModel { model_id } => "Unknown model: "@ + model_id@,
            PipelineError::ModelNotDownloaded { model_id } => "Model '"@ + model_id@
                + "' is not downloaded"@,
            PipelineError::EngineLoadFailed { detail } => detail@,
            PipelineError::InferenceFailed { detail } => detail@,
            PipelineError::RemoteApiError { status, message } => "API error "@ + decimal(
                status as nat,
            ) + ": "@ + message@,
            PipelineError::InvalidHotkeySpec { spec, detail } => "Invalid hotkey '"@ + spec@
                + "': "@ + detail@,
        }
    }

    /// Describes the failure in words.
    pub fn message(&self) -> (text: String)
        ensures
            text@ == self.description(),
    {
        match self {
            PipelineError::DeviceUnavailable { detail } => detail.clone(),
            PipelineError::UnsupportedFormat { detail } => detail.clone(),
            PipelineError::AlreadyRecording => String::from_str("Recording already in progress"),
            PipelineError::NotRecording => String::from_str("No active recording"),
            PipelineError::NoAudioCaptured => String::from_str("No audio data captured"),
            PipelineError::SessionNotFound => String::from_str("Session not found"),
            PipelineError::EmptyAudio => String::from_str("No audio data in session"),
            PipelineError::UnknownModel { model_id } => glue("Unknown model: ", model_id.as_str()),
            PipelineError::ModelNotDownloaded { model_id } => glue3(
                "Model '",
                model_id.as_str(),
                "' is not downloaded",
            ),
            PipelineError::EngineLoadFailed { detail } => detail.clone(),
            PipelineError::InferenceFailed { detail } => detail.clone(),
            PipelineError::RemoteApiError { status, message } => {
                let number = decimal_string(*status as u64);
                let mut text = glue3("API error ", number.as_str(), ": ");
                text.append(message.as_str());
                text
            },
            PipelineError::InvalidHotkeySpec { spec, detail } => {
                let mut text = glue3("Invalid hotkey '", spec.as_str(), "': ");
                text.append(detail.as_str());
                text
            },
        }
    }
}

} // verus!
