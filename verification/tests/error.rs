use dictation::error::PipelineError;

#[test]
fn every_error_has_its_message() {
    let d = |s: &str| s.to_string();
    assert_eq!(PipelineError::DeviceUnavailable { detail: d("no mic") }.message(), "no mic");
    assert_eq!(PipelineError::UnsupportedFormat { detail: d("U8") }.message(), "U8");
    assert_eq!(PipelineError::AlreadyRecording.message(), "Recording already in progress");
    assert_eq!(PipelineError::NotRecording.message(), "No active recording");
    assert_eq!(PipelineError::NoAudioCaptured.message(), "No audio data captured");
    assert_eq!(PipelineError::SessionNotFound.message(), "Session not found");
    assert_eq!(PipelineError::EmptyAudio.message(), "No audio data in session");
    assert_eq!(
        PipelineError::UnknownModel { model_id: d("m") }.message(),
        "Unknown model: m"
    );
    assert_eq!(
        PipelineError::ModelNotDownloaded { model_id: d("whisper-tiny") }.message(),
        "Model 'whisper-tiny' is not downloaded"
    );
    assert_eq!(PipelineError::EngineLoadFailed { detail: d("x") }.message(), "x");
    assert_eq!(PipelineError::InferenceFailed { detail: d("y") }.message(), "y");
    assert_eq!(
        PipelineError::RemoteApiError { status: 429, message: d("slow down") }.message(),
        "API error 429: slow down"
    );
    assert_eq!(
        PipelineError::InvalidHotkeySpec { spec: d("Ctrl+"), detail: d("empty key") }.message(),
        "Invalid hotkey 'Ctrl+': empty key"
    );
}
