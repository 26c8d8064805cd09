use dictation::error::PipelineError;
use dictation::recording::{
    conversion_for, duration_ms, get_session_audio, insert_session_audio, level_window,
    numbered_session_id, report_failure, take_session_audio, AudioBuffer, CaptureFormat, DeviceFailure, RecordingState,
    SampleConversion, SampleEncoding, LEVEL_INTERVAL_MS, LEVEL_WINDOW, STOP_GRACE_MS,
    TARGET_SAMPLE_RATE,
};

fn format() -> CaptureFormat {
    CaptureFormat { sample_rate: 48000, channels: 2 }
}

fn recording_state() -> RecordingState<f32> {
    let mut state = RecordingState::new();
    state.begin_start().unwrap();
    state.complete_start(Ok(format())).unwrap();
    state
}

#[test]
fn new_state_is_idle() {
    let state: RecordingState<f32> = RecordingState::new();
    assert!(!state.is_recording());
    assert!(!state.is_metering());
    assert_eq!(state.format(), None);
}

#[test]
fn start_goes_through_starting_to_recording() {
    let mut state: RecordingState<f32> = RecordingState::new();
    assert_eq!(state.begin_start(), Ok(()));
    assert!(state.is_recording());
    assert_eq!(state.format(), None);
    assert!(!state.is_metering());
    assert_eq!(state.complete_start(Ok(format())), Ok(format()));
    assert!(state.is_recording());
    assert!(state.is_metering());
    assert_eq!(state.format(), Some(format()));
}

#[test]
fn second_start_is_refused_and_leaves_the_session_alone() {
    let mut state = recording_state();
    assert_eq!(state.begin_start(), Err(PipelineError::AlreadyRecording));
    assert!(state.is_recording());
    assert!(state.is_metering());
    assert_eq!(state.format(), Some(format()));
    assert_eq!(state.begin_stop(), Ok(format()));
}

#[test]
fn second_start_while_the_device_opens_is_refused() {
    let mut state: RecordingState<f32> = RecordingState::new();
    state.begin_start().unwrap();
    assert_eq!(state.begin_start(), Err(PipelineError::AlreadyRecording));
    assert_eq!(state.complete_start(Ok(format())), Ok(format()));
}

#[test]
fn failed_start_leaves_the_state_idle() {
    let mut state: RecordingState<f32> = RecordingState::new();
    state.begin_start().unwrap();
    let error = state.complete_start(Err(DeviceFailure::NoInputDevice)).unwrap_err();
    assert_eq!(
        error,
        PipelineError::DeviceUnavailable {
            detail: "Audio init failed: No input device available".to_string()
        }
    );
    assert!(!state.is_recording());
    assert!(!state.is_metering());
    assert_eq!(state.begin_start(), Ok(()));
}

#[test]
fn device_answer_without_a_start_is_refused() {
    let mut state: RecordingState<f32> = RecordingState::new();
    assert_eq!(state.complete_start(Ok(format())), Err(PipelineError::NotRecording));
    assert!(!state.is_recording());
    let mut state = recording_state();
    let other = CaptureFormat { sample_rate: 8000, channels: 1 };
    assert_eq!(state.complete_start(Ok(other)), Err(PipelineError::NotRecording));
    assert_eq!(state.format(), Some(format()));
}

#[test]
fn every_device_failure_has_its_report() {
    assert_eq!(
        report_failure(DeviceFailure::ConfigUnavailable { reason: "busy".to_string() }),
        PipelineError::DeviceUnavailable {
            detail: "Audio init failed: Failed to get input config: busy".to_string()
        }
    );
    assert_eq!(
        report_failure(DeviceFailure::UnsupportedSampleFormat { format: "U8".to_string() }),
        PipelineError::UnsupportedFormat {
            detail: "Audio init failed: Unsupported sample format: U8".to_string()
        }
    );
    assert_eq!(
        report_failure(DeviceFailure::BuildFailed { reason: "x".to_string() }),
        PipelineError::DeviceUnavailable {
            detail: "Audio init failed: Failed to build stream: x".to_string()
        }
    );
    assert_eq!(
        report_failure(DeviceFailure::StartFailed { reason: "y".to_string() }),
        PipelineError::DeviceUnavailable {
            detail: "Audio init failed: Failed to start stream: y".to_string()
        }
    );
    assert_eq!(
        report_failure(DeviceFailure::ThreadDied),
        PipelineError::DeviceUnavailable {
            detail: "Capture thread died before initialization".to_string()
        }
    );
}

#[test]
fn only_two_encodings_are_accepted() {
    assert_eq!(conversion_for(SampleEncoding::Float32, "F32"), Ok(SampleConversion::Passthrough));
    assert_eq!(conversion_for(SampleEncoding::Int16, "I16"), Ok(SampleConversion::ScaleInt16));
    assert_eq!(
        conversion_for(SampleEncoding::Other, "U16"),
        Err(DeviceFailure::UnsupportedSampleFormat { format: "U16".to_string() })
    );
}

#[test]
fn stop_without_a_session_is_refused() {
    let mut state: RecordingState<f32> = RecordingState::new();
    assert_eq!(state.begin_stop(), Err(PipelineError::NotRecording));
    assert!(!state.is_recording());
}

#[test]
fn stop_before_the_device_answered_has_no_audio() {
    let mut state: RecordingState<f32> = RecordingState::new();
    state.begin_start().unwrap();
    assert_eq!(state.begin_stop(), Err(PipelineError::NoAudioCaptured));
    assert!(!state.is_recording());
}

#[test]
fn stop_with_zero_samples_returns_no_audio_captured() {
    let mut state = recording_state();
    assert_eq!(state.begin_stop(), Ok(format()));
    assert!(!state.is_recording());
    assert!(!state.is_metering());
    assert_eq!(state.finish_stop(0, vec![]), Err(PipelineError::NoAudioCaptured));
}

#[test]
fn stop_files_the_recording_under_a_new_identifier() {
    let mut state = recording_state();
    state.begin_stop().unwrap();
    let processed = vec![0.5f32; 32000];
    let result = state.finish_stop(96000, processed.clone()).unwrap();
    assert_eq!(result.sample_count, 32000);
    assert_eq!(result.duration_ms, 2000);
    assert_eq!(result.session_id.len(), 36);
    assert_eq!(get_session_audio(&state, &result.session_id), Some(&processed));
    assert!(!state.is_recording());
}

#[test]
fn session_identifiers_are_hyphenated_and_differ() {
    let mut state: RecordingState<i16> = RecordingState::new();
    let first = state.import_session(vec![1, 2, 3]);
    let second = state.import_session(vec![4]);
    assert_ne!(first, second);
    for id in [&first, &second] {
        assert_eq!(id.len(), 36);
        for (i, c) in id.chars().enumerate() {
            if i == 8 || i == 13 || i == 18 || i == 23 {
                assert_eq!(c, '-');
            } else {
                assert!(c.is_ascii_digit() || ('a'..='f').contains(&c), "{} in {}", c, id);
            }
        }
    }
    assert_eq!(get_session_audio(&state, &first), Some(&vec![1, 2, 3]));
    assert_eq!(get_session_audio(&state, &second), Some(&vec![4]));
}

#[test]
fn store_session_reports_count_and_duration() {
    let mut state: RecordingState<u8> = RecordingState::new();
    let result = state.store_session("abc".to_string(), vec![0u8; 16016]);
    assert_eq!(result.session_id, "abc");
    assert_eq!(result.sample_count, 16016);
    assert_eq!(result.duration_ms, 1001);
    assert_eq!(get_session_audio(&state, "abc").map(|a| a.len()), Some(16016));
}

#[test]
fn session_audio_can_be_inserted_read_and_taken() {
    let mut state: RecordingState<f32> = RecordingState::new();
    assert_eq!(get_session_audio(&state, "s1"), None);
    insert_session_audio(&mut state, "s1", vec![0.1, 0.2]);
    insert_session_audio(&mut state, "s2", vec![0.3]);
    assert_eq!(get_session_audio(&state, "s1"), Some(&vec![0.1, 0.2]));
    insert_session_audio(&mut state, "s1", vec![0.9]);
    assert_eq!(get_session_audio(&state, "s1"), Some(&vec![0.9]));
    assert_eq!(take_session_audio(&mut state, "s1"), Some(vec![0.9]));
    assert_eq!(take_session_audio(&mut state, "s1"), None);
    assert_eq!(get_session_audio(&state, "s2"), Some(&vec![0.3]));
}

#[test]
fn duration_is_the_sample_count_at_sixteen_kilohertz() {
    assert_eq!(duration_ms(0), 0);
    assert_eq!(duration_ms(15), 0);
    assert_eq!(duration_ms(16), 1);
    assert_eq!(duration_ms(16000), 1000);
    assert_eq!(duration_ms(16015), 1000);
    assert_eq!(duration_ms(16016), 1001);
    assert_eq!(duration_ms(44100), 2756);
    assert_eq!(duration_ms(48000), 3000);
    assert_eq!(duration_ms(16016), ((16016u64 * 1000) / 16000));
}

#[test]
fn level_window_is_the_tail_of_the_buffer() {
    assert_eq!(level_window(0), (0, 0));
    assert_eq!(level_window(100), (0, 100));
    assert_eq!(level_window(4096), (0, 4096));
    assert_eq!(level_window(4097), (1, 4097));
    assert_eq!(level_window(10000), (5904, 10000));
}

#[test]
fn constants_have_their_values() {
    assert_eq!(TARGET_SAMPLE_RATE, 16000);
    assert_eq!(LEVEL_WINDOW, 4096);
    assert_eq!(LEVEL_INTERVAL_MS, 60);
    assert_eq!(STOP_GRACE_MS, 50);
}

#[test]
fn audio_buffer_starts_empty_with_placeholder_format() {
    let buffer: AudioBuffer<f32> = AudioBuffer::new(0, 0);
    assert!(buffer.samples.is_empty());
    assert_eq!(buffer.sample_rate, 0);
    assert_eq!(buffer.channels, 0);
    assert_eq!(buffer.format(), CaptureFormat { sample_rate: 0, channels: 0 });
}

#[test]
fn audio_buffer_take_hands_out_everything_once() {
    let mut buffer: AudioBuffer<f32> = AudioBuffer::new(44100, 2);
    let mut first = vec![0.1, 0.2];
    let mut second = vec![0.3];
    buffer.append(&mut first);
    buffer.append(&mut second);
    assert!(first.is_empty());
    assert_eq!(buffer.samples, vec![0.1, 0.2, 0.3]);
    assert_eq!(buffer.meter_range(), (0, 3));
    assert_eq!(buffer.take(), vec![0.1, 0.2, 0.3]);
    assert!(buffer.samples.is_empty());
    assert_eq!(buffer.take(), Vec::<f32>::new());
    assert_eq!(buffer.sample_rate, 44100);
    assert_eq!(buffer.channels, 2);
}

#[test]
fn audio_buffer_clear_drops_the_samples() {
    let mut buffer: AudioBuffer<i16> = AudioBuffer::new(16000, 1);
    let mut chunk = vec![1, 2, 3];
    buffer.append(&mut chunk);
    buffer.clear();
    assert!(buffer.samples.is_empty());
    assert_eq!(buffer.sample_rate, 16000);
}

#[test]
fn start_recording_opens_the_device_once_admitted() {
    let mut state: RecordingState<f32> = RecordingState::new();
    let mut opened = 0;
    let started = state.start_recording(|| {
        opened += 1;
        Ok(format())
    });
    assert_eq!(started, Ok(format()));
    assert_eq!(opened, 1);
    assert!(state.is_recording());
    assert!(state.is_metering());
    assert_eq!(state.format(), Some(format()));
}

#[test]
fn start_recording_twice_returns_already_recording() {
    let mut state: RecordingState<f32> = RecordingState::new();
    state.start_recording(|| Ok(format())).unwrap();
    let mut opened = 0;
    let second = state.start_recording(|| {
        opened += 1;
        Ok(CaptureFormat { sample_rate: 8000, channels: 1 })
    });
    assert_eq!(second, Err(PipelineError::AlreadyRecording));
    assert_eq!(opened, 0);
    assert!(state.is_recording());
    assert_eq!(state.format(), Some(format()));
}

#[test]
fn start_recording_with_a_failing_device_stays_idle() {
    let mut state: RecordingState<f32> = RecordingState::new();
    let started = state.start_recording(|| {
        Err(DeviceFailure::UnsupportedSampleFormat { format: "U8".to_string() })
    });
    assert_eq!(
        started,
        Err(PipelineError::UnsupportedFormat {
            detail: "Audio init failed: Unsupported sample format: U8".to_string()
        })
    );
    assert!(!state.is_recording());
    assert!(!state.is_metering());
    assert_eq!(state.start_recording(|| Ok(format())), Ok(format()));
}

#[test]
fn stop_recording_without_a_session_touches_nothing() {
    let mut state: RecordingState<f32> = RecordingState::new();
    let mut taken = 0;
    let stopped = state.stop_recording(
        || {
            taken += 1;
            vec![1.0]
        },
        |raw, _| raw,
    );
    assert_eq!(stopped, Err(PipelineError::NotRecording));
    assert_eq!(taken, 0);
}

#[test]
fn stop_recording_with_an_empty_buffer_captured_nothing() {
    let mut state = recording_state();
    let mut processed = 0;
    let stopped = state.stop_recording(
        || Vec::new(),
        |raw, _| {
            processed += 1;
            raw
        },
    );
    assert_eq!(stopped, Err(PipelineError::NoAudioCaptured));
    assert_eq!(processed, 0);
    assert!(!state.is_recording());
    assert!(!state.is_metering());
}

#[test]
fn stop_recording_files_what_preprocessing_made() {
    let mut state = recording_state();
    let result = state
        .stop_recording(
            || vec![0.25f32; 96000],
            |raw, format| {
                assert_eq!(format, CaptureFormat { sample_rate: 48000, channels: 2 });
                assert_eq!(raw.len(), 96000);
                vec![0.5f32; 16000]
            },
        )
        .unwrap();
    assert_eq!(result.sample_count, 16000);
    assert_eq!(result.duration_ms, 1000);
    assert_eq!(get_session_audio(&state, &result.session_id), Some(&vec![0.5f32; 16000]));
    assert!(!state.is_recording());
    assert_eq!(state.begin_stop(), Err(PipelineError::NotRecording));
}

#[test]
fn numbered_identifiers_have_the_shape_of_session_identifiers() {
    assert_eq!(numbered_session_id(0), "00000000-0000-0000-0000-000000000000");
    assert_eq!(numbered_session_id(1), "00000000-0000-0000-0000-000000000001");
    assert_eq!(numbered_session_id(907), "00000000-0000-0000-0000-000000000907");
    assert_eq!(
        numbered_session_id(12_345_678_901_234_567_890),
        "00000000-0000-1234-5678-901234567890"
    );
    assert_eq!(numbered_session_id(u64::MAX), "00000000-0000-1844-6744-073709551615");
}

#[test]
fn a_drawn_identifier_that_is_free_is_taken() {
    let mut state: RecordingState<u8> = RecordingState::new();
    insert_session_audio(&mut state, "taken", vec![1]);
    assert_eq!(state.unused_session_id("fresh".to_string()), "fresh");
}

#[test]
fn a_drawn_identifier_that_is_in_use_is_replaced_by_the_first_free_number() {
    let mut state: RecordingState<u8> = RecordingState::new();
    insert_session_audio(&mut state, "taken", vec![1]);
    assert_eq!(
        state.unused_session_id("taken".to_string()),
        "00000000-0000-0000-0000-000000000000"
    );
    insert_session_audio(&mut state, "00000000-0000-0000-0000-000000000000", vec![2]);
    insert_session_audio(&mut state, "00000000-0000-0000-0000-000000000001", vec![3]);
    assert_eq!(
        state.unused_session_id("taken".to_string()),
        "00000000-0000-0000-0000-000000000002"
    );
    assert_eq!(get_session_audio(&state, "taken"), Some(&vec![1]));
}

#[test]
fn a_new_recording_never_replaces_a_stored_session() {
    let mut state: RecordingState<u8> = RecordingState::new();
    let mut ids = Vec::new();
    for n in 0..20u8 {
        let before: Vec<String> = ids.clone();
        let id = state.import_session(vec![n]);
        assert!(!before.contains(&id));
        ids.push(id);
    }
    for (n, id) in ids.iter().enumerate() {
        assert_eq!(get_session_audio(&state, id), Some(&vec![n as u8]));
    }
}
