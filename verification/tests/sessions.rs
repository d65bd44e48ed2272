use deskctl::session::get_audio_devices;
use deskctl::session::process_audio_chunk;
use deskctl::session::start_microphone;
use deskctl::session::start_screen_stream;
use deskctl::session::stop_microphone;
use deskctl::session::stop_screen_stream;
use deskctl::session::ScreenState;
use deskctl::session::VoiceState;
use deskctl::DispatchError;

#[test]
fn microphone_start_twice_rejects_second() {
    let mut state = VoiceState::default();
    assert_eq!(start_microphone(&mut state).unwrap(), "Microphone started");
    match start_microphone(&mut state) {
        Err(DispatchError::InvalidState(msg)) => {
            assert_eq!(msg, "Microphone already recording")
        }
        other => panic!("expected InvalidState, got {:?}", other),
    }
    assert!(state.is_recording);
}

#[test]
fn microphone_stop_before_start_rejected() {
    let mut state = VoiceState::default();
    match stop_microphone(&mut state) {
        Err(DispatchError::InvalidState(msg)) => assert_eq!(msg, "Microphone not recording"),
        other => panic!("expected InvalidState, got {:?}", other),
    }
    assert!(!state.is_recording);
}

#[test]
fn microphone_full_cycle() {
    let mut state = VoiceState::default();
    assert!(start_microphone(&mut state).is_ok());
    assert_eq!(stop_microphone(&mut state).unwrap(), "Microphone stopped");
    assert!(stop_microphone(&mut state).is_err());
}

#[test]
fn screen_stream_guard_matches_microphone() {
    let mut state = ScreenState::default();
    assert!(!state.is_streaming);
    assert_eq!(state.stream_quality, "medium");

    assert_eq!(
        start_screen_stream(&mut state, "high".to_string()).unwrap(),
        "Screen streaming started"
    );
    assert_eq!(state.stream_quality, "high");

    match start_screen_stream(&mut state, "low".to_string()) {
        Err(DispatchError::InvalidState(msg)) => {
            assert_eq!(msg, "Screen streaming already active")
        }
        other => panic!("expected InvalidState, got {:?}", other),
    }
    assert_eq!(state.stream_quality, "high");

    assert_eq!(stop_screen_stream(&mut state).unwrap(), "Screen streaming stopped");
    match stop_screen_stream(&mut state) {
        Err(DispatchError::InvalidState(msg)) => {
            assert_eq!(msg, "Screen streaming not active")
        }
        other => panic!("expected InvalidState, got {:?}", other),
    }
}

#[test]
fn voice_default_is_idle() {
    let state = VoiceState::default();
    assert!(!state.is_recording);
    assert!(state.audio_device.is_none());
}

#[test]
fn audio_devices_are_the_fixed_pair() {
    let devices = get_audio_devices();
    assert_eq!(
        devices,
        vec!["Default Microphone".to_string(), "Built-in Microphone".to_string()]
    );
}

#[test]
fn audio_chunk_gets_the_placeholder_answer() {
    let r = process_audio_chunk(vec![1, 2, 3]);
    assert_eq!(r.unwrap(), "Transcription would appear here");
}
