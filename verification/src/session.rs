//! Session state guards for the microphone and the screen stream.
//!
//! Each session is a small owned state object with explicit `start`/`stop`
//! transitions. The contract is at-most-one-active-session per flag:
//! starting while active and stopping while idle are rejected as
//! [`DispatchError::InvalidState`] user errors, never faults, and leave the
//! state untouched.

use vstd::prelude::*;
use crate::errors::DispatchError;

verus! {

/// Microphone session state: one recording flag and the chosen input
/// device, if any.
pub struct VoiceState {
    pub is_recording: bool,
    pub audio_device: Option<String>,
}

impl Default for VoiceState {
    /// A fresh, idle microphone session with no device chosen.
    fn default() -> (r: Self)
        ensures
            !r.is_recording,
            r.audio_device is None,
    {
        VoiceState { is_recording: false, audio_device: None }
    }
}

/// Screen streaming session state: one streaming flag and the requested
/// stream quality.
pub struct ScreenState {
    pub is_streaming: bool,
    pub stream_quality: String,
}

impl Default for ScreenState {
    /// A fresh, idle screen session at the default quality.
    fn default() -> (r: Self)
        ensures
            !r.is_streaming,
            r.stream_quality@ == "medium"@,
    {
        ScreenState { is_streaming: false, stream_quality: String::from_str("medium") }
    }
}

/// Starts the microphone session: succeeds exactly when it is idle, and is
/// rejected with `InvalidState` — leaving the state unchanged — when a
/// recording is already active.
pub fn start_microphone(state: &mut VoiceState) -> (r: Result<String, DispatchError>)
    ensures
        r is Ok <==> !old(state).is_recording,
        r matches Ok(m) ==> m@ == "Microphone started"@ && final(state).is_recording && final(state).audio_device == old(state).audio_device,
        r matches Err(e) ==> (e matches DispatchError::InvalidState(m) && m@
            == "Microphone already recording"@) && *final(state) == *old(state),
{
    if state.is_recording {
        return Err(
            DispatchError::InvalidState(String::from_str("Microphone already recording")),
        );
    }
    state.is_recording = true;
    Ok(String::from_str("Microphone started"))
}

/// Stops the microphone session: succeeds exactly when a recording is
/// active, and is rejected with `InvalidState` — leaving the state
/// unchanged — when it is already idle.
pub fn stop_microphone(state: &mut VoiceState) -> (r: Result<String, DispatchError>)
    ensures
        r is Ok <==> old(state).is_recording,
        r matches Ok(m) ==> m@ == "Microphone stopped"@ && !final(state).is_recording && final(state).audio_device == old(state).audio_device,
        r matches Err(e) ==> (e matches DispatchError::InvalidState(m) && m@
            == "Microphone not recording"@) && *final(state) == *old(state),
{
    if !state.is_recording {
        return Err(DispatchError::InvalidState(String::from_str("Microphone not recording")));
    }
    state.is_recording = false;
    Ok(String::from_str("Microphone stopped"))
}

/// Starts the screen stream at the requested quality: succeeds exactly when
/// the stream is idle, and is rejected with `InvalidState` — leaving the
/// state unchanged — when a stream is already active.
pub fn start_screen_stream(state: &mut ScreenState, quality: String) -> (r: Result<
    String,
    DispatchError,
>)
    ensures
        r is Ok <==> !old(state).is_streaming,
        r matches Ok(m) ==> m@ == "Screen streaming started"@ && final(state).is_streaming
            && final(state).stream_quality@ == quality@,
        r matches Err(e) ==> (e matches DispatchError::InvalidState(m) && m@
            == "Screen streaming already active"@) && *final(state) == *old(state),
{
    if state.is_streaming {
        return Err(
            DispatchError::InvalidState(String::from_str("Screen streaming already active")),
        );
    }
    state.is_streaming = true;
    state.stream_quality = quality;
    Ok(String::from_str("Screen streaming started"))
}

/// Stops the screen stream: succeeds exactly when a stream is active, and
/// is rejected with `InvalidState` — leaving the state unchanged — when it
/// is already idle.
pub fn stop_screen_stream(state: &mut ScreenState) -> (r: Result<String, DispatchError>)
    ensures
        r is Ok <==> old(state).is_streaming,
        r matches Ok(m) ==> m@ == "Screen streaming stopped"@ && !final(state).is_streaming
            && final(state).stream_quality == old(state).stream_quality,
        r matches Err(e) ==> (e matches DispatchError::InvalidState(m) && m@
            == "Screen streaming not active"@) && *final(state) == *old(state),
{
    if !state.is_streaming {
        return Err(DispatchError::InvalidState(String::from_str("Screen streaming not active")));
    }
    state.is_streaming = false;
    Ok(String::from_str("Screen streaming stopped"))
}

/// The input devices offered to the caller. Device enumeration through an
/// audio backend is not wired up; the fixed default pair stands in.
pub fn get_audio_devices() -> (r: Vec<String>)
    ensures
        r@.len() == 2,
        r@[0]@ == "Default Microphone"@,
        r@[1]@ == "Built-in Microphone"@,
{
    let mut devices: Vec<String> = Vec::new();
    devices.push(String::from_str("Default Microphone"));
    devices.push(String::from_str("Built-in Microphone"));
    devices
}

/// Accepts one chunk of captured audio. Transcription is not wired up; the
/// fixed placeholder answer stands in for every chunk.
pub fn process_audio_chunk(audio_data: Vec<u8>) -> (r: Result<String, DispatchError>)
    ensures
        r matches Ok(m) && m@ == "Transcription would appear here"@,
{
    let _ = audio_data;
    Ok(String::from_str("Transcription would appear here"))
}

} // verus!
