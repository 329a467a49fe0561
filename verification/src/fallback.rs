//! The stub backend for platforms without microphone control.
//!
//! Volume operations fail with `SystemError`; the decorative sound operations
//! still report success, as they do on the supported platform.

use vstd::prelude::*;

use crate::errors::MicrophoneError;
use crate::types::MicrophoneState;

verus! {

/// Probing always fails on an unsupported platform.
pub fn get_microphone_state() -> (r: Result<MicrophoneState, MicrophoneError>)
    ensures
        r matches Err(MicrophoneError::SystemError(m)) && m@
            == "Microphone control is only supported on macOS"@,
{
    Err(MicrophoneError::SystemError(String::from_str(
        "Microphone control is only supported on macOS",
    )))
}

/// Setting the mute state always fails on an unsupported platform.
pub fn set_microphone_mute(mute: bool) -> (r: Result<MicrophoneState, MicrophoneError>)
    ensures
        r matches Err(MicrophoneError::SystemError(m)) && m@
            == "Microphone control is only supported on macOS"@,
{
    let _ = mute;
    Err(MicrophoneError::SystemError(String::from_str(
        "Microphone control is only supported on macOS",
    )))
}

/// Sound is decorative: with no player available the operation still succeeds.
pub fn play_mute_sound() -> (r: Result<(), MicrophoneError>)
    ensures
        r is Ok,
{
    Ok(())
}

/// Sound is decorative: with no player available the operation still succeeds.
pub fn play_unmute_sound() -> (r: Result<(), MicrophoneError>)
    ensures
        r is Ok,
{
    Ok(())
}

} // verus!
