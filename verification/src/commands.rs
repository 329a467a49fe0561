//! The state synchronizer and the settings accessors.
//!
//! The synchronizer ties a requested or toggled mute intent to the volume
//! command, and fans the confirmed state out to presentation and notification.
//! The volume path is strict: its failures abort the operation. The fan-out is
//! best-effort: its failures are logged by the caller and can never change the
//! operation's outcome.

use vstd::prelude::*;

use crate::errors::MicrophoneError;
use crate::types::MicrophoneState;
use crate::types::Settings;

verus! {

/// The mute flag a toggle must request, from the probe's result: the inverse
/// of the probed state. A probe failure aborts the toggle and is propagated
/// unchanged; no partial update happens.
pub fn toggle_request(probe: Result<MicrophoneState, MicrophoneError>) -> (r: Result<
    bool,
    MicrophoneError,
>)
    ensures
        probe matches Ok(s) ==> r == Ok::<bool, MicrophoneError>(s.toggled().is_muted),
        probe matches Err(e) ==> r == Err::<bool, MicrophoneError>(e),
{
    match probe {
        Ok(state) => Ok(!state.is_muted),
        Err(e) => Err(e),
    }
}

/// The outcome of a volume operation once the volume command has confirmed the
/// new state: that state, whatever became of the best-effort side effects.
/// A failed feedback sound, presentation update or notification is logged by
/// the caller and never rolls back or fails the volume change already made.
pub fn complete_operation(
    new_state: MicrophoneState,
    sound_ok: bool,
    presentation_ok: bool,
    notification_ok: bool,
) -> (r: Result<MicrophoneState, MicrophoneError>)
    ensures
        r == Ok::<MicrophoneState, MicrophoneError>(new_state),
{
    let _ = sound_ok;
    let _ = presentation_ok;
    let _ = notification_ok;
    Ok(new_state)
}

/// The state the tray first shows: the probed state, or unmuted where the
/// probe failed. The failure is logged by the caller and the tray still comes
/// up, showing the default.
pub fn get_initial_microphone_state(probe: &Result<MicrophoneState, MicrophoneError>) -> (r:
    MicrophoneState)
    ensures
        (*probe) matches Ok(s) ==> r == s,
        (*probe) is Err ==> !r.is_muted,
{
    match probe {
        Ok(s) => *s,
        Err(_) => MicrophoneState::unmuted(),
    }
}

/// What the settings record becomes when telemetry is set.
pub open spec fn spec_set_telemetry(s: Settings, enabled: bool) -> Settings {
    Settings { telemetry_enabled: enabled }
}

/// A copy of the current settings.
pub fn get_settings(settings: &Settings) -> (r: Settings)
    ensures
        r == *settings,
{
    *settings
}

/// Turns telemetry on or off; the rest of the settings is kept.
pub fn set_telemetry_enabled(settings: &mut Settings, enabled: bool)
    ensures
        *final(settings) == spec_set_telemetry(*old(settings), enabled),
        final(settings).telemetry_enabled == enabled,
{
    settings.telemetry_enabled = enabled;
}

/// Setting telemetry and reading the settings back reports the value just set,
/// for every prior settings record.
pub proof fn lemma_telemetry_round_trip(s: Settings, enabled: bool)
    ensures
        spec_set_telemetry(s, enabled).telemetry_enabled == enabled,
{
}

} // verus!
