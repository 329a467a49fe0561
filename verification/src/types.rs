//! Data structures of the microphone utility.

use vstd::prelude::*;

verus! {

/// A snapshot of the microphone state: muted or not.
///
/// It is a snapshot, not a subscription; callers re-derive it from the OS or
/// from the result of the most recent volume operation.
#[derive(Clone, Copy, Debug, PartialEq, Eq, Structural)]
pub struct MicrophoneState {
    pub is_muted: bool,
}

impl MicrophoneState {
    /// The snapshot with the given mute flag.
    pub fn new(is_muted: bool) -> (r: Self)
        ensures
            r.is_muted == is_muted,
    {
        Self { is_muted }
    }

    /// The muted snapshot.
    pub fn muted() -> (r: Self)
        ensures
            r.is_muted,
    {
        Self { is_muted: true }
    }

    /// The unmuted snapshot.
    pub fn unmuted() -> (r: Self)
        ensures
            !r.is_muted,
    {
        Self { is_muted: false }
    }

    /// The state a toggle moves to from `self`.
    pub open spec fn toggled(self) -> Self {
        MicrophoneState { is_muted: !self.is_muted }
    }
}

/// Two toggles return to the original state.
pub proof fn lemma_double_toggle(s: MicrophoneState)
    ensures
        s.toggled().toggled() == s,
{
}

/// The application settings: in-memory only, reset on every process start.
#[derive(Clone, Copy, Debug, PartialEq, Eq, Structural)]
pub struct Settings {
    pub telemetry_enabled: bool,
}

impl Settings {
    /// The settings a process starts with: telemetry disabled.
    pub fn new() -> (r: Self)
        ensures
            !r.telemetry_enabled,
    {
        Self { telemetry_enabled: false }
    }

    /// Settings with the given telemetry flag.
    pub fn with_telemetry(telemetry_enabled: bool) -> (r: Self)
        ensures
            r.telemetry_enabled == telemetry_enabled,
    {
        Self { telemetry_enabled }
    }
}

impl Default for Settings {
    fn default() -> (r: Self)
        ensures
            !r.telemetry_enabled,
    {
        Settings::new()
    }
}

} // verus!
