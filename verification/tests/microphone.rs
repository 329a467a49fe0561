//! Behaviour of the volume probe, the volume setter and the synchronizer.

use snub::audio::{
    get_microphone_state, probe_script, set_microphone_mute, set_volume_script, trim_ascii,
    volume_level, CommandOutcome,
};
use snub::commands::{
    complete_operation, get_initial_microphone_state, get_settings, set_telemetry_enabled,
    toggle_request,
};
use snub::errors::MicrophoneError;
use snub::types::{MicrophoneState, Settings};

fn probe_reading(text: &str) -> CommandOutcome {
    CommandOutcome::Exited {
        success: true,
        stdout: text.as_bytes().to_vec(),
        stderr: String::new(),
    }
}

fn success_exit() -> CommandOutcome {
    CommandOutcome::Exited {
        success: true,
        stdout: Vec::new(),
        stderr: String::new(),
    }
}

fn failure_exit(stderr: &str) -> CommandOutcome {
    CommandOutcome::Exited {
        success: false,
        stdout: Vec::new(),
        stderr: stderr.to_string(),
    }
}

#[test]
fn probe_maps_zero_volume_to_muted() {
    let state = get_microphone_state(probe_reading("0.0")).unwrap();
    assert!(state.is_muted);
}

#[test]
fn probe_maps_default_volume_to_unmuted() {
    let state = get_microphone_state(probe_reading("50.0")).unwrap();
    assert!(!state.is_muted);
}

#[test]
fn probe_maps_partial_volume_to_unmuted() {
    let state = get_microphone_state(probe_reading("37.5")).unwrap();
    assert!(!state.is_muted);
}

#[test]
fn probe_accepts_integer_reading() {
    assert!(get_microphone_state(probe_reading("0")).unwrap().is_muted);
    assert!(!get_microphone_state(probe_reading("50")).unwrap().is_muted);
}

#[test]
fn probe_trims_surrounding_whitespace() {
    assert!(get_microphone_state(probe_reading(" \t0\n")).unwrap().is_muted);
    assert!(!get_microphone_state(probe_reading("  50\r\n")).unwrap().is_muted);
}

#[test]
fn probe_treats_all_zero_digits_as_muted() {
    assert!(get_microphone_state(probe_reading("00.000")).unwrap().is_muted);
}

#[test]
fn probe_rejects_text_that_is_no_number() {
    for bad in ["", "abc", "1.2.3", ".", "4 2", "50%"] {
        match get_microphone_state(probe_reading(bad)) {
            Err(MicrophoneError::ParseError(_)) => {}
            other => panic!("expected a parse error for {:?}, got {:?}", bad, other),
        }
    }
}

#[test]
fn probe_propagates_launch_failure() {
    let err = get_microphone_state(CommandOutcome::LaunchFailed("no such file".to_string()))
        .unwrap_err();
    match err {
        MicrophoneError::CommandFailed(m) => {
            assert_eq!(m, "Failed to execute osascript: no such file");
        }
        other => panic!("expected a command failure, got {:?}", other),
    }
}

#[test]
fn probe_propagates_nonzero_exit() {
    let err = get_microphone_state(failure_exit("denied")).unwrap_err();
    match err {
        MicrophoneError::CommandFailed(m) => assert_eq!(m, "osascript failed: denied"),
        other => panic!("expected a command failure, got {:?}", other),
    }
}

#[test]
fn setter_returns_the_requested_intent() {
    let muted = set_microphone_mute(true, success_exit()).unwrap();
    assert!(muted.is_muted);
    let unmuted = set_microphone_mute(false, success_exit()).unwrap();
    assert!(!unmuted.is_muted);
}

#[test]
fn setter_propagates_command_failure() {
    match set_microphone_mute(true, failure_exit("boom")) {
        Err(MicrophoneError::CommandFailed(m)) => assert_eq!(m, "osascript failed: boom"),
        other => panic!("expected a command failure, got {:?}", other),
    }
}

#[test]
fn set_mute_issues_level_zero_and_unmute_level_fifty() {
    assert_eq!(volume_level(true), "0");
    assert_eq!(volume_level(false), "50");
    assert_eq!(set_volume_script(true), "set volume input volume 0");
    assert_eq!(set_volume_script(false), "set volume input volume 50");
}

#[test]
fn probe_script_reads_the_input_volume() {
    assert_eq!(probe_script(), "input volume of (get volume settings)");
}

#[test]
fn set_then_probe_reads_back_the_requested_state() {
    for mute in [true, false] {
        let set = set_microphone_mute(mute, success_exit()).unwrap();
        assert_eq!(set.is_muted, mute);
        let reading = probe_reading(volume_level(mute));
        let probed = get_microphone_state(reading).unwrap();
        assert_eq!(probed.is_muted, mute);
    }
}

#[test]
fn toggle_requests_the_inverse_of_the_probed_state() {
    assert_eq!(toggle_request(Ok(MicrophoneState::muted())), Ok(false));
    assert_eq!(toggle_request(Ok(MicrophoneState::unmuted())), Ok(true));
}

#[test]
fn toggle_from_muted_issues_level_fifty() {
    let target = toggle_request(Ok(MicrophoneState::muted())).unwrap();
    assert_eq!(volume_level(target), "50");
}

#[test]
fn toggle_propagates_probe_failure() {
    let probe = Err(MicrophoneError::ParseError("bad".to_string()));
    assert_eq!(
        toggle_request(probe),
        Err(MicrophoneError::ParseError("bad".to_string()))
    );
}

#[test]
fn double_toggle_returns_to_the_original_state() {
    for start in [MicrophoneState::muted(), MicrophoneState::unmuted()] {
        let first = toggle_request(Ok(start)).unwrap();
        let after_first = set_microphone_mute(first, success_exit()).unwrap();
        let second = toggle_request(Ok(after_first)).unwrap();
        let after_second = set_microphone_mute(second, success_exit()).unwrap();
        assert_eq!(after_second.is_muted, start.is_muted);
    }
}

#[test]
fn failed_side_effects_never_fail_the_operation() {
    let state = MicrophoneState::muted();
    // every cosmetic step failing, sound included
    assert_eq!(complete_operation(state, false, false, false), Ok(state));
    // presentation alone failing
    assert_eq!(complete_operation(state, true, false, true), Ok(state));
    // sound alone failing
    assert_eq!(complete_operation(state, false, true, true), Ok(state));
    assert_eq!(complete_operation(state, true, true, true), Ok(state));
}

#[test]
fn initial_state_falls_back_to_unmuted() {
    let probed = get_initial_microphone_state(&Ok(MicrophoneState::muted()));
    assert!(probed.is_muted);
    let fallback_state = get_initial_microphone_state(&Err(MicrophoneError::CommandFailed(
        "no osascript".to_string(),
    )));
    assert!(!fallback_state.is_muted);
}

#[test]
fn telemetry_set_then_get_round_trip() {
    let mut settings = Settings::new();
    assert!(!settings.telemetry_enabled);
    set_telemetry_enabled(&mut settings, true);
    assert!(get_settings(&settings).telemetry_enabled);
    set_telemetry_enabled(&mut settings, false);
    assert!(!get_settings(&settings).telemetry_enabled);
    // a fresh record (a new process) starts with telemetry disabled again
    assert!(!Settings::new().telemetry_enabled);
    assert!(Settings::with_telemetry(true).telemetry_enabled);
}

#[test]
fn trim_keeps_inner_bytes_only() {
    assert_eq!(trim_ascii(b" \t 42.5 \r\n"), b"42.5".to_vec());
    assert_eq!(trim_ascii(b"50"), b"50".to_vec());
    assert_eq!(trim_ascii(b"  \n"), Vec::<u8>::new());
    assert_eq!(trim_ascii(b""), Vec::<u8>::new());
}

#[test]
fn microphone_state_constructors() {
    assert!(MicrophoneState::new(true).is_muted);
    assert!(!MicrophoneState::new(false).is_muted);
    assert!(MicrophoneState::muted().is_muted);
    assert!(!MicrophoneState::unmuted().is_muted);
    assert!(!Settings::default().telemetry_enabled);
}

#[test]
fn error_messages_name_the_failure() {
    let command = MicrophoneError::CommandFailed("osascript failed: x".to_string());
    assert_eq!(command.message(), "Command failed: osascript failed: x");
    let parse = MicrophoneError::ParseError("bad digit".to_string());
    assert_eq!(parse.message(), "Parse error: bad digit");
    let system = MicrophoneError::SystemError("unsupported".to_string());
    assert_eq!(system.message(), "System error: unsupported");
}

#[test]
fn errors_compare_by_variant_and_detail() {
    let a = MicrophoneError::CommandFailed("x".to_string());
    let b = MicrophoneError::CommandFailed("x".to_string());
    let c = MicrophoneError::ParseError("x".to_string());
    assert_eq!(a, b);
    assert_ne!(a, c);
    assert_ne!(b, MicrophoneError::CommandFailed("y".to_string()));
}
