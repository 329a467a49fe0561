//! Feedback-sound policy.
//!
//! A state change may play a short system sound. Candidates are attempted in a
//! fixed priority order until one plays; if every candidate fails, the
//! operation still reports success: sound is decorative, never essential.

use vstd::prelude::*;

use crate::errors::MicrophoneError;

verus! {

/// How many candidate sounds the policy knows.
pub const SOUND_CANDIDATE_COUNT: usize = 3;

/// The candidate system sound names, in priority order.
pub fn sound_candidates() -> (r: Vec<&'static str>)
    ensures
        r@.len() == SOUND_CANDIDATE_COUNT,
        r@[0]@ == "Tink"@,
        r@[1]@ == "Pop"@,
        r@[2]@ == "Morse"@,
{
    let mut v: Vec<&'static str> = Vec::new();
    v.push("Tink");
    v.push("Pop");
    v.push("Morse");
    v
}

/// The file path of a named system sound.
pub fn sound_file_path(name: &str) -> (r: String)
    ensures
        r@ == "/System/Library/Sounds/"@ + name@ + ".aiff"@,
{
    String::from_str("/System/Library/Sounds/").concat(name).concat(".aiff")
}

/// Which candidate a playback attempt should try next, given the outcomes of
/// the attempts made so far (in candidate order): the next candidate while no
/// attempt has succeeded and candidates remain, and none otherwise.
pub fn next_attempt(results: &Vec<bool>) -> (r: Option<usize>)
    ensures
        r matches Some(i) ==> i == results@.len(),
        (r is Some) <==> (results@.len() < SOUND_CANDIDATE_COUNT && (forall|j: int|
            0 <= j < results@.len() ==> !results@[j])),
{
    if results.len() >= SOUND_CANDIDATE_COUNT {
        return None;
    }
    let mut k: usize = 0;
    while k < results.len()
        invariant
            0 <= k <= results@.len(),
            forall|j: int| 0 <= j < k ==> !results@[j],
        decreases results@.len() - k,
    {
        if results[k] {
            return None;
        }
        k += 1;
    }
    Some(results.len())
}

/// The result of playing the mute feedback sound: success, whatever became of
/// the playback attempts. A failure to play is logged by the caller, never
/// propagated.
pub fn play_mute_sound() -> (r: Result<(), MicrophoneError>)
    ensures
        r is Ok,
{
    Ok(())
}

/// The result of playing the unmute feedback sound: success, whatever became
/// of the playback attempts. A failure to play is logged by the caller, never
/// propagated.
pub fn play_unmute_sound() -> (r: Result<(), MicrophoneError>)
    ensures
        r is Ok,
{
    Ok(())
}

} // verus!
