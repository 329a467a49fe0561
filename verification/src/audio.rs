//! Interpretation of the OS volume commands.
//!
//! The OS is asked for the input volume through an external process; the
//! process's outcome arrives here as plain values. A successful query's
//! standard output, trimmed of surrounding whitespace, must read as a decimal
//! numeral; the numeral's value is zero exactly when every digit in it is `0`,
//! and a zero volume means the microphone is muted.

use vstd::prelude::*;
use vstd::utf8::encode_utf8;
use vstd::utf8::is_ascii_chars;
use vstd::utf8::is_ascii_chars_encode_utf8;

use crate::errors::MicrophoneError;
use crate::types::MicrophoneState;

verus! {

/// How an external OS command ended: it could not be launched, or it exited,
/// with its streams captured.
pub enum CommandOutcome {
    /// The process could not be started; the payload describes why.
    LaunchFailed(String),
    /// The process ran to completion.
    Exited { success: bool, stdout: Vec<u8>, stderr: String },
}

/// The byte of the digit `0`.
pub const DIGIT_ZERO: u8 = 48;

/// The byte of the digit `9`.
pub const DIGIT_NINE: u8 = 57;

/// The byte of the decimal point `.`.
pub const DECIMAL_POINT: u8 = 46;

/// Whether a byte is an ASCII decimal digit.
pub open spec fn is_ascii_digit(b: u8) -> bool {
    DIGIT_ZERO <= b <= DIGIT_NINE
}

/// Whether a byte is ASCII whitespace as the volume query's output may carry
/// around the numeral: space, tab, line feed, vertical tab, form feed,
/// carriage return.
pub open spec fn is_ascii_space(b: u8) -> bool {
    b == 32 || b == 9 || b == 10 || b == 11 || b == 12 || b == 13
}

/// Whether the bytes read as a decimal numeral: only digits and at most one
/// decimal point, with at least one digit.
pub open spec fn is_volume_numeral(s: Seq<u8>) -> bool {
    &&& forall|i: int| 0 <= i < s.len() ==> is_ascii_digit(#[trigger] s[i]) || s[i] == DECIMAL_POINT
    &&& forall|i: int, j: int|
        0 <= i < j < s.len() ==> !(#[trigger] s[i] == DECIMAL_POINT && #[trigger] s[j]
            == DECIMAL_POINT)
    &&& exists|i: int| 0 <= i < s.len() && is_ascii_digit(#[trigger] s[i])
}

/// Whether a decimal numeral denotes the value zero: every digit in it is `0`.
pub open spec fn numeral_is_zero(s: Seq<u8>) -> bool {
    forall|i: int| 0 <= i < s.len() && is_ascii_digit(#[trigger] s[i]) ==> s[i] == DIGIT_ZERO
}

/// Reads a decimal numeral: whether its value is zero, or nothing where the
/// bytes are no decimal numeral.
pub fn parse_volume_is_zero(s: &[u8]) -> (r: Option<bool>)
    ensures
        r matches Some(z) ==> is_volume_numeral(s@) && z == numeral_is_zero(s@),
        r is None ==> !is_volume_numeral(s@),
{
    let n = s.len();
    let mut seen_dot = false;
    let mut seen_digit = false;
    let mut all_zero = true;
    let mut k: usize = 0;
    while k < n
        invariant
            n == s@.len(),
            0 <= k <= n,
            forall|i: int| 0 <= i < k ==> is_ascii_digit(#[trigger] s@[i]) || s@[i] == DECIMAL_POINT,
            seen_dot == exists|i: int| 0 <= i < k && s@[i] == DECIMAL_POINT,
            forall|i: int, j: int|
                0 <= i < j < k ==> !(#[trigger] s@[i] == DECIMAL_POINT && #[trigger] s@[j]
                    == DECIMAL_POINT),
            seen_digit == exists|i: int| 0 <= i < k && is_ascii_digit(#[trigger] s@[i]),
            all_zero == forall|i: int|
                0 <= i < k && is_ascii_digit(#[trigger] s@[i]) ==> s@[i] == DIGIT_ZERO,
        decreases n - k,
    {
        let b = s[k];
        if DIGIT_ZERO <= b && b <= DIGIT_NINE {
            seen_digit = true;
            if b != DIGIT_ZERO {
                all_zero = false;
            }
        } else if b == DECIMAL_POINT {
            if seen_dot {
                return None;
            }
            seen_dot = true;
        } else {
            return None;
        }
        k += 1;
    }
    if seen_digit {
        Some(all_zero)
    } else {
        None
    }
}

/// The bytes with leading and trailing ASCII whitespace removed.
pub open spec fn trimmed(s: Seq<u8>) -> Seq<u8>
    decreases s.len(),
{
    if s.len() > 0 && is_ascii_space(s[0]) {
        trimmed(s.drop_first())
    } else if s.len() > 0 && is_ascii_space(s[s.len() - 1]) {
        trimmed(s.drop_last())
    } else {
        s
    }
}

/// A subrange that keeps every non-whitespace byte and drops only whitespace
/// at the ends is what `trimmed` yields.
proof fn lemma_trimmed_bounds(s: Seq<u8>, lo: int, hi: int)
    requires
        0 <= lo <= hi <= s.len(),
        forall|i: int| 0 <= i < lo ==> is_ascii_space(#[trigger] s[i]),
        forall|i: int| hi <= i < s.len() ==> is_ascii_space(#[trigger] s[i]),
        lo < hi ==> !is_ascii_space(s[lo]) && !is_ascii_space(s[hi - 1]),
    ensures
        trimmed(s) == s.subrange(lo, hi),
    decreases s.len(),
{
    if s.len() == 0 {
        assert(s.subrange(lo, hi) =~= s);
    } else if lo == hi {
        assert(is_ascii_space(s[0]));
        lemma_trimmed_bounds(s.drop_first(), 0, 0);
        assert(s.drop_first().subrange(0, 0) =~= s.subrange(lo, hi));
    } else if lo > 0 {
        lemma_trimmed_bounds(s.drop_first(), lo - 1, hi - 1);
        assert(s.drop_first().subrange(lo - 1, hi - 1) =~= s.subrange(lo, hi));
    } else if hi < s.len() {
        assert(!is_ascii_space(s[0]));
        assert(is_ascii_space(s[s.len() - 1]));
        lemma_trimmed_bounds(s.drop_last(), 0, hi);
        assert(s.drop_last().subrange(0, hi) =~= s.subrange(lo, hi));
    } else {
        assert(s.subrange(lo, hi) =~= s);
    }
}

/// Whether a byte is ASCII whitespace.
fn byte_is_space(b: u8) -> (r: bool)
    ensures
        r == is_ascii_space(b),
{
    b == 32 || b == 9 || b == 10 || b == 11 || b == 12 || b == 13
}

/// Removes leading and trailing ASCII whitespace.
pub fn trim_ascii(s: &[u8]) -> (r: Vec<u8>)
    ensures
        r@ == trimmed(s@),
{
    let n = s.len();
    let mut lo: usize = 0;
    while lo < n && byte_is_space(s[lo])
        invariant
            n == s@.len(),
            0 <= lo <= n,
            forall|i: int| 0 <= i < lo ==> is_ascii_space(#[trigger] s@[i]),
        decreases n - lo,
    {
        lo += 1;
    }
    let mut hi: usize = n;
    while hi > lo && byte_is_space(s[hi - 1])
        invariant
            n == s@.len(),
            lo <= hi <= n,
            forall|i: int| hi <= i < n ==> is_ascii_space(#[trigger] s@[i]),
        decreases hi,
    {
        hi -= 1;
    }
    let mut r: Vec<u8> = Vec::new();
    let mut k: usize = lo;
    while k < hi
        invariant
            n == s@.len(),
            lo <= k <= hi <= n,
            r@ == s@.subrange(lo as int, k as int),
        decreases hi - k,
    {
        let b = s[k];
        r.push(b);
        k += 1;
        assert(r@ =~= s@.subrange(lo as int, k as int));
    }
    proof {
        lemma_trimmed_bounds(s@, lo as int, hi as int);
    }
    r
}

/// What an external command's outcome yields: its standard output when it ran
/// and exited successfully, and the error the caller reports otherwise.
pub fn command_output(outcome: CommandOutcome) -> (r: Result<Vec<u8>, MicrophoneError>)
    ensures
        outcome matches CommandOutcome::LaunchFailed(m) ==> (r matches Err(
            MicrophoneError::CommandFailed(t),
        ) && t@ == "Failed to execute osascript: "@ + m@),
        outcome matches CommandOutcome::Exited { success, stdout, stderr } ==> (if success {
            r == Ok::<Vec<u8>, MicrophoneError>(stdout)
        } else {
            r matches Err(MicrophoneError::CommandFailed(t)) && t@ == "osascript failed: "@
                + stderr@
        }),
{
    match outcome {
        CommandOutcome::LaunchFailed(m) => Err(
            MicrophoneError::CommandFailed(
                String::from_str("Failed to execute osascript: ").concat(m.as_str()),
            ),
        ),
        CommandOutcome::Exited { success, stdout, stderr } => {
            if success {
                Ok(stdout)
            } else {
                Err(
                    MicrophoneError::CommandFailed(
                        String::from_str("osascript failed: ").concat(stderr.as_str()),
                    ),
                )
            }
        },
    }
}

/// The microphone state a volume query's outcome reports: the query's trimmed
/// output must read as a decimal numeral, and the microphone is muted exactly
/// when that numeral's value is zero. A query that could not run, exited
/// nonzero, or printed anything else is an error; there is no retry.
pub fn get_microphone_state(outcome: CommandOutcome) -> (r: Result<
    MicrophoneState,
    MicrophoneError,
>)
    ensures
        outcome matches CommandOutcome::LaunchFailed(m) ==> (r matches Err(
            MicrophoneError::CommandFailed(t),
        ) && t@ == "Failed to execute osascript: "@ + m@),
        outcome matches CommandOutcome::Exited { success, stdout, stderr } ==> (if !success {
            r matches Err(MicrophoneError::CommandFailed(t)) && t@ == "osascript failed: "@
                + stderr@
        } else if is_volume_numeral(trimmed(stdout@)) {
            r == Ok::<MicrophoneState, MicrophoneError>(
                MicrophoneState { is_muted: numeral_is_zero(trimmed(stdout@)) },
            )
        } else {
            r matches Err(MicrophoneError::ParseError(t)) && t@ == "Failed to parse volume level"@
        }),
{
    match command_output(outcome) {
        Err(e) => Err(e),
        Ok(stdout) => {
            let t = trim_ascii(stdout.as_slice());
            match parse_volume_is_zero(t.as_slice()) {
                Some(zero) => Ok(MicrophoneState::new(zero)),
                None => Err(
                    MicrophoneError::ParseError(String::from_str("Failed to parse volume level")),
                ),
            }
        },
    }
}

/// The state a volume-set outcome confirms: the requested intent itself when
/// the command succeeded (the setter trusts the success exit code and does not
/// re-probe), and the command's error otherwise.
pub fn set_microphone_mute(mute: bool, outcome: CommandOutcome) -> (r: Result<
    MicrophoneState,
    MicrophoneError,
>)
    ensures
        outcome matches CommandOutcome::LaunchFailed(m) ==> (r matches Err(
            MicrophoneError::CommandFailed(t),
        ) && t@ == "Failed to execute osascript: "@ + m@),
        outcome matches CommandOutcome::Exited { success, stdout, stderr } ==> (if success {
            r == Ok::<MicrophoneState, MicrophoneError>(MicrophoneState { is_muted: mute })
        } else {
            r matches Err(MicrophoneError::CommandFailed(t)) && t@ == "osascript failed: "@
                + stderr@
        }),
{
    match command_output(outcome) {
        Err(e) => Err(e),
        Ok(_) => Ok(MicrophoneState::new(mute)),
    }
}

/// The query that reads the input volume.
pub fn probe_script() -> (r: &'static str)
    ensures
        r@ == "input volume of (get volume settings)"@,
{
    "input volume of (get volume settings)"
}

/// The volume level a mute flag is written as: `0` mutes; unmuting resets the
/// input to the fixed default `50`, not to the volume before muting.
pub open spec fn spec_volume_level(mute: bool) -> Seq<char> {
    if mute {
        "0"@
    } else {
        "50"@
    }
}

/// The volume level text for a mute flag.
pub fn volume_level(mute: bool) -> (r: &'static str)
    ensures
        r@ == spec_volume_level(mute),
{
    if mute {
        "0"
    } else {
        "50"
    }
}

/// The command that sets the input volume for a mute flag.
pub fn set_volume_script(mute: bool) -> (r: String)
    ensures
        r@ == "set volume input volume "@ + spec_volume_level(mute),
{
    String::from_str("set volume input volume ").concat(volume_level(mute))
}

/// The bytes a volume query's output holds when it reads back exactly the
/// level text of a mute flag.
pub open spec fn level_bytes(mute: bool) -> Seq<u8> {
    if mute {
        seq![DIGIT_ZERO]
    } else {
        seq![53u8, DIGIT_ZERO]
    }
}

/// The level text of a mute flag encodes to `level_bytes` of that flag.
pub proof fn lemma_level_bytes(mute: bool)
    ensures
        encode_utf8(spec_volume_level(mute)) == level_bytes(mute),
{
    reveal_strlit("0");
    reveal_strlit("50");
    assert(is_ascii_chars(spec_volume_level(mute)));
    is_ascii_chars_encode_utf8(spec_volume_level(mute));
    assert(encode_utf8(spec_volume_level(mute)) =~= level_bytes(mute));
}

/// Setting the level for `mute` and then probing a reading that reports back
/// exactly the level just written yields `is_muted == mute`.
pub proof fn lemma_set_then_probe(mute: bool, reading: Seq<u8>)
    requires
        reading == encode_utf8(spec_volume_level(mute)),
    ensures
        trimmed(reading) == reading,
        is_volume_numeral(reading),
        numeral_is_zero(reading) == mute,
{
    lemma_level_bytes(mute);
    assert(is_ascii_digit(reading[0]));
    if !mute {
        assert(is_ascii_digit(reading[0]) && reading[0] != DIGIT_ZERO);
    }
}

} // verus!
