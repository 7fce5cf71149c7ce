use vstd::prelude::*;
use crate::text::{owned, same_text};

verus! {

/// Playback status as shown by the transport-control surface.
#[derive(Clone, Copy, Debug, PartialEq, Eq, Structural)]
pub enum PlaybackStatus {
    Closed,
    Changing,
    Stopped,
    Playing,
    Paused,
}

/// The value of the native status enumeration for each status.
pub open spec fn status_code(s: PlaybackStatus) -> i32 {
    match s {
        PlaybackStatus::Closed => 0,
        PlaybackStatus::Changing => 1,
        PlaybackStatus::Stopped => 2,
        PlaybackStatus::Playing => 3,
        PlaybackStatus::Paused => 4,
    }
}

/// The native status value for `s`.
pub fn to_native_status(s: PlaybackStatus) -> (r: i32)
    ensures
        r == status_code(s),
{
    match s {
        PlaybackStatus::Closed => 0,
        PlaybackStatus::Changing => 1,
        PlaybackStatus::Stopped => 2,
        PlaybackStatus::Playing => 3,
        PlaybackStatus::Paused => 4,
    }
}

/// Distinct statuses have distinct native values.
pub proof fn lemma_status_code_injective(a: PlaybackStatus, b: PlaybackStatus)
    ensures
        status_code(a) == status_code(b) ==> a == b,
{
}

/// Auto-repeat mode of the session.
#[derive(Clone, Copy, Debug, PartialEq, Eq, Structural)]
pub enum RepeatMode {
    Off,
    Track,
    List,
}

/// The repeat mode named by a boundary string; anything unrecognised means `Off`.
pub open spec fn repeat_mode_of(s: Seq<char>) -> RepeatMode {
    if s == "track"@ {
        RepeatMode::Track
    } else if s == "list"@ {
        RepeatMode::List
    } else {
        RepeatMode::Off
    }
}

/// The boundary string of a repeat mode.
pub open spec fn repeat_token(m: RepeatMode) -> Seq<char> {
    match m {
        RepeatMode::Off => "none"@,
        RepeatMode::Track => "track"@,
        RepeatMode::List => "list"@,
    }
}

/// The value of the native auto-repeat enumeration for each mode.
pub open spec fn repeat_code(m: RepeatMode) -> i32 {
    match m {
        RepeatMode::Off => 0,
        RepeatMode::Track => 1,
        RepeatMode::List => 2,
    }
}

/// The repeat mode for a native auto-repeat value; unknown values mean no repeat.
pub open spec fn repeat_mode_of_code(code: i32) -> RepeatMode {
    if code == 1 {
        RepeatMode::Track
    } else if code == 2 {
        RepeatMode::List
    } else {
        RepeatMode::Off
    }
}

/// Maps `"none"`, `"track"` and `"list"` to their modes and any other string to `Off`.
pub fn parse_repeat_mode(s: &str) -> (r: RepeatMode)
    ensures
        r == repeat_mode_of(s@),
{
    if same_text(s, "track") {
        RepeatMode::Track
    } else if same_text(s, "list") {
        RepeatMode::List
    } else {
        RepeatMode::Off
    }
}

impl RepeatMode {
    /// The boundary string of this mode.
    pub fn token(&self) -> (r: String)
        ensures
            r@ == repeat_token(*self),
    {
        match self {
            RepeatMode::Off => owned("none"),
            RepeatMode::Track => owned("track"),
            RepeatMode::List => owned("list"),
        }
    }
}

/// The native auto-repeat value for `m`.
pub fn to_native_repeat_mode(m: RepeatMode) -> (r: i32)
    ensures
        r == repeat_code(m),
{
    match m {
        RepeatMode::Off => 0,
        RepeatMode::Track => 1,
        RepeatMode::List => 2,
    }
}

/// The repeat mode for a native auto-repeat value.
pub fn repeat_mode_from_native(code: i32) -> (r: RepeatMode)
    ensures
        r == repeat_mode_of_code(code),
{
    if code == 1 {
        RepeatMode::Track
    } else if code == 2 {
        RepeatMode::List
    } else {
        RepeatMode::Off
    }
}

/// Reading back the string of a mode gives the mode again, and so does reading back
/// its native value.
pub proof fn lemma_repeat_round_trip(m: RepeatMode)
    ensures
        repeat_mode_of(repeat_token(m)) == m,
        repeat_mode_of_code(repeat_code(m)) == m,
{
    reveal_strlit("none");
    reveal_strlit("track");
    reveal_strlit("list");
    assert("none"@.len() != "track"@.len());
    assert("none"@[0] != "list"@[0]);
    assert("track"@.len() != "list"@.len());
}

} // verus!
