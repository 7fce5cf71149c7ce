use vstd::prelude::*;
use crate::text::owned;

verus! {

/// A transport button pressed on the operating system's control surface.
#[derive(Clone, Copy, Debug, PartialEq, Eq, Structural)]
pub enum TransportButton {
    Play,
    Pause,
    Stop,
    Record,
    FastForward,
    Rewind,
    Next,
    Previous,
    ChannelUp,
    ChannelDown,
}

/// The button for a value of the native button enumeration, if it names one.
pub open spec fn button_of_code(code: i32) -> Option<TransportButton> {
    if code == 0 {
        Some(TransportButton::Play)
    } else if code == 1 {
        Some(TransportButton::Pause)
    } else if code == 2 {
        Some(TransportButton::Stop)
    } else if code == 3 {
        Some(TransportButton::Record)
    } else if code == 4 {
        Some(TransportButton::FastForward)
    } else if code == 5 {
        Some(TransportButton::Rewind)
    } else if code == 6 {
        Some(TransportButton::Next)
    } else if code == 7 {
        Some(TransportButton::Previous)
    } else if code == 8 {
        Some(TransportButton::ChannelUp)
    } else if code == 9 {
        Some(TransportButton::ChannelDown)
    } else {
        None
    }
}

/// The lowercase token under which a button press is reported.
pub open spec fn button_token(b: TransportButton) -> Seq<char> {
    match b {
        TransportButton::Play => "play"@,
        TransportButton::Pause => "pause"@,
        TransportButton::Stop => "stop"@,
        TransportButton::Record => "record"@,
        TransportButton::FastForward => "fast_forward"@,
        TransportButton::Rewind => "rewind"@,
        TransportButton::Next => "next"@,
        TransportButton::Previous => "previous"@,
        TransportButton::ChannelUp => "channel_up"@,
        TransportButton::ChannelDown => "channel_down"@,
    }
}

/// The button named by a native button value; `None` for values that name no button.
pub fn button_from_native(code: i32) -> (r: Option<TransportButton>)
    ensures
        r == button_of_code(code),
{
    match code {
        0 => Some(TransportButton::Play),
        1 => Some(TransportButton::Pause),
        2 => Some(TransportButton::Stop),
        3 => Some(TransportButton::Record),
        4 => Some(TransportButton::FastForward),
        5 => Some(TransportButton::Rewind),
        6 => Some(TransportButton::Next),
        7 => Some(TransportButton::Previous),
        8 => Some(TransportButton::ChannelUp),
        9 => Some(TransportButton::ChannelDown),
        _ => None,
    }
}

impl TransportButton {
    /// The lowercase token of this button.
    pub fn token(&self) -> (r: String)
        ensures
            r@ == button_token(*self),
    {
        match self {
            TransportButton::Play => owned("play"),
            TransportButton::Pause => owned("pause"),
            TransportButton::Stop => owned("stop"),
            TransportButton::Record => owned("record"),
            TransportButton::FastForward => owned("fast_forward"),
            TransportButton::Rewind => owned("rewind"),
            TransportButton::Next => owned("next"),
            TransportButton::Previous => owned("previous"),
            TransportButton::ChannelUp => owned("channel_up"),
            TransportButton::ChannelDown => owned("channel_down"),
        }
    }
}

} // verus!
