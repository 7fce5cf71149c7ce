use vstd::prelude::*;
use crate::button::{button_from_native, button_of_code, button_token};
use crate::status::{repeat_mode_from_native, repeat_mode_of_code, repeat_token};
use crate::timeline::{ms_of_ticks, ticks_to_ms};

verus! {

/// `new` is `old` with one more string at its end, whose characters are `token`.
pub open spec fn emitted_text(old: Seq<String>, new: Seq<String>, token: Seq<char>) -> bool {
    &&& new.len() == old.len() + 1
    &&& new.drop_last() == old
    &&& new.last()@ == token
}

/// Handles a button press reported with a native button value: the button's token is
/// added to the sink, and nothing is added for a value that names no button.
pub fn on_button_pressed(sink: &mut Vec<String>, code: i32)
    ensures
        button_of_code(code) is None ==> final(sink)@ == old(sink)@,
        button_of_code(code) is Some ==> emitted_text(
            old(sink)@,
            final(sink)@,
            button_token(button_of_code(code)->Some_0),
        ),
{
    match button_from_native(code) {
        Some(b) => {
            sink.push(b.token());
            assert(final(sink)@.drop_last() =~= old(sink)@);
        },
        None => {},
    }
}

/// Handles a seek request for a position given in ticks: the position in whole
/// milliseconds is added to the sink.
pub fn on_position_change_requested(sink: &mut Vec<i64>, ticks: i64)
    ensures
        final(sink)@ == old(sink)@.push(ms_of_ticks(ticks)),
{
    sink.push(ticks_to_ms(ticks));
}

/// Handles a shuffle request: the requested flag is added to the sink as it is.
pub fn on_shuffle_requested(sink: &mut Vec<bool>, requested: bool)
    ensures
        final(sink)@ == old(sink)@.push(requested),
{
    sink.push(requested);
}

/// Handles a repeat-mode request given as a native value: the mode's string is added
/// to the sink, `"none"` for a value that names no mode.
pub fn on_repeat_mode_requested(sink: &mut Vec<String>, code: i32)
    ensures
        emitted_text(old(sink)@, final(sink)@, repeat_token(repeat_mode_of_code(code))),
{
    let mode = repeat_mode_from_native(code);
    sink.push(mode.token());
    assert(final(sink)@.drop_last() =~= old(sink)@);
}

/// A category of inbound transport requests, each with at most one handler.
#[derive(Clone, Copy, Debug, PartialEq, Eq, Structural)]
pub enum EventCategory {
    ButtonPressed,
    PositionChangeRequested,
    ShuffleRequested,
    RepeatModeRequested,
}

/// The native registration token of the live handler of each category.
#[derive(Clone, Copy, Debug, PartialEq, Eq, Structural)]
pub struct Registrations {
    pub button_pressed: Option<i64>,
    pub position_change_requested: Option<i64>,
    pub shuffle_requested: Option<i64>,
    pub repeat_mode_requested: Option<i64>,
}

/// The token of the live handler of a category.
pub open spec fn token_of(r: Registrations, c: EventCategory) -> Option<i64> {
    match c {
        EventCategory::ButtonPressed => r.button_pressed,
        EventCategory::PositionChangeRequested => r.position_change_requested,
        EventCategory::ShuffleRequested => r.shuffle_requested,
        EventCategory::RepeatModeRequested => r.repeat_mode_requested,
    }
}

impl Registrations {
    /// No handler registered.
    pub fn new() -> (r: Registrations)
        ensures
            forall|c: EventCategory| token_of(r, c) is None,
    {
        Registrations {
            button_pressed: None,
            position_change_requested: None,
            shuffle_requested: None,
            repeat_mode_requested: None,
        }
    }

    /// Records `token` as the live handler of `c`: the last registration wins. Returns
    /// the token of the handler it replaces, which is to be withdrawn.
    pub fn register(&mut self, c: EventCategory, token: i64) -> (r: Option<i64>)
        ensures
            r == token_of(*old(self), c),
            token_of(*final(self), c) == Some(token),
            forall|d: EventCategory| d != c ==> token_of(*final(self), d) == token_of(*old(self), d),
    {
        let slot = match c {
            EventCategory::ButtonPressed => &mut self.button_pressed,
            EventCategory::PositionChangeRequested => &mut self.position_change_requested,
            EventCategory::ShuffleRequested => &mut self.shuffle_requested,
            EventCategory::RepeatModeRequested => &mut self.repeat_mode_requested,
        };
        let previous = *slot;
        *slot = Some(token);
        previous
    }
}

} // verus!
