use vstd::prelude::*;

verus! {

/// Which transport commands the control surface offers to the user.
#[derive(Clone, Copy, Debug, PartialEq, Eq, Structural)]
pub struct SMTCConfig {
    pub play_enabled: bool,
    pub pause_enabled: bool,
    pub next_enabled: bool,
    pub prev_enabled: bool,
    pub fast_forward_enabled: bool,
    pub rewind_enabled: bool,
    pub stop_enabled: bool,
}

/// One capability flag of the transport controls.
#[derive(Clone, Copy, Debug, PartialEq, Eq, Structural)]
pub enum Capability {
    Play,
    Pause,
    Next,
    Previous,
    FastForward,
    Rewind,
    Stop,
}

/// The value of one flag in a configuration.
pub open spec fn config_flag(c: SMTCConfig, cap: Capability) -> bool {
    match cap {
        Capability::Play => c.play_enabled,
        Capability::Pause => c.pause_enabled,
        Capability::Next => c.next_enabled,
        Capability::Previous => c.prev_enabled,
        Capability::FastForward => c.fast_forward_enabled,
        Capability::Rewind => c.rewind_enabled,
        Capability::Stop => c.stop_enabled,
    }
}

/// The configuration with one flag replaced.
pub open spec fn with_flag(c: SMTCConfig, cap: Capability, on: bool) -> SMTCConfig {
    match cap {
        Capability::Play => SMTCConfig { play_enabled: on, ..c },
        Capability::Pause => SMTCConfig { pause_enabled: on, ..c },
        Capability::Next => SMTCConfig { next_enabled: on, ..c },
        Capability::Previous => SMTCConfig { prev_enabled: on, ..c },
        Capability::FastForward => SMTCConfig { fast_forward_enabled: on, ..c },
        Capability::Rewind => SMTCConfig { rewind_enabled: on, ..c },
        Capability::Stop => SMTCConfig { stop_enabled: on, ..c },
    }
}

impl SMTCConfig {
    /// Sets one flag, leaving the others as they are.
    pub fn set_flag(&mut self, cap: Capability, on: bool)
        ensures
            *final(self) == with_flag(*old(self), cap, on),
    {
        match cap {
            Capability::Play => self.play_enabled = on,
            Capability::Pause => self.pause_enabled = on,
            Capability::Next => self.next_enabled = on,
            Capability::Previous => self.prev_enabled = on,
            Capability::FastForward => self.fast_forward_enabled = on,
            Capability::Rewind => self.rewind_enabled = on,
            Capability::Stop => self.stop_enabled = on,
        }
    }
}

} // verus!
