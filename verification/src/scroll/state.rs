use vstd::prelude::*;

use crate::config::Config;

verus! {

/// The toggles that decide each scroll event: what the user wants for the
/// trackpad and for the mouse, and what the system-wide setting is.
#[derive(Debug, Clone, Copy, PartialEq, Eq, Structural)]
pub struct ScrollState {
    pub trackpad_natural: bool,
    pub mouse_natural: bool,
    pub system_natural: bool,
}

impl ScrollState {
    /// The state for the saved settings `cfg`, with the system-wide setting
    /// as it was just read.
    pub fn from_config(cfg: &Config, system_natural: bool) -> (r: ScrollState)
        ensures
            r.trackpad_natural == cfg.trackpad_natural,
            r.mouse_natural == cfg.mouse_natural,
            r.system_natural == system_natural,
    {
        ScrollState {
            trackpad_natural: cfg.trackpad_natural,
            mouse_natural: cfg.mouse_natural,
            system_natural,
        }
    }

    /// Takes in a fresh reading of the system-wide setting; the user's
    /// toggles stay as they are.
    pub fn refresh_system(&mut self, system_natural: bool)
        ensures
            *final(self) == (ScrollState { system_natural, ..*old(self) }),
    {
        self.system_natural = system_natural;
    }

    /// The three toggles: trackpad, mouse, system.
    pub fn snapshot(&self) -> (r: (bool, bool, bool))
        ensures
            r == (self.trackpad_natural, self.mouse_natural, self.system_natural),
    {
        (self.trackpad_natural, self.mouse_natural, self.system_natural)
    }
}

} // verus!
