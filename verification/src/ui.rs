use vstd::prelude::*;

use crate::config::Config;
use crate::scroll::state::ScrollState;

verus! {

/// Tag of the trackpad switch.
pub const TAG_TRACKPAD: i64 = 1;
/// Tag of the mouse switch.
pub const TAG_MOUSE: i64 = 2;
/// Tag of the start-at-login checkbox.
pub const TAG_LOGIN: i64 = 3;
/// Tag of the button that opens the accessibility settings.
pub const TAG_OPEN_ACCESS: i64 = 4;
/// Tag of the button that checks the accessibility permission again.
pub const TAG_RECHECK: i64 = 5;

/// Control state of a switch or checkbox that is off.
pub const STATE_OFF: i64 = 0;
/// Control state of a switch or checkbox that is on.
pub const STATE_ON: i64 = 1;

/// What a click on one of the window's controls asks for.
#[derive(Debug, Clone, Copy, PartialEq, Eq, Structural)]
pub enum UiAction {
    SetTrackpadNatural(bool),
    SetMouseNatural(bool),
    SetLoginAtStart(bool),
    OpenAccessibility,
    Recheck,
    /// A control the window does not know.
    Unknown,
}

/// The action for a click on the control tagged `tag` whose state is now
/// `control_state`; a control counts as on only in the on state.
pub open spec fn action_spec(tag: i64, control_state: i64) -> UiAction {
    let on = control_state == STATE_ON;
    if tag == TAG_TRACKPAD {
        UiAction::SetTrackpadNatural(on)
    } else if tag == TAG_MOUSE {
        UiAction::SetMouseNatural(on)
    } else if tag == TAG_LOGIN {
        UiAction::SetLoginAtStart(on)
    } else if tag == TAG_OPEN_ACCESS {
        UiAction::OpenAccessibility
    } else if tag == TAG_RECHECK {
        UiAction::Recheck
    } else {
        UiAction::Unknown
    }
}

/// Reads a click on the control tagged `tag` whose state is now `control_state`.
pub fn action_for(tag: i64, control_state: i64) -> (r: UiAction)
    ensures
        r == action_spec(tag, control_state),
        tag == 1 ==> r == UiAction::SetTrackpadNatural(control_state == 1),
        tag == 2 ==> r == UiAction::SetMouseNatural(control_state == 1),
        tag == 3 ==> r == UiAction::SetLoginAtStart(control_state == 1),
        tag == 4 ==> r == UiAction::OpenAccessibility,
        tag == 5 ==> r == UiAction::Recheck,
        tag < 1 || tag > 5 ==> r == UiAction::Unknown,
{
    let on = control_state == STATE_ON;
    if tag == TAG_TRACKPAD {
        UiAction::SetTrackpadNatural(on)
    } else if tag == TAG_MOUSE {
        UiAction::SetMouseNatural(on)
    } else if tag == TAG_LOGIN {
        UiAction::SetLoginAtStart(on)
    } else if tag == TAG_OPEN_ACCESS {
        UiAction::OpenAccessibility
    } else if tag == TAG_RECHECK {
        UiAction::Recheck
    } else {
        UiAction::Unknown
    }
}

/// The control state that shows `on`.
pub fn control_state(on: bool) -> (r: i64)
    ensures
        r == (if on { STATE_ON } else { STATE_OFF }),
        on ==> r == 1,
        !on ==> r == 0,
{
    if on {
        STATE_ON
    } else {
        STATE_OFF
    }
}

/// The saved settings after `action`: a switch or the checkbox sets its own
/// setting, and nothing else changes.
pub open spec fn config_after(cfg: Config, action: UiAction) -> Config {
    match action {
        UiAction::SetTrackpadNatural(on) => Config { trackpad_natural: on, ..cfg },
        UiAction::SetMouseNatural(on) => Config { mouse_natural: on, ..cfg },
        UiAction::SetLoginAtStart(on) => Config { login_at_start: on, ..cfg },
        _ => cfg,
    }
}

/// The live toggles after `action`: a device switch sets its device's toggle,
/// and nothing else changes.
pub open spec fn state_after(state: ScrollState, action: UiAction) -> ScrollState {
    match action {
        UiAction::SetTrackpadNatural(on) => ScrollState { trackpad_natural: on, ..state },
        UiAction::SetMouseNatural(on) => ScrollState { mouse_natural: on, ..state },
        _ => state,
    }
}

/// Whether `action` changes the saved settings, which are then written back.
pub open spec fn saves_config_spec(action: UiAction) -> bool {
    action is SetTrackpadNatural || action is SetMouseNatural || action is SetLoginAtStart
}

impl Config {
    /// Records `action` in the settings.
    pub fn apply_action(&mut self, action: UiAction)
        ensures
            *final(self) == config_after(*old(self), action),
            final(self).trackpad_natural == (match action {
                UiAction::SetTrackpadNatural(on) => on,
                _ => old(self).trackpad_natural,
            }),
            final(self).mouse_natural == (match action {
                UiAction::SetMouseNatural(on) => on,
                _ => old(self).mouse_natural,
            }),
            final(self).login_at_start == (match action {
                UiAction::SetLoginAtStart(on) => on,
                _ => old(self).login_at_start,
            }),
    {
        match action {
            UiAction::SetTrackpadNatural(on) => self.trackpad_natural = on,
            UiAction::SetMouseNatural(on) => self.mouse_natural = on,
            UiAction::SetLoginAtStart(on) => self.login_at_start = on,
            _ => {},
        }
    }
}

impl ScrollState {
    /// Records `action` in the live toggles.
    pub fn apply_action(&mut self, action: UiAction)
        ensures
            *final(self) == state_after(*old(self), action),
            final(self).trackpad_natural == (match action {
                UiAction::SetTrackpadNatural(on) => on,
                _ => old(self).trackpad_natural,
            }),
            final(self).mouse_natural == (match action {
                UiAction::SetMouseNatural(on) => on,
                _ => old(self).mouse_natural,
            }),
            final(self).system_natural == old(self).system_natural,
    {
        match action {
            UiAction::SetTrackpadNatural(on) => self.trackpad_natural = on,
            UiAction::SetMouseNatural(on) => self.mouse_natural = on,
            _ => {},
        }
    }
}

/// Whether `action` changes the saved settings.
pub fn saves_config(action: UiAction) -> (r: bool)
    ensures
        r == saves_config_spec(action),
        action matches UiAction::SetTrackpadNatural(_) ==> r,
        action matches UiAction::SetMouseNatural(_) ==> r,
        action matches UiAction::SetLoginAtStart(_) ==> r,
        action == UiAction::OpenAccessibility ==> !r,
        action == UiAction::Recheck ==> !r,
        action == UiAction::Unknown ==> !r,
{
    match action {
        UiAction::SetTrackpadNatural(_) | UiAction::SetMouseNatural(_) | UiAction::SetLoginAtStart(
            _,
        ) => true,
        _ => false,
    }
}

/// Each control's click asks for its own change: a switch or the checkbox
/// sets its own setting to whether it is now on (state 1), and leaves the
/// other settings and the system toggle as they were.
pub proof fn lemma_click_sets_own_setting(
    cfg: Config,
    state: ScrollState,
    tag: i64,
    control_state: i64,
)
    ensures
        tag == 1 ==> config_after(cfg, action_spec(tag, control_state)) == (Config {
            trackpad_natural: control_state == 1,
            ..cfg
        }) && state_after(state, action_spec(tag, control_state)) == (ScrollState {
            trackpad_natural: control_state == 1,
            ..state
        }),
        tag == 2 ==> config_after(cfg, action_spec(tag, control_state)) == (Config {
            mouse_natural: control_state == 1,
            ..cfg
        }) && state_after(state, action_spec(tag, control_state)) == (ScrollState {
            mouse_natural: control_state == 1,
            ..state
        }),
        tag == 3 ==> config_after(cfg, action_spec(tag, control_state)) == (Config {
            login_at_start: control_state == 1,
            ..cfg
        }) && state_after(state, action_spec(tag, control_state)) == state,
        !(1 <= tag <= 3) ==> config_after(cfg, action_spec(tag, control_state)) == cfg
            && state_after(state, action_spec(tag, control_state)) == state,
{
}

/// Every change of a switch or of the checkbox is saved, whichever way it goes;
/// the buttons and unknown controls save nothing.
pub proof fn lemma_every_setting_change_is_saved(on: bool)
    ensures
        saves_config_spec(UiAction::SetTrackpadNatural(on)),
        saves_config_spec(UiAction::SetMouseNatural(on)),
        saves_config_spec(UiAction::SetLoginAtStart(on)),
        !saves_config_spec(UiAction::OpenAccessibility),
        !saves_config_spec(UiAction::Recheck),
        !saves_config_spec(UiAction::Unknown),
{
}

/// On a recheck, the tap is started when the permission is now granted and
/// no tap runs yet.
pub fn recheck_starts_tap(trusted: bool, tap_running: bool) -> (r: bool)
    ensures
        r == (trusted && !tap_running),
{
    trusted && !tap_running
}

/// On a recheck, the missing-permission banner is hidden (and the window laid
/// out again) when the permission is granted, a tap now runs, and the banner
/// exists.
pub fn recheck_hides_banner(trusted: bool, tap_running: bool, banner_present: bool) -> (r: bool)
    ensures
        r == (trusted && tap_running && banner_present),
{
    trusted && tap_running && banner_present
}

/// A click keeps the live toggles and the saved settings in step: if they
/// agree on both devices before, they agree after, and a switch's new value is
/// the one shown on it.
pub proof fn lemma_action_keeps_toggles_in_step(
    state: ScrollState,
    cfg: Config,
    tag: i64,
    control_state: i64,
)
    requires
        state.trackpad_natural == cfg.trackpad_natural,
        state.mouse_natural == cfg.mouse_natural,
    ensures
        state_after(state, action_spec(tag, control_state)).trackpad_natural == config_after(
            cfg,
            action_spec(tag, control_state),
        ).trackpad_natural,
        state_after(state, action_spec(tag, control_state)).mouse_natural == config_after(
            cfg,
            action_spec(tag, control_state),
        ).mouse_natural,
        state_after(state, action_spec(tag, control_state)).system_natural == state.system_natural,
        tag == TAG_TRACKPAD ==> config_after(cfg, action_spec(tag, control_state)).trackpad_natural
            == (control_state == STATE_ON),
        tag == TAG_MOUSE ==> config_after(cfg, action_spec(tag, control_state)).mouse_natural == (
        control_state == STATE_ON),
{
}

} // verus!
