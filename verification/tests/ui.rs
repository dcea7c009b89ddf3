use macuse::config::Config;
use macuse::scroll::ScrollState;
use macuse::ui::{
    action_for, control_state, recheck_hides_banner, recheck_starts_tap, saves_config, UiAction,
    STATE_OFF, STATE_ON, TAG_LOGIN, TAG_MOUSE, TAG_OPEN_ACCESS, TAG_RECHECK, TAG_TRACKPAD,
};

#[test]
fn actions_from_tags() {
    assert_eq!(action_for(TAG_TRACKPAD, STATE_ON), UiAction::SetTrackpadNatural(true));
    assert_eq!(action_for(TAG_TRACKPAD, STATE_OFF), UiAction::SetTrackpadNatural(false));
    assert_eq!(action_for(TAG_MOUSE, STATE_ON), UiAction::SetMouseNatural(true));
    assert_eq!(action_for(TAG_LOGIN, STATE_OFF), UiAction::SetLoginAtStart(false));
    assert_eq!(action_for(TAG_LOGIN, -1), UiAction::SetLoginAtStart(false));
    assert_eq!(action_for(TAG_OPEN_ACCESS, 0), UiAction::OpenAccessibility);
    assert_eq!(action_for(TAG_RECHECK, 0), UiAction::Recheck);
    assert_eq!(action_for(99, 1), UiAction::Unknown);
}

#[test]
fn control_states() {
    assert_eq!(control_state(true), 1);
    assert_eq!(control_state(false), 0);
}

#[test]
fn switches_update_state_and_config_together() {
    let mut cfg = Config::default();
    let mut s = ScrollState::from_config(&cfg, true);
    let a = action_for(TAG_MOUSE, STATE_ON);
    s.apply_action(a);
    cfg.apply_action(a);
    assert_eq!(s.snapshot(), (true, true, true));
    assert_eq!(cfg, Config { trackpad_natural: true, mouse_natural: true, login_at_start: false });
    let a = action_for(TAG_TRACKPAD, STATE_OFF);
    s.apply_action(a);
    cfg.apply_action(a);
    assert_eq!(s.trackpad_natural, cfg.trackpad_natural);
    assert!(!s.trackpad_natural);
}

#[test]
fn login_checkbox_changes_config_only() {
    let mut cfg = Config::default();
    let mut s = ScrollState::from_config(&cfg, false);
    let before = s;
    let a = action_for(TAG_LOGIN, STATE_ON);
    s.apply_action(a);
    cfg.apply_action(a);
    assert_eq!(s, before);
    assert!(cfg.login_at_start);
}

#[test]
fn which_actions_save() {
    assert!(saves_config(UiAction::SetTrackpadNatural(false)));
    assert!(saves_config(UiAction::SetMouseNatural(true)));
    assert!(saves_config(UiAction::SetLoginAtStart(true)));
    assert!(!saves_config(UiAction::OpenAccessibility));
    assert!(!saves_config(UiAction::Recheck));
    assert!(!saves_config(UiAction::Unknown));
}

#[test]
fn recheck_decisions() {
    assert!(recheck_starts_tap(true, false));
    assert!(!recheck_starts_tap(true, true));
    assert!(!recheck_starts_tap(false, false));
    assert!(recheck_hides_banner(true, true, true));
    assert!(!recheck_hides_banner(true, false, true));
    assert!(!recheck_hides_banner(true, true, false));
    assert!(!recheck_hides_banner(false, true, true));
}
