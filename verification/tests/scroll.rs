use macuse::config::Config;
use macuse::scroll::classify::is_trackpad;
use macuse::scroll::tap::{TapAction, TapEventKind, TapMonitor, LOGGED_SCROLL_EVENTS};
use macuse::scroll::transform::{apply, invert, invert_int, plan, InversionPlan, ScrollEvent};
use macuse::scroll::ScrollState;

fn trackpad_event() -> ScrollEvent {
    ScrollEvent {
        is_continuous: 1,
        delta_axis_1: 3,
        delta_axis_2: -1,
        point_delta_axis_1: 12,
        point_delta_axis_2: -4,
    }
}

fn mouse_event() -> ScrollEvent {
    ScrollEvent {
        is_continuous: 0,
        delta_axis_1: -2,
        delta_axis_2: 1,
        point_delta_axis_1: -20,
        point_delta_axis_2: 0,
    }
}

fn state(trackpad: bool, mouse: bool, system: bool) -> ScrollState {
    ScrollState { trackpad_natural: trackpad, mouse_natural: mouse, system_natural: system }
}

const NONE: InversionPlan = InversionPlan { line: false, point: false, fixed: false };
const TRACKPAD: InversionPlan = InversionPlan { line: false, point: true, fixed: true };
const MOUSE: InversionPlan = InversionPlan { line: true, point: false, fixed: false };

#[test]
fn from_config_and_snapshot() {
    let cfg = Config { trackpad_natural: true, mouse_natural: false, login_at_start: true };
    let s = ScrollState::from_config(&cfg, true);
    assert_eq!(s.snapshot(), (true, false, true));
}

#[test]
fn refresh_system_keeps_user_toggles() {
    let mut s = state(false, true, true);
    s.refresh_system(false);
    assert_eq!(s.snapshot(), (false, true, false));
}

#[test]
fn continuous_events_are_trackpad() {
    assert!(is_trackpad(&trackpad_event()));
    assert!(!is_trackpad(&mouse_event()));
    let mut e = mouse_event();
    e.is_continuous = -7;
    assert!(is_trackpad(&e));
}

#[test]
fn invert_int_values() {
    assert_eq!(invert_int(5), -5);
    assert_eq!(invert_int(-5), 5);
    assert_eq!(invert_int(0), 0);
    assert_eq!(invert_int(i64::MAX), -i64::MAX);
    assert_eq!(invert_int(i64::MIN), i64::MIN);
}

#[test]
fn matching_choice_passes_through() {
    // Trackpad natural, system natural: nothing to do.
    let s = state(true, false, true);
    let mut e = trackpad_event();
    assert_eq!(apply(&s, &mut e), NONE);
    assert_eq!(e, trackpad_event());
    // Mouse traditional, system traditional: nothing to do.
    let s = state(true, false, false);
    let mut e = mouse_event();
    assert_eq!(apply(&s, &mut e), NONE);
    assert_eq!(e, mouse_event());
}

#[test]
fn mouse_event_inverted_when_choice_differs() {
    // The usual setup: trackpad natural, mouse traditional, system natural.
    let s = state(true, false, true);
    let mut e = mouse_event();
    assert_eq!(apply(&s, &mut e), MOUSE);
    assert_eq!(
        e,
        ScrollEvent {
            is_continuous: 0,
            delta_axis_1: 2,
            delta_axis_2: -1,
            point_delta_axis_1: -20,
            point_delta_axis_2: 0,
        }
    );
    // The trackpad is left alone under the same setup.
    let mut t = trackpad_event();
    assert_eq!(apply(&s, &mut t), NONE);
    assert_eq!(t, trackpad_event());
}

#[test]
fn trackpad_event_inverts_pixel_deltas_only() {
    let s = state(false, true, true);
    let mut e = trackpad_event();
    assert_eq!(apply(&s, &mut e), TRACKPAD);
    assert_eq!(
        e,
        ScrollEvent {
            is_continuous: 1,
            delta_axis_1: 3,
            delta_axis_2: -1,
            point_delta_axis_1: -12,
            point_delta_axis_2: 4,
        }
    );
}

#[test]
fn applying_twice_restores_the_event() {
    for (t, m, sys) in [(true, false, true), (false, true, true), (true, true, false)] {
        let s = state(t, m, sys);
        for original in [trackpad_event(), mouse_event()] {
            let mut e = original;
            apply(&s, &mut e);
            apply(&s, &mut e);
            assert_eq!(e, original);
        }
    }
}

#[test]
fn toggles_are_independent() {
    let mut e1 = mouse_event();
    let mut e2 = mouse_event();
    apply(&state(true, false, true), &mut e1);
    apply(&state(false, false, true), &mut e2);
    assert_eq!(e1, e2);
    let mut t1 = trackpad_event();
    let mut t2 = trackpad_event();
    apply(&state(false, true, true), &mut t1);
    apply(&state(false, false, true), &mut t2);
    assert_eq!(t1, t2);
}

#[test]
fn direction_follows_choice_under_either_system_setting() {
    for sys in [true, false] {
        for want in [true, false] {
            let s = state(want, want, sys);
            let p = plan(&s, true);
            assert_eq!(sys != p.point, want);
            let p = plan(&s, false);
            assert_eq!(sys != p.line, want);
            assert!(!p.point && !p.fixed);
        }
    }
}

#[test]
fn invert_follows_plan() {
    let mut e = mouse_event();
    invert(&mut e, InversionPlan { line: true, point: false, fixed: false });
    assert_eq!(e.delta_axis_1, 2);
    assert_eq!(e.point_delta_axis_1, -20);
}

#[test]
fn tap_counts_and_logs_first_scroll_events() {
    let mut m = TapMonitor::new();
    assert_eq!(m.on_event(TapEventKind::ScrollWheel), TapAction::TransformLogged(0));
    assert_eq!(m.on_event(TapEventKind::ScrollWheel), TapAction::TransformLogged(1));
    assert_eq!(m.scroll_events, 2);
    m.scroll_events = LOGGED_SCROLL_EVENTS - 1;
    assert_eq!(m.on_event(TapEventKind::ScrollWheel), TapAction::TransformLogged(199));
    assert_eq!(m.on_event(TapEventKind::ScrollWheel), TapAction::Transform);
    assert_eq!(m.scroll_events, 201);
}

#[test]
fn tap_counter_wraps() {
    let mut m = TapMonitor { port: 0, scroll_events: u32::MAX };
    assert_eq!(m.on_event(TapEventKind::ScrollWheel), TapAction::Transform);
    assert_eq!(m.scroll_events, 0);
}

#[test]
fn disabled_tap_is_reenabled_once_port_known() {
    let mut m = TapMonitor::new();
    assert_eq!(m.on_event(TapEventKind::DisabledByTimeout), TapAction::Ignore);
    m.register_port(0x1234);
    assert_eq!(m.on_event(TapEventKind::DisabledByTimeout), TapAction::Reenable(0x1234));
    assert_eq!(m.on_event(TapEventKind::DisabledByUserInput), TapAction::Reenable(0x1234));
    assert_eq!(m.on_event(TapEventKind::Other), TapAction::Ignore);
    assert_eq!(m.scroll_events, 0);
}
