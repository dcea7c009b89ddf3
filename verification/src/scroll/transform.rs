use vstd::prelude::*;

use super::classify::{is_trackpad, is_trackpad_event};
use super::state::ScrollState;

verus! {

/// The integer fields of a scroll-wheel event that the inversion reads or
/// writes: the continuous flag, the line deltas and the pixel deltas, each
/// for the vertical (axis 1) and horizontal (axis 2) axis.
#[derive(Debug, Clone, Copy, PartialEq, Eq, Structural)]
pub struct ScrollEvent {
    pub is_continuous: i64,
    pub delta_axis_1: i64,
    pub delta_axis_2: i64,
    pub point_delta_axis_1: i64,
    pub point_delta_axis_2: i64,
}

/// Which groups of deltas an event has inverted: the line deltas, the pixel
/// deltas, and the fixed-point deltas (the latter are fractional and are
/// negated by the caller that holds them).
#[derive(Debug, Clone, Copy, PartialEq, Eq, Structural)]
pub struct InversionPlan {
    pub line: bool,
    pub point: bool,
    pub fixed: bool,
}

/// A delta with its sign flipped; the one value without a positive
/// counterpart is left as it is, as a two's-complement negation leaves it.
pub open spec fn negated(v: i64) -> i64 {
    if v == i64::MIN {
        v
    } else {
        (-v) as i64
    }
}

/// What the user asked for on the device that sent the event.
pub open spec fn user_wants_natural(state: ScrollState, trackpad: bool) -> bool {
    if trackpad {
        state.trackpad_natural
    } else {
        state.mouse_natural
    }
}

/// An event is inverted exactly when the user's choice for its device differs
/// from the system-wide setting, which has already been applied to it.
pub open spec fn needs_inversion(state: ScrollState, trackpad: bool) -> bool {
    user_wants_natural(state, trackpad) != state.system_natural
}

/// The plan for an event: nothing when no inversion is needed; the pixel and
/// fixed-point deltas of a trackpad event (its line delta is left alone); only
/// the line deltas of a mouse event (its pixel and fixed-point deltas are
/// usually zero for a wheel and are left alone).
pub open spec fn plan_for(state: ScrollState, trackpad: bool) -> InversionPlan {
    if !needs_inversion(state, trackpad) {
        InversionPlan { line: false, point: false, fixed: false }
    } else if trackpad {
        InversionPlan { line: false, point: true, fixed: true }
    } else {
        InversionPlan { line: true, point: false, fixed: false }
    }
}

/// `event` with the deltas that `plan` names negated.
pub open spec fn inverted(event: ScrollEvent, plan: InversionPlan) -> ScrollEvent {
    ScrollEvent {
        is_continuous: event.is_continuous,
        delta_axis_1: if plan.line { negated(event.delta_axis_1) } else { event.delta_axis_1 },
        delta_axis_2: if plan.line { negated(event.delta_axis_2) } else { event.delta_axis_2 },
        point_delta_axis_1: if plan.point {
            negated(event.point_delta_axis_1)
        } else {
            event.point_delta_axis_1
        },
        point_delta_axis_2: if plan.point {
            negated(event.point_delta_axis_2)
        } else {
            event.point_delta_axis_2
        },
    }
}

/// The plan that `state` gives for `event`.
pub open spec fn event_plan(state: ScrollState, event: ScrollEvent) -> InversionPlan {
    plan_for(state, is_trackpad_event(event))
}

/// `event` as it leaves the tap under `state`.
pub open spec fn applied(state: ScrollState, event: ScrollEvent) -> ScrollEvent {
    inverted(event, event_plan(state, event))
}

/// Flips the sign of one delta.
pub fn invert_int(v: i64) -> (r: i64)
    ensures
        r == negated(v),
        v != i64::MIN ==> r == -v,
        v == i64::MIN ==> r == v,
{
    if v == i64::MIN {
        v
    } else {
        -v
    }
}

/// The plan for an event from a trackpad (`trackpad`) or a mouse under `state`.
pub fn plan(state: &ScrollState, trackpad: bool) -> (r: InversionPlan)
    ensures
        r == plan_for(*state, trackpad),
        r.line == (!trackpad && state.mouse_natural != state.system_natural),
        r.point == (trackpad && state.trackpad_natural != state.system_natural),
        r.fixed == r.point,
{
    let (trackpad_natural, mouse_natural, system_natural) = state.snapshot();
    let user_wants_natural = if trackpad {
        trackpad_natural
    } else {
        mouse_natural
    };
    if user_wants_natural == system_natural {
        InversionPlan { line: false, point: false, fixed: false }
    } else if trackpad {
        InversionPlan { line: false, point: true, fixed: true }
    } else {
        InversionPlan { line: true, point: false, fixed: false }
    }
}

/// Negates in `event` the deltas that `plan` names.
pub fn invert(event: &mut ScrollEvent, plan: InversionPlan)
    ensures
        *final(event) == inverted(*old(event), plan),
        final(event).is_continuous == old(event).is_continuous,
        final(event).delta_axis_1 == (if plan.line && old(event).delta_axis_1 != i64::MIN {
            -old(event).delta_axis_1
        } else {
            old(event).delta_axis_1 as int
        }),
        final(event).delta_axis_2 == (if plan.line && old(event).delta_axis_2 != i64::MIN {
            -old(event).delta_axis_2
        } else {
            old(event).delta_axis_2 as int
        }),
        final(event).point_delta_axis_1 == (if plan.point && old(event).point_delta_axis_1
            != i64::MIN {
            -old(event).point_delta_axis_1
        } else {
            old(event).point_delta_axis_1 as int
        }),
        final(event).point_delta_axis_2 == (if plan.point && old(event).point_delta_axis_2
            != i64::MIN {
            -old(event).point_delta_axis_2
        } else {
            old(event).point_delta_axis_2 as int
        }),
{
    if plan.line {
        event.delta_axis_1 = invert_int(event.delta_axis_1);
        event.delta_axis_2 = invert_int(event.delta_axis_2);
    }
    if plan.point {
        event.point_delta_axis_1 = invert_int(event.point_delta_axis_1);
        event.point_delta_axis_2 = invert_int(event.point_delta_axis_2);
    }
}

/// Decides whether to invert `event` and inverts it in place. The returned
/// plan says, among the rest, whether the fixed-point deltas are to be negated.
pub fn apply(state: &ScrollState, event: &mut ScrollEvent) -> (r: InversionPlan)
    ensures
        r == event_plan(*state, *old(event)),
        *final(event) == applied(*state, *old(event)),
        r.line == (old(event).is_continuous == 0 && state.mouse_natural != state.system_natural),
        r.point == (old(event).is_continuous != 0 && state.trackpad_natural
            != state.system_natural),
        r.fixed == r.point,
        final(event).is_continuous == old(event).is_continuous,
        final(event).delta_axis_1 == (if r.line && old(event).delta_axis_1 != i64::MIN {
            -old(event).delta_axis_1
        } else {
            old(event).delta_axis_1 as int
        }),
        final(event).delta_axis_2 == (if r.line && old(event).delta_axis_2 != i64::MIN {
            -old(event).delta_axis_2
        } else {
            old(event).delta_axis_2 as int
        }),
        final(event).point_delta_axis_1 == (if r.point && old(event).point_delta_axis_1
            != i64::MIN {
            -old(event).point_delta_axis_1
        } else {
            old(event).point_delta_axis_1 as int
        }),
        final(event).point_delta_axis_2 == (if r.point && old(event).point_delta_axis_2
            != i64::MIN {
            -old(event).point_delta_axis_2
        } else {
            old(event).point_delta_axis_2 as int
        }),
{
    let trackpad = is_trackpad(event);
    let p = plan(state, trackpad);
    invert(event, p);
    p
}

/// Each delta that a plan names is negated on its own, whatever the other
/// deltas hold, and each delta it does not name is kept.
pub proof fn lemma_inverted_negates_each_delta(event: ScrollEvent, plan: InversionPlan)
    ensures
        inverted(event, plan).is_continuous == event.is_continuous,
        inverted(event, plan).delta_axis_1 == (if plan.line && event.delta_axis_1 != i64::MIN {
            -event.delta_axis_1
        } else {
            event.delta_axis_1 as int
        }),
        inverted(event, plan).delta_axis_2 == (if plan.line && event.delta_axis_2 != i64::MIN {
            -event.delta_axis_2
        } else {
            event.delta_axis_2 as int
        }),
        inverted(event, plan).point_delta_axis_1 == (if plan.point && event.point_delta_axis_1
            != i64::MIN {
            -event.point_delta_axis_1
        } else {
            event.point_delta_axis_1 as int
        }),
        inverted(event, plan).point_delta_axis_2 == (if plan.point && event.point_delta_axis_2
            != i64::MIN {
            -event.point_delta_axis_2
        } else {
            event.point_delta_axis_2 as int
        }),
{
}

/// What the tap does to an event, by device: a mouse event (continuous flag 0)
/// whose toggle differs from the system setting has both line deltas negated
/// and its pixel deltas kept; a trackpad event (any other flag) whose toggle
/// differs has both pixel deltas negated (and its fixed-point ones, by the
/// plan) and its line deltas kept; any other event is kept as it is.
pub proof fn lemma_applied_per_device(state: ScrollState, event: ScrollEvent)
    ensures
        event.is_continuous == 0 && state.mouse_natural != state.system_natural ==> {
            &&& applied(state, event).delta_axis_1 == (if event.delta_axis_1 != i64::MIN {
                -event.delta_axis_1
            } else {
                event.delta_axis_1 as int
            })
            &&& applied(state, event).delta_axis_2 == (if event.delta_axis_2 != i64::MIN {
                -event.delta_axis_2
            } else {
                event.delta_axis_2 as int
            })
            &&& applied(state, event).point_delta_axis_1 == event.point_delta_axis_1
            &&& applied(state, event).point_delta_axis_2 == event.point_delta_axis_2
            &&& event_plan(state, event) == (InversionPlan {
                line: true,
                point: false,
                fixed: false,
            })
        },
        event.is_continuous != 0 && state.trackpad_natural != state.system_natural ==> {
            &&& applied(state, event).point_delta_axis_1 == (if event.point_delta_axis_1
                != i64::MIN {
                -event.point_delta_axis_1
            } else {
                event.point_delta_axis_1 as int
            })
            &&& applied(state, event).point_delta_axis_2 == (if event.point_delta_axis_2
                != i64::MIN {
                -event.point_delta_axis_2
            } else {
                event.point_delta_axis_2 as int
            })
            &&& applied(state, event).delta_axis_1 == event.delta_axis_1
            &&& applied(state, event).delta_axis_2 == event.delta_axis_2
            &&& event_plan(state, event) == (InversionPlan {
                line: false,
                point: true,
                fixed: true,
            })
        },
        (event.is_continuous == 0 && state.mouse_natural == state.system_natural) || (
        event.is_continuous != 0 && state.trackpad_natural == state.system_natural) ==> {
            &&& applied(state, event) == event
            &&& event_plan(state, event) == (InversionPlan {
                line: false,
                point: false,
                fixed: false,
            })
        },
{
}

/// Applying the tap twice under the same toggles gives back the original
/// event: the second pass classifies the event the same way and flips the
/// same deltas back.
pub proof fn lemma_apply_twice_restores(state: ScrollState, event: ScrollEvent)
    ensures
        event_plan(state, applied(state, event)) == event_plan(state, event),
        applied(state, applied(state, event)) == event,
{
}

/// When the user's choice for the device matches the system-wide setting,
/// the event passes through unchanged and nothing fixed-point is negated.
pub proof fn lemma_matching_choice_passes_through(state: ScrollState, event: ScrollEvent)
    requires
        user_wants_natural(state, is_trackpad_event(event)) == state.system_natural,
    ensures
        applied(state, event) == event,
        !event_plan(state, event).fixed,
{
}

/// A trackpad event never has its line deltas changed, and a mouse event never
/// has its pixel or fixed-point deltas changed.
pub proof fn lemma_untouched_deltas(state: ScrollState, event: ScrollEvent)
    ensures
        is_trackpad_event(event) ==> applied(state, event).delta_axis_1 == event.delta_axis_1
            && applied(state, event).delta_axis_2 == event.delta_axis_2,
        !is_trackpad_event(event) ==> applied(state, event).point_delta_axis_1
            == event.point_delta_axis_1 && applied(state, event).point_delta_axis_2
            == event.point_delta_axis_2 && !event_plan(state, event).fixed,
{
}

/// The two toggles are independent: the trackpad toggle has no effect on
/// mouse events, and the mouse toggle none on trackpad events.
pub proof fn lemma_toggles_independent(state: ScrollState, event: ScrollEvent, choice: bool)
    ensures
        !is_trackpad_event(event) ==> applied(
            ScrollState { trackpad_natural: choice, ..state },
            event,
        ) == applied(state, event) && event_plan(
            ScrollState { trackpad_natural: choice, ..state },
            event,
        ) == event_plan(state, event),
        is_trackpad_event(event) ==> applied(ScrollState { mouse_natural: choice, ..state }, event)
            == applied(state, event) && event_plan(ScrollState { mouse_natural: choice, ..state }, event)
            == event_plan(state, event),
{
}

/// Whatever the system-wide setting, the direction an event ends up with (the
/// system's, flipped when the event is inverted) is the one the user chose for
/// its device.
pub proof fn lemma_direction_follows_choice(state: ScrollState, trackpad: bool)
    ensures
        (state.system_natural != needs_inversion(state, trackpad)) == user_wants_natural(
            state,
            trackpad,
        ),
        plan_for(state, trackpad).point == (needs_inversion(state, trackpad) && trackpad),
        plan_for(state, trackpad).fixed == (needs_inversion(state, trackpad) && trackpad),
        plan_for(state, trackpad).line == (needs_inversion(state, trackpad) && !trackpad),
{
}

} // verus!
