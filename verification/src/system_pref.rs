use vstd::prelude::*;

verus! {

/// The preference key that holds the system-wide scroll direction.
pub const NATURAL_SCROLLING_KEY: &'static str = "com.apple.swipescrolldirection";

/// What the preference store held under the scroll-direction key.
#[derive(Debug, Clone, Copy, PartialEq, Eq, Structural)]
pub enum PreferenceValue {
    /// No value is set.
    Missing,
    /// A boolean value.
    Boolean(bool),
    /// A number, with its value when it reads as a 64-bit integer.
    Number(Option<i64>),
    /// A value of any other type.
    Other,
}

/// Natural scrolling is on unless the preference says otherwise: a boolean
/// says it directly, an integer is on when nonzero, and anything else, or no
/// value at all, leaves the system default (on).
pub open spec fn natural_scrolling_spec(value: PreferenceValue) -> bool {
    match value {
        PreferenceValue::Boolean(b) => b,
        PreferenceValue::Number(Some(n)) => n != 0,
        _ => true,
    }
}

/// Natural scrolling is off exactly when the preference holds `false` or the
/// integer 0.
pub proof fn lemma_off_only_when_stored_off(value: PreferenceValue)
    ensures
        !natural_scrolling_spec(value) <==> (value == PreferenceValue::Boolean(false) || value
            == PreferenceValue::Number(Some(0))),
{
}

/// Whether natural scrolling is on, given what the preference store held.
pub fn natural_scrolling_from(value: PreferenceValue) -> (r: bool)
    ensures
        r == natural_scrolling_spec(value),
        value matches PreferenceValue::Boolean(b) ==> r == b,
        value matches PreferenceValue::Number(Some(n)) ==> r == (n != 0),
        value == PreferenceValue::Number(None) ==> r,
        value == PreferenceValue::Missing ==> r,
        value == PreferenceValue::Other ==> r,
{
    match value {
        PreferenceValue::Missing => true,
        PreferenceValue::Boolean(b) => b,
        PreferenceValue::Number(n) => match n {
            Some(v) => v != 0,
            None => true,
        },
        PreferenceValue::Other => true,
    }
}

} // verus!
