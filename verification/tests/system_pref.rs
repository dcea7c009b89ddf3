use macuse::system_pref::{natural_scrolling_from, PreferenceValue};

#[test]
fn missing_preference_means_natural() {
    assert!(natural_scrolling_from(PreferenceValue::Missing));
}

#[test]
fn boolean_preference_is_taken_as_is() {
    assert!(natural_scrolling_from(PreferenceValue::Boolean(true)));
    assert!(!natural_scrolling_from(PreferenceValue::Boolean(false)));
}

#[test]
fn number_preference_is_on_when_nonzero() {
    assert!(!natural_scrolling_from(PreferenceValue::Number(Some(0))));
    assert!(natural_scrolling_from(PreferenceValue::Number(Some(1))));
    assert!(natural_scrolling_from(PreferenceValue::Number(Some(-3))));
    assert!(natural_scrolling_from(PreferenceValue::Number(None)));
}

#[test]
fn other_preference_means_natural() {
    assert!(natural_scrolling_from(PreferenceValue::Other));
}
