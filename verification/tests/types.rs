use bevy_ui_nav::types::FocusState;

#[test]
fn focus_state_active_for_focused_states() {
    assert!(FocusState::Focus.active());
    assert!(FocusState::FocusPress.active());
    assert!(!FocusState::Unfocused.active());
    assert!(!FocusState::Disabled.active());
}
