use stock_operator::ax::{status_notes, value_readable, WalkState};

#[test]
fn status_notes_name_each_missing_precondition() {
    assert!(status_notes(true, true, true).is_empty());
    assert_eq!(
        status_notes(false, false, false),
        vec![
            "macOS Accessibility API is disabled".to_string(),
            "grant Accessibility permission to the stock-operator process in System Settings".to_string(),
            "target process was not found with the configured process name and bundle ID".to_string(),
        ]
    );
    assert_eq!(status_notes(true, false, true).len(), 1);
}

#[test]
fn walk_stops_at_its_node_limit_and_marks_truncation() {
    let mut state = WalkState::new(1, 2);
    assert!(state.enter().is_ok());
    assert!(state.descends(0));
    assert!(!state.descends(1));
    assert!(!state.stop_children(0, 3));
    assert!(state.enter().is_ok());
    assert!(state.stop_children(1, 3));
    assert!(state.truncated);
    assert_eq!(
        state.enter().unwrap_err(),
        "Accessibility tree walk reached its node limit"
    );
    assert_eq!(state.node_count, 2);
    let mut leaf = WalkState::new(0, 10);
    leaf.skip_children(false);
    assert!(!leaf.truncated);
    leaf.skip_children(true);
    assert!(leaf.truncated);
    assert!(!value_readable(Some("AXSecureTextField")));
    assert!(value_readable(Some("AXTextField")));
    assert!(value_readable(None));
}
