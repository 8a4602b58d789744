use todo::TodoState;
use todo::TodoState::{Done, InProgress, Todo};

#[test]
fn test_can_advance_truth_table() {
    assert!(TodoState::Todo.can_advance());
    assert!(TodoState::InProgress.can_advance());
    assert!(!TodoState::Done.can_advance());
}

#[test]
fn test_can_retreat_truth_table() {
    assert!(!TodoState::Todo.can_retreat());
    assert!(TodoState::InProgress.can_retreat());
    assert!(TodoState::Done.can_retreat());
}

#[test]
fn test_can_transition_to_truth_table() {
    // Same-state requests are always rejected.
    assert!(!Todo.can_transition_to(Todo));
    assert!(!InProgress.can_transition_to(InProgress));
    assert!(!Done.can_transition_to(Done));
    // Adjacent moves in either direction are legal.
    assert!(Todo.can_transition_to(InProgress));
    assert!(InProgress.can_transition_to(Done));
    assert!(Done.can_transition_to(InProgress));
    assert!(InProgress.can_transition_to(Todo));
    // Jumps that skip the middle stage are illegal.
    assert!(!Todo.can_transition_to(Done));
    assert!(!Done.can_transition_to(Todo));
}
