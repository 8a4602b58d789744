use todo::{Todo, TodoError, TodoEvent, TodoState};

#[test]
fn test_new_todo_mirrors_fields_in_event() {
    let (todo, events) = Todo::new("Buy milk".to_string()).unwrap();
    assert_eq!(todo.description, "Buy milk");
    assert_eq!(todo.state, TodoState::Todo);
    assert_eq!(todo.id.len(), 36);
    assert_eq!(events.len(), 1);
    match &events[0] {
        TodoEvent::TodoCreated {
            id,
            description,
            created_at,
        } => {
            assert_eq!(id, &todo.id);
            assert_eq!(description, "Buy milk");
            assert_eq!(*created_at, todo.created_at);
        }
        _ => panic!("expected a TodoCreated event"),
    }
}

#[test]
fn test_new_todo_identifiers_differ() {
    let (first, _) = Todo::new("first".to_string()).unwrap();
    let (second, _) = Todo::new("second".to_string()).unwrap();
    assert_ne!(first.id, second.id);
}

#[test]
fn test_new_todo_rejects_unicode_whitespace() {
    let result = Todo::new("\t\n\u{00A0}\u{3000} ".to_string());
    assert!(matches!(result, Err(TodoError::EmptyDescription)));
}

#[test]
fn test_new_todo_accepts_description_with_surrounding_whitespace() {
    let (todo, _) = Todo::new("  keep me  ".to_string()).unwrap();
    assert_eq!(todo.description, "  keep me  ");
}

#[test]
fn test_update_state_same_state_rejected_in_every_state() {
    let (mut todo, _) = Todo::new("task".to_string()).unwrap();
    assert!(matches!(
        todo.update_state(TodoState::Todo),
        Err(TodoError::InvalidStateTransition)
    ));
    todo.update_state(TodoState::InProgress).unwrap();
    assert!(matches!(
        todo.update_state(TodoState::InProgress),
        Err(TodoError::InvalidStateTransition)
    ));
    todo.update_state(TodoState::Done).unwrap();
    assert!(matches!(
        todo.update_state(TodoState::Done),
        Err(TodoError::InvalidStateTransition)
    ));
}

#[test]
fn test_update_state_rejects_skipping_in_both_directions() {
    let (mut todo, _) = Todo::new("task".to_string()).unwrap();
    assert!(matches!(
        todo.update_state(TodoState::Done),
        Err(TodoError::InvalidStateTransition)
    ));
    assert_eq!(todo.state, TodoState::Todo);

    todo.update_state(TodoState::InProgress).unwrap();
    todo.update_state(TodoState::Done).unwrap();
    assert!(matches!(
        todo.update_state(TodoState::Todo),
        Err(TodoError::InvalidStateTransition)
    ));
    assert_eq!(todo.state, TodoState::Done);
}

#[test]
fn test_failed_update_leaves_todo_unchanged() {
    let (mut todo, _) = Todo::new("task".to_string()).unwrap();
    let id = todo.id.clone();
    let description = todo.description.clone();
    let created_at = todo.created_at;
    assert!(todo.update_state(TodoState::Done).is_err());
    assert_eq!(todo.id, id);
    assert_eq!(todo.description, description);
    assert_eq!(todo.created_at, created_at);
    assert_eq!(todo.state, TodoState::Todo);
}

#[test]
fn test_advance_walks_forward_then_overruns() {
    let (mut todo, _) = Todo::new("Buy milk".to_string()).unwrap();

    let events = todo.change_to_next_state().unwrap();
    assert_eq!(events.len(), 1);
    match &events[0] {
        TodoEvent::TodoStateChanged {
            from_state,
            to_state,
            ..
        } => {
            assert_eq!(*from_state, TodoState::Todo);
            assert_eq!(*to_state, TodoState::InProgress);
        }
        _ => panic!("expected a TodoStateChanged event"),
    }

    let events = todo.change_to_next_state().unwrap();
    match &events[0] {
        TodoEvent::TodoStateChanged {
            from_state,
            to_state,
            ..
        } => {
            assert_eq!(*from_state, TodoState::InProgress);
            assert_eq!(*to_state, TodoState::Done);
        }
        _ => panic!("expected a TodoStateChanged event"),
    }

    assert!(matches!(
        todo.change_to_next_state(),
        Err(TodoError::InvalidStateTransition)
    ));
    assert_eq!(todo.state, TodoState::Done);
}

#[test]
fn test_retreat_walks_backward_then_overruns() {
    let (mut todo, _) = Todo::new("task".to_string()).unwrap();
    todo.update_state(TodoState::InProgress).unwrap();
    todo.update_state(TodoState::Done).unwrap();

    let events = todo.change_to_previous_state().unwrap();
    assert_eq!(events.len(), 1);
    match &events[0] {
        TodoEvent::TodoStateChanged {
            from_state,
            to_state,
            ..
        } => {
            assert_eq!(*from_state, TodoState::Done);
            assert_eq!(*to_state, TodoState::InProgress);
        }
        _ => panic!("expected a TodoStateChanged event"),
    }

    let events = todo.change_to_previous_state().unwrap();
    match &events[0] {
        TodoEvent::TodoStateChanged {
            from_state,
            to_state,
            ..
        } => {
            assert_eq!(*from_state, TodoState::InProgress);
            assert_eq!(*to_state, TodoState::Todo);
        }
        _ => panic!("expected a TodoStateChanged event"),
    }

    assert!(matches!(
        todo.change_to_previous_state(),
        Err(TodoError::InvalidStateTransition)
    ));
    assert_eq!(todo.state, TodoState::Todo);
}

#[test]
fn test_state_change_event_names_the_todo() {
    let (mut todo, _) = Todo::new("task".to_string()).unwrap();
    let events = todo.update_state(TodoState::InProgress).unwrap();
    match &events[0] {
        TodoEvent::TodoStateChanged { id, .. } => assert_eq!(id, &todo.id),
        _ => panic!("expected a TodoStateChanged event"),
    }
}
