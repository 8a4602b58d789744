use todo::handlers::ChangeTodoStateHandler;
use todo::inmemory_todo_repository::InMemoryTodoRepository;
use todo::todo_repository::TodoRepository;
use todo::{Todo, TodoError, TodoEvent, TodoState};

#[test]
fn test_create_then_advance_to_completion() {
    // Create with description "Buy milk": one TodoCreated event whose
    // fields mirror the new aggregate, which starts in state Todo.
    let (todo, events) = Todo::new("Buy milk".to_string()).unwrap();
    assert_eq!(events.len(), 1);
    match &events[0] {
        TodoEvent::TodoCreated { id, description, .. } => {
            assert_eq!(id, &todo.id);
            assert_eq!(description, "Buy milk");
        }
        _ => panic!("expected a TodoCreated event"),
    }
    assert_eq!(todo.state, TodoState::Todo);

    let todo_id = todo.id.clone();
    let mut repository = InMemoryTodoRepository::new();
    repository.save(&todo).unwrap();
    let mut handler = ChangeTodoStateHandler::new(repository);

    // First advance: Todo to InProgress.
    let events = handler
        .change_state(todo_id.clone(), TodoState::InProgress)
        .unwrap();
    assert_eq!(events.len(), 1);
    match &events[0] {
        TodoEvent::TodoStateChanged {
            from_state,
            to_state,
            ..
        } => {
            assert_eq!(*from_state, TodoState::Todo);
            assert_eq!(*to_state, TodoState::InProgress);
        }
        _ => panic!("expected a TodoStateChanged event"),
    }

    // Second advance: InProgress to Done.
    let events = handler
        .change_state(todo_id.clone(), TodoState::Done)
        .unwrap();
    match &events[0] {
        TodoEvent::TodoStateChanged {
            from_state,
            to_state,
            ..
        } => {
            assert_eq!(*from_state, TodoState::InProgress);
            assert_eq!(*to_state, TodoState::Done);
        }
        _ => panic!("expected a TodoStateChanged event"),
    }

    // Done is the final stage: a further advance fails.
    let overrun = handler.change_state(todo_id, TodoState::Done);
    assert!(matches!(
        overrun.unwrap_err(),
        TodoError::InvalidStateTransition
    ));
}
