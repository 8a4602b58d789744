//! Thin application handlers: they call the aggregate, then the
//! repository, and hand the produced events back to the caller.

use vstd::prelude::*;
use crate::text::is_blank_text;
use crate::todo_entity::Todo;
use crate::todo_error::TodoError;
use crate::todo_event::TodoEvent;
use crate::todo_repository::TodoRepository;
use crate::todo_state::TodoState;

verus! {

/// Resolves a repository lookup that must find its record: a found todo
/// is handed back unchanged, a missing one surfaces `TodoNotFound`.
pub fn require_found(found: Option<Todo>) -> (r: Result<Todo, TodoError>)
    ensures
        found matches Some(t) ==> r == Ok::<Todo, TodoError>(t),
        found is None ==> r == Err::<Todo, TodoError>(TodoError::TodoNotFound),
{
    match found {
        Some(t) => Ok(t),
        None => Err(TodoError::TodoNotFound),
    }
}

/// Creates new todos and persists them.
pub struct AddTodoHandler<R: TodoRepository> {
    todo_repository: R,
}

impl<R: TodoRepository> AddTodoHandler<R> {
    /// Wraps the given repository.
    pub fn new(todo_repository: R) -> Self {
        AddTodoHandler { todo_repository }
    }

    /// Creates a todo from the description, saves it, and returns the
    /// creation events.
    ///
    /// A blank description fails with `EmptyDescription`.  On success the
    /// one returned event is the `TodoCreated` record of the new
    /// aggregate, carrying the description unchanged; the repository may
    /// still refuse the save with an error of its own, which is passed
    /// through.
    pub fn new_todo(&mut self, description: String) -> (r: Result<Vec<TodoEvent>, TodoError>)
        ensures
            is_blank_text(description@) ==> (r matches Err(e) && e
                == TodoError::EmptyDescription),
            r matches Ok(events) ==> {
                &&& !is_blank_text(description@)
                &&& events@.len() == 1
                &&& events@[0] matches TodoEvent::TodoCreated { id, description: d, created_at }
                    && d@ == description@ && id@.len() == 36
            },
    {
        let (todo, events) = match Todo::new(description) {
            Ok(p) => p,
            Err(e) => {
                return Err(e);
            },
        };
        match self.todo_repository.save(&todo) {
            Ok(()) => Ok(events),
            Err(e) => Err(e),
        }
    }
}

/// Moves persisted todos through the workflow.
pub struct ChangeTodoStateHandler<R: TodoRepository> {
    todo_repository: R,
}

impl<R: TodoRepository> ChangeTodoStateHandler<R> {
    /// Wraps the given repository.
    pub fn new(todo_repository: R) -> Self {
        ChangeTodoStateHandler { todo_repository }
    }

    /// Looks the todo up, transitions it to `new_state`, and saves it
    /// back.
    ///
    /// An identifier the repository does not know fails with
    /// `TodoNotFound` — that decision stands in [`require_found`]'s
    /// contract; an illegal transition fails with
    /// `InvalidStateTransition`, per `update_state`'s contract; errors
    /// of the repository itself are passed through.  On success the one
    /// returned event records a legal transition of the requested todo
    /// into the requested state.
    pub fn change_state(&mut self, id: String, new_state: TodoState) -> (r: Result<
        Vec<TodoEvent>,
        TodoError,
    >)
        ensures
            r matches Ok(events) ==> {
                &&& events@.len() == 1
                &&& events@[0] matches TodoEvent::TodoStateChanged {
                    id: event_id,
                    from_state,
                    to_state,
                    changed_at,
                } && event_id@ == id@ && from_state.can_transition_to_spec(new_state) && to_state
                    == new_state
            },
    {
        let found = match self.todo_repository.find_by_id(id.as_str()) {
            Ok(o) => o,
            Err(e) => {
                return Err(e);
            },
        };
        let mut todo = match require_found(found) {
            Ok(t) => t,
            Err(e) => {
                return Err(e);
            },
        };
        let events = match todo.update_state(new_state) {
            Ok(events) => events,
            Err(e) => {
                return Err(e);
            },
        };
        match self.todo_repository.save(&todo) {
            Ok(()) => Ok(events),
            Err(e) => Err(e),
        }
    }
}

/// Reads all persisted todos.
pub struct GetTodosHandler<R: TodoRepository> {
    todo_repository: R,
}

impl<R: TodoRepository> GetTodosHandler<R> {
    /// Wraps the given repository.
    pub fn new(todo_repository: R) -> Self {
        GetTodosHandler { todo_repository }
    }

    /// Returns copies of every stored todo, or the repository's error.
    /// No two returned copies share an identifier.
    pub fn get_todos(&self) -> (r: Result<Vec<Todo>, TodoError>)
        ensures
            r matches Ok(todos) ==> forall|i: int, j: int|
                0 <= i < j < todos@.len() ==> todos@[i].id@ != todos@[j].id@,
    {
        self.todo_repository.find_all()
    }
}

} // verus!
