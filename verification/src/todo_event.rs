//! Domain events describing significant occurrences in the todo lifecycle.

use vstd::prelude::*;
use crate::todo_state::TodoState;

verus! {

/// Immutable record of something that already happened to a todo.
///
/// Events are pure data: the aggregate returns them but never dispatches
/// them itself; publication is the caller's responsibility.
#[derive(Debug, Clone, PartialEq, Eq)]
pub enum TodoEvent {
    /// Emitted exactly once, at construction of a todo.
    TodoCreated { id: String, description: String, created_at: i64 },
    /// Emitted exactly once per successful state transition.
    TodoStateChanged { id: String, from_state: TodoState, to_state: TodoState, changed_at: i64 },
}

} // verus!
