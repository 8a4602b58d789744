//! The closed set of domain failure reasons.

use vstd::prelude::*;

verus! {

/// Error type for todo domain operations.
#[derive(Debug, Clone, PartialEq, Eq, Structural)]
pub enum TodoError {
    /// Returned when attempting to create a todo with a description that
    /// is empty or consists only of whitespace.
    EmptyDescription,
    /// Returned when attempting an invalid state transition.
    InvalidStateTransition,
    /// Returned when a todo is not found in the repository.
    TodoNotFound,
}

} // verus!
