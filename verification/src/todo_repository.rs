//! The persistence contract that decouples the domain from storage.

use vstd::prelude::*;
use crate::todo_entity::Todo;
use crate::todo_error::TodoError;

verus! {

/// Repository capability for persisting and retrieving todo aggregates.
///
/// The domain owns this contract; storage backends implement it.  Any
/// operation may fail with a domain error when the underlying store is
/// unavailable, so this trait promises little: each implementation
/// strengthens these contracts with what its own store guarantees.
pub trait TodoRepository: Sized {
    /// Saves a full snapshot of the todo, inserting it if its identifier
    /// is absent and overwriting the stored snapshot if it is present.
    fn save(&mut self, todo: &Todo) -> (r: Result<(), TodoError>);

    /// Finds a todo by its identifier, returning an independent copy or
    /// absence, never a live alias into the store.  A returned copy
    /// carries the identifier it was looked up under.
    fn find_by_id(&self, id: &str) -> (r: Result<Option<Todo>, TodoError>)
        ensures
            r matches Ok(Some(t)) ==> t.id@ == id@,
    ;

    /// Returns independent copies of every stored todo, in no particular
    /// order.  Identifiers key the store, so no two returned copies share
    /// one.
    fn find_all(&self) -> (r: Result<Vec<Todo>, TodoError>)
        ensures
            r matches Ok(todos) ==> forall|i: int, j: int|
                0 <= i < j < todos@.len() ==> todos@[i].id@ != todos@[j].id@,
    ;

    /// Deletes the todo with the given identifier; removing an absent
    /// identifier succeeds silently.
    fn delete(&mut self, id: &str) -> (r: Result<(), TodoError>);
}

} // verus!
