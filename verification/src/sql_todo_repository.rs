//! A placeholder SQL-backed implementation of the repository contract.

use vstd::prelude::*;
use crate::todo_entity::Todo;
use crate::todo_error::TodoError;
use crate::todo_repository::TodoRepository;

verus! {

/// Stand-in for a SQL-backed [`TodoRepository`].
///
/// A real backend would manage connections, execute queries and map
/// records to aggregates; that work belongs to an external collaborator.
/// This stub performs no persistence: every operation trivially succeeds
/// and the store always reads as empty, which its contracts below state
/// exactly.
pub struct SqlTodoRepository {
    _placeholder: (),
}

impl SqlTodoRepository {
    /// Creates a new placeholder repository.
    pub fn new() -> Self {
        SqlTodoRepository { _placeholder: () }
    }
}

impl Default for SqlTodoRepository {
    /// A placeholder repository.
    fn default() -> Self {
        SqlTodoRepository::new()
    }
}

impl TodoRepository for SqlTodoRepository {
    /// Accepts the todo and persists nothing.
    fn save(&mut self, todo: &Todo) -> (r: Result<(), TodoError>)
        ensures
            r is Ok,
    {
        Ok(())
    }

    /// Finds nothing: the placeholder store is always empty.
    fn find_by_id(&self, id: &str) -> (r: Result<Option<Todo>, TodoError>)
        ensures
            r matches Ok(o) && o is None,
    {
        Ok(None)
    }

    /// Lists nothing: the placeholder store is always empty.
    fn find_all(&self) -> (r: Result<Vec<Todo>, TodoError>)
        ensures
            r matches Ok(todos) && todos@.len() == 0,
    {
        Ok(Vec::new())
    }

    /// Removes nothing and succeeds.
    fn delete(&mut self, id: &str) -> (r: Result<(), TodoError>)
        ensures
            r is Ok,
    {
        Ok(())
    }
}

} // verus!
