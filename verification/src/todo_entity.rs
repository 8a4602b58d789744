//! The todo aggregate root and its validated operations.

use vstd::prelude::*;
use crate::clock::now_micros;
use crate::ids::fresh_id;
use crate::text::{is_blank, is_blank_text};
use crate::todo_error::TodoError;
use crate::todo_event::TodoEvent;
use crate::todo_state::TodoState;

verus! {

/// Aggregate root representing a todo task.
///
/// `state` is the only field an operation ever mutates; the identifier,
/// description and creation time are fixed at construction.
pub struct Todo {
    pub id: String,
    pub created_at: i64,
    pub description: String,
    pub state: TodoState,
}

/// The mathematical value of a [`Todo`]: its fields as plain sequences
/// and numbers.
pub ghost struct TodoModel {
    pub id: Seq<char>,
    pub created_at: int,
    pub description: Seq<char>,
    pub state: TodoState,
}

impl View for Todo {
    type V = TodoModel;

    open spec fn view(&self) -> TodoModel {
        TodoModel {
            id: self.id@,
            created_at: self.created_at as int,
            description: self.description@,
            state: self.state,
        }
    }
}

impl Todo {
    /// The aggregate's invariant: the description is never empty or
    /// whitespace-only.  Construction establishes it and every operation
    /// preserves it.
    pub open spec fn wf(self) -> bool {
        !is_blank_text(self.description@)
    }

    /// Creates a new todo.
    ///
    /// Fails with `EmptyDescription` exactly when the description, after
    /// trimming surrounding whitespace, would be empty; nothing is
    /// constructed in that case.  On success the new aggregate carries the
    /// description unchanged, a freshly drawn identifier, the current time
    /// and the initial state, and exactly one `TodoCreated` event
    /// mirroring those stored fields is produced.
    pub fn new(description: String) -> (r: Result<(Todo, Vec<TodoEvent>), TodoError>)
        ensures
            r is Err <==> is_blank_text(description@),
            r matches Err(e) ==> e == TodoError::EmptyDescription,
            r matches Ok((todo, events)) ==> {
                &&& todo.description@ == description@
                &&& todo.state == TodoState::Todo
                &&& todo.id@.len() == 36
                &&& todo.wf()
                &&& events@.len() == 1
                &&& events@[0] matches TodoEvent::TodoCreated { id, description: d, created_at }
                    && id@ == todo.id@ && d@ == description@ && created_at == todo.created_at
            },
    {
        if is_blank(description.as_str()) {
            return Err(TodoError::EmptyDescription);
        }

        let id = fresh_id();
        let created_at = now_micros();

        let event = TodoEvent::TodoCreated {
            id: id.clone(),
            description: description.clone(),
            created_at,
        };

        let todo = Todo { id, created_at, description, state: TodoState::Todo };

        Ok((todo, vec![event]))
    }

    /// Updates the state after validating the transition.
    ///
    /// Fails with `InvalidStateTransition`, leaving the aggregate
    /// untouched, exactly when the current state cannot transition to
    /// `new_state` (which covers same-state requests and jumps that skip a
    /// stage).  On success only the state changes, and exactly one
    /// `TodoStateChanged` event recording the move is produced.
    pub fn update_state(&mut self, new_state: TodoState) -> (r: Result<Vec<TodoEvent>, TodoError>)
        ensures
            r is Ok <==> old(self).state.can_transition_to_spec(new_state),
            r matches Err(e) ==> e == TodoError::InvalidStateTransition && *final(self) == *old(self),
            r matches Ok(events) ==> {
                &&& final(self).state == new_state
                &&& final(self).id == old(self).id
                &&& final(self).description == old(self).description
                &&& final(self).created_at == old(self).created_at
                &&& events@.len() == 1
                &&& events@[0] matches TodoEvent::TodoStateChanged {
                    id,
                    from_state,
                    to_state,
                    changed_at,
                } && id@ == old(self).id@ && from_state == old(self).state && to_state == new_state
            },
            old(self).wf() ==> final(self).wf(),
    {
        if !self.state.can_transition_to(new_state) {
            return Err(TodoError::InvalidStateTransition);
        }

        let from_state = self.state;
        let changed_at = now_micros();

        self.state = new_state;

        let event = TodoEvent::TodoStateChanged {
            id: self.id.clone(),
            from_state,
            to_state: new_state,
            changed_at,
        };

        Ok(vec![event])
    }

    /// Transitions to the next state in the workflow.
    ///
    /// Fails with `InvalidStateTransition`, leaving the aggregate
    /// untouched, exactly when the todo is already `Done`.  On success the
    /// state moves one stage forward and the one produced event records
    /// the move.
    pub fn change_to_next_state(&mut self) -> (r: Result<Vec<TodoEvent>, TodoError>)
        ensures
            r is Ok <==> old(self).state.can_advance_spec(),
            r matches Err(e) ==> e == TodoError::InvalidStateTransition && *final(self) == *old(self),
            r matches Ok(events) ==> {
                &&& final(self).state == TodoState::next_of(old(self).state)
                &&& final(self).id == old(self).id
                &&& final(self).description == old(self).description
                &&& final(self).created_at == old(self).created_at
                &&& events@.len() == 1
                &&& events@[0] matches TodoEvent::TodoStateChanged {
                    id,
                    from_state,
                    to_state,
                    changed_at,
                } && id@ == old(self).id@ && from_state == old(self).state && to_state == final(self).state
            },
            old(self).wf() ==> final(self).wf(),
    {
        let next_state = match self.state {
            TodoState::Todo => TodoState::InProgress,
            TodoState::InProgress => TodoState::Done,
            TodoState::Done => {
                return Err(TodoError::InvalidStateTransition);
            },
        };

        self.update_state(next_state)
    }

    /// Transitions to the previous state in the workflow.
    ///
    /// Fails with `InvalidStateTransition`, leaving the aggregate
    /// untouched, exactly when the todo is still `Todo`.  On success the
    /// state moves one stage backward and the one produced event records
    /// the move.
    pub fn change_to_previous_state(&mut self) -> (r: Result<Vec<TodoEvent>, TodoError>)
        ensures
            r is Ok <==> old(self).state.can_retreat_spec(),
            r matches Err(e) ==> e == TodoError::InvalidStateTransition && *final(self) == *old(self),
            r matches Ok(events) ==> {
                &&& final(self).state == TodoState::previous_of(old(self).state)
                &&& final(self).id == old(self).id
                &&& final(self).description == old(self).description
                &&& final(self).created_at == old(self).created_at
                &&& events@.len() == 1
                &&& events@[0] matches TodoEvent::TodoStateChanged {
                    id,
                    from_state,
                    to_state,
                    changed_at,
                } && id@ == old(self).id@ && from_state == old(self).state && to_state == final(self).state
            },
            old(self).wf() ==> final(self).wf(),
    {
        let previous_state = match self.state {
            TodoState::Done => TodoState::InProgress,
            TodoState::InProgress => TodoState::Todo,
            TodoState::Todo => {
                return Err(TodoError::InvalidStateTransition);
            },
        };

        self.update_state(previous_state)
    }
}

} // verus!
