//! The three-stage workflow of a todo item and its transition rules.

use vstd::prelude::*;

verus! {

/// Value object representing the state of a todo in its workflow.
///
/// The workflow is ordered: `Todo`, then `InProgress`, then `Done`.
/// Only moves between adjacent stages (in either direction) are legal.
#[derive(Debug, Clone, Copy, PartialEq, Eq, Structural)]
pub enum TodoState {
    /// Initial state when a todo is created.
    Todo,
    /// Intermediate state indicating work in progress.
    InProgress,
    /// Final state indicating completion.
    Done,
}

impl TodoState {
    /// Position of the state in the ordered workflow.
    pub open spec fn workflow_index(self) -> int {
        match self {
            TodoState::Todo => 0,
            TodoState::InProgress => 1,
            TodoState::Done => 2,
        }
    }

    /// A state can advance while it is not the final stage.
    pub open spec fn can_advance_spec(self) -> bool {
        self.workflow_index() < 2
    }

    /// A state can retreat while it is not the initial stage.
    pub open spec fn can_retreat_spec(self) -> bool {
        self.workflow_index() > 0
    }

    /// A transition is legal exactly when it moves one stage forward or
    /// one stage backward in the workflow; in particular a state never
    /// transitions to itself and no stage is skipped.
    pub open spec fn can_transition_to_spec(self, new_state: TodoState) -> bool {
        ||| new_state.workflow_index() == self.workflow_index() + 1
        ||| new_state.workflow_index() == self.workflow_index() - 1
    }

    /// Checks if the state can advance to the next state:
    /// true for `Todo` and `InProgress`, false for `Done`.
    pub fn can_advance(&self) -> (r: bool)
        ensures
            r == self.can_advance_spec(),
    {
        matches!(self, TodoState::Todo | TodoState::InProgress)
    }

    /// Checks if the state can retreat to the previous state:
    /// false for `Todo`, true for `InProgress` and `Done`.
    pub fn can_retreat(&self) -> (r: bool)
        ensures
            r == self.can_retreat_spec(),
    {
        matches!(self, TodoState::InProgress | TodoState::Done)
    }

    /// Validates whether a transition to `new_state` is allowed.
    ///
    /// A request for the current state is rejected.  Otherwise the move is
    /// classified as forward or backward; forward moves are legal when the
    /// state can advance, backward moves when it can retreat, and any pair
    /// that skips a stage is rejected outright.
    pub fn can_transition_to(&self, new_state: TodoState) -> (r: bool)
        ensures
            r == self.can_transition_to_spec(new_state),
    {
        if *self == new_state {
            return false;
        }

        let is_forward: bool = match (*self, new_state) {
            (TodoState::Todo, TodoState::InProgress) => true,
            (TodoState::InProgress, TodoState::Done) => true,
            (TodoState::Done, TodoState::InProgress) => false,
            (TodoState::InProgress, TodoState::Todo) => false,
            _ => {
                return false;
            },
        };

        if is_forward {
            self.can_advance()
        } else {
            self.can_retreat()
        }
    }
}

/// No state may transition to itself.
pub proof fn lemma_same_state_transition_rejected(s: TodoState)
    ensures
        !s.can_transition_to_spec(s),
{
}

/// A transition is legal exactly when it is a move between adjacent
/// workflow stages; every jump that skips a stage is illegal.
pub proof fn lemma_only_adjacent_transitions(s: TodoState, t: TodoState)
    ensures
        s.can_transition_to_spec(t) <==> (t.workflow_index() == s.workflow_index() + 1
            || t.workflow_index() == s.workflow_index() - 1),
        t.workflow_index() >= s.workflow_index() + 2 ==> !s.can_transition_to_spec(t),
        t.workflow_index() <= s.workflow_index() - 2 ==> !s.can_transition_to_spec(t),
{
}

/// Forward moves are available exactly from the states that can advance,
/// and backward moves exactly from the states that can retreat.
pub proof fn lemma_direction_capabilities(s: TodoState, t: TodoState)
    ensures
        t.workflow_index() == s.workflow_index() + 1 ==> s.can_advance_spec(),
        t.workflow_index() == s.workflow_index() - 1 ==> s.can_retreat_spec(),
        s.can_advance_spec() <==> s.can_transition_to_spec(TodoState::next_of(s)),
        s.can_retreat_spec() <==> s.can_transition_to_spec(TodoState::previous_of(s)),
{
}

impl TodoState {
    /// The stage one step forward in the workflow (`Done` has none and
    /// maps to itself here; `can_advance_spec` rules that case out).
    pub open spec fn next_of(s: TodoState) -> TodoState {
        match s {
            TodoState::Todo => TodoState::InProgress,
            TodoState::InProgress => TodoState::Done,
            TodoState::Done => TodoState::Done,
        }
    }

    /// The stage one step backward in the workflow (`Todo` has none and
    /// maps to itself here; `can_retreat_spec` rules that case out).
    pub open spec fn previous_of(s: TodoState) -> TodoState {
        match s {
            TodoState::Todo => TodoState::Todo,
            TodoState::InProgress => TodoState::Todo,
            TodoState::Done => TodoState::InProgress,
        }
    }
}

} // verus!
