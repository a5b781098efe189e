use vstd::prelude::*;

verus! {

/// Lifecycle of an action. `InProgress` is the initial state; `Completed`
/// and `Failed` are terminal.
#[derive(Clone, Copy, Debug, PartialEq, Eq, Structural)]
pub enum State {
    InProgress,
    Completed,
    Failed,
}

impl State {
    pub open spec fn is_terminal_spec(&self) -> bool {
        *self != State::InProgress
    }

    /// The only transitions are from `InProgress` to a terminal state.
    pub open spec fn can_become(&self, next: State) -> bool {
        *self == State::InProgress && next != State::InProgress
    }

    #[verifier::when_used_as_spec(is_terminal_spec)]
    pub fn is_terminal(&self) -> (r: bool)
        ensures
            r == self.is_terminal_spec(),
    {
        !matches!(self, State::InProgress)
    }
}

impl Default for State {
    fn default() -> (r: State)
        ensures
            r == State::InProgress,
    {
        State::InProgress
    }
}

} // verus!
