use vstd::prelude::*;

verus! {

/// Whether more output follows, or how the action ended.
#[derive(Clone, Copy, Debug, PartialEq, Eq, Structural)]
pub enum Completion {
    Running,
    Completed,
    Failed,
}

impl Completion {
    pub open spec fn code_spec(&self) -> i32 {
        match *self {
            Completion::Running => 2,
            Completion::Completed => 1,
            Completion::Failed => 3,
        }
    }

    /// The numeric completion code used on the wire.
    #[verifier::when_used_as_spec(code_spec)]
    pub fn code(&self) -> (r: i32)
        ensures
            r == self.code_spec(),
    {
        match *self {
            Completion::Running => 2,
            Completion::Completed => 1,
            Completion::Failed => 3,
        }
    }

    pub open spec fn is_terminal_spec(&self) -> bool {
        *self != Completion::Running
    }
}

/// One message of an action's output stream.
pub struct OutputMessage {
    pub log: String,
    pub action_id: u32,
    pub completion: Completion,
    pub exit_code: Option<i32>,
}

/// The funnel through which an action's output reaches its caller. Once a
/// terminal message has gone through, the pipe is closed and lets nothing
/// more through, so the terminal message is always the last one.
pub struct OutputPipe {
    action_id: u32,
    closed: bool,
}

impl OutputPipe {
    pub closed spec fn spec_action_id(&self) -> u32 {
        self.action_id
    }

    pub closed spec fn is_closed(&self) -> bool {
        self.closed
    }

    pub fn new(action_id: u32) -> (r: OutputPipe)
        ensures
            r.spec_action_id() == action_id,
            !r.is_closed(),
    {
        OutputPipe { action_id, closed: false }
    }

    /// Builds the message for `log`, or nothing once the pipe is closed.
    /// A terminal completion closes the pipe.
    pub fn output_log(&mut self, log: String, completion: Completion, exit_code: Option<i32>) -> (r:
        Option<OutputMessage>)
        ensures
            final(self).spec_action_id() == old(self).spec_action_id(),
            old(self).is_closed() ==> r is None && final(self).is_closed(),
            !old(self).is_closed() ==> r == Some(
                OutputMessage { log, action_id: old(self).spec_action_id(), completion, exit_code },
            ) && final(self).is_closed() == completion.is_terminal_spec(),
    {
        if self.closed {
            None
        } else {
            self.closed = !matches!(completion, Completion::Running);
            Some(OutputMessage { log, action_id: self.action_id, completion, exit_code })
        }
    }
}

} // verus!
