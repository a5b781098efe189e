use vstd::prelude::*;

use crate::container::{clone_opt_string, Container, ExecRequest};

verus! {

/// One shell command of an action, with the directory it runs in.
pub struct Step {
    /// The command run in the container.
    pub command: String,
    /// The directory in which the command runs.
    pub execute_in: Option<String>,
}

impl Step {
    pub fn new(command: String, execute_in: Option<String>) -> (r: Step)
        ensures
            r.command == command,
            r.execute_in == execute_in,
    {
        Step { command, execute_in }
    }

    /// The request that runs this step in `container`.
    pub fn execute(&self, container: &Container) -> (r: ExecRequest)
        ensures
            r.container_id@ == container.spec_id(),
            r.command == self.command,
            r.working_dir == self.execute_in,
    {
        container.exec(self.command.clone(), clone_opt_string(&self.execute_in))
    }
}

} // verus!
