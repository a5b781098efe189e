use vstd::prelude::*;

verus! {

/// Failures of the agent. Backend errors carry no payload here: the caller
/// that talked to the backend reports the details.
#[derive(Clone, Copy, Debug, PartialEq, Eq, Structural)]
pub enum Error {
    ContainerStartError,
    PullImageError,
    ContainerRemoveError,
    ContainerExecError,
    ContainerExecDetachedError,
    /// The awaited process handle could not be joined.
    ExecError,
    /// A step ran and exited with this nonzero code.
    StepOutputError(i32),
    ActionNotFound,
    ChannelError,
    ConnectionError,
    RegistrationError,
    NotRegisteredError,
    ReportHealthError,
}

} // verus!
