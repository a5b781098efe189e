use vstd::prelude::*;

use crate::action::{initial_model, work_dir, Action};
use crate::container::Container;

verus! {

/// Where an action runs.
pub struct ExecutionContext {
    pub container_image: Option<String>,
}

/// A request to execute an action, as it arrives over RPC.
pub struct ActionRequest {
    pub context: Option<ExecutionContext>,
    pub repo_url: String,
    pub commands: Vec<String>,
    pub action_id: u32,
}

/// Why a request is refused before any container is created.
#[derive(Clone, Copy, Debug, PartialEq, Eq, Structural)]
pub enum RequestError {
    MissingContext,
    MissingContainerImage,
}

impl RequestError {
    pub fn message(&self) -> (r: &'static str)
        ensures
            *self == RequestError::MissingContext ==> r@ == "Context is missing"@,
            *self == RequestError::MissingContainerImage ==> r@ == "Container image is missing"@,
    {
        match self {
            RequestError::MissingContext => "Context is missing",
            RequestError::MissingContainerImage => "Container image is missing",
        }
    }
}

impl ActionRequest {
    /// The action the request describes, in a container with a fresh id
    /// made from the requested image; refused when the context or its image
    /// is missing.
    pub fn prepare(self) -> (r: Result<Action, RequestError>)
        ensures
            match self.context {
                None => r == Err::<Action, RequestError>(RequestError::MissingContext),
                Some(ctx) => match ctx.container_image {
                    None => r == Err::<Action, RequestError>(RequestError::MissingContainerImage),
                    Some(image) => r matches Ok(a) && {
                        &&& a.wf()
                        &&& a.model() == initial_model(self.commands@.len())
                        &&& a.spec_id() == self.action_id
                        &&& a.spec_repository_url() == self.repo_url@
                        &&& a.spec_container().spec_image() == image@
                        &&& a.spec_steps().len() == self.commands@.len()
                        &&& forall|i: int|
                            0 <= i < self.commands@.len() ==> {
                                &&& (#[trigger] a.spec_steps()[i]).command == self.commands@[i]
                                &&& a.spec_steps()[i].execute_in matches Some(d) && d@ == work_dir(
                                    self.action_id,
                                )
                            }
                    },
                },
            },
    {
        let context = match self.context {
            Some(context) => context,
            None => return Err(RequestError::MissingContext),
        };
        let image = match context.container_image {
            Some(image) => image,
            None => return Err(RequestError::MissingContainerImage),
        };
        let container = Container::build(image);
        Ok(Action::new(self.action_id, container, self.commands, self.repo_url))
    }
}

} // verus!
