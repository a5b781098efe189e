use vstd::prelude::*;
use vstd::string::StringExecFns;

use crate::broker::StateEvent;
use crate::container::{Container, ExecRequest};
use crate::dto::ActionDto;
use crate::error::Error;
use crate::output::{Completion, OutputMessage, OutputPipe};
use crate::state::State;
use crate::step::Step;
use crate::text::{decimal, decimal_string};

verus! {

/// What the runtime reports to a running action.
pub enum ExecEvent {
    /// Execution is asked to begin.
    Start,
    /// The running step produced a chunk of output.
    Output(String),
    /// The running step exited with this code.
    Exited(i32),
    /// The running step could not be started or awaited.
    Failed(Error),
}

/// What the runtime must do next for an action.
pub enum Directive {
    /// Start this request in the action's container; report its output and
    /// its exit.
    Run(ExecRequest),
    /// Deliver this message to the action's caller.
    Forward(OutputMessage),
    /// Nothing to do.
    Ignore,
    /// The action is over: remove its container, deliver the message, publish
    /// the state event and hand the outcome to whoever awaits the action.
    Finish(Finish),
}

pub struct Finish {
    pub message: OutputMessage,
    pub event: StateEvent,
    pub outcome: Result<(), Error>,
}

/// The abstract state of an execution: how many steps there are, how many
/// have been started, and the lifecycle state.
pub struct ActionModel {
    pub n_steps: nat,
    pub started: nat,
    pub state: State,
}

/// The abstract effect of one event.
pub enum Effect {
    Run(nat),
    Forward(Seq<char>),
    Ignore,
    Finish(State, Option<i32>),
}

pub open spec fn initial_model(n_steps: nat) -> ActionModel {
    ActionModel { n_steps, started: 0, state: State::InProgress }
}

/// One transition of the execution. Steps run strictly in order; the first
/// nonzero exit or failure to run ends the action as `Failed`, and the last
/// step exiting with zero ends it as `Completed`. Nothing happens after
/// a terminal state.
pub open spec fn react(m: ActionModel, e: ExecEvent) -> (ActionModel, Effect) {
    if m.state != State::InProgress {
        (m, Effect::Ignore)
    } else {
        match e {
            ExecEvent::Start => {
                if m.started != 0 {
                    (m, Effect::Ignore)
                } else if m.n_steps == 0 {
                    (
                        ActionModel { state: State::Completed, ..m },
                        Effect::Finish(State::Completed, Some(0)),
                    )
                } else {
                    (ActionModel { started: 1, ..m }, Effect::Run(0))
                }
            },
            ExecEvent::Output(s) => {
                if m.started == 0 {
                    (m, Effect::Ignore)
                } else {
                    (m, Effect::Forward(s@))
                }
            },
            ExecEvent::Exited(code) => {
                if m.started == 0 {
                    (m, Effect::Ignore)
                } else if code != 0 {
                    (
                        ActionModel { state: State::Failed, ..m },
                        Effect::Finish(State::Failed, Some(code)),
                    )
                } else if m.started < m.n_steps {
                    (ActionModel { started: m.started + 1, ..m }, Effect::Run(m.started))
                } else {
                    (
                        ActionModel { state: State::Completed, ..m },
                        Effect::Finish(State::Completed, Some(0)),
                    )
                }
            },
            ExecEvent::Failed(_) => {
                if m.started == 0 {
                    (m, Effect::Ignore)
                } else {
                    (ActionModel { state: State::Failed, ..m }, Effect::Finish(State::Failed, None))
                }
            },
        }
    }
}

/// The final state and the effects of a sequence of events.
pub open spec fn run(m: ActionModel, evs: Seq<ExecEvent>) -> (ActionModel, Seq<Effect>)
    decreases evs.len(),
{
    if evs.len() == 0 {
        (m, Seq::empty())
    } else {
        let (m1, eff) = react(m, evs[0]);
        let (m2, rest) = run(m1, evs.drop_first());
        (m2, seq![eff] + rest)
    }
}

pub open spec fn failure_log() -> Seq<char> {
    "Action failed"@
}

pub open spec fn success_log() -> Seq<char> {
    "Action completed"@
}

/// The directory a step runs in: the repository checkout, named after the
/// action id.
pub open spec fn work_dir(id: u32) -> Seq<char> {
    "/"@ + decimal(id as nat)
}

/// The shallow clone of the repository into the checkout directory.
pub open spec fn clone_command(url: Seq<char>, id: u32) -> Seq<char> {
    "git clone --depth 1 "@ + url + " "@ + decimal(id as nat)
}

/// A submitted job: commands run in order in one container.
pub struct Action {
    pub id: u32,
    container: Container,
    steps: Vec<Step>,
    pipe: OutputPipe,
    pub repository_url: String,
    state: State,
    started: usize,
}

impl Action {
    pub closed spec fn wf(&self) -> bool {
        &&& self.pipe.spec_action_id() == self.id
        &&& self.pipe.is_closed() == (self.state != State::InProgress)
        &&& self.started <= self.steps@.len()
    }

    pub closed spec fn model(&self) -> ActionModel {
        ActionModel { n_steps: self.steps@.len(), started: self.started as nat, state: self.state }
    }

    pub closed spec fn spec_id(&self) -> u32 {
        self.id
    }

    pub closed spec fn spec_repository_url(&self) -> Seq<char> {
        self.repository_url@
    }

    pub closed spec fn spec_steps(&self) -> Seq<Step> {
        self.steps@
    }

    pub closed spec fn spec_container(&self) -> Container {
        self.container
    }

    pub open spec fn spec_state(&self) -> State {
        self.model().state
    }

    /// Whether `r` is what `execute` hands back for the event `e` on `self`.
    pub open spec fn directive_for(&self, e: ExecEvent, r: Directive) -> bool {
        match react(self.model(), e).1 {
            Effect::Run(i) => r matches Directive::Run(req) && {
                &&& req.container_id@ == self.spec_container().spec_id()
                &&& req.command == self.spec_steps()[i as int].command
                &&& req.working_dir == self.spec_steps()[i as int].execute_in
            },
            Effect::Forward(_) => r matches Directive::Forward(msg) && e matches ExecEvent::Output(
                s,
            ) && msg == (OutputMessage {
                log: s,
                action_id: self.spec_id(),
                completion: Completion::Running,
                exit_code: None,
            }),
            Effect::Ignore => r is Ignore,
            Effect::Finish(st, code) => r matches Directive::Finish(f) && {
                &&& f.event == (StateEvent { action_id: self.spec_id(), state: st })
                &&& f.message.action_id == self.spec_id()
                &&& f.message.exit_code == code
                &&& st == State::Completed ==> {
                    &&& f.message.completion == Completion::Completed
                    &&& f.message.log@ == success_log()
                    &&& f.outcome == Ok::<(), Error>(())
                }
                &&& st == State::Failed ==> {
                    &&& f.message.completion == Completion::Failed
                    &&& f.message.log@ == failure_log()
                    &&& match code {
                        Some(c) => f.outcome == Err::<(), Error>(Error::StepOutputError(c)),
                        None => e matches ExecEvent::Failed(err) && f.outcome == Err::<(), Error>(
                            err,
                        ),
                    }
                }
            },
        }
    }
}

impl Action {
    /// An action whose steps are `commands`, each run in the checkout
    /// directory `/<id>`.
    pub fn new(id: u32, container: Container, commands: Vec<String>, repository_url: String) -> (r:
        Action)
        ensures
            r.wf(),
            r.model() == initial_model(commands@.len()),
            r.spec_id() == id,
            r.spec_repository_url() == repository_url@,
            r.spec_container() == container,
            r.spec_steps().len() == commands@.len(),
            forall|i: int|
                0 <= i < commands@.len() ==> {
                    &&& (#[trigger] r.spec_steps()[i]).command == commands@[i]
                    &&& r.spec_steps()[i].execute_in matches Some(d) && d@ == work_dir(id)
                },
    {
        let mut dir = String::from_str("/");
        let digits = decimal_string(id as u64);
        dir.append(digits.as_str());
        let mut steps: Vec<Step> = Vec::new();
        let mut i: usize = 0;
        while i < commands.len()
            invariant
                i <= commands@.len(),
                steps@.len() == i,
                dir@ == work_dir(id),
                forall|j: int|
                    0 <= j < i ==> {
                        &&& (#[trigger] steps@[j]).command == commands@[j]
                        &&& steps@[j].execute_in matches Some(d) && d@ == work_dir(id)
                    },
            decreases commands@.len() - i,
        {
            steps.push(Step::new(commands[i].clone(), Some(dir.clone())));
            i = i + 1;
        }
        Action {
            id,
            container,
            steps,
            pipe: OutputPipe::new(id),
            repository_url,
            state: State::InProgress,
            started: 0,
        }
    }

    pub fn id(&self) -> (r: u32)
        ensures
            r == self.spec_id(),
    {
        self.id
    }

    pub fn state(&self) -> (r: State)
        ensures
            r == self.spec_state(),
    {
        self.state
    }

    pub fn container(&self) -> (r: &Container)
        ensures
            *r == self.spec_container(),
    {
        &self.container
    }

    pub fn steps(&self) -> (r: &Vec<Step>)
        ensures
            r@ == self.spec_steps(),
    {
        &self.steps
    }

    /// The request that clones the repository into the checkout directory.
    /// It runs from the container's default directory.
    pub fn setup_repository(&self) -> (r: ExecRequest)
        ensures
            r.container_id@ == self.spec_container().spec_id(),
            r.command@ == clone_command(self.spec_repository_url(), self.spec_id()),
            r.working_dir is None,
    {
        let mut command = String::from_str("git clone --depth 1 ");
        command.append(self.repository_url.as_str());
        command.append(" ");
        let digits = decimal_string(self.id as u64);
        command.append(digits.as_str());
        self.container.exec(command, None)
    }

    /// Ends the action in `state`, closing its output with the terminal
    /// message.
    fn finish(&mut self, state: State, exit_code: Option<i32>, outcome: Result<(), Error>) -> (r:
        Directive)
        requires
            old(self).wf(),
            old(self).state == State::InProgress,
            state != State::InProgress,
        ensures
            final(self).wf(),
            final(self).state == state,
            final(self).id == old(self).id,
            final(self).repository_url == old(self).repository_url,
            final(self).steps == old(self).steps,
            final(self).container == old(self).container,
            final(self).started == old(self).started,
            r matches Directive::Finish(f) && {
                &&& f.event == (StateEvent { action_id: old(self).id, state })
                &&& f.message.action_id == old(self).id
                &&& f.message.exit_code == exit_code
                &&& f.outcome == outcome
                &&& state == State::Completed ==> f.message.completion == Completion::Completed
                    && f.message.log@ == success_log()
                &&& state == State::Failed ==> f.message.completion == Completion::Failed
                    && f.message.log@ == failure_log()
            },
    {
        let (log, completion) = if matches!(state, State::Completed) {
            (String::from_str("Action completed"), Completion::Completed)
        } else {
            (String::from_str("Action failed"), Completion::Failed)
        };
        self.state = state;
        match self.pipe.output_log(log, completion, exit_code) {
            Some(message) => Directive::Finish(
                Finish { message, event: StateEvent { action_id: self.id, state }, outcome },
            ),
            None => Directive::Ignore,
        }
    }

    /// Advances the execution by one event and says what the runtime must
    /// do next.
    pub fn execute(&mut self, e: ExecEvent) -> (r: Directive)
        requires
            old(self).wf(),
        ensures
            final(self).wf(),
            final(self).model() == react(old(self).model(), e).0,
            old(self).directive_for(e, r),
            final(self).spec_id() == old(self).spec_id(),
            final(self).spec_repository_url() == old(self).spec_repository_url(),
            final(self).spec_steps() == old(self).spec_steps(),
            final(self).spec_container() == old(self).spec_container(),
    {
        if !matches!(self.state, State::InProgress) {
            return Directive::Ignore;
        }
        match e {
            ExecEvent::Start => {
                if self.started != 0 {
                    Directive::Ignore
                } else if self.steps.len() == 0 {
                    self.finish(State::Completed, Some(0), Ok(()))
                } else {
                    self.started = 1;
                    Directive::Run(self.steps[0].execute(&self.container))
                }
            },
            ExecEvent::Output(log) => {
                if self.started == 0 {
                    Directive::Ignore
                } else {
                    match self.pipe.output_log(log, Completion::Running, None) {
                        Some(message) => Directive::Forward(message),
                        None => Directive::Ignore,
                    }
                }
            },
            ExecEvent::Exited(code) => {
                if self.started == 0 {
                    Directive::Ignore
                } else if code != 0 {
                    self.finish(State::Failed, Some(code), Err(Error::StepOutputError(code)))
                } else if self.started < self.steps.len() {
                    let i = self.started;
                    self.started = i + 1;
                    Directive::Run(self.steps[i].execute(&self.container))
                } else {
                    self.finish(State::Completed, Some(0), Ok(()))
                }
            },
            ExecEvent::Failed(err) => {
                if self.started == 0 {
                    Directive::Ignore
                } else {
                    self.finish(State::Failed, None, Err(err))
                }
            },
        }
    }
}

impl Action {
    /// The outward view of this action.
    pub fn to_dto(&self) -> (r: ActionDto)
        ensures
            r.id == self.spec_id(),
            r.state == self.spec_state(),
            r.repo_url@ == self.spec_repository_url(),
            r.image@ == self.spec_container().spec_image(),
    {
        ActionDto {
            id: self.id,
            state: self.state(),
            repo_url: self.repository_url.clone(),
            image: self.container().image().clone(),
        }
    }
}

impl Action {
    /// The outcome of the repository clone, from what awaiting it gave: an
    /// error stands, a nonzero exit fails with its code.
    pub fn check_setup(exit: Result<i32, Error>) -> (r: Result<(), Error>)
        ensures
            match exit {
                Err(e) => r == Err::<(), Error>(e),
                Ok(code) => if code == 0 {
                    r is Ok
                } else {
                    r == Err::<(), Error>(Error::StepOutputError(code))
                },
            },
    {
        match exit {
            Err(e) => Err(e),
            Ok(code) => if code == 0 {
                Ok(())
            } else {
                Err(Error::StepOutputError(code))
            },
        }
    }
}

} // verus!
