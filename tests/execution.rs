use fleet_agent::action::{Action, Directive, ExecEvent};
use fleet_agent::container::Container;
use fleet_agent::error::Error;
use fleet_agent::output::Completion;
use fleet_agent::request::{ActionRequest, ExecutionContext, RequestError};
use fleet_agent::service::ActionService;
use fleet_agent::state::State;

fn action_with(id: u32, commands: &[&str]) -> Action {
    let container = Container::with_id("c1".to_string(), "alpine".to_string());
    let commands: Vec<String> = commands.iter().map(|c| c.to_string()).collect();
    Action::new(id, container, commands, "https://github.com/x/y".to_string())
}

fn run_command(d: &Directive) -> String {
    match d {
        Directive::Run(req) => req.command.clone(),
        _ => panic!("expected a run directive"),
    }
}

#[test]
fn echo_hi_scenario() {
    let request = ActionRequest {
        context: Some(ExecutionContext { container_image: Some("alpine".to_string()) }),
        repo_url: "https://github.com/x/y".to_string(),
        commands: vec!["echo hi".to_string()],
        action_id: 7,
    };
    let action = request.prepare().ok().expect("valid request");
    assert_eq!(action.container().image(), "alpine");
    let clone = action.setup_repository();
    assert_eq!(clone.command, "git clone --depth 1 https://github.com/x/y 7");
    assert!(clone.working_dir.is_none());
    assert!(Action::check_setup(Ok(0)).is_ok());

    let mut service = ActionService::new();
    assert!(service.create(action).is_ok());
    assert!(service.get(7).is_ok());

    let run = service.execute(7, ExecEvent::Start).ok().unwrap();
    match &run {
        Directive::Run(req) => {
            assert_eq!(req.command, "echo hi");
            assert_eq!(req.working_dir.as_deref(), Some("/7"));
        }
        _ => panic!("expected the step to run"),
    }
    match service.execute(7, ExecEvent::Output("hi".to_string())).ok().unwrap() {
        Directive::Forward(m) => {
            assert_eq!(m.log, "hi");
            assert_eq!(m.action_id, 7);
            assert_eq!(m.completion, Completion::Running);
            assert_eq!(m.completion.code(), 2);
            assert_eq!(m.exit_code, None);
        }
        _ => panic!("expected the output to be forwarded"),
    }
    match service.execute(7, ExecEvent::Exited(0)).ok().unwrap() {
        Directive::Finish(f) => {
            assert_eq!(f.message.completion, Completion::Completed);
            assert_eq!(f.message.log, "Action completed");
            assert_eq!(f.event.action_id, 7);
            assert_eq!(f.event.state, State::Completed);
            assert_eq!(f.outcome, Ok(()));
        }
        _ => panic!("expected the action to finish"),
    }
    assert_eq!(service.get(7).ok().unwrap().state(), State::Completed);
    assert_eq!(service.list().len(), 1);
    let latest = service.state_events().current().unwrap();
    assert_eq!(latest.action_id, 7);
    assert_eq!(latest.state, State::Completed);
}

#[test]
fn false_command_scenario() {
    let mut service = ActionService::new();
    assert!(service.create(action_with(7, &["false"])).is_ok());
    assert_eq!(run_command(&service.execute(7, ExecEvent::Start).ok().unwrap()), "false");
    match service.execute(7, ExecEvent::Exited(1)).ok().unwrap() {
        Directive::Finish(f) => {
            assert_eq!(f.message.completion, Completion::Failed);
            assert_eq!(f.message.completion.code(), 3);
            assert_eq!(f.message.exit_code, Some(1));
            assert_eq!(f.message.log, "Action failed");
            assert_eq!(f.event.state, State::Failed);
            assert_eq!(f.outcome, Err(Error::StepOutputError(1)));
        }
        _ => panic!("expected the action to fail"),
    }
    let record = service.get(7).ok().unwrap();
    assert_eq!(record.state(), State::Failed);
}

#[test]
fn failing_step_stops_the_action() {
    let mut a = action_with(3, &["a", "b", "c", "d"]);
    assert_eq!(run_command(&a.execute(ExecEvent::Start)), "a");
    assert_eq!(run_command(&a.execute(ExecEvent::Exited(0))), "b");
    let mut finishes = 0;
    match a.execute(ExecEvent::Exited(42)) {
        Directive::Finish(f) => {
            finishes += 1;
            assert_eq!(f.event.state, State::Failed);
            assert_eq!(f.message.exit_code, Some(42));
            assert_eq!(f.outcome, Err(Error::StepOutputError(42)));
        }
        _ => panic!("expected the action to fail"),
    }
    for e in [ExecEvent::Exited(0), ExecEvent::Start, ExecEvent::Output("late".to_string())] {
        match a.execute(e) {
            Directive::Ignore => {}
            _ => finishes += 1,
        }
    }
    assert_eq!(finishes, 1);
    assert_eq!(a.state(), State::Failed);
}

#[test]
fn all_steps_succeed() {
    let mut a = action_with(4, &["one", "two", "three"]);
    let mut ran = vec![run_command(&a.execute(ExecEvent::Start))];
    ran.push(run_command(&a.execute(ExecEvent::Exited(0))));
    ran.push(run_command(&a.execute(ExecEvent::Exited(0))));
    assert_eq!(ran, vec!["one", "two", "three"]);
    match a.execute(ExecEvent::Exited(0)) {
        Directive::Finish(f) => {
            assert_eq!(f.event.state, State::Completed);
            assert_eq!(f.message.completion, Completion::Completed);
            assert_eq!(f.message.exit_code, Some(0));
        }
        _ => panic!("expected completion"),
    }
    assert_eq!(a.state(), State::Completed);
}

#[test]
fn action_without_steps_completes_at_start() {
    let mut a = action_with(5, &[]);
    match a.execute(ExecEvent::Start) {
        Directive::Finish(f) => assert_eq!(f.event.state, State::Completed),
        _ => panic!("expected completion"),
    }
}

#[test]
fn output_keeps_its_order_and_terminal_is_last() {
    let mut a = action_with(9, &["build"]);
    let mut messages = Vec::new();
    let _ = a.execute(ExecEvent::Output("too early".to_string()));
    let _ = a.execute(ExecEvent::Start);
    for line in ["l1", "l2", "l3"] {
        if let Directive::Forward(m) = a.execute(ExecEvent::Output(line.to_string())) {
            messages.push(m);
        }
    }
    if let Directive::Finish(f) = a.execute(ExecEvent::Exited(2)) {
        messages.push(f.message);
    }
    if let Directive::Forward(m) = a.execute(ExecEvent::Output("after".to_string())) {
        messages.push(m);
    }
    let logs: Vec<&str> = messages.iter().map(|m| m.log.as_str()).collect();
    assert_eq!(logs, vec!["l1", "l2", "l3", "Action failed"]);
    assert_eq!(messages.last().unwrap().completion, Completion::Failed);
}

#[test]
fn step_that_cannot_run_fails_the_action() {
    let mut a = action_with(6, &["x"]);
    let _ = a.execute(ExecEvent::Start);
    match a.execute(ExecEvent::Failed(Error::ContainerExecDetachedError)) {
        Directive::Finish(f) => {
            assert_eq!(f.event.state, State::Failed);
            assert_eq!(f.message.exit_code, None);
            assert_eq!(f.outcome, Err(Error::ContainerExecDetachedError));
        }
        _ => panic!("expected failure"),
    }
}

#[test]
fn steps_run_in_checkout_directory() {
    let a = action_with(1234, &["ls"]);
    assert_eq!(a.steps().len(), 1);
    assert_eq!(a.steps()[0].execute_in.as_deref(), Some("/1234"));
    let req = a.steps()[0].execute(a.container());
    assert_eq!(req.container_id, "c1");
    assert_eq!(req.command, "ls");
}

#[test]
fn setup_outcomes() {
    assert_eq!(Action::check_setup(Ok(0)), Ok(()));
    assert_eq!(Action::check_setup(Ok(128)), Err(Error::StepOutputError(128)));
    assert_eq!(Action::check_setup(Err(Error::ExecError)), Err(Error::ExecError));
}

#[test]
fn request_without_context_is_refused() {
    let request = ActionRequest {
        context: None,
        repo_url: "u".to_string(),
        commands: vec![],
        action_id: 1,
    };
    let err = request.prepare().err().unwrap();
    assert_eq!(err, RequestError::MissingContext);
    assert_eq!(err.message(), "Context is missing");
}

#[test]
fn request_without_image_is_refused() {
    let request = ActionRequest {
        context: Some(ExecutionContext { container_image: None }),
        repo_url: "u".to_string(),
        commands: vec![],
        action_id: 1,
    };
    let err = request.prepare().err().unwrap();
    assert_eq!(err, RequestError::MissingContainerImage);
    assert_eq!(err.message(), "Container image is missing");
}

#[test]
fn built_container_gets_a_decimal_id() {
    let c = Container::build("alpine".to_string());
    assert!(!c.id().is_empty());
    assert!(c.id().chars().all(|ch| ch.is_ascii_digit()));
    assert_eq!(c.image(), "alpine");
}

#[test]
fn completion_codes() {
    assert_eq!(Completion::Running.code(), 2);
    assert_eq!(Completion::Completed.code(), 1);
    assert_eq!(Completion::Failed.code(), 3);
}

#[test]
fn state_defaults_to_in_progress() {
    assert_eq!(State::default(), State::InProgress);
    assert!(!State::InProgress.is_terminal());
    assert!(State::Completed.is_terminal());
    assert!(State::Failed.is_terminal());
}
