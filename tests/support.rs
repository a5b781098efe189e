use fleet_agent::container::{command_status, oci_architecture, CommandStatus, Container};
use fleet_agent::error::Error;
use fleet_agent::kernel::KernelBuilder;
use fleet_agent::monitor::{
    get_github_api_url, get_github_repo_url, listens_to, pull_request_key, ChangeWatcher,
    WatchedEvent,
};
use fleet_agent::output::{Completion, OutputPipe};
use fleet_agent::scheduler::SchedulerService;
use fleet_agent::step::Step;
use fleet_agent::text::decimal_string;

#[test]
fn decimal_rendering() {
    assert_eq!(decimal_string(0), "0");
    assert_eq!(decimal_string(7), "7");
    assert_eq!(decimal_string(10), "10");
    assert_eq!(decimal_string(4294967295), "4294967295");
    assert_eq!(decimal_string(u64::MAX), "18446744073709551615");
}

#[test]
fn github_urls() {
    assert_eq!(get_github_api_url("rust-lang", "rust"), "https://api.github.com/repos/rust-lang/rust");
    assert_eq!(get_github_repo_url("x", "y"), "https://github.com/x/y");
}

#[test]
fn watcher_event_filter() {
    assert!(listens_to(&"commit".to_string(), WatchedEvent::Commit));
    assert!(!listens_to(&"commit".to_string(), WatchedEvent::Release));
    assert!(listens_to(&"*".to_string(), WatchedEvent::PullRequest));
    assert!(listens_to(&"pull_request".to_string(), WatchedEvent::PullRequest));
    assert!(listens_to(&"release".to_string(), WatchedEvent::Release));
    assert!(!listens_to(&"tag".to_string(), WatchedEvent::Release));
}

#[test]
fn change_watcher_fires_on_new_value_only() {
    let mut w = ChangeWatcher::new(Some("abc".to_string()));
    assert!(!w.observe("abc".to_string()));
    assert!(w.observe("def".to_string()));
    assert!(!w.observe("def".to_string()));
    let mut empty = ChangeWatcher::new(None);
    assert!(empty.observe("x".to_string()));
}

#[test]
fn pull_request_keys() {
    assert_eq!(pull_request_key(42, "Fix"), "42 Fix");
}

#[test]
fn scheduler_registration() {
    let mut s = SchedulerService::init("http://[::1]".to_string(), 9001);
    assert_eq!(s.report_health(), Err(Error::NotRegisteredError));
    let host = s.hostname();
    assert_eq!(host.host, "http://[::1]");
    assert_eq!(host.port, 9001);
    s.register(17);
    assert_eq!(s.report_health(), Ok(17));
    assert_eq!(s.agent_id(), Some(17));
}

#[test]
fn pipe_closes_after_terminal_message() {
    let mut pipe = OutputPipe::new(3);
    let m = pipe.output_log("x".to_string(), Completion::Running, None).unwrap();
    assert_eq!(m.action_id, 3);
    let t = pipe.output_log("done".to_string(), Completion::Completed, Some(0)).unwrap();
    assert_eq!(t.exit_code, Some(0));
    assert!(pipe.output_log("y".to_string(), Completion::Running, None).is_none());
}

#[test]
fn kernel_builder_keeps_its_paths() {
    let k = KernelBuilder::new("/ramfs".to_string(), "/build".to_string(), "cfg".to_string());
    assert_eq!(k.init_ram_fs(), "/ramfs");
    assert_eq!(k.build_dir(), "/build");
    assert_eq!(k.config(), "cfg");
}

#[test]
fn step_keeps_command_and_directory() {
    let s = Step::new("make".to_string(), Some("/1".to_string()));
    assert_eq!(s.command, "make");
    assert_eq!(s.execute_in.as_deref(), Some("/1"));
}

#[test]
fn image_platform_architecture() {
    assert_eq!(oci_architecture(&"x86_64".to_string()), "amd64");
    assert_eq!(oci_architecture(&"aarch64".to_string()), "arm64");
    assert_eq!(oci_architecture(&"riscv64".to_string()), "riscv64");
}

#[test]
fn command_status_readings() {
    assert_eq!(command_status(Some(false), Some(0)), CommandStatus::Exited(0));
    assert_eq!(command_status(Some(false), Some(1)), CommandStatus::Exited(1));
    assert_eq!(command_status(Some(true), None), CommandStatus::Running);
    assert_eq!(command_status(Some(false), None), CommandStatus::Exited(0));
    assert_eq!(command_status(None, None), CommandStatus::Unknown);
    assert_eq!(command_status(None, Some(1 << 40)), CommandStatus::Unknown);
}

#[test]
fn container_rootfs_follows_image() {
    let c = Container::with_id("9".to_string(), "alpine".to_string());
    assert_eq!(c.rootfs(), "/tmp/containerd/unpacked/alpine");
    assert_eq!(c.id(), "9");
}
