use fleet_agent::action::Action;
use fleet_agent::broker::{Channel, Event};
use fleet_agent::container::Container;
use fleet_agent::error::Error;
use fleet_agent::service::ActionService;

fn action(id: u32, url: &str) -> Action {
    let container = Container::with_id("c".to_string(), "alpine".to_string());
    Action::new(id, container, vec!["true".to_string()], url.to_string())
}

#[test]
fn create_then_get() {
    let mut service = ActionService::new();
    assert!(service.create(action(10, "https://a")).is_ok());
    let found = service.get(10).ok().unwrap();
    assert_eq!(found.id(), 10);
    assert_eq!(found.repository_url, "https://a");
    assert_eq!(service.get(11).err(), Some(Error::ActionNotFound));
}

#[test]
fn create_announces_the_action() {
    let mut service = ActionService::new();
    let mut sub = service.creation_stream();
    assert!(service.action_events().poll(&mut sub).unwrap().is_none());
    assert!(service.create(action(12, "https://b")).is_ok());
    let ev = service.action_events().poll(&mut sub).unwrap().as_ref().unwrap();
    assert_eq!(ev.event, Event::Creation);
    assert_eq!(ev.id, "12");
    let dto = ev.action.as_ref().unwrap();
    assert_eq!(dto.id, 12);
    assert_eq!(dto.repo_url, "https://b");
    assert_eq!(dto.image, "alpine");
}

#[test]
fn create_replaces_same_id() {
    let mut service = ActionService::new();
    assert!(service.create(action(1, "https://old")).is_ok());
    assert!(service.create(action(1, "https://new")).is_ok());
    assert_eq!(service.list().len(), 1);
    assert_eq!(service.get(1).ok().unwrap().repository_url, "https://new");
}

#[test]
fn delete_then_get_fails() {
    let mut service = ActionService::new();
    assert!(service.create(action(20, "u")).is_ok());
    assert!(service.create(action(21, "v")).is_ok());
    let removed = service.delete(20).ok().unwrap();
    assert_eq!(removed.id(), 20);
    assert_eq!(service.get(20).err(), Some(Error::ActionNotFound));
    assert!(service.get(21).is_ok());
    let ev = service.action_events().current().as_ref().unwrap();
    assert_eq!(ev.event, Event::Deletion);
    assert_eq!(ev.id, "20");
    assert!(ev.action.is_none());
}

#[test]
fn delete_unknown_changes_nothing() {
    let mut service = ActionService::new();
    assert!(service.create(action(30, "u")).is_ok());
    let version = service.action_events().version();
    assert_eq!(service.delete(31).err(), Some(Error::ActionNotFound));
    assert_eq!(service.list().len(), 1);
    assert_eq!(service.action_events().version(), version);
}

#[test]
fn deleted_action_is_detached() {
    let mut service = ActionService::new();
    assert!(service.create(action(40, "u")).is_ok());
    assert!(service.delete(40).is_ok());
    let r = service.execute(40, fleet_agent::action::ExecEvent::Start);
    assert_eq!(r.err(), Some(Error::ActionNotFound));
}

#[test]
fn late_subscriber_sees_latest_then_each_new() {
    let mut ch: Channel<u32> = Channel::new(0);
    for v in 1..=3 {
        assert!(ch.send_event(v).is_ok());
    }
    let mut sub = ch.subscribe();
    assert_eq!(ch.poll(&mut sub), Some(&3));
    assert_eq!(ch.poll(&mut sub), None);
    assert!(ch.send_event(4).is_ok());
    assert_eq!(ch.poll(&mut sub), Some(&4));
    assert!(ch.send_event(5).is_ok());
    assert_eq!(ch.poll(&mut sub), Some(&5));
    assert_eq!(ch.version(), 5);
}

#[test]
fn slow_subscriber_coalesces() {
    let mut ch: Channel<&str> = Channel::new("init");
    let mut sub = ch.subscribe();
    assert_eq!(ch.poll(&mut sub), Some(&"init"));
    assert!(ch.send_event("a").is_ok());
    assert!(ch.send_event("b").is_ok());
    assert!(ch.send_event("c").is_ok());
    assert_eq!(ch.poll(&mut sub), Some(&"c"));
    assert_eq!(ch.poll(&mut sub), None);
    assert_eq!(*ch.current(), "c");
}

#[test]
fn subscribers_are_independent() {
    let mut ch: Channel<u8> = Channel::new(1);
    let mut first = ch.subscribe();
    assert_eq!(ch.poll(&mut first), Some(&1));
    assert!(ch.send_event(2).is_ok());
    let mut second = ch.subscribe();
    assert_eq!(ch.poll(&mut second), Some(&2));
    assert_eq!(ch.poll(&mut first), Some(&2));
}
