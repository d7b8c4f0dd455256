use std::collections::{HashMap, HashSet};

use sd_core::discovery::{
    DiscoveryManagerState, PollAction, PollEvent, RemoteIdentity, SERVICE_SHUTDOWN_CAPACITY,
};

type Meta = HashMap<String, String>;

fn state_with_services() -> DiscoveryManagerState<Meta> {
    let (mut state, _rx) = DiscoveryManagerState::<Meta>::new();
    let mut meta = HashMap::new();
    meta.insert("name".to_string(), "laptop".to_string());
    state.services.insert("files".to_string(), meta);
    state.services.insert("sync".to_string(), HashMap::new());
    state.discovered.insert("files".to_string(), HashMap::new());
    state.discovered.insert("sync".to_string(), HashMap::new());
    let mut known = HashSet::new();
    known.insert(RemoteIdentity { key: [7u8; 32] });
    state.known.insert("files".to_string(), known.clone());
    state.known.insert("sync".to_string(), known);
    state
}

#[test]
fn new_state_is_empty_with_a_bounded_shutdown_channel() {
    let (state, rx) = DiscoveryManagerState::<Meta>::new();
    assert!(state.services.is_empty());
    assert!(state.discovered.is_empty());
    assert!(state.known.is_empty());
    assert_eq!(SERVICE_SHUTDOWN_CAPACITY, 10);
    assert_eq!(state.service_shutdown_tx.max_capacity(), 10);
    assert_eq!(rx.max_capacity(), 10);
}

#[test]
fn shutdown_names_reach_the_manager() {
    let (state, mut rx) = DiscoveryManagerState::<Meta>::new();
    state.service_shutdown_tx.try_send("files".to_string()).unwrap();
    assert_eq!(rx.try_recv().unwrap(), "files");
}

#[test]
fn removing_a_service_forgets_it_everywhere() {
    let mut state = state_with_services();
    state.remove_service("files");
    assert!(!state.services.contains_key("files"));
    assert!(!state.discovered.contains_key("files"));
    assert!(!state.known.contains_key("files"));
    assert!(state.services.contains_key("sync"));
    assert!(state.discovered.contains_key("sync"));
    assert!(state.known.contains_key("sync"));
    assert_eq!(state.services.len(), 1);
}

#[test]
fn removing_a_service_twice_is_like_once() {
    let mut state = state_with_services();
    state.remove_service("files");
    state.remove_service("files");
    assert_eq!(state.services.len(), 1);
    assert_eq!(state.discovered.len(), 1);
    assert_eq!(state.known.len(), 1);
}

#[test]
fn removing_an_unknown_service_changes_nothing() {
    let mut state = state_with_services();
    state.remove_service("photos");
    assert_eq!(state.services.len(), 2);
    assert_eq!(state.discovered.len(), 2);
    assert_eq!(state.known.len(), 2);
}

#[test]
fn shutdown_message_removes_the_service_and_advertises() {
    let mut state = state_with_services();
    let action = state.handle_poll_event(true, PollEvent::ServiceShutdown(Some("sync".to_string())));
    assert_eq!(action, PollAction::Advertise);
    assert!(!state.services.contains_key("sync"));
    assert!(!state.discovered.contains_key("sync"));
    assert!(!state.known.contains_key("sync"));
    assert!(state.services.contains_key("files"));
}

#[test]
fn closed_shutdown_channel_still_advertises() {
    let mut state = state_with_services();
    let action = state.handle_poll_event(true, PollEvent::ServiceShutdown(None));
    assert_eq!(action, PollAction::Advertise);
    assert_eq!(state.services.len(), 2);
}

#[test]
fn broadcast_request_advertises_without_changes() {
    let mut state = state_with_services();
    assert_eq!(state.handle_poll_event(true, PollEvent::BroadcastRequested), PollAction::Advertise);
    assert_eq!(state.services.len(), 2);
    assert_eq!(state.known.len(), 2);
}

#[test]
fn mdns_progress_needs_nothing() {
    let mut state = state_with_services();
    assert_eq!(state.handle_poll_event(true, PollEvent::MdnsProgressed), PollAction::Idle);
    assert_eq!(state.services.len(), 2);
}

#[test]
fn without_mdns_nothing_is_advertised() {
    let mut state = state_with_services();
    assert_eq!(state.handle_poll_event(false, PollEvent::BroadcastRequested), PollAction::Idle);
    let action = state.handle_poll_event(false, PollEvent::ServiceShutdown(Some("files".to_string())));
    assert_eq!(action, PollAction::Idle);
    assert!(!state.services.contains_key("files"));
}

#[test]
fn shutdown_channel_holds_exactly_ten_names() {
    let (state, _rx) = DiscoveryManagerState::<Meta>::new();
    for i in 0..10 {
        assert!(state.service_shutdown_tx.try_send(format!("service-{i}")).is_ok());
    }
    assert!(matches!(
        state.service_shutdown_tx.try_send("one-too-many".to_string()),
        Err(tokio::sync::mpsc::error::TrySendError::Full(_))
    ));
}

#[test]
fn only_named_shutdowns_touch_the_state() {
    assert!(PollEvent::ServiceShutdown(Some("files".to_string())).touches_state());
    assert!(!PollEvent::ServiceShutdown(None).touches_state());
    assert!(!PollEvent::BroadcastRequested.touches_state());
    assert!(!PollEvent::MdnsProgressed.touches_state());
}

#[test]
fn actions_follow_the_event_and_mdns() {
    assert_eq!(PollEvent::BroadcastRequested.action(true), PollAction::Advertise);
    assert_eq!(PollEvent::ServiceShutdown(None).action(true), PollAction::Advertise);
    assert_eq!(PollEvent::MdnsProgressed.action(true), PollAction::Idle);
    assert_eq!(PollEvent::BroadcastRequested.action(false), PollAction::Idle);
}
