use clr_host::error::HostError;
use clr_host::state::{DomainId, HostEvent, HostHandle, HostState, RuntimeSlot};

fn running() -> HostState {
    HostState::Running { host_handle: HostHandle(1), domain_id: DomainId(2) }
}

fn initialized() -> HostEvent {
    HostEvent::Initialized { host_handle: HostHandle(1), domain_id: DomainId(2) }
}

#[test]
fn a_host_starts_then_stops() {
    let started = HostState::Uninitialized.on(initialized());
    assert_eq!(started, Some(running()));
    assert_eq!(started.unwrap().on(HostEvent::Stopped), Some(HostState::ShutDown));
}

#[test]
fn no_state_takes_an_event_that_is_not_its_own() {
    assert_eq!(HostState::Uninitialized.on(HostEvent::Stopped), None);
    assert_eq!(running().on(initialized()), None);
    assert_eq!(HostState::ShutDown.on(initialized()), None);
    assert_eq!(HostState::ShutDown.on(HostEvent::Stopped), None);
}

#[test]
fn only_a_running_host_has_credentials() {
    assert_eq!(running().credentials(), Some((HostHandle(1), DomainId(2))));
    assert_eq!(HostState::Uninitialized.credentials(), None);
    assert_eq!(HostState::ShutDown.credentials(), None);
    assert!(running().is_running());
    assert!(!HostState::Uninitialized.is_running());
    assert!(!HostState::ShutDown.is_running());
}

#[test]
fn slot_is_taken_once() {
    let mut slot = RuntimeSlot::new();
    assert!(!slot.occupied());
    let token = slot.acquire().unwrap();
    assert!(slot.occupied());
    assert_eq!(slot.acquire().err(), Some(HostError::AlreadyInitialized));
    assert!(slot.occupied());
    slot.release(token);
    assert!(!slot.occupied());
    let again = slot.acquire().unwrap();
    assert!(slot.occupied());
    slot.release(again);
}
