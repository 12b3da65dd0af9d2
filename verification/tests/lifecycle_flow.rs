use mule::lifecycle::{Listener, ListenerState, Supervisor};

#[test]
fn full_graceful_shutdown() {
    let mut sup = Supervisor::new();
    assert!(!sup.is_stopped());
    sup.start();
    assert_eq!(sup.file_serve, ListenerState::Accepting);
    assert_eq!(sup.management, ListenerState::Accepting);
    assert_eq!(sup.health, ListenerState::Accepting);

    sup.signal();
    assert_eq!(sup.file_serve, ListenerState::Draining);
    assert_eq!(sup.management, ListenerState::Draining);
    assert_eq!(sup.health, ListenerState::Draining);
    assert!(!sup.is_stopped());

    sup.listener_exited(Listener::FileServe);
    assert!(!sup.is_stopped());
    sup.listener_exited(Listener::Management);
    assert!(!sup.is_stopped());
    sup.listener_exited(Listener::Health);
    assert!(sup.is_stopped());
    assert_eq!(sup.file_serve, ListenerState::Exited);
    assert_eq!(sup.management, ListenerState::Exited);
    assert_eq!(sup.health, ListenerState::Exited);
}

#[test]
fn one_fatal_listener_does_not_stop_the_others() {
    let mut sup = Supervisor::new();
    sup.start();
    // The management listener hits a fatal serve error on its own.
    sup.listener_exited(Listener::Management);
    assert_eq!(sup.file_serve, ListenerState::Accepting);
    assert_eq!(sup.health, ListenerState::Accepting);
    assert!(!sup.is_stopped());

    // The signal still drains the two live listeners; the exited one stays
    // exited.
    sup.signal();
    assert_eq!(sup.file_serve, ListenerState::Draining);
    assert_eq!(sup.management, ListenerState::Exited);
    assert_eq!(sup.health, ListenerState::Draining);

    sup.listener_exited(Listener::FileServe);
    sup.listener_exited(Listener::Health);
    assert!(sup.is_stopped());
}

#[test]
fn signal_before_start_changes_nothing() {
    let mut sup = Supervisor::new();
    sup.signal();
    assert_eq!(sup.file_serve, ListenerState::Idle);
    assert_eq!(sup.management, ListenerState::Idle);
    assert_eq!(sup.health, ListenerState::Idle);
    assert!(!sup.is_stopped());
}
