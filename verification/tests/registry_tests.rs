use peer_signaling::registry::ConnectionRegistry;
use peer_signaling::session::{Role, SignalingState};

#[test]
fn two_fetches_without_close_return_the_same_instance() {
    let mut reg = ConnectionRegistry::new();
    let first = reg.get_or_create_initiator();
    let id_after_first = reg.slot.as_ref().unwrap().id;
    let next_after_first = reg.next_id;
    let second = reg.get_or_create_initiator();
    // same identity, and the registry did not construct anything new
    assert_eq!(first, second);
    assert_eq!(reg.slot.as_ref().unwrap().id, id_after_first);
    assert_eq!(reg.next_id, next_after_first);
}

#[test]
fn first_fetch_constructs_a_stable_initiator() {
    let mut reg = ConnectionRegistry::new();
    assert!(reg.slot.is_none());
    let id = reg.get_or_create_initiator();
    assert_eq!(id, 0);
    let s = reg.slot.as_ref().unwrap();
    assert_eq!(s.role, Role::Initiator);
    assert_eq!(s.state, SignalingState::Stable);
}

#[test]
fn fetch_after_close_constructs_a_fresh_session() {
    let mut reg = ConnectionRegistry::new();
    let first = reg.get_or_create_initiator();
    reg.close_initiator();
    assert_eq!(reg.slot.as_ref().unwrap().state, SignalingState::Closed);
    let second = reg.get_or_create_initiator();
    assert_ne!(first, second);
    assert_eq!(reg.slot.as_ref().unwrap().state, SignalingState::Stable);
}

#[test]
fn take_and_put_round_trip_the_initiator() {
    let mut reg = ConnectionRegistry::new();
    let id = reg.get_or_create_initiator();
    let s = reg.take_initiator().unwrap();
    assert_eq!(s.id, id);
    assert!(reg.slot.is_none());
    reg.put_initiator(s);
    assert_eq!(reg.slot.as_ref().unwrap().id, id);
}
