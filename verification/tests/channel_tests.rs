use peer_signaling::channel::{ChannelSession, ChannelState};
use peer_signaling::errors::ChannelError;

#[test]
fn send_before_open_fails_with_not_open() {
    let mut c = ChannelSession::new(b"hnefatafl".to_vec());
    assert_eq!(c.state, ChannelState::Connecting);
    assert_eq!(c.send(b"ping".to_vec()), Err(ChannelError::NotOpen));
    assert!(c.outbox.is_empty());
}

#[test]
fn send_succeeds_once_open() {
    let mut c = ChannelSession::new(b"hnefatafl".to_vec());
    assert!(c.handle_open());
    assert_eq!(c.state, ChannelState::Open);
    c.send(b"ping".to_vec()).unwrap();
    assert_eq!(c.outbox.len(), 1);
    assert_eq!(c.outbox[0], b"ping".to_vec());
}

#[test]
fn send_after_close_fails_with_not_open() {
    let mut c = ChannelSession::new(b"hnefatafl".to_vec());
    c.handle_open();
    c.close();
    assert_eq!(c.send(b"ping".to_vec()), Err(ChannelError::NotOpen));
    assert!(c.outbox.is_empty());
}

#[test]
fn open_event_fires_only_from_connecting() {
    let mut c = ChannelSession::new(b"l".to_vec());
    assert!(c.handle_open());
    assert!(!c.handle_open());
    c.close();
    assert!(!c.handle_open());
    assert_eq!(c.state, ChannelState::Closed);
}

#[test]
fn three_messages_yield_exactly_three_replies() {
    // initiator's channel and responder's channel, both open
    let mut a = ChannelSession::new(b"hnefatafl".to_vec());
    let mut b = ChannelSession::new(b"hnefatafl".to_vec());
    a.handle_open();
    b.handle_open();
    for _ in 0..3 {
        a.send(b"ping".to_vec()).unwrap();
        // the transport delivers the freshly sent payload to the peer
        let delivered = a.outbox.last().unwrap().clone();
        assert!(b.on_message(delivered));
    }
    // the responder's policy answered exactly once per message:
    // no duplicates, no drops
    assert_eq!(b.inbox.len(), 3);
    assert_eq!(b.outbox.len(), 3);
    for reply in &b.outbox {
        assert_eq!(reply, &b"ping".to_vec());
    }
}

#[test]
fn message_while_not_open_is_dropped_without_reply() {
    let mut c = ChannelSession::new(b"l".to_vec());
    assert!(!c.on_message(b"ping".to_vec()));
    c.handle_open();
    c.close();
    assert!(!c.on_message(b"ping".to_vec()));
    assert!(c.inbox.is_empty());
    assert!(c.outbox.is_empty());
}
