use peer_signaling::candidate::{Candidate, CandidateQueue};

fn cand(hint: &[u8], seq: u64) -> Candidate {
    Candidate { hint: hint.to_vec(), discovery_seq: seq }
}

#[test]
fn enqueue_then_drain_preserves_arrival_order() {
    let mut q = CandidateQueue::new();
    q.enqueue(cand(b"a", 0));
    q.enqueue(cand(b"b", 1));
    q.enqueue(cand(b"c", 2));
    assert_eq!(q.len(), 3);
    let out = q.drain();
    assert_eq!(out.len(), 3);
    assert_eq!(out[0].hint, b"a".to_vec());
    assert_eq!(out[1].hint, b"b".to_vec());
    assert_eq!(out[2].hint, b"c".to_vec());
    assert_eq!(out[0].discovery_seq, 0);
    assert_eq!(out[2].discovery_seq, 2);
    assert_eq!(q.len(), 0);
}

#[test]
fn drain_on_empty_queue_returns_empty_and_is_idempotent() {
    let mut q = CandidateQueue::new();
    let first = q.drain();
    assert!(first.is_empty());
    let second = q.drain();
    assert!(second.is_empty());
    assert_eq!(q.len(), 0);
}

#[test]
fn drain_happens_once_then_queue_restarts_empty() {
    let mut q = CandidateQueue::new();
    q.enqueue(cand(b"x", 7));
    let out = q.drain();
    assert_eq!(out.len(), 1);
    assert_eq!(out[0].hint, b"x".to_vec());
    // a second drain yields nothing: the buffered candidates left exactly once
    assert!(q.drain().is_empty());
}
