use peer_signaling::candidate::Candidate;
use peer_signaling::coordinator::{NegotiationCoordinator, NegotiationPhase};
use peer_signaling::errors::NegotiationError;
use peer_signaling::session::{Role, SdpType, SignalingSession, SignalingState};

fn cand(hint: &[u8], seq: u64) -> Candidate {
    Candidate { hint: hint.to_vec(), discovery_seq: seq }
}

fn fresh_coordinator() -> NegotiationCoordinator {
    NegotiationCoordinator::new(
        SignalingSession::new(Role::Initiator, 0),
        SignalingSession::new(Role::Responder, 1),
    )
}

#[test]
fn full_run_ends_stable_with_descriptions_applied() {
    let mut c = fresh_coordinator();
    c.start().unwrap();
    c.offer_created(Some(b"sdp-offer".to_vec())).unwrap();
    c.local_offer_applied(true).unwrap();
    let drained_r = c.remote_offer_applied(true).unwrap();
    assert!(drained_r.is_empty());
    c.answer_created(Some(b"sdp-answer".to_vec())).unwrap();
    c.local_answer_applied(true).unwrap();
    let drained_i = c.remote_answer_applied(true).unwrap();
    assert!(drained_i.is_empty());

    assert_eq!(c.phase, NegotiationPhase::Done);
    // the initiator ends stable with the non-empty answer applied
    assert_eq!(c.initiator.state, SignalingState::Stable);
    let a = c.initiator.remote_desc.as_ref().unwrap();
    assert_eq!(a.kind, SdpType::Answer);
    assert_eq!(a.sdp, b"sdp-answer".to_vec());
    // and the responder stable with the offer applied
    assert_eq!(c.responder.state, SignalingState::Stable);
    let o = c.responder.remote_desc.as_ref().unwrap();
    assert_eq!(o.kind, SdpType::Offer);
    assert_eq!(o.sdp, b"sdp-offer".to_vec());
}

/// Runs a full negotiation, relaying one candidate from the initiator's
/// engine toward the responder just before step number `point` (or after
/// all six, for `point == 7`/`point == 8`). Returns every hint that was
/// released for application to the responder's engine, in release order.
fn run_with_candidate_to_responder_at(point: usize) -> Vec<Vec<u8>> {
    let mut c = fresh_coordinator();
    let mut applied: Vec<Vec<u8>> = Vec::new();
    let mut inject = |c: &mut NegotiationCoordinator, applied: &mut Vec<Vec<u8>>, at: usize| {
        if at == point {
            if let Some(fwd) = c.relay_candidate(Role::Initiator, cand(b"hint", 0)) {
                applied.push(fwd.hint);
            }
        }
    };

    inject(&mut c, &mut applied, 0);
    c.start().unwrap();
    inject(&mut c, &mut applied, 1);
    c.offer_created(Some(b"sdp-offer".to_vec())).unwrap();
    inject(&mut c, &mut applied, 2);
    c.local_offer_applied(true).unwrap();
    inject(&mut c, &mut applied, 3);
    let drained = c.remote_offer_applied(true).unwrap();
    for d in drained {
        applied.push(d.hint);
    }
    inject(&mut c, &mut applied, 4);
    c.answer_created(Some(b"sdp-answer".to_vec())).unwrap();
    inject(&mut c, &mut applied, 5);
    c.local_answer_applied(true).unwrap();
    inject(&mut c, &mut applied, 6);
    c.remote_answer_applied(true).unwrap();
    inject(&mut c, &mut applied, 7);
    assert_eq!(c.phase, NegotiationPhase::Done);
    applied
}

#[test]
fn candidate_is_applied_exactly_once_at_every_interleaving() {
    // whatever point the candidate arrives at relative to the six steps,
    // it reaches the responder's engine exactly once, and only once the
    // remote description is set
    for point in 0..8 {
        let applied = run_with_candidate_to_responder_at(point);
        assert_eq!(applied.len(), 1, "interleaving point {}", point);
        assert_eq!(applied[0], b"hint".to_vec());
    }
}

#[test]
fn early_candidates_are_buffered_and_drain_with_the_remote_offer() {
    let mut c = fresh_coordinator();
    // three candidates race ahead of the whole exchange
    assert!(c.relay_candidate(Role::Initiator, cand(b"c1", 0)).is_none());
    assert!(c.relay_candidate(Role::Initiator, cand(b"c2", 1)).is_none());
    c.start().unwrap();
    c.offer_created(Some(b"sdp-offer".to_vec())).unwrap();
    assert!(c.relay_candidate(Role::Initiator, cand(b"c3", 2)).is_none());
    c.local_offer_applied(true).unwrap();
    let drained = c.remote_offer_applied(true).unwrap();
    let hints: Vec<_> = drained.iter().map(|d| d.hint.clone()).collect();
    assert_eq!(hints, vec![b"c1".to_vec(), b"c2".to_vec(), b"c3".to_vec()]);
    // from now on, relayed candidates pass straight through
    let fwd = c.relay_candidate(Role::Initiator, cand(b"c4", 3));
    assert_eq!(fwd.unwrap().hint, b"c4".to_vec());
}

#[test]
fn candidates_toward_initiator_buffer_until_the_answer_returns() {
    let mut c = fresh_coordinator();
    c.start().unwrap();
    c.offer_created(Some(b"sdp-offer".to_vec())).unwrap();
    c.local_offer_applied(true).unwrap();
    c.remote_offer_applied(true).unwrap();
    // the responder's engine discovers candidates while the answer is
    // still in flight; the initiator has no remote description yet
    assert!(c.relay_candidate(Role::Responder, cand(b"r1", 0)).is_none());
    c.answer_created(Some(b"sdp-answer".to_vec())).unwrap();
    assert!(c.relay_candidate(Role::Responder, cand(b"r2", 1)).is_none());
    c.local_answer_applied(true).unwrap();
    let drained = c.remote_answer_applied(true).unwrap();
    let hints: Vec<_> = drained.iter().map(|d| d.hint.clone()).collect();
    assert_eq!(hints, vec![b"r1".to_vec(), b"r2".to_vec()]);
    let fwd = c.relay_candidate(Role::Responder, cand(b"r3", 2));
    assert_eq!(fwd.unwrap().hint, b"r3".to_vec());
}

#[test]
fn engine_failure_at_offer_creation_closes_both_sessions() {
    let mut c = fresh_coordinator();
    c.start().unwrap();
    let r = c.offer_created(None);
    assert_eq!(r, Err(NegotiationError::EngineFailure));
    assert_eq!(c.phase, NegotiationPhase::Failed);
    assert_eq!(c.initiator.state, SignalingState::Closed);
    assert_eq!(c.responder.state, SignalingState::Closed);
    // candidates arriving after the failure are dropped, not buffered
    assert!(c.relay_candidate(Role::Initiator, cand(b"late", 0)).is_none());
}

#[test]
fn empty_description_counts_as_engine_failure() {
    let mut c = fresh_coordinator();
    c.start().unwrap();
    let r = c.offer_created(Some(Vec::new()));
    assert_eq!(r, Err(NegotiationError::EngineFailure));
    assert_eq!(c.phase, NegotiationPhase::Failed);
}

#[test]
fn rejected_local_offer_closes_both_sessions() {
    let mut c = fresh_coordinator();
    c.start().unwrap();
    c.offer_created(Some(b"sdp-offer".to_vec())).unwrap();
    let r = c.local_offer_applied(false);
    assert_eq!(r, Err(NegotiationError::EngineFailure));
    assert_eq!(c.phase, NegotiationPhase::Failed);
    assert_eq!(c.initiator.state, SignalingState::Closed);
    assert_eq!(c.responder.state, SignalingState::Closed);
}

#[test]
fn rejected_remote_answer_closes_both_sessions() {
    let mut c = fresh_coordinator();
    c.start().unwrap();
    c.offer_created(Some(b"sdp-offer".to_vec())).unwrap();
    c.local_offer_applied(true).unwrap();
    c.remote_offer_applied(true).unwrap();
    c.answer_created(Some(b"sdp-answer".to_vec())).unwrap();
    c.local_answer_applied(true).unwrap();
    let r = c.remote_answer_applied(false);
    assert!(matches!(r, Err(NegotiationError::EngineFailure)));
    assert_eq!(c.phase, NegotiationPhase::Failed);
}

#[test]
fn steps_out_of_order_are_refused_without_side_effects() {
    let mut c = fresh_coordinator();
    let r = c.offer_created(Some(b"sdp".to_vec()));
    assert_eq!(r, Err(NegotiationError::InvalidTransition));
    assert_eq!(c.phase, NegotiationPhase::Start);
    assert_eq!(c.initiator.state, SignalingState::Stable);

    c.start().unwrap();
    // repeating a finished step is refused too
    assert_eq!(c.start(), Err(NegotiationError::InvalidTransition));
    assert_eq!(c.phase, NegotiationPhase::OfferRequested);
}

#[test]
fn abort_closes_both_sessions() {
    let mut c = fresh_coordinator();
    c.start().unwrap();
    c.abort();
    assert_eq!(c.phase, NegotiationPhase::Failed);
    assert_eq!(c.initiator.state, SignalingState::Closed);
    assert_eq!(c.responder.state, SignalingState::Closed);
}
