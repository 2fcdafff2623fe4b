//! Orchestrates one negotiation attempt between the initiator and the
//! responder session: the six signaling steps in strict sequence — offer
//! creation, local offer, remote offer, answer creation, local answer,
//! remote answer — with candidate relay allowed to interleave freely at
//! any point. The asynchronous engine work between steps is done by the
//! caller, who reports each result back; on any step failing, both
//! sessions are closed and a single consolidated failure is returned.

use vstd::prelude::*;

use crate::candidate::Candidate;
use crate::errors::NegotiationError;
use crate::session::{Role, SdpType, SessionDescription, SignalingSession};

verus! {

/// Where a negotiation attempt stands: which of the six steps has
/// completed, or that it finished / failed.
#[derive(Debug, Clone, Copy, PartialEq, Eq, Structural)]
pub enum NegotiationPhase {
    /// Attempt created; nothing requested yet.
    Start,
    /// Offer creation is outstanding at the initiator's engine.
    OfferRequested,
    /// The offer exists; the initiator's engine must accept it locally.
    OfferCreated,
    /// The initiator holds its local offer; the offer travels to the
    /// responder's engine.
    LocalOfferSet,
    /// The responder holds the remote offer; answer creation is
    /// outstanding at its engine.
    AnswerRequested,
    /// The answer exists; the responder's engine must accept it locally.
    AnswerCreated,
    /// The responder holds its local answer; the answer travels back to
    /// the initiator's engine.
    LocalAnswerSet,
    /// Both sides are stable; the exchange succeeded.
    Done,
    /// A step failed; both sessions are closed.
    Failed,
}

/// One negotiation attempt over a pair of sessions.
pub struct NegotiationCoordinator {
    pub initiator: SignalingSession,
    pub responder: SignalingSession,
    pub phase: NegotiationPhase,
    /// The offer once the initiator's engine produced it.
    pub offer: Option<SessionDescription>,
    /// The answer once the responder's engine produced it.
    pub answer: Option<SessionDescription>,
}

impl NegotiationCoordinator {
    /// Coordinator invariant: both sessions are well formed, play the
    /// right roles, and are exactly as far along as the phase says.
    pub open spec fn wf(self) -> bool {
        &&& self.initiator.wf()
        &&& self.responder.wf()
        &&& self.initiator.role is Initiator
        &&& self.responder.role is Responder
        &&& match self.phase {
            NegotiationPhase::Start => {
                &&& self.initiator.state is Stable
                &&& self.initiator.pending is None
                &&& self.responder.state is Stable
                &&& self.responder.pending is None
                &&& self.offer is None
                &&& self.answer is None
            },
            NegotiationPhase::OfferRequested => {
                &&& self.initiator.state is Stable
                &&& self.initiator.pending == Some(SdpType::Offer)
                &&& self.responder.state is Stable
                &&& self.responder.pending is None
                &&& self.offer is None
                &&& self.answer is None
            },
            NegotiationPhase::OfferCreated => {
                &&& self.initiator.state is Stable
                &&& self.initiator.pending is None
                &&& self.responder.state is Stable
                &&& self.responder.pending is None
                &&& (self.offer matches Some(o) && o.kind is Offer && o.well_formed())
                &&& self.answer is None
            },
            NegotiationPhase::LocalOfferSet => {
                &&& self.initiator.state is HaveLocalOffer
                &&& self.initiator.pending is None
                &&& self.responder.state is Stable
                &&& self.responder.pending is None
                &&& (self.offer matches Some(o) && o.kind is Offer && o.well_formed())
                &&& self.answer is None
            },
            NegotiationPhase::AnswerRequested => {
                &&& self.initiator.state is HaveLocalOffer
                &&& self.initiator.pending is None
                &&& self.responder.state is HaveRemoteOffer
                &&& self.responder.pending == Some(SdpType::Answer)
                &&& (self.offer matches Some(o) && o.kind is Offer && o.well_formed())
                &&& self.answer is None
            },
            NegotiationPhase::AnswerCreated => {
                &&& self.initiator.state is HaveLocalOffer
                &&& self.initiator.pending is None
                &&& self.responder.state is HaveRemoteOffer
                &&& self.responder.pending is None
                &&& (self.offer matches Some(o) && o.kind is Offer && o.well_formed())
                &&& (self.answer matches Some(a) && a.kind is Answer && a.well_formed())
            },
            NegotiationPhase::LocalAnswerSet => {
                &&& self.initiator.state is HaveLocalOffer
                &&& self.initiator.pending is None
                &&& self.responder.state is Stable
                &&& (self.responder.remote_desc matches Some(d) && d.kind is Offer
                    && d.well_formed())
                &&& (self.offer matches Some(o) && o.kind is Offer && o.well_formed())
                &&& (self.answer matches Some(a) && a.kind is Answer && a.well_formed())
            },
            NegotiationPhase::Done => {
                &&& self.initiator.state is Stable
                &&& (self.initiator.remote_desc matches Some(a) && a.kind is Answer
                    && a.well_formed())
                &&& self.responder.state is Stable
                &&& (self.responder.remote_desc matches Some(o) && o.kind is Offer
                    && o.well_formed())
            },
            NegotiationPhase::Failed => {
                &&& self.initiator.state is Closed
                &&& self.responder.state is Closed
            },
        }
    }

    /// Starts an attempt over the two sessions; both must be stable and
    /// idle, as `ConnectionRegistry` and `SignalingSession::new` hand
    /// them out.
    pub fn new(initiator: SignalingSession, responder: SignalingSession) -> (c: Self)
        requires
            initiator.wf(),
            initiator.role is Initiator,
            initiator.state is Stable,
            initiator.pending is None,
            responder.wf(),
            responder.role is Responder,
            responder.state is Stable,
            responder.pending is None,
        ensures
            c.wf(),
            c.phase is Start,
            c.initiator == initiator,
            c.responder == responder,
    {
        NegotiationCoordinator {
            initiator,
            responder,
            phase: NegotiationPhase::Start,
            offer: None,
            answer: None,
        }
    }

    /// Closes both sessions and records the consolidated failure.
    fn fail(&mut self)
        requires
            old(self).initiator.wf(),
            old(self).responder.wf(),
            old(self).initiator.role is Initiator,
            old(self).responder.role is Responder,
        ensures
            final(self).wf(),
            final(self).phase is Failed,
            final(self).initiator.state is Closed,
            final(self).responder.state is Closed,
    {
        self.initiator.close();
        self.responder.close();
        self.phase = NegotiationPhase::Failed;
    }

    /// Aborts the attempt (e.g. the signaling transport failed, which is
    /// fatal): closes both sessions, reports nothing further.
    pub fn abort(&mut self)
        requires
            old(self).wf(),
        ensures
            final(self).wf(),
            final(self).phase is Failed,
            final(self).initiator.state is Closed,
            final(self).responder.state is Closed,
    {
        self.fail();
    }

    /// Step 1: request an offer from the initiator's engine. The caller
    /// must now drive that engine call and report its result through
    /// `offer_created`.
    pub fn start(&mut self) -> (r: Result<(), NegotiationError>)
        requires
            old(self).wf(),
        ensures
            final(self).wf(),
            r is Ok <==> old(self).phase is Start,
            r is Ok ==> (final(self).phase is OfferRequested && final(self).initiator
                == (SignalingSession { pending: Some(SdpType::Offer), ..old(self).initiator })
                && final(self).responder == old(self).responder && final(self).offer == old(
                self,
            ).offer && final(self).answer == old(self).answer),
            r is Err ==> (r == Err::<(), NegotiationError>(NegotiationError::InvalidTransition)
                && *final(self) == *old(self)),
    {
        match self.phase {
            NegotiationPhase::Start => {
                match self.initiator.begin_create_offer() {
                    Ok(()) => {
                        self.phase = NegotiationPhase::OfferRequested;
                        Ok(())
                    },
                    Err(e) => Err(e),
                }
            },
            _ => Err(NegotiationError::InvalidTransition),
        }
    }

    /// Step 1 result: the initiator's engine produced an offer blob, or
    /// failed (`None`, or an empty blob). Failure closes both sessions.
    pub fn offer_created(&mut self, engine_sdp: Option<Vec<u8>>) -> (r: Result<
        (),
        NegotiationError,
    >)
        requires
            old(self).wf(),
        ensures
            final(self).wf(),
            r is Ok <==> (old(self).phase is OfferRequested && (engine_sdp matches Some(s)
                && s@.len() > 0)),
            old(self).phase !is OfferRequested ==> (r == Err::<(), NegotiationError>(
                NegotiationError::InvalidTransition,
            ) && *final(self) == *old(self)),
            (old(self).phase is OfferRequested && r is Err) ==> (r == Err::<(), NegotiationError>(
                NegotiationError::EngineFailure,
            ) && final(self).phase is Failed && final(self).initiator.state is Closed && final(self).responder.state is Closed),
            r is Ok ==> (final(self).phase is OfferCreated && (final(self).offer matches Some(o)
                && o.kind is Offer && (engine_sdp matches Some(s) && o.sdp@ == s@))
                && final(self).initiator == (SignalingSession { pending: None, ..old(self).initiator }) && final(self).responder
                == old(self).responder && final(self).answer == old(self).answer),
    {
        match self.phase {
            NegotiationPhase::OfferRequested => {
                match engine_sdp {
                    Some(sdp) => {
                        if sdp.len() > 0 {
                            match self.initiator.complete_create_offer(sdp) {
                                Some(desc) => {
                                    self.offer = Some(desc);
                                    self.phase = NegotiationPhase::OfferCreated;
                                    Ok(())
                                },
                                None => {
                                    self.fail();
                                    Err(NegotiationError::EngineFailure)
                                },
                            }
                        } else {
                            self.fail();
                            Err(NegotiationError::EngineFailure)
                        }
                    },
                    None => {
                        self.fail();
                        Err(NegotiationError::EngineFailure)
                    },
                }
            },
            _ => Err(NegotiationError::InvalidTransition),
        }
    }

    /// Step 2 result: the initiator's engine accepted (or rejected) the
    /// offer as its local description. On acceptance the initiator moves
    /// to `HaveLocalOffer` and the offer is ready to relay.
    pub fn local_offer_applied(&mut self, accepted: bool) -> (r: Result<(), NegotiationError>)
        requires
            old(self).wf(),
        ensures
            final(self).wf(),
            r is Ok <==> (old(self).phase is OfferCreated && accepted),
            old(self).phase !is OfferCreated ==> (r == Err::<(), NegotiationError>(
                NegotiationError::InvalidTransition,
            ) && *final(self) == *old(self)),
            (old(self).phase is OfferCreated && !accepted) ==> (r == Err::<(), NegotiationError>(
                NegotiationError::EngineFailure,
            ) && final(self).phase is Failed && final(self).initiator.state is Closed && final(self).responder.state is Closed),
            r is Ok ==> (final(self).phase is LocalOfferSet && final(self).initiator.state is HaveLocalOffer && (final(self).initiator.local_desc matches Some(d)
                && d.kind is Offer && (old(self).offer matches Some(o) && d.sdp@ == o.sdp@))
                && final(self).initiator.candidates_received() == old(
                self,
            ).initiator.candidates_received() && final(self).responder == old(self).responder
                && final(self).offer == old(self).offer && final(self).answer == old(
                self,
            ).answer),
    {
        match self.phase {
            NegotiationPhase::OfferCreated => {
                if accepted {
                    let dup: SessionDescription = match &self.offer {
                        Some(o) => o.duplicate(),
                        None => SessionDescription { kind: SdpType::Offer, sdp: Vec::new() },
                    };
                    match self.initiator.set_local_description(dup) {
                        Ok(()) => {
                            self.phase = NegotiationPhase::LocalOfferSet;
                            Ok(())
                        },
                        Err(_) => {
                            self.fail();
                            Err(NegotiationError::EngineFailure)
                        },
                    }
                } else {
                    self.fail();
                    Err(NegotiationError::EngineFailure)
                }
            },
            _ => Err(NegotiationError::InvalidTransition),
        }
    }

    /// Step 3 result: the offer was relayed and the responder's engine
    /// accepted (or rejected) it as its remote description. On acceptance
    /// the responder's buffered candidates drain — the returned vector,
    /// which the caller must now apply to the responder's engine in order
    /// — and answer creation is requested.
    pub fn remote_offer_applied(&mut self, accepted: bool) -> (r: Result<
        Vec<Candidate>,
        NegotiationError,
    >)
        requires
            old(self).wf(),
        ensures
            final(self).wf(),
            r is Ok <==> (old(self).phase is LocalOfferSet && accepted),
            old(self).phase !is LocalOfferSet ==> (r == Err::<Vec<Candidate>, NegotiationError>(
                NegotiationError::InvalidTransition,
            ) && *final(self) == *old(self)),
            (old(self).phase is LocalOfferSet && !accepted) ==> (r == Err::<
                Vec<Candidate>,
                NegotiationError,
            >(NegotiationError::EngineFailure) && final(self).phase is Failed && final(self).initiator.state is Closed && final(self).responder.state is Closed),
            r matches Ok(drained) ==> {
                &&& drained@ == old(self).responder.queue@
                &&& (old(self).responder.remote_desc is None ==> drained@ == old(self).responder.candidates_received())
                &&& final(self).responder.queue@ == Seq::<Candidate>::empty()
                &&& final(self).responder.candidates_received() == old(self).responder.candidates_received()
                &&& final(self).phase is AnswerRequested
                &&& final(self).responder.state is HaveRemoteOffer
                &&& (final(self).responder.remote_desc matches Some(d) && d.kind is Offer && (old(self).offer matches Some(o) && d.sdp@ == o.sdp@))
                &&& final(self).initiator == old(self).initiator
            },
    {
        match self.phase {
            NegotiationPhase::LocalOfferSet => {
                if accepted {
                    let dup: SessionDescription = match &self.offer {
                        Some(o) => o.duplicate(),
                        None => SessionDescription { kind: SdpType::Offer, sdp: Vec::new() },
                    };
                    match self.responder.set_remote_description(dup) {
                        Ok(drained) => {
                            match self.responder.begin_create_answer() {
                                Ok(()) => {
                                    self.phase = NegotiationPhase::AnswerRequested;
                                    Ok(drained)
                                },
                                Err(_) => {
                                    self.fail();
                                    Err(NegotiationError::EngineFailure)
                                },
                            }
                        },
                        Err(_) => {
                            self.fail();
                            Err(NegotiationError::EngineFailure)
                        },
                    }
                } else {
                    self.fail();
                    Err(NegotiationError::EngineFailure)
                }
            },
            _ => Err(NegotiationError::InvalidTransition),
        }
    }

    /// Step 4 result: the responder's engine produced an answer blob, or
    /// failed.
    pub fn answer_created(&mut self, engine_sdp: Option<Vec<u8>>) -> (r: Result<
        (),
        NegotiationError,
    >)
        requires
            old(self).wf(),
        ensures
            final(self).wf(),
            r is Ok <==> (old(self).phase is AnswerRequested && (engine_sdp matches Some(s)
                && s@.len() > 0)),
            old(self).phase !is AnswerRequested ==> (r == Err::<(), NegotiationError>(
                NegotiationError::InvalidTransition,
            ) && *final(self) == *old(self)),
            (old(self).phase is AnswerRequested && r is Err) ==> (r == Err::<(), NegotiationError>(
                NegotiationError::EngineFailure,
            ) && final(self).phase is Failed && final(self).initiator.state is Closed && final(self).responder.state is Closed),
            r is Ok ==> (final(self).phase is AnswerCreated && (final(self).answer matches Some(a)
                && a.kind is Answer && (engine_sdp matches Some(s) && a.sdp@ == s@))
                && final(self).responder == (SignalingSession { pending: None, ..old(self).responder }) && final(self).initiator
                == old(self).initiator && final(self).offer == old(self).offer),
    {
        match self.phase {
            NegotiationPhase::AnswerRequested => {
                match engine_sdp {
                    Some(sdp) => {
                        if sdp.len() > 0 {
                            match self.responder.complete_create_answer(sdp) {
                                Some(desc) => {
                                    self.answer = Some(desc);
                                    self.phase = NegotiationPhase::AnswerCreated;
                                    Ok(())
                                },
                                None => {
                                    self.fail();
                                    Err(NegotiationError::EngineFailure)
                                },
                            }
                        } else {
                            self.fail();
                            Err(NegotiationError::EngineFailure)
                        }
                    },
                    None => {
                        self.fail();
                        Err(NegotiationError::EngineFailure)
                    },
                }
            },
            _ => Err(NegotiationError::InvalidTransition),
        }
    }

    /// Step 5 result: the responder's engine accepted (or rejected) the
    /// answer as its local description. On acceptance the responder
    /// returns to `Stable` and the answer is ready to relay back.
    pub fn local_answer_applied(&mut self, accepted: bool) -> (r: Result<(), NegotiationError>)
        requires
            old(self).wf(),
        ensures
            final(self).wf(),
            r is Ok <==> (old(self).phase is AnswerCreated && accepted),
            old(self).phase !is AnswerCreated ==> (r == Err::<(), NegotiationError>(
                NegotiationError::InvalidTransition,
            ) && *final(self) == *old(self)),
            (old(self).phase is AnswerCreated && !accepted) ==> (r == Err::<(), NegotiationError>(
                NegotiationError::EngineFailure,
            ) && final(self).phase is Failed && final(self).initiator.state is Closed && final(self).responder.state is Closed),
            r is Ok ==> (final(self).phase is LocalAnswerSet && final(self).responder.state is Stable && (final(self).responder.local_desc matches Some(d)
                && d.kind is Answer && (old(self).answer matches Some(a) && d.sdp@ == a.sdp@))
                && final(self).responder.candidates_received() == old(
                self,
            ).responder.candidates_received() && final(self).initiator == old(self).initiator
                && final(self).offer == old(self).offer && final(self).answer == old(
                self,
            ).answer),
    {
        match self.phase {
            NegotiationPhase::AnswerCreated => {
                if accepted {
                    let dup: SessionDescription = match &self.answer {
                        Some(a) => a.duplicate(),
                        None => SessionDescription { kind: SdpType::Answer, sdp: Vec::new() },
                    };
                    match self.responder.set_local_description(dup) {
                        Ok(()) => {
                            self.phase = NegotiationPhase::LocalAnswerSet;
                            Ok(())
                        },
                        Err(_) => {
                            self.fail();
                            Err(NegotiationError::EngineFailure)
                        },
                    }
                } else {
                    self.fail();
                    Err(NegotiationError::EngineFailure)
                }
            },
            _ => Err(NegotiationError::InvalidTransition),
        }
    }

    /// Step 6 result: the answer was relayed back and the initiator's
    /// engine accepted (or rejected) it as its remote description. On
    /// acceptance the initiator's buffered candidates drain — the
    /// returned vector, to be applied to the initiator's engine in order
    /// — and the negotiation is complete.
    pub fn remote_answer_applied(&mut self, accepted: bool) -> (r: Result<
        Vec<Candidate>,
        NegotiationError,
    >)
        requires
            old(self).wf(),
        ensures
            final(self).wf(),
            r is Ok <==> (old(self).phase is LocalAnswerSet && accepted),
            old(self).phase !is LocalAnswerSet ==> (r == Err::<Vec<Candidate>, NegotiationError>(
                NegotiationError::InvalidTransition,
            ) && *final(self) == *old(self)),
            (old(self).phase is LocalAnswerSet && !accepted) ==> (r == Err::<
                Vec<Candidate>,
                NegotiationError,
            >(NegotiationError::EngineFailure) && final(self).phase is Failed && final(self).initiator.state is Closed && final(self).responder.state is Closed),
            r matches Ok(drained) ==> {
                &&& drained@ == old(self).initiator.queue@
                &&& (old(self).initiator.remote_desc is None ==> drained@ == old(self).initiator.candidates_received())
                &&& final(self).initiator.queue@ == Seq::<Candidate>::empty()
                &&& final(self).initiator.candidates_received() == old(self).initiator.candidates_received()
                &&& final(self).phase is Done
                &&& final(self).initiator.state is Stable
                &&& (final(self).initiator.remote_desc matches Some(d) && d.kind is Answer && (old(self).answer matches Some(a) && d.sdp@ == a.sdp@))
                &&& final(self).responder == old(self).responder
            },
    {
        match self.phase {
            NegotiationPhase::LocalAnswerSet => {
                if accepted {
                    let dup: SessionDescription = match &self.answer {
                        Some(a) => a.duplicate(),
                        None => SessionDescription { kind: SdpType::Answer, sdp: Vec::new() },
                    };
                    match self.initiator.set_remote_description(dup) {
                        Ok(drained) => {
                            self.phase = NegotiationPhase::Done;
                            Ok(drained)
                        },
                        Err(_) => {
                            self.fail();
                            Err(NegotiationError::EngineFailure)
                        },
                    }
                } else {
                    self.fail();
                    Err(NegotiationError::EngineFailure)
                }
            },
            _ => Err(NegotiationError::InvalidTransition),
        }
    }

    /// Relays a candidate discovered by `from`'s engine to the peer
    /// session, at any time relative to the six steps. The peer buffers
    /// it until its remote description is set; once it is, the candidate
    /// comes back (`Some`) for immediate application to the peer's
    /// engine. A candidate for a closed peer is dropped — candidate loss
    /// is non-fatal.
    pub fn relay_candidate(&mut self, from: Role, c: Candidate) -> (r: Option<Candidate>)
        requires
            old(self).wf(),
        ensures
            final(self).wf(),
            final(self).phase == old(self).phase,
            from is Initiator ==> {
                &&& final(self).initiator == old(self).initiator
                &&& (old(self).responder.state is Closed ==> r is None && final(self).responder
                    == old(self).responder)
                &&& (old(self).responder.state !is Closed ==> {
                    &&& final(self).responder.candidates_received() == old(self).responder.candidates_received().push(c)
                    &&& (r is Some <==> old(self).responder.remote_desc is Some)
                    &&& (r is Some ==> r == Some(c))
                })
            },
            from is Responder ==> {
                &&& final(self).responder == old(self).responder
                &&& (old(self).initiator.state is Closed ==> r is None && final(self).initiator
                    == old(self).initiator)
                &&& (old(self).initiator.state !is Closed ==> {
                    &&& final(self).initiator.candidates_received() == old(self).initiator.candidates_received().push(c)
                    &&& (r is Some <==> old(self).initiator.remote_desc is Some)
                    &&& (r is Some ==> r == Some(c))
                })
            },
    {
        match from {
            Role::Initiator => self.responder.on_remote_candidate(c),
            Role::Responder => self.initiator.on_remote_candidate(c),
        }
    }
}

/// A completed negotiation run left the initiator stable with the
/// non-empty answer applied as its remote description, and the responder
/// stable with the non-empty offer applied.
pub proof fn lemma_completed_negotiation(c: NegotiationCoordinator)
    requires
        c.wf(),
        c.phase is Done,
    ensures
        c.initiator.state is Stable,
        c.initiator.remote_desc matches Some(a) && a.kind is Answer && a.sdp@.len() > 0,
        c.responder.state is Stable,
        c.responder.remote_desc matches Some(o) && o.kind is Offer && o.sdp@.len() > 0,
{
}

} // verus!
