//! The signaling session: one half of the offer/answer exchange, the
//! trickle-candidate buffering discipline, and the channels opened over the
//! session's connection.
//!
//! The connectivity engine that actually produces descriptions and consumes
//! candidates is asynchronous and external; a session models every decision
//! made about its results. An engine call that suspends is split into a
//! `begin_*` step (records the outstanding request) and a `complete_*` step
//! (accepts the engine's eventual result) so that a result arriving after
//! `close` is provably ignored. Candidates a session releases for
//! application to the engine are recorded in a ghost history, which lets
//! the central ordering theorem — no candidate reaches the engine before
//! the remote description is set — be stated as an invariant.

use vstd::prelude::*;

use crate::candidate::{Candidate, CandidateQueue};
use crate::channel::{ChannelSession, ChannelState};
use crate::errors::NegotiationError;

verus! {

/// Which side of the negotiation this session plays.
#[derive(Debug, Clone, Copy, PartialEq, Eq, Structural)]
pub enum Role {
    Initiator,
    Responder,
}

/// Progress through the offer/answer exchange.
#[derive(Debug, Clone, Copy, PartialEq, Eq, Structural)]
pub enum SignalingState {
    Stable,
    HaveLocalOffer,
    HaveRemoteOffer,
    Closed,
}

/// Type tag of a session description.
#[derive(Debug, Clone, Copy, PartialEq, Eq, Structural)]
pub enum SdpType {
    Offer,
    Answer,
}

/// An engine-specific description blob plus its type tag; immutable once
/// created.
pub struct SessionDescription {
    pub kind: SdpType,
    pub sdp: Vec<u8>,
}

/// Copies a byte vector.
fn clone_bytes(v: &Vec<u8>) -> (r: Vec<u8>)
    ensures
        r@ == v@,
{
    let mut r: Vec<u8> = Vec::new();
    let mut i: usize = 0;
    while i < v.len()
        invariant
            i <= v@.len(),
            r@ == v@.subrange(0, i as int),
        decreases v@.len() - i,
    {
        r.push(v[i]);
        proof {
            assert(r@ =~= v@.subrange(0, i as int + 1));
        }
        i = i + 1;
    }
    proof {
        assert(r@ =~= v@);
    }
    r
}

impl SessionDescription {
    /// A description is well formed when its blob is non-empty; the engine
    /// never produces an empty description for a live session.
    pub open spec fn well_formed(self) -> bool {
        self.sdp@.len() > 0
    }

    /// Copies the description so it can be applied on both sides.
    pub fn duplicate(&self) -> (r: Self)
        ensures
            r.kind == self.kind,
            r.sdp@ == self.sdp@,
    {
        SessionDescription { kind: self.kind, sdp: clone_bytes(&self.sdp) }
    }
}

/// One endpoint's half of a negotiation: its signaling state, the applied
/// descriptions, the candidate buffer, and the channels over its
/// connection.
pub struct SignalingSession {
    /// Identity assigned by the registry that constructed the session.
    pub id: u64,
    pub role: Role,
    pub state: SignalingState,
    /// The last successfully applied local description.
    pub local_desc: Option<SessionDescription>,
    /// The last successfully applied remote description.
    pub remote_desc: Option<SessionDescription>,
    /// Remote candidates that arrived before the remote description.
    pub queue: CandidateQueue,
    /// Channels opened over this session's connection.
    pub channels: Vec<ChannelSession>,
    /// An engine request (`Offer` or `Answer` creation) that has suspended
    /// and not yet completed.
    pub pending: Option<SdpType>,
    /// History of candidates released for application to the engine, in
    /// release order.
    pub engine_applied: Ghost<Seq<Candidate>>,
}

impl SignalingSession {
    /// Every remote candidate this session has accepted, in arrival order:
    /// first those already released to the engine, then those still
    /// buffered.
    pub open spec fn candidates_received(self) -> Seq<Candidate> {
        self.engine_applied@ + self.queue@
    }

    /// Session invariant. The two candidate clauses are the trickle
    /// discipline: nothing reaches the engine before the remote
    /// description is set, and once it is set nothing stays buffered.
    pub open spec fn wf(self) -> bool {
        &&& (self.remote_desc is None ==> self.engine_applied@ == Seq::<Candidate>::empty())
        &&& (self.remote_desc is Some ==> self.queue@ == Seq::<Candidate>::empty())
        &&& (self.state is HaveLocalOffer ==> (self.local_desc matches Some(d) && d.kind is Offer
            && d.well_formed()))
        &&& (self.state is HaveRemoteOffer ==> (self.remote_desc matches Some(d) && d.kind is Offer
            && d.well_formed()))
        &&& (self.state is Closed ==> (self.pending is None && forall|i: int|
            0 <= i < self.channels@.len() ==> (#[trigger] self.channels@[i].state)
                is Closed))
    }

    /// Creates a fresh session for `role` in the initial `Stable` state.
    pub fn new(role: Role, id: u64) -> (s: Self)
        ensures
            s.wf(),
            s.id == id,
            s.role == role,
            s.state is Stable,
            s.local_desc is None,
            s.remote_desc is None,
            s.queue@ == Seq::<Candidate>::empty(),
            s.channels@ == Seq::<ChannelSession>::empty(),
            s.pending is None,
            s.engine_applied@ == Seq::<Candidate>::empty(),
    {
        let s = SignalingSession {
            id,
            role,
            state: SignalingState::Stable,
            local_desc: None,
            remote_desc: None,
            queue: CandidateQueue::new(),
            channels: Vec::new(),
            pending: None,
            engine_applied: Ghost(Seq::empty()),
        };
        proof {
            assert(s.channels@ =~= Seq::<ChannelSession>::empty());
        }
        s
    }

    /// Whether a local description of type `kind` may be applied in the
    /// current state: an offer from `Stable`, an answer from
    /// `HaveRemoteOffer`.
    pub open spec fn local_apply_ok(self, kind: SdpType) -> bool {
        match kind {
            SdpType::Offer => self.state is Stable,
            SdpType::Answer => self.state is HaveRemoteOffer,
        }
    }

    /// State after a successful local application.
    pub open spec fn local_apply_target(kind: SdpType) -> SignalingState {
        match kind {
            SdpType::Offer => SignalingState::HaveLocalOffer,
            SdpType::Answer => SignalingState::Stable,
        }
    }

    /// Whether a remote description of type `kind` may be applied in the
    /// current state: an offer from `Stable`, an answer from
    /// `HaveLocalOffer`.
    pub open spec fn remote_apply_ok(self, kind: SdpType) -> bool {
        match kind {
            SdpType::Offer => self.state is Stable,
            SdpType::Answer => self.state is HaveLocalOffer,
        }
    }

    /// State after a successful remote application.
    pub open spec fn remote_apply_target(kind: SdpType) -> SignalingState {
        match kind {
            SdpType::Offer => SignalingState::HaveRemoteOffer,
            SdpType::Answer => SignalingState::Stable,
        }
    }

    /// Requests an offer from the engine. Valid only from `Stable` with
    /// role `Initiator` and no other request outstanding; the engine's
    /// eventual result is delivered through `complete_create_offer`.
    pub fn begin_create_offer(&mut self) -> (r: Result<(), NegotiationError>)
        requires
            old(self).wf(),
        ensures
            final(self).wf(),
            r is Ok <==> (old(self).state is Stable && old(self).role is Initiator
                && old(self).pending is None),
            r is Ok ==> *final(self) == (SignalingSession {
                pending: Some(SdpType::Offer),
                ..*old(self)
            }),
            r is Err ==> r == Err::<(), NegotiationError>(NegotiationError::InvalidTransition)
                && *final(self) == *old(self),
    {
        match (self.state, self.role, &self.pending) {
            (SignalingState::Stable, Role::Initiator, None) => {
                self.pending = Some(SdpType::Offer);
                Ok(())
            },
            _ => Err(NegotiationError::InvalidTransition),
        }
    }

    /// Accepts the engine's result for an outstanding offer request. A
    /// result arriving after `close`, or with no request outstanding, is
    /// ignored and mutates nothing; otherwise the finished offer
    /// description is handed back and the session itself — per the
    /// protocol, creating an offer does not change the signaling state —
    /// only clears the outstanding request.
    pub fn complete_create_offer(&mut self, sdp: Vec<u8>) -> (r: Option<SessionDescription>)
        requires
            old(self).wf(),
        ensures
            final(self).wf(),
            (old(self).state is Closed || old(self).pending != Some(SdpType::Offer)) ==> (
                *final(self) == *old(self) && r is None),
            (old(self).state !is Closed && old(self).pending == Some(SdpType::Offer)) ==> (
                *final(self) == (SignalingSession { pending: None, ..*old(self) })
                && (r matches Some(d) && d.kind is Offer && d.sdp@ == sdp@)),
    {
        match (self.state, &self.pending) {
            (SignalingState::Closed, _) => None,
            (_, Some(SdpType::Offer)) => {
                self.pending = None;
                Some(SessionDescription { kind: SdpType::Offer, sdp })
            },
            _ => None,
        }
    }

    /// Requests an answer from the engine. Valid only from
    /// `HaveRemoteOffer` with no other request outstanding.
    pub fn begin_create_answer(&mut self) -> (r: Result<(), NegotiationError>)
        requires
            old(self).wf(),
        ensures
            final(self).wf(),
            r is Ok <==> (old(self).state is HaveRemoteOffer && old(self).pending is None),
            r is Ok ==> *final(self) == (SignalingSession {
                pending: Some(SdpType::Answer),
                ..*old(self)
            }),
            r is Err ==> r == Err::<(), NegotiationError>(NegotiationError::InvalidTransition)
                && *final(self) == *old(self),
    {
        match (self.state, &self.pending) {
            (SignalingState::HaveRemoteOffer, None) => {
                self.pending = Some(SdpType::Answer);
                Ok(())
            },
            _ => Err(NegotiationError::InvalidTransition),
        }
    }

    /// Accepts the engine's result for an outstanding answer request, with
    /// the same late-result discipline as `complete_create_offer`.
    pub fn complete_create_answer(&mut self, sdp: Vec<u8>) -> (r: Option<SessionDescription>)
        requires
            old(self).wf(),
        ensures
            final(self).wf(),
            (old(self).state is Closed || old(self).pending != Some(SdpType::Answer)) ==> (
                *final(self) == *old(self) && r is None),
            (old(self).state !is Closed && old(self).pending == Some(SdpType::Answer)) ==> (
                *final(self) == (SignalingSession { pending: None, ..*old(self) })
                && (r matches Some(d) && d.kind is Answer && d.sdp@ == sdp@)),
    {
        match (self.state, &self.pending) {
            (SignalingState::Closed, _) => None,
            (_, Some(SdpType::Answer)) => {
                self.pending = None;
                Some(SessionDescription { kind: SdpType::Answer, sdp })
            },
            _ => None,
        }
    }

    /// Applies `desc` as this session's local description. On success the
    /// state moves `Stable → HaveLocalOffer` for an offer or
    /// `HaveRemoteOffer → Stable` for an answer; any other combination
    /// fails with `InvalidTransition` and changes nothing.
    pub fn set_local_description(&mut self, desc: SessionDescription) -> (r: Result<
        (),
        NegotiationError,
    >)
        requires
            old(self).wf(),
            desc.well_formed(),
        ensures
            final(self).wf(),
            r is Ok <==> old(self).local_apply_ok(desc.kind),
            r is Ok ==> *final(self) == (SignalingSession {
                state: Self::local_apply_target(desc.kind),
                local_desc: Some(desc),
                ..*old(self)
            }),
            r is Err ==> r == Err::<(), NegotiationError>(NegotiationError::InvalidTransition)
                && *final(self) == *old(self),
    {
        let ok = match (desc.kind, self.state) {
            (SdpType::Offer, SignalingState::Stable) => true,
            (SdpType::Answer, SignalingState::HaveRemoteOffer) => true,
            _ => false,
        };
        if ok {
            self.state = match desc.kind {
                SdpType::Offer => SignalingState::HaveLocalOffer,
                SdpType::Answer => SignalingState::Stable,
            };
            self.local_desc = Some(desc);
            Ok(())
        } else {
            Err(NegotiationError::InvalidTransition)
        }
    }

    /// Applies `desc` as this session's remote description. On success the
    /// state moves `Stable → HaveRemoteOffer` for an offer or
    /// `HaveLocalOffer → Stable` for an answer, and the candidate buffer
    /// is drained — exactly once, here — into the returned vector, whose
    /// entries the caller must now hand to the engine in order. Any other
    /// combination fails with `InvalidTransition` and changes nothing.
    pub fn set_remote_description(&mut self, desc: SessionDescription) -> (r: Result<
        Vec<Candidate>,
        NegotiationError,
    >)
        requires
            old(self).wf(),
            desc.well_formed(),
        ensures
            final(self).wf(),
            r is Ok <==> old(self).remote_apply_ok(desc.kind),
            r matches Ok(drained) ==> {
                &&& drained@ == old(self).queue@
                &&& (old(self).remote_desc is None ==> drained@ == old(self).candidates_received())
                &&& final(self).queue@ == Seq::<Candidate>::empty()
                &&& final(self).engine_applied@ == old(self).engine_applied@ + old(self).queue@
                &&& final(self).candidates_received() == old(self).candidates_received()
                &&& final(self).state == Self::remote_apply_target(desc.kind)
                &&& final(self).remote_desc == Some(desc)
                &&& final(self).local_desc == old(self).local_desc
                &&& final(self).role == old(self).role
                &&& final(self).id == old(self).id
                &&& final(self).channels == old(self).channels
                &&& final(self).pending == old(self).pending
            },
            r is Err ==> r == Err::<Vec<Candidate>, NegotiationError>(
                NegotiationError::InvalidTransition,
            ) && *final(self) == *old(self),
    {
        let ok = match (desc.kind, self.state) {
            (SdpType::Offer, SignalingState::Stable) => true,
            (SdpType::Answer, SignalingState::HaveLocalOffer) => true,
            _ => false,
        };
        if ok {
            self.state = match desc.kind {
                SdpType::Offer => SignalingState::HaveRemoteOffer,
                SdpType::Answer => SignalingState::Stable,
            };
            self.remote_desc = Some(desc);
            let drained = self.queue.drain();
            self.engine_applied = Ghost(self.engine_applied@ + drained@);
            proof {
                assert(self.candidates_received() =~= old(self).candidates_received());
                if old(self).remote_desc is None {
                    assert(drained@ =~= old(self).candidates_received());
                }
            }
            Ok(drained)
        } else {
            Err(NegotiationError::InvalidTransition)
        }
    }

    /// Handles a candidate relayed from the peer. If the remote
    /// description is already set it is released for immediate application
    /// to the engine (returned); otherwise it is buffered. A closed
    /// session drops it.
    pub fn on_remote_candidate(&mut self, c: Candidate) -> (r: Option<Candidate>)
        requires
            old(self).wf(),
        ensures
            final(self).wf(),
            old(self).state is Closed ==> (*final(self) == *old(self) && r is None),
            old(self).state !is Closed ==> {
                &&& final(self).candidates_received() == old(self).candidates_received().push(c)
                &&& (r is Some <==> old(self).remote_desc is Some)
                &&& (old(self).remote_desc is Some ==> r == Some(c)
                    && final(self).engine_applied@ == old(self).engine_applied@.push(c)
                    && final(self).queue@ == old(self).queue@)
                &&& (old(self).remote_desc is None ==> final(self).queue@ == old(self).queue@.push(c) && final(self).engine_applied@ == old(self).engine_applied@)
                &&& final(self).state == old(self).state
                &&& final(self).role == old(self).role
                &&& final(self).id == old(self).id
                &&& final(self).local_desc == old(self).local_desc
                &&& final(self).remote_desc == old(self).remote_desc
                &&& final(self).channels == old(self).channels
                &&& final(self).pending == old(self).pending
            },
    {
        match self.state {
            SignalingState::Closed => None,
            _ => {
                match &self.remote_desc {
                    Some(_) => {
                        self.engine_applied = Ghost(self.engine_applied@.push(c));
                        proof {
                            assert(self.candidates_received() =~= old(self).candidates_received().push(c));
                        }
                        Some(c)
                    },
                    None => {
                        let ghost prev = self.candidates_received();
                        self.queue.enqueue(c);
                        proof {
                            assert(self.candidates_received() =~= prev.push(c));
                        }
                        None
                    },
                }
            },
        }
    }

    /// A locally discovered candidate is surfaced for relay to the peer; a
    /// closed session surfaces nothing. The session never applies its own
    /// candidates.
    pub fn on_candidate_discovered(&self, c: Candidate) -> (r: Option<Candidate>)
        ensures
            self.state is Closed ==> r is None,
            self.state !is Closed ==> r == Some(c),
    {
        match self.state {
            SignalingState::Closed => None,
            _ => Some(c),
        }
    }

    /// Opens a new channel over this session's connection; fails on a
    /// closed session. Returns the new channel's index.
    pub fn open_channel(&mut self, label: Vec<u8>) -> (r: Result<usize, NegotiationError>)
        requires
            old(self).wf(),
        ensures
            final(self).wf(),
            r is Ok <==> old(self).state !is Closed,
            r matches Ok(i) ==> {
                &&& i == old(self).channels@.len()
                &&& final(self).channels@.len() == old(self).channels@.len() + 1
                &&& (forall|j: int| 0 <= j < old(self).channels@.len() ==> final(self).channels@[j]
                    == old(self).channels@[j])
                &&& final(self).channels@[i as int].state is Connecting
                &&& final(self).channels@[i as int].label@ == label@
                &&& final(self).channels@[i as int].sent() == Seq::<Seq<u8>>::empty()
                &&& final(self).channels@[i as int].received() == Seq::<Seq<u8>>::empty()
                &&& *final(self) == (SignalingSession {
                    channels: final(self).channels,
                    ..*old(self)
                })
            },
            r is Err ==> r == Err::<usize, NegotiationError>(NegotiationError::InvalidTransition)
                && *final(self) == *old(self),
    {
        match self.state {
            SignalingState::Closed => Err(NegotiationError::InvalidTransition),
            _ => {
                let i: usize = self.channels.len();
                let ch = ChannelSession::new(label);
                self.channels.push(ch);
                Ok(i)
            },
        }
    }

    /// Number of channels on this session.
    pub fn channel_count(&self) -> (n: usize)
        ensures
            n == self.channels@.len(),
    {
        self.channels.len()
    }

    /// The engine reports channel `i` open.
    pub fn channel_open_event(&mut self, i: usize) -> (opened: bool)
        requires
            old(self).wf(),
            i < old(self).channels@.len(),
        ensures
            final(self).wf(),
            opened <==> old(self).channels@[i as int].state is Connecting,
            final(self).channels@.len() == old(self).channels@.len(),
            (forall|j: int| 0 <= j < old(self).channels@.len() && j != i
                ==> final(self).channels@[j] == old(self).channels@[j]),
            opened ==> final(self).channels@[i as int] == (ChannelSession {
                state: ChannelState::Open,
                ..old(self).channels@[i as int]
            }),
            !opened ==> final(self).channels@ == old(self).channels@,
            *final(self) == (SignalingSession { channels: final(self).channels, ..*old(self) }),
    {
        let ch = &mut self.channels[i];
        let opened = ch.handle_open();
        proof {
            if !opened {
                assert(self.channels@ =~= old(self).channels@);
            }
        }
        opened
    }

    /// Sends `payload` on channel `i`; fails with `ChannelError::NotOpen`
    /// unless that channel is open.
    pub fn channel_send(&mut self, i: usize, payload: Vec<u8>) -> (r: Result<
        (),
        crate::errors::ChannelError,
    >)
        requires
            old(self).wf(),
            i < old(self).channels@.len(),
        ensures
            final(self).wf(),
            r is Ok <==> old(self).channels@[i as int].state is Open,
            final(self).channels@.len() == old(self).channels@.len(),
            (forall|j: int| 0 <= j < old(self).channels@.len() && j != i
                ==> final(self).channels@[j] == old(self).channels@[j]),
            r is Ok ==> final(self).channels@[i as int].sent() == old(self).channels@[i as int].sent().push(payload@)
                && final(self).channels@[i as int].received() == old(self).channels@[i as int].received()
                && final(self).channels@[i as int].state == old(self).channels@[i as int].state
                && final(self).channels@[i as int].label == old(self).channels@[i as int].label,
            r is Err ==> r == Err::<(), crate::errors::ChannelError>(
                crate::errors::ChannelError::NotOpen,
            ) && final(self).channels@ == old(self).channels@,
            *final(self) == (SignalingSession { channels: final(self).channels, ..*old(self) }),
    {
        let ch = &mut self.channels[i];
        let r = ch.send(payload);
        proof {
            if r is Err {
                assert(self.channels@ =~= old(self).channels@);
            }
        }
        r
    }

    /// Delivers a received payload to channel `i`; while that channel is
    /// open the echo policy sends exactly one fixed reply.
    pub fn channel_on_message(&mut self, i: usize, payload: Vec<u8>) -> (replied: bool)
        requires
            old(self).wf(),
            i < old(self).channels@.len(),
        ensures
            final(self).wf(),
            replied <==> old(self).channels@[i as int].state is Open,
            final(self).channels@.len() == old(self).channels@.len(),
            (forall|j: int| 0 <= j < old(self).channels@.len() && j != i
                ==> final(self).channels@[j] == old(self).channels@[j]),
            replied ==> final(self).channels@[i as int].received() == old(self).channels@[i as int].received().push(payload@)
                && final(self).channels@[i as int].sent() == old(self).channels@[i as int].sent().push(crate::channel::reply_payload())
                && final(self).channels@[i as int].state == old(self).channels@[i as int].state
                && final(self).channels@[i as int].label == old(self).channels@[i as int].label,
            !replied ==> final(self).channels@ == old(self).channels@,
            *final(self) == (SignalingSession { channels: final(self).channels, ..*old(self) }),
    {
        let ch = &mut self.channels[i];
        let replied = ch.on_message(payload);
        proof {
            if !replied {
                assert(self.channels@ =~= old(self).channels@);
            }
        }
        replied
    }

    /// Closes the session: terminal from any state, idempotent, discards
    /// any outstanding suspended request, and closes every channel — a
    /// channel cannot outlive its connection.
    pub fn close(&mut self)
        requires
            old(self).wf(),
        ensures
            final(self).wf(),
            final(self).state is Closed,
            final(self).pending is None,
            final(self).channels@.len() == old(self).channels@.len(),
            (forall|i: int| 0 <= i < old(self).channels@.len() ==> final(self).channels@[i]
                == (ChannelSession { state: ChannelState::Closed, ..old(self).channels@[i] })),
            final(self).id == old(self).id,
            final(self).role == old(self).role,
            final(self).local_desc == old(self).local_desc,
            final(self).remote_desc == old(self).remote_desc,
            final(self).queue@ == old(self).queue@,
            final(self).engine_applied@ == old(self).engine_applied@,
    {
        self.state = SignalingState::Closed;
        self.pending = None;
        let n: usize = self.channels.len();
        let mut i: usize = 0;
        while i < n
            invariant
                n == self.channels@.len(),
                n == old(self).channels@.len(),
                i <= n,
                self.state is Closed,
                self.pending is None,
                self.id == old(self).id,
                self.role == old(self).role,
                self.local_desc == old(self).local_desc,
                self.remote_desc == old(self).remote_desc,
                self.queue@ == old(self).queue@,
                self.engine_applied@ == old(self).engine_applied@,
                forall|j: int| 0 <= j < i ==> self.channels@[j] == (ChannelSession {
                    state: ChannelState::Closed,
                    ..old(self).channels@[j]
                }),
                forall|j: int| i <= j < n ==> self.channels@[j] == old(self).channels@[j],
            decreases n - i,
        {
            let ch = &mut self.channels[i];
            ch.close();
            i = i + 1;
        }
    }
}

/// The central trickle-candidate theorem: a well-formed session that has
/// released any candidate to the engine necessarily has its remote
/// description set — no candidate is ever applied before it.
pub proof fn lemma_engine_application_requires_remote(s: SignalingSession)
    requires
        s.wf(),
        s.engine_applied@.len() > 0,
    ensures
        s.remote_desc is Some,
{
}

} // verus!
