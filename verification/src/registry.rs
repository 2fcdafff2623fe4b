//! Process-wide store for the single initiator session: an explicit, owned
//! object (passed to whoever needs it) rather than ambient global state.
//! It holds at most one live initiator at a time, lazily constructed on
//! first use; a fetch while one is live returns that same session and
//! constructs nothing.

use vstd::prelude::*;

use crate::session::{Role, SignalingSession, SignalingState};

verus! {

/// Owns the single initiator slot and hands out session identities.
pub struct ConnectionRegistry {
    /// The initiator session, if one has been constructed and not taken.
    pub slot: Option<SignalingSession>,
    /// The identity the next constructed session will carry.
    pub next_id: u64,
}

impl ConnectionRegistry {
    /// Registry invariant: whatever occupies the slot is a well-formed
    /// initiator whose identity was assigned by this registry.
    pub open spec fn wf(self) -> bool {
        self.slot matches Some(s) ==> (s.wf() && s.role is Initiator && s.id < self.next_id)
    }

    /// Creates an empty registry.
    pub fn new() -> (r: Self)
        ensures
            r.wf(),
            r.slot is None,
            r.next_id == 0,
    {
        ConnectionRegistry { slot: None, next_id: 0 }
    }

    /// Returns the identity of the live initiator session, constructing
    /// one only if the slot is empty or holds a closed session. Two
    /// fetches without an intervening close observe the same instance:
    /// the second changes nothing and returns the same identity.
    pub fn get_or_create_initiator(&mut self) -> (id: u64)
        requires
            old(self).wf(),
            old(self).next_id < u64::MAX,
        ensures
            final(self).wf(),
            final(self).slot matches Some(s) && s.id == id && s.role is Initiator
                && s.state !is Closed,
            (old(self).slot matches Some(s) && s.state !is Closed) ==> (*final(self) == *old(self)
                && (old(self).slot matches Some(s) && id == s.id)),
            (match old(self).slot {
                Some(s) => s.state is Closed,
                None => true,
            }) ==> {
                &&& id == old(self).next_id
                &&& final(self).next_id == old(self).next_id + 1
                &&& final(self).slot matches Some(t) && t.state is Stable && t.local_desc is None
                    && t.remote_desc is None && t.pending is None && t.queue@ == Seq::<
                    crate::candidate::Candidate,
                >::empty()
            },
    {
        let mut existing: Option<u64> = None;
        match &self.slot {
            Some(s) => {
                match s.state {
                    SignalingState::Closed => (),
                    _ => {
                        existing = Some(s.id);
                    },
                }
            },
            None => (),
        }
        match existing {
            Some(id) => id,
            None => {
                let id: u64 = self.next_id;
                self.slot = Some(SignalingSession::new(Role::Initiator, id));
                self.next_id = self.next_id + 1;
                id
            },
        }
    }

    /// Closes the initiator session, if any; the next fetch will
    /// construct a fresh one.
    pub fn close_initiator(&mut self)
        requires
            old(self).wf(),
        ensures
            final(self).wf(),
            final(self).next_id == old(self).next_id,
            old(self).slot is None ==> *final(self) == *old(self),
            old(self).slot matches Some(s) ==> (final(self).slot matches Some(t)
                && t.state is Closed && t.id == s.id),
    {
        match &mut self.slot {
            Some(s) => s.close(),
            None => (),
        }
    }

    /// Removes the initiator session from the slot, handing ownership to
    /// the caller (the coordinator for one negotiation attempt).
    pub fn take_initiator(&mut self) -> (r: Option<SignalingSession>)
        requires
            old(self).wf(),
        ensures
            final(self).wf(),
            r == old(self).slot,
            final(self).slot is None,
            final(self).next_id == old(self).next_id,
    {
        self.slot.take()
    }

    /// Returns a session taken with `take_initiator` to the slot.
    pub fn put_initiator(&mut self, s: SignalingSession)
        requires
            old(self).wf(),
            old(self).slot is None,
            s.wf(),
            s.role is Initiator,
            s.id < old(self).next_id,
        ensures
            final(self).wf(),
            final(self).slot == Some(s),
            final(self).next_id == old(self).next_id,
    {
        self.slot = Some(s);
    }
}

} // verus!
