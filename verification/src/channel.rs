//! Message-channel lifecycle: a channel is created `Connecting`, becomes
//! `Open` on the engine's channel-open event, and is `Closed` when its
//! connection goes away. While open it transmits payloads and answers each
//! received message with exactly one fixed reply (the demo echo policy).

use vstd::prelude::*;

use crate::errors::ChannelError;

verus! {

/// Lifecycle state of a message channel.
#[derive(Debug, Clone, Copy, PartialEq, Eq, Structural)]
pub enum ChannelState {
    Connecting,
    Open,
    Closed,
}

/// The fixed acknowledgment payload ("ping") that the echo policy sends
/// back for every message received while open.
pub open spec fn reply_payload() -> Seq<u8> {
    seq![112u8, 105u8, 110u8, 103u8]
}

/// Builds the fixed reply payload as a byte vector.
pub fn make_reply() -> (r: Vec<u8>)
    ensures
        r@ == reply_payload(),
{
    let mut r: Vec<u8> = Vec::new();
    r.push(112u8);
    r.push(105u8);
    r.push(110u8);
    r.push(103u8);
    proof {
        assert(r@ =~= reply_payload());
    }
    r
}

/// One message channel belonging to a signaling session.
pub struct ChannelSession {
    /// The label the channel was created with.
    pub label: Vec<u8>,
    /// Current lifecycle state.
    pub state: ChannelState,
    /// Every payload handed to the transport, in transmission order.
    pub outbox: Vec<Vec<u8>>,
    /// Every payload accepted while open, in arrival order.
    pub inbox: Vec<Vec<u8>>,
}

impl ChannelSession {
    /// Payloads transmitted so far, as byte sequences.
    pub open spec fn sent(self) -> Seq<Seq<u8>> {
        self.outbox.deep_view()
    }

    /// Payloads accepted so far, as byte sequences.
    pub open spec fn received(self) -> Seq<Seq<u8>> {
        self.inbox.deep_view()
    }

    /// Creates a channel in the `Connecting` state with the given label.
    pub fn new(label: Vec<u8>) -> (c: Self)
        ensures
            c.state is Connecting,
            c.label@ == label@,
            c.sent() == Seq::<Seq<u8>>::empty(),
            c.received() == Seq::<Seq<u8>>::empty(),
    {
        let c = ChannelSession { label, state: ChannelState::Connecting, outbox: Vec::new(), inbox: Vec::new() };
        proof {
            assert(c.sent() =~~= Seq::<Seq<u8>>::empty());
            assert(c.received() =~~= Seq::<Seq<u8>>::empty());
        }
        c
    }

    /// The engine reports the channel open. Only a `Connecting` channel
    /// opens; the event is ignored in any other state.
    pub fn handle_open(&mut self) -> (opened: bool)
        ensures
            opened <==> old(self).state is Connecting,
            opened ==> final(self).state is Open,
            !opened ==> final(self).state == old(self).state,
            final(self).label == old(self).label,
            final(self).outbox == old(self).outbox,
            final(self).inbox == old(self).inbox,
    {
        match self.state {
            ChannelState::Connecting => {
                self.state = ChannelState::Open;
                true
            },
            _ => false,
        }
    }

    /// Transmits `payload` if the channel is open; otherwise fails with
    /// `ChannelError::NotOpen` and changes nothing. The caller decides how
    /// to handle the failure; nothing is retried silently.
    pub fn send(&mut self, payload: Vec<u8>) -> (r: Result<(), ChannelError>)
        ensures
            r is Ok <==> old(self).state is Open,
            r is Ok ==> final(self).sent() == old(self).sent().push(payload@),
            r is Err ==> r == Err::<(), ChannelError>(ChannelError::NotOpen)
                && *final(self) == *old(self),
            final(self).state == old(self).state,
            final(self).label == old(self).label,
            final(self).inbox == old(self).inbox,
    {
        match self.state {
            ChannelState::Open => {
                let ghost prev = self.outbox.deep_view();
                let ghost p = payload@;
                self.outbox.push(payload);
                proof {
                    assert(self.outbox.deep_view() =~~= prev.push(p));
                }
                Ok(())
            },
            _ => Err(ChannelError::NotOpen),
        }
    }

    /// Delivers a received payload. While open, the payload is recorded and
    /// the echo policy transmits exactly one fixed reply for it; in any
    /// other state the payload is dropped and nothing is sent.
    pub fn on_message(&mut self, payload: Vec<u8>) -> (replied: bool)
        ensures
            replied <==> old(self).state is Open,
            replied ==> final(self).received() == old(self).received().push(payload@)
                && final(self).sent() == old(self).sent().push(reply_payload()),
            !replied ==> *final(self) == *old(self),
            final(self).state == old(self).state,
            final(self).label == old(self).label,
    {
        match self.state {
            ChannelState::Open => {
                let ghost prev_in = self.inbox.deep_view();
                let ghost prev_out = self.outbox.deep_view();
                let ghost p = payload@;
                self.inbox.push(payload);
                let reply = make_reply();
                self.outbox.push(reply);
                proof {
                    assert(self.inbox.deep_view() =~~= prev_in.push(p));
                    assert(self.outbox.deep_view() =~~= prev_out.push(reply_payload()));
                }
                true
            },
            _ => false,
        }
    }

    /// Closes the channel; terminal and idempotent.
    pub fn close(&mut self)
        ensures
            final(self).state is Closed,
            final(self).label == old(self).label,
            final(self).outbox == old(self).outbox,
            final(self).inbox == old(self).inbox,
            old(self).state is Closed ==> *final(self) == *old(self),
    {
        self.state = ChannelState::Closed;
    }
}

} // verus!
