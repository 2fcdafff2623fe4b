//! Error taxonomy of the negotiation core.

use vstd::prelude::*;

verus! {

/// A negotiation step failed: either the connectivity engine rejected or
/// could not produce a description, or a description was applied in a
/// signaling state that does not admit it.
#[derive(Debug, Clone, Copy, PartialEq, Eq, Structural)]
pub enum NegotiationError {
    /// A description was applied in the wrong state, or a step was invoked
    /// out of order.
    InvalidTransition,
    /// The connectivity engine could not produce or accept a description.
    EngineFailure,
}

/// A channel operation failed.
#[derive(Debug, Clone, Copy, PartialEq, Eq, Structural)]
pub enum ChannelError {
    /// `send` was attempted on a channel that is not open.
    NotOpen,
}

/// The signaling transport failed to deliver a message; fatal to the attempt.
#[derive(Debug, Clone, Copy, PartialEq, Eq, Structural)]
pub enum SignalError {
    DeliveryFailed,
}

} // verus!
