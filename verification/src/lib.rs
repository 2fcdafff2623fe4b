//! Two-party peer negotiation core: offer/answer exchange, trickle-candidate
//! buffering, channel lifecycle, and the coordinator that serializes the
//! signaling steps. The asynchronous connectivity engine itself (which
//! produces session descriptions and accepts candidates) lives outside this
//! crate; the types here model every decision the protocol makes about its
//! results, so the ordering hazards of the exchange are verified.

pub mod candidate;
pub mod channel;
pub mod coordinator;
pub mod errors;
pub mod registry;
pub mod session;
