//! Envelopes and call outcomes.
//!
//! Every message crossing the channel is one of three envelopes: a readiness
//! signal exchanged during the handshake, a request carrying a call id, a
//! target (service id, method id) and the ordered argument payloads, or a
//! response carrying the originating call id and an outcome. Payloads are
//! opaque byte strings: how arguments and return values are serialized into
//! them is the business of the generated stubs, not of this core.

use vstd::prelude::*;

verus! {

/// A failure outcome carried back over the channel inside a response.
#[derive(Clone, Copy, PartialEq, Eq, Structural, Debug)]
pub enum WireFault {
    /// The request targeted a (service id, method id) with no registered
    /// handler on the receiving side.
    NoSuchMethod,
    /// The registered handler ran and reported a failure.
    HandlerError,
}

/// The outcome field of a response envelope: a success payload or a fault.
#[derive(Clone, PartialEq, Eq, Debug)]
pub enum Outcome {
    /// The handler completed and produced this return payload.
    Success(Vec<u8>),
    /// The call failed on the serving side.
    Failure(WireFault),
}

/// The endpoint could not accept a message: the underlying channel object
/// has already been closed or terminated by the host.
#[derive(Clone, Copy, PartialEq, Eq, Structural, Debug)]
pub enum TransportError {
    /// The underlying channel object is gone.
    ChannelGone,
}

/// The error a caller sees when a call cannot complete with a success
/// payload.
#[derive(Clone, Copy, PartialEq, Eq, Structural, Debug)]
pub enum CallError {
    /// The channel was torn down, or the handshake never completed, before
    /// the call could be resolved; also returned for calls issued after
    /// closure.
    ChannelClosed,
    /// The serving side has no handler registered for the requested
    /// (service id, method id).
    NoSuchMethod,
    /// The handler executed and reported a failure.
    HandlerError,
}

/// What a pending call eventually resolves to: the return payload, or the
/// error describing why there is none.
pub type CallOutcome = Result<Vec<u8>, CallError>;

/// One message on the channel.
#[derive(Clone, PartialEq, Eq, Debug)]
pub enum Envelope {
    /// Handshake: this side is ready to receive.
    Ready,
    /// An invocation of method `method_id` of service `service_id`,
    /// correlated by `call_id`, with one opaque payload per argument in
    /// declaration order.
    Request { call_id: u64, service_id: u32, method_id: u32, args: Vec<Vec<u8>> },
    /// The unique answer to the request with the same `call_id`.
    Response { call_id: u64, outcome: Outcome },
}

/// A registered handler's report that it failed while executing. The
/// receive loop converts it into an error outcome; it never escapes as an
/// unhandled fault.
#[derive(Clone, Copy, PartialEq, Eq, Structural, Debug)]
pub struct HandlerFailure;

/// What a handler's completion puts on the wire: its return payload, or
/// the handler-error fault.
pub open spec fn completion_outcome(result: Result<Vec<u8>, HandlerFailure>) -> Outcome {
    match result {
        Ok(payload) => Outcome::Success(payload),
        Err(_) => Outcome::Failure(WireFault::HandlerError),
    }
}

/// The outcome a caller observes for a wire outcome: a success payload maps
/// to the payload, a fault to the matching call error.
pub open spec fn outcome_to_call(outcome: Outcome) -> CallOutcome {
    match outcome {
        Outcome::Success(payload) => Ok(payload),
        Outcome::Failure(WireFault::NoSuchMethod) => Err(CallError::NoSuchMethod),
        Outcome::Failure(WireFault::HandlerError) => Err(CallError::HandlerError),
    }
}

/// Convert a wire outcome into the outcome delivered to the pending call.
pub fn deliverable_outcome(outcome: Outcome) -> (r: CallOutcome)
    ensures
        r == outcome_to_call(outcome),
{
    match outcome {
        Outcome::Success(payload) => Ok(payload),
        Outcome::Failure(WireFault::NoSuchMethod) => Err(CallError::NoSuchMethod),
        Outcome::Failure(WireFault::HandlerError) => Err(CallError::HandlerError),
    }
}

} // verus!
