//! The interface: a correlated call channel over one endpoint.
//!
//! The interface owns the call registry and the dispatch table, performs
//! the readiness handshake, and routes every inbound envelope: a response
//! is delivered to the matching pending call (or discarded when stale), a
//! request is dispatched to the registered handler or answered with a
//! no-such-method error. The host layer drives it: it posts the envelopes
//! the interface hands back, runs the handlers the interface schedules,
//! and reports the channel's closure. Handlers may complete in any order;
//! callers rely purely on call-id correlation.

use vstd::prelude::*;

use crate::dispatch::DispatchTable;
use crate::envelope::completion_outcome;
use crate::envelope::deliverable_outcome;
use crate::envelope::outcome_to_call;
use crate::envelope::CallError;
use crate::envelope::CallOutcome;
use crate::envelope::Envelope;
use crate::envelope::HandlerFailure;
use crate::envelope::Outcome;
use crate::envelope::WireFault;
use crate::registry::CallRecord;
use crate::registry::CallRegistry;
use crate::registry::CallState;

verus! {

/// What the receive loop asks the host layer to do with one inbound
/// envelope.
#[derive(PartialEq, Eq, Debug)]
pub enum RecvAction {
    /// Nothing: a handshake signal was recorded, or a response was
    /// delivered (or discarded as stale) locally.
    Idle,
    /// Post this envelope back through the endpoint (an error response
    /// synthesized for an unserviceable request).
    Post(Envelope),
    /// Execute the registered handler for this call; its completion is
    /// reported back through `Interface::handler_complete`.
    Invoke {
        /// The inbound call's correlating id.
        call_id: u64,
        /// The targeted service.
        service_id: u32,
        /// The targeted method of that service.
        method_id: u32,
        /// The ordered argument payloads for the handler.
        args: Vec<Vec<u8>>,
    },
}

/// One side's multiplexing state: registry, dispatch table, handshake and
/// closure flags, and the inbound calls currently being served.
pub struct Interface {
    /// Outstanding outbound calls.
    pub registry: CallRegistry,
    /// The handlers registered on this side.
    pub table: DispatchTable,
    /// Whether this side has signalled its own readiness.
    pub ready_sent: bool,
    /// Whether the peer's readiness signal has arrived; calls are safe to
    /// issue only afterwards.
    pub peer_ready: bool,
    /// Whether the channel has been torn down.
    pub closed: bool,
    /// Call ids of inbound requests whose handlers are still running.
    pub serving: Vec<u64>,
}

impl Interface {
    /// Interface invariant: registry and table invariants hold.
    pub open spec fn wf(self) -> bool {
        &&& self.registry.wf()
        &&& self.table.wf()
    }

    /// The handshake has completed: at least one readiness signal has been
    /// exchanged, so a send can no longer race ahead of the receiver's
    /// activation.
    pub open spec fn established(self) -> bool {
        self.peer_ready
    }

    /// A fresh interface over the given dispatch table: handshake not yet
    /// performed, no calls tracked, channel open.
    pub fn new(table: DispatchTable) -> (iface: Interface)
        requires
            table.wf(),
        ensures
            iface.table == table,
            iface.registry.records@ == Seq::<CallRecord>::empty(),
            iface.registry.next_id == 0,
            !iface.ready_sent,
            !iface.peer_ready,
            !iface.closed,
            iface.serving@ == Seq::<u64>::empty(),
            iface.wf(),
    {
        Interface {
            registry: CallRegistry::new(),
            table,
            ready_sent: false,
            peer_ready: false,
            closed: false,
            serving: Vec::new(),
        }
    }

    /// This side's half of the handshake: record that readiness was
    /// signalled and hand the signal to the host layer to post.
    pub fn signal_ready(&mut self) -> (env: Envelope)
        requires
            old(self).wf(),
        ensures
            env == Envelope::Ready,
            final(self).ready_sent,
            final(self).registry == old(self).registry,
            final(self).table == old(self).table,
            final(self).peer_ready == old(self).peer_ready,
            final(self).closed == old(self).closed,
            final(self).serving@ == old(self).serving@,
            final(self).wf(),
    {
        self.ready_sent = true;
        Envelope::Ready
    }

    /// Whether the handshake has completed.
    pub fn is_established(&self) -> (b: bool)
        ensures
            b == self.established(),
    {
        self.peer_ready
    }

    /// Whether the channel has been torn down.
    pub fn is_closed(&self) -> (b: bool)
        ensures
            b == self.closed,
    {
        self.closed
    }

    /// Issue a call: allocate a fresh call id, insert a pending record for
    /// it, and hand back the request envelope to post. After closure no
    /// call is registered and the attempt fails with the closed-channel
    /// error right away.
    pub fn send_request(&mut self, service_id: u32, method_id: u32, args: Vec<Vec<u8>>) -> (r:
        Result<(u64, Envelope), CallError>)
        requires
            old(self).wf(),
            old(self).established(),
            old(self).registry.next_id < u64::MAX,
        ensures
            final(self).wf(),
            final(self).table == old(self).table,
            final(self).ready_sent == old(self).ready_sent,
            final(self).peer_ready == old(self).peer_ready,
            final(self).closed == old(self).closed,
            final(self).serving@ == old(self).serving@,
            r is Ok <==> !old(self).closed,
            r is Err ==> r == Err::<(u64, Envelope), CallError>(CallError::ChannelClosed)
                && final(self).registry == old(self).registry,
            r matches Ok(p) ==> {
                &&& p.0 == old(self).registry.next_id
                &&& !CallRegistry::has_call(old(self).registry.records@, p.0)
                &&& final(self).registry.records@ == old(self).registry.records@.push(
                    (CallRecord { id: p.0, state: CallState::Pending }),
                )
                &&& final(self).registry.next_id == old(self).registry.next_id + 1
                &&& CallRegistry::is_pending(final(self).registry.records@, p.0)
                &&& p.1 == (Envelope::Request { call_id: p.0, service_id, method_id, args })
            },
    {
        if self.closed {
            return Err(CallError::ChannelClosed);
        }
        let call_id = self.registry.register();
        Ok((call_id, Envelope::Request { call_id, service_id, method_id, args }))
    }

    /// Route one inbound envelope.
    ///
    /// A readiness signal completes the handshake. A response envelope is
    /// delivered to the pending call with the same call id — a stale or
    /// duplicate response, finding none, is discarded silently. A request
    /// envelope is dispatched: if a handler is registered for its (service
    /// id, method id), the host is asked to invoke it and the call is
    /// tracked as being served; otherwise a no-such-method error response
    /// with the same call id is synthesized for the host to post, and the
    /// receive loop stays serviceable.
    pub fn handle_message(&mut self, env: Envelope) -> (act: RecvAction)
        requires
            old(self).wf(),
            !old(self).closed,
        ensures
            final(self).wf(),
            final(self).table == old(self).table,
            final(self).ready_sent == old(self).ready_sent,
            !final(self).closed,
            env is Ready ==> final(self).peer_ready && final(self).registry == old(self).registry
                && final(self).serving@ == old(self).serving@ && act is Idle,
            env !is Ready ==> final(self).peer_ready == old(self).peer_ready,
            env matches Envelope::Response { call_id, outcome } ==> {
                &&& final(self).registry.records@ == CallRegistry::resolve_model(
                    old(self).registry.records@,
                    call_id,
                    outcome_to_call(outcome),
                )
                &&& final(self).registry.next_id == old(self).registry.next_id
                &&& final(self).serving@ == old(self).serving@
                &&& act is Idle
            },
            env matches Envelope::Request { call_id, service_id, method_id, args } ==> {
                &&& final(self).registry == old(self).registry
                &&& (DispatchTable::has_method(old(self).table.services@, service_id, method_id)
                    ==> final(self).serving@ == old(self).serving@.push(call_id) && act == (
                RecvAction::Invoke { call_id, service_id, method_id, args }))
                &&& (!DispatchTable::has_method(old(self).table.services@, service_id, method_id)
                    ==> final(self).serving@ == old(self).serving@ && act == RecvAction::Post(
                    (Envelope::Response {
                        call_id,
                        outcome: Outcome::Failure(WireFault::NoSuchMethod),
                    }),
                ))
            },
    {
        match env {
            Envelope::Ready => {
                self.peer_ready = true;
                RecvAction::Idle
            },
            Envelope::Response { call_id, outcome } => {
                let delivered = deliverable_outcome(outcome);
                let _ = self.registry.resolve(call_id, delivered);
                RecvAction::Idle
            },
            Envelope::Request { call_id, service_id, method_id, args } => {
                if self.table.supports(service_id, method_id) {
                    self.serving.push(call_id);
                    RecvAction::Invoke { call_id, service_id, method_id, args }
                } else {
                    RecvAction::Post(
                        Envelope::Response {
                            call_id,
                            outcome: Outcome::Failure(WireFault::NoSuchMethod),
                        },
                    )
                }
            },
        }
    }

    /// A handler finished. If its call is still being served and the
    /// channel is open, the call leaves the served set and exactly one
    /// response envelope — success payload or handler-error outcome, under
    /// the original call id — is handed back for posting. After teardown,
    /// or for a call no longer served, nothing is posted.
    #[verifier::loop_isolation(false)]
    pub fn handler_complete(&mut self, call_id: u64, result: Result<Vec<u8>, HandlerFailure>) -> (
    act: Option<Envelope>)
        requires
            old(self).wf(),
        ensures
            final(self).wf(),
            final(self).registry == old(self).registry,
            final(self).table == old(self).table,
            final(self).ready_sent == old(self).ready_sent,
            final(self).peer_ready == old(self).peer_ready,
            final(self).closed == old(self).closed,
            old(self).closed ==> act is None && final(self).serving@ == old(self).serving@,
            !old(self).closed && !old(self).serving@.contains(call_id) ==> act is None && final(self).serving@ == old(self).serving@,
            !old(self).closed && old(self).serving@.contains(call_id) ==> act == Some(
                (Envelope::Response { call_id, outcome: completion_outcome(result) }),
            ) && exists|i: int|
                0 <= i < old(self).serving@.len() && old(self).serving@[i] == call_id && final(self).serving@ == old(self).serving@.remove(i),
    {
        if self.closed {
            return None;
        }
        let ghost orig = self.serving@;
        let n = self.serving.len();
        let mut i: usize = 0;
        while i < n
            invariant
                self.serving@ == orig,
                self.registry == old(self).registry,
                self.table == old(self).table,
                self.ready_sent == old(self).ready_sent,
                self.peer_ready == old(self).peer_ready,
                self.closed == old(self).closed,
                forall|j: int| 0 <= j < i ==> orig[j] != call_id,
            decreases n - i,
        {
            if self.serving[i] == call_id {
                let _ = self.serving.remove(i);
                let outcome = match result {
                    Ok(payload) => Outcome::Success(payload),
                    Err(_) => Outcome::Failure(WireFault::HandlerError),
                };
                return Some(Envelope::Response { call_id, outcome });
            }
            i = i + 1;
        }
        None
    }

    /// The endpoint reported terminal closure, or was torn down. Every
    /// pending outbound call resolves to the closed-channel error at once,
    /// in-flight inbound dispatch is abandoned so that no response is
    /// posted afterwards, and the interface stops accepting traffic.
    pub fn on_closed(&mut self)
        requires
            old(self).wf(),
        ensures
            final(self).closed,
            final(self).registry.records@ == CallRegistry::close_model(
                old(self).registry.records@,
            ),
            final(self).registry.next_id == old(self).registry.next_id,
            final(self).serving@ == Seq::<u64>::empty(),
            final(self).table == old(self).table,
            final(self).ready_sent == old(self).ready_sent,
            final(self).peer_ready == old(self).peer_ready,
            final(self).wf(),
    {
        self.closed = true;
        self.registry.close_all();
        self.serving.clear();
    }

    /// Poll an outbound call: collect its outcome if the response — or the
    /// closed-channel error — has been delivered, destroying its record;
    /// nothing while it is still pending.
    pub fn take_outcome(&mut self, call_id: u64) -> (r: Option<CallOutcome>)
        requires
            old(self).wf(),
        ensures
            final(self).wf(),
            final(self).table == old(self).table,
            final(self).ready_sent == old(self).ready_sent,
            final(self).peer_ready == old(self).peer_ready,
            final(self).closed == old(self).closed,
            final(self).serving@ == old(self).serving@,
            final(self).registry.next_id == old(self).registry.next_id,
            r is Some <==> CallRegistry::is_ready(old(self).registry.records@, call_id),
            r is None ==> final(self).registry.records@ == old(self).registry.records@,
            r matches Some(outcome) ==> CallRegistry::has_outcome(
                old(self).registry.records@,
                call_id,
                outcome,
            ),
            r is Some ==> exists|i: int|
                0 <= i < old(self).registry.records@.len() && old(self).registry.records@[i].id
                    == call_id && final(self).registry.records@ == old(self).registry.records@.remove(i),
            !CallRegistry::is_ready(final(self).registry.records@, call_id),
    {
        self.registry.take(call_id)
    }

    /// Abandon interest in an outbound call: its record is removed, and a
    /// response arriving for it later is discarded as stale.
    pub fn cancel_call(&mut self, call_id: u64) -> (removed: bool)
        requires
            old(self).wf(),
        ensures
            final(self).wf(),
            final(self).table == old(self).table,
            final(self).ready_sent == old(self).ready_sent,
            final(self).peer_ready == old(self).peer_ready,
            final(self).closed == old(self).closed,
            final(self).serving@ == old(self).serving@,
            final(self).registry.next_id == old(self).registry.next_id,
            removed == CallRegistry::has_call(old(self).registry.records@, call_id),
            !removed ==> final(self).registry.records@ == old(self).registry.records@,
            removed ==> exists|i: int|
                0 <= i < old(self).registry.records@.len() && old(self).registry.records@[i].id
                    == call_id && final(self).registry.records@ == old(self).registry.records@.remove(i),
            !CallRegistry::has_call(final(self).registry.records@, call_id),
    {
        self.registry.cancel(call_id)
    }
}

} // verus!
