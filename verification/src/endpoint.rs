//! Model of one side of a message channel.
//!
//! The host exposes several concrete channel-like objects (a spawned worker,
//! the global scope inside a worker, one port of a message channel). They
//! share a capability set — post a message, subscribe to events, optionally
//! an explicit activation — but differ in lifecycle: a spawned worker is not
//! reliably reclaimed by the host's garbage collection, so it must be
//! terminated explicitly when the last owning reference is released, and a
//! message-channel port buffers events until it is started.
//!
//! This module verifies that lifecycle. The struct tracks the owner count,
//! whether event delivery has been activated, and whether the underlying
//! worker has been terminated; the unverified host layer performs the actual
//! post/start/terminate calls whenever the corresponding transition fires.

use vstd::prelude::*;

use crate::envelope::TransportError;

verus! {

/// The closed set of concrete channel kinds an endpoint can wrap.
#[derive(Clone, Copy, PartialEq, Eq, Structural, Debug)]
pub enum EndpointKind {
    /// A spawned worker; owns a resource that must be terminated explicitly.
    Worker,
    /// The global scope seen from inside a worker.
    WorkerScope,
    /// One port of an entangled message-channel pair.
    MessagePort,
}

/// Lifecycle state of one endpoint: how many owners share it, whether event
/// delivery is active, and whether its worker resource has been terminated.
#[derive(Clone, Copy, PartialEq, Eq, Structural, Debug)]
pub struct Endpoint {
    /// Which concrete channel object this endpoint wraps.
    pub kind: EndpointKind,
    /// Number of live owning references (client handles, serving task, the
    /// interface itself).
    pub owners: u64,
    /// Whether inbound events are being delivered. Kinds other than a
    /// message-channel port deliver events as soon as a listener is
    /// registered; a port buffers them until explicitly started.
    pub started: bool,
    /// Whether the underlying worker resource has been terminated.
    pub terminated: bool,
}

impl Endpoint {
    /// True for kinds that deliver events without an explicit activation.
    pub open spec fn delivers_immediately(kind: EndpointKind) -> bool {
        kind != EndpointKind::MessagePort
    }

    /// A live endpoint: owners keep it alive, and termination only ever
    /// happens once the last owner is gone.
    pub open spec fn wf(self) -> bool {
        self.terminated ==> self.owners == 0
    }

    /// Wrap a concrete channel object. The caller holds the first owning
    /// reference.
    pub fn new(kind: EndpointKind) -> (e: Endpoint)
        ensures
            e.kind == kind,
            e.owners == 1,
            e.started == Self::delivers_immediately(kind),
            !e.terminated,
            e.wf(),
    {
        let started: bool = match kind {
            EndpointKind::MessagePort => false,
            _ => true,
        };
        Endpoint { kind, owners: 1, started, terminated: false }
    }

    /// A further owner takes a shared reference to the same endpoint.
    pub fn acquire(&mut self)
        requires
            old(self).wf(),
            old(self).owners >= 1,
            old(self).owners < u64::MAX,
        ensures
            final(self).owners == old(self).owners + 1,
            final(self).kind == old(self).kind,
            final(self).started == old(self).started,
            final(self).terminated == old(self).terminated,
            final(self).wf(),
    {
        self.owners = self.owners + 1;
    }

    /// One owner releases its reference. Returns whether the underlying
    /// worker must be terminated now: exactly when the releasing owner was
    /// the last one and the endpoint wraps a spawned worker. Other kinds
    /// need no explicit teardown beyond releasing the reference.
    pub fn release(&mut self) -> (terminate_now: bool)
        requires
            old(self).wf(),
            old(self).owners >= 1,
        ensures
            final(self).owners == old(self).owners - 1,
            final(self).kind == old(self).kind,
            final(self).started == old(self).started,
            terminate_now == (old(self).owners == 1 && old(self).kind == EndpointKind::Worker),
            final(self).terminated == terminate_now,
            final(self).wf(),
    {
        self.owners = self.owners - 1;
        let is_worker: bool = match self.kind {
            EndpointKind::Worker => true,
            _ => false,
        };
        let terminate_now = self.owners == 0 && is_worker;
        self.terminated = terminate_now;
        terminate_now
    }

    /// Activate event delivery. A no-op for kinds that deliver immediately;
    /// flips a buffering port into the delivering state. Must happen before
    /// the first event is expected, or early events are lost.
    pub fn activate(&mut self)
        requires
            old(self).wf(),
            !old(self).terminated,
        ensures
            final(self).started,
            final(self).kind == old(self).kind,
            final(self).owners == old(self).owners,
            final(self).terminated == old(self).terminated,
            final(self).wf(),
    {
        self.started = true;
    }

    /// Gate for a post attempt: a message can be handed to the underlying
    /// object exactly while it has not been terminated; afterwards the
    /// attempt fails with the transport error.
    pub fn post_gate(&self) -> (r: Result<(), TransportError>)
        ensures
            r is Ok <==> !self.terminated,
            r is Err ==> r == Err::<(), TransportError>(TransportError::ChannelGone),
    {
        if self.terminated {
            Err(TransportError::ChannelGone)
        } else {
            Ok(())
        }
    }

    /// The endpoint after one release, as a transition on the model.
    pub open spec fn release_model(e: Endpoint) -> Endpoint {
        Endpoint {
            owners: (e.owners - 1) as u64,
            terminated: e.owners == 1 && e.kind == EndpointKind::Worker,
            ..e
        }
    }

    /// The endpoint after `n` successive releases.
    pub open spec fn after_releases(e: Endpoint, n: nat) -> Endpoint
        decreases n,
    {
        if n == 0 {
            e
        } else {
            Self::release_model(Self::after_releases(e, (n - 1) as nat))
        }
    }
}

/// The worker resource lives exactly as long as some owner does: with `m`
/// owning references, releasing fewer than `m` of them never terminates the
/// worker, and releasing all `m` terminates it — and terminates nothing for
/// the kinds that need no explicit teardown.
pub proof fn lemma_worker_terminated_iff_last_release(e: Endpoint, n: nat)
    requires
        e.wf(),
        !e.terminated,
        e.owners >= 1,
        n <= e.owners,
    ensures
        n < e.owners ==> !Endpoint::after_releases(e, n).terminated,
        n == e.owners ==> Endpoint::after_releases(e, n).terminated == (e.kind
            == EndpointKind::Worker),
        Endpoint::after_releases(e, n).owners == e.owners - n,
        Endpoint::after_releases(e, n).kind == e.kind,
    decreases n,
{
    if n > 0 {
        lemma_worker_terminated_iff_last_release(e, (n - 1) as nat);
    }
}

} // verus!
