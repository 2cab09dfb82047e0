//! The builder: services and client stubs assembled on one interface.
//!
//! A builder takes an interface, registers served implementations under
//! their service ids — duplicate ids are a build-time error — and hands
//! out typed client handles. Building returns the fully wired interface;
//! the host layer then drives its receive loop as the serving task and
//! completes the handshake before the first client call is issued.

use vstd::prelude::*;

use crate::dispatch::BuildError;
use crate::dispatch::DispatchTable;
use crate::dispatch::ServiceEntry;
use crate::envelope::CallError;
use crate::envelope::Envelope;
use crate::interface::Interface;
use crate::registry::CallRecord;
use crate::registry::CallRegistry;
use crate::registry::CallState;

verus! {

/// Assembles services and clients on top of one interface.
pub struct Builder {
    /// The interface being wired up.
    pub iface: Interface,
}

/// A typed client bound to one service on the other side; its methods are
/// thin wrappers around `Interface::send_request`.
#[derive(Clone, Copy, PartialEq, Eq, Structural, Debug)]
pub struct ClientHandle {
    /// The service the handle's calls target.
    pub service_id: u32,
}

impl Builder {
    /// Start assembling on the given interface.
    pub fn new(iface: Interface) -> (b: Builder)
        requires
            iface.wf(),
        ensures
            b.iface == iface,
    {
        Builder { iface }
    }

    /// Register a served implementation: all of `method_ids` become
    /// invocable under `service_id`. Fails, leaving the builder as it
    /// was, exactly when the service id is already registered here.
    pub fn with_service(self, service_id: u32, method_ids: Vec<u32>) -> (r: Result<
        Builder,
        BuildError,
    >)
        requires
            self.iface.wf(),
        ensures
            r is Ok <==> !DispatchTable::has_service(self.iface.table.services@, service_id),
            r matches Ok(b) ==> {
                &&& b.iface.table.services@ == self.iface.table.services@.push(
                    (ServiceEntry { service_id, method_ids }),
                )
                &&& b.iface.registry == self.iface.registry
                &&& b.iface.ready_sent == self.iface.ready_sent
                &&& b.iface.peer_ready == self.iface.peer_ready
                &&& b.iface.closed == self.iface.closed
                &&& b.iface.serving@ == self.iface.serving@
                &&& b.iface.wf()
            },
            r is Err ==> r == Err::<Builder, BuildError>(BuildError::DuplicateService),
    {
        let mut iface = self.iface;
        match iface.table.register_service(service_id, method_ids) {
            Ok(_) => Ok(Builder { iface }),
            Err(e) => Err(e),
        }
    }

    /// Produce a typed client handle for `service_id` on the other side.
    /// The builder is unchanged: clients need no local registration.
    pub fn with_client(self, service_id: u32) -> (r: (Builder, ClientHandle))
        requires
            self.iface.wf(),
        ensures
            r.0 == self,
            r.1 == (ClientHandle { service_id }),
    {
        (self, ClientHandle { service_id })
    }

    /// Finish assembly: the fully wired interface, ready for the host
    /// layer to drive.
    pub fn build(self) -> (iface: Interface)
        requires
            self.iface.wf(),
        ensures
            iface == self.iface,
            iface.wf(),
    {
        self.iface
    }
}

impl ClientHandle {
    /// Issue a call of `method_id` on the handle's service: a thin wrapper
    /// around `Interface::send_request`, surfacing its error to the
    /// caller.
    pub fn call(&self, iface: &mut Interface, method_id: u32, args: Vec<Vec<u8>>) -> (r: Result<
        (u64, Envelope),
        CallError,
    >)
        requires
            old(iface).wf(),
            old(iface).established(),
            old(iface).registry.next_id < u64::MAX,
        ensures
            final(iface).wf(),
            final(iface).table == old(iface).table,
            final(iface).ready_sent == old(iface).ready_sent,
            final(iface).peer_ready == old(iface).peer_ready,
            final(iface).closed == old(iface).closed,
            final(iface).serving@ == old(iface).serving@,
            r is Ok <==> !old(iface).closed,
            r is Err ==> r == Err::<(u64, Envelope), CallError>(CallError::ChannelClosed)
                && final(iface).registry == old(iface).registry,
            r matches Ok(p) ==> {
                &&& p.0 == old(iface).registry.next_id
                &&& final(iface).registry.records@ == old(iface).registry.records@.push(
                    (CallRecord { id: p.0, state: CallState::Pending }),
                )
                &&& final(iface).registry.next_id == old(iface).registry.next_id + 1
                &&& CallRegistry::is_pending(final(iface).registry.records@, p.0)
                &&& p.1 == (Envelope::Request {
                    call_id: p.0,
                    service_id: self.service_id,
                    method_id,
                    args,
                })
            },
    {
        iface.send_request(self.service_id, method_id, args)
    }
}

} // verus!
