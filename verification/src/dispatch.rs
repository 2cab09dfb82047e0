//! The service dispatch table.
//!
//! A served implementation registers all of its methods under one service
//! id; an inbound request selects its handler by the pair (service id,
//! method id). Service ids are unique per interface: registering the same
//! id twice is a build-time error.

use vstd::prelude::*;

verus! {

/// An error raised while assembling services on a builder.
#[derive(Clone, Copy, PartialEq, Eq, Structural, Debug)]
pub enum BuildError {
    /// A service with the same service id is already registered on this
    /// builder.
    DuplicateService,
}

/// One registered service: its id and the method ids it serves.
#[derive(PartialEq, Eq, Debug)]
pub struct ServiceEntry {
    /// The id under which the implementation was registered.
    pub service_id: u32,
    /// The method ids the implementation can execute.
    pub method_ids: Vec<u32>,
}

/// Maps (service id, method id) to the registered handler.
pub struct DispatchTable {
    /// The registered services, ids pairwise distinct.
    pub services: Vec<ServiceEntry>,
}

impl DispatchTable {
    /// No two entries share a service id.
    pub open spec fn services_distinct(s: Seq<ServiceEntry>) -> bool {
        forall|i: int, j: int| 0 <= i < j < s.len() ==> s[i].service_id != s[j].service_id
    }

    /// Table invariant.
    pub open spec fn wf(self) -> bool {
        Self::services_distinct(self.services@)
    }

    /// Some service is registered under this id.
    pub open spec fn has_service(s: Seq<ServiceEntry>, service_id: u32) -> bool {
        exists|i: int| 0 <= i < s.len() && s[i].service_id == service_id
    }

    /// A handler is registered for this (service id, method id) pair.
    pub open spec fn has_method(s: Seq<ServiceEntry>, service_id: u32, method_id: u32) -> bool {
        exists|i: int|
            0 <= i < s.len() && s[i].service_id == service_id && s[i].method_ids@.contains(
                method_id,
            )
    }

    /// An empty table.
    pub fn new() -> (t: DispatchTable)
        ensures
            t.services@ == Seq::<ServiceEntry>::empty(),
            t.wf(),
    {
        DispatchTable { services: Vec::new() }
    }

    /// Register all methods of one implementation under `service_id`.
    /// Fails, changing nothing, exactly when the id is already taken.
    #[verifier::loop_isolation(false)]
    pub fn register_service(&mut self, service_id: u32, method_ids: Vec<u32>) -> (r: Result<
        (),
        BuildError,
    >)
        requires
            old(self).wf(),
        ensures
            r is Ok <==> !Self::has_service(old(self).services@, service_id),
            r is Ok ==> final(self).services@ == old(self).services@.push(
                (ServiceEntry { service_id, method_ids }),
            ),
            r is Err ==> final(self).services@ == old(self).services@ && r == Err::<
                (),
                BuildError,
            >(BuildError::DuplicateService),
            final(self).wf(),
    {
        let ghost orig = self.services@;
        let n = self.services.len();
        let mut i: usize = 0;
        while i < n
            invariant
                self.services@ == orig,
                forall|j: int| 0 <= j < i ==> orig[j].service_id != service_id,
            decreases n - i,
        {
            if self.services[i].service_id == service_id {
                return Err(BuildError::DuplicateService);
            }
            i = i + 1;
        }
        self.services.push(ServiceEntry { service_id, method_ids });
        Ok(())
    }

    /// Whether a handler is registered for `(service_id, method_id)`.
    #[verifier::loop_isolation(false)]
    pub fn supports(&self, service_id: u32, method_id: u32) -> (b: bool)
        ensures
            b == Self::has_method(self.services@, service_id, method_id),
    {
        let n = self.services.len();
        let mut i: usize = 0;
        while i < n
            invariant
                forall|j: int|
                    0 <= j < i ==> !(self.services@[j].service_id == service_id
                        && self.services@[j].method_ids@.contains(method_id)),
            decreases n - i,
        {
            if self.services[i].service_id == service_id {
                let m = self.services[i].method_ids.len();
                let mut k: usize = 0;
                while k < m
                    invariant
                        0 <= i < self.services@.len(),
                        m == self.services@[i as int].method_ids@.len(),
                        self.services@[i as int].service_id == service_id,
                        forall|l: int|
                            0 <= l < k ==> self.services@[i as int].method_ids@[l] != method_id,
                    decreases m - k,
                {
                    if self.services[i].method_ids[k] == method_id {
                        return true;
                    }
                    k = k + 1;
                }
                proof {
                    assert(!self.services@[i as int].method_ids@.contains(method_id));
                }
            }
            i = i + 1;
        }
        false
    }
}

} // verus!
