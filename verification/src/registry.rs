//! The call registry: outstanding outbound calls and their outcomes.
//!
//! Every outbound call gets a record keyed by a fresh, channel-scoped call
//! id. The record starts pending; when the matching response envelope
//! arrives the outcome is delivered into the record, and the caller picks it
//! up (destroying the record) when it polls its side of the call. A response
//! for an id with no pending record — stale after a cancellation, or a
//! duplicate — is discarded without any effect. Tearing the channel down
//! delivers a closed-channel error to every pending record at once.

use vstd::prelude::*;

use crate::envelope::CallError;
use crate::envelope::CallOutcome;

verus! {

/// The lifecycle of one tracked call.
#[derive(PartialEq, Eq, Debug)]
pub enum CallState {
    /// Issued, no outcome delivered yet.
    Pending,
    /// The outcome has been delivered and waits for the caller to pick it
    /// up.
    Ready(CallOutcome),
}

/// One tracked call: its correlating id and where it stands.
#[derive(PartialEq, Eq, Debug)]
pub struct CallRecord {
    /// The channel-scoped call id.
    pub id: u64,
    /// Pending, or resolved with an outcome.
    pub state: CallState,
}

/// Tracks the outstanding calls of one interface and allocates their ids.
pub struct CallRegistry {
    /// The next call id to hand out; ids count up and are never reused
    /// while the registry lives.
    pub next_id: u64,
    /// The records of calls that are pending or whose outcome has not been
    /// picked up yet.
    pub records: Vec<CallRecord>,
}

impl CallRegistry {
    /// No two records share a call id.
    pub open spec fn ids_distinct(s: Seq<CallRecord>) -> bool {
        forall|i: int, j: int| 0 <= i < j < s.len() ==> s[i].id != s[j].id
    }

    /// Every record's id was handed out before `bound`.
    pub open spec fn ids_below(s: Seq<CallRecord>, bound: u64) -> bool {
        forall|i: int| 0 <= i < s.len() ==> s[i].id < bound
    }

    /// Registry invariant: ids are unique among live records and below the
    /// allocation counter.
    pub open spec fn wf(self) -> bool {
        &&& Self::ids_distinct(self.records@)
        &&& Self::ids_below(self.records@, self.next_id)
    }

    /// Some record carries this id.
    pub open spec fn has_call(s: Seq<CallRecord>, id: u64) -> bool {
        exists|i: int| 0 <= i < s.len() && s[i].id == id
    }

    /// A record with this id exists and is still pending.
    pub open spec fn is_pending(s: Seq<CallRecord>, id: u64) -> bool {
        exists|i: int| 0 <= i < s.len() && s[i].id == id && s[i].state is Pending
    }

    /// A record with this id exists and holds a not-yet-collected outcome.
    pub open spec fn is_ready(s: Seq<CallRecord>, id: u64) -> bool {
        exists|i: int| 0 <= i < s.len() && s[i].id == id && s[i].state is Ready
    }

    /// A record with this id holds exactly this outcome.
    pub open spec fn has_outcome(s: Seq<CallRecord>, id: u64, outcome: CallOutcome) -> bool {
        exists|i: int|
            0 <= i < s.len() && s[i].id == id && s[i].state == CallState::Ready(outcome)
    }

    /// Delivering `outcome` for `id` to one record: only the pending record
    /// with that id changes, into the delivered state.
    pub open spec fn resolve_record(r: CallRecord, id: u64, outcome: CallOutcome) -> CallRecord {
        if r.id == id && r.state is Pending {
            CallRecord { id: r.id, state: CallState::Ready(outcome) }
        } else {
            r
        }
    }

    /// Delivering `outcome` for `id` across the whole registry.
    pub open spec fn resolve_model(s: Seq<CallRecord>, id: u64, outcome: CallOutcome) -> Seq<
        CallRecord,
    > {
        s.map_values(|r: CallRecord| Self::resolve_record(r, id, outcome))
    }

    /// Teardown applied to one record: a pending call resolves to the
    /// closed-channel error, a delivered outcome is kept as it is.
    pub open spec fn close_record(r: CallRecord) -> CallRecord {
        if r.state is Pending {
            CallRecord { id: r.id, state: CallState::Ready(Err(CallError::ChannelClosed)) }
        } else {
            r
        }
    }

    /// Teardown applied across the whole registry.
    pub open spec fn close_model(s: Seq<CallRecord>) -> Seq<CallRecord> {
        s.map_values(|r: CallRecord| Self::close_record(r))
    }

    /// The registry after a whole sequence of deliveries, applied in the
    /// order the responses arrived.
    pub open spec fn apply_resolutions(s: Seq<CallRecord>, rs: Seq<(u64, CallOutcome)>) -> Seq<
        CallRecord,
    >
        decreases rs.len(),
    {
        if rs.len() == 0 {
            s
        } else {
            Self::apply_resolutions(
                Self::resolve_model(s, rs[0].0, rs[0].1),
                rs.subrange(1, rs.len() as int),
            )
        }
    }

    /// An empty registry, with ids starting at zero.
    pub fn new() -> (r: CallRegistry)
        ensures
            r.records@ == Seq::<CallRecord>::empty(),
            r.next_id == 0,
            r.wf(),
    {
        CallRegistry { next_id: 0, records: Vec::new() }
    }

    /// Issue a call: allocate a fresh id — distinct from every id still
    /// tracked — and insert a pending record for it.
    pub fn register(&mut self) -> (id: u64)
        requires
            old(self).wf(),
            old(self).next_id < u64::MAX,
        ensures
            id == old(self).next_id,
            !Self::has_call(old(self).records@, id),
            final(self).records@ == old(self).records@.push(
                (CallRecord { id, state: CallState::Pending }),
            ),
            final(self).next_id == old(self).next_id + 1,
            Self::is_pending(final(self).records@, id),
            final(self).wf(),
    {
        let id = self.next_id;
        self.next_id = self.next_id + 1;
        self.records.push(CallRecord { id, state: CallState::Pending });
        proof {
            let s = self.records@;
            assert(s[s.len() - 1].id == id && s[s.len() - 1].state is Pending);
        }
        id
    }

    /// Deliver an outcome for `id`. If a pending record with that id
    /// exists, it — and nothing else — moves to the delivered state and the
    /// delivery is reported as a hit; a duplicate or stale delivery changes
    /// nothing.
    #[verifier::loop_isolation(false)]
    pub fn resolve(&mut self, id: u64, outcome: CallOutcome) -> (hit: bool)
        requires
            old(self).wf(),
        ensures
            final(self).records@ == Self::resolve_model(old(self).records@, id, outcome),
            final(self).next_id == old(self).next_id,
            hit == Self::is_pending(old(self).records@, id),
            final(self).wf(),
    {
        let ghost orig = self.records@;
        let n = self.records.len();
        let mut i: usize = 0;
        while i < n
            invariant
                self.records@ == orig,
                self.next_id == old(self).next_id,
                forall|j: int|
                    0 <= j < i ==> !(orig[j].id == id && orig[j].state is Pending),
            decreases n - i,
        {
            if self.records[i].id == id && record_is_pending(&self.records[i]) {
                self.records[i] = CallRecord { id, state: CallState::Ready(outcome) };
                proof {
                    let mapped = Self::resolve_model(orig, id, outcome);
                    assert forall|j: int| 0 <= j < orig.len() implies self.records@[j]
                        == mapped[j] by {
                        if j != i {
                            assert(orig[j].id != id || !(orig[j].state is Pending));
                        }
                    }
                    assert(self.records@ =~= mapped);
                    assert(forall|j: int|
                        0 <= j < mapped.len() ==> mapped[j].id == orig[j].id);
                }
                return true;
            }
            i = i + 1;
        }
        proof {
            let mapped = Self::resolve_model(orig, id, outcome);
            assert forall|j: int| 0 <= j < orig.len() implies self.records@[j] == mapped[j] by {
                assert(orig[j].id != id || !(orig[j].state is Pending));
            }
            assert(self.records@ =~= mapped);
        }
        false
    }

    /// Collect the outcome of call `id`, destroying its record. Nothing is
    /// returned — and nothing changes — while the call is still pending or
    /// when no record with that id exists.
    #[verifier::loop_isolation(false)]
    pub fn take(&mut self, id: u64) -> (r: Option<CallOutcome>)
        requires
            old(self).wf(),
        ensures
            final(self).next_id == old(self).next_id,
            final(self).wf(),
            r is Some <==> Self::is_ready(old(self).records@, id),
            r is None ==> final(self).records@ == old(self).records@,
            r matches Some(outcome) ==> Self::has_outcome(old(self).records@, id, outcome),
            r is Some ==> exists|i: int|
                0 <= i < old(self).records@.len() && old(self).records@[i].id == id && final(self).records@ == old(self).records@.remove(i),
            !Self::is_ready(final(self).records@, id),
    {
        let ghost orig = self.records@;
        let n = self.records.len();
        let mut i: usize = 0;
        while i < n
            invariant
                self.records@ == orig,
                self.next_id == old(self).next_id,
                forall|j: int| 0 <= j < i ==> orig[j].id != id,
            decreases n - i,
        {
            if self.records[i].id == id {
                if record_is_pending(&self.records[i]) {
                    proof {
                        assert forall|j: int|
                            0 <= j < orig.len() && orig[j].id == id implies !(orig[j].state
                            is Ready) by {
                            if j != i {
                                assert(orig[j].id != orig[i as int].id);
                            }
                        }
                    }
                    return None;
                }
                let removed = self.records.remove(i);
                match removed.state {
                    CallState::Ready(outcome) => {
                        proof {
                            assert(orig[i as int].state == CallState::Ready(outcome));
                            assert forall|j: int|
                                0 <= j < self.records@.len() implies self.records@[j].id
                                != id by {
                                if j < i {
                                    assert(self.records@[j] == orig[j]);
                                } else {
                                    assert(self.records@[j] == orig[j + 1]);
                                }
                            }
                            lemma_remove_keeps_wf(orig, i as int, old(self).next_id);
                        }
                        return Some(outcome);
                    },
                    CallState::Pending => {
                        proof {
                            assert(false);
                        }
                        return None;
                    },
                }
            }
            i = i + 1;
        }
        proof {
            assert forall|j: int|
                0 <= j < orig.len() && orig[j].id == id implies !(orig[j].state is Ready) by {}
        }
        None
    }

    /// Abandon call `id`: its record, in whatever state, is removed, so a
    /// response arriving later finds nothing and is discarded.
    #[verifier::loop_isolation(false)]
    pub fn cancel(&mut self, id: u64) -> (removed: bool)
        requires
            old(self).wf(),
        ensures
            final(self).next_id == old(self).next_id,
            final(self).wf(),
            removed == Self::has_call(old(self).records@, id),
            !removed ==> final(self).records@ == old(self).records@,
            removed ==> exists|i: int|
                0 <= i < old(self).records@.len() && old(self).records@[i].id == id && final(self).records@ == old(self).records@.remove(i),
            !Self::has_call(final(self).records@, id),
    {
        let ghost orig = self.records@;
        let n = self.records.len();
        let mut i: usize = 0;
        while i < n
            invariant
                self.records@ == orig,
                self.next_id == old(self).next_id,
                forall|j: int| 0 <= j < i ==> orig[j].id != id,
            decreases n - i,
        {
            if self.records[i].id == id {
                let _ = self.records.remove(i);
                proof {
                    assert forall|j: int|
                        0 <= j < self.records@.len() implies self.records@[j].id != id by {
                        if j < i {
                            assert(self.records@[j] == orig[j]);
                        } else {
                            assert(self.records@[j] == orig[j + 1]);
                        }
                    }
                    lemma_remove_keeps_wf(orig, i as int, old(self).next_id);
                }
                return true;
            }
            i = i + 1;
        }
        false
    }

    /// Tear the channel down for every outstanding call: each pending
    /// record resolves to the closed-channel error; outcomes already
    /// delivered are kept for their callers to pick up.
    #[verifier::loop_isolation(false)]
    pub fn close_all(&mut self)
        requires
            old(self).wf(),
        ensures
            final(self).records@ == Self::close_model(old(self).records@),
            final(self).next_id == old(self).next_id,
            final(self).wf(),
    {
        let ghost orig = self.records@;
        let n = self.records.len();
        let mut i: usize = 0;
        while i < n
            invariant
                self.records@.len() == orig.len(),
                self.next_id == old(self).next_id,
                forall|j: int| 0 <= j < i ==> self.records@[j] == Self::close_record(orig[j]),
                forall|j: int| i <= j < orig.len() ==> self.records@[j] == orig[j],
            decreases n - i,
        {
            if record_is_pending(&self.records[i]) {
                let id = self.records[i].id;
                self.records[i] = CallRecord {
                    id,
                    state: CallState::Ready(Err(CallError::ChannelClosed)),
                };
            }
            i = i + 1;
        }
        proof {
            assert(self.records@ =~= Self::close_model(orig));
            assert(forall|j: int|
                0 <= j < orig.len() ==> Self::close_model(orig)[j].id == orig[j].id);
        }
    }
}

/// A pending call is resolved at most once: after an outcome has been
/// delivered for a call id, delivering a further outcome — a duplicate, or
/// a stale response racing with the first — for the same id changes no
/// record at all.
pub proof fn lemma_resolve_at_most_once(
    s: Seq<CallRecord>,
    id: u64,
    first: CallOutcome,
    second: CallOutcome,
)
    ensures
        CallRegistry::resolve_model(CallRegistry::resolve_model(s, id, first), id, second)
            == CallRegistry::resolve_model(s, id, first),
{
    let s1 = CallRegistry::resolve_model(s, id, first);
    let s2 = CallRegistry::resolve_model(s1, id, second);
    assert forall|j: int| 0 <= j < s.len() implies s2[j] == s1[j] by {}
    assert(s2 =~= s1);
}

/// A delivery for a call id with no pending record — the call was never
/// issued, was cancelled, or has already been resolved and collected — has
/// no observable effect.
pub proof fn lemma_stale_resolve_no_effect(s: Seq<CallRecord>, id: u64, outcome: CallOutcome)
    requires
        !CallRegistry::is_pending(s, id),
    ensures
        CallRegistry::resolve_model(s, id, outcome) == s,
{
    let s1 = CallRegistry::resolve_model(s, id, outcome);
    assert forall|j: int| 0 <= j < s.len() implies s1[j] == s[j] by {
        if s[j].id == id && s[j].state is Pending {
            assert(CallRegistry::is_pending(s, id));
        }
    }
    assert(s1 =~= s);
}

/// Teardown reaches every outstanding call: when the channel closes with
/// some calls pending, each of them — and only they — resolves to the
/// closed-channel error, and no record is left pending.
pub proof fn lemma_close_resolves_every_pending(s: Seq<CallRecord>)
    ensures
        CallRegistry::close_model(s).len() == s.len(),
        forall|j: int|
            0 <= j < s.len() && s[j].state is Pending ==> CallRegistry::close_model(s)[j] == (
            CallRecord { id: s[j].id, state: CallState::Ready(Err(CallError::ChannelClosed)) }),
        forall|j: int|
            0 <= j < s.len() && !(s[j].state is Pending) ==> CallRegistry::close_model(s)[j]
                == s[j],
        forall|j: int| 0 <= j < s.len() ==> !(CallRegistry::close_model(s)[j].state is Pending),
{
}

/// Applying deliveries never changes a record's id, and never touches a
/// record whose outcome has already been delivered.
proof fn lemma_apply_keeps_shape(s: Seq<CallRecord>, rs: Seq<(u64, CallOutcome)>)
    ensures
        CallRegistry::apply_resolutions(s, rs).len() == s.len(),
        forall|j: int|
            0 <= j < s.len() ==> #[trigger] CallRegistry::apply_resolutions(s, rs)[j].id
                == s[j].id,
        forall|j: int|
            0 <= j < s.len() && s[j].state is Ready ==> CallRegistry::apply_resolutions(s, rs)[j]
                == s[j],
    decreases rs.len(),
{
    if rs.len() > 0 {
        let s1 = CallRegistry::resolve_model(s, rs[0].0, rs[0].1);
        let rest = rs.subrange(1, rs.len() as int);
        assert forall|j: int|
            0 <= j < s.len() implies #[trigger] s1[j].id == s[j].id && (s[j].state is Ready
            ==> s1[j] == s[j]) by {}
        lemma_apply_keeps_shape(s1, rest);
        assert(CallRegistry::apply_resolutions(s, rs) == CallRegistry::apply_resolutions(s1, rest));
        assert forall|j: int|
            0 <= j < s.len() && s[j].state is Ready implies CallRegistry::apply_resolutions(
            s,
            rs,
        )[j] == s[j] by {
            assert(s1[j] == s[j]);
            assert(CallRegistry::apply_resolutions(s1, rest)[j] == s1[j]);
        }
    }
}

/// Correlation correctness: for any collection of concurrently issued calls
/// — distinct call ids, all pending — and any order in which their
/// responses are delivered, each call ends up holding exactly the outcome
/// delivered for its own call id.
pub proof fn lemma_correlation(s: Seq<CallRecord>, rs: Seq<(u64, CallOutcome)>)
    requires
        CallRegistry::ids_distinct(s),
        forall|k: int| 0 <= k < rs.len() ==> CallRegistry::is_pending(s, #[trigger] rs[k].0),
        forall|k1: int, k2: int| 0 <= k1 < k2 < rs.len() ==> rs[k1].0 != rs[k2].0,
    ensures
        forall|k: int|
            0 <= k < rs.len() ==> CallRegistry::has_outcome(
                CallRegistry::apply_resolutions(s, rs),
                #[trigger] rs[k].0,
                rs[k].1,
            ),
    decreases rs.len(),
{
    if rs.len() > 0 {
        let id0 = rs[0].0;
        let oc0 = rs[0].1;
        let s1 = CallRegistry::resolve_model(s, id0, oc0);
        let rest = rs.subrange(1, rs.len() as int);
        let done = CallRegistry::apply_resolutions(s, rs);
        assert(done == CallRegistry::apply_resolutions(s1, rest));
        assert forall|j: int|
            0 <= j < s.len() implies #[trigger] s1[j].id == s[j].id by {}
        let i0 = choose|i: int|
            0 <= i < s.len() && s[i].id == id0 && s[i].state is Pending;
        assert(s1[i0] == (CallRecord { id: id0, state: CallState::Ready(oc0) }));
        lemma_apply_keeps_shape(s1, rest);
        assert(done[i0] == s1[i0]);
        assert(CallRegistry::has_outcome(done, id0, oc0));
        assert forall|k: int|
            0 <= k < rest.len() implies CallRegistry::is_pending(s1, #[trigger] rest[k].0) by {
            assert(rest[k] == rs[k + 1]);
            assert(CallRegistry::is_pending(s, rs[k + 1].0));
            let ik = choose|i: int|
                0 <= i < s.len() && s[i].id == rs[k + 1].0 && s[i].state is Pending;
            assert(rs[k + 1].0 != id0);
            assert(s1[ik] == s[ik]);
        }
        lemma_correlation(s1, rest);
        assert forall|k: int|
            0 <= k < rs.len() implies CallRegistry::has_outcome(
            done,
            #[trigger] rs[k].0,
            rs[k].1,
        ) by {
            if k > 0 {
                assert(rest[k - 1] == rs[k]);
                assert(CallRegistry::has_outcome(done, rest[k - 1].0, rest[k - 1].1));
            }
        }
    }
}

/// Removing one record keeps ids distinct and below the allocation
/// counter.
proof fn lemma_remove_keeps_wf(s: Seq<CallRecord>, i: int, bound: u64)
    requires
        0 <= i < s.len(),
        CallRegistry::ids_distinct(s),
        CallRegistry::ids_below(s, bound),
    ensures
        CallRegistry::ids_distinct(s.remove(i)),
        CallRegistry::ids_below(s.remove(i), bound),
{
    let t = s.remove(i);
    assert forall|j1: int, j2: int| 0 <= j1 < j2 < t.len() implies t[j1].id != t[j2].id by {
        if j1 < i {
            assert(t[j1] == s[j1]);
        } else {
            assert(t[j1] == s[j1 + 1]);
        }
        if j2 < i {
            assert(t[j2] == s[j2]);
        } else {
            assert(t[j2] == s[j2 + 1]);
        }
    }
    assert forall|j: int| 0 <= j < t.len() implies t[j].id < bound by {
        if j < i {
            assert(t[j] == s[j]);
        } else {
            assert(t[j] == s[j + 1]);
        }
    }
}

/// Whether a record is still awaiting its outcome.
pub fn record_is_pending(r: &CallRecord) -> (b: bool)
    ensures
        b == (r.state is Pending),
{
    match r.state {
        CallState::Pending => true,
        _ => false,
    }
}

} // verus!
