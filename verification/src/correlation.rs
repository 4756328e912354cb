//! The correlation table: one pending request per in-flight request id.
//!
//! `register` inserts a fresh entry with an empty result slot; `resolve`
//! fills the slot of exactly the entry with the given id, at most once;
//! `claim` removes the entry and hands its slot to the waiter; `cancel`
//! removes the entry without a result (the timeout path). Resolving an id
//! that is not tracked — a pure streaming push, or a late resolution after a
//! timeout — changes nothing.

use vstd::prelude::*;

use crate::event::Event;

verus! {

/// One outstanding request: its id and its result slot, filled at most once.
#[derive(Debug, Clone, Copy)]
pub struct PendingRequest<P> {
    /// The request id, unique while the request is in flight.
    pub request_id: i32,
    /// The result slot: empty until the terminal event resolves it.
    pub response: Option<Event<P>>,
}

/// The table of outstanding requests, keyed by request id.
pub struct CorrelationTable<P> {
    entries: Vec<PendingRequest<P>>,
}

/// The first index holding `id`, or -1 if no entry holds it.
pub open spec fn spec_index_of<P>(s: Seq<PendingRequest<P>>, id: i32) -> int
    decreases s.len(),
{
    if s.len() == 0 {
        -1
    } else if s.first().request_id == id {
        0
    } else {
        let r = spec_index_of(s.drop_first(), id);
        if r < 0 {
            -1
        } else {
            r + 1
        }
    }
}

/// Whether some entry holds `id`.
pub open spec fn spec_tracks<P>(s: Seq<PendingRequest<P>>, id: i32) -> bool {
    spec_index_of(s, id) >= 0
}

/// No two entries share an id.
pub open spec fn spec_distinct_ids<P>(s: Seq<PendingRequest<P>>) -> bool {
    forall|i: int, j: int|
        0 <= i < j < s.len() ==> s[i].request_id != s[j].request_id
}

/// Registration appends a fresh entry with an empty slot.
pub open spec fn spec_register<P>(s: Seq<PendingRequest<P>>, id: i32) -> Seq<PendingRequest<P>> {
    s.push(PendingRequest { request_id: id, response: Option::None })
}

/// Resolution fills the slot of the entry with `id`, if one is tracked and
/// still waiting; otherwise it changes nothing.
pub open spec fn spec_resolve<P>(s: Seq<PendingRequest<P>>, id: i32, e: Event<P>) -> Seq<
    PendingRequest<P>,
> {
    let idx = spec_index_of(s, id);
    if idx >= 0 && s[idx].response is None {
        s.update(idx, PendingRequest { request_id: id, response: Option::Some(e) })
    } else {
        s
    }
}

/// Whether a resolution of `id` wakes a waiter: the id is tracked and its
/// slot is still empty.
pub open spec fn spec_resolves<P>(s: Seq<PendingRequest<P>>, id: i32) -> bool {
    spec_index_of(s, id) >= 0 && s[spec_index_of(s, id)].response is None
}

/// Removal of the entry with `id`, if one is tracked.
pub open spec fn spec_remove_id<P>(s: Seq<PendingRequest<P>>, id: i32) -> Seq<PendingRequest<P>> {
    let idx = spec_index_of(s, id);
    if idx >= 0 {
        s.remove(idx)
    } else {
        s
    }
}

/// What a claim hands the waiter: the slot of the entry with `id`, if one is
/// tracked and resolved.
pub open spec fn spec_claimed<P>(s: Seq<PendingRequest<P>>, id: i32) -> Option<Event<P>> {
    let idx = spec_index_of(s, id);
    if idx >= 0 {
        s[idx].response
    } else {
        Option::None
    }
}

/// The index returned by `spec_index_of` is in bounds and holds `id`, no
/// earlier entry holds `id`, and a negative result means no entry holds `id`.
pub proof fn lemma_index_of_props<P>(s: Seq<PendingRequest<P>>, id: i32)
    ensures
        spec_index_of(s, id) >= 0 ==> spec_index_of(s, id) < s.len() && s[spec_index_of(
            s,
            id,
        )].request_id == id && (forall|i: int|
            0 <= i < spec_index_of(s, id) ==> s[i].request_id != id),
        spec_index_of(s, id) < 0 ==> spec_index_of(s, id) == -1 && (forall|i: int|
            0 <= i < s.len() ==> s[i].request_id != id),
    decreases s.len(),
{
    if s.len() == 0 {
    } else if s.first().request_id == id {
        assert(spec_index_of(s, id) == 0);
    } else {
        let t = s.drop_first();
        lemma_index_of_props(t, id);
        let r = spec_index_of(t, id);
        if r < 0 {
            assert(spec_index_of(s, id) == -1);
            assert forall|i: int| 0 <= i < s.len() implies s[i].request_id != id by {
                if i > 0 {
                    assert(s[i] == t[i - 1]);
                }
            }
        } else {
            assert(spec_index_of(s, id) == r + 1);
            assert(s[r + 1] == t[r]);
            assert forall|i: int| 0 <= i < r + 1 implies s[i].request_id != id by {
                if i > 0 {
                    assert(s[i] == t[i - 1]);
                }
            }
        }
    }
}

/// If `k` is the first index holding `id`, `spec_index_of` returns `k`.
pub proof fn lemma_index_of_first<P>(s: Seq<PendingRequest<P>>, id: i32, k: int)
    requires
        0 <= k < s.len(),
        s[k].request_id == id,
        forall|i: int| 0 <= i < k ==> s[i].request_id != id,
    ensures
        spec_index_of(s, id) == k,
    decreases s.len(),
{
    if s.first().request_id == id {
        assert(k == 0);
    } else {
        assert(k > 0);
        assert(forall|i: int| 0 <= i < s.drop_first().len() ==> s.drop_first()[i] == s[i + 1]);
        lemma_index_of_first(s.drop_first(), id, k - 1);
    }
}

impl<P> View for CorrelationTable<P> {
    type V = Seq<PendingRequest<P>>;

    closed spec fn view(&self) -> Seq<PendingRequest<P>> {
        self.entries@
    }
}

impl<P: Copy> CorrelationTable<P> {
    /// Whether the table's ids are distinct: established at construction and
    /// preserved by every operation.
    pub open spec fn wf(&self) -> bool {
        spec_distinct_ids(self@)
    }

    /// An empty table.
    pub fn new() -> (r: Self)
        ensures
            r@ == Seq::<PendingRequest<P>>::empty(),
            r.wf(),
    {
        let r = CorrelationTable { entries: Vec::new() };
        proof {
            assert(r@ =~= Seq::<PendingRequest<P>>::empty());
        }
        r
    }

    /// The number of outstanding requests.
    pub fn len(&self) -> (r: usize)
        ensures
            r == self@.len(),
    {
        self.entries.len()
    }

    /// The index of the entry with `id`, if one is tracked.
    fn find(&self, id: i32) -> (r: Option<usize>)
        ensures
            r matches Some(k) ==> k == spec_index_of(self@, id),
            r is None ==> spec_index_of(self@, id) == -1,
    {
        let mut k: usize = 0;
        while k < self.entries.len()
            invariant
                k <= self@.len(),
                forall|i: int| 0 <= i < k ==> self@[i].request_id != id,
            decreases self@.len() - k,
        {
            if self.entries[k].request_id == id {
                proof {
                    lemma_index_of_first(self@, id, k as int);
                }
                return Some(k);
            }
            k = k + 1;
        }
        proof {
            lemma_index_of_props(self@, id);
            if spec_index_of(self@, id) >= 0 {
                assert(self@[spec_index_of(self@, id)].request_id == id);
            }
        }
        None
    }

    /// Whether `id` is tracked.
    pub fn contains(&self, id: i32) -> (r: bool)
        ensures
            r == spec_tracks(self@, id),
    {
        let found = self.find(id);
        proof {
            lemma_index_of_props(self@, id);
        }
        found.is_some()
    }

    /// Inserts a fresh pending request for `id`, with an empty slot. A
    /// duplicate id is a programming-error invariant violation, so the
    /// contract excludes it; every other entry is untouched.
    pub fn register(&mut self, id: i32)
        requires
            old(self).wf(),
            !spec_tracks(old(self)@, id),
        ensures
            final(self)@ == spec_register(old(self)@, id),
            final(self).wf(),
    {
        proof {
            lemma_index_of_props(old(self)@, id);
        }
        self.entries.push(PendingRequest { request_id: id, response: None });
        proof {
            assert(forall|i: int| 0 <= i < old(self)@.len() ==> self@[i] == old(self)@[i]);
        }
    }

    /// Fills the slot of the entry with `id` and reports whether a waiter is
    /// to be woken. If `id` is not tracked — a pure streaming push, or a
    /// resolution arriving after a timeout removed the entry — or its slot
    /// is already filled, the table is unchanged and no waiter is woken.
    /// Every entry with another id is untouched.
    pub fn resolve(&mut self, id: i32, e: Event<P>) -> (woken: bool)
        requires
            old(self).wf(),
        ensures
            final(self)@ == spec_resolve(old(self)@, id, e),
            woken == spec_resolves(old(self)@, id),
            final(self).wf(),
    {
        proof {
            lemma_index_of_props(self@, id);
        }
        let found = self.find(id);
        match found {
            Some(k) => {
                if self.entries[k].response.is_none() {
                    let entry = PendingRequest { request_id: id, response: Some(e) };
                    self.entries.set(k, entry);
                    proof {
                        assert(self@ =~= spec_resolve(old(self)@, id, e));
                    }
                    true
                } else {
                    false
                }
            },
            None => false,
        }
    }

    /// Removes the entry with `id` and returns its slot: the waiter claiming
    /// its result. An empty slot (a spurious wake) yields the empty
    /// indicator; an untracked id yields it too.
    pub fn claim(&mut self, id: i32) -> (r: Option<Event<P>>)
        requires
            old(self).wf(),
        ensures
            final(self)@ == spec_remove_id(old(self)@, id),
            r == spec_claimed(old(self)@, id),
            final(self).wf(),
    {
        proof {
            lemma_index_of_props(self@, id);
        }
        let found = self.find(id);
        match found {
            Some(k) => {
                let entry = self.entries.remove(k);
                proof {
                    lemma_remove_preserves_distinct(old(self)@, k as int);
                }
                entry.response
            },
            None => None,
        }
    }

    /// Removes the entry with `id` without a result: the timeout and
    /// cancellation path. Idempotent: an untracked id changes nothing.
    pub fn cancel(&mut self, id: i32)
        requires
            old(self).wf(),
        ensures
            final(self)@ == spec_remove_id(old(self)@, id),
            final(self).wf(),
    {
        proof {
            lemma_index_of_props(self@, id);
        }
        let found = self.find(id);
        match found {
            Some(k) => {
                let _ = self.entries.remove(k);
                proof {
                    lemma_remove_preserves_distinct(old(self)@, k as int);
                }
            },
            None => {},
        }
    }
}

/// Removing an entry keeps the remaining ids distinct.
proof fn lemma_remove_preserves_distinct<P>(s: Seq<PendingRequest<P>>, k: int)
    requires
        spec_distinct_ids(s),
        0 <= k < s.len(),
    ensures
        spec_distinct_ids(s.remove(k)),
{
    let t = s.remove(k);
    assert forall|i: int, j: int| 0 <= i < j < t.len() implies t[i].request_id != t[j].request_id
    by {
        let si = if i < k {
            i
        } else {
            i + 1
        };
        let sj = if j < k {
            j
        } else {
            j + 1
        };
        assert(t[i] == s[si]);
        assert(t[j] == s[sj]);
    }
}

/// Resolving one request id never touches the entry of another: every entry
/// whose id differs is exactly what it was, at the same position.
pub proof fn lemma_resolve_isolated<P>(s: Seq<PendingRequest<P>>, id: i32, e: Event<P>, j: int)
    requires
        0 <= j < s.len(),
        s[j].request_id != id,
    ensures
        spec_resolve(s, id, e).len() == s.len(),
        spec_resolve(s, id, e)[j] == s[j],
{
    lemma_index_of_props(s, id);
}

/// A resolution that arrives after the entry was cancelled (or claimed) has
/// no effect: the table is exactly what the removal left, and no waiter is
/// woken.
pub proof fn lemma_late_resolution_no_effect<P>(s: Seq<PendingRequest<P>>, id: i32, e: Event<P>)
    requires
        spec_distinct_ids(s),
    ensures
        spec_resolve(spec_remove_id(s, id), id, e) == spec_remove_id(s, id),
        !spec_resolves(spec_remove_id(s, id), id),
{
    lemma_index_of_props(s, id);
    let idx = spec_index_of(s, id);
    if idx >= 0 {
        let t = s.remove(idx);
        assert forall|i: int| 0 <= i < t.len() implies t[i].request_id != id by {
            let si = if i < idx {
                i
            } else {
                i + 1
            };
            assert(t[i] == s[si]);
        }
        lemma_index_of_props(t, id);
        if spec_index_of(t, id) >= 0 {
            assert(t[spec_index_of(t, id)].request_id == id);
        }
    } else {
        lemma_index_of_props(s, id);
    }
}

} // verus!
