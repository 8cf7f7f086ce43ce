//! Subscription bookkeeping: issues unique, monotonically increasing
//! identifiers for background tasks, tracks them by category, and releases
//! them on demand, idempotently. The identifier `0` is reserved to mean
//! "registration failed" and is never issued.

use vstd::prelude::*;

verus! {

/// The kind of background task a subscription identifier was issued for.
#[derive(Clone, Copy, Debug, PartialEq, Eq, Structural)]
pub enum Category {
    Timeline,
    Typing,
    Connection,
    VerificationInbox,
    Receipts,
    RoomList,
    CallInbox,
    LiveLocation,
    SendObservers,
    Guard,
}

/// Tracks the live subscriptions and the next identifier to issue.
///
/// The registry itself holds only plain bookkeeping data; the task handles
/// that the identifiers stand for live with the caller, which looks them up
/// by the identifiers issued here.
pub struct SubscriptionRegistry {
    next_id: u64,
    entries: Vec<(u64, Category)>,
}

impl View for SubscriptionRegistry {
    type V = Seq<(u64, Category)>;

    closed spec fn view(&self) -> Seq<(u64, Category)> {
        self.entries@
    }
}

impl SubscriptionRegistry {
    /// The identifier the next registration will receive.
    pub closed spec fn next(&self) -> u64 {
        self.next_id
    }

    /// Whether a subscription with this identifier is currently live.
    pub open spec fn contains_id(&self, id: u64) -> bool {
        exists|i: int| 0 <= i < self@.len() && (#[trigger] self@[i]).0 == id
    }

    /// Well-formedness: every live identifier is nonzero, below the next
    /// identifier to issue, and held by at most one entry.
    pub open spec fn wf(&self) -> bool {
        &&& self.next() >= 1
        &&& forall|i: int| 0 <= i < self@.len() ==> 0 < (#[trigger] self@[i]).0 < self.next()
        &&& forall|i: int, j: int|
            0 <= i < j < self@.len() ==> (#[trigger] self@[i]).0 != (#[trigger] self@[j]).0
    }

    /// What one registration does: it hands out the next identifier,
    /// advances the counter, and records the new entry last.
    pub open spec fn register_step(
        pre: SubscriptionRegistry,
        category: Category,
        post: SubscriptionRegistry,
        id: u64,
    ) -> bool {
        &&& id == pre.next()
        &&& post.next() == pre.next() + 1
        &&& post@ == pre@.push((id, category))
    }

    /// What one removal does: the entry holding the identifier (if any)
    /// disappears, everything else, the counter included, stays.
    pub open spec fn unregister_step(
        pre: SubscriptionRegistry,
        id: u64,
        post: SubscriptionRegistry,
        was_live: bool,
    ) -> bool {
        &&& post.next() == pre.next()
        &&& was_live == pre.contains_id(id)
        &&& if was_live {
            exists|j: int|
                0 <= j < pre@.len() && (#[trigger] pre@[j]).0 == id && post@ == pre@.remove(j)
        } else {
            post@ == pre@
        }
    }

    /// A fresh registry: no live subscriptions, first identifier is 1.
    pub fn new() -> (r: SubscriptionRegistry)
        ensures
            r.wf(),
            r@ == Seq::<(u64, Category)>::empty(),
            r.next() == 1,
    {
        SubscriptionRegistry { next_id: 1, entries: Vec::new() }
    }

    /// Issues the next identifier and records it under the given category.
    /// The identifier is nonzero and was not live before this call.
    pub fn register(&mut self, category: Category) -> (id: u64)
        requires
            old(self).wf(),
            old(self).next() < u64::MAX,
        ensures
            final(self).wf(),
            Self::register_step(*old(self), category, *final(self), id),
            id > 0,
            !old(self).contains_id(id),
            final(self).contains_id(id),
            forall|k: u64| old(self).contains_id(k) ==> final(self).contains_id(k),
    {
        let id: u64 = self.next_id;
        self.next_id = self.next_id + 1;
        self.entries.push((id, category));
        proof {
            assert(self@[self@.len() - 1] == (id, category));
            assert forall|k: u64| old(self).contains_id(k) implies self.contains_id(k) by {
                let w = choose|w: int|
                    0 <= w < old(self)@.len() && (#[trigger] old(self)@[w]).0 == k;
                assert(self@[w] == old(self)@[w]);
            }
            assert forall|i: int| 0 <= i < self@.len() implies 0 < (#[trigger] self@[i]).0
                < self.next() by {
                if i < self@.len() - 1 {
                    assert(self@[i] == old(self)@[i]);
                }
            }
            assert forall|i: int, j: int|
                0 <= i < j < self@.len() implies (#[trigger] self@[i]).0 != (
            #[trigger] self@[j]).0 by {
                if j < self@.len() - 1 {
                    assert(self@[i] == old(self)@[i]);
                    assert(self@[j] == old(self)@[j]);
                } else {
                    assert(self@[i] == old(self)@[i]);
                }
            }
        }
        id
    }

    /// Removes the subscription with this identifier, reporting whether it
    /// was live. A second call with the same identifier returns false and
    /// changes nothing.
    pub fn unregister(&mut self, id: u64) -> (was_live: bool)
        requires
            old(self).wf(),
        ensures
            final(self).wf(),
            Self::unregister_step(*old(self), id, *final(self), was_live),
            was_live == old(self).contains_id(id),
            !final(self).contains_id(id),
            forall|k: u64| k != id ==> final(self).contains_id(k) == old(self).contains_id(k),
    {
        let ghost pre = *old(self);
        let n: usize = self.entries.len();
        let mut i: usize = 0;
        while i < n
            invariant
                pre == *old(self),
                pre.wf(),
                n == self.entries.len(),
                i <= n,
                *self == pre,
                forall|j: int| 0 <= j < i ==> (#[trigger] pre@[j]).0 != id,
            decreases n - i,
        {
            if self.entries[i].0 == id {
                proof {
                    assert(pre@[i as int].0 == id);
                }
                self.entries.remove(i);
                proof {
                    lemma_remove_keeps_others(pre@, i as int);
                    assert(self@ == pre@.remove(i as int));
                    assert(pre.contains_id(id));
                    assert forall|k: u64| k != id implies self.contains_id(k) == pre.contains_id(
                        k,
                    ) by {
                        if pre.contains_id(k) {
                            let w = choose|w: int|
                                0 <= w < pre@.len() && (#[trigger] pre@[w]).0 == k;
                            if w < i {
                                assert(self@[w].0 == k);
                            } else {
                                assert(self@[w - 1].0 == k);
                            }
                        }
                        if self.contains_id(k) {
                            let w = choose|w: int|
                                0 <= w < self@.len() && (#[trigger] self@[w]).0 == k;
                            if w < i {
                                assert(pre@[w].0 == k);
                            } else {
                                assert(pre@[w + 1].0 == k);
                            }
                        }
                    }
                    assert forall|w: int|
                        0 <= w < self@.len() implies (#[trigger] self@[w]).0 != id by {
                        if w < i {
                            assert(self@[w] == pre@[w]);
                        } else {
                            assert(self@[w] == pre@[w + 1]);
                        }
                    }
                    assert forall|w: int| 0 <= w < self@.len() implies 0 < (
                    #[trigger] self@[w]).0 < self.next() by {
                        if w < i {
                            assert(self@[w] == pre@[w]);
                        } else {
                            assert(self@[w] == pre@[w + 1]);
                        }
                    }
                    assert forall|w1: int, w2: int|
                        0 <= w1 < w2 < self@.len() implies (#[trigger] self@[w1]).0 != (
                    #[trigger] self@[w2]).0 by {
                        if w1 < i {
                            assert(self@[w1] == pre@[w1]);
                        } else {
                            assert(self@[w1] == pre@[w1 + 1]);
                        }
                        if w2 < i {
                            assert(self@[w2] == pre@[w2]);
                        } else {
                            assert(self@[w2] == pre@[w2 + 1]);
                        }
                    }
                }
                return true;
            }
            i = i + 1;
        }
        false
    }

    /// Removes every live subscription at once (global shutdown), handing
    /// back the entries so the caller can release what they stand for.
    pub fn drain(&mut self) -> (drained: Vec<(u64, Category)>)
        requires
            old(self).wf(),
        ensures
            final(self).wf(),
            final(self)@ == Seq::<(u64, Category)>::empty(),
            final(self).next() == old(self).next(),
            drained@ == old(self)@,
    {
        let mut drained: Vec<(u64, Category)> = Vec::new();
        std::mem::swap(&mut drained, &mut self.entries);
        drained
    }

    /// The identifier the next registration will receive, for callers that
    /// must check the counter has room before registering.
    pub fn next_id_value(&self) -> (n: u64)
        ensures
            n == self.next(),
    {
        self.next_id
    }

    /// How many subscriptions are live.
    pub fn live_count(&self) -> (n: usize)
        ensures
            n == self@.len(),
    {
        self.entries.len()
    }

    /// Whether this identifier is live, without removing it.
    pub fn is_live(&self, id: u64) -> (r: bool)
        ensures
            r == self.contains_id(id),
    {
        let n: usize = self.entries.len();
        let mut i: usize = 0;
        while i < n
            invariant
                n == self.entries.len(),
                i <= n,
                forall|j: int| 0 <= j < i ==> (#[trigger] self@[j]).0 != id,
            decreases n - i,
        {
            if self.entries[i].0 == id {
                proof {
                    assert(self@[i as int].0 == id);
                }
                return true;
            }
            i = i + 1;
        }
        false
    }
}

/// After removing index `j`, every element of the result stands at `j` or
/// one past its old place, so its identifier bounds are kept.
proof fn lemma_remove_keeps_others(s: Seq<(u64, Category)>, j: int)
    requires
        0 <= j < s.len(),
    ensures
        forall|w: int| 0 <= w < j ==> #[trigger] s.remove(j)[w] == s[w],
        forall|w: int| j <= w < s.len() - 1 ==> #[trigger] s.remove(j)[w] == s[w + 1],
{
}

/// Law: subscription identifiers are strictly increasing, never zero, and
/// never reused while the registry is alive: two successive registrations
/// issue distinct nonzero identifiers in ascending order, and neither
/// identifier was live before it was issued.
pub proof fn lemma_subscription_ids_strictly_increasing(
    r0: SubscriptionRegistry,
    r1: SubscriptionRegistry,
    r2: SubscriptionRegistry,
    c1: Category,
    c2: Category,
    id1: u64,
    id2: u64,
)
    requires
        r0.wf(),
        SubscriptionRegistry::register_step(r0, c1, r1, id1),
        SubscriptionRegistry::register_step(r1, c2, r2, id2),
    ensures
        0 < id1 < id2,
        !r0.contains_id(id1),
        !r1.contains_id(id2),
        r2.contains_id(id1) && r2.contains_id(id2),
{
    assert(r1@[r1@.len() - 1].0 == id1);
    assert(r2@[r2@.len() - 2].0 == id1);
    assert(r2@[r2@.len() - 1].0 == id2);
}

/// Law: removal never resurrects or reissues an identifier: whatever was
/// issued stays below the counter, so an unregistered identifier can never
/// come back while the registry is alive.
pub proof fn lemma_no_reuse_after_unregister(
    r0: SubscriptionRegistry,
    r1: SubscriptionRegistry,
    id: u64,
    was_live: bool,
    k: u64,
)
    requires
        r0.wf(),
        SubscriptionRegistry::unregister_step(r0, id, r1, was_live),
        r1.contains_id(k),
    ensures
        0 < k < r1.next(),
        r0.contains_id(k),
{
    if was_live {
        let j = choose|j: int| 0 <= j < r0@.len() && (#[trigger] r0@[j]).0 == id && r1@ == r0@.remove(j);
        let w = choose|w: int| 0 <= w < r1@.len() && (#[trigger] r1@[w]).0 == k;
        if w < j {
            assert(r0@[w].0 == k);
        } else {
            assert(r0@[w + 1].0 == k);
        }
    }
}

/// Law: `unregister` is idempotent: the second call on an already-removed
/// identifier reports nothing was live and leaves the registry unchanged.
pub proof fn lemma_unregister_idempotent(
    r0: SubscriptionRegistry,
    r1: SubscriptionRegistry,
    r2: SubscriptionRegistry,
    id: u64,
    b1: bool,
    b2: bool,
)
    requires
        r0.wf(),
        SubscriptionRegistry::unregister_step(r0, id, r1, b1),
        !r1.contains_id(id),
        SubscriptionRegistry::unregister_step(r1, id, r2, b2),
    ensures
        b2 == false,
        r2@ == r1@,
        r2.next() == r1.next(),
{
}

} // verus!
