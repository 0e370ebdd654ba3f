//! The set of currently desired subscriptions.
//!
//! The registry tracks what the consumer wants active, independent of
//! whether the socket is connected; it is never cleared on disconnect.
//! It grows on `add` (a no-op if the entry is already present) and
//! shrinks on `remove` (a no-op if the entry is absent), and it never
//! holds the same subscription twice.

use vstd::prelude::*;
use vstd::seq_lib::*;

use crate::subscription::{Subscription, SubscriptionV};

verus! {

/// A duplicate-free collection of the subscriptions the consumer
/// currently wants active.
pub struct SubscriptionRegistry {
    subs: Vec<Subscription>,
}

impl View for SubscriptionRegistry {
    type V = Seq<SubscriptionV>;

    closed spec fn view(&self) -> Seq<SubscriptionV> {
        Seq::new(self.subs@.len(), |i: int| self.subs@[i]@)
    }
}

impl SubscriptionRegistry {
    /// The registry never holds two equal subscriptions.
    pub open spec fn wf(&self) -> bool {
        self@.no_duplicates()
    }

    /// Creates an empty registry.
    pub fn new() -> (r: SubscriptionRegistry)
        ensures
            r@ == Seq::<SubscriptionV>::empty(),
            r.wf(),
    {
        let r = SubscriptionRegistry { subs: Vec::new() };
        proof {
            assert(r@ =~= Seq::<SubscriptionV>::empty());
        }
        r
    }

    /// Number of tracked subscriptions.
    pub fn len(&self) -> (n: usize)
        ensures
            n == self@.len(),
    {
        self.subs.len()
    }

    /// The tracked subscription at position `i`.
    pub fn get(&self, i: usize) -> (r: &Subscription)
        requires
            i < self@.len(),
        ensures
            r@ == self@[i as int],
    {
        &self.subs[i]
    }

    /// Whether `sub` is currently tracked.
    pub fn contains(&self, sub: &Subscription) -> (r: bool)
        ensures
            r == self@.contains(sub@),
    {
        let mut i: usize = 0;
        while i < self.subs.len()
            invariant
                i <= self.subs.len(),
                forall|k: int| 0 <= k < i ==> self@[k] != sub@,
            decreases self.subs.len() - i,
        {
            if self.subs[i].eq(sub) {
                assert(self@[i as int] == sub@);
                return true;
            }
            i += 1;
        }
        false
    }

    /// Adds a subscription; returns true exactly when it was newly
    /// inserted, and leaves the registry unchanged otherwise.
    pub fn add(&mut self, sub: Subscription) -> (added: bool)
        requires
            old(self).wf(),
        ensures
            final(self).wf(),
            added == !old(self)@.contains(sub@),
            added ==> final(self)@ == old(self)@.push(sub@),
            !added ==> final(self)@ == old(self)@,
            forall|x: SubscriptionV|
                final(self)@.contains(x) == (old(self)@.contains(x) || x == sub@),
    {
        if self.contains(&sub) {
            return false;
        }
        let ghost pre = self@;
        self.subs.push(sub);
        proof {
            assert(self@ =~= pre.push(sub@));
            assert forall|x: SubscriptionV|
                self@.contains(x) == (pre.contains(x) || x == sub@) by {
                if pre.contains(x) {
                    let j = choose|j: int| 0 <= j < pre.len() && pre[j] == x;
                    assert(self@[j] == x);
                } else if x == sub@ {
                    assert(self@[pre.len() as int] == x);
                } else if self@.contains(x) {
                    let j = choose|j: int| 0 <= j < self@.len() && self@[j] == x;
                    if j < pre.len() {
                        assert(pre[j] == x);
                    } else {
                        assert(x == sub@);
                    }
                }
            }
        }
        true
    }

    /// Removes a subscription; returns true exactly when it was
    /// tracked, and leaves the registry unchanged otherwise.
    pub fn remove(&mut self, sub: &Subscription) -> (removed: bool)
        requires
            old(self).wf(),
        ensures
            final(self).wf(),
            removed == old(self)@.contains(sub@),
            removed ==> final(self)@ == old(self)@.remove_value(sub@),
            removed ==> final(self)@.len() + 1 == old(self)@.len(),
            !removed ==> final(self)@ == old(self)@,
            forall|x: SubscriptionV|
                final(self)@.contains(x) == (old(self)@.contains(x) && x != sub@),
    {
        let mut i: usize = 0;
        while i < self.subs.len()
            invariant
                self@ == old(self)@,
                self.wf(),
                i <= self.subs.len(),
                forall|k: int| 0 <= k < i ==> self@[k] != sub@,
            decreases self.subs.len() - i,
        {
            let ghost pre = self@;
            if self.subs[i].eq(sub) {
                proof {
                    assert(pre[i as int] == sub@);
                    assert(pre.contains(sub@)) by {
                        assert(0 <= (i as int) && (i as int) < pre.len() && pre[i as int]
                            == sub@);
                    }
                    pre.index_of_first_ensures(sub@);
                    assert(pre.index_of_first(sub@) is Some);
                    let first = pre.index_of_first(sub@)->Some_0;
                    assert(first <= i as int) by {
                        if first > i as int {
                            assert(pre[i as int] != sub@);
                        }
                    }
                    assert(first == i as int);
                }
                self.subs.remove(i);
                proof {
                    assert(self@ =~= pre.remove(i as int));
                    assert(pre.remove_value(sub@) == pre.remove(i as int));
                    assert forall|a: int, b: int|
                        0 <= a < b < self@.len() implies self@[a] != self@[b] by {
                        let map_back = |x: int| if x < i as int { x } else { x + 1 };
                        assert(self@[a] == pre[map_back(a)]);
                        assert(self@[b] == pre[map_back(b)]);
                    }
                    assert forall|x: SubscriptionV|
                        self@.contains(x) == (pre.contains(x) && x != sub@) by {
                        if self@.contains(x) {
                            let j = choose|j: int| 0 <= j < self@.len() && self@[j] == x;
                            let jj = if j < i as int {
                                j
                            } else {
                                j + 1
                            };
                            assert(pre[jj] == x);
                            if x == sub@ {
                                if jj < i as int {
                                    assert(pre[jj] != pre[i as int]);
                                } else {
                                    assert(pre[i as int] != pre[jj]);
                                }
                            }
                        }
                        if pre.contains(x) && x != sub@ {
                            let j = choose|j: int| 0 <= j < pre.len() && pre[j] == x;
                            let jj = if j < i as int {
                                j
                            } else {
                                j - 1
                            };
                            assert(self@[jj] == x);
                        }
                    }
                }
                return true;
            }
            i += 1;
        }
        false
    }

    /// The tracked subscriptions, for replay after a reconnect. The
    /// order carries no meaning.
    pub fn iter(&self) -> (r: &Vec<Subscription>)
        ensures
            r@.len() == self@.len(),
            forall|i: int| 0 <= i < r@.len() ==> r@[i]@ == self@[i],
    {
        &self.subs
    }
}

} // verus!
