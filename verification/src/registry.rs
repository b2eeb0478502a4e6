//! The instance registry: the ordered list of live identifiers and the
//! monotone identifier allocator.
//!
//! Identifiers are handed out in increasing order and never reused, even
//! after their instance is removed; the list order is creation order and is
//! the display order.

use vstd::prelude::*;

verus! {

/// Ordered list of live instance identifiers plus the next identifier to
/// allocate.
pub struct InstanceRegistry {
    pub live: Vec<usize>,
    pub next_id: usize,
}

impl InstanceRegistry {
    /// Well-formedness: live identifiers are listed in strictly increasing
    /// (creation) order, and every one was allocated below the counter.
    pub open spec fn wf(self) -> bool {
        &&& forall|i: int, j: int|
            0 <= i < j < self.live@.len() ==> self.live@[i] < self.live@[j]
        &&& forall|i: int| 0 <= i < self.live@.len() ==> #[trigger] self.live@[i] < self.next_id
    }

    /// An empty registry whose first allocation will return identifier 0.
    pub fn new() -> (r: Self)
        ensures
            r.wf(),
            r.live@ == Seq::<usize>::empty(),
            r.next_id == 0,
    {
        InstanceRegistry { live: Vec::new(), next_id: 0 }
    }

    /// Allocates the next identifier, appends it to the live list, and
    /// advances the counter.  The counter never decreases, so the returned
    /// identifier is unique for the registry's lifetime.
    pub fn add(&mut self) -> (id: usize)
        requires
            old(self).wf(),
            old(self).next_id < usize::MAX,
        ensures
            final(self).wf(),
            id == old(self).next_id,
            final(self).live@ == old(self).live@.push(id),
            final(self).next_id == old(self).next_id + 1,
    {
        let id = self.next_id;
        self.live.push(id);
        self.next_id = self.next_id + 1;
        id
    }

    /// Removes `id` from the live list, keeping the order of the others;
    /// a no-op when `id` is not live.  The counter is untouched.
    pub fn remove(&mut self, id: usize)
        requires
            old(self).wf(),
        ensures
            final(self).wf(),
            final(self).live@ == old(self).live@.remove_value(id),
            final(self).next_id == old(self).next_id,
    {
        let n = self.live.len();
        let mut i: usize = 0;
        while i < n
            invariant
                self == old(self),
                old(self).wf(),
                n == self.live@.len(),
                i <= n,
                forall|k: int| 0 <= k < i ==> self.live@[k] != id,
            decreases n - i,
        {
            if self.live[i] == id {
                proof {
                    self.live@.index_of_first_ensures(id);
                    assert(self.live@.index_of_first(id) == Some(i as int));
                }
                self.live.remove(i);
                proof {
                    let s = old(self).live@;
                    let t = self.live@;
                    s.remove_ensures(i as int);
                    assert forall|a: int, b: int| 0 <= a < b < t.len() implies t[a] < t[b] by {
                        if a < i as int {
                            assert(t[a] == s[a]);
                        } else {
                            assert(t[a] == s[a + 1]);
                        }
                        if b < i as int {
                            assert(t[b] == s[b]);
                        } else {
                            assert(t[b] == s[b + 1]);
                        }
                    }
                    assert forall|a: int| 0 <= a < t.len() implies #[trigger] t[a]
                        < self.next_id by {
                        if a < i as int {
                            assert(t[a] == s[a]);
                        } else {
                            assert(t[a] == s[a + 1]);
                        }
                    }
                }
                return ;
            }
            i = i + 1;
        }
        proof {
            self.live@.index_of_first_ensures(id);
            assert(!self.live@.contains(id));
        }
    }

    /// The live identifiers in creation order.
    pub fn list(&self) -> (r: Vec<usize>)
        ensures
            r@ == self.live@,
    {
        let n = self.live.len();
        let mut out: Vec<usize> = Vec::new();
        let mut i: usize = 0;
        while i < n
            invariant
                n == self.live@.len(),
                i <= n,
                out@ == self.live@.subrange(0, i as int),
            decreases n - i,
        {
            out.push(self.live[i]);
            proof {
                assert(out@ =~= self.live@.subrange(0, i as int + 1));
            }
            i = i + 1;
        }
        proof {
            assert(out@ =~= self.live@);
        }
        out
    }
}

} // verus!
