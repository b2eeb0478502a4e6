//! The page-wide context: the registry of live instances and the store of
//! their records, kept in lockstep.
//!
//! An entry is created in the store at the moment its identifier is added to
//! the registry and removed atomically with it, so no record ever outlives
//! its instance and every live instance has a record.

use crate::form_state::{default_form_state, FormState};
use crate::registry::InstanceRegistry;
use crate::store::FormStateStore;
use vstd::prelude::*;

verus! {

/// The shared mutable state of the whole page, passed to every component
/// that needs it.
pub struct AppContext {
    pub registry: InstanceRegistry,
    pub store: FormStateStore,
}

impl AppContext {
    /// The live identifiers in creation (display) order.
    pub open spec fn live_ids(self) -> Seq<usize> {
        self.registry.live@
    }

    /// The durable record of every live instance.
    pub open spec fn states(self) -> Map<usize, FormState> {
        self.store@
    }

    /// Well-formedness: the registry is well-formed and the store holds an
    /// entry for exactly the live identifiers.
    pub open spec fn wf(self) -> bool {
        &&& self.registry.wf()
        &&& self.states().dom() == self.live_ids().to_set()
    }

    /// The startup state: exactly one instance, with identifier 0 and the
    /// default record, and the counter ready to allocate 1.
    pub fn new() -> (r: Self)
        ensures
            r.wf(),
            r.live_ids() == seq![0usize],
            r.registry.next_id == 1,
            r.states() == Map::<usize, FormState>::empty().insert(0, default_form_state()),
    {
        let mut ctx = AppContext { registry: InstanceRegistry::new(), store: FormStateStore::new() };
        proof {
            assert(ctx.states().dom() =~= ctx.live_ids().to_set());
        }
        let _id = ctx.add_instance();
        proof {
            assert(ctx.live_ids() =~= seq![0usize]);
        }
        ctx
    }

    /// Allocates a fresh identifier, appends it to the live list, and
    /// creates its default record.  The identifier was not live before.
    pub fn add_instance(&mut self) -> (id: usize)
        requires
            old(self).wf(),
            old(self).registry.next_id < usize::MAX,
        ensures
            final(self).wf(),
            id == old(self).registry.next_id,
            final(self).registry.next_id == old(self).registry.next_id + 1,
            final(self).live_ids() == old(self).live_ids().push(id),
            final(self).states() == old(self).states().insert(id, default_form_state()),
            !old(self).live_ids().contains(id),
    {
        proof {
            let s = old(self).live_ids();
            if s.contains(old(self).registry.next_id) {
                let k = choose|k: int| 0 <= k < s.len() && s[k] == old(self).registry.next_id;
                assert(s[k] < old(self).registry.next_id);
            }
        }
        let id = self.registry.add();
        self.store.create(id);
        proof {
            let s = old(self).live_ids();
            let t = self.live_ids();
            assert forall|x: usize| t.to_set().contains(x) implies old(self).states().insert(
                id,
                default_form_state(),
            ).dom().contains(x) by {
                let k = choose|k: int| 0 <= k < t.len() && t[k] == x;
                if k < s.len() {
                    assert(s[k] == x);
                    assert(s.contains(x));
                } else {
                    assert(x == id);
                }
            }
            assert forall|x: usize|
                old(self).states().insert(id, default_form_state()).dom().contains(
                    x,
                ) implies t.to_set().contains(x) by {
                if x == id {
                    assert(t[s.len() as int] == x);
                } else {
                    let k = choose|k: int| 0 <= k < s.len() && s[k] == x;
                    assert(t[k] == x);
                }
                assert(t.contains(x));
            }
            assert(self.states().dom() =~= t.to_set());
        }
        id
    }

    /// Removes `id` from the registry and deletes its record; a no-op when
    /// `id` is not live.  Every other instance's record is untouched and the
    /// counter keeps its value, so `id` is never handed out again.
    pub fn remove_instance(&mut self, id: usize)
        requires
            old(self).wf(),
        ensures
            final(self).wf(),
            final(self).registry.next_id == old(self).registry.next_id,
            final(self).live_ids() == old(self).live_ids().remove_value(id),
            final(self).states() == old(self).states().remove(id),
            !final(self).live_ids().contains(id),
    {
        proof {
            old(self).live_ids().index_of_first_ensures(id);
        }
        self.registry.remove(id);
        self.store.remove(id);
        proof {
            let s = old(self).live_ids();
            let t = self.live_ids();
            if s.contains(id) {
                let k0 = s.index_of_first(id)->0;
                s.remove_ensures(k0);
                assert(t == s.remove(k0));
                assert forall|x: usize| t.contains(x) implies s.contains(x) && x != id by {
                    let k = choose|k: int| 0 <= k < t.len() && t[k] == x;
                    if k < k0 {
                        assert(s[k] == x);
                        if x == id {
                            assert(s[k] < s[k0]);
                        }
                    } else {
                        assert(s[k + 1] == x);
                        if x == id {
                            assert(s[k0] < s[k + 1]);
                        }
                    }
                    assert(s.contains(x));
                }
                assert forall|x: usize| s.contains(x) && x != id implies t.contains(x) by {
                    let k = choose|k: int| 0 <= k < s.len() && s[k] == x;
                    if k < k0 {
                        assert(t[k] == x);
                    } else {
                        assert(k > k0);
                        assert(t[k - 1] == x);
                    }
                    assert(t.contains(x));
                }
                assert(self.states().dom() =~= t.to_set());
                if t.contains(id) {
                    assert(s.contains(id) && id != id);
                }
            } else {
                assert(t == s);
                assert(!self.states().dom().contains(id));
                assert(self.states().dom() =~= t.to_set());
            }
        }
    }

    /// The live identifiers in display order.
    pub fn instance_ids(&self) -> (r: Vec<usize>)
        ensures
            r@ == self.live_ids(),
    {
        self.registry.list()
    }

    /// The record for `id`, or the default record when `id` is not live.
    pub fn get_state(&self, id: usize) -> (r: FormState)
        ensures
            r == if self.states().contains_key(id) {
                self.states()[id]
            } else {
                default_form_state()
            },
    {
        self.store.get(id)
    }
}

} // verus!
