//! The durable store: a map from instance identifier to its `FormState`.
//!
//! The store owns the settled truth for every live instance.  Mutations of an
//! absent identifier are deliberate no-ops, so a stale field commit arriving
//! after its instance was removed cannot fail or resurrect the entry, and
//! reads never fail: an absent identifier reads as the default record.

use crate::form_state::{apply_edit, apply_edit_exec, default_form_state, FieldEdit, FormState};
use std::collections::HashMap;
use vstd::prelude::*;

verus! {

broadcast use vstd::std_specs::hash::group_hash_axioms;

/// The map after a field-level change: the entry for `id` with one field
/// replaced, or the map unchanged when `id` is absent.
pub open spec fn spec_store_update(
    m: Map<usize, FormState>,
    id: usize,
    edit: FieldEdit,
) -> Map<usize, FormState> {
    if m.contains_key(id) {
        m.insert(id, apply_edit(m[id], edit))
    } else {
        m
    }
}

/// Keyed collection of the per-instance records.
pub struct FormStateStore {
    map: HashMap<usize, FormState>,
}

impl View for FormStateStore {
    type V = Map<usize, FormState>;

    closed spec fn view(&self) -> Map<usize, FormState> {
        self.map@
    }
}

impl FormStateStore {
    /// An empty store.
    pub fn new() -> (r: Self)
        ensures
            r@ == Map::<usize, FormState>::empty(),
    {
        FormStateStore { map: HashMap::new() }
    }

    /// Whether `id` has an entry.
    pub fn contains(&self, id: usize) -> (r: bool)
        ensures
            r == self@.contains_key(id),
    {
        self.map.contains_key(&id)
    }

    /// Inserts the default record for `id`.  Reports failure, without
    /// touching the map, when `id` is already present: callers create an
    /// entry only right after allocating a fresh identifier.
    pub fn create(&mut self, id: usize) -> (created: bool)
        ensures
            final(self)@ == if old(self)@.contains_key(id) {
                old(self)@
            } else {
                old(self)@.insert(id, default_form_state())
            },
            created == !old(self)@.contains_key(id),
    {
        if self.map.contains_key(&id) {
            false
        } else {
            self.map.insert(id, FormState::default());
            true
        }
    }

    /// Applies a field-level change to the entry for `id`; silently ignored
    /// when `id` is absent.
    pub fn update(&mut self, id: usize, edit: FieldEdit)
        ensures
            final(self)@ == spec_store_update(old(self)@, id, edit),
            final(self)@.dom() == old(self)@.dom(),
    {
        let current = self.map.get(&id);
        match current {
            Some(fs) => {
                let updated = apply_edit_exec(*fs, edit);
                self.map.insert(id, updated);
                proof {
                    assert(self.map@.dom() =~= old(self)@.dom());
                }
            },
            None => {},
        }
    }

    /// Deletes the entry for `id`; removing an absent identifier is a no-op.
    pub fn remove(&mut self, id: usize)
        ensures
            final(self)@ == old(self)@.remove(id),
    {
        self.map.remove(&id);
    }

    /// The record for `id`, or the default record when `id` is absent:
    /// read-only views never fail.
    pub fn get(&self, id: usize) -> (r: FormState)
        ensures
            r == if self@.contains_key(id) {
                self@[id]
            } else {
                default_form_state()
            },
    {
        match self.map.get(&id) {
            Some(fs) => *fs,
            None => FormState::default(),
        }
    }
}

} // verus!
