//! Properties that relate several operations of the library, stated and
//! proved once over the same spec functions the operations' contracts use.

use crate::calculator::{
    spec_count_outcome, spec_pace_outcome, spec_toggle, Calculator, FieldError,
};
use crate::context::AppContext;
use crate::derived::{spec_split_count, spec_split_marker};
use crate::parse::spec_is_blank;
use vstd::prelude::*;

verus! {

/// Toggling the split-table visibility twice returns a calculator to its
/// original state, and a single toggle never alters the pace, the split
/// interval, the distance, or the error slot.
pub proof fn lemma_toggle_twice(c: Calculator)
    ensures
        spec_toggle(spec_toggle(c)) == c,
        spec_toggle(c).pace == c.pace,
        spec_toggle(c).splits == c.splits,
        spec_toggle(c).distance == c.distance,
        spec_toggle(c).error == c.error,
{
}

/// The split table's markers grow strictly from row to row, and every
/// marker — the last one included — stays within the target distance.
pub proof fn lemma_split_markers_increasing(
    pace: u64,
    distance: usize,
    interval: usize,
    i: int,
    j: int,
)
    requires
        0 <= i < j < spec_split_count(pace, distance, interval),
    ensures
        spec_split_marker(interval, i) < spec_split_marker(interval, j),
        spec_split_marker(interval, j) <= distance,
{
    vstd::arithmetic::mul::lemma_mul_strict_inequality(i + 1, j + 1, interval as int);
    vstd::arithmetic::mul::lemma_mul_inequality(
        j + 1,
        distance as int / interval as int,
        interval as int,
    );
    vstd::arithmetic::div_mod::lemma_fundamental_div_mod(distance as int, interval as int);
    vstd::arithmetic::div_mod::lemma_mod_bound(distance as int, interval as int);
}

/// Removing instance `k` neither changes the stored record of any other
/// live instance `j` nor drops it from the live list; and because `k` was
/// allocated below the counter, which removal does not touch and every
/// later allocation only advances, `k` is never handed out again.
pub proof fn lemma_identity_stability(pre: AppContext, post: AppContext, k: usize, j: usize)
    requires
        pre.wf(),
        post.wf(),
        post.states() == pre.states().remove(k),
        post.live_ids() == pre.live_ids().remove_value(k),
        post.registry.next_id == pre.registry.next_id,
        j != k,
        pre.live_ids().contains(j),
    ensures
        post.live_ids().contains(j),
        post.states().contains_key(j),
        post.states()[j] == pre.states()[j],
        pre.live_ids().contains(k) ==> k < post.registry.next_id,
{
    assert(pre.states().dom().contains(j));
    assert(post.states().dom().contains(j));
    assert(post.live_ids().to_set().contains(j));
    if pre.live_ids().contains(k) {
        let i = choose|i: int| 0 <= i < pre.live_ids().len() && pre.live_ids()[i] == k;
        assert(pre.live_ids()[i] < pre.registry.next_id);
    }
}

/// Submitting blank text for any field resets that field to its zero
/// sentinel and clears the instance's error message, whatever the field
/// held before.
pub proof fn lemma_blank_input_resets(
    pace: u64,
    count: usize,
    s: Seq<char>,
    zero_err: FieldError,
    nan_err: FieldError,
)
    requires
        spec_is_blank(s),
    ensures
        spec_pace_outcome(pace, s) == (0u64, None::<FieldError>),
        spec_count_outcome(count, s, zero_err, nan_err) == (0usize, None::<FieldError>),
{
}

} // verus!
