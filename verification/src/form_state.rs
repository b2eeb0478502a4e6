//! The durable per-instance record and the field-level edits applied to it.

use vstd::prelude::*;

verus! {

/// The settled state of one calculator instance.
///
/// Every numeric field uses zero as the "unset" sentinel; a positive value is
/// one that passed validation.  `pace` counts whole seconds per kilometer,
/// `splits` and `distance` count meters.
#[derive(Clone, Copy, Debug, PartialEq, Eq, Structural)]
pub struct FormState {
    pub pace: u64,
    pub splits: usize,
    pub distance: usize,
    pub show_splits: bool,
}

/// The record a freshly created instance starts from: every numeric field
/// unset, the split table visible.
pub open spec fn default_form_state() -> FormState {
    FormState { pace: 0, splits: 0, distance: 0, show_splits: true }
}

impl Default for FormState {
    fn default() -> (r: Self)
        ensures
            r == default_form_state(),
    {
        FormState { pace: 0, splits: 0, distance: 0, show_splits: true }
    }
}

/// One field-level change to a `FormState`.
#[derive(Clone, Copy, Debug, PartialEq, Eq, Structural)]
pub enum FieldEdit {
    Pace(u64),
    Splits(usize),
    Distance(usize),
    ShowSplits(bool),
}

/// The record with one field replaced by the edited value.
pub open spec fn apply_edit(fs: FormState, edit: FieldEdit) -> FormState {
    match edit {
        FieldEdit::Pace(v) => FormState { pace: v, ..fs },
        FieldEdit::Splits(v) => FormState { splits: v, ..fs },
        FieldEdit::Distance(v) => FormState { distance: v, ..fs },
        FieldEdit::ShowSplits(v) => FormState { show_splits: v, ..fs },
    }
}

/// Executable counterpart of [`apply_edit`].
pub fn apply_edit_exec(fs: FormState, edit: FieldEdit) -> (r: FormState)
    ensures
        r == apply_edit(fs, edit),
{
    match edit {
        FieldEdit::Pace(v) => FormState { pace: v, ..fs },
        FieldEdit::Splits(v) => FormState { splits: v, ..fs },
        FieldEdit::Distance(v) => FormState { distance: v, ..fs },
        FieldEdit::ShowSplits(v) => FormState { show_splits: v, ..fs },
    }
}

} // verus!
