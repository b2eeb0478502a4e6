//! The per-instance calculator: transient editable copies of one instance's
//! fields, field-level validation of raw edits, and the commit of settled
//! values into the store.
//!
//! Each edit event runs one step of the validation state machine: blank
//! input resets the field to its zero sentinel, a parse or range failure
//! leaves the field at its last settled value and records the error, and a
//! success stores the new value.  Every edit then commits the field's
//! current local value to the store — also after a rejected edit, which
//! merely re-writes the last valid value.  One error slot is shared by the
//! whole instance, so only the most recent edit's outcome is visible.

use crate::derived::{
    spec_elapsed_seconds, spec_mmss, spec_split_count, spec_split_marker, spec_total_seconds,
    split_rows, total_duration_label, total_seconds, SplitRow,
};
use crate::form_state::{FieldEdit, FormState};
use crate::parse::{
    is_blank, parse_bounded, parse_duration, spec_is_blank, spec_parse_bounded,
    spec_parse_duration, PaceError,
};
use crate::store::{spec_store_update, FormStateStore};
use vstd::prelude::*;

verus! {

/// The validation failure shown for the most recent edit of an instance.
#[derive(Clone, Copy, Debug, PartialEq, Eq, Structural)]
pub enum FieldError {
    PaceFormat,
    PaceMinutes,
    PaceSeconds,
    SplitsZero,
    SplitsNotNumber,
    DistanceZero,
    DistanceNotNumber,
}

/// The error text shown to the user for each failure.
pub open spec fn spec_error_text(e: FieldError) -> Seq<char> {
    match e {
        FieldError::PaceFormat => "Pace error: Invalid format"@,
        FieldError::PaceMinutes => "Pace error: Invalid minutes"@,
        FieldError::PaceSeconds => "Pace error: Invalid seconds"@,
        FieldError::SplitsZero => "Splits must be greater than 0"@,
        FieldError::SplitsNotNumber => "Splits must be a positive number"@,
        FieldError::DistanceZero => "Distance must be greater than 0"@,
        FieldError::DistanceNotNumber => "Distance must be a positive number"@,
    }
}

/// The [`FieldError`] a rejected pace input maps to.
pub open spec fn pace_error(e: PaceError) -> FieldError {
    match e {
        PaceError::Format => FieldError::PaceFormat,
        PaceError::Minutes => FieldError::PaceMinutes,
        PaceError::Seconds => FieldError::PaceSeconds,
    }
}

/// One validation step for the pace field: the field's next value and the
/// instance's next error slot, given its current value and the raw input.
pub open spec fn spec_pace_outcome(current: u64, s: Seq<char>) -> (u64, Option<FieldError>) {
    if spec_is_blank(s) {
        (0u64, None)
    } else {
        match spec_parse_duration(s) {
            Ok(v) => (v, None),
            Err(e) => (current, Some(pace_error(e))),
        }
    }
}

/// One validation step for a count field (split interval or distance),
/// with the two errors the field reports: blank resets to zero, zero is a
/// range failure, anything unparsable a parse failure; both failures keep
/// the current value.
pub open spec fn spec_count_outcome(
    current: usize,
    s: Seq<char>,
    zero_err: FieldError,
    nan_err: FieldError,
) -> (usize, Option<FieldError>) {
    if spec_is_blank(s) {
        (0usize, None)
    } else {
        match spec_parse_bounded(s, usize::MAX as u64) {
            Some(v) => if v == 0 {
                (current, Some(zero_err))
            } else {
                (v as usize, None)
            },
            None => (current, Some(nan_err)),
        }
    }
}

/// The transient editing state of one instance: local copies of its fields
/// and the shared error slot.
pub struct Calculator {
    pub id: usize,
    pub pace: u64,
    pub splits: usize,
    pub distance: usize,
    pub show_splits: bool,
    pub error: Option<FieldError>,
}

/// The calculator with its split-table visibility flipped; everything else,
/// the error slot included, is untouched.
pub open spec fn spec_toggle(c: Calculator) -> Calculator {
    Calculator { show_splits: !c.show_splits, ..c }
}

impl Calculator {
    /// A fresh editor for instance `id`, seeded from its stored record,
    /// with no error shown.
    pub fn new(id: usize, fs: FormState) -> (r: Self)
        ensures
            r.id == id,
            r.pace == fs.pace,
            r.splits == fs.splits,
            r.distance == fs.distance,
            r.show_splits == fs.show_splits,
            r.error is None,
    {
        Calculator {
            id,
            pace: fs.pace,
            splits: fs.splits,
            distance: fs.distance,
            show_splits: fs.show_splits,
            error: None,
        }
    }

    /// Runs one pace edit: validates `input`, updates the local pace and the
    /// error slot, and commits the settled pace to the store.  The commit is
    /// ignored there when the instance was already removed.
    pub fn edit_pace(&mut self, store: &mut FormStateStore, input: &str)
        ensures
            (final(self).pace, final(self).error) == spec_pace_outcome(old(self).pace, input@),
            final(self).id == old(self).id,
            final(self).splits == old(self).splits,
            final(self).distance == old(self).distance,
            final(self).show_splits == old(self).show_splits,
            final(store)@ == spec_store_update(
                old(store)@,
                old(self).id,
                FieldEdit::Pace(final(self).pace),
            ),
            final(store)@.dom() == old(store)@.dom(),
    {
        if is_blank(input) {
            self.pace = 0;
            self.error = None;
        } else {
            match parse_duration(input) {
                Ok(v) => {
                    self.pace = v;
                    self.error = None;
                },
                Err(PaceError::Format) => {
                    self.error = Some(FieldError::PaceFormat);
                },
                Err(PaceError::Minutes) => {
                    self.error = Some(FieldError::PaceMinutes);
                },
                Err(PaceError::Seconds) => {
                    self.error = Some(FieldError::PaceSeconds);
                },
            }
        }
        store.update(self.id, FieldEdit::Pace(self.pace));
    }

    /// Runs one split-interval edit, as [`Calculator::edit_pace`] does for
    /// the pace field.
    pub fn edit_splits(&mut self, store: &mut FormStateStore, input: &str)
        ensures
            (final(self).splits, final(self).error) == spec_count_outcome(
                old(self).splits,
                input@,
                FieldError::SplitsZero,
                FieldError::SplitsNotNumber,
            ),
            final(self).id == old(self).id,
            final(self).pace == old(self).pace,
            final(self).distance == old(self).distance,
            final(self).show_splits == old(self).show_splits,
            final(store)@ == spec_store_update(
                old(store)@,
                old(self).id,
                FieldEdit::Splits(final(self).splits),
            ),
            final(store)@.dom() == old(store)@.dom(),
    {
        if is_blank(input) {
            self.splits = 0;
            self.error = None;
        } else {
            match parse_bounded(input, usize::MAX as u64) {
                Some(v) => {
                    if v == 0 {
                        self.error = Some(FieldError::SplitsZero);
                    } else {
                        self.splits = v as usize;
                        self.error = None;
                    }
                },
                None => {
                    self.error = Some(FieldError::SplitsNotNumber);
                },
            }
        }
        store.update(self.id, FieldEdit::Splits(self.splits));
    }

    /// Runs one distance edit, as [`Calculator::edit_pace`] does for the
    /// pace field.
    pub fn edit_distance(&mut self, store: &mut FormStateStore, input: &str)
        ensures
            (final(self).distance, final(self).error) == spec_count_outcome(
                old(self).distance,
                input@,
                FieldError::DistanceZero,
                FieldError::DistanceNotNumber,
            ),
            final(self).id == old(self).id,
            final(self).pace == old(self).pace,
            final(self).splits == old(self).splits,
            final(self).show_splits == old(self).show_splits,
            final(store)@ == spec_store_update(
                old(store)@,
                old(self).id,
                FieldEdit::Distance(final(self).distance),
            ),
            final(store)@.dom() == old(store)@.dom(),
    {
        if is_blank(input) {
            self.distance = 0;
            self.error = None;
        } else {
            match parse_bounded(input, usize::MAX as u64) {
                Some(v) => {
                    if v == 0 {
                        self.error = Some(FieldError::DistanceZero);
                    } else {
                        self.distance = v as usize;
                        self.error = None;
                    }
                },
                None => {
                    self.error = Some(FieldError::DistanceNotNumber);
                },
            }
        }
        store.update(self.id, FieldEdit::Distance(self.distance));
    }

    /// Flips the split-table visibility and commits the new flag; no other
    /// field and not the error slot is touched.
    pub fn toggle_splits(&mut self, store: &mut FormStateStore)
        ensures
            *final(self) == spec_toggle(*old(self)),
            final(store)@ == spec_store_update(
                old(store)@,
                old(self).id,
                FieldEdit::ShowSplits(!old(self).show_splits),
            ),
            final(store)@.dom() == old(store)@.dom(),
    {
        self.show_splits = !self.show_splits;
        store.update(self.id, FieldEdit::ShowSplits(self.show_splits));
    }

    /// The shared error slot as the text shown to the user; empty when the
    /// most recent edit was accepted.
    pub fn error_text(&self) -> (r: String)
        ensures
            match self.error {
                Some(e) => r@ == spec_error_text(e),
                None => r@ == Seq::<char>::empty(),
            },
    {
        match self.error {
            Some(FieldError::PaceFormat) => String::from_str("Pace error: Invalid format"),
            Some(FieldError::PaceMinutes) => String::from_str("Pace error: Invalid minutes"),
            Some(FieldError::PaceSeconds) => String::from_str("Pace error: Invalid seconds"),
            Some(FieldError::SplitsZero) => String::from_str("Splits must be greater than 0"),
            Some(FieldError::SplitsNotNumber) => String::from_str(
                "Splits must be a positive number",
            ),
            Some(FieldError::DistanceZero) => String::from_str("Distance must be greater than 0"),
            Some(FieldError::DistanceNotNumber) => String::from_str(
                "Distance must be a positive number",
            ),
            None => String::new(),
        }
    }

    /// The derived total duration in whole seconds, when defined.
    pub fn total_seconds(&self) -> (r: Option<u128>)
        ensures
            r == spec_total_seconds(self.pace, self.distance),
    {
        total_seconds(self.pace, self.distance)
    }

    /// The derived total duration as `MM:SS`, when defined.
    pub fn total_label(&self) -> (r: Option<String>)
        ensures
            match r {
                Some(s) => spec_total_seconds(self.pace, self.distance) is Some && s@ == spec_mmss(
                    spec_total_seconds(self.pace, self.distance)->0 as int,
                ),
                None => spec_total_seconds(self.pace, self.distance) is None,
            },
    {
        total_duration_label(self.pace, self.distance)
    }

    /// The derived split table for the current fields; empty unless pace,
    /// distance and split interval are all set.
    pub fn split_table(&self) -> (r: Vec<SplitRow>)
        ensures
            r@.len() == spec_split_count(self.pace, self.distance, self.splits),
            forall|i: int|
                0 <= i < r@.len() ==> {
                    &&& #[trigger] r@[i].marker as int == spec_split_marker(self.splits, i)
                    &&& r@[i].seconds as int == spec_elapsed_seconds(self.pace, r@[i].marker as int)
                },
    {
        split_rows(self.pace, self.distance, self.splits)
    }
}

} // verus!
