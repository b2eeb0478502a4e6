//! The validation state machine, field by field: blank resets, range and
//! parse failures, the shared error slot, and the commit-after-edit quirk.

use pace_calculator::calculator::Calculator;
use pace_calculator::context::AppContext;

#[test]
fn blank_input_resets_each_field() {
    let mut ctx = AppContext::new();
    let mut calc = Calculator::new(0, ctx.get_state(0));
    calc.edit_pace(&mut ctx.store, "05:00");
    calc.edit_splits(&mut ctx.store, "200");
    calc.edit_distance(&mut ctx.store, "1000");
    assert_eq!(ctx.get_state(0).pace, 300);

    calc.edit_pace(&mut ctx.store, "   ");
    assert_eq!(calc.pace, 0);
    assert_eq!(calc.error_text(), "");
    assert_eq!(ctx.get_state(0).pace, 0);

    calc.edit_splits(&mut ctx.store, "");
    assert_eq!(calc.splits, 0);
    assert_eq!(calc.error_text(), "");
    assert_eq!(ctx.get_state(0).splits, 0);

    calc.edit_distance(&mut ctx.store, "\t\n");
    assert_eq!(calc.distance, 0);
    assert_eq!(calc.error_text(), "");
    assert_eq!(ctx.get_state(0).distance, 0);
}

#[test]
fn pace_grammar() {
    let mut ctx = AppContext::new();
    let mut calc = Calculator::new(0, ctx.get_state(0));

    calc.edit_pace(&mut ctx.store, "4:30");
    assert_eq!(calc.pace, 270);
    assert_eq!(calc.error_text(), "");

    calc.edit_pace(&mut ctx.store, "00:00");
    assert_eq!(calc.pace, 0);
    assert_eq!(calc.error_text(), "");

    calc.edit_pace(&mut ctx.store, "05:60");
    assert_eq!(calc.pace, 360);

    calc.edit_pace(&mut ctx.store, "500");
    assert_eq!(calc.error_text(), "Pace error: Invalid format");
    assert_eq!(calc.pace, 360);

    calc.edit_pace(&mut ctx.store, "1:2:3");
    assert_eq!(calc.error_text(), "Pace error: Invalid format");

    calc.edit_pace(&mut ctx.store, ":30");
    assert_eq!(calc.error_text(), "Pace error: Invalid minutes");

    calc.edit_pace(&mut ctx.store, "a5:30");
    assert_eq!(calc.error_text(), "Pace error: Invalid minutes");

    calc.edit_pace(&mut ctx.store, "30:");
    assert_eq!(calc.error_text(), "Pace error: Invalid seconds");

    calc.edit_pace(&mut ctx.store, "5: 30");
    assert_eq!(calc.error_text(), "Pace error: Invalid seconds");

    // Numbers too large for the stored width are parse failures.
    calc.edit_pace(&mut ctx.store, "18446744073709551616:00");
    assert_eq!(calc.error_text(), "Pace error: Invalid minutes");
    calc.edit_pace(&mut ctx.store, "400000000000000000:00");
    assert_eq!(calc.error_text(), "Pace error: Invalid seconds");

    // The last settled value survived every rejected edit.
    assert_eq!(calc.pace, 360);
    assert_eq!(ctx.get_state(0).pace, 360);
}

#[test]
fn count_grammar() {
    let mut ctx = AppContext::new();
    let mut calc = Calculator::new(0, ctx.get_state(0));

    calc.edit_splits(&mut ctx.store, "+25");
    assert_eq!(calc.splits, 25);
    assert_eq!(calc.error_text(), "");

    calc.edit_splits(&mut ctx.store, "0");
    assert_eq!(calc.error_text(), "Splits must be greater than 0");
    assert_eq!(calc.splits, 25);

    calc.edit_splits(&mut ctx.store, "12.5");
    assert_eq!(calc.error_text(), "Splits must be a positive number");
    assert_eq!(calc.splits, 25);

    calc.edit_distance(&mut ctx.store, "-3");
    assert_eq!(calc.error_text(), "Distance must be a positive number");

    calc.edit_distance(&mut ctx.store, "99999999999999999999999999");
    assert_eq!(calc.error_text(), "Distance must be a positive number");

    calc.edit_distance(&mut ctx.store, " 7");
    assert_eq!(calc.error_text(), "Distance must be a positive number");
}

#[test]
fn error_slot_is_shared() {
    let mut ctx = AppContext::new();
    let mut calc = Calculator::new(0, ctx.get_state(0));
    calc.edit_splits(&mut ctx.store, "0");
    assert_eq!(calc.error_text(), "Splits must be greater than 0");
    calc.edit_distance(&mut ctx.store, "x");
    assert_eq!(calc.error_text(), "Distance must be a positive number");
    calc.edit_distance(&mut ctx.store, "800");
    assert_eq!(calc.error_text(), "");
}

#[test]
fn rejected_edit_recommits_last_valid_value() {
    let mut ctx = AppContext::new();
    let mut calc = Calculator::new(0, ctx.get_state(0));
    calc.edit_distance(&mut ctx.store, "1000");
    assert_eq!(ctx.get_state(0).distance, 1000);
    calc.edit_distance(&mut ctx.store, "0");
    assert_eq!(ctx.get_state(0).distance, 1000);
    calc.edit_distance(&mut ctx.store, "abc");
    assert_eq!(ctx.get_state(0).distance, 1000);
}
