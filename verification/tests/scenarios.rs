//! End-to-end scenarios: one context, per-instance calculators, raw edits.

use pace_calculator::calculator::Calculator;
use pace_calculator::context::AppContext;
use pace_calculator::derived::split_row_label;

#[test]
fn scenario_total_without_splits() {
    let mut ctx = AppContext::new();
    let mut calc = Calculator::new(0, ctx.get_state(0));
    calc.edit_pace(&mut ctx.store, "05:00");
    calc.edit_distance(&mut ctx.store, "1000");
    assert_eq!(calc.error_text(), "");
    assert_eq!(calc.total_seconds(), Some(300));
    assert_eq!(calc.total_label(), Some("05:00".to_string()));
    assert!(calc.split_table().is_empty());
}

#[test]
fn scenario_total_with_splits() {
    let mut ctx = AppContext::new();
    let mut calc = Calculator::new(0, ctx.get_state(0));
    calc.edit_pace(&mut ctx.store, "04:30");
    calc.edit_distance(&mut ctx.store, "3000");
    calc.edit_splits(&mut ctx.store, "1000");
    assert_eq!(calc.error_text(), "");
    assert_eq!(calc.total_label(), Some("13:30".to_string()));
    let rows = calc.split_table();
    assert_eq!(rows.len(), 3);
    assert_eq!((rows[0].marker, rows[0].seconds), (1000, 270));
    assert_eq!((rows[1].marker, rows[1].seconds), (2000, 540));
    assert_eq!((rows[2].marker, rows[2].seconds), (3000, 810));
    assert_eq!(split_row_label(rows[0].marker, rows[0].seconds), "1000m: 04:30");
    assert_eq!(split_row_label(rows[1].marker, rows[1].seconds), "2000m: 09:00");
    assert_eq!(split_row_label(rows[2].marker, rows[2].seconds), "3000m: 13:30");
}

#[test]
fn scenario_zero_distance_rejected() {
    let mut ctx = AppContext::new();
    let mut calc = Calculator::new(0, ctx.get_state(0));
    calc.edit_distance(&mut ctx.store, "0");
    assert_eq!(calc.error_text(), "Distance must be greater than 0");
    assert_eq!(calc.distance, 0);
    assert_eq!(ctx.get_state(0).distance, 0);
}

#[test]
fn scenario_pace_empty_seconds_rejected() {
    let mut ctx = AppContext::new();
    let mut calc = Calculator::new(0, ctx.get_state(0));
    calc.edit_pace(&mut ctx.store, "5:");
    assert_eq!(calc.error_text(), "Pace error: Invalid seconds");
    assert_eq!(calc.pace, 0);
}

#[test]
fn scenario_add_two_instances() {
    let mut ctx = AppContext::new();
    assert_eq!(ctx.instance_ids(), vec![0]);
    let first = ctx.add_instance();
    let second = ctx.add_instance();
    assert_eq!(first, 1);
    assert_eq!(second, 2);
    assert_eq!(ctx.instance_ids(), vec![0, 1, 2]);
    for id in [0, 1, 2] {
        let fs = ctx.get_state(id);
        assert_eq!(fs.pace, 0);
        assert_eq!(fs.splits, 0);
        assert_eq!(fs.distance, 0);
        assert!(fs.show_splits);
    }
    // Each instance edits independently.
    let mut calc1 = Calculator::new(1, ctx.get_state(1));
    calc1.edit_distance(&mut ctx.store, "400");
    assert_eq!(ctx.get_state(1).distance, 400);
    assert_eq!(ctx.get_state(0).distance, 0);
    assert_eq!(ctx.get_state(2).distance, 0);
}
