//! Instance lifecycle: identity stability under removal, no identifier
//! reuse, stale commits, and the visibility toggle.

use pace_calculator::calculator::Calculator;
use pace_calculator::context::AppContext;
use pace_calculator::form_state::FormState;
use pace_calculator::store::FormStateStore;

#[test]
fn removing_one_instance_leaves_the_others() {
    let mut ctx = AppContext::new();
    let a = ctx.add_instance();
    let b = ctx.add_instance();
    let mut calc0 = Calculator::new(0, ctx.get_state(0));
    let mut calc_a = Calculator::new(a, ctx.get_state(a));
    let mut calc_b = Calculator::new(b, ctx.get_state(b));
    calc0.edit_distance(&mut ctx.store, "100");
    calc_a.edit_distance(&mut ctx.store, "200");
    calc_b.edit_distance(&mut ctx.store, "300");

    ctx.remove_instance(a);
    assert_eq!(ctx.instance_ids(), vec![0, b]);
    assert_eq!(ctx.get_state(0).distance, 100);
    assert_eq!(ctx.get_state(b).distance, 300);
    // The removed instance reads as the default record.
    assert_eq!(ctx.get_state(a), FormState::default());
}

#[test]
fn identifiers_are_never_reused() {
    let mut ctx = AppContext::new();
    let a = ctx.add_instance();
    assert_eq!(a, 1);
    ctx.remove_instance(a);
    let c = ctx.add_instance();
    assert_eq!(c, 2);
    ctx.remove_instance(0);
    let d = ctx.add_instance();
    assert_eq!(d, 3);
    assert_eq!(ctx.instance_ids(), vec![2, 3]);
}

#[test]
fn removal_is_idempotent() {
    let mut ctx = AppContext::new();
    let a = ctx.add_instance();
    ctx.remove_instance(a);
    ctx.remove_instance(a);
    ctx.remove_instance(77);
    assert_eq!(ctx.instance_ids(), vec![0]);
}

#[test]
fn stale_commit_after_removal_is_ignored() {
    let mut ctx = AppContext::new();
    let a = ctx.add_instance();
    let mut calc_a = Calculator::new(a, ctx.get_state(a));
    ctx.remove_instance(a);
    // The edit still validates locally but cannot resurrect the record.
    calc_a.edit_distance(&mut ctx.store, "500");
    assert_eq!(calc_a.distance, 500);
    assert_eq!(ctx.instance_ids(), vec![0]);
    assert_eq!(ctx.get_state(a), FormState::default());
}

#[test]
fn toggle_twice_restores_visibility() {
    let mut ctx = AppContext::new();
    let mut calc = Calculator::new(0, ctx.get_state(0));
    calc.edit_pace(&mut ctx.store, "05:00");
    calc.edit_distance(&mut ctx.store, "2000");
    calc.edit_splits(&mut ctx.store, "500");
    let before = (calc.pace, calc.splits, calc.distance, calc.show_splits);
    assert!(calc.show_splits);

    calc.toggle_splits(&mut ctx.store);
    assert!(!calc.show_splits);
    assert!(!ctx.get_state(0).show_splits);
    assert_eq!((calc.pace, calc.splits, calc.distance), (300, 500, 2000));

    calc.toggle_splits(&mut ctx.store);
    assert_eq!((calc.pace, calc.splits, calc.distance, calc.show_splits), before);
    assert!(ctx.get_state(0).show_splits);
    assert_eq!(ctx.get_state(0).pace, 300);
    assert_eq!(ctx.get_state(0).splits, 500);
    assert_eq!(ctx.get_state(0).distance, 2000);
}

#[test]
fn store_create_rejects_duplicates() {
    let mut store = FormStateStore::new();
    assert!(store.create(5));
    let mut calc = Calculator::new(5, store.get(5));
    calc.edit_distance(&mut store, "900");
    assert!(!store.create(5));
    assert_eq!(store.get(5).distance, 900);
}
