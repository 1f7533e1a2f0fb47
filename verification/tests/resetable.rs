use modified::Modified;
use modified::Resetable;

#[test]
fn resetable_new_starts_unchanged() {
    let r: Resetable<i32> = Resetable::new(15);
    assert!(r.is_unchanged());
    assert_eq!(*r.get(), 15);
}

#[test]
fn resetable_new_modified_starts_modified() {
    let r: Resetable<i32> = Resetable::new_modified(15);
    assert!(r.is_modified());
    assert_eq!(*r.get(), 15);
}

#[test]
fn resetable_set_marks_modified() {
    let mut r: Resetable<i32> = Resetable::new(15);
    r.set(20);
    assert!(r.is_modified());
    assert_eq!(*r.get(), 20);
}

#[test]
fn resetable_mutable_borrow_without_write_marks_modified() {
    let mut r: Resetable<i32> = Resetable::new(15);
    let _ = r.get_mut();
    assert!(r.is_modified());
    assert_eq!(*r.get(), 15);
}

#[test]
fn resetable_immutable_borrows_leave_flag() {
    let clean: Resetable<i32> = Resetable::new(1);
    let _ = clean.get();
    let _ = clean.get_value_changed();
    assert!(clean.is_unchanged());
}

#[test]
fn resetable_reset_clears_flag_and_keeps_value() {
    let mut r: Resetable<i32> = Resetable::new(15);
    r.set(20);
    assert!(r.is_modified());
    r.reset();
    assert!(r.is_unchanged());
    assert_eq!(*r.get(), 20);
}

#[test]
fn resetable_reset_is_idempotent() {
    let mut once: Resetable<i32> = Resetable::new_modified(15);
    once.reset();
    let mut twice: Resetable<i32> = Resetable::new_modified(15);
    twice.reset();
    twice.reset();
    assert_eq!(once.is_modified(), twice.is_modified());
    assert_eq!(*once.get(), *twice.get());
}

#[test]
fn resetable_reset_on_clean_wrapper_is_a_no_op() {
    let mut r: Resetable<i32> = Resetable::new(15);
    r.reset();
    assert!(r.is_unchanged());
    assert_eq!(*r.get(), 15);
}

#[test]
fn resetable_get_value_changed_pairs_value_and_flag() {
    let r: Resetable<i32> = Resetable::new(15);
    assert_eq!(r.get_value_changed(), (&15, false));
}

#[test]
fn resetable_into_inner_returns_value() {
    let r: Resetable<i32> = Resetable::new(15);
    assert_eq!(r.into_inner(), 15);
}

#[test]
fn resetable_into_inner_changed_round_trip() {
    let mut r: Resetable<i32> = Resetable::new(15);
    r.set(20);
    r.reset();
    assert_eq!(r.into_inner_changed(), (20, false));
}

#[test]
fn resetable_scenario_mutate_then_reset() {
    let mut r: Resetable<i32> = Resetable::new(-15);
    *r.get_mut() = 20;
    assert!(r.is_modified());
    r.reset();
    assert!(r.is_unchanged());
    assert_eq!(*r.get(), 20);
}

#[test]
fn resetable_default_starts_unchanged_at_default_value() {
    let r: Resetable<i32> = Resetable::default();
    assert_eq!(*r.get(), 0);
    assert!(r.is_unchanged());
}

#[test]
fn resetable_default_modified_starts_modified_at_default_value() {
    let r: Resetable<i32> = Resetable::default_modified();
    assert_eq!(*r.get(), 0);
    assert!(r.is_modified());
}

#[test]
fn resetable_clone_preserves_flag() {
    let dirty: Resetable<i32> = Resetable::new_modified(15);
    let dirty_copy: Resetable<i32> = dirty.clone();
    assert!(dirty_copy.is_modified());

    let mut clean: Resetable<i32> = Resetable::new_modified(15);
    clean.reset();
    let clean_copy: Resetable<i32> = clean.clone();
    assert_eq!(clean_copy.is_modified(), clean.is_modified());
    assert!(!clean_copy.is_modified());
}

#[test]
fn resetable_scenario_convert_preserves_value_and_flag() {
    let m: Modified<i32> = Modified::new_modified(7);
    let mut r: Resetable<i32> = Resetable::from_modified(m);
    assert!(r.is_modified());
    assert_eq!(*r.get(), 7);
    r.reset();
    assert!(r.is_unchanged());
    assert_eq!(*r.get(), 7);
}

#[test]
fn resetable_convert_keeps_clean_flag_clean() {
    let m: Modified<i32> = Modified::new(7);
    let r: Resetable<i32> = Resetable::from_modified(m);
    assert!(r.is_unchanged());
    assert_eq!(*r.get(), 7);
}
