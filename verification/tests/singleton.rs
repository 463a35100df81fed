//! Tests for the global slot and the builder → instance protocol.

use glean_core::foo::{
    build_and_install, global_foo, global_foo_builder, setup_foo, setup_foo_builder, Builder,
    FooState,
};
use glean_core::slot::GlobalSlot;

#[test]
fn untouched_slots_report_nothing() {
    let state = FooState::new();
    assert!(global_foo_builder(&state).is_none());
    assert!(global_foo(&state).is_none());
}

#[test]
fn first_set_installs_exactly_the_given_value() {
    let mut slot: GlobalSlot<u32> = GlobalSlot::new();
    assert!(slot.get().is_none());
    let r = slot.set(Some(7));
    assert!(r.is_ok());
    assert_eq!(slot.get(), Some(&Some(7)));
}

#[test]
fn teardown_keeps_the_slot_present_but_empty() {
    let mut slot: GlobalSlot<u32> = GlobalSlot::new();
    slot.set(Some(7)).unwrap();
    slot.set(None).unwrap();
    assert_eq!(slot.get(), Some(&None));
}

#[test]
fn build_with_no_fields_yields_the_default() {
    let builder = Builder::new();
    let foo = builder.build();
    assert_eq!(foo.bar(), "WHATUP");
}

#[test]
fn build_after_set_yields_the_last_value_set() {
    let mut builder = Builder::new();
    builder.bar(String::from("first"));
    builder.bar(String::from("second"));
    let foo = builder.build();
    assert_eq!(foo.bar(), "second");
}

#[test]
fn building_twice_from_one_snapshot_is_a_pure_read() {
    let mut builder = Builder::new();
    builder.bar(String::from("kept"));
    let a = builder.build();
    let b = builder.build();
    assert_eq!(a.bar(), "kept");
    assert_eq!(b.bar(), "kept");
}

#[test]
fn set_bar_overwrites_in_place() {
    let mut builder = Builder::new();
    builder.bar(String::from("before"));
    let mut foo = builder.build();
    foo.set_bar(String::from("after"));
    assert_eq!(foo.bar(), "after");
}

#[test]
fn installing_a_builder_clears_the_instance() {
    let mut state = FooState::new();
    let mut builder = Builder::new();
    builder.bar(String::from("one"));
    setup_foo_builder(&mut state, Some(builder)).unwrap();
    build_and_install(&mut state).unwrap();
    assert!(matches!(global_foo(&state), Some(Some(_))));

    // A new builder invalidates the live instance immediately ...
    let mut next = Builder::new();
    next.bar(String::from("two"));
    setup_foo_builder(&mut state, Some(next)).unwrap();
    assert!(matches!(global_foo(&state), Some(None)));

    // ... until build_and_install runs again.
    build_and_install(&mut state).unwrap();
    match global_foo(&state) {
        Some(Some(foo)) => assert_eq!(foo.bar(), "two"),
        other => panic!("expected a live instance, got {:?}", other),
    }
}

#[test]
fn clearing_the_builder_leaves_the_instance_alone() {
    let mut state = FooState::new();
    setup_foo_builder(&mut state, Some(Builder::new())).unwrap();
    build_and_install(&mut state).unwrap();
    setup_foo_builder(&mut state, None).unwrap();
    assert!(matches!(global_foo_builder(&state), Some(None)));
    assert!(matches!(global_foo(&state), Some(Some(_))));
}

#[test]
fn repeated_teardown_is_idempotent() {
    let mut state = FooState::new();
    setup_foo_builder(&mut state, Some(Builder::new())).unwrap();
    build_and_install(&mut state).unwrap();
    assert!(setup_foo(&mut state, None).is_ok());
    assert!(matches!(global_foo(&state), Some(None)));
    assert!(setup_foo(&mut state, None).is_ok());
    assert!(matches!(global_foo(&state), Some(None)));
    assert!(setup_foo(&mut state, None).is_ok());
    assert!(matches!(global_foo(&state), Some(None)));
    // The staged builder was untouched throughout.
    assert!(matches!(global_foo_builder(&state), Some(Some(_))));
}

#[test]
fn build_and_install_without_a_builder_is_a_no_op() {
    let mut state = FooState::new();
    assert!(build_and_install(&mut state).is_ok());
    assert!(global_foo(&state).is_none());

    setup_foo_builder(&mut state, None).unwrap();
    assert!(build_and_install(&mut state).is_ok());
    assert!(global_foo(&state).is_none());
}

#[test]
fn build_and_install_resolves_the_default() {
    let mut state = FooState::new();
    setup_foo_builder(&mut state, Some(Builder::new())).unwrap();
    build_and_install(&mut state).unwrap();
    match global_foo(&state) {
        Some(Some(foo)) => assert_eq!(foo.bar(), "WHATUP"),
        other => panic!("expected a live instance, got {:?}", other),
    }
}

#[test]
fn installing_an_instance_directly_replaces_the_old_one() {
    let mut state = FooState::new();
    let mut builder = Builder::new();
    builder.bar(String::from("direct"));
    let foo = builder.build();
    setup_foo(&mut state, Some(foo)).unwrap();
    match global_foo(&state) {
        Some(Some(live)) => assert_eq!(live.bar(), "direct"),
        other => panic!("expected a live instance, got {:?}", other),
    }
}
