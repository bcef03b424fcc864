use script_class::class::{ConfigError, NativeClass};
use script_class::object::{ForeignObject, Instantiable, Runtime};
use script_class::sample::{Counter, Preset, Widget};

#[test]
fn counter_new_instance_builds_default_payload() {
    let mut rt = Runtime::new();
    let inst = Counter::new_instance(&mut rt).unwrap();
    assert_eq!(inst.payload_ref().count, 0);
    assert_eq!(inst.payload_ref().owner_identity, inst.base_id());
}

#[test]
fn instances_get_distinct_identities() {
    let mut rt = Runtime::new();
    let first = Counter::new_instance(&mut rt).unwrap();
    let second = Counter::new_instance(&mut rt).unwrap();
    assert_ne!(first.base_id(), second.base_id());
}

#[test]
fn preset_new_instance_reports_missing_constructor() {
    let mut rt = Runtime::new();
    let err = match Preset::new_instance(&mut rt) {
        Ok(_) => panic!("expected the missing-constructor error"),
        Err(e) => e,
    };
    assert_eq!(
        err.message().as_str(),
        "Preset does not have a zero-argument constructor"
    );
    assert!(err.message().contains("Preset"));
}

#[test]
fn missing_constructor_error_names_the_class() {
    let err = ConfigError::missing_constructor("Gizmo");
    assert!(err.message().contains("Gizmo"));
    assert_eq!(
        err.message().as_str(),
        "Gizmo does not have a zero-argument constructor"
    );
}

#[test]
fn emplace_succeeds_without_a_constructor() {
    let mut rt = Runtime::new();
    let inst = Preset { value: 9 }.emplace(&mut rt);
    assert_eq!(inst.payload_ref().value, 9);
}

#[test]
fn emplace_stores_payload_verbatim() {
    let mut rt = Runtime::new();
    let inst = Counter { owner_identity: 42, count: 7 }.emplace(&mut rt);
    assert_eq!(inst.payload_ref().count, 7);
    assert_eq!(inst.payload_ref().owner_identity, 42);
}

#[test]
fn emplace_allocates_a_fresh_base() {
    let mut rt = Runtime::new();
    let first = Preset { value: 1 }.emplace(&mut rt);
    let second = Preset { value: 2 }.emplace(&mut rt);
    assert_ne!(first.base_id(), second.base_id());
}

#[test]
fn fresh_runtime_has_capacity() {
    let rt = Runtime::new();
    assert!(rt.has_capacity());
}

#[test]
fn runtime_never_reuses_an_identity() {
    let mut rt = Runtime::new();
    let a = Widget::construct(&mut rt);
    let b = Widget::construct(&mut rt);
    let c = Widget::construct(&mut rt);
    assert_ne!(a.id(), b.id());
    assert_ne!(b.id(), c.id());
    assert_ne!(a.id(), c.id());
}
