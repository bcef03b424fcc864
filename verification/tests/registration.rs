use script_class::class::{NativeClass, NativeClassMethods};
use script_class::registry::ClassBuilder;
use script_class::sample::Counter;

#[test]
fn property_registration_records_the_declared_property() {
    let mut builder: ClassBuilder<Counter> = ClassBuilder::new(String::from("Counter"));
    Counter::register_properties(&mut builder);
    assert_eq!(builder.property_count(), 1);
    assert_eq!(builder.property_at(0).as_str(), "count");
}

#[test]
fn property_registration_twice_does_not_duplicate_entries() {
    let mut builder: ClassBuilder<Counter> = ClassBuilder::new(String::from("Counter"));
    Counter::register_properties(&mut builder);
    Counter::register_properties(&mut builder);
    assert_eq!(builder.property_count(), 1);
    assert_eq!(builder.property_at(0).as_str(), "count");
}

#[test]
fn add_property_ignores_a_repeated_name() {
    let mut builder: ClassBuilder<Counter> = ClassBuilder::new(String::from("Counter"));
    builder.add_property(String::from("speed"));
    builder.add_property(String::from("speed"));
    assert_eq!(builder.property_count(), 1);
    assert_eq!(builder.property_at(0).as_str(), "speed");
}

#[test]
fn add_property_keeps_first_registration_order() {
    let mut builder: ClassBuilder<Counter> = ClassBuilder::new(String::from("Counter"));
    builder.add_property(String::from("speed"));
    builder.add_property(String::from("label"));
    builder.add_property(String::from("speed"));
    assert_eq!(builder.property_count(), 2);
    assert_eq!(builder.property_at(0).as_str(), "speed");
    assert_eq!(builder.property_at(1).as_str(), "label");
}

#[test]
fn method_registration_preserves_order() {
    let mut builder: ClassBuilder<Counter> = ClassBuilder::new(String::from("Counter"));
    Counter::register(&mut builder);
    assert_eq!(builder.method_count(), 2);
    assert_eq!(builder.method_at(0).as_str(), "increment");
    assert_eq!(builder.method_at(1).as_str(), "total");
}

#[test]
fn registration_does_not_mix_properties_and_methods() {
    let mut builder: ClassBuilder<Counter> = ClassBuilder::new(String::from("Counter"));
    Counter::register_properties(&mut builder);
    Counter::register(&mut builder);
    assert_eq!(builder.property_count(), 1);
    assert_eq!(builder.method_count(), 2);
}

#[test]
fn builder_is_keyed_by_the_class_name() {
    let builder: ClassBuilder<Counter> = ClassBuilder::new(String::from("Counter"));
    assert_eq!(builder.class_name().as_str(), "Counter");
    assert_eq!(builder.property_count(), 0);
    assert_eq!(builder.method_count(), 0);
}

#[test]
fn class_names_are_stable() {
    assert_eq!(Counter::class_name(), "Counter");
    assert_eq!(
        <script_class::sample::Preset as NativeClass>::class_name(),
        "Preset"
    );
}
