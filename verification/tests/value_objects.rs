use std::collections::HashMap;

use scf_core::value::any::AnyObject;
use scf_core::value::any::ConfigValue;
use scf_core::value::any::TypeTag;
use scf_core::value::any::clone;
use scf_core::value::any::equal;
use scf_core::value::any::hash;
use scf_core::value::any::to_debug_string;
use scf_core::value::any::to_string;
use scf_core::value::immutable::ImmutableObject;
use scf_core::value::mutable::Mutable;

fn text_value(s: &str) -> ConfigValue {
    ConfigValue::Str(s.to_string())
}

#[test]
fn any_object() {
    assert_eq!(AnyObject::new(text_value("key")), AnyObject::new(text_value("key")));
    assert_ne!(AnyObject::new(text_value("key")), AnyObject::new(text_value("value")));
}

#[test]
fn any_generic_map() {
    let mut map = HashMap::<AnyObject, AnyObject>::new();
    map.insert(AnyObject::new(text_value("key")), AnyObject::new(text_value("value")));
    println!("map: {}", map.get(&AnyObject::new(text_value("key"))).unwrap().to_display_string());
}

#[test]
fn immutable_object() {
    assert_eq!(ImmutableObject::new(text_value("key")), ImmutableObject::new(text_value("key")));
    assert_ne!(ImmutableObject::new(text_value("key")), ImmutableObject::new(text_value("value")));
}

#[test]
fn immutable_generic_map() {
    let mut map = HashMap::<ImmutableObject, ImmutableObject>::new();
    map.insert(ImmutableObject::new(text_value("key")), ImmutableObject::new(text_value("value")));
    println!(
        "map: {}",
        map.get(&ImmutableObject::new(text_value("key"))).unwrap().to_display_string()
    );
}

#[test]
fn mutable_object() {
    assert_eq!(Mutable::new(text_value("key")), Mutable::new(text_value("key")));
    assert_ne!(Mutable::new(text_value("key")), Mutable::new(text_value("value")));
}

#[test]
fn mutable_generic_map() {
    let mut map = HashMap::<Mutable, Mutable>::new();
    map.insert(Mutable::new(text_value("key")), Mutable::new(text_value("value")));
    println!("map: {}", map.get(&Mutable::new(text_value("key"))).unwrap().to_display_string());
}

#[test]
fn value_equality_and_clone() {
    let a = ConfigValue::Int(10);
    let b = ConfigValue::Int(10);
    let c = ConfigValue::Int(11);
    assert!(equal(&a, &b));
    assert!(!equal(&a, &c));
    assert!(!equal(&a, &text_value("10")));
    assert!(!equal(&ConfigValue::Bool(true), &ConfigValue::Bool(false)));
    let d = clone(&a);
    assert_eq!(a, d);
    let s = text_value("hello");
    assert_eq!(s, clone(&s));
}

#[test]
fn value_hash_agrees_with_equality() {
    assert_eq!(hash(&ConfigValue::Int(42)), hash(&clone(&ConfigValue::Int(42))));
    assert_eq!(hash(&text_value("abc")), hash(&text_value("abc")));
    assert_ne!(hash(&ConfigValue::Bool(true)), hash(&ConfigValue::Bool(false)));
    assert_eq!(45, hash(&ConfigValue::Int(42)));
    assert_eq!(9223372036854775812, hash(&ConfigValue::Int(-1)));
    assert_eq!(7 * 31 + 97, hash(&text_value("a")));
    assert_eq!(11, hash(&ConfigValue::Bool(true)));
    assert_eq!(13, hash(&ConfigValue::Bool(false)));
}

#[test]
fn value_type_tags() {
    assert_eq!(TypeTag::Int, ConfigValue::Int(1).type_tag());
    assert_eq!(TypeTag::Str, text_value("x").type_tag());
    assert_eq!(TypeTag::Bool, ConfigValue::Bool(true).type_tag());
}

#[test]
fn value_to_string_renderings() {
    assert_eq!("10", to_string(&ConfigValue::Int(10)).as_str());
    assert_eq!("-42", to_string(&ConfigValue::Int(-42)).as_str());
    assert_eq!("0", to_string(&ConfigValue::Int(0)).as_str());
    assert_eq!("true", to_string(&ConfigValue::Bool(true)).as_str());
    assert_eq!("false", to_string(&ConfigValue::Bool(false)).as_str());
    assert_eq!("ok", to_string(&text_value("ok")).as_str());
    assert_eq!("\"ok\"", to_debug_string(&text_value("ok")).as_str());
    assert_eq!("10", to_debug_string(&ConfigValue::Int(10)).as_str());
    assert_eq!(
        "-9223372036854775808",
        to_string(&ConfigValue::Int(i64::MIN)).as_str()
    );
}

#[test]
fn option_renderings() {
    assert_eq!("none", scf_core::value::option::to_string(&None).as_str());
    assert_eq!(
        "12",
        scf_core::value::option::to_string(&Some(ConfigValue::Int(12))).as_str()
    );
    assert_eq!("none", scf_core::value::option::to_debug_string(&None).as_str());
    assert_eq!(
        "\"ok\"",
        scf_core::value::option::to_debug_string(&Some(text_value("ok"))).as_str()
    );
}

#[test]
fn mutable_set_replaces_value() {
    let mut m = Mutable::new(ConfigValue::Int(1));
    assert_eq!(&ConfigValue::Int(1), m.as_ref());
    m.set(ConfigValue::Int(2));
    assert_eq!(&ConfigValue::Int(2), m.as_ref());
}

#[test]
fn immutable_value_copies() {
    let o = ImmutableObject::new(text_value("key"));
    assert_eq!(text_value("key"), o.value());
    assert_eq!(&text_value("key"), o.as_ref());
}
