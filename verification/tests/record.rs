//! The payload type: insertion, lookup, and order-independent equality.

use serde_multi::Record;

fn record(pairs: &[(&str, i64)]) -> Record {
    let mut r = Record::new();
    for (k, v) in pairs {
        r.insert((*k).to_owned(), *v);
    }
    r
}

#[test]
fn record_insert_then_get() {
    let r = record(&[("foo", -193), ("bar", 3058)]);
    assert_eq!(r.get("foo"), Some(-193));
    assert_eq!(r.get("bar"), Some(3058));
    assert_eq!(r.get("baz"), None);
}

#[test]
fn record_later_binding_wins() {
    let r = record(&[("foo", 1), ("foo", 2)]);
    assert_eq!(r.get("foo"), Some(2));
}

#[test]
fn record_equality_ignores_order() {
    let a = record(&[("foo", -193), ("bar", 3058)]);
    let b = record(&[("bar", 3058), ("foo", -193)]);
    assert_eq!(a, b);
}

#[test]
fn record_equality_ignores_shadowed_bindings() {
    let a = record(&[("foo", 7), ("foo", -193)]);
    let b = record(&[("foo", -193)]);
    assert_eq!(a, b);
}

#[test]
fn record_inequality_on_value() {
    let a = record(&[("foo", 1)]);
    let b = record(&[("foo", 2)]);
    assert!(a != b);
}

#[test]
fn record_inequality_on_key() {
    let a = record(&[("foo", 1)]);
    let b = record(&[("bar", 1)]);
    assert!(a != b);
    let empty = Record::new();
    assert!(a != empty);
    assert!(empty != a);
}

#[test]
fn record_empty_equals_empty() {
    assert_eq!(Record::new(), Record::new());
}

#[test]
fn record_extreme_values() {
    let r = record(&[("min", i64::MIN), ("max", i64::MAX), ("zero", 0)]);
    assert_eq!(r.get("min"), Some(i64::MIN));
    assert_eq!(r.get("max"), Some(i64::MAX));
    assert_eq!(r.get("zero"), Some(0));
}
