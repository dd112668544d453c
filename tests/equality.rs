use libddwaf::object::{Keyed, WafArray, WafBool, WafFloat, WafMap, WafNull, WafObject, WafSigned, WafString, WafUnsigned};

#[test]
fn test_eq_invalid() {
    let left = WafObject::default();
    let right = WafObject::default();
    assert!(left == right); // Invalid objects are always equal.
}

#[test]
fn test_eq_null() {
    let left = WafObject::from(());
    let right = WafNull::new();
    assert!(left == right);
    assert!(left != WafObject::default());
}

#[test]
fn test_eq_signed() {
    let left = WafObject::from(-42i64);
    assert!(left == WafSigned::new(-42));
    assert!(left != WafSigned::new(42)); // Sign mismatch
    assert!(left != WafObject::default());
}

#[test]
fn test_eq_unsigned() {
    let left = WafObject::from(1337u64);
    assert!(left == WafUnsigned::new(1337));
    assert!(left != WafUnsigned::new(42)); // Value mismatch
    assert!(left != WafObject::default());
}

#[test]
fn test_eq_bool() {
    let left = WafObject::from(true);
    assert!(left == WafBool::new(true));
    assert!(left != WafBool::new(false)); // Value mismatch
    assert!(left != WafObject::default());
}

#[test]
fn test_eq_float() {
    let left = WafObject::from(WafFloat::new(1337.42_f64.to_bits()));
    assert!(left == WafFloat::new(1337.42_f64.to_bits()));
    assert!(left != WafFloat::new(1337.0_f64.to_bits())); // Value mismatch
    assert!(left != WafObject::default());
}

#[test]
fn test_eq_string() {
    let left = WafObject::from(WafString::new(b""));
    assert!(left == WafString::default());

    let left = WafObject::from(WafString::new(b"Hello, world!"));
    assert!(left == WafString::from_text("Hello, world!"));
    assert!(left != WafString::from_text("Hello, world")); // Length mismatch
    assert!(left != WafObject::default());
}

#[test]
fn test_eq_array_and_map() {
    assert!(WafArray::default() == WafArray::default());

    let left = WafMap::from(vec![Keyed::with_key(b"key", WafObject::from(42u64))]);
    assert!(left == WafMap::from(vec![Keyed::with_key(b"key", WafObject::from(42u64))]));
    // Key mismatch
    assert!(left != WafMap::from(vec![Keyed::with_key(b"yek", WafObject::from(42u64))]));
    // Value mismatch
    assert!(left != WafMap::from(vec![Keyed::with_key(b"key", WafObject::from(-1337i64))]));
    // Length mismatch
    assert!(left != WafMap::default());
    assert!(left != WafObject::default());
}
