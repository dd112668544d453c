use libddwaf::shallow::{DdwafObjArrayShallow, DdwafObjMapShallow};
use libddwaf::object::{fmt_bin_str, Keyed, WafArray, WafBool, WafFloat, WafMap, WafObject, WafSigned, WafString, WafUnsigned};

fn entry(key: &str, value: WafObject) -> Keyed<WafObject> {
    Keyed::with_key_str(key, value)
}

#[test]
fn scalar_round_trip() {
    let obj = WafObject::from(WafSigned::new(i64::MIN));
    assert_eq!(obj.to_i64(), Some(i64::MIN));
    let obj = WafObject::from(WafUnsigned::new(u64::MAX));
    assert_eq!(obj.to_u64(), Some(u64::MAX));
    assert_eq!(obj.to_i64(), None);
    let obj = WafObject::from(WafUnsigned::new(7));
    assert_eq!(obj.to_i64(), Some(7));
    let obj = WafObject::from(WafBool::new(true));
    assert_eq!(obj.to_bool(), Some(true));
    let bits = (-0.1_f64).to_bits();
    let obj = WafObject::from(WafFloat::new(bits));
    assert_eq!(obj.to_f64_bits(), Some(bits));
    let back = WafFloat::try_from(obj).ok().unwrap();
    assert_eq!(back.value(), bits);
}

#[test]
fn map_equality_is_order_sensitive() {
    let a = WafMap::from(vec![entry("k1", 1u64.into()), entry("k2", 2u64.into())]);
    let b = WafMap::from(vec![entry("k2", 2u64.into()), entry("k1", 1u64.into())]);
    let c = WafMap::from(vec![entry("k1", 1u64.into()), entry("k2", 2u64.into())]);
    assert!(a != b);
    assert!(a == c);
    let invalid = WafObject::default();
    let other_invalid = WafObject::default();
    let null = WafObject::from(());
    assert!(invalid == other_invalid);
    assert!(null == WafObject::from(()));
    assert!(null != invalid);
}

#[test]
fn float_equality_follows_ieee() {
    let nan = WafFloat::new(f64::NAN.to_bits());
    assert!(nan != WafFloat::new(f64::NAN.to_bits()));
    assert!(WafFloat::new(0.0_f64.to_bits()) == WafFloat::new((-0.0_f64).to_bits()));
    assert!(WafFloat::new(1.5_f64.to_bits()) != WafFloat::new(2.5_f64.to_bits()));
}

#[test]
fn keyed_round_trip() {
    let keyed: Keyed<WafString> = Keyed::with_key_str("key", WafString::from_text("value"));
    let generic: Keyed<WafObject> = keyed.into();
    assert_eq!(generic.key(), b"key");
    let back = generic.into_type::<WafString>().ok().unwrap();
    assert_eq!(back.key(), b"key");
    assert_eq!(back.bytes(), b"value");

    let mut back = back;
    back.set_key(b"other");
    assert_eq!(back.key(), b"other");
    back.set_key(b"");
    assert_eq!(back.key(), b"");

    let generic: Keyed<WafObject> = Keyed::with_key_str("n", WafObject::from(3u64));
    let refused = generic.into_type::<WafString>().err().unwrap();
    assert_eq!(refused.key(), b"n");
    assert_eq!(refused.to_u64(), Some(3));
}

#[test]
fn escaping_of_bytes() {
    assert_eq!(fmt_bin_str(b"a \"b\"\\"), b"a \\\"b\\\"\\\\".to_vec());
    assert_eq!(fmt_bin_str(&[0x00, 0x7f, 0xff, b'~']), b"\\x00\\x7F\\xFF~".to_vec());
    assert_eq!(fmt_bin_str(b""), Vec::<u8>::new());
}

#[test]
fn debug_text_of_numbers() {
    let ft = |bits: u64| format!("{}", f64::from_bits(bits));
    let arr = WafArray::from(vec![i64::MIN.into(), u64::MAX.into(), 0u64.into(), (-7i64).into()]);
    assert_eq!(
        arr.debug_string(&ft),
        "WafArray[WafSigned(-9223372036854775808), WafUnsigned(18446744073709551615), WafUnsigned(0), WafSigned(-7)]"
    );
    assert_eq!(arr.debug_bytes(&ft), arr.debug_string(&ft).into_bytes());
}

#[test]
fn map_lookup_returns_first_match() {
    let map = WafMap::from(vec![entry("dup", 1u64.into()), entry("dup", 2u64.into())]);
    assert_eq!(map.get(b"dup").unwrap().to_u64(), Some(1));
    assert!(map.get(b"missing").is_none());
    let empty = WafMap::new(0);
    assert!(empty.get(b"").is_none());
}

#[test]
fn fresh_containers_hold_invalid_slots() {
    let arr = WafArray::new(3);
    assert_eq!(arr.len(), 3);
    assert!(!arr.at(2).is_valid());
    let map = WafMap::new(2);
    assert_eq!(map.len(), 2);
    assert_eq!(map.at(1).key(), b"");
    assert!(!map.at(1).is_valid());
}

#[test]
fn test_shallow_array() {
    let obj1: WafObject = WafString::from_text("foobar").into();
    let obj2: WafObject = WafArray::from(vec![1.into(), 2.into(), 3.into()]).into();
    let mut array = DdwafObjArrayShallow::new(3);
    array.set_slot(0, &obj1);
    array.set_slot(1, &obj2);
    assert_eq!(array.len(), 3);
    assert_eq!(array.slot(0).unwrap().to_str(), Some("foobar"));
    assert!(array.slot(2).is_none());

    let keyed = entry("k", 1u64.into());
    let mut map = DdwafObjMapShallow::new(1);
    map.set_slot(0, &keyed);
    assert_eq!(map.slot(0).unwrap().key(), b"k");
}
