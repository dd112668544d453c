use libddwaf::object::{
    Keyed, ObjectTypeError, WafArray, WafBool, WafFloat, WafMap, WafNull, WafObject,
    WafObjectType, WafSigned, WafString, WafUnsigned,
};

fn float_text(bits: u64) -> String {
    format!("{}", f64::from_bits(bits))
}

fn entry(key: &str, value: WafObject) -> Keyed<WafObject> {
    Keyed::with_key_str(key, value)
}

fn text(s: &str) -> WafObject {
    WafString::from_text(s).into()
}

#[test]
#[allow(clippy::float_cmp)]
fn object_defaults() {
    let obj = WafObject::default();
    assert!(!obj.is_valid());
    assert_eq!(obj.get_type(), WafObjectType::Invalid);

    let obj = WafSigned::default();
    assert!(obj.is_valid());
    assert_eq!(obj.value(), 0);

    let obj = WafUnsigned::default();
    assert!(obj.is_valid());
    assert_eq!(obj.value(), 0);

    let obj = WafString::default();
    assert!(obj.is_valid());
    assert_eq!(obj.as_str(), Ok(""));

    let obj = WafArray::default();
    assert!(obj.is_valid());
    assert_eq!(obj.len(), 0);

    let obj = WafMap::default();
    assert!(obj.is_valid());
    assert_eq!(obj.len(), 0);

    let obj = WafBool::default();
    assert!(obj.is_valid());
    assert!(!obj.value());

    let obj = WafFloat::default();
    assert!(obj.is_valid());
    assert_eq!(f64::from_bits(obj.value()), 0.0);

    let obj = WafNull::default();
    assert!(obj.is_valid());
}

#[test]
fn test_eq() {
    let invalid = WafObject::default();
    let string = WafString::default();
    let bool = WafBool::default();
    let float = WafFloat::default();
    let signed = WafSigned::default();
    let unsigned = WafUnsigned::default();
    let array = WafArray::default();
    let map = WafMap::default();
    let null = WafNull::default();

    assert!(invalid == invalid);
    assert!(string == string);
    assert!(bool == bool);
    assert!(float == float);
    assert!(signed == signed);
    assert!(unsigned == unsigned);
    assert!(array == array);
    assert!(map == map);
    assert!(null == null);

    assert!(invalid != string);
    assert!(invalid != bool);
    assert!(invalid != float);
    assert!(invalid != signed);
    assert!(invalid != unsigned);
    assert!(invalid != array);
    assert!(invalid != map);

    assert!(string != bool);
    assert!(string != float);
    assert!(string != signed);
    assert!(string != unsigned);
    assert!(string != array);
    assert!(string != map);

    assert!(bool != float);
    assert!(bool != signed);
    assert!(bool != unsigned);
    assert!(bool != array);
    assert!(bool != map);

    assert!(float != signed);
    assert!(float != unsigned);
    assert!(float != array);
    assert!(float != map);

    assert!(signed != unsigned);
    assert!(signed != array);
    assert!(signed != map);

    assert!(unsigned != array);
    assert!(unsigned != map);

    assert!(array != map);
}

#[test]
fn object_sample_mixed_object() {
    let mut root = WafArray::new(4);
    *root.at_mut(0) = 42_u64.into();
    *root.at_mut(1) = text("Hello, world!");
    *root.at_mut(2) = WafArray::new(1).into();
    *root.at_mut(2).as_type_mut::<WafArray>().unwrap().at_mut(0) = 123_u64.into();

    let mut map = WafMap::new(7);
    *map.at_mut(0) = entry("key 1", text("value 1"));
    *map.at_mut(1) = entry("key 2", (-2_i64).into());
    *map.at_mut(2) = entry("key 3", 2_u32.into());
    *map.at_mut(3) = entry("key 4", WafFloat::new(5.2_f64.to_bits()).into());
    *map.at_mut(4) = entry("key 5", ().into());
    *map.at_mut(5) = entry("key 6", true.into());
    *root.at_mut(3) = map.into();

    let res = root.debug_string(&float_text);
    assert_eq!(
        res,
        "WafArray[WafUnsigned(42), WafString(\"Hello, \
        world!\"), WafArray[WafUnsigned(123)], WafMap{\
        \"key 1\"=WafString(\"value 1\"), \"key 2\"=\
        WafSigned(-2), \"key 3\"=WafUnsigned(2), \
        \"key 4\"=WafFloat(5.2), \"key 5\"=WafNull, \
        \"key 6\"=WafBool(true), \"\"=WafInvalid}]"
    );
}

#[test]
fn object_sample_mixed_object_macro() {
    let root = WafArray::from(vec![
        42_u64.into(),
        text("Hello, world!"),
        WafArray::from(vec![123_u64.into()]).into(),
        WafMap::from(vec![
            entry("key 1", text("value 1")),
            entry("key 2", (-2_i64).into()),
            entry("key 3", 2_u64.into()),
            entry("key 4", WafFloat::new(5.2_f64.to_bits()).into()),
            entry("key 5", WafObject::from(())),
            entry("key 6", WafArray::new(0).into()),
            entry("key 7", WafArray::from(vec![true.into(), false.into()]).into()),
        ])
        .into(),
        WafArray::new(0).into(),
        WafMap::new(0).into(),
    ]);

    assert_eq!(
        root.debug_string(&float_text),
        "WafArray[WafUnsigned(42), WafString(\"Hello, \
        world!\"), WafArray[WafUnsigned(123)], WafMap{\
        \"key 1\"=WafString(\"value 1\"), \"key 2\"=\
        WafSigned(-2), \"key 3\"=WafUnsigned(2), \
        \"key 4\"=WafFloat(5.2), \"key 5\"=WafNull, \
        \"key 6\"=WafArray[], \"key 7\"=WafArray[WafBool(true), \
        WafBool(false)]}, WafArray[], WafMap{}]"
    );
}

#[test]
fn object_string_debug_value() {
    let obj = WafMap::from(vec![entry(r#"key"hey"#, text(r"value\n"))]);
    assert_eq!(
        obj.debug_string(&float_text),
        r#"WafMap{"key\"hey"=WafString("value\\n")}"#
    );
}

#[test]
#[allow(clippy::float_cmp)]
fn object_ddwaf_obj_from_conversions() {
    let obj: WafObject = 42u64.into();
    assert_eq!(obj.to_u64().unwrap(), 42u64);
    assert_eq!(obj.to_i64().unwrap(), 42i64);

    let obj: WafObject = (-42i64).into();
    assert_eq!(obj.to_i64().unwrap(), -42i64);

    let obj: WafObject = WafFloat::new(3.0_f64.to_bits()).into();
    assert_eq!(f64::from_bits(obj.to_f64_bits().unwrap()), 3.0f64);

    let obj: WafObject = true.into();
    assert!(obj.to_bool().unwrap());

    let obj: WafObject = ().into();
    assert_eq!(obj.get_type(), WafObjectType::Null);

    let obj: WafObject = text("Hello, world!");
    assert_eq!(obj.to_str(), Some("Hello, world!"));

    let obj: WafObject = WafString::new(&b"Hello, world!"[..]).into();
    assert_eq!(obj.to_str(), Some("Hello, world!"));
}

#[test]
fn object_ddwaf_obj_failed_conversions() {
    let mut obj: WafObject = ().into();
    assert!(obj.as_type::<WafBool>().is_none());
    assert!(obj.as_type_mut::<WafBool>().is_none());

    assert!(obj.to_bool().is_none());
    assert!(obj.to_u64().is_none());
    assert!(obj.to_i64().is_none());
    assert!(obj.to_f64_bits().is_none());
    assert!(obj.to_str().is_none());
}

#[test]
fn object_invalid_utf8() {
    let non_utf8_str: &[u8] = &[0x80];
    let obj: Keyed<WafString> = Keyed::with_key(non_utf8_str, WafString::new(non_utf8_str));
    assert_eq!(obj.debug_string(&float_text), r#""\x80"=WafString("\x80")"#);

    assert!(obj.key_str().is_err());
    assert!(obj.as_str().is_err());
}

#[test]
fn object_empty_key() {
    let map = WafMap::from(vec![entry("", 42_u64.into())]);
    let empty_slice: &[u8] = &[];
    assert_eq!(map.at(0).key(), empty_slice);
}

#[test]
fn object_keyed_obj_methods() {
    let mut map = WafMap::from(vec![entry("key", 42_u64.into())]);
    let elem = map.at_mut(0);
    assert!(elem.as_type::<WafBool>().is_none());
    let elem_cast = elem.as_type::<WafUnsigned>().unwrap();
    assert_eq!(elem_cast.value(), 42u64);

    assert!(elem.as_type_mut::<WafBool>().is_none());
    let elem_cast = elem.as_type_mut::<WafUnsigned>().unwrap();
    elem_cast.set_key_str("key 2");
    assert_eq!(elem_cast.key_str().unwrap(), "key 2");
}

#[test]
fn object_map_fetching_methods() {
    let mut map = WafMap::from(vec![entry("key1", 1u64.into()), entry("key2", 2u64.into())]);

    // index
    assert_eq!(map.at(0).key(), b"key1");
    // index mut
    map.at_mut(0).set_key(b"new key");
    assert_eq!(map.at(0).key(), b"new key");

    // get
    assert_eq!(map.get(b"key2").unwrap().to_u64().unwrap(), 2);
    assert!(map.get(b"bad key").is_none());
    // get_str
    assert_eq!(map.get_str("key2").unwrap().to_u64().unwrap(), 2);
    assert!(map.get_str("bad key").is_none());

    // get_mut
    map.get_mut(b"key2").unwrap().set_key_str("key3");
    let entry_k3 = map.get_str_mut("key3").unwrap();
    let new_entry: Keyed<WafUnsigned> = Keyed::with_key_str("key3", WafUnsigned::new(3));
    let _ = std::mem::replace(entry_k3, new_entry.into());
    assert_eq!(map.get_str("key3").unwrap().to_u64().unwrap(), 3);

    assert!(map.get_mut(b"bad key").is_none());

    // get_str_mut
    map.get_str_mut("key3").unwrap().set_key(b"key4");
    assert_eq!(map.get_str("key4").unwrap().to_u64().unwrap(), 3);

    assert!(map.get_str_mut("bad key").is_none());
}

#[test]
fn object_array_iteration() {
    let mut arr = WafArray::from(vec![
        1u64.into(),
        text("foo"),
        WafArray::from(vec![text("xyz")]).into(),
        ().into(),
    ]);

    for (i, elem) in arr.iter().enumerate() {
        match i {
            0 => assert_eq!(elem.to_u64().unwrap(), 1),
            1 => assert_eq!(elem.to_str().unwrap(), "foo"),
            2 => assert_eq!(elem.as_type::<WafArray>().unwrap().len(), 1),
            3 => assert_eq!(elem.get_type(), WafObjectType::Null),
            _ => unreachable!(),
        }
    }

    for (i, elem) in arr.iter_mut().iter_mut().enumerate() {
        match i {
            0 => assert_eq!(elem.to_u64().unwrap(), 1),
            1 => {
                assert_eq!(elem.to_str().unwrap(), "foo");
                let new_str: WafString = WafString::from_text("bar");
                let _ = std::mem::replace(elem, new_str.into());
            }
            2 => assert_eq!(elem.as_type::<WafArray>().unwrap().len(), 1),
            3 => assert_eq!(elem.get_type(), WafObjectType::Null),
            _ => unreachable!(),
        }
    }
    assert_eq!(arr.at(1).to_str().unwrap(), "bar");

    let mut it = arr.into_iter();
    let mut i = 0;
    while let Some(elem) = it.next() {
        match i {
            0 => assert_eq!(elem.to_u64().unwrap(), 1),
            1 => assert_eq!(elem.to_str().unwrap(), "bar"),
            2 => assert_eq!(elem.as_type::<WafArray>().unwrap().len(), 1),
            3 => assert_eq!(elem.get_type(), WafObjectType::Null),
            _ => unreachable!(),
        }
        i += 1;
    }
    assert_eq!(i, 4);
}

#[test]
fn object_map_iteration() {
    let mut map = WafMap::from(vec![
        entry("key1", 1u64.into()),
        entry("key2", text("foo")),
        entry("key3", WafArray::from(vec![text("xyz")]).into()),
        entry("key4", ().into()),
    ]);

    for (i, elem) in map.iter().enumerate() {
        match i {
            0 => {
                assert_eq!(elem.key_str().unwrap(), "key1");
                assert_eq!(elem.to_u64().unwrap(), 1);
            }
            1 => {
                assert_eq!(elem.key_str().unwrap(), "key2");
                assert_eq!(elem.to_str().unwrap(), "foo");
            }
            2 => {
                assert_eq!(elem.key_str().unwrap(), "key3");
                assert_eq!(elem.as_type::<WafArray>().unwrap().len(), 1);
            }
            3 => {
                assert_eq!(elem.key_str().unwrap(), "key4");
                assert_eq!(elem.get_type(), WafObjectType::Null);
            }
            _ => unreachable!(),
        }
    }

    for (i, elem) in map.iter_mut().iter_mut().enumerate() {
        match i {
            0 => assert_eq!(elem.to_u64().unwrap(), 1),
            1 => {
                assert_eq!(elem.key_str().unwrap(), "key2");
                assert_eq!(elem.to_str().unwrap(), "foo");
                let new_val: Keyed<WafString> =
                    Keyed::with_key_str("new_key", WafString::from_text("bar"));
                let _ = std::mem::replace(elem, new_val.into());
            }
            2 => assert_eq!(elem.key_str().unwrap(), "key3"),
            3 => assert_eq!(elem.key_str().unwrap(), "key4"),
            _ => unreachable!(),
        }
    }

    assert_eq!(map.at(1).key_str().unwrap(), "new_key");
    assert_eq!(map.at(1).to_str().unwrap(), "bar");

    let mut it = map.into_iter();
    let mut i = 0;
    while let Some(elem) = it.next() {
        match i {
            0 => assert_eq!(elem.key_str().unwrap(), "key1"),
            1 => assert_eq!(elem.key_str().unwrap(), "new_key"),
            2 => assert_eq!(elem.key_str().unwrap(), "key3"),
            3 => assert_eq!(elem.key_str().unwrap(), "key4"),
            _ => unreachable!(),
        }
        i += 1;
    }
    assert_eq!(i, 4);
}

#[test]
fn object_partial_iteration() {
    let arr = WafArray::from(vec![1u64.into(), text("foo")]);
    let mut it = arr.into_iter();
    while let Some(elem) = it.next() {
        if elem.get_type() == WafObjectType::Unsigned {
            break;
        }
    }
    assert_eq!(it.len(), 1);

    let map = WafMap::from(vec![entry("key1", 1u64.into()), entry("key2", text("foo"))]);
    let mut it = map.into_iter();
    while let Some(elem) = it.next() {
        if elem.get_type() == WafObjectType::Unsigned {
            break;
        }
    }
    assert_eq!(it.len(), 1);
}

#[test]
fn object_iteration_of_empty_containers() {
    let mut arr: WafArray = WafArray::new(0);
    assert!(arr.iter().next().is_none());
    assert!(arr.iter_mut().iter_mut().next().is_none());
    assert!(arr.into_iter().next().is_none());

    let mut map = WafMap::new(0);
    assert!(map.iter().next().is_none());
    assert!(map.iter_mut().iter_mut().next().is_none());
    assert!(map.into_iter().next().is_none());
}

#[test]
fn object_iteration_of_keyed_array() {
    let mut map = WafMap::from(vec![entry(
        "key1",
        WafArray::from(vec![1u64.into(), text("foo")]).into(),
    )]);
    let keyed_array: &mut Keyed<WafArray> = map.at_mut(0).as_type_mut().unwrap();

    for (i, elem) in keyed_array.iter().enumerate() {
        match i {
            0 => assert_eq!(elem.to_u64().unwrap(), 1),
            1 => assert_eq!(elem.to_str().unwrap(), "foo"),
            _ => unreachable!(),
        }
    }

    for (i, elem) in keyed_array.iter_mut().iter_mut().enumerate() {
        match i {
            0 => assert_eq!(elem.to_u64().unwrap(), 1),
            1 => {
                assert_eq!(elem.to_str().unwrap(), "foo");
                let new_str: WafString = WafString::from_text("bar");
                let _ = std::mem::replace(elem, new_str.into());
            }
            _ => unreachable!(),
        }
    }

    assert_eq!(keyed_array.at(1).to_str().unwrap(), "bar");

    let mut it = std::mem::take(keyed_array).into_iter();
    let mut i = 0;
    while let Some(elem) = it.next() {
        match i {
            0 => assert_eq!(elem.to_u64().unwrap(), 1),
            1 => assert_eq!(elem.to_str().unwrap(), "bar"),
            _ => unreachable!(),
        }
        i += 1;
    }
    assert_eq!(i, 2);
}

#[test]
fn object_iteration_of_keyed_map() {
    let mut map = WafMap::from(vec![entry(
        "key1",
        WafMap::from(vec![entry("key2", 1u64.into())]).into(),
    )]);
    let keyed_map: &mut Keyed<WafMap> = map.at_mut(0).as_type_mut().unwrap();

    for (i, elem) in keyed_map.iter().enumerate() {
        match i {
            0 => {
                assert_eq!(elem.key_str().unwrap(), "key2");
                assert_eq!(elem.to_u64().unwrap(), 1);
            }
            _ => unreachable!(),
        }
    }

    for (i, elem) in keyed_map.iter_mut().iter_mut().enumerate() {
        match i {
            0 => {
                assert_eq!(elem.key_str().unwrap(), "key2");
                assert_eq!(elem.to_u64().unwrap(), 1);
                let new_val: Keyed<WafString> =
                    Keyed::with_key_str("new_key", WafString::from_text("bar"));
                let _ = std::mem::replace(elem, new_val.into());
            }
            _ => unreachable!(),
        }
    }
    assert_eq!(keyed_map.at(0).key_str().unwrap(), "new_key");
    assert_eq!(keyed_map.at(0).to_str().unwrap(), "bar");

    let mut it = std::mem::take(keyed_map).into_iter();
    let mut i = 0;
    while let Some(elem) = it.next() {
        match i {
            0 => {
                assert_eq!(elem.key_str().unwrap(), "new_key");
                assert_eq!(elem.to_str().unwrap(), "bar");
            }
            _ => unreachable!(),
        }
        i += 1;
    }
    assert_eq!(i, 1);
}

#[test]
#[allow(clippy::float_cmp)]
fn object_from_implementations() {
    assert_eq!(WafSigned::from(-123i64).value(), -123);
    assert_eq!(WafSigned::from(-123i32).value(), -123);

    assert_eq!(WafUnsigned::from(123u64).value(), 123);
    assert_eq!(WafUnsigned::from(123u32).value(), 123);

    assert_eq!(
        WafString::from_text("Hello, world!").as_str(),
        Ok("Hello, world!")
    );
    assert_eq!(
        WafString::new(b"Hello, world!").as_str(),
        Ok("Hello, world!")
    );

    let arr = WafArray::from(vec![1u64.into(), 2u64.into(), 3u64.into()]);
    for (i, elem) in arr.iter().enumerate() {
        assert_eq!(elem.to_u64().unwrap(), i as u64 + 1);
    }

    let map = WafMap::from(vec![entry("1", 1u64.into()), entry("2", 2u64.into())]);
    let mut it = map.into_iter();
    while let Some(elem) = it.next() {
        let key = elem.key_str().unwrap();
        let val = elem.to_u64().unwrap();
        assert_eq!(key, format!("{val}"));
    }

    assert!(WafBool::from(true).value());
    assert!(!WafBool::from(false).value());

    assert_eq!(f64::from_bits(WafFloat::new(1.0_f64.to_bits()).value()), 1.0);

    assert!(WafNull::from(()).is_valid());
}

#[test]
fn object_try_from_implementations() {
    assert!(matches!(
        WafSigned::try_from(WafObject::default()),
        Err(ObjectTypeError {
            expected: WafObjectType::Signed,
            actual: WafObjectType::Invalid
        })
    ));
    assert!(matches!(
        WafUnsigned::try_from(WafObject::default()),
        Err(ObjectTypeError {
            expected: WafObjectType::Unsigned,
            actual: WafObjectType::Invalid
        })
    ));
    assert!(matches!(
        WafString::try_from(WafObject::default()),
        Err(ObjectTypeError {
            expected: WafObjectType::String,
            actual: WafObjectType::Invalid
        })
    ));
    assert!(matches!(
        WafArray::try_from(WafObject::default()),
        Err(ObjectTypeError {
            expected: WafObjectType::Array,
            actual: WafObjectType::Invalid
        })
    ));
    assert!(matches!(
        WafMap::try_from(WafObject::default()),
        Err(ObjectTypeError {
            expected: WafObjectType::Mapping,
            actual: WafObjectType::Invalid
        })
    ));
    assert!(matches!(
        WafBool::try_from(WafObject::default()),
        Err(ObjectTypeError {
            expected: WafObjectType::Bool,
            actual: WafObjectType::Invalid
        })
    ));
    assert!(matches!(
        WafFloat::try_from(WafObject::default()),
        Err(ObjectTypeError {
            expected: WafObjectType::Float,
            actual: WafObjectType::Invalid
        })
    ));
    assert!(matches!(
        WafNull::try_from(WafObject::default()),
        Err(ObjectTypeError {
            expected: WafObjectType::Null,
            actual: WafObjectType::Invalid
        })
    ));

    let obj = WafObject::from(42u64);
    assert!(WafArray::try_from(obj).is_err());
    let obj = WafObject::from(42u64);
    assert!(WafUnsigned::try_from(obj).is_ok());

    let obj = WafObject::from(42);
    assert!(WafUnsigned::try_from(obj).is_err());
    let obj = WafObject::from(42);
    assert!(WafSigned::try_from(obj).is_ok());

    let obj = WafObject::from(WafFloat::new(42.0_f64.to_bits()));
    assert!(WafSigned::try_from(obj).is_err());
    let obj = WafObject::from(WafFloat::new(42.0_f64.to_bits()));
    assert!(WafFloat::try_from(obj).is_ok());

    let obj = WafObject::from(true);
    assert!(WafFloat::try_from(obj).is_err());
    let obj = WafObject::from(true);
    assert!(WafBool::try_from(obj).is_ok());

    let obj = WafObject::from(());
    assert!(WafBool::try_from(obj).is_err());
    let obj = WafObject::from(());
    assert!(WafNull::try_from(obj).is_ok());

    let obj = text("foobar");
    assert!(WafNull::try_from(obj).is_err());
    let obj = text("foobar");
    assert!(WafString::try_from(obj).is_ok());

    let obj: WafObject = WafMap::new(0).into();
    assert!(WafString::try_from(obj).is_err());
    let obj: WafObject = WafMap::new(0).into();
    assert!(WafMap::try_from(obj).is_ok());

    let obj: WafObject = WafArray::new(0).into();
    assert!(WafMap::try_from(obj).is_err());
    let obj: WafObject = WafArray::new(0).into();
    assert!(WafArray::try_from(obj).is_ok());
}
