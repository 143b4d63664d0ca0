use neon_serde::de::{Content, Deserializer, EnumAccess, ObjectAccessor};
use neon_serde::error::{Error, ErrorKind, RangeError};
use neon_serde::result::{ResultExt, Throw};
use neon_serde::runtime::{Env, Slot, Status, Value, ValueType};
use neon_serde::se::{ArraySerializer, ObjectSerializer, Serializer};

fn napi(e: &Error) -> Option<Status> {
    match e.kind {
        ErrorKind::Napi(s) => Some(s),
        _ => None,
    }
}

fn string_of(env: &Env, v: Value) -> String {
    Deserializer::new(v).deserialize_string(env).unwrap()
}

fn object_with_keys(env: &mut Env, keys: &[&str]) -> Value {
    let ser = Serializer::new();
    let mut obj = ser.serialize_map(env, None).unwrap();
    for (i, k) in keys.iter().enumerate() {
        let key = ser.serialize_str(env, k).unwrap();
        let value = ser.serialize_f64(env, (i as f64).to_bits()).unwrap();
        obj.serialize_entry(env, key, value).unwrap();
    }
    obj.end().unwrap()
}

#[test]
fn bool_round_trip() {
    let mut env = Env::new();
    let v = Serializer::new().serialize_bool(&mut env, true).unwrap();
    assert_eq!(Deserializer::new(v).deserialize_bool(&env).unwrap(), true);
    let v = Serializer::new().serialize_bool(&mut env, false).unwrap();
    assert_eq!(Deserializer::new(v).deserialize_bool(&env).unwrap(), false);
}

#[test]
fn string_and_char_round_trip() {
    let mut env = Env::new();
    let v = Serializer::new().serialize_str(&mut env, "pokémon").unwrap();
    assert_eq!(string_of(&env, v), "pokémon");
    let c = 'x'.to_string();
    let v = Serializer::new().serialize_str(&mut env, &c).unwrap();
    assert_eq!(string_of(&env, v), "x");
}

#[test]
fn bytes_round_trip_as_a_copy() {
    let mut env = Env::new();
    let bytes = vec![0u8, 1, 2, 255];
    let v = Serializer::new().serialize_bytes(&mut env, &bytes).unwrap();
    assert_eq!(Deserializer::new(v).deserialize_byte_buf(&env).unwrap(), bytes);
    assert!(matches!(&env.slots[v.index], Slot::ArrayBuffer(b) if *b == bytes));
}

#[test]
fn number_round_trip_exact_double() {
    let mut env = Env::new();
    for x in [0.0f64, -1.5, 9007199254740992.0, 1e300] {
        let v = Serializer::new().serialize_f64(&mut env, x.to_bits()).unwrap();
        let bits = Deserializer::new(v).deserialize_f64(&env).unwrap();
        assert_eq!(f64::from_bits(bits), x);
    }
}

#[test]
fn sequence_round_trip() {
    let mut env = Env::new();
    let ser = Serializer::new();
    let mut seq = ser.serialize_seq(&mut env, Some(3)).unwrap();
    for x in [1.0f64, 2.0, 3.0] {
        let e = ser.serialize_f64(&mut env, x.to_bits()).unwrap();
        seq.serialize_element(&mut env, e).unwrap();
    }
    let arr = seq.end().unwrap();
    let mut acc = Deserializer::new(arr).deserialize_seq(&env).unwrap();
    assert_eq!(acc.size_hint(), 3);
    let mut out = Vec::new();
    while let Some(e) = acc.next(&mut env).unwrap() {
        out.push(f64::from_bits(Deserializer::new(e).deserialize_f64(&env).unwrap()));
    }
    assert_eq!(out, vec![1.0, 2.0, 3.0]);
    assert_eq!(acc.size_hint(), 0);
}

#[test]
fn sequence_of_unknown_length_grows() {
    let mut env = Env::new();
    let ser = Serializer::new();
    let mut seq = ser.serialize_seq(&mut env, None).unwrap();
    for b in [true, false] {
        let e = ser.serialize_bool(&mut env, b).unwrap();
        seq.serialize_element(&mut env, e).unwrap();
    }
    let arr = seq.end().unwrap();
    assert_eq!(env.get_array_len(arr).unwrap(), 2);
    let second = env.get_array_element(arr, 1).unwrap();
    assert_eq!(Deserializer::new(second).deserialize_bool(&env).unwrap(), false);
}

#[test]
fn element_offset_past_u32_is_a_range_error() {
    let mut env = Env::new();
    let ser = Serializer::new();
    let arr = ser.serialize_seq(&mut env, Some(0)).unwrap().end().unwrap();
    let e = ser.serialize_bool(&mut env, true).unwrap();
    let mut s = ArraySerializer { serializer: ser, value: arr, offset: u32::MAX as usize + 1 };
    let err = s.serialize_element(&mut env, e).unwrap_err();
    assert!(matches!(err.kind, ErrorKind::UsizeError(n) if n == u32::MAX as usize + 1));
    assert_eq!(err.message(), "conversion resulted in positive overflow");
}

#[test]
fn element_written_at_its_offset() {
    let mut env = Env::new();
    let ser = Serializer::new();
    let arr = ser.serialize_seq(&mut env, Some(5)).unwrap().end().unwrap();
    let e = ser.serialize_bool(&mut env, true).unwrap();
    let mut s = ArraySerializer { serializer: ser, value: arr, offset: 3 };
    s.serialize_element(&mut env, e).unwrap();
    assert_eq!(s.offset, 4);
    assert_eq!(env.get_array_element(arr, 3).unwrap(), e);
    let hole = env.get_array_element(arr, 2).unwrap();
    assert_eq!(env.typeof_value(hole).unwrap(), ValueType::Undefined);
}

#[test]
fn map_round_trip() {
    let mut env = Env::new();
    let obj = object_with_keys(&mut env, &["x", "y"]);
    let mut acc = Deserializer::new(obj).deserialize_map(&mut env).unwrap();
    assert_eq!(acc.size_hint(), 2);
    let mut seen = Vec::new();
    while let Some(k) = acc.next_key(&mut env).unwrap() {
        let key = k.deserialize_string(&env).unwrap();
        let v = acc.next_value(&mut env).unwrap();
        seen.push((key, f64::from_bits(v.deserialize_f64(&env).unwrap())));
    }
    assert_eq!(seen, vec![("x".to_string(), 0.0), ("y".to_string(), 1.0)]);
}

#[test]
fn map_key_then_value_protocol() {
    let mut env = Env::new();
    let ser = Serializer::new();
    let mut obj = ser.serialize_map(&mut env, Some(1)).unwrap();
    let k = ser.serialize_str(&mut env, "k").unwrap();
    let v = ser.serialize_bool(&mut env, true).unwrap();
    obj.serialize_key(k).unwrap();
    obj.serialize_value(&mut env, v).unwrap();
    let o = obj.end().unwrap();
    let key = env.create_string("k").unwrap();
    let got = env.get_property(o, key).unwrap();
    assert_eq!(Deserializer::new(got).deserialize_bool(&env).unwrap(), true);
}

#[test]
fn value_before_key_is_missing_key() {
    let mut env = Env::new();
    let obj = object_with_keys(&mut env, &["a"]);
    let mut acc = ObjectAccessor::new(&mut env, obj).unwrap();
    let before = env.slots.len();
    let err = acc.next_value(&mut env).unwrap_err();
    assert!(matches!(err.kind, ErrorKind::MissingKey));
    assert_eq!(err.message(), "MissingKey");
    assert_eq!(env.slots.len(), before);

    let ser = Serializer::new();
    let mut out = ser.serialize_map(&mut env, None).unwrap();
    let v = ser.serialize_bool(&mut env, true).unwrap();
    let err = out.serialize_value(&mut env, v).unwrap_err();
    assert!(matches!(err.kind, ErrorKind::MissingKey));
    let o = ObjectSerializer { serializer: ser, value: out.value, key: None };
    assert_eq!(o.end().unwrap(), out.value);
}

#[test]
fn value_read_twice_for_one_key_is_missing_key() {
    let mut env = Env::new();
    let obj = object_with_keys(&mut env, &["a"]);
    let mut acc = ObjectAccessor::new(&mut env, obj).unwrap();
    acc.next_key(&mut env).unwrap().unwrap();
    acc.next_value(&mut env).unwrap();
    assert!(matches!(acc.next_value(&mut env).unwrap_err().kind, ErrorKind::MissingKey));
}

#[test]
fn key_set_is_fixed_when_accessor_is_made() {
    let mut env = Env::new();
    let obj = object_with_keys(&mut env, &["a", "b", "c"]);
    let mut acc = ObjectAccessor::new(&mut env, obj).unwrap();
    let mut keys = Vec::new();
    let mut values = Vec::new();
    while let Some(k) = acc.next_key(&mut env).unwrap() {
        let key = k.deserialize_string(&env).unwrap();
        if key == "a" {
            let c = env.create_string("c").unwrap();
            env.delete_property(obj, c).unwrap();
        }
        let v = acc.next_value(&mut env).unwrap();
        values.push(env.typeof_value(v.value).unwrap());
        keys.push(key);
    }
    assert_eq!(keys, vec!["a", "b", "c"]);
    assert_eq!(values, vec![ValueType::Number, ValueType::Number, ValueType::Undefined]);
}

#[test]
fn option_accepts_null_and_undefined() {
    let mut env = Env::new();
    let null = Serializer::new().serialize_none(&mut env).unwrap();
    let undefined = env.get_undefined().unwrap();
    let one = Serializer::new().serialize_f64(&mut env, 1.0f64.to_bits()).unwrap();
    assert_eq!(Deserializer::new(null).deserialize_option(&env).unwrap(), None);
    assert_eq!(Deserializer::new(undefined).deserialize_option(&env).unwrap(), None);
    assert_eq!(
        Deserializer::new(one).deserialize_option(&env).unwrap(),
        Some(Deserializer::new(one))
    );
}

#[test]
fn unit_accepts_null_and_undefined_only() {
    let mut env = Env::new();
    let null = Serializer::new().serialize_unit(&mut env).unwrap();
    let undefined = env.get_undefined().unwrap();
    let t = env.create_bool(true).unwrap();
    assert!(Deserializer::new(null).deserialize_unit(&env).is_ok());
    assert!(Deserializer::new(undefined).deserialize_unit(&env).is_ok());
    let err = Deserializer::new(t).deserialize_unit(&env).unwrap_err();
    assert!(matches!(err.kind, ErrorKind::ExpectedNull));
    assert_eq!(err.message(), "ExpectedNull");
}

#[test]
fn unit_variant_is_its_name() {
    let mut env = Env::new();
    let v = Serializer::new().serialize_unit_variant(&mut env, "Red").unwrap();
    assert_eq!(env.typeof_value(v).unwrap(), ValueType::String);
    assert_eq!(string_of(&env, v), "Red");
    match Deserializer::new(v).deserialize_enum(&mut env).unwrap() {
        EnumAccess::Unit(name) => assert_eq!(name, "Red"),
        other => panic!("unexpected {:?}", other),
    }
}

#[test]
fn struct_variant_is_a_one_key_object() {
    let mut env = Env::new();
    let ser = Serializer::new();
    let mut w = ser.serialize_struct_variant(&mut env, "Circle", 1).unwrap();
    let k = ser.serialize_str(&mut env, "radius").unwrap();
    let r = ser.serialize_f64(&mut env, 2.0f64.to_bits()).unwrap();
    w.serialize_field(&mut env, k, r).unwrap();
    let v = w.end().unwrap();
    assert_eq!(env.typeof_value(v).unwrap(), ValueType::Object);
    match Deserializer::new(v).deserialize_enum(&mut env).unwrap() {
        EnumAccess::Tagged(name, content) => {
            assert_eq!(name, "Circle");
            let mut acc = content.deserialize_map(&mut env).unwrap();
            let key = acc.next_key(&mut env).unwrap().unwrap();
            assert_eq!(key.deserialize_string(&env).unwrap(), "radius");
            let value = acc.next_value(&mut env).unwrap();
            assert_eq!(f64::from_bits(value.deserialize_f64(&env).unwrap()), 2.0);
            assert!(acc.next_key(&mut env).unwrap().is_none());
        }
        other => panic!("unexpected {:?}", other),
    }
}

#[test]
fn newtype_and_tuple_variants_round_trip() {
    let mut env = Env::new();
    let ser = Serializer::new();
    let inner = ser.serialize_bool(&mut env, true).unwrap();
    let v = ser.serialize_newtype_variant(&mut env, "Flag", inner).unwrap();
    match Deserializer::new(v).deserialize_enum(&mut env).unwrap() {
        EnumAccess::Tagged(name, content) => {
            assert_eq!(name, "Flag");
            assert_eq!(content.deserialize_bool(&env).unwrap(), true);
            assert!(matches!(content.unit_variant().unwrap_err().kind, ErrorKind::ExpectedString));
        }
        other => panic!("unexpected {:?}", other),
    }

    let mut t = ser.serialize_tuple_variant(&mut env, "Pair", 2).unwrap();
    for s in ["l", "r"] {
        let e = ser.serialize_str(&mut env, s).unwrap();
        t.serialize_field(&mut env, e).unwrap();
    }
    let v = t.end().unwrap();
    match Deserializer::new(v).deserialize_enum(&mut env).unwrap() {
        EnumAccess::Tagged(name, content) => {
            assert_eq!(name, "Pair");
            let mut acc = content.deserialize_seq(&env).unwrap();
            let a = acc.next(&mut env).unwrap().unwrap();
            let b = acc.next(&mut env).unwrap().unwrap();
            assert_eq!(string_of(&env, a), "l");
            assert_eq!(string_of(&env, b), "r");
            assert_eq!(acc.next(&mut env).unwrap(), None);
        }
        other => panic!("unexpected {:?}", other),
    }
}

#[test]
fn enum_from_empty_object_or_number_fails() {
    let mut env = Env::new();
    let o = env.create_object().unwrap();
    let err = Deserializer::new(o).deserialize_enum(&mut env).unwrap_err();
    assert_eq!(napi(&err), Some(Status::NameExpected));
    let n = env.create_double(1.0f64.to_bits()).unwrap();
    let err = Deserializer::new(n).deserialize_enum(&mut env).unwrap_err();
    assert_eq!(napi(&err), Some(Status::ObjectExpected));
}

#[test]
fn any_dispatches_on_kind() {
    let mut env = Env::new();
    let null = env.get_null().unwrap();
    let b = env.create_bool(true).unwrap();
    let n = env.create_double(0.5f64.to_bits()).unwrap();
    let s = env.create_string("hi").unwrap();
    let o = object_with_keys(&mut env, &["k"]);
    assert!(matches!(Deserializer::new(null).deserialize_any(&mut env).unwrap(), Content::Unit));
    assert!(matches!(Deserializer::new(b).deserialize_any(&mut env).unwrap(), Content::Bool(true)));
    assert!(matches!(Deserializer::new(n).deserialize_any(&mut env).unwrap(), Content::F64(x) if x == 0.5f64.to_bits()));
    assert!(matches!(Deserializer::new(s).deserialize_any(&mut env).unwrap(), Content::String(t) if t == "hi"));
    match Deserializer::new(o).deserialize_any(&mut env).unwrap() {
        Content::Object(acc) => assert_eq!(acc.size_hint(), 1),
        other => panic!("unexpected {:?}", other),
    }
}

#[test]
fn any_rejects_functions_and_symbols() {
    let mut env = Env::new();
    let f = env.create_function().unwrap();
    let sym = env.create_symbol().unwrap();
    let err = Deserializer::new(f).deserialize_any(&mut env).unwrap_err();
    assert!(matches!(err.kind, ErrorKind::UnsupportedType(ValueType::Function)));
    assert_eq!(err.message(), "UnsupportedType(Function)");
    let err = Deserializer::new(sym).deserialize_any(&mut env).unwrap_err();
    assert!(matches!(err.kind, ErrorKind::UnsupportedType(ValueType::Symbol)));
}

#[test]
fn wrong_kind_is_a_runtime_status() {
    let mut env = Env::new();
    let n = env.create_double(1.0f64.to_bits()).unwrap();
    let err = Deserializer::new(n).deserialize_bool(&env).unwrap_err();
    assert_eq!(napi(&err), Some(Status::BooleanExpected));
    assert_eq!(err.message(), "Napi(BooleanExpected)");
    assert_eq!(napi(&Deserializer::new(n).deserialize_string(&env).unwrap_err()), Some(Status::StringExpected));
    assert_eq!(napi(&Deserializer::new(n).deserialize_seq(&env).unwrap_err()), Some(Status::ArrayExpected));
    assert_eq!(napi(&Deserializer::new(n).deserialize_byte_buf(&env).unwrap_err()), Some(Status::InvalidArg));
    assert_eq!(napi(&Deserializer::new(n).deserialize_map(&mut env).unwrap_err()), Some(Status::ObjectExpected));
    let b = env.create_bool(true).unwrap();
    assert_eq!(napi(&Deserializer::new(b).deserialize_f64(&env).unwrap_err()), Some(Status::NumberExpected));
    let stale = Value { index: 1000 };
    assert_eq!(napi(&Deserializer::new(stale).deserialize_bool(&env).unwrap_err()), Some(Status::InvalidArg));
}

#[test]
fn pending_exception_fails_everything() {
    let mut env = Env::new();
    let b = env.create_bool(true).unwrap();
    env.throw_error("boom".to_string());
    let err = Deserializer::new(b).deserialize_bool(&env).unwrap_err();
    assert!(err.is_exception_pending());
    assert_eq!(err.message(), "Napi(PendingException)");
    let err = Serializer::new().serialize_bool(&mut env, true).unwrap_err();
    assert!(err.is_exception_pending());
    assert_eq!(env.take_exception(), Some("boom".to_string()));
    assert!(Serializer::new().serialize_bool(&mut env, true).is_ok());
}

#[test]
fn too_long_array_is_refused() {
    let mut env = Env::new();
    let err = Serializer::new().serialize_seq(&mut env, Some(u32::MAX as usize + 1)).unwrap_err();
    assert_eq!(napi(&err), Some(Status::InvalidArg));
    assert_eq!(env.slots.len(), 0);
}

#[test]
fn or_throw_passes_success_through() {
    let mut env = Env::new();
    let r: Result<u8, Error> = Ok(7);
    assert_eq!(r.or_throw(&mut env), Ok(7));
    assert!(!env.is_exception_pending());
}

#[test]
fn or_throw_raises_a_new_exception_with_the_text() {
    let mut env = Env::new();
    let r: Result<u8, Error> = Err(Error::expected_null());
    assert_eq!(r.or_throw(&mut env), Err(Throw));
    assert_eq!(env.take_exception(), Some("ExpectedNull".to_string()));
    assert_eq!(Throw.message(), "JavaScript Error");
}

#[test]
fn or_throw_keeps_a_pending_exception() {
    let mut env = Env::new();
    env.throw_error("original".to_string());
    let r: Result<u8, Error> = Err(Error::from_status(Status::PendingException));
    assert_eq!(r.or_throw(&mut env), Err(Throw));
    assert_eq!(env.take_exception(), Some("original".to_string()));
}

#[test]
fn custom_error_text() {
    let e = Error::custom("unknown variant `Blue`".to_string());
    assert_eq!(e.message(), "unknown variant `Blue`");
    assert!(!e.is_exception_pending());
}

#[test]
fn i64_max_does_not_widen_to_double() {
    let r = <f64 as conv::ValueFrom<i64>>::value_from(i64::MAX);
    assert!(r.is_err());
    let e = Error::from_i64_error(RangeError::PosOverflow(i64::MAX));
    assert_eq!(e.message(), "conversion resulted in positive overflow");
}

#[test]
fn double_to_i32_rounds_and_checks_range() {
    let mut env = Env::new();
    let ser = Serializer::new();
    let v = ser.serialize_f64(&mut env, 3.7f64.to_bits()).unwrap();
    let bits = Deserializer::new(v).deserialize_f64(&env).unwrap();
    let n = <i32 as conv::ApproxFrom<f64, conv::RoundToNearest>>::approx_from(f64::from_bits(bits));
    assert_eq!(n.unwrap(), 4);

    let big = ser.serialize_f64(&mut env, (i64::MAX as f64).to_bits()).unwrap();
    let bits = Deserializer::new(big).deserialize_f64(&env).unwrap();
    let n = <i32 as conv::ApproxFrom<f64, conv::RoundToNearest>>::approx_from(f64::from_bits(bits));
    assert!(matches!(n, Err(conv::FloatError::PosOverflow(_))));
    let e = Error::from_float_range_error(false, bits);
    assert_eq!(e.message(), "conversion resulted in positive overflow");
}

#[test]
fn bigint_round_trip() {
    let mut env = Env::new();
    let v = neon_serde::bigint::new_bigint(&mut env, -42);
    assert_eq!(neon_serde::bigint::value_i64(&env, v), -42);
    assert_eq!(env.typeof_value(v).unwrap(), ValueType::BigInt);
    let err = Deserializer::new(v).deserialize_any(&mut env).unwrap_err();
    assert!(matches!(err.kind, ErrorKind::UnsupportedType(ValueType::BigInt)));
    let n = env.create_double(1.0f64.to_bits()).unwrap();
    assert_eq!(env.get_value_bigint_int64(n), Err(Status::BigintExpected));
}

#[test]
fn string_helper_makes_a_string() {
    let mut env = Env::new();
    let v = neon_serde::runtime::string(&mut env, "abc");
    assert_eq!(string_of(&env, v), "abc");
}

#[test]
fn set_property_replaces_existing_key() {
    let mut env = Env::new();
    let o = env.create_object().unwrap();
    let k1 = env.create_string("k").unwrap();
    let a = env.create_bool(true).unwrap();
    let k2 = env.create_string("k").unwrap();
    let b = env.create_bool(false).unwrap();
    env.object_set(o, k1, a).unwrap();
    env.object_set(o, k2, b).unwrap();
    let mut acc = ObjectAccessor::new(&mut env, o).unwrap();
    assert_eq!(acc.size_hint(), 1);
    acc.next_key(&mut env).unwrap().unwrap();
    let v = acc.next_value(&mut env).unwrap();
    assert_eq!(v.deserialize_bool(&env).unwrap(), false);
    let n = env.create_double(0).unwrap();
    assert_eq!(env.object_set(o, n, a), Err(Status::NameExpected));
    assert_eq!(env.object_set(n, k1, a), Err(Status::ObjectExpected));
}
