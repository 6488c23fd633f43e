use artichoke_backend::types::{Ruby, Rust};
use artichoke_backend::warn::Warn;
use artichoke_backend::{Artichoke, UnboxError, Value};

#[test]
fn byte_strings_round_trip() {
    let mut interp = Artichoke::new();
    let input = vec![b"abc".to_vec(), Vec::new(), vec![0u8, 255]];
    let v = interp.convert_mut_byte_strings(input.clone());
    assert_eq!(interp.try_convert_byte_strings(v).unwrap(), input);
    assert_eq!(interp.heap.len(), 4);
}

#[test]
fn optional_byte_strings_round_trip() {
    let mut interp = Artichoke::new();
    let input = vec![Some(b"x".to_vec()), None, Some(Vec::new())];
    let v = interp.convert_mut_optional_byte_strings(input.clone());
    assert_eq!(interp.try_convert_optional_byte_strings(v).unwrap(), input);
}

#[test]
fn ints_round_trip() {
    let mut interp = Artichoke::new();
    let v = interp.convert_mut_ints(&[1, -2, i64::MAX]);
    assert_eq!(interp.try_convert_ints(v).unwrap(), vec![1, -2, i64::MAX]);
}

#[test]
fn values_and_options_convert() {
    let mut interp = Artichoke::new();
    let v = interp.convert_mut_optional_values(&[Some(Value::Fixnum(1)), None]);
    assert_eq!(interp.try_convert_values(v).unwrap(), vec![Value::Fixnum(1), Value::Nil]);
    let w = interp.convert_mut_values(vec![Value::Bool(true)]);
    assert_eq!(interp.try_convert_values(w).unwrap(), vec![Value::Bool(true)]);
    assert_eq!(interp.convert_option(None), Value::Nil);
    assert_eq!(interp.convert_bool(false), Value::Bool(false));
    assert_eq!(interp.convert_int(-9), Value::Fixnum(-9));
}

#[test]
fn try_convert_rejects_wrong_tags() {
    let mut interp = Artichoke::new();
    assert_eq!(
        interp.try_convert_values(Value::Fixnum(1)),
        Err(UnboxError { expected: Rust::Vec, actual: Ruby::Fixnum })
    );
    let s = interp.convert_mut_bytes(b"hi".to_vec());
    assert_eq!(interp.try_convert_bytes(s).unwrap(), b"hi".to_vec());
    assert_eq!(
        interp.try_convert_ints(s),
        Err(UnboxError { expected: Rust::Vec, actual: Ruby::String })
    );
    let mixed = interp.convert_mut_values(vec![Value::Fixnum(1), s, Value::Nil]);
    assert_eq!(
        interp.try_convert_ints(mixed),
        Err(UnboxError { expected: Rust::SignedInt, actual: Ruby::String })
    );
    assert_eq!(
        interp.try_convert_byte_strings(mixed),
        Err(UnboxError { expected: Rust::Bytes, actual: Ruby::Fixnum })
    );
    assert_eq!(interp.try_convert_int(Value::Nil), Err(UnboxError { expected: Rust::SignedInt, actual: Ruby::Nil }));
    assert_eq!(interp.try_convert_optional_bytes(Value::Nil).unwrap(), None);
}

#[test]
fn tags_and_names() {
    let mut interp = Artichoke::new();
    let s = interp.convert_mut_bytes(Vec::new());
    let a = interp.convert_mut_values(Vec::new());
    assert_eq!(interp.ruby_type(s), Ruby::String);
    assert_eq!(interp.ruby_type(a), Ruby::Data);
    assert_eq!(interp.ruby_type(Value::Object(99)), Ruby::Unreachable);
    assert_eq!(interp.pretty_name(Value::Nil), "nil");
    assert_eq!(interp.pretty_name(Value::Bool(true)), "true");
    assert_eq!(interp.pretty_name(a), "Array");
    assert!(interp.is_frozen(Value::Fixnum(1)));
    assert!(!interp.is_frozen(a));
}

#[test]
fn class_names() {
    assert_eq!(Ruby::Array.class_name(), "Array");
    assert_eq!(Ruby::Bool.class_name(), "Boolean");
    assert_eq!(Ruby::Data.class_name(), "Rust-backed Ruby instance");
    assert_eq!(Ruby::Nil.class_name(), "NilClass");
    assert_eq!(Ruby::RecursiveSelfOwnership.class_name(), "recursive self ownership");
}

#[test]
fn warn_respects_nil_stderr() {
    let mut interp = Artichoke::new();
    interp.warn("quiet").unwrap();
    assert!(interp.warnings.is_empty());
    interp.stderr = Value::Symbol(1);
    interp.warn("loud").unwrap();
    assert_eq!(interp.warnings, vec!["loud".to_string()]);
}

