use artichoke_backend::array;
use artichoke_backend::array::{
    assoc, clear, clone, element_assignment, element_reference, element_set, ary_ref,
    from_values, init, initialize_copy, len, new, normalize, pop, push, replace, reverse,
    reverse_bang, shift, splat, to_ary, unshift, with_capacity,
};
use artichoke_backend::{
    Artichoke, ElementReferenceArgs, Error, Instance, Object, Reply, Value,
};

fn ints(values: &[i64]) -> Vec<Value> {
    values.iter().map(|&i| Value::Fixnum(i)).collect()
}

fn contents(interp: &Artichoke, ary: Value) -> Vec<Value> {
    interp.try_convert_values(ary).expect("an Array")
}

fn array(interp: &mut Artichoke, values: &[i64]) -> Value {
    from_values(interp, &ints(values)).expect("allocated")
}

fn instance(interp: &mut Artichoke, class: &str, to_a: Reply, to_ary: Reply) -> Value {
    interp.allocate(Object::Instance(Instance { class: class.to_string(), to_a, to_ary }))
}

fn splice(values: &[i64], start: i64, len: usize, other: &[i64]) -> Vec<Value> {
    let mut interp = Artichoke::new();
    let ary = array(&mut interp, values);
    let other = array(&mut interp, other);
    let r = element_assignment(&mut interp, ary, ElementReferenceArgs::StartLen(start, len), other);
    assert_eq!(r.expect("spliced"), other);
    contents(&interp, ary)
}

#[test]
fn splice_pure_insert() {
    assert_eq!(splice(&[0, 1, 2, 3, 4], 1, 0, &[9]), ints(&[0, 9, 1, 2, 3, 4]));
}

#[test]
fn splice_shrinks() {
    assert_eq!(splice(&[0, 1, 2, 3, 4], 1, 2, &[9]), ints(&[0, 9, 3, 4]));
}

#[test]
fn splice_grows() {
    assert_eq!(splice(&[0, 1, 2, 3, 4], 1, 1, &[9, 9]), ints(&[0, 9, 9, 2, 3, 4]));
}

#[test]
fn splice_gap_filled_append() {
    let mut want = ints(&[0, 1, 2, 3, 4]);
    want.push(Value::Nil);
    want.push(Value::Nil);
    want.push(Value::Fixnum(9));
    assert_eq!(splice(&[0, 1, 2, 3, 4], 7, 0, &[9]), want);
}

#[test]
fn splice_start_past_end_with_len() {
    let mut want = ints(&[0, 1]);
    want.push(Value::Nil);
    want.extend(ints(&[7, 8]));
    assert_eq!(splice(&[0, 1], 3, 2, &[7, 8]), want);
}

#[test]
fn splice_equal_lengths_overwrite() {
    assert_eq!(splice(&[0, 1, 2, 3, 4], 1, 2, &[7, 8]), ints(&[0, 7, 8, 3, 4]));
}

#[test]
fn splice_running_to_the_end() {
    assert_eq!(splice(&[0, 1, 2, 3, 4], 3, 1, &[7, 8, 9]), ints(&[0, 1, 2, 7, 8, 9]));
}

#[test]
fn splice_negative_start() {
    assert_eq!(splice(&[0, 1, 2, 3, 4], -4, 2, &[9]), ints(&[0, 9, 3, 4]));
}

#[test]
fn splice_negative_start_before_beginning() {
    let mut interp = Artichoke::new();
    let ary = array(&mut interp, &[0, 1]);
    let r = element_assignment(&mut interp, ary, ElementReferenceArgs::StartLen(-3, 1), Value::Nil);
    assert!(matches!(r, Err(Error::IndexTooSmall { index: -3, minimum: -2 })));
    assert_eq!(contents(&interp, ary), ints(&[0, 1]));
}

#[test]
fn splice_with_scalar_replacement() {
    let mut interp = Artichoke::new();
    let ary = array(&mut interp, &[0, 1, 2, 3, 4]);
    let r = element_assignment(&mut interp, ary, ElementReferenceArgs::StartLen(1, 3), Value::Fixnum(9));
    assert_eq!(r.unwrap(), Value::Fixnum(9));
    assert_eq!(contents(&interp, ary), ints(&[0, 9, 4]));
}

#[test]
fn splice_with_to_ary_replacement() {
    let mut interp = Artichoke::new();
    let ary = array(&mut interp, &[0, 1, 2, 3, 4]);
    let source = array(&mut interp, &[7, 7]);
    let other = instance(&mut interp, "Pair", Reply::Undefined, Reply::Returns(source));
    let r = element_assignment(&mut interp, ary, ElementReferenceArgs::StartLen(0, 1), other);
    assert_eq!(r.unwrap(), other);
    assert_eq!(contents(&interp, ary), ints(&[7, 7, 1, 2, 3, 4]));
}

#[test]
fn splice_to_ary_gives_non_array() {
    let mut interp = Artichoke::new();
    let ary = array(&mut interp, &[0, 1]);
    let other = instance(&mut interp, "Odd", Reply::Undefined, Reply::Returns(Value::Fixnum(3)));
    let r = element_assignment(&mut interp, ary, ElementReferenceArgs::StartLen(0, 1), other);
    match r {
        Err(Error::CannotConvert { to, from, method, gives }) => {
            assert_eq!(to, "Array");
            assert_eq!(from, "Odd");
            assert_eq!(method, "to_ary");
            assert_eq!(gives, "Integer");
        }
        other => panic!("unexpected {:?}", other),
    }
    assert_eq!(contents(&interp, ary), ints(&[0, 1]));
}

#[test]
fn splice_to_ary_raises_is_fatal() {
    let mut interp = Artichoke::new();
    let ary = array(&mut interp, &[0, 1]);
    let other = instance(&mut interp, "Bad", Reply::Undefined, Reply::Raises);
    let r = element_assignment(&mut interp, ary, ElementReferenceArgs::StartLen(0, 1), other);
    assert!(matches!(r, Err(Error::Fatal)));
}

#[test]
fn element_assignment_index_pads() {
    let mut interp = Artichoke::new();
    let ary = array(&mut interp, &[1]);
    let r = element_assignment(&mut interp, ary, ElementReferenceArgs::Index(3), Value::Fixnum(5));
    assert_eq!(r.unwrap(), Value::Fixnum(5));
    assert_eq!(
        contents(&interp, ary),
        vec![Value::Fixnum(1), Value::Nil, Value::Nil, Value::Fixnum(5)]
    );
}

#[test]
fn element_assignment_negative_index() {
    let mut interp = Artichoke::new();
    let ary = array(&mut interp, &[1, 2, 3]);
    element_assignment(&mut interp, ary, ElementReferenceArgs::Index(-1), Value::Fixnum(9)).unwrap();
    assert_eq!(contents(&interp, ary), ints(&[1, 2, 9]));
}

#[test]
fn element_assignment_index_too_small() {
    let mut interp = Artichoke::new();
    let ary = array(&mut interp, &[1, 2, 3]);
    let r = element_assignment(&mut interp, ary, ElementReferenceArgs::Index(-4), Value::Nil);
    assert!(matches!(r, Err(Error::IndexTooSmall { index: -4, minimum: -3 })));
    assert_eq!(contents(&interp, ary), ints(&[1, 2, 3]));
}

#[test]
fn element_set_in_bounds_does_not_grow() {
    let mut interp = Artichoke::new();
    let ary = array(&mut interp, &[1, 2, 3]);
    assert_eq!(element_set(&mut interp, ary, 1, Value::Fixnum(7)).unwrap(), ary);
    assert_eq!(contents(&interp, ary), ints(&[1, 7, 3]));
}

#[test]
fn element_set_index_too_small() {
    let mut interp = Artichoke::new();
    let ary = array(&mut interp, &[1, 2]);
    let r = element_set(&mut interp, ary, -5, Value::Nil);
    assert!(matches!(r, Err(Error::IndexTooSmall { index: -5, minimum: -2 })));
}

#[test]
fn element_reference_in_bounds() {
    let mut interp = Artichoke::new();
    let ary = array(&mut interp, &[10, 11, 12]);
    for i in 0..3 {
        let r = element_reference(&mut interp, ary, ElementReferenceArgs::Index(i)).unwrap();
        assert_eq!(r, Value::Fixnum(10 + i));
    }
    assert_eq!(contents(&interp, ary), ints(&[10, 11, 12]));
}

#[test]
fn element_reference_negative_matches_offset_from_end() {
    let mut interp = Artichoke::new();
    let ary = array(&mut interp, &[10, 11, 12]);
    for i in -3..0 {
        let a = element_reference(&mut interp, ary, ElementReferenceArgs::Index(i)).unwrap();
        let b = element_reference(&mut interp, ary, ElementReferenceArgs::Index(3 + i)).unwrap();
        assert_eq!(a, b);
    }
}

#[test]
fn element_reference_out_of_range_is_nil() {
    let mut interp = Artichoke::new();
    let ary = array(&mut interp, &[10, 11, 12]);
    let past = element_reference(&mut interp, ary, ElementReferenceArgs::Index(3)).unwrap();
    let before = element_reference(&mut interp, ary, ElementReferenceArgs::Index(-4)).unwrap();
    assert_eq!(past, Value::Nil);
    assert_eq!(before, Value::Nil);
}

#[test]
fn element_reference_slice_is_clipped() {
    let mut interp = Artichoke::new();
    let ary = array(&mut interp, &[10, 11, 12]);
    let s = element_reference(&mut interp, ary, ElementReferenceArgs::StartLen(1, 5)).unwrap();
    assert_ne!(s, ary);
    assert_eq!(contents(&interp, s), ints(&[11, 12]));
    let t = element_reference(&mut interp, ary, ElementReferenceArgs::StartLen(-2, 1)).unwrap();
    assert_eq!(contents(&interp, t), ints(&[11]));
    let u = element_reference(&mut interp, ary, ElementReferenceArgs::StartLen(5, 1)).unwrap();
    assert_eq!(contents(&interp, u), Vec::<Value>::new());
}

#[test]
fn element_reference_slice_before_start() {
    let mut interp = Artichoke::new();
    let ary = array(&mut interp, &[10, 11, 12]);
    let r = element_reference(&mut interp, ary, ElementReferenceArgs::StartLen(-4, 1));
    assert!(matches!(r, Err(Error::IndexTooSmall { index: -4, minimum: -3 })));
}

#[test]
fn element_reference_on_non_array_is_fatal() {
    let mut interp = Artichoke::new();
    let r = element_reference(&mut interp, Value::Fixnum(1), ElementReferenceArgs::Index(0));
    assert!(matches!(r, Err(Error::Fatal)));
}

#[test]
fn ary_ref_reads() {
    let mut interp = Artichoke::new();
    let ary = array(&mut interp, &[4, 5]);
    assert_eq!(ary_ref(&interp, ary, -1).unwrap(), Some(Value::Fixnum(5)));
    assert_eq!(ary_ref(&interp, ary, 2).unwrap(), None);
    assert!(matches!(ary_ref(&interp, ary, -3), Err(Error::IndexTooSmall { index: -3, minimum: -2 })));
}

#[test]
fn normalize_offsets() {
    assert_eq!(normalize(2, 5).unwrap(), 2);
    assert_eq!(normalize(7, 5).unwrap(), 7);
    assert_eq!(normalize(-1, 5).unwrap(), 4);
    assert_eq!(normalize(-5, 5).unwrap(), 0);
    assert!(matches!(normalize(-6, 5), Err(Error::IndexTooSmall { index: -6, minimum: -5 })));
    assert!(matches!(
        normalize(i64::MIN, 0),
        Err(Error::IndexTooSmall { index: i64::MIN, minimum: 0 })
    ));
}

#[test]
fn reverse_bang_twice_restores() {
    let mut interp = Artichoke::new();
    let ary = array(&mut interp, &[1, 2, 3, 4, 5]);
    reverse_bang(&mut interp, ary).unwrap();
    assert_eq!(contents(&interp, ary), ints(&[5, 4, 3, 2, 1]));
    reverse_bang(&mut interp, ary).unwrap();
    assert_eq!(contents(&interp, ary), ints(&[1, 2, 3, 4, 5]));
}

#[test]
fn reverse_bang_even_and_empty() {
    let mut interp = Artichoke::new();
    let ary = array(&mut interp, &[1, 2, 3, 4]);
    reverse_bang(&mut interp, ary).unwrap();
    assert_eq!(contents(&interp, ary), ints(&[4, 3, 2, 1]));
    let empty = new(&mut interp).unwrap();
    assert_eq!(reverse_bang(&mut interp, empty).unwrap(), empty);
    assert_eq!(contents(&interp, empty), Vec::<Value>::new());
}

#[test]
fn reverse_makes_new_array() {
    let mut interp = Artichoke::new();
    let ary = array(&mut interp, &[1, 2, 3]);
    let r = reverse(&mut interp, ary).unwrap();
    assert_ne!(r, ary);
    assert_eq!(contents(&interp, r), ints(&[3, 2, 1]));
    assert_eq!(contents(&interp, ary), ints(&[1, 2, 3]));
}

#[test]
fn push_then_pop_on_empty() {
    let mut interp = Artichoke::new();
    let ary = new(&mut interp).unwrap();
    assert_eq!(push(&mut interp, ary, Value::Fixnum(42)).unwrap(), ary);
    assert_eq!(pop(&mut interp, ary).unwrap(), Some(Value::Fixnum(42)));
    assert_eq!(len(&interp, ary).unwrap(), 0);
    assert_eq!(pop(&mut interp, ary).unwrap(), None);
}

#[test]
fn shift_with_count() {
    let mut interp = Artichoke::new();
    let ary = array(&mut interp, &[0, 1]);
    let r = shift(&mut interp, ary, Some(2)).unwrap();
    assert_eq!(contents(&interp, r), ints(&[0, 1]));
    assert_eq!(contents(&interp, ary), Vec::<Value>::new());
}

#[test]
fn shift_with_count_stops_early() {
    let mut interp = Artichoke::new();
    let ary = array(&mut interp, &[0, 1]);
    let r = shift(&mut interp, ary, Some(5)).unwrap();
    assert_eq!(contents(&interp, r), ints(&[0, 1]));
    assert_eq!(len(&interp, ary).unwrap(), 0);
}

#[test]
fn shift_without_count() {
    let mut interp = Artichoke::new();
    let ary = array(&mut interp, &[3, 4]);
    assert_eq!(shift(&mut interp, ary, None).unwrap(), Value::Fixnum(3));
    assert_eq!(shift(&mut interp, ary, None).unwrap(), Value::Fixnum(4));
    assert_eq!(shift(&mut interp, ary, None).unwrap(), Value::Nil);
}

#[test]
fn unshift_inserts_at_front() {
    let mut interp = Artichoke::new();
    let ary = array(&mut interp, &[2, 3]);
    assert_eq!(unshift(&mut interp, ary, Value::Fixnum(1)).unwrap(), ary);
    assert_eq!(contents(&interp, ary), ints(&[1, 2, 3]));
}

#[test]
fn self_concat_doubles() {
    let mut interp = Artichoke::new();
    let ary = array(&mut interp, &[1, 2]);
    assert_eq!(array::concat(&mut interp, ary, Some(ary)).unwrap(), ary);
    assert_eq!(contents(&interp, ary), ints(&[1, 2, 1, 2]));
}

#[test]
fn concat_other_array_and_none() {
    let mut interp = Artichoke::new();
    let ary = array(&mut interp, &[1]);
    let other = array(&mut interp, &[2, 3]);
    array::concat(&mut interp, ary, Some(other)).unwrap();
    array::concat(&mut interp, ary, None).unwrap();
    assert_eq!(contents(&interp, ary), ints(&[1, 2, 3]));
    assert_eq!(contents(&interp, other), ints(&[2, 3]));
}

#[test]
fn concat_without_conversion() {
    let mut interp = Artichoke::new();
    let ary = array(&mut interp, &[1]);
    match array::concat(&mut interp, ary, Some(Value::Fixnum(2))) {
        Err(Error::NoImplicitConversion { from, to }) => {
            assert_eq!(from, "Integer");
            assert_eq!(to, "Array");
        }
        other => panic!("unexpected {:?}", other),
    }
    assert_eq!(contents(&interp, ary), ints(&[1]));
}

#[test]
fn concat_to_ary_gives_non_array() {
    let mut interp = Artichoke::new();
    let ary = array(&mut interp, &[1]);
    let other = instance(&mut interp, "Odd", Reply::Undefined, Reply::Returns(Value::Nil));
    match array::concat(&mut interp, ary, Some(other)) {
        Err(Error::CannotConvert { from, method, gives, .. }) => {
            assert_eq!(from, "Odd");
            assert_eq!(method, "to_ary");
            assert_eq!(gives, "nil");
        }
        other => panic!("unexpected {:?}", other),
    }
}

#[test]
fn replace_takes_other_contents() {
    let mut interp = Artichoke::new();
    let ary = array(&mut interp, &[1, 2, 3]);
    let other = array(&mut interp, &[8, 9]);
    assert_eq!(replace(&mut interp, ary, other).unwrap(), ary);
    assert_eq!(contents(&interp, ary), ints(&[8, 9]));
    let r = replace(&mut interp, ary, Value::Bool(true));
    assert!(matches!(r, Err(Error::NoImplicitConversion { .. })));
}

#[test]
fn clear_empties() {
    let mut interp = Artichoke::new();
    let ary = array(&mut interp, &[1, 2, 3]);
    assert_eq!(clear(&mut interp, ary).unwrap(), ary);
    assert_eq!(len(&interp, ary).unwrap(), 0);
}

#[test]
fn frozen_guard_rejects_every_mutation() {
    let mut interp = Artichoke::new();
    let ary = array(&mut interp, &[1, 2, 3]);
    let other = array(&mut interp, &[4]);
    interp.freeze(ary);
    assert!(matches!(push(&mut interp, ary, Value::Nil), Err(Error::Frozen)));
    assert!(matches!(pop(&mut interp, ary), Err(Error::Frozen)));
    assert!(matches!(shift(&mut interp, ary, None), Err(Error::Frozen)));
    assert!(matches!(shift(&mut interp, ary, Some(1)), Err(Error::Frozen)));
    assert!(matches!(unshift(&mut interp, ary, Value::Nil), Err(Error::Frozen)));
    assert!(matches!(array::concat(&mut interp, ary, Some(other)), Err(Error::Frozen)));
    assert!(matches!(replace(&mut interp, ary, other), Err(Error::Frozen)));
    assert!(matches!(reverse_bang(&mut interp, ary), Err(Error::Frozen)));
    assert!(matches!(clear(&mut interp, ary), Err(Error::Frozen)));
    assert!(matches!(element_set(&mut interp, ary, 0, Value::Nil), Err(Error::Frozen)));
    assert!(matches!(initialize_copy(&mut interp, ary, other), Err(Error::Frozen)));
    assert!(matches!(
        element_assignment(&mut interp, ary, ElementReferenceArgs::Index(0), Value::Nil),
        Err(Error::Frozen)
    ));
    assert!(matches!(
        element_assignment(&mut interp, ary, ElementReferenceArgs::StartLen(0, 1), other),
        Err(Error::Frozen)
    ));
    assert_eq!(contents(&interp, ary), ints(&[1, 2, 3]));
}

#[test]
fn splat_array_is_identity() {
    let mut interp = Artichoke::new();
    let ary = array(&mut interp, &[1]);
    assert_eq!(splat(&mut interp, ary).unwrap(), ary);
}

#[test]
fn splat_scalar_wraps() {
    let mut interp = Artichoke::new();
    let r = splat(&mut interp, Value::Fixnum(7)).unwrap();
    assert_eq!(contents(&interp, r), ints(&[7]));
}

#[test]
fn splat_to_a_gives_non_array() {
    let mut interp = Artichoke::new();
    let v = instance(&mut interp, "Weird", Reply::Returns(Value::Bool(false)), Reply::Undefined);
    match splat(&mut interp, v) {
        Err(Error::CannotConvert { to, from, method, gives }) => {
            assert_eq!(to, "Array");
            assert_eq!(from, "Weird");
            assert_eq!(method, "to_a");
            assert_eq!(gives, "false");
        }
        other => panic!("unexpected {:?}", other),
    }
}

#[test]
fn splat_to_a_gives_array_or_raises() {
    let mut interp = Artichoke::new();
    let inner = array(&mut interp, &[5, 6]);
    let v = instance(&mut interp, "Listy", Reply::Returns(inner), Reply::Undefined);
    assert_eq!(splat(&mut interp, v).unwrap(), inner);
    let w = instance(&mut interp, "Boom", Reply::Raises, Reply::Undefined);
    assert!(matches!(splat(&mut interp, w), Err(Error::Exception)));
}

#[test]
fn to_ary_wraps_or_converts() {
    let mut interp = Artichoke::new();
    let ary = array(&mut interp, &[1]);
    assert_eq!(to_ary(&mut interp, ary).unwrap(), ary);
    let r = to_ary(&mut interp, Value::Nil).unwrap();
    assert_eq!(contents(&interp, r), vec![Value::Nil]);
    let v = instance(&mut interp, "Weird", Reply::Returns(Value::Fixnum(1)), Reply::Undefined);
    assert!(matches!(to_ary(&mut interp, v), Err(Error::CannotConvert { .. })));
}

#[test]
fn constructors() {
    let mut interp = Artichoke::new();
    let a = assoc(&mut interp, Value::Fixnum(1), Value::Bool(true)).unwrap();
    assert_eq!(contents(&interp, a), vec![Value::Fixnum(1), Value::Bool(true)]);
    let b = with_capacity(&mut interp, 16).unwrap();
    assert_eq!(len(&interp, b).unwrap(), 0);
    let c = clone(&mut interp, a).unwrap();
    assert_ne!(c, a);
    assert_eq!(contents(&interp, c), contents(&interp, a));
    assert!(matches!(len(&interp, Value::Nil), Err(Error::Fatal)));
}

#[test]
fn initialize_copy_keeps_identity() {
    let mut interp = Artichoke::new();
    let target = new(&mut interp).unwrap();
    let source = array(&mut interp, &[3, 4]);
    assert_eq!(initialize_copy(&mut interp, target, source).unwrap(), target);
    assert_eq!(contents(&interp, target), ints(&[3, 4]));
    push(&mut interp, target, Value::Nil).unwrap();
    assert_eq!(contents(&interp, source), ints(&[3, 4]));
}

#[test]
fn init_registers_array_class() {
    let mut interp = Artichoke::new();
    init(&mut interp).unwrap();
    assert_eq!(interp.classes.len(), 1);
    let class = &interp.classes[0];
    assert_eq!(class.name, "Array");
    let names: Vec<&str> = class.methods.iter().map(|m| m.name.as_str()).collect();
    assert_eq!(
        names,
        vec!["[]", "[]=", "concat", "initialize_copy", "length", "pop", "reverse", "reverse!", "size"]
    );
    assert_eq!(class.methods[1].arity.required, 2);
    assert!(class.methods[2].arity.rest);
}
