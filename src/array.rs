//! The guest `Array` operations: construction, element reference and
//! assignment, splicing, and the mutation operations, each on an Array boxed
//! in the guest heap.

pub use crate::buffer::Array;
use crate::buffer::{assigned, reversed, slice_of, spliced};
use crate::value::{Arity, Artichoke, ClassDef, Coercion, Int, MethodDef, Reply, Value};
use vstd::prelude::*;

verus! {

/// The errors of the array engine.
#[derive(Debug)]
pub enum Error {
    /// A coercion protocol answered with something other than an Array.
    CannotConvert { to: String, from: String, method: String, gives: String },
    /// A coercion protocol raised a guest exception.
    Exception,
    /// An internal invariant broke: a value expected to be an Array was not
    /// one, or a position does not fit the host's integer range.
    Fatal,
    /// A mutation was attempted on a frozen Array.
    Frozen,
    /// A negative index reached before the start; `minimum` is the smallest
    /// valid negative index for the current length.
    IndexTooSmall { index: Int, minimum: Int },
    /// A value with no coercion protocol was used where an Array is needed.
    NoImplicitConversion { from: String, to: String },
}

/// The two shapes of an index argument: one position, or a start and a
/// length.
#[derive(Clone, Copy, Debug, PartialEq, Eq, Structural)]
pub enum ElementReferenceArgs {
    Index(Int),
    StartLen(Int, usize),
}

/// The position that offset `i` names in a buffer of length `n`: `i` itself
/// when non-negative, else `n + i`; none when `-i > n`.
pub open spec fn normalized(i: int, n: int) -> Option<int> {
    if i >= 0 {
        Some(i)
    } else if -i <= n {
        Some(n + i)
    } else {
        None
    }
}

/// The element that a read of offset `i` gives: nil past the end and before
/// the start.
pub open spec fn element_at(a: Seq<Value>, i: int) -> Value {
    match normalized(i, a.len() as int) {
        Some(p) => if p < a.len() {
            a[p]
        } else {
            Value::Nil
        },
        None => Value::Nil,
    }
}

/// `e` is `CannotConvert` to Array, naming `from`, `method` and `gives`.
pub open spec fn cannot_convert(e: Error, from: Seq<char>, method: Seq<char>, gives: Seq<char>) -> bool {
    match e {
        Error::CannotConvert { to, from: f, method: m, gives: g } => {
            &&& to@ == "Array"@
            &&& f@ == from
            &&& m@ == method
            &&& g@ == gives
        },
        _ => false,
    }
}

/// `e` is `NoImplicitConversion` naming `from` and `to`.
pub open spec fn no_implicit_conversion(e: Error, from: Seq<char>, to: Seq<char>) -> bool {
    match e {
        Error::NoImplicitConversion { from: f, to: t } => f@ == from && t@ == to,
        _ => false,
    }
}

/// The replacement sequence that a splice takes from `other`: an Array's
/// elements, the result of its `to_ary` if that is an Array, or `other`
/// alone when it does not respond to `to_ary`.
pub open spec fn replacement_of(interp: Artichoke, other: Value) -> Option<Seq<Value>> {
    match interp.array_of(other) {
        Some(s) => Some(s),
        None => match interp.spec_send(other, Coercion::ToAry) {
            Reply::Undefined => Some(seq![other]),
            Reply::Raises => None,
            Reply::Returns(x) => interp.array_of(x),
        },
    }
}

/// The error that a splice fails with when `other` gives no replacement.
pub open spec fn replacement_error(interp: Artichoke, other: Value, e: Error) -> bool {
    match interp.spec_send(other, Coercion::ToAry) {
        Reply::Raises => e == Error::Fatal,
        Reply::Returns(x) => cannot_convert(
            e,
            interp.spec_pretty_name(other),
            "to_ary"@,
            interp.spec_pretty_name(x),
        ),
        Reply::Undefined => false,
    }
}

/// The elements that `concat` and `replace` take from `other`: an Array's,
/// or the result of its `to_ary` if that is an Array.
pub open spec fn implicit_array_of(interp: Artichoke, other: Value) -> Option<Seq<Value>> {
    match interp.array_of(other) {
        Some(s) => Some(s),
        None => match interp.spec_send(other, Coercion::ToAry) {
            Reply::Returns(x) => interp.array_of(x),
            _ => None,
        },
    }
}

/// The error that `concat` and `replace` on `ary` fail with when `other`
/// gives no elements.
pub open spec fn implicit_array_error(interp: Artichoke, ary: Value, other: Value, e: Error) -> bool {
    match interp.spec_send(other, Coercion::ToAry) {
        Reply::Returns(x) => cannot_convert(
            e,
            interp.spec_pretty_name(other),
            "to_ary"@,
            interp.spec_pretty_name(x),
        ),
        _ => no_implicit_conversion(
            e,
            interp.spec_pretty_name(other),
            interp.spec_pretty_name(ary),
        ),
    }
}

/// `after` is `before` with the Array in slot `id` now holding `s`, then one
/// new unfrozen Array slot holding `t`, referred to by `v`.
pub open spec fn stored_and_allocated(
    before: Artichoke,
    after: Artichoke,
    id: usize,
    s: Seq<Value>,
    v: Value,
    t: Seq<Value>,
) -> bool {
    &&& id < before.heap@.len()
    &&& v == Value::Object(before.heap@.len() as usize)
    &&& after.heap@.len() == before.heap@.len() + 1
    &&& forall|j: int| 0 <= j < before.heap@.len() && j != id ==> after.heap@[j] == before.heap@[j]
    &&& after.heap@[id as int].frozen == before.heap@[id as int].frozen
    &&& after.array_of(Value::Object(id)) == Some(s)
    &&& !after.spec_is_frozen(v)
    &&& after.array_of(v) == Some(t)
    &&& after.classes == before.classes
    &&& after.stderr == before.stderr
    &&& after.warnings == before.warnings
}

/// Index normalizer: the buffer position that signed offset `index` names in
/// a buffer of length `len`.
///
/// A negative offset counts from the end; one that reaches before the start
/// fails `IndexTooSmall` with `minimum == -len`. A position beyond the host's
/// range fails `Fatal`.
pub fn normalize(index: Int, len: usize) -> (r: Result<usize, Error>)
    ensures
        match normalized(index as int, len as int) {
            Some(p) => if p <= usize::MAX {
                r == Ok::<usize, Error>(p as usize)
            } else {
                r == Err::<usize, Error>(Error::Fatal)
            },
            None => r == Err::<usize, Error>(
                Error::IndexTooSmall { index, minimum: (-(len as int)) as Int },
            ),
        },
{
    if index >= 0 {
        if (index as u64) as u128 <= usize::MAX as u128 {
            Ok(index as usize)
        } else {
            Err(Error::Fatal)
        }
    } else {
        let magnitude: u64 = ((-(index + 1)) as u64) + 1;
        if magnitude as u128 <= len as u128 {
            Ok(len - magnitude as usize)
        } else {
            Err(Error::IndexTooSmall { index, minimum: -(len as i64) })
        }
    }
}

/// The replacement sequence for a splice with `other`, read before the
/// target changes.
fn replacement(interp: &Artichoke, other: Value) -> (r: Result<Array, Error>)
    ensures
        match r {
            Ok(a) => replacement_of(*interp, other) == Some(a@),
            Err(e) => replacement_of(*interp, other) is None && replacement_error(
                *interp,
                other,
                e,
            ),
        },
{
    if let Some(a) = interp.array_snapshot(other) {
        return Ok(a);
    }
    match interp.send(other, Coercion::ToAry) {
        Reply::Undefined => {
            let mut a = Array::with_capacity(1);
            a.push(other);
            assert(a@ =~= seq![other]);
            Ok(a)
        },
        Reply::Raises => Err(Error::Fatal),
        Reply::Returns(x) => match interp.array_snapshot(x) {
            Some(a) => Ok(a),
            None => Err(
                Error::CannotConvert {
                    to: "Array".to_owned(),
                    from: interp.pretty_name(other),
                    method: Coercion::ToAry.method_name(),
                    gives: interp.pretty_name(x),
                },
            ),
        },
    }
}

/// The elements that `concat` and `replace` on `ary` read from `other`,
/// before the target changes.
fn implicit_array(interp: &Artichoke, ary: Value, other: Value) -> (r: Result<Array, Error>)
    ensures
        match r {
            Ok(a) => implicit_array_of(*interp, other) == Some(a@),
            Err(e) => implicit_array_of(*interp, other) is None && implicit_array_error(
                *interp,
                ary,
                other,
                e,
            ),
        },
{
    if let Some(a) = interp.array_snapshot(other) {
        return Ok(a);
    }
    match interp.send(other, Coercion::ToAry) {
        Reply::Returns(x) => match interp.array_snapshot(x) {
            Some(a) => Ok(a),
            None => Err(
                Error::CannotConvert {
                    to: "Array".to_owned(),
                    from: interp.pretty_name(other),
                    method: Coercion::ToAry.method_name(),
                    gives: interp.pretty_name(x),
                },
            ),
        },
        _ => Err(
            Error::NoImplicitConversion {
                from: interp.pretty_name(other),
                to: interp.pretty_name(ary),
            },
        ),
    }
}

/// A new Array `[car, cdr]`.
pub fn assoc(interp: &mut Artichoke, car: Value, cdr: Value) -> (r: Result<Value, Error>)
    ensures
        r is Ok,
        old(interp).allocated_array(*final(interp), r->Ok_0, seq![car, cdr]),
{
    let mut a = Array::with_capacity(2);
    a.push(car);
    a.push(cdr);
    assert(a@ =~= seq![car, cdr]);
    Ok(interp.box_array(a))
}

/// A new empty Array.
pub fn new(interp: &mut Artichoke) -> (r: Result<Value, Error>)
    ensures
        r is Ok,
        old(interp).allocated_array(*final(interp), r->Ok_0, Seq::empty()),
{
    Ok(interp.box_array(Array::new()))
}

/// A new empty Array with room for `capacity` elements.
pub fn with_capacity(interp: &mut Artichoke, capacity: usize) -> (r: Result<Value, Error>)
    ensures
        r is Ok,
        old(interp).allocated_array(*final(interp), r->Ok_0, Seq::empty()),
{
    Ok(interp.box_array(Array::with_capacity(capacity)))
}

/// A new Array holding `values`.
pub fn from_values(interp: &mut Artichoke, values: &[Value]) -> (r: Result<Value, Error>)
    ensures
        r is Ok,
        old(interp).allocated_array(*final(interp), r->Ok_0, values@),
{
    Ok(interp.box_array(Array::from_values(values)))
}

/// The slot of the Array `ary`, if it may be changed: fails `Frozen` first,
/// then `Fatal` if `ary` is not an Array.
fn mutable_id(interp: &Artichoke, ary: Value) -> (r: Result<usize, Error>)
    ensures
        interp.spec_is_frozen(ary) ==> r == Err::<usize, Error>(Error::Frozen),
        !interp.spec_is_frozen(ary) && interp.array_of(ary) is None ==> r == Err::<usize, Error>(
            Error::Fatal,
        ),
        !interp.spec_is_frozen(ary) && interp.array_of(ary) is Some ==> r == Ok::<usize, Error>(
            ary->Object_0,
        ),
{
    if interp.is_frozen(ary) {
        return Err(Error::Frozen);
    }
    match interp.unbox_id(ary) {
        Some(id) => Ok(id),
        None => Err(Error::Fatal),
    }
}

/// Length of the Array `ary`, which must be one.
fn array_len(interp: &Artichoke, ary: Value) -> (r: usize)
    requires
        interp.array_of(ary) is Some,
    ensures
        r == interp.array_of(ary)->Some_0.len(),
{
    match interp.array_at(ary) {
        Some(a) => a.len(),
        None => 0,
    }
}

/// Indexed assignment: `ary[i] = other` or `ary[start, len] = other`.
///
/// With an index, writes `other` at the normalized position, padding with
/// nils when it is past the end. With a start and a length, splices the
/// replacement sequence that `other` gives (its elements if it is an Array,
/// the result of `to_ary`, or `other` alone) over `len` elements at the
/// normalized start. Returns `other`. Fails `Frozen` before anything else,
/// and changes nothing when it fails.
pub fn element_assignment(
    interp: &mut Artichoke,
    ary: Value,
    args: ElementReferenceArgs,
    other: Value,
) -> (r: Result<Value, Error>)
    ensures
        old(interp).spec_is_frozen(ary) ==> r == Err::<Value, Error>(Error::Frozen) && *final(interp) == *old(interp),
        !old(interp).spec_is_frozen(ary) ==> match old(interp).array_of(ary) {
            None => r == Err::<Value, Error>(Error::Fatal) && *final(interp) == *old(interp),
            Some(a) => match args {
                ElementReferenceArgs::Index(i) => match normalized(i as int, a.len() as int) {
                    None => r == Err::<Value, Error>(
                        Error::IndexTooSmall { index: i, minimum: (-a.len()) as Int },
                    ) && *final(interp) == *old(interp),
                    Some(p) => if p < usize::MAX {
                        r == Ok::<Value, Error>(other) && old(interp).stored(
                            *final(interp),
                            ary->Object_0,
                            assigned(a, p, other),
                        )
                    } else {
                        r == Err::<Value, Error>(Error::Fatal) && *final(interp) == *old(interp)
                    },
                },
                ElementReferenceArgs::StartLen(start, len) => match replacement_of(
                    *old(interp),
                    other,
                ) {
                    None => r is Err && replacement_error(*old(interp), other, r->Err_0) && *final(interp) == *old(interp),
                    Some(rep) => match normalized(start as int, a.len() as int) {
                        None => r == Err::<Value, Error>(
                            Error::IndexTooSmall { index: start, minimum: (-a.len()) as Int },
                        ) && *final(interp) == *old(interp),
                        Some(p) => if p + rep.len() <= usize::MAX {
                            r == Ok::<Value, Error>(other) && old(interp).stored(
                                *final(interp),
                                ary->Object_0,
                                spliced(a, p, len as int, rep),
                            )
                        } else {
                            r == Err::<Value, Error>(Error::Fatal) && *final(interp) == *old(interp)
                        },
                    },
                },
            },
        },
{
    let id = match mutable_id(interp, ary) {
        Ok(id) => id,
        Err(e) => return Err(e),
    };
    let n = array_len(interp, ary);
    match args {
        ElementReferenceArgs::Index(index) => {
            let p = match normalize(index, n) {
                Ok(p) => p,
                Err(e) => return Err(e),
            };
            if p == usize::MAX {
                return Err(Error::Fatal);
            }
            let mut a = interp.take_array(id);
            a.set(p, other);
            interp.put_array(id, a);
            Ok(other)
        },
        ElementReferenceArgs::StartLen(start, len) => {
            let rep = match replacement(interp, other) {
                Ok(rep) => rep,
                Err(e) => return Err(e),
            };
            let p = match normalize(start, n) {
                Ok(p) => p,
                Err(e) => return Err(e),
            };
            if rep.len() > usize::MAX - p {
                return Err(Error::Fatal);
            }
            let mut a = interp.take_array(id);
            a.splice(p, len, &rep);
            interp.put_array(id, a);
            Ok(other)
        },
    }
}

/// Element reference: `ary[i]` or `ary[start, len]`.
///
/// With an index, the element at the normalized position, or nil past the
/// end or before the start. With a start and a length, a new Array of up to
/// `len` elements from the normalized start, clipped to the end.
pub fn element_reference(interp: &mut Artichoke, ary: Value, args: ElementReferenceArgs) -> (r:
    Result<Value, Error>)
    ensures
        match old(interp).array_of(ary) {
            None => r == Err::<Value, Error>(Error::Fatal) && *final(interp) == *old(interp),
            Some(a) => match args {
                ElementReferenceArgs::Index(i) => r == Ok::<Value, Error>(element_at(a, i as int))
                    && *final(interp) == *old(interp),
                ElementReferenceArgs::StartLen(start, len) => match normalized(
                    start as int,
                    a.len() as int,
                ) {
                    None => r == Err::<Value, Error>(
                        Error::IndexTooSmall { index: start, minimum: (-a.len()) as Int },
                    ) && *final(interp) == *old(interp),
                    Some(p) => if p <= usize::MAX {
                        r is Ok && old(interp).allocated_array(
                            *final(interp),
                            r->Ok_0,
                            slice_of(a, p, len as int),
                        )
                    } else {
                        r == Err::<Value, Error>(Error::Fatal) && *final(interp) == *old(interp)
                    },
                },
            },
        },
{
    let a = match interp.array_at(ary) {
        Some(a) => a,
        None => return Err(Error::Fatal),
    };
    match args {
        ElementReferenceArgs::Index(index) => match normalize(index, a.len()) {
            Ok(p) => match a.get(p) {
                Some(v) => Ok(v),
                None => Ok(Value::Nil),
            },
            Err(_) => Ok(Value::Nil),
        },
        ElementReferenceArgs::StartLen(start, len) => {
            let p = match normalize(start, a.len()) {
                Ok(p) => p,
                Err(e) => return Err(e),
            };
            let slice = a.slice(p, len);
            Ok(interp.box_array(slice))
        },
    }
}

/// `ary[offset]`: the element at the normalized offset, or `None` past the
/// end; an offset before the start fails `IndexTooSmall`.
pub fn ary_ref(interp: &Artichoke, ary: Value, offset: isize) -> (r: Result<Option<Value>, Error>)
    ensures
        match interp.array_of(ary) {
            None => r == Err::<Option<Value>, Error>(Error::Fatal),
            Some(a) => match normalized(offset as int, a.len() as int) {
                None => r == Err::<Option<Value>, Error>(
                    Error::IndexTooSmall { index: offset as Int, minimum: (-a.len()) as Int },
                ),
                Some(p) => r == Ok::<Option<Value>, Error>(
                    if p < a.len() {
                        Some(a[p])
                    } else {
                        None
                    },
                ),
            },
        },
{
    let a = match interp.array_at(ary) {
        Some(a) => a,
        None => return Err(Error::Fatal),
    };
    match normalize(offset as Int, a.len()) {
        Ok(p) => Ok(a.get(p)),
        Err(Error::Fatal) => Ok(None),
        Err(e) => Err(e),
    }
}

/// `ary[offset] = value`: writes at the normalized offset, padding with nils
/// when it is past the end, and returns `ary`.
pub fn element_set(interp: &mut Artichoke, ary: Value, offset: isize, value: Value) -> (r: Result<
    Value,
    Error,
>)
    ensures
        old(interp).spec_is_frozen(ary) ==> r == Err::<Value, Error>(Error::Frozen) && *final(interp) == *old(interp),
        !old(interp).spec_is_frozen(ary) ==> match old(interp).array_of(ary) {
            None => r == Err::<Value, Error>(Error::Fatal) && *final(interp) == *old(interp),
            Some(a) => match normalized(offset as int, a.len() as int) {
                None => r == Err::<Value, Error>(
                    Error::IndexTooSmall { index: offset as Int, minimum: (-a.len()) as Int },
                ) && *final(interp) == *old(interp),
                Some(p) => if p < usize::MAX {
                    r == Ok::<Value, Error>(ary) && old(interp).stored(
                        *final(interp),
                        ary->Object_0,
                        assigned(a, p, value),
                    )
                } else {
                    r == Err::<Value, Error>(Error::Fatal) && *final(interp) == *old(interp)
                },
            },
        },
{
    let id = match mutable_id(interp, ary) {
        Ok(id) => id,
        Err(e) => return Err(e),
    };
    let n = array_len(interp, ary);
    let p = match normalize(offset as Int, n) {
        Ok(p) => p,
        Err(e) => return Err(e),
    };
    if p == usize::MAX {
        return Err(Error::Fatal);
    }
    let mut a = interp.take_array(id);
    a.set(p, value);
    interp.put_array(id, a);
    Ok(ary)
}

/// Removes every element of `ary` and returns `ary`.
pub fn clear(interp: &mut Artichoke, ary: Value) -> (r: Result<Value, Error>)
    ensures
        old(interp).spec_is_frozen(ary) ==> r == Err::<Value, Error>(Error::Frozen) && *final(interp) == *old(interp),
        !old(interp).spec_is_frozen(ary) ==> match old(interp).array_of(ary) {
            None => r == Err::<Value, Error>(Error::Fatal) && *final(interp) == *old(interp),
            Some(a) => r == Ok::<Value, Error>(ary) && old(interp).stored(*final(interp), ary->Object_0, Seq::empty()),
        },
{
    let id = match mutable_id(interp, ary) {
        Ok(id) => id,
        Err(e) => return Err(e),
    };
    let mut a = interp.take_array(id);
    a.clear();
    interp.put_array(id, a);
    Ok(ary)
}

/// Removes and returns the last element of `ary`; `None` when it is empty.
pub fn pop(interp: &mut Artichoke, ary: Value) -> (r: Result<Option<Value>, Error>)
    ensures
        old(interp).spec_is_frozen(ary) ==> r == Err::<Option<Value>, Error>(Error::Frozen) && *final(interp) == *old(interp),
        !old(interp).spec_is_frozen(ary) ==> match old(interp).array_of(ary) {
            None => r == Err::<Option<Value>, Error>(Error::Fatal) && *final(interp) == *old(interp),
            Some(a) => if a.len() == 0 {
                r == Ok::<Option<Value>, Error>(None) && old(interp).stored(*final(interp), ary->Object_0, a)
            } else {
                r == Ok::<Option<Value>, Error>(Some(a.last())) && old(interp).stored(*final(interp), ary->Object_0, a.drop_last())
            },
        },
{
    let id = match mutable_id(interp, ary) {
        Ok(id) => id,
        Err(e) => return Err(e),
    };
    let mut a = interp.take_array(id);
    let popped = a.pop();
    interp.put_array(id, a);
    Ok(popped)
}

/// Removes elements from the front of `ary`.
///
/// Without a count, removes and returns the first element, or nil when
/// `ary` is empty. With a count, removes up to `count` elements, stopping
/// early when `ary` empties, and returns them as a new Array.
pub fn shift(interp: &mut Artichoke, ary: Value, count: Option<usize>) -> (r: Result<Value, Error>)
    ensures
        old(interp).spec_is_frozen(ary) ==> r == Err::<Value, Error>(Error::Frozen) && *final(interp) == *old(interp),
        !old(interp).spec_is_frozen(ary) ==> match old(interp).array_of(ary) {
            None => r == Err::<Value, Error>(Error::Fatal) && *final(interp) == *old(interp),
            Some(a) => match count {
                None => if a.len() == 0 {
                    r == Ok::<Value, Error>(Value::Nil) && old(interp).stored(*final(interp), ary->Object_0, a)
                } else {
                    r == Ok::<Value, Error>(a[0]) && old(interp).stored(*final(interp), ary->Object_0, a.subrange(1, a.len() as int))
                },
                Some(c) => {
                    let k = vstd::math::min(c as int, a.len() as int);
                    r is Ok && stored_and_allocated(
                        *old(interp),
                        *final(interp),
                        ary->Object_0,
                        a.subrange(k, a.len() as int),
                        r->Ok_0,
                        a.subrange(0, k),
                    )
                },
            },
        },
{
    let id = match mutable_id(interp, ary) {
        Ok(id) => id,
        Err(e) => return Err(e),
    };
    match count {
        Some(count) => {
            let mut a = interp.take_array(id);
            let popped = a.shift_n(count);
            interp.put_array(id, a);
            let ghost mid = *interp;
            let v = interp.box_array(popped);
            assert(mid.array_of(Value::Object(id)) == interp.array_of(Value::Object(id)));
            Ok(v)
        },
        None => {
            let mut a = interp.take_array(id);
            let popped = a.shift();
            interp.put_array(id, a);
            match popped {
                Some(v) => Ok(v),
                None => Ok(Value::Nil),
            }
        },
    }
}

/// Inserts `value` at the front of `ary` and returns `ary`.
pub fn unshift(interp: &mut Artichoke, ary: Value, value: Value) -> (r: Result<Value, Error>)
    ensures
        old(interp).spec_is_frozen(ary) ==> r == Err::<Value, Error>(Error::Frozen) && *final(interp) == *old(interp),
        !old(interp).spec_is_frozen(ary) ==> match old(interp).array_of(ary) {
            None => r == Err::<Value, Error>(Error::Fatal) && *final(interp) == *old(interp),
            Some(a) => r == Ok::<Value, Error>(ary) && old(interp).stored(*final(interp), ary->Object_0, seq![value] + a),
        },
{
    let id = match mutable_id(interp, ary) {
        Ok(id) => id,
        Err(e) => return Err(e),
    };
    let mut a = interp.take_array(id);
    a.unshift(value);
    interp.put_array(id, a);
    Ok(ary)
}

/// Appends `value` to `ary` and returns `ary`.
pub fn push(interp: &mut Artichoke, ary: Value, value: Value) -> (r: Result<Value, Error>)
    ensures
        old(interp).spec_is_frozen(ary) ==> r == Err::<Value, Error>(Error::Frozen) && *final(interp) == *old(interp),
        !old(interp).spec_is_frozen(ary) ==> match old(interp).array_of(ary) {
            None => r == Err::<Value, Error>(Error::Fatal) && *final(interp) == *old(interp),
            Some(a) => r == Ok::<Value, Error>(ary) && old(interp).stored(*final(interp), ary->Object_0, a.push(value)),
        },
{
    let id = match mutable_id(interp, ary) {
        Ok(id) => id,
        Err(e) => return Err(e),
    };
    let mut a = interp.take_array(id);
    a.push(value);
    interp.put_array(id, a);
    Ok(ary)
}

/// Appends the elements of `other` (an Array, or what its `to_ary` gives)
/// to `ary` and returns `ary`; no change without `other`.
///
/// The elements are read before `ary` changes, so concatenating an Array
/// with itself doubles it.
pub fn concat(interp: &mut Artichoke, ary: Value, other: Option<Value>) -> (r: Result<Value, Error>)
    ensures
        old(interp).spec_is_frozen(ary) ==> r == Err::<Value, Error>(Error::Frozen) && *final(interp) == *old(interp),
        !old(interp).spec_is_frozen(ary) && other is None ==> r == Ok::<Value, Error>(ary) && *final(interp) == *old(interp),
        !old(interp).spec_is_frozen(ary) && other is Some ==> match old(interp).array_of(ary) {
            None => r == Err::<Value, Error>(Error::Fatal) && *final(interp) == *old(interp),
            Some(a) => match implicit_array_of(*old(interp), other->Some_0) {
                Some(s) => r == Ok::<Value, Error>(ary) && old(interp).stored(*final(interp), ary->Object_0, a + s),
                None => r is Err && implicit_array_error(*old(interp), ary, other->Some_0, r->Err_0)
                    && *final(interp) == *old(interp),
            },
        },
{
    if interp.is_frozen(ary) {
        return Err(Error::Frozen);
    }
    let other = match other {
        Some(other) => other,
        None => return Ok(ary),
    };
    let id = match mutable_id(interp, ary) {
        Ok(id) => id,
        Err(e) => return Err(e),
    };
    let source = match implicit_array(interp, ary, other) {
        Ok(source) => source,
        Err(e) => return Err(e),
    };
    let mut a = interp.take_array(id);
    a.extend_from(&source);
    interp.put_array(id, a);
    Ok(ary)
}

/// Replaces the contents of `ary` by the elements of `other` (an Array, or
/// what its `to_ary` gives), keeping the identity of `ary`; returns `ary`.
pub fn replace(interp: &mut Artichoke, ary: Value, other: Value) -> (r: Result<Value, Error>)
    ensures
        old(interp).spec_is_frozen(ary) ==> r == Err::<Value, Error>(Error::Frozen) && *final(interp) == *old(interp),
        !old(interp).spec_is_frozen(ary) ==> match old(interp).array_of(ary) {
            None => r == Err::<Value, Error>(Error::Fatal) && *final(interp) == *old(interp),
            Some(a) => match implicit_array_of(*old(interp), other) {
                Some(s) => r == Ok::<Value, Error>(ary) && old(interp).stored(*final(interp), ary->Object_0, s),
                None => r is Err && implicit_array_error(*old(interp), ary, other, r->Err_0)
                    && *final(interp) == *old(interp),
            },
        },
{
    let id = match mutable_id(interp, ary) {
        Ok(id) => id,
        Err(e) => return Err(e),
    };
    let source = match implicit_array(interp, ary, other) {
        Ok(source) => source,
        Err(e) => return Err(e),
    };
    interp.put_array(id, source);
    Ok(ary)
}

/// A new Array with the elements of `ary` in reverse order.
pub fn reverse(interp: &mut Artichoke, ary: Value) -> (r: Result<Value, Error>)
    ensures
        match old(interp).array_of(ary) {
            None => r == Err::<Value, Error>(Error::Fatal) && *final(interp) == *old(interp),
            Some(a) => r is Ok && old(interp).allocated_array(*final(interp), r->Ok_0, reversed(a)),
        },
{
    let reversed = match interp.array_at(ary) {
        Some(a) => a.reverse(),
        None => return Err(Error::Fatal),
    };
    Ok(interp.box_array(reversed))
}

/// Reverses `ary` in place and returns it.
pub fn reverse_bang(interp: &mut Artichoke, ary: Value) -> (r: Result<Value, Error>)
    ensures
        old(interp).spec_is_frozen(ary) ==> r == Err::<Value, Error>(Error::Frozen) && *final(interp) == *old(interp),
        !old(interp).spec_is_frozen(ary) ==> match old(interp).array_of(ary) {
            None => r == Err::<Value, Error>(Error::Fatal) && *final(interp) == *old(interp),
            Some(a) => r == Ok::<Value, Error>(ary) && old(interp).stored(*final(interp), ary->Object_0, reversed(a)),
        },
{
    let id = match mutable_id(interp, ary) {
        Ok(id) => id,
        Err(e) => return Err(e),
    };
    let mut a = interp.take_array(id);
    a.reverse_in_place();
    interp.put_array(id, a);
    Ok(ary)
}

/// Number of elements of `ary`.
pub fn len(interp: &Artichoke, ary: Value) -> (r: Result<usize, Error>)
    ensures
        match interp.array_of(ary) {
            None => r == Err::<usize, Error>(Error::Fatal),
            Some(a) => r == Ok::<usize, Error>(a.len() as usize),
        },
{
    match interp.array_at(ary) {
        Some(a) => Ok(a.len()),
        None => Err(Error::Fatal),
    }
}

/// A new Array with the elements of `ary`.
pub fn clone(interp: &mut Artichoke, ary: Value) -> (r: Result<Value, Error>)
    ensures
        match old(interp).array_of(ary) {
            None => r == Err::<Value, Error>(Error::Fatal) && *final(interp) == *old(interp),
            Some(a) => r is Ok && old(interp).allocated_array(*final(interp), r->Ok_0, a),
        },
{
    let copy = match interp.array_snapshot(ary) {
        Some(a) => a,
        None => return Err(Error::Fatal),
    };
    Ok(interp.box_array(copy))
}

/// Initializing copy: the heap object `ary` becomes an Array with the
/// elements of `other`, in place, so that references to `ary` see the copy.
pub fn initialize_copy(interp: &mut Artichoke, ary: Value, other: Value) -> (r: Result<Value, Error>)
    ensures
        old(interp).spec_is_frozen(ary) ==> r == Err::<Value, Error>(Error::Frozen) && *final(interp) == *old(interp),
        !old(interp).spec_is_frozen(ary) ==> match old(interp).array_of(other) {
            None => r == Err::<Value, Error>(Error::Fatal) && *final(interp) == *old(interp),
            Some(s) => r == Ok::<Value, Error>(ary) && old(interp).stored(*final(interp), ary->Object_0, s),
        },
{
    if interp.is_frozen(ary) {
        return Err(Error::Frozen);
    }
    let copy = match interp.array_snapshot(other) {
        Some(a) => a,
        None => return Err(Error::Fatal),
    };
    match ary {
        Value::Object(id) => {
            interp.put_array(id, copy);
            Ok(ary)
        },
        _ => Err(Error::Fatal),
    }
}

/// Argument splatting: `value` itself if it is an Array; else, if it
/// responds to `to_a`, what that returns, which must be an Array; else a new
/// Array holding `value` alone.
pub fn splat(interp: &mut Artichoke, value: Value) -> (r: Result<Value, Error>)
    ensures
        old(interp).array_of(value) is Some ==> r == Ok::<Value, Error>(value) && *final(interp) == *old(interp),
        old(interp).array_of(value) is None ==> match old(interp).spec_send(value, Coercion::ToA) {
            Reply::Undefined => r is Ok && old(interp).allocated_array(*final(interp), r->Ok_0, seq![value]),
            Reply::Raises => r == Err::<Value, Error>(Error::Exception) && *final(interp) == *old(interp),
            Reply::Returns(x) => *final(interp) == *old(interp) && if old(interp).array_of(x) is Some {
                r == Ok::<Value, Error>(x)
            } else {
                r is Err && cannot_convert(
                    r->Err_0,
                    old(interp).spec_pretty_name(value),
                    "to_a"@,
                    old(interp).spec_pretty_name(x),
                )
            },
        },
{
    if interp.unbox_id(value).is_some() {
        return Ok(value);
    }
    match interp.send(value, Coercion::ToA) {
        Reply::Undefined => {
            let mut a = Array::with_capacity(1);
            a.push(value);
            assert(a@ =~= seq![value]);
            Ok(interp.box_array(a))
        },
        Reply::Raises => Err(Error::Exception),
        Reply::Returns(x) => if interp.unbox_id(x).is_some() {
            Ok(x)
        } else {
            Err(
                Error::CannotConvert {
                    to: "Array".to_owned(),
                    from: interp.pretty_name(value),
                    method: Coercion::ToA.method_name(),
                    gives: interp.pretty_name(x),
                },
            )
        },
    }
}

/// `value` as an Array: itself if it is one; else what its `to_a` returns,
/// which must be an Array; else, when `to_a` is missing or raises, a new
/// Array holding `value` alone.
pub fn to_ary(interp: &mut Artichoke, value: Value) -> (r: Result<Value, Error>)
    ensures
        old(interp).array_of(value) is Some ==> r == Ok::<Value, Error>(value) && *final(interp) == *old(interp),
        old(interp).array_of(value) is None ==> match old(interp).spec_send(value, Coercion::ToA) {
            Reply::Returns(x) => *final(interp) == *old(interp) && if old(interp).array_of(x) is Some {
                r == Ok::<Value, Error>(x)
            } else {
                r is Err && cannot_convert(
                    r->Err_0,
                    old(interp).spec_pretty_name(value),
                    "to_a"@,
                    old(interp).spec_pretty_name(x),
                )
            },
            _ => r is Ok && old(interp).allocated_array(*final(interp), r->Ok_0, seq![value]),
        },
{
    if interp.unbox_id(value).is_some() {
        return Ok(value);
    }
    match interp.send(value, Coercion::ToA) {
        Reply::Returns(x) => if interp.unbox_id(x).is_some() {
            Ok(x)
        } else {
            Err(
                Error::CannotConvert {
                    to: "Array".to_owned(),
                    from: interp.pretty_name(value),
                    method: Coercion::ToA.method_name(),
                    gives: interp.pretty_name(x),
                },
            )
        },
        _ => {
            let values = [value];
            let r = from_values(interp, &values);
            assert(values@ =~= seq![value]);
            r
        },
    }
}

/// The methods that `init` registers on the Array class, with their
/// argument shapes, in order.
pub open spec fn array_methods() -> Seq<(Seq<char>, Arity)> {
    seq![
        ("[]"@, Arity { required: 1, optional: 1, rest: false }),
        ("[]="@, Arity { required: 2, optional: 1, rest: false }),
        ("concat"@, Arity { required: 0, optional: 0, rest: true }),
        ("initialize_copy"@, Arity { required: 1, optional: 0, rest: false }),
        ("length"@, Arity { required: 0, optional: 0, rest: false }),
        ("pop"@, Arity { required: 0, optional: 0, rest: false }),
        ("reverse"@, Arity { required: 0, optional: 0, rest: false }),
        ("reverse!"@, Arity { required: 0, optional: 0, rest: false }),
        ("size"@, Arity { required: 0, optional: 0, rest: false }),
    ]
}

/// A method table entry.
fn method_def(name: &str, required: u8, optional: u8, rest: bool) -> (r: MethodDef)
    ensures
        r.name@ == name@,
        r.arity == (Arity { required, optional, rest }),
{
    MethodDef { name: name.to_owned(), arity: Arity { required, optional, rest } }
}

/// Registers the host-backed `Array` class and its method table.
pub fn init(interp: &mut Artichoke) -> (r: Result<(), Error>)
    ensures
        r is Ok,
        final(interp).classes@.len() == old(interp).classes@.len() + 1,
        forall|j: int|
            0 <= j < old(interp).classes@.len() ==> final(interp).classes@[j] == old(interp).classes@[j],
        final(interp).classes@.last().name@ == "Array"@,
        final(interp).classes@.last().methods@.len() == array_methods().len(),
        forall|k: int|
            0 <= k < array_methods().len() ==> (
            #[trigger] final(interp).classes@.last().methods@[k].name@,
            final(interp).classes@.last().methods@[k].arity,
        ) == array_methods()[k],
        final(interp).heap == old(interp).heap,
        final(interp).stderr == old(interp).stderr,
        final(interp).warnings == old(interp).warnings,
{
    let mut methods: Vec<MethodDef> = Vec::new();
    methods.push(method_def("[]", 1, 1, false));
    methods.push(method_def("[]=", 2, 1, false));
    methods.push(method_def("concat", 0, 0, true));
    methods.push(method_def("initialize_copy", 1, 0, false));
    methods.push(method_def("length", 0, 0, false));
    methods.push(method_def("pop", 0, 0, false));
    methods.push(method_def("reverse", 0, 0, false));
    methods.push(method_def("reverse!", 0, 0, false));
    methods.push(method_def("size", 0, 0, false));
    interp.classes.push(ClassDef { name: "Array".to_owned(), methods });
    Ok(())
}

/// A read at a non-negative index inside the buffer gives the element at
/// that index.
pub proof fn lemma_read_in_bounds(a: Seq<Value>, i: int)
    requires
        0 <= i < a.len(),
    ensures
        element_at(a, i) == a[i],
{
}

/// A read at a negative index `i` with `-i <= len` gives what a read at
/// `len + i` gives. (At `i == 0` the two reads are of positions `0` and
/// `len`, which differ unless the buffer is empty.)
pub proof fn lemma_read_negative(a: Seq<Value>, i: int)
    requires
        0 < -i <= a.len(),
    ensures
        element_at(a, i) == element_at(a, a.len() + i),
{
}

/// A negative index `i` with `-i > len` names no position, so a write there
/// fails `IndexTooSmall` with `minimum == -len`.
pub proof fn lemma_write_before_start(a: Seq<Value>, i: int)
    requires
        -i > a.len(),
    ensures
        normalized(i, a.len() as int) is None,
{
}

/// Concatenating an Array with itself appends its own elements, as they
/// stood before the call.
pub proof fn lemma_self_concat(interp: Artichoke, ary: Value)
    requires
        interp.array_of(ary) is Some,
    ensures
        implicit_array_of(interp, ary) == interp.array_of(ary),
{
}

} // verus!
