//! Conversion between host values and guest values: infallible conversions
//! into the guest, which may allocate, and fallible conversions out of it,
//! which check the guest type tag.

use crate::buffer::Array;
use crate::types::{Ruby, Rust};
use crate::value::{Artichoke, Int, Object, Value};
use vstd::prelude::*;

verus! {

/// A guest value whose type tag does not match the host type asked for.
#[derive(Clone, Copy, Debug, PartialEq, Eq, Structural)]
pub struct UnboxError {
    pub expected: Rust,
    pub actual: Ruby,
}

/// The contents of each byte buffer, in order.
pub open spec fn byte_views(values: Seq<Vec<u8>>) -> Seq<Seq<u8>> {
    Seq::new(values.len(), |j: int| values[j]@)
}

/// The contents of each optional byte buffer, in order.
pub open spec fn optional_byte_views(values: Seq<Option<Vec<u8>>>) -> Seq<Option<Seq<u8>>> {
    Seq::new(
        values.len(),
        |j: int|
            match values[j] {
                Some(b) => Some(b@),
                None => None,
            },
    )
}

/// The guest values of a sequence of host integers.
pub open spec fn fixnums(values: Seq<Int>) -> Seq<Value> {
    Seq::new(values.len(), |j: int| Value::Fixnum(values[j]))
}

impl Artichoke {
    /// The bytes of the guest String that `v` refers to, if it is one.
    pub open spec fn bytes_of(self, v: Value) -> Option<Seq<u8>> {
        match self.slot_of(v) {
            Some(slot) => match slot.object {
                Object::String(b) => Some(b@),
                _ => None,
            },
            None => None,
        }
    }

    /// `v` as optional bytes: `None` for nil, the bytes of a String.
    pub open spec fn optional_bytes_of(self, v: Value) -> Option<Option<Seq<u8>>> {
        if v == Value::Nil {
            Some(None)
        } else {
            match self.bytes_of(v) {
                Some(b) => Some(Some(b)),
                None => None,
            }
        }
    }

    /// The elements of the Array `v` as byte strings, if it is an Array of
    /// Strings.
    pub open spec fn byte_strings_of(self, v: Value) -> Option<Seq<Seq<u8>>> {
        match self.array_of(v) {
            Some(s) => if forall|k: int| 0 <= k < s.len() ==> (#[trigger] self.bytes_of(s[k])) is Some {
                Some(Seq::new(s.len(), |k: int| self.bytes_of(s[k])->Some_0))
            } else {
                None
            },
            None => None,
        }
    }

    /// The elements of the Array `v` as optional byte strings, if it is an
    /// Array of Strings and nils.
    pub open spec fn optional_byte_strings_of(self, v: Value) -> Option<Seq<Option<Seq<u8>>>> {
        match self.array_of(v) {
            Some(s) => if forall|k: int|
                0 <= k < s.len() ==> (#[trigger] self.optional_bytes_of(s[k])) is Some {
                Some(Seq::new(s.len(), |k: int| self.optional_bytes_of(s[k])->Some_0))
            } else {
                None
            },
            None => None,
        }
    }

    /// The elements of the Array `v` as integers, if it is an Array of
    /// Fixnums.
    pub open spec fn ints_of(self, v: Value) -> Option<Seq<Int>> {
        match self.array_of(v) {
            Some(s) => if forall|k: int| 0 <= k < s.len() ==> (#[trigger] s[k]) is Fixnum {
                Some(Seq::new(s.len(), |k: int| s[k]->Fixnum_0))
            } else {
                None
            },
            None => None,
        }
    }

    /// `after` is `self` with one String slot per element of `input`, in
    /// order, then an Array slot referred to by `v` whose elements are those
    /// Strings.
    pub open spec fn holds_byte_strings(
        self,
        after: Artichoke,
        input: Seq<Seq<u8>>,
        v: Value,
    ) -> bool {
        let n = self.heap@.len();
        let k = input.len();
        &&& n + k < usize::MAX
        &&& after.heap@.len() == n + k + 1
        &&& forall|j: int| 0 <= j < n ==> after.heap@[j] == self.heap@[j]
        &&& forall|j: int|
            0 <= j < k ==> (#[trigger] after.heap@[n + j]).object is String
                && after.heap@[n + j].object->String_0@ == input[j]
        &&& v == Value::Object((n + k) as usize)
        &&& after.array_of(v) == Some(Seq::new(k, |j: int| Value::Object((n + j) as usize)))
        &&& after.classes == self.classes
        &&& after.stderr == self.stderr
        &&& after.warnings == self.warnings
    }

    /// `after` is `self` with new slots appended only.
    pub open spec fn extended(self, after: Artichoke) -> bool {
        &&& self.heap@.len() <= after.heap@.len()
        &&& forall|j: int| 0 <= j < self.heap@.len() ==> after.heap@[j] == self.heap@[j]
        &&& after.classes == self.classes
        &&& after.stderr == self.stderr
        &&& after.warnings == self.warnings
    }

    /// A guest boolean.
    pub fn convert_bool(&self, b: bool) -> (r: Value)
        ensures
            r == Value::Bool(b),
    {
        Value::Bool(b)
    }

    /// A guest integer.
    pub fn convert_int(&self, i: Int) -> (r: Value)
        ensures
            r == Value::Fixnum(i),
    {
        Value::Fixnum(i)
    }

    /// The value itself, or nil for `None`.
    pub fn convert_option(&self, v: Option<Value>) -> (r: Value)
        ensures
            r == match v {
                Some(x) => x,
                None => Value::Nil,
            },
    {
        match v {
            Some(x) => x,
            None => Value::Nil,
        }
    }

    /// A new guest String holding `bytes`.
    pub fn convert_mut_bytes(&mut self, bytes: Vec<u8>) -> (r: Value)
        ensures
            r == Value::Object(old(self).heap@.len() as usize),
            old(self).allocated(*final(self), Object::String(bytes)),
    {
        self.allocate(Object::String(bytes))
    }

    /// A new guest String holding `bytes`, or nil for `None`.
    pub fn convert_mut_optional_bytes(&mut self, bytes: Option<Vec<u8>>) -> (r: Value)
        ensures
            old(self).extended(*final(self)),
            final(self).optional_bytes_of(r) == Some(
                match bytes {
                    Some(b) => Some(b@),
                    None => None::<Seq<u8>>,
                },
            ),
    {
        match bytes {
            Some(b) => {
                let n = self.heap.len();
                let ghost bv = b@;
                let r = self.allocate(Object::String(b));
                assert(self.heap@[n as int].object->String_0@ == bv);
                r
            },
            None => Value::Nil,
        }
    }

    /// A new guest Array holding `values`.
    pub fn convert_mut_values(&mut self, values: Vec<Value>) -> (r: Value)
        ensures
            old(self).allocated_array(*final(self), r, values@),
    {
        self.box_array(Array::from_values(values.as_slice()))
    }

    /// A new guest Array holding each value, or nil for `None`.
    pub fn convert_mut_optional_values(&mut self, values: &[Option<Value>]) -> (r: Value)
        ensures
            old(self).allocated_array(
                *final(self),
                r,
                Seq::new(values@.len(), |j: int| match values@[j] {
                    Some(x) => x,
                    None => Value::Nil,
                }),
            ),
    {
        let ghost want = Seq::new(values@.len(), |j: int| match values@[j] {
            Some(x) => x,
            None => Value::Nil,
        });
        let mut a = Array::with_capacity(values.len());
        let mut j: usize = 0;
        while j < values.len()
            invariant
                j <= values@.len(),
                want.len() == values@.len(),
                forall|i: int| 0 <= i < values@.len() ==> #[trigger] want[i] == match values@[i] {
                    Some(x) => x,
                    None => Value::Nil,
                },
                a@ == want.subrange(0, j as int),
            decreases values@.len() - j,
        {
            a.push(self.convert_option(values[j]));
            j += 1;
            assert(a@ =~= want.subrange(0, j as int));
        }
        assert(want.subrange(0, want.len() as int) =~= want);
        self.box_array(a)
    }

    /// A new guest Array of Fixnums.
    pub fn convert_mut_ints(&mut self, values: &[Int]) -> (r: Value)
        ensures
            old(self).allocated_array(*final(self), r, fixnums(values@)),
    {
        let mut a = Array::with_capacity(values.len());
        let mut j: usize = 0;
        while j < values.len()
            invariant
                j <= values@.len(),
                a@ == fixnums(values@).subrange(0, j as int),
            decreases values@.len() - j,
        {
            a.push(self.convert_int(values[j]));
            j += 1;
            assert(a@ =~= fixnums(values@).subrange(0, j as int));
        }
        assert(fixnums(values@).subrange(0, values@.len() as int) =~= fixnums(values@));
        self.box_array(a)
    }

    /// A new guest Array of new Strings, one per byte buffer. Every String
    /// is allocated before the Array that holds them.
    pub fn convert_mut_byte_strings(&mut self, values: Vec<Vec<u8>>) -> (r: Value)
        requires
            old(self).heap@.len() + values@.len() < usize::MAX,
        ensures
            old(self).holds_byte_strings(*final(self), byte_views(values@), r),
    {
        let ghost before = *self;
        let n = self.heap.len();
        let k = values.len();
        let mut elems = Array::with_capacity(k);
        let mut j: usize = 0;
        while j < k
            invariant
                n == before.heap@.len(),
                k == values@.len(),
                n + k < usize::MAX,
                j <= k,
                self.heap@.len() == n + j,
                forall|i: int| 0 <= i < n ==> self.heap@[i] == before.heap@[i],
                forall|i: int|
                    0 <= i < j ==> (#[trigger] self.heap@[n + i]).object is String
                        && self.heap@[n + i].object->String_0@ == values@[i]@,
                elems@ == Seq::new(j as nat, |i: int| Value::Object((n + i) as usize)),
                self.classes == before.classes,
                self.stderr == before.stderr,
                self.warnings == before.warnings,
            decreases k - j,
        {
            let bytes = copy_bytes(&values[j]);
            let ghost bv = bytes@;
            let id = self.allocate(Object::String(bytes));
            assert(self.heap@[n + j as int].object->String_0@ == bv);
            elems.push(id);
            j += 1;
            assert(elems@ =~= Seq::new(j as nat, |i: int| Value::Object((n + i) as usize)));
        }
        let r = self.box_array(elems);
        assert forall|i: int| 0 <= i < k implies (#[trigger] self.heap@[n + i]).object is String
            && self.heap@[n + i].object->String_0@ == byte_views(values@)[i] by {
            assert(self.heap@[n + i] == before.heap@.push(self.heap@[n + i]).last());
        }
        r
    }

    /// A new guest Array holding, for each element, a new String, or nil
    /// for `None`.
    pub fn convert_mut_optional_byte_strings(&mut self, values: Vec<Option<Vec<u8>>>) -> (r: Value)
        ensures
            old(self).extended(*final(self)),
            final(self).optional_byte_strings_of(r) == Some(optional_byte_views(values@)),
    {
        let ghost before = *self;
        let ghost want = optional_byte_views(values@);
        let k = values.len();
        let mut elems = Array::with_capacity(k);
        let mut j: usize = 0;
        while j < k
            invariant
                k == values@.len(),
                want == optional_byte_views(values@),
                j <= k,
                before.extended(*self),
                elems@.len() == j,
                forall|i: int| 0 <= i < j ==> self.optional_bytes_of(#[trigger] elems@[i]) == Some(want[i]),
            decreases k - j,
        {
            let ghost mid = *self;
            let item = match &values[j] {
                Some(b) => Some(copy_bytes(b)),
                None => None,
            };
            let v = self.convert_mut_optional_bytes(item);
            proof {
                assert forall|i: int| 0 <= i < j implies self.optional_bytes_of(
                    #[trigger] elems@[i],
                ) == mid.optional_bytes_of(elems@[i]) by {
                    let e = elems@[i];
                    if e != Value::Nil {
                        assert(mid.bytes_of(e) is Some);
                    }
                }
            }
            elems.push(v);
            j += 1;
        }
        let ghost mid = *self;
        let ghost s = elems@;
        let r = self.box_array(elems);
        proof {
            assert forall|i: int| 0 <= i < s.len() implies self.optional_bytes_of(#[trigger] s[i])
                == mid.optional_bytes_of(s[i]) by {
                if s[i] != Value::Nil {
                    assert(mid.bytes_of(s[i]) is Some);
                }
            }
            assert(self.array_of(r) == Some(s));
            assert forall|i: int| 0 <= i < s.len() implies (#[trigger] self.optional_bytes_of(
                s[i],
            )) is Some by {}
            assert(Seq::new(s.len(), |i: int| self.optional_bytes_of(s[i])->Some_0) =~= want);
        }
        r
    }

    /// `v` as an integer, if it is a Fixnum.
    pub fn try_convert_int(&self, v: Value) -> (r: Result<Int, UnboxError>)
        ensures
            match v {
                Value::Fixnum(i) => r == Ok::<Int, UnboxError>(i),
                _ => r == Err::<Int, UnboxError>(
                    UnboxError { expected: Rust::SignedInt, actual: self.spec_ruby_type(v) },
                ),
            },
    {
        match v {
            Value::Fixnum(i) => Ok(i),
            _ => Err(UnboxError { expected: Rust::SignedInt, actual: self.ruby_type(v) }),
        }
    }

    /// The bytes of `v`, if it is a String.
    pub fn try_convert_bytes(&self, v: Value) -> (r: Result<Vec<u8>, UnboxError>)
        ensures
            match r {
                Ok(b) => self.bytes_of(v) == Some(b@),
                Err(e) => self.bytes_of(v) is None && e == (UnboxError {
                    expected: Rust::Bytes,
                    actual: self.spec_ruby_type(v),
                }),
            },
    {
        if let Value::Object(id) = v {
            if id < self.heap.len() {
                if let Object::String(b) = &self.heap[id].object {
                    return Ok(copy_bytes(b));
                }
            }
        }
        Err(UnboxError { expected: Rust::Bytes, actual: self.ruby_type(v) })
    }

    /// `v` as optional bytes: `None` for nil, the bytes of a String.
    pub fn try_convert_optional_bytes(&self, v: Value) -> (r: Result<Option<Vec<u8>>, UnboxError>)
        ensures
            match r {
                Ok(Some(b)) => self.optional_bytes_of(v) == Some(Some(b@)),
                Ok(None) => self.optional_bytes_of(v) == Some(None::<Seq<u8>>),
                Err(e) => self.optional_bytes_of(v) is None && e == (UnboxError {
                    expected: Rust::Bytes,
                    actual: self.spec_ruby_type(v),
                }),
            },
    {
        if v == Value::Nil {
            return Ok(None);
        }
        match self.try_convert_bytes(v) {
            Ok(b) => Ok(Some(b)),
            Err(e) => Err(e),
        }
    }

    /// The elements of `v`, if it is an Array.
    pub fn try_convert_values(&self, v: Value) -> (r: Result<Vec<Value>, UnboxError>)
        ensures
            match r {
                Ok(out) => self.array_of(v) == Some(out@),
                Err(e) => self.array_of(v) is None && e == (UnboxError {
                    expected: Rust::Vec,
                    actual: self.spec_ruby_type(v),
                }),
            },
    {
        match self.array_at(v) {
            Some(a) => Ok(a.to_vec()),
            None => Err(UnboxError { expected: Rust::Vec, actual: self.ruby_type(v) }),
        }
    }

    /// The elements of `v` as integers, if it is an Array of Fixnums; fails
    /// on the first element that is not one.
    pub fn try_convert_ints(&self, v: Value) -> (r: Result<Vec<Int>, UnboxError>)
        ensures
            match r {
                Ok(out) => self.ints_of(v) == Some(out@),
                Err(e) => self.ints_of(v) is None && match self.array_of(v) {
                    None => e == (UnboxError { expected: Rust::Vec, actual: self.spec_ruby_type(v) }),
                    Some(s) => exists|k: int|
                        0 <= k < s.len() && !(s[k] is Fixnum) && (forall|i: int|
                            0 <= i < k ==> (#[trigger] s[i]) is Fixnum) && e == (UnboxError {
                            expected: Rust::SignedInt,
                            actual: self.spec_ruby_type(s[k]),
                        }),
                },
            },
    {
        let a = match self.array_at(v) {
            Some(a) => a,
            None => return Err(UnboxError { expected: Rust::Vec, actual: self.ruby_type(v) }),
        };
        let ghost s = a@;
        let mut out: Vec<Int> = Vec::with_capacity(a.len());
        let mut j: usize = 0;
        while j < a.len()
            invariant
                s == a@,
                self.array_of(v) == Some(s),
                j <= s.len(),
                forall|i: int| 0 <= i < j ==> (#[trigger] s[i]) is Fixnum,
                out@ == Seq::new(j as nat, |i: int| s[i]->Fixnum_0),
            decreases s.len() - j,
        {
            match self.try_convert_int(a.buffer[j]) {
                Ok(i) => out.push(i),
                Err(e) => {
                    assert(!(s[j as int] is Fixnum));
                    assert(!(forall|k: int| 0 <= k < s.len() ==> (#[trigger] s[k]) is Fixnum));
                    assert(e == (UnboxError { expected: Rust::SignedInt, actual: self.spec_ruby_type(s[j as int]) }));
                    return Err(e);
                },
            }
            j += 1;
            assert(out@ =~= Seq::new(j as nat, |i: int| s[i]->Fixnum_0));
        }
        Ok(out)
    }

    /// The elements of `v` as byte strings, if it is an Array of Strings;
    /// fails on the first element that is not one.
    pub fn try_convert_byte_strings(&self, v: Value) -> (r: Result<Vec<Vec<u8>>, UnboxError>)
        ensures
            match r {
                Ok(out) => self.byte_strings_of(v) == Some(byte_views(out@)),
                Err(e) => self.byte_strings_of(v) is None && match self.array_of(v) {
                    None => e == (UnboxError { expected: Rust::Vec, actual: self.spec_ruby_type(v) }),
                    Some(s) => exists|k: int|
                        0 <= k < s.len() && self.bytes_of(s[k]) is None && (forall|i: int|
                            0 <= i < k ==> (#[trigger] self.bytes_of(s[i])) is Some) && e == (
                        UnboxError { expected: Rust::Bytes, actual: self.spec_ruby_type(s[k]) }),
                },
            },
    {
        let a = match self.array_at(v) {
            Some(a) => a,
            None => return Err(UnboxError { expected: Rust::Vec, actual: self.ruby_type(v) }),
        };
        let ghost s = a@;
        let mut out: Vec<Vec<u8>> = Vec::with_capacity(a.len());
        let mut j: usize = 0;
        while j < a.len()
            invariant
                s == a@,
                self.array_of(v) == Some(s),
                j <= s.len(),
                forall|i: int| 0 <= i < j ==> (#[trigger] self.bytes_of(s[i])) is Some,
                out@.len() == j,
                forall|i: int| 0 <= i < j ==> #[trigger] out@[i]@ == self.bytes_of(s[i])->Some_0,
            decreases s.len() - j,
        {
            match self.try_convert_bytes(a.buffer[j]) {
                Ok(b) => out.push(b),
                Err(e) => {
                    assert(self.bytes_of(s[j as int]) is None);
                    assert(!(forall|k: int|
                        0 <= k < s.len() ==> (#[trigger] self.bytes_of(s[k])) is Some));
                    assert(e == (UnboxError { expected: Rust::Bytes, actual: self.spec_ruby_type(s[j as int]) }));
                    return Err(e);
                },
            }
            j += 1;
        }
        assert(byte_views(out@) =~= Seq::new(s.len(), |k: int| self.bytes_of(s[k])->Some_0));
        Ok(out)
    }

    /// The elements of `v` as optional byte strings, if it is an Array of
    /// Strings and nils; fails on the first element that is neither.
    pub fn try_convert_optional_byte_strings(&self, v: Value) -> (r: Result<
        Vec<Option<Vec<u8>>>,
        UnboxError,
    >)
        ensures
            match r {
                Ok(out) => self.optional_byte_strings_of(v) == Some(optional_byte_views(out@)),
                Err(e) => self.optional_byte_strings_of(v) is None && match self.array_of(v) {
                    None => e == (UnboxError { expected: Rust::Vec, actual: self.spec_ruby_type(v) }),
                    Some(s) => exists|k: int|
                        0 <= k < s.len() && self.optional_bytes_of(s[k]) is None && (forall|i: int|
                            0 <= i < k ==> (#[trigger] self.optional_bytes_of(s[i])) is Some) && e
                            == (UnboxError {
                            expected: Rust::Bytes,
                            actual: self.spec_ruby_type(s[k]),
                        }),
                },
            },
    {
        let a = match self.array_at(v) {
            Some(a) => a,
            None => return Err(UnboxError { expected: Rust::Vec, actual: self.ruby_type(v) }),
        };
        let ghost s = a@;
        let mut out: Vec<Option<Vec<u8>>> = Vec::with_capacity(a.len());
        let mut j: usize = 0;
        while j < a.len()
            invariant
                s == a@,
                self.array_of(v) == Some(s),
                j <= s.len(),
                forall|i: int| 0 <= i < j ==> (#[trigger] self.optional_bytes_of(s[i])) is Some,
                out@.len() == j,
                forall|i: int|
                    0 <= i < j ==> (match #[trigger] out@[i] {
                        Some(b) => Some(b@),
                        None => None,
                    }) == self.optional_bytes_of(s[i])->Some_0,
            decreases s.len() - j,
        {
            match self.try_convert_optional_bytes(a.buffer[j]) {
                Ok(b) => out.push(b),
                Err(e) => {
                    assert(self.optional_bytes_of(s[j as int]) is None);
                    assert(!(forall|k: int|
                        0 <= k < s.len() ==> (#[trigger] self.optional_bytes_of(s[k])) is Some));
                    assert(e == (UnboxError { expected: Rust::Bytes, actual: self.spec_ruby_type(s[j as int]) }));
                    return Err(e);
                },
            }
            j += 1;
        }
        assert(optional_byte_views(out@) =~= Seq::new(
            s.len(),
            |k: int| self.optional_bytes_of(s[k])->Some_0,
        ));
        Ok(out)
    }
}

/// A copy of `b`.
fn copy_bytes(b: &Vec<u8>) -> (r: Vec<u8>)
    ensures
        r@ == b@,
{
    let mut out: Vec<u8> = Vec::with_capacity(b.len());
    let mut j: usize = 0;
    while j < b.len()
        invariant
            j <= b@.len(),
            out@ == b@.subrange(0, j as int),
        decreases b@.len() - j,
    {
        out.push(b[j]);
        j += 1;
        assert(out@ =~= b@.subrange(0, j as int));
    }
    assert(b@.subrange(0, b@.len() as int) =~= b@);
    out
}

/// Converting byte strings into a guest Array and back gives the same byte
/// strings.
pub proof fn lemma_byte_strings_round_trip(
    before: Artichoke,
    after: Artichoke,
    input: Seq<Seq<u8>>,
    v: Value,
)
    requires
        before.holds_byte_strings(after, input, v),
    ensures
        after.byte_strings_of(v) == Some(input),
{
    let n = before.heap@.len();
    let s = after.array_of(v)->Some_0;
    assert forall|k: int| 0 <= k < s.len() implies (#[trigger] after.bytes_of(s[k])) is Some
        && after.bytes_of(s[k])->Some_0 == input[k] by {
        assert(s[k] == Value::Object((n + k) as usize));
        assert(after.heap@[n + k].object is String);
    }
    assert(Seq::new(s.len(), |k: int| after.bytes_of(s[k])->Some_0) =~= input);
}

/// Converting integers into a guest Array and back gives the same integers.
pub proof fn lemma_ints_round_trip(before: Artichoke, after: Artichoke, input: Seq<Int>, v: Value)
    requires
        before.allocated_array(after, v, fixnums(input)),
    ensures
        after.ints_of(v) == Some(input),
{
    assert(Seq::new(input.len(), |k: int| fixnums(input)[k]->Fixnum_0) =~= input);
}

/// Converting values into a guest Array and back gives the same values.
pub proof fn lemma_values_round_trip(
    before: Artichoke,
    after: Artichoke,
    input: Seq<Value>,
    v: Value,
)
    requires
        before.allocated_array(after, v, input),
    ensures
        after.array_of(v) == Some(input),
{
}

} // verus!
