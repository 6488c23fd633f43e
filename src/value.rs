//! The guest value space: dynamic values, the heap slots that hold guest
//! objects, and the interpreter state that owns them.

use crate::buffer::Array;
use crate::types::Ruby;
use vstd::prelude::*;

verus! {

/// Guest integer width.
pub type Int = i64;

/// A dynamic guest value: an immediate scalar, or a reference to a heap slot.
///
/// Two values are equal when they are the same immediate or refer to the same
/// slot, so equality on references is object identity.
#[derive(Clone, Copy, Debug, PartialEq, Eq, Structural)]
pub enum Value {
    Nil,
    Bool(bool),
    Fixnum(Int),
    /// An interned symbol, by its id.
    Symbol(u32),
    /// A heap object, by the index of its slot.
    Object(usize),
}

/// The guest coercion protocols that the array engine sends.
#[derive(Clone, Copy, Debug, PartialEq, Eq, Structural)]
pub enum Coercion {
    /// `to_a`, explicit conversion to an Array.
    ToA,
    /// `to_ary`, implicit conversion to an Array.
    ToAry,
}

/// The guest method name of a coercion protocol.
pub open spec fn spec_method_name(c: Coercion) -> Seq<char> {
    match c {
        Coercion::ToA => "to_a"@,
        Coercion::ToAry => "to_ary"@,
    }
}

impl Coercion {
    /// The guest method name.
    pub fn method_name(self) -> (r: String)
        ensures
            r@ == spec_method_name(self),
    {
        match self {
            Coercion::ToA => "to_a".to_owned(),
            Coercion::ToAry => "to_ary".to_owned(),
        }
    }
}

/// What a guest object does when sent a coercion message.
#[derive(Clone, Copy, Debug, PartialEq, Eq, Structural)]
pub enum Reply {
    /// It does not respond to the message.
    Undefined,
    /// It responds and returns the value.
    Returns(Value),
    /// It responds and raises a guest exception.
    Raises,
}

/// An instance of a guest-defined class.
pub struct Instance {
    /// The name of its class.
    pub class: String,
    /// Its answer to `to_a`.
    pub to_a: Reply,
    /// Its answer to `to_ary`.
    pub to_ary: Reply,
}

/// What a heap slot holds.
pub enum Object {
    /// A boxed host Array, tagged "Data".
    Data(Array),
    /// A guest String, as bytes.
    String(Vec<u8>),
    /// An instance of a guest-defined class.
    Instance(Instance),
}

/// A guest heap slot: an object and its frozen flag.
pub struct Slot {
    pub object: Object,
    pub frozen: bool,
}

/// The shape of a guest method's arguments.
#[derive(Clone, Copy, Debug, PartialEq, Eq, Structural)]
pub struct Arity {
    pub required: u8,
    pub optional: u8,
    /// Whether any number of further arguments is accepted.
    pub rest: bool,
}

/// A method registered on a guest class.
pub struct MethodDef {
    pub name: String,
    pub arity: Arity,
}

/// A guest class backed by a host struct, with its method table.
pub struct ClassDef {
    pub name: String,
    pub methods: Vec<MethodDef>,
}

/// The interpreter state that the core reads and changes: the guest heap,
/// the registered classes, the `$stderr` global and the warnings written.
pub struct Artichoke {
    pub heap: Vec<Slot>,
    pub classes: Vec<ClassDef>,
    /// The value of `$stderr`; nil silences warnings.
    pub stderr: Value,
    /// Messages passed to `Kernel#warn`, in order.
    pub warnings: Vec<String>,
}

impl Artichoke {
    /// The slot that `v` refers to, if it is a live heap reference.
    pub open spec fn slot_of(self, v: Value) -> Option<Slot> {
        match v {
            Value::Object(id) => if id < self.heap@.len() {
                Some(self.heap@[id as int])
            } else {
                None
            },
            _ => None,
        }
    }

    /// The elements of the Array that `v` refers to, if it is one.
    pub open spec fn array_of(self, v: Value) -> Option<Seq<Value>> {
        match self.slot_of(v) {
            Some(slot) => match slot.object {
                Object::Data(a) => Some(a@),
                _ => None,
            },
            None => None,
        }
    }

    /// Whether `v` is frozen. Immediates are always frozen.
    pub open spec fn spec_is_frozen(self, v: Value) -> bool {
        match self.slot_of(v) {
            Some(slot) => slot.frozen,
            None => true,
        }
    }

    /// The guest type tag of `v`.
    pub open spec fn spec_ruby_type(self, v: Value) -> Ruby {
        match v {
            Value::Nil => Ruby::Nil,
            Value::Bool(_) => Ruby::Bool,
            Value::Fixnum(_) => Ruby::Fixnum,
            Value::Symbol(_) => Ruby::Symbol,
            Value::Object(_) => match self.slot_of(v) {
                Some(slot) => match slot.object {
                    Object::Data(_) => Ruby::Data,
                    Object::String(_) => Ruby::String,
                    Object::Instance(_) => Ruby::Object,
                },
                None => Ruby::Unreachable,
            },
        }
    }

    /// The name used for `v` in error messages: `nil`, `true` and `false`
    /// for those values, the class name otherwise.
    pub open spec fn spec_pretty_name(self, v: Value) -> Seq<char> {
        match v {
            Value::Nil => "nil"@,
            Value::Bool(true) => "true"@,
            Value::Bool(false) => "false"@,
            Value::Fixnum(_) => "Integer"@,
            Value::Symbol(_) => "Symbol"@,
            Value::Object(_) => match self.slot_of(v) {
                Some(slot) => match slot.object {
                    Object::Data(_) => "Array"@,
                    Object::String(_) => "String"@,
                    Object::Instance(inst) => inst.class@,
                },
                None => "internal and unreachable"@,
            },
        }
    }

    /// What `v` does when sent coercion `c`. An Array answers both with
    /// itself; other values and dangling references do not respond.
    pub open spec fn spec_send(self, v: Value, c: Coercion) -> Reply {
        match self.slot_of(v) {
            Some(slot) => match slot.object {
                Object::Data(_) => Reply::Returns(v),
                Object::String(_) => Reply::Undefined,
                Object::Instance(inst) => match c {
                    Coercion::ToA => inst.to_a,
                    Coercion::ToAry => inst.to_ary,
                },
            },
            None => Reply::Undefined,
        }
    }

    /// `after` is `self` with one slot appended, holding `object`, unfrozen.
    pub open spec fn allocated(self, after: Artichoke, object: Object) -> bool {
        &&& after.heap@ == self.heap@.push(Slot { object, frozen: false })
        &&& after.classes == self.classes
        &&& after.stderr == self.stderr
        &&& after.warnings == self.warnings
    }

    /// `after` is `self` with one new unfrozen Array slot holding `s`,
    /// referred to by `v`.
    pub open spec fn allocated_array(self, after: Artichoke, v: Value, s: Seq<Value>) -> bool {
        &&& v == Value::Object(self.heap@.len() as usize)
        &&& after.heap@.len() == self.heap@.len() + 1
        &&& forall|j: int| 0 <= j < self.heap@.len() ==> after.heap@[j] == self.heap@[j]
        &&& !after.spec_is_frozen(v)
        &&& after.array_of(v) == Some(s)
        &&& after.classes == self.classes
        &&& after.stderr == self.stderr
        &&& after.warnings == self.warnings
    }

    /// `after` is `self` with the Array in slot `id` now holding `s`, and
    /// nothing else changed.
    pub open spec fn stored(self, after: Artichoke, id: usize, s: Seq<Value>) -> bool {
        &&& id < self.heap@.len()
        &&& after.heap@.len() == self.heap@.len()
        &&& forall|j: int| 0 <= j < self.heap@.len() && j != id ==> after.heap@[j] == self.heap@[j]
        &&& after.heap@[id as int].frozen == self.heap@[id as int].frozen
        &&& after.array_of(Value::Object(id)) == Some(s)
        &&& after.classes == self.classes
        &&& after.stderr == self.stderr
        &&& after.warnings == self.warnings
    }

    /// A fresh interpreter with an empty heap, no classes and a nil
    /// `$stderr`.
    pub fn new() -> (r: Artichoke)
        ensures
            r.heap@.len() == 0,
            r.classes@.len() == 0,
            r.stderr == Value::Nil,
            r.warnings@.len() == 0,
    {
        Artichoke { heap: Vec::new(), classes: Vec::new(), stderr: Value::Nil, warnings: Vec::new() }
    }

    /// Allocates a new unfrozen slot holding `object`.
    pub fn allocate(&mut self, object: Object) -> (r: Value)
        ensures
            r == Value::Object(old(self).heap@.len() as usize),
            old(self).allocated(*final(self), object),
    {
        let id = self.heap.len();
        self.heap.push(Slot { object, frozen: false });
        Value::Object(id)
    }

    /// Boxes `array` in a new guest heap slot tagged "Data".
    pub fn box_array(&mut self, array: Array) -> (r: Value)
        ensures
            old(self).allocated_array(*final(self), r, array@),
    {
        let ghost a = array@;
        let n = self.heap.len();
        let r = self.allocate(Object::Data(array));
        assert(self.heap@[n as int].object == Object::Data(array));
        r
    }

    /// The slot index of the Array that `v` refers to, if it is one.
    pub fn unbox_id(&self, v: Value) -> (r: Option<usize>)
        ensures
            r == (if self.array_of(v) is Some {
                Some(v->Object_0)
            } else {
                None::<usize>
            }),
    {
        match v {
            Value::Object(id) => {
                if id < self.heap.len() {
                    match &self.heap[id].object {
                        Object::Data(_) => Some(id),
                        _ => None,
                    }
                } else {
                    None
                }
            },
            _ => None,
        }
    }

    /// The Array that `v` refers to, if it is one.
    pub fn array_at(&self, v: Value) -> (r: Option<&Array>)
        ensures
            match r {
                Some(a) => self.array_of(v) == Some(a@),
                None => self.array_of(v) is None,
            },
    {
        match v {
            Value::Object(id) => {
                if id < self.heap.len() {
                    match &self.heap[id].object {
                        Object::Data(a) => Some(a),
                        _ => None,
                    }
                } else {
                    None
                }
            },
            _ => None,
        }
    }

    /// A copy of the elements of the Array that `v` refers to, if it is one.
    pub fn array_snapshot(&self, v: Value) -> (r: Option<Array>)
        ensures
            match r {
                Some(a) => self.array_of(v) == Some(a@),
                None => self.array_of(v) is None,
            },
    {
        match self.array_at(v) {
            Some(a) => Some(a.snapshot()),
            None => None,
        }
    }

    /// Takes the Array out of slot `id`, leaving an empty Array there.
    pub(crate) fn take_array(&mut self, id: usize) -> (r: Array)
        requires
            old(self).array_of(Value::Object(id)) is Some,
        ensures
            Some(r@) == old(self).array_of(Value::Object(id)),
            old(self).stored(*final(self), id, Seq::empty()),
    {
        let frozen = self.heap[id].frozen;
        let mut slot = Slot { object: Object::Data(Array::new()), frozen };
        self.heap.set_and_swap(id, &mut slot);
        match slot.object {
            Object::Data(a) => a,
            _ => Array::new(),
        }
    }

    /// Puts `array` into slot `id`, in place of what it held, keeping the
    /// slot's identity and frozen flag.
    pub(crate) fn put_array(&mut self, id: usize, array: Array)
        requires
            id < old(self).heap@.len(),
        ensures
            old(self).stored(*final(self), id, array@),
    {
        let frozen = self.heap[id].frozen;
        let ghost a = array@;
        self.heap.set(id, Slot { object: Object::Data(array), frozen });
        assert(self.heap@[id as int].object == Object::Data(array));
    }

    /// Whether `v` is frozen. Immediates are always frozen.
    pub fn is_frozen(&self, v: Value) -> (r: bool)
        ensures
            r == self.spec_is_frozen(v),
    {
        match v {
            Value::Object(id) => if id < self.heap.len() {
                self.heap[id].frozen
            } else {
                true
            },
            _ => true,
        }
    }

    /// Marks the heap object `v` frozen; no change for immediates.
    pub fn freeze(&mut self, v: Value)
        ensures
            final(self).heap@.len() == old(self).heap@.len(),
            forall|j: int|
                0 <= j < old(self).heap@.len() && Value::Object(j as usize) != v
                    ==> #[trigger] final(self).heap@[j] == old(self).heap@[j],
            final(self).spec_is_frozen(v),
            forall|w: Value| #[trigger] final(self).array_of(w) == old(self).array_of(w),
            final(self).classes == old(self).classes,
            final(self).stderr == old(self).stderr,
            final(self).warnings == old(self).warnings,
    {
        if let Value::Object(id) = v {
            if id < self.heap.len() {
                let mut slot = Slot { object: Object::String(Vec::new()), frozen: true };
                self.heap.set_and_swap(id, &mut slot);
                self.heap.set(id, Slot { object: slot.object, frozen: true });
            }
        }
    }

    /// The guest type tag of `v`.
    pub fn ruby_type(&self, v: Value) -> (r: Ruby)
        ensures
            r == self.spec_ruby_type(v),
    {
        match v {
            Value::Nil => Ruby::Nil,
            Value::Bool(_) => Ruby::Bool,
            Value::Fixnum(_) => Ruby::Fixnum,
            Value::Symbol(_) => Ruby::Symbol,
            Value::Object(id) => if id < self.heap.len() {
                match &self.heap[id].object {
                    Object::Data(_) => Ruby::Data,
                    Object::String(_) => Ruby::String,
                    Object::Instance(_) => Ruby::Object,
                }
            } else {
                Ruby::Unreachable
            },
        }
    }

    /// The name used for `v` in error messages.
    pub fn pretty_name(&self, v: Value) -> (r: String)
        ensures
            r@ == self.spec_pretty_name(v),
    {
        match v {
            Value::Nil => "nil".to_owned(),
            Value::Bool(b) => if b {
                "true".to_owned()
            } else {
                "false".to_owned()
            },
            Value::Fixnum(_) => "Integer".to_owned(),
            Value::Symbol(_) => "Symbol".to_owned(),
            Value::Object(id) => if id < self.heap.len() {
                match &self.heap[id].object {
                    Object::Data(_) => "Array".to_owned(),
                    Object::String(_) => "String".to_owned(),
                    Object::Instance(inst) => inst.class.clone(),
                }
            } else {
                "internal and unreachable".to_owned()
            },
        }
    }

    /// Sends coercion `c` to `v`.
    pub fn send(&self, v: Value, c: Coercion) -> (r: Reply)
        ensures
            r == self.spec_send(v, c),
    {
        match v {
            Value::Object(id) => if id < self.heap.len() {
                match &self.heap[id].object {
                    Object::Data(_) => Reply::Returns(v),
                    Object::String(_) => Reply::Undefined,
                    Object::Instance(inst) => match c {
                        Coercion::ToA => inst.to_a,
                        Coercion::ToAry => inst.to_ary,
                    },
                }
            } else {
                Reply::Undefined
            },
            _ => Reply::Undefined,
        }
    }

    /// Whether `v` responds to coercion `c`.
    pub fn respond_to(&self, v: Value, c: Coercion) -> (r: bool)
        ensures
            r == (self.spec_send(v, c) != Reply::Undefined),
    {
        !matches!(self.send(v, c), Reply::Undefined)
    }
}

} // verus!
