//! Guest and host type tags, used to classify values and to name them in
//! error messages.

use vstd::prelude::*;

verus! {

/// Classes of host types that a guest value can be converted to.
#[derive(Clone, Copy, Debug, PartialEq, Eq, Structural)]
pub enum Rust {
    /// `bool`.
    Bool,
    /// `Vec<u8>`.
    Bytes,
    /// A floating-point number.
    Float,
    /// A hash map.
    HashMap,
    /// An arbitrary host struct.
    Object,
    /// A signed integer.
    SignedInt,
    /// `String`.
    String,
    /// An unsigned integer.
    UnsignedInt,
    /// `Vec<T>`.
    Vec,
}

/// Classes of guest types.
#[derive(Clone, Copy, Debug, PartialEq, Eq, Structural)]
pub enum Ruby {
    /// `Array`.
    Array,
    /// `TrueClass` and `FalseClass`.
    Bool,
    /// `Class`.
    Class,
    /// A borrowed C pointer.
    CPointer,
    /// An owned pointer to a boxed host struct.
    Data,
    /// `Exception`.
    Exception,
    /// `Fiber`.
    Fiber,
    /// `Fixnum`, an immediate integer.
    Fixnum,
    /// `Float`.
    Float,
    /// `Hash`.
    Hash,
    /// A struct that is not heap allocated.
    InlineStruct,
    /// `Module`.
    Module,
    /// `nil`, the only instance of `NilClass`.
    Nil,
    /// Instances of guest-defined classes.
    Object,
    /// `Proc`.
    Proc,
    /// `Range`.
    Range,
    /// The singleton class of an object.
    SingletonClass,
    /// `String`.
    String,
    /// `Symbol`.
    Symbol,
    /// A value that must never be received from the interpreter.
    Unreachable,
    /// Placeholder for collections that own themselves.
    RecursiveSelfOwnership,
}

/// The class name that the guest shows for each type tag.
pub open spec fn spec_class_name(t: Ruby) -> Seq<char> {
    match t {
        Ruby::Array => "Array"@,
        Ruby::Bool => "Boolean"@,
        Ruby::Class => "Class"@,
        Ruby::CPointer => "C Pointer"@,
        Ruby::Data => "Rust-backed Ruby instance"@,
        Ruby::Exception => "Exception"@,
        Ruby::Fiber => "Fiber"@,
        Ruby::Fixnum => "Fixnum"@,
        Ruby::Float => "Float"@,
        Ruby::Hash => "Hash"@,
        Ruby::InlineStruct => "Inline Struct"@,
        Ruby::Module => "Module"@,
        Ruby::Nil => "NilClass"@,
        Ruby::Object => "Object"@,
        Ruby::Proc => "Proc"@,
        Ruby::Range => "Range"@,
        Ruby::SingletonClass => "Singleton (anonymous) class"@,
        Ruby::String => "String"@,
        Ruby::Symbol => "Symbol"@,
        Ruby::Unreachable => "internal and unreachable"@,
        Ruby::RecursiveSelfOwnership => "recursive self ownership"@,
    }
}

impl Ruby {
    /// Guest class name for a type tag.
    pub fn class_name(self) -> (r: &'static str)
        ensures
            r@ == spec_class_name(self),
    {
        match self {
            Ruby::Array => "Array",
            Ruby::Bool => "Boolean",
            Ruby::Class => "Class",
            Ruby::CPointer => "C Pointer",
            Ruby::Data => "Rust-backed Ruby instance",
            Ruby::Exception => "Exception",
            Ruby::Fiber => "Fiber",
            Ruby::Fixnum => "Fixnum",
            Ruby::Float => "Float",
            Ruby::Hash => "Hash",
            Ruby::InlineStruct => "Inline Struct",
            Ruby::Module => "Module",
            Ruby::Nil => "NilClass",
            Ruby::Object => "Object",
            Ruby::Proc => "Proc",
            Ruby::Range => "Range",
            Ruby::SingletonClass => "Singleton (anonymous) class",
            Ruby::String => "String",
            Ruby::Symbol => "Symbol",
            Ruby::Unreachable => "internal and unreachable",
            Ruby::RecursiveSelfOwnership => "recursive self ownership",
        }
    }
}

} // verus!
