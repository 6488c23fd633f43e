//! Value interop and array semantics for an embedded dynamic-language
//! runtime.

pub mod array;
pub mod buffer;
pub mod convert;
pub mod types;
pub mod value;
pub mod warn;

pub use array::{ElementReferenceArgs, Error};
pub use buffer::Array;
pub use convert::UnboxError;
pub use types::{Ruby, Rust};
pub use value::{Artichoke, Coercion, Instance, Int, Object, Reply, Slot, Value};
pub use warn::Warn;
