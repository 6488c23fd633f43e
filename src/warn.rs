//! Guest warnings, sent to `Kernel#warn` unless `$stderr` is nil.

use crate::array::Error;
use crate::value::{Artichoke, Value};
use vstd::prelude::*;

verus! {

/// Interpreters that can emit warnings during execution.
pub trait Warn: Sized {
    /// `after` is `before` once `message` has been emitted as a warning.
    spec fn warned(before: Self, after: Self, message: Seq<char>) -> bool;

    /// Emits `message` as a warning.
    fn warn(&mut self, message: &str) -> (r: Result<(), Error>)
        ensures
            r is Ok,
            Self::warned(*old(self), *final(self), message@),
    ;
}

impl Warn for Artichoke {
    /// The message is appended to the warnings written, unless `$stderr` is
    /// nil; nothing else changes.
    open spec fn warned(before: Artichoke, after: Artichoke, message: Seq<char>) -> bool {
        &&& after.heap == before.heap
        &&& after.classes == before.classes
        &&& after.stderr == before.stderr
        &&& if before.stderr == Value::Nil {
            after.warnings == before.warnings
        } else {
            &&& after.warnings@.len() == before.warnings@.len() + 1
            &&& after.warnings@.subrange(0, before.warnings@.len() as int) == before.warnings@
            &&& after.warnings@.last()@ == message
        }
    }

    fn warn(&mut self, message: &str) -> (r: Result<(), Error>) {
        if self.stderr == Value::Nil {
            return Ok(());
        }
        let ghost before = self.warnings@;
        self.warnings.push(message.to_owned());
        assert(self.warnings@.subrange(0, before.len() as int) =~= before);
        Ok(())
    }
}

} // verus!
