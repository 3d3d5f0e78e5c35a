//! The computation a bucket runs to obtain a fresh value.

use vstd::prelude::*;

verus! {

/// Something that produces a value of type `T` when invoked with no arguments.
///
/// Every `Fn() -> T` is a task: what it requires and ensures is what the
/// task requires and produces, as [`lemma_fn_is_task`] states. Other types
/// may implement the trait themselves; a bucket then relies on `call` to meet
/// the contract below.
pub trait Task<T> {
    /// Whether the task may be run. Unless an implementation says otherwise,
    /// it always may.
    open spec fn runnable(&self) -> bool {
        true
    }

    /// Whether `value` is a possible result of running the task. Unless an
    /// implementation says otherwise, every value is.
    open spec fn produces(&self, value: T) -> bool {
        true
    }

    /// Runs the task once.
    fn call(&self) -> (value: T)
        requires
            self.runnable(),
        ensures
            self.produces(value),
    ;
}

impl<F, T> Task<T> for F where F: Fn() -> T {
    open spec fn runnable(&self) -> bool {
        call_requires(*self, ())
    }

    open spec fn produces(&self, value: T) -> bool {
        call_ensures(*self, (), value)
    }

    fn call(&self) -> (value: T) {
        (self)()
    }
}

/// For a function or closure, to be runnable is to have its precondition met,
/// and to produce a value is to be able to return it. A verified caller that
/// hands a closure to a bucket calls this first.
pub proof fn lemma_fn_is_task<F: Fn() -> T, T>(f: F)
    ensures
        f.runnable() == call_requires(f, ()),
        forall|value: T| #[trigger] f.produces(value) == call_ensures(f, (), value),
{
}

} // verus!
