//! Stored callbacks.
//!
//! A wrapper keeps each callback behind a trait object, so that its own type
//! does not depend on the closures it was given. The traits here carry the
//! closure's own precondition and postcondition along.

use vstd::prelude::*;

verus! {

/// A callback of one argument.
pub(crate) trait Callback<A, Message> {
    /// Whether the callback may be called with `arg`.
    spec fn accepts(&self, arg: A) -> bool;

    /// Whether `message` is a possible result of calling the callback with `arg`.
    spec fn produces(&self, arg: A, message: Message) -> bool;

    fn call(&self, arg: A) -> (message: Message)
        requires
            self.accepts(arg),
        ensures
            self.produces(arg, message),
    ;
}

impl<A, Message, F: Fn(A) -> Message> Callback<A, Message> for F {
    open spec fn accepts(&self, arg: A) -> bool {
        call_requires(*self, (arg,))
    }

    open spec fn produces(&self, arg: A, message: Message) -> bool {
        call_ensures(*self, (arg,), message)
    }

    fn call(&self, arg: A) -> (message: Message) {
        self(arg)
    }
}

/// A callback of two arguments.
pub(crate) trait Callback2<A, B, Message> {
    /// Whether the callback may be called with `first` and `second`.
    spec fn accepts(&self, first: A, second: B) -> bool;

    /// Whether `message` is a possible result of calling the callback with
    /// `first` and `second`.
    spec fn produces(&self, first: A, second: B, message: Message) -> bool;

    fn call(&self, first: A, second: B) -> (message: Message)
        requires
            self.accepts(first, second),
        ensures
            self.produces(first, second, message),
    ;
}

impl<A, B, Message, F: Fn(A, B) -> Message> Callback2<A, B, Message> for F {
    open spec fn accepts(&self, first: A, second: B) -> bool {
        call_requires(*self, (first, second))
    }

    open spec fn produces(&self, first: A, second: B, message: Message) -> bool {
        call_ensures(*self, (first, second), message)
    }

    fn call(&self, first: A, second: B) -> (message: Message) {
        self(first, second)
    }
}

} // verus!
