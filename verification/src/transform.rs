//! Pure transformations, as values.
//!
//! Nodes do not hold bare closures: they hold implementors of
//! [`Transform`] (one input) or [`Combine`] (two inputs), whose
//! contracts the node contracts can speak about.  [`Lift`] and
//! [`Merge`] adapt application closures; the remaining types are the
//! named transformations behind the sugar combinators.

use vstd::prelude::*;

verus! {

use vstd::std_specs::ops::AddSpec;

/// A pure function from `A` to `B`, as a value a node can own.
pub trait Transform<A, B>: Send {
    /// On which inputs the transformation may be applied.
    spec fn pre(&self, a: A) -> bool;

    /// Which outputs applying it may produce.
    spec fn post(&self, a: A, b: B) -> bool;

    fn transform(&self, a: A) -> (r: B)
        requires
            self.pre(a),
        ensures
            self.post(a, r),
    ;
}

/// A pure function combining an `X` and a `Y` into a `Z`.
pub trait Combine<X, Y, Z>: Send {
    spec fn pre2(&self, x: X, y: Y) -> bool;

    spec fn post2(&self, x: X, y: Y, z: Z) -> bool;

    fn combine(&self, x: X, y: Y) -> (r: Z)
        requires
            self.pre2(x, y),
        ensures
            self.post2(x, y, r),
    ;
}

/// Adapts a one-argument closure to a [`Transform`].
pub struct Lift<F> {
    pub f: F,
}

impl<F: Fn(A) -> B + Send, A, B> Transform<A, B> for Lift<F> {
    open spec fn pre(&self, a: A) -> bool {
        call_requires(self.f, (a,))
    }

    open spec fn post(&self, a: A, b: B) -> bool {
        call_ensures(self.f, (a,), b)
    }

    fn transform(&self, a: A) -> B {
        (self.f)(a)
    }
}

/// Adapts a two-argument closure to a [`Combine`].
pub struct Merge<F> {
    pub f: F,
}

impl<F: Fn(X, Y) -> Z + Send, X, Y, Z> Combine<X, Y, Z> for Merge<F> {
    open spec fn pre2(&self, x: X, y: Y) -> bool {
        call_requires(self.f, (x, y))
    }

    open spec fn post2(&self, x: X, y: Y, z: Z) -> bool {
        call_ensures(self.f, (x, y), z)
    }

    fn combine(&self, x: X, y: Y) -> Z {
        (self.f)(x, y)
    }
}

/// Pairs its two inputs: the combination behind `zip`.
pub struct Pair;

impl<X: Send, Y: Send> Combine<X, Y, (X, Y)> for Pair {
    open spec fn pre2(&self, x: X, y: Y) -> bool {
        true
    }

    open spec fn post2(&self, x: X, y: Y, z: (X, Y)) -> bool {
        z == (x, y)
    }

    fn combine(&self, x: X, y: Y) -> (X, Y) {
        (x, y)
    }
}

/// The accumulation step behind the event counter: adds the increment
/// to the running total.  On a type whose addition obeys its
/// specification the result is pinned to that addition.
pub struct Increment;

impl<A: core::ops::Add<Output = A>> Combine<A, A, A> for Increment {
    open spec fn pre2(&self, x: A, y: A) -> bool {
        x.add_req(y)
    }

    open spec fn post2(&self, x: A, y: A, z: A) -> bool {
        A::obeys_add_spec() ==> z == x.add_spec(y)
    }

    fn combine(&self, x: A, y: A) -> A {
        x + y
    }
}

/// The accumulation step behind `enumerate`: counts the values seen so
/// far and carries the newest one.  The count saturates at the largest
/// representable index rather than wrap.
pub struct Counter;

impl<A: Send> Combine<(usize, A), A, (usize, A)> for Counter {
    open spec fn pre2(&self, x: (usize, A), y: A) -> bool {
        true
    }

    open spec fn post2(&self, x: (usize, A), y: A, z: (usize, A)) -> bool {
        z == (if x.0 < usize::MAX { (x.0 + 1) as usize } else { x.0 }, y)
    }

    fn combine(&self, x: (usize, A), y: A) -> ((usize, A)) {
        let n = if x.0 < usize::MAX { x.0 + 1 } else { x.0 };
        (n, y)
    }
}

/// The transformation behind `filter`: keeps a value under `Some` when
/// the predicate accepts it, and turns it into `None` otherwise, so
/// that downstream still sees one output per input.
pub struct Filter<F> {
    pub f: F,
}

impl<F: Fn(&A) -> bool + Send, A> Transform<A, Option<A>> for Filter<F> {
    open spec fn pre(&self, a: A) -> bool {
        call_requires(self.f, (&a,))
    }

    open spec fn post(&self, a: A, b: Option<A>) -> bool {
        exists|keep: bool|
            #[trigger] call_ensures(self.f, (&a,), keep) && b == (if keep {
                Some(a)
            } else {
                None
            })
    }

    fn transform(&self, a: A) -> Option<A> {
        if (self.f)(&a) {
            Some(a)
        } else {
            None
        }
    }
}

/// The transformation behind `inspect`: shows each value to an observer
/// and passes it through unchanged.
pub struct Inspect<F> {
    pub f: F,
}

impl<F: Fn(&A) -> bool + Send, A> Transform<A, A> for Inspect<F> {
    open spec fn pre(&self, a: A) -> bool {
        call_requires(self.f, (&a,))
    }

    open spec fn post(&self, a: A, b: A) -> bool {
        b == a
    }

    fn transform(&self, a: A) -> A {
        (self.f)(&a);
        a
    }
}

} // verus!
