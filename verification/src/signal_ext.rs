//! The combinator surface every signal carries.

use vstd::prelude::*;

verus! {

use crate::primitives::channel::Channel;
use crate::primitives::fold::{fold_initial_rel, FoldSignal};
use crate::primitives::fork::Branch;
use crate::primitives::lift::{lift_initial_rel, LiftSignal};
use crate::primitives::lift2::{join_initial_rel, Lift2Signal};
use crate::primitives::value::Value;
use crate::transform::{Combine, Counter, Filter, Inspect, Lift, Merge, Pair, Transform};
use crate::{sig_cloned, spec_unwrap, Builder, Signal, SignalType};

/// The combinators available on every signal.
///
/// Each one consumes its receiver, registers it as the new node's
/// parent, and computes the new node's initial value at build time; a
/// constant receiver makes the result constant, per the kind algebra of
/// the combine nodes.
pub trait SignalExt<A>: Signal<A> where A: 'static + Send + Clone {
    /// Transform an input signal into an output signal.
    ///
    /// Because `f` is assumed pure, it is only evaluated when the value
    /// of the input changes.
    fn lift<F, B>(self, f: F) -> (r: LiftSignal<Self, Lift<F>, A, B>) where
        F: 'static + Send + Fn(A) -> B,
        B: 'static + Send + Clone,

        requires
            self.wf(),
            forall|a: A| #[trigger] call_requires(f, (a,)),
        ensures
            r.wf(),
            lift_initial_rel((Lift { f }), self.initial_spec(), r.initial_spec()),
    {
        let mut this = self;
        this.init();
        LiftSignal::new(this, Lift { f })
    }

    /// Combine two signals into an output signal.
    ///
    /// `f` is applied to the newest value of each side whenever either
    /// side changes; the side that did not change contributes its
    /// cached value.
    fn lift2<SB, F, B, C>(self, right: SB, f: F) -> (r: Lift2Signal<
        Self,
        SB,
        Merge<F>,
        A,
        B,
        C,
    >) where
        SB: 'static + Signal<B>,
        F: 'static + Send + Fn(A, B) -> C,
        B: 'static + Send + Clone,
        C: 'static + Send + Clone,

        requires
            self.wf(),
            right.wf(),
            forall|a: A, b: B| #[trigger] call_requires(f, (a, b)),
        ensures
            r.wf(),
            join_initial_rel(
                (Merge { f }),
                self.initial_spec(),
                right.initial_spec(),
                r.initial_spec(),
            ),
    {
        let mut this = self;
        let mut right = right;
        this.init();
        right.init();
        let config = this.config();
        Lift2Signal::new(config, this, right, Merge { f })
    }

    /// Merge data from a signal into an accumulator and return a signal
    /// with the accumulator's value.
    fn fold<F, B>(self, initial: B, f: F) -> (r: FoldSignal<Self, Merge<F>, A, B>) where
        F: 'static + Send + Fn(B, A) -> B,
        B: 'static + Send + Clone,

        requires
            self.wf(),
            forall|b: B, a: A| #[trigger] call_requires(f, (b, a)),
        ensures
            r.wf(),
            fold_initial_rel((Merge { f }), initial, self.initial_spec(), r.initial_spec()),
    {
        let mut this = self;
        this.init();
        let config = this.config();
        FoldSignal::new(config, this, initial, Merge { f })
    }

    /// Sugar for `Builder::add`.
    fn add_to(self, builder: &mut Builder) -> (r: Branch<A>)
        requires
            self.wf(),
        ensures
            sig_cloned(self.initial_spec(), r.initial),
            r.source_rx is None,
    {
        builder.add(self)
    }

    /// Sugar for `Builder::async_`.
    fn async_(self, builder: &mut Builder) -> (r: Branch<A>)
        requires
            self.wf(),
        ensures
            r.source_rx is None,
            self.initial_spec() is Dynamic ==> (r.initial matches SignalType::Dynamic(v)
                && crate::clone2(spec_unwrap(self.initial_spec()), v)),
            self.initial_spec() is Constant ==> sig_cloned(self.initial_spec(), r.initial),
    {
        builder.async_(self)
    }

    /// Alias of `lift`.
    fn map<F, B>(self, f: F) -> (r: LiftSignal<Self, Lift<F>, A, B>) where
        F: 'static + Send + Fn(A) -> B,
        B: 'static + Send + Clone,

        requires
            self.wf(),
            forall|a: A| #[trigger] call_requires(f, (a,)),
        ensures
            r.wf(),
            lift_initial_rel((Lift { f }), self.initial_spec(), r.initial_spec()),
    {
        self.lift(f)
    }

    /// Takes two input signals and returns a signal of pairs of their
    /// newest elements.  Unlike an iterator zip it never waits for both
    /// sides: the side that did not change contributes its cached
    /// value.
    fn zip<SB, B>(self, right: SB) -> (r: Lift2Signal<Self, SB, Pair, A, B, (A, B)>) where
        SB: 'static + Signal<B>,
        B: 'static + Send + Clone,

        requires
            self.wf(),
            right.wf(),
        ensures
            r.wf(),
            join_initial_rel(Pair, self.initial_spec(), right.initial_spec(), r.initial_spec()),
    {
        let mut this = self;
        let mut right = right;
        this.init();
        right.init();
        let config = this.config();
        Lift2Signal::new(config, this, right, Pair)
    }

    /// Pairs each value with a running count of the values seen,
    /// starting from one for the value reduced at build time.
    fn enumerate(self) -> (r: FoldSignal<Self, Counter, A, (usize, A)>)
        requires
            self.wf(),
        ensures
            r.wf(),
            exists|a0: A|
                cloned::<A>(spec_unwrap(self.initial_spec()), a0) && #[trigger] fold_initial_rel(
                    Counter,
                    (0usize, a0),
                    self.initial_spec(),
                    r.initial_spec(),
                ),
    {
        let mut this = self;
        this.init();
        let initial = this.initial().unwrap();
        let ghost a0 = initial;
        let config = this.config();
        let r = FoldSignal::new(config, this, (0usize, initial), Counter);
        proof {
            assert(cloned::<A>(spec_unwrap(this.initial_spec()), a0));
            assert(fold_initial_rel(Counter, (0usize, a0), this.initial_spec(), r.initial_spec()));
        }
        r
    }

    /// Keeps the values the predicate accepts, under `Some`; a rejected
    /// value still yields one output, `None`, so downstream stays in
    /// step.
    fn filter<F>(self, f: F) -> (r: LiftSignal<Self, Filter<F>, A, Option<A>>) where
        F: 'static + Send + Fn(&A) -> bool,

        requires
            self.wf(),
            forall|a: A| #[trigger] call_requires(f, (&a,)),
        ensures
            r.wf(),
            lift_initial_rel((Filter { f }), self.initial_spec(), r.initial_spec()),
    {
        let mut this = self;
        this.init();
        LiftSignal::new(this, Filter { f })
    }

    /// Shows each value to an observer and passes it through unchanged.
    fn inspect<F>(self, f: F) -> (r: LiftSignal<Self, Inspect<F>, A, A>) where
        F: 'static + Send + Fn(&A) -> bool,

        requires
            self.wf(),
            forall|a: A| #[trigger] call_requires(f, (&a,)),
        ensures
            r.wf(),
            lift_initial_rel((Inspect { f }), self.initial_spec(), r.initial_spec()),
    {
        let mut this = self;
        this.init();
        LiftSignal::new(this, Inspect { f })
    }
}

impl<A: 'static + Send + Clone> SignalExt<A> for Channel<A> {

}

impl<A: 'static + Send + Clone> SignalExt<A> for Value<A> {

}

impl<A: 'static + Send + Clone> SignalExt<A> for Branch<A> {

}

impl<
    S: Signal<A>,
    F: Transform<A, B> + 'static,
    A: 'static + Send + Clone,
    B: 'static + Send + Clone,
> SignalExt<B> for LiftSignal<S, F, A, B> {

}

impl<
    S: Signal<A>,
    F: Combine<B, A, B> + 'static,
    A: 'static + Send + Clone,
    B: 'static + Send + Clone,
> SignalExt<B> for FoldSignal<S, F, A, B> {

}

impl<
    SL: Signal<A>,
    SR: Signal<B>,
    F: Combine<A, B, C> + 'static,
    A: 'static + Send + Clone,
    B: 'static + Send + Clone,
    C: 'static + Send + Clone,
> SignalExt<C> for Lift2Signal<SL, SR, F, A, B, C> {

}

} // verus!
