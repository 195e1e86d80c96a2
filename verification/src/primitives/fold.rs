//! The stateful accumulator node.

use vstd::prelude::*;

verus! {

use crate::transform::Combine;
use crate::{Config, Event, Push, Signal, SignalType};
use core::marker::PhantomData;

/// How a fold node's initial state relates to its parent's initial
/// value: same kind, and the state is the accumulator applied once to
/// (clones of) the starting state and the parent's value.
pub open spec fn fold_initial_rel<F: Combine<B, A, B>, A: Clone, B>(
    f: F,
    init: B,
    pi: SignalType<A>,
    ri: SignalType<B>,
) -> bool {
    match pi {
        SignalType::Constant(a) => ri matches SignalType::Constant(b) && fold_image(f, init, a, b),
        SignalType::Dynamic(a) => ri matches SignalType::Dynamic(b) && fold_image(f, init, a, b),
    }
}

/// Whether `b` is the accumulator applied to `init` and a clone of `a`.
pub open spec fn fold_image<F: Combine<B, A, B>, A: Clone, B>(f: F, init: B, a: A, b: B) -> bool {
    exists|a2: A| cloned::<A>(a, a2) && #[trigger] f.post2(init, a2, b)
}

/// Performs one propagation step of an accumulator node, following
/// spec'd behaviour of the fold: a changed value advances the state
/// through the accumulator (applied to a clone of the old state) and a
/// clone of the new state is announced; a tick and the terminal marker
/// pass through with the state untouched.
pub fn fold_step<F: Combine<B, A, B>, A, B: Clone>(f: &F, state: &mut B, event: Event<A>) -> (out:
    Event<B>)
    requires
        forall|b: B, a: A| #[trigger] f.pre2(b, a),
    ensures
        event matches Event::Changed(a) ==> (exists|s2: B|
            cloned::<B>(*old(state), s2) && #[trigger] f.post2(s2, a, *final(state))) && (
        out matches Event::Changed(b) && cloned::<B>(*final(state), b)),
        event is Unchanged ==> *final(state) == *old(state) && out is Unchanged,
        event is Exit ==> *final(state) == *old(state) && out is Exit,
{
    match event {
        Event::Changed(a) => {
            let cl = state.clone();
            let ghost gs = cl;
            let next = f.combine(cl, a);
            *state = next;
            proof {
                assert(cloned::<B>(*old(state), gs));
                assert(f.post2(gs, a, *state));
            }
            Event::Changed(state.clone())
        },
        Event::Unchanged => Event::Unchanged,
        Event::Exit => Event::Exit,
    }
}

/// The result of a `fold` operation: carries an accumulator across
/// events.  The parent's initial value is reduced into the accumulator
/// once, at build time; after that only changed values touch it, while
/// ticks and the terminal marker pass through with the state untouched.
pub struct FoldSignal<S, F, A, B> where A: Send + Clone, B: Send + Clone {
    pub config: Config,
    pub parent: S,
    pub f: F,
    pub state: SignalType<B>,
    pub marker: PhantomData<A>,
}

impl<
    S: Signal<A>,
    F: Combine<B, A, B>,
    A: 'static + Send + Clone,
    B: 'static + Send + Clone,
> FoldSignal<S, F, A, B> {
    pub fn new(config: Config, parent: S, initial: B, f: F) -> (r: Self)
        requires
            parent.wf(),
            forall|b: B, a: A| #[trigger] f.pre2(b, a),
        ensures
            r.wf(),
            r.parent == parent,
            r.f == f,
            fold_initial_rel(f, initial, parent.initial_spec(), r.initial_spec()),
    {
        let state = match parent.initial() {
            SignalType::Constant(a) => SignalType::Constant(f.combine(initial, a)),
            SignalType::Dynamic(a) => SignalType::Dynamic(f.combine(initial, a)),
        };
        FoldSignal { config, parent, f, state, marker: PhantomData }
    }
}

impl<
    S: Signal<A>,
    F: Combine<B, A, B> + 'static,
    A: 'static + Send + Clone,
    B: 'static + Send + Clone,
> Signal<B> for FoldSignal<S, F, A, B> {
    open spec fn wf(&self) -> bool {
        &&& self.parent.wf()
        &&& forall|b: B, a: A| #[trigger] self.f.pre2(b, a)
        &&& (self.state is Constant <==> self.parent.initial_spec() is Constant)
    }

    open spec fn height(&self) -> nat {
        self.parent.height() + 1
    }

    open spec fn initial_spec(&self) -> SignalType<B> {
        self.state
    }

    fn config(&self) -> Config {
        self.config
    }

    fn initial(&self) -> SignalType<B> {
        self.state.clone()
    }

    fn push_to<P: Push<B>>(self, target: Option<P>) {
        let FoldSignal { parent, f, state, .. } = self;
        let s = state.unwrap();
        parent.push_to(Some(FoldPusher { child: target, f, state: s, marker: PhantomData }));
    }
}

/// The link a fold node installs in its worker's push chain.  On a
/// changed value it advances the accumulator and forwards a copy of the
/// new state; ticks and the terminal marker pass through and leave the
/// state alone.  With no child attached the accumulator still advances,
/// since the application may rely on its side effects.
pub struct FoldPusher<P, F, A, B> where A: Send + Clone, B: Send + Clone {
    pub child: Option<P>,
    pub f: F,
    pub state: B,
    pub marker: PhantomData<A>,
}

impl<
    P: Push<B>,
    F: Combine<B, A, B> + 'static,
    A: 'static + Send + Clone,
    B: 'static + Send + Clone,
> Push<A> for FoldPusher<P, F, A, B> {
    open spec fn pusher_wf(&self) -> bool {
        &&& match self.child {
            Some(p) => p.pusher_wf(),
            None => true,
        }
        &&& forall|b: B, a: A| #[trigger] self.f.pre2(b, a)
    }

    open spec fn pusher_height(&self) -> nat {
        match self.child {
            Some(p) => p.pusher_height() + 1,
            None => 0,
        }
    }

    fn push(&mut self, event: Event<A>) {
        let out = fold_step(&self.f, &mut self.state, event);
        match self.child {
            Some(ref mut t) => t.push(out),
            None => {},
        }
    }
}

} // verus!
