//! The unary map node.

use vstd::prelude::*;

verus! {

use crate::transform::Transform;
use crate::{Config, Event, Push, Signal, SignalType};
use core::marker::PhantomData;

/// What one propagation step of a map node does: a new value is mapped,
/// a tick and the terminal marker pass through untouched, and on a tick
/// the transformation plays no part at all.
pub open spec fn lift_rel<F: Transform<A, B>, A, B>(f: F, e: Event<A>, out: Event<B>) -> bool {
    match e {
        Event::Changed(a) => out matches Event::Changed(b) && f.post(a, b),
        Event::Unchanged => out is Unchanged,
        Event::Exit => out is Exit,
    }
}

/// Performs one propagation step of a map node.
pub fn lift_step<F: Transform<A, B>, A, B>(f: &F, event: Event<A>) -> (out: Event<B>)
    requires
        forall|a: A| #[trigger] f.pre(a),
    ensures
        lift_rel(*f, event, out),
{
    match event {
        Event::Changed(a) => Event::Changed(f.transform(a)),
        Event::Unchanged => Event::Unchanged,
        Event::Exit => Event::Exit,
    }
}

/// How a map node's initial value relates to its parent's: same kind,
/// and the carried value is the image of (a clone of) the parent's.
pub open spec fn lift_initial_rel<F: Transform<A, B>, A: Clone, B>(
    f: F,
    pi: SignalType<A>,
    ri: SignalType<B>,
) -> bool {
    match pi {
        SignalType::Constant(a) => ri matches SignalType::Constant(b) && lift_image(f, a, b),
        SignalType::Dynamic(a) => ri matches SignalType::Dynamic(b) && lift_image(f, a, b),
    }
}

/// Whether `b` is the image under `f` of some clone of `a`.
pub open spec fn lift_image<F: Transform<A, B>, A: Clone, B>(f: F, a: A, b: B) -> bool {
    exists|a2: A| cloned::<A>(a, a2) && #[trigger] f.post(a2, b)
}

/// The result of a `lift` operation: applies a pure transformation to
/// each value of its parent.  Because the transformation is pure, it is
/// only evaluated when the parent's value changes; a constant parent
/// makes this node constant too, evaluated once at build time.
#[verifier::reject_recursive_types(A)]
pub struct LiftSignal<S, F, A, B> where A: Send + Clone, B: Send + Clone {
    pub config: Config,
    pub parent: S,
    pub f: F,
    pub initial: SignalType<B>,
    pub marker: PhantomData<A>,
}

impl<
    S: Signal<A>,
    F: Transform<A, B>,
    A: 'static + Send + Clone,
    B: 'static + Send + Clone,
> LiftSignal<S, F, A, B> {
    pub fn new(parent: S, f: F) -> (r: Self)
        requires
            parent.wf(),
            forall|a: A| #[trigger] f.pre(a),
        ensures
            r.wf(),
            r.parent == parent,
            r.f == f,
            lift_initial_rel(f, parent.initial_spec(), r.initial_spec()),
    {
        let config = parent.config();
        let initial = match parent.initial() {
            SignalType::Constant(a) => SignalType::Constant(f.transform(a)),
            SignalType::Dynamic(a) => SignalType::Dynamic(f.transform(a)),
        };
        LiftSignal { config, parent, f, initial, marker: PhantomData }
    }
}

impl<
    S: Signal<A>,
    F: Transform<A, B> + 'static,
    A: 'static + Send + Clone,
    B: 'static + Send + Clone,
> Signal<B> for LiftSignal<S, F, A, B> {
    open spec fn wf(&self) -> bool {
        &&& self.parent.wf()
        &&& forall|a: A| #[trigger] self.f.pre(a)
        &&& (self.initial is Constant <==> self.parent.initial_spec() is Constant)
    }

    open spec fn height(&self) -> nat {
        self.parent.height() + 1
    }

    open spec fn initial_spec(&self) -> SignalType<B> {
        self.initial
    }

    fn config(&self) -> Config {
        self.config
    }

    fn initial(&self) -> SignalType<B> {
        self.initial.clone()
    }

    fn push_to<P: Push<B>>(self, target: Option<P>) {
        let LiftSignal { parent, f, .. } = self;
        parent.push_to(Some(LiftPusher { child: target, f, marker: PhantomData }));
    }
}

/// The link a map node installs in its worker's push chain.  It maps
/// each changed value and forwards the result; with no child attached
/// it still evaluates the transformation, whose side effects the
/// application may rely on, and drops the result.
#[verifier::reject_recursive_types(A)]
pub struct LiftPusher<P, F, A, B> where A: Send + Clone, B: Send + Clone {
    pub child: Option<P>,
    pub f: F,
    pub marker: PhantomData<(A, B)>,
}

impl<
    P: Push<B>,
    F: Transform<A, B> + 'static,
    A: 'static + Send + Clone,
    B: 'static + Send + Clone,
> Push<A> for LiftPusher<P, F, A, B> {
    open spec fn pusher_wf(&self) -> bool {
        &&& match self.child {
            Some(p) => p.pusher_wf(),
            None => true,
        }
        &&& forall|a: A| #[trigger] self.f.pre(a)
    }

    open spec fn pusher_height(&self) -> nat {
        match self.child {
            Some(p) => p.pusher_height() + 1,
            None => 0,
        }
    }

    fn push(&mut self, event: Event<A>) {
        let out = lift_step(&self.f, event);
        match self.child {
            Some(ref mut t) => t.push(out),
            None => {},
        }
    }
}

} // verus!
