//! The binary combine node.

use vstd::prelude::*;

verus! {

use crate::channel::{bounded, recv, spawn_worker, sync_send};
use crate::transform::Combine;
use crate::{spec_unwrap, target_wf, Config, Event, Push, Run, Signal, SignalType};
use core::marker::PhantomData;
use std::sync::mpsc::{Receiver, SyncSender};

/// One side's contribution to a combine step: either this side just
/// changed to the carried value, or it did not and the carried value is
/// its cached last one.
pub enum Value<T> {
    Changed(T),
    Unchanged(T),
}

impl<T> Value<T> {
    /// The carried value, whether fresh or cached.
    pub fn unwrap(self) -> (r: T)
        ensures
            r == match self {
                Value::Changed(v) => v,
                Value::Unchanged(v) => v,
            },
    {
        match self {
            Value::Changed(v) => v,
            Value::Unchanged(v) => v,
        }
    }

    /// Returns the contained value.
    pub fn into_inner(self) -> (r: T)
        ensures
            r == match self {
                Value::Changed(v) => v,
                Value::Unchanged(v) => v,
            },
    {
        match self {
            Value::Changed(v) => v,
            Value::Unchanged(v) => v,
        }
    }
}

impl<T: Clone> Clone for Value<T> {
    fn clone(&self) -> (r: Self)
        ensures
            match self {
                Value::Changed(v) => r matches Value::Changed(w) && cloned::<T>(*v, w),
                Value::Unchanged(v) => r matches Value::Unchanged(w) && cloned::<T>(*v, w),
            },
    {
        match self {
            Value::Changed(v) => Value::Changed(v.clone()),
            Value::Unchanged(v) => Value::Unchanged(v.clone()),
        }
    }
}

/// Whether `out` announces `c` where `f` combined `a2` and `b2` into `c`.
pub open spec fn out_combines<F: Combine<A, B, C>, A, B, C>(
    f: F,
    a2: A,
    b2: B,
    out: Event<C>,
) -> bool {
    match out {
        Event::Changed(c) => f.post2(a2, b2, c),
        _ => false,
    }
}

/// Whether `out` carries a combination of clones of `a` and `b`.
pub open spec fn join_out<F: Combine<A, B, C>, A: Clone, B: Clone, C>(
    f: F,
    a: A,
    b: B,
    out: Event<C>,
) -> bool {
    exists|a2: A, b2: B|
        cloned::<A>(a, a2) && cloned::<B>(b, b2) && #[trigger] out_combines(f, a2, b2, out)
}

/// Performs one step of the binary combine, following its table: a
/// changed side supplies its fresh value and refreshes its cache, an
/// unchanged side supplies its cache; when neither side changed, no
/// combination is computed and one tick is forwarded; the terminal
/// marker on either side comes out as the terminal marker, with both
/// caches untouched.
pub fn join_step<F: Combine<A, B, C>, A: Clone, B: Clone, C>(
    f: &F,
    last_l: &mut A,
    last_r: &mut B,
    le: Event<A>,
    re: Event<B>,
) -> (out: Event<C>)
    requires
        forall|a: A, b: B| #[trigger] f.pre2(a, b),
    ensures
        (le is Exit || re is Exit) ==> out is Exit && *final(last_l) == *old(last_l)
            && *final(last_r) == *old(last_r),
        !(le is Exit) && !(re is Exit) ==> {
            &&& (le matches Event::Changed(a) ==> *final(last_l) == a)
            &&& (le is Unchanged ==> *final(last_l) == *old(last_l))
            &&& (re matches Event::Changed(b) ==> *final(last_r) == b)
            &&& (re is Unchanged ==> *final(last_r) == *old(last_r))
            &&& ((le is Changed || re is Changed) ==> join_out(
                *f,
                *final(last_l),
                *final(last_r),
                out,
            ))
            &&& ((le is Unchanged && re is Unchanged) ==> out is Unchanged)
        },
{
    if matches!(le, Event::Exit) || matches!(re, Event::Exit) {
        return Event::Exit;
    }
    let mut any_changed = false;
    match le {
        Event::Changed(l) => {
            *last_l = l;
            any_changed = true;
        },
        _ => {},
    }
    match re {
        Event::Changed(r) => {
            *last_r = r;
            any_changed = true;
        },
        _ => {},
    }
    if any_changed {
        let cl = last_l.clone();
        let cr = last_r.clone();
        let ghost gl = cl;
        let ghost gr = cr;
        let c = f.combine(cl, cr);
        let out = Event::Changed(c);
        proof {
            assert(out_combines(*f, gl, gr, out));
        }
        out
    } else {
        Event::Unchanged
    }
}

/// How a combine node's initial value relates to its parents': it is
/// constant exactly when both parents are, and carries the combination
/// of (clones of) both parents' initial values.
pub open spec fn join_initial_rel<F: Combine<A, B, C>, A: Clone, B: Clone, C: Clone>(
    f: F,
    li: SignalType<A>,
    ri: SignalType<B>,
    out: SignalType<C>,
) -> bool {
    &&& (out is Constant <==> (li is Constant && ri is Constant))
    &&& exists|a2: A, b2: B|
        cloned::<A>(spec_unwrap(li), a2) && cloned::<B>(spec_unwrap(ri), b2) && #[trigger] f.post2(
            a2,
            b2,
            spec_unwrap(out),
        )
}

/// The result of a `lift2` operation: combines the newest values of two
/// parent signals.  Both caches are seeded with the parents' initial
/// values at build time, so a side that never fires still contributes.
/// If both parents are constant the node is constant; one dynamic
/// parent makes it dynamic, with the constant side folded into the
/// cache for good.
#[verifier::reject_recursive_types(A)]
#[verifier::reject_recursive_types(B)]
pub struct Lift2Signal<SL, SR, F, A, B, C> where A: Send + Clone, B: Send + Clone, C: Send + Clone {
    pub config: Config,
    pub left: SL,
    pub right: SR,
    pub f: F,
    pub initial: SignalType<C>,
    pub marker: PhantomData<(A, B)>,
}

impl<
    SL: Signal<A>,
    SR: Signal<B>,
    F: Combine<A, B, C>,
    A: 'static + Send + Clone,
    B: 'static + Send + Clone,
    C: 'static + Send + Clone,
> Lift2Signal<SL, SR, F, A, B, C> {
    pub fn new(config: Config, left: SL, right: SR, f: F) -> (r: Self)
        requires
            left.wf(),
            right.wf(),
            forall|a: A, b: B| #[trigger] f.pre2(a, b),
        ensures
            r.wf(),
            r.left == left,
            r.right == right,
            r.f == f,
            join_initial_rel(f, left.initial_spec(), right.initial_spec(), r.initial_spec()),
    {
        let li = left.initial();
        let ri = right.initial();
        let (l, l_constant) = match li {
            SignalType::Constant(l) => (l, true),
            SignalType::Dynamic(l) => (l, false),
        };
        let (r, r_constant) = match ri {
            SignalType::Constant(r) => (r, true),
            SignalType::Dynamic(r) => (r, false),
        };
        let ghost gl = l;
        let ghost gr = r;
        let c = f.combine(l, r);
        let initial = if l_constant && r_constant {
            SignalType::Constant(c)
        } else {
            SignalType::Dynamic(c)
        };
        proof {
            assert(cloned::<A>(spec_unwrap(left.initial_spec()), gl));
            assert(cloned::<B>(spec_unwrap(right.initial_spec()), gr));
            assert(f.post2(gl, gr, spec_unwrap(initial)));
        }
        Lift2Signal { config, left, right, f, initial, marker: PhantomData }
    }
}

impl<
    SL: Signal<A>,
    SR: Signal<B>,
    F: Combine<A, B, C> + 'static,
    A: 'static + Send + Clone,
    B: 'static + Send + Clone,
    C: 'static + Send + Clone,
> Signal<C> for Lift2Signal<SL, SR, F, A, B, C> {
    open spec fn wf(&self) -> bool {
        &&& self.left.wf()
        &&& self.right.wf()
        &&& forall|a: A, b: B| #[trigger] self.f.pre2(a, b)
        &&& (self.initial is Constant <==> (self.left.initial_spec() is Constant
            && self.right.initial_spec() is Constant))
    }

    open spec fn height(&self) -> nat {
        1
    }

    open spec fn initial_spec(&self) -> SignalType<C> {
        self.initial
    }

    fn config(&self) -> Config {
        self.config
    }

    fn initial(&self) -> SignalType<C> {
        self.initial.clone()
    }

    fn push_to<P: Push<C>>(self, target: Option<P>) {
        let Lift2Signal { config, left, right, f, .. } = self;
        let mut target = target;

        // A dynamic side is driven by a collector worker feeding a
        // bounded queue; a constant side is folded into its cache.
        let mut last_l: A;
        let left_rx: Option<Receiver<Event<A>>>;
        match left.initial() {
            SignalType::Constant(l) => {
                last_l = l;
                left_rx = None;
            },
            SignalType::Dynamic(l) => {
                last_l = l;
                let (ltx, lrx) = bounded(config.buffer_size);
                spawn_worker(Collector { signal: left, tx: ltx });
                left_rx = Some(lrx);
            },
        }
        let mut last_r: B;
        let right_rx: Option<Receiver<Event<B>>>;
        match right.initial() {
            SignalType::Constant(r) => {
                last_r = r;
                right_rx = None;
            },
            SignalType::Dynamic(r) => {
                last_r = r;
                let (rtx, rrx) = bounded(config.buffer_size);
                spawn_worker(Collector { signal: right, tx: rtx });
                right_rx = Some(rrx);
            },
        }

        // The joiner: one event from each dynamic side per step, one
        // output event per step.
        let mut fuel: u64 = u64::MAX;
        while fuel > 0
            invariant
                target_wf(&target),
                forall|a: A, b: B| #[trigger] f.pre2(a, b),
            decreases fuel,
        {
            fuel = fuel - 1;
            let le: Event<A> = match &left_rx {
                Some(rx) => match recv(rx) {
                    Some(e) => e,
                    None => Event::Exit,
                },
                None => Event::Unchanged,
            };
            if matches!(le, Event::Exit) {
                // Do not wait for the other side once one has ended.
                let out = join_step(&f, &mut last_l, &mut last_r, le, Event::Unchanged);
                match target {
                    Some(ref mut t) => t.push(out),
                    None => {},
                }
                return ;
            }
            let re: Event<B> = match &right_rx {
                Some(rx) => match recv(rx) {
                    Some(e) => e,
                    None => Event::Exit,
                },
                None => Event::Unchanged,
            };
            let out = join_step(&f, &mut last_l, &mut last_r, le, re);
            let stop = matches!(out, Event::Exit);
            match target {
                Some(ref mut t) => t.push(out),
                None => {},
            }
            if stop {
                return ;
            }
        }
    }
}

/// The worker that drives one dynamic side of a combine node, pushing
/// its events into the joiner's queue.
#[verifier::reject_recursive_types(A)]
pub struct Collector<S, A: Send> {
    pub signal: S,
    pub tx: SyncSender<Event<A>>,
}

impl<S: Signal<A>, A: 'static + Send + Clone> Run for Collector<S, A> {
    open spec fn run_wf(&self) -> bool {
        self.signal.wf() && self.signal.initial_spec() is Dynamic
    }

    fn run(self) {
        let Collector { signal, tx } = self;
        signal.push_to(Some(InputPusher { tx }));
    }
}

/// The bottom of a collector's chain: every event goes into the
/// joiner's queue.
#[verifier::reject_recursive_types(A)]
pub struct InputPusher<A: Send> {
    pub tx: SyncSender<Event<A>>,
}

impl<A: 'static + Send + Clone> Push<A> for InputPusher<A> {
    open spec fn pusher_wf(&self) -> bool {
        true
    }

    open spec fn pusher_height(&self) -> nat {
        0
    }

    fn push(&mut self, event: Event<A>) {
        // The joiner may already have stopped; nothing to do then.
        sync_send(&self.tx, event);
    }
}

} // verus!
