//! Single-node runners: each owns one transformation, pulls events
//! from a queue, and broadcasts to a set of output queues, announcing
//! `Unchanged` in place of an output whose value did not change.
//!
//! Where the push chains of the signal nodes evaluate a node inside its
//! fan-out point's worker, a runner is the same step logic packaged to
//! run a single node on a worker of its own, with change suppression.

use vstd::prelude::*;

verus! {

use crate::channel::{recv, send};
use crate::transform::{Combine, Transform};
use crate::Event;
use core::marker::PhantomData;
use std::sync::mpsc::{Receiver, Sender};
use vstd::std_specs::cmp::PartialEqSpec;

/// How change suppression relates one computed value to the cache and
/// the announced event: either the value is announced (as a clone) and
/// cached, or the announcement is one tick and the cache is kept.
/// Where the payload's equality obeys its specification, which of the
/// two happens is decided exactly by comparing against the cache.
pub open spec fn dedup_rel<B: PartialEq + Clone>(
    cached: Option<B>,
    b: B,
    cached2: Option<B>,
    out: Event<B>,
) -> bool {
    &&& ((out is Unchanged && cached2 == cached) || (out matches Event::Changed(bc)
        && cloned::<B>(b, bc) && cached2 == Some(b)))
    &&& (B::obeys_eq_spec() ==> match cached {
        Some(c) => if c.eq_spec(&b) {
            out is Unchanged && cached2 == cached
        } else {
            out matches Event::Changed(bc) && cloned::<B>(b, bc) && cached2 == Some(b)
        },
        None => out matches Event::Changed(bc) && cloned::<B>(b, bc) && cached2 == Some(b),
    })
}

/// Compares a freshly computed value against the cache.
fn same_as_cached<B: PartialEq + Clone>(cached: &Option<B>, b: &B) -> (r: bool)
    ensures
        B::obeys_eq_spec() ==> r == match *cached {
            Some(c) => c.eq_spec(b),
            None => false,
        },
        *cached is None ==> r == false,
{
    match cached {
        Some(c) => *c == *b,
        None => false,
    }
}

/// What a map runner may hand its outputs: any tick or terminal
/// marker, and a changed value only if it is (a clone of) the image of
/// some input under the transformation.
pub open spec fn lift_sent_ok<F: Transform<A, B>, A, B: Clone>(f: F, e: Event<B>) -> bool {
    match e {
        Event::Changed(b) => exists|a: A, b0: B| #[trigger] f.post(a, b0) && cloned::<B>(b0, b),
        _ => true,
    }
}

/// Runs one unary map node: applies its transformation to each changed
/// value and broadcasts the result, except that a result equal to the
/// previous one is announced as `Unchanged`.  `sent` records every
/// event handed to the outputs, in order.
#[verifier::reject_recursive_types(B)]
pub struct LiftRunner<F, A, B> where A: Send, B: Send + Clone {
    pub f: F,
    pub cached_b: Option<B>,
    pub outputs: Vec<Sender<Event<B>>>,
    pub sent: Ghost<Seq<Event<B>>>,
    pub marker: PhantomData<A>,
}

impl<
    F: Transform<A, B>,
    A: 'static + Send + Clone,
    B: 'static + Send + Clone + PartialEq,
> LiftRunner<F, A, B> {
    pub fn new(f: F, outputs: Vec<Sender<Event<B>>>) -> (r: Self)
        ensures
            r.f == f,
            r.outputs == outputs,
            r.cached_b is None,
            r.sent@ == Seq::<Event<B>>::empty(),
    {
        LiftRunner { f, cached_b: None, outputs, sent: Ghost(Seq::empty()), marker: PhantomData }
    }

    /// One step on a changed value: computes the image, suppresses it
    /// when it equals the cache, and returns what was broadcast.
    fn step(&mut self, a: A) -> (out: Event<B>)
        requires
            forall|x: A| #[trigger] old(self).f.pre(x),
        ensures
            final(self).f == old(self).f,
            final(self).outputs == old(self).outputs,
            final(self).sent == old(self).sent,
            exists|b: B|
                #[trigger] old(self).f.post(a, b) && dedup_rel(
                    old(self).cached_b,
                    b,
                    final(self).cached_b,
                    out,
                ),
            lift_sent_ok(old(self).f, out),
    {
        let b = self.f.transform(a);
        let ghost gb = b;
        if same_as_cached(&self.cached_b, &b) {
            proof {
                assert(dedup_rel(self.cached_b, gb, self.cached_b, Event::<B>::Unchanged));
            }
            Event::Unchanged
        } else {
            let out_b = b.clone();
            let out = Event::Changed(out_b);
            self.cached_b = Some(b);
            out
        }
    }

    /// Drives the node until its input ends: changed values go through
    /// the transformation and the change suppression, ticks are passed
    /// along, and the terminal marker is forwarded once before the
    /// runner stops.
    pub fn run(&mut self, rx: Receiver<Event<A>>)
        requires
            forall|x: A| #[trigger] old(self).f.pre(x),
        ensures
            final(self).f == old(self).f,
            final(self).outputs == old(self).outputs,
            old(self).sent@.is_prefix_of(final(self).sent@),
            forall|i: int|
                old(self).sent@.len() <= i < final(self).sent@.len() ==> lift_sent_ok(
                    old(self).f,
                    #[trigger] final(self).sent@[i],
                ),
            forall|i: int|
                old(self).sent@.len() <= i < final(self).sent@.len()
                    && #[trigger] final(self).sent@[i] is Exit ==> i == final(self).sent@.len()
                    - 1,
    {
        let mut fuel: u64 = u64::MAX;
        while fuel > 0
            invariant
                forall|x: A| #[trigger] self.f.pre(x),
                self.f == old(self).f,
                self.outputs == old(self).outputs,
                old(self).sent@.is_prefix_of(self.sent@),
                forall|i: int|
                    old(self).sent@.len() <= i < self.sent@.len() ==> lift_sent_ok(
                        old(self).f,
                        #[trigger] self.sent@[i],
                    ),
                forall|i: int|
                    old(self).sent@.len() <= i < self.sent@.len() ==> !(#[trigger] self.sent@[i]
                        is Exit),
            decreases fuel,
        {
            fuel = fuel - 1;
            match recv(&rx) {
                Some(Event::Changed(a)) => {
                    let out = self.step(a);
                    self.broadcast(out);
                },
                Some(Event::Unchanged) => {
                    self.broadcast(Event::Unchanged);
                },
                Some(Event::Exit) => {
                    self.broadcast(Event::Exit);
                    return ;
                },
                None => {
                    return ;
                },
            }
        }
    }

    /// Sends a copy of one event to every output, and records it.
    fn broadcast(&mut self, e: Event<B>)
        ensures
            final(self).f == old(self).f,
            final(self).outputs == old(self).outputs,
            final(self).cached_b == old(self).cached_b,
            final(self).sent@ == old(self).sent@.push(e),
    {
        let ghost ge = e;
        let n = self.outputs.len();
        let mut k: usize = 0;
        while k < n
            invariant
                n == self.outputs.len(),
                self == old(self),
            decreases n - k,
        {
            send(&self.outputs[k], e.clone());
            k = k + 1;
        }
        proof {
            self.sent@ = self.sent@.push(ge);
        }
    }
}

/// What a combine runner may hand its outputs: any tick or terminal
/// marker, and a changed value only if it is (a clone of) the
/// combination of some pair of inputs.
pub open spec fn lift2_sent_ok<F: Combine<A, B, C>, A, B, C: Clone>(f: F, e: Event<C>) -> bool {
    match e {
        Event::Changed(c) => exists|a: A, b: B, c0: C|
            #[trigger] f.post2(a, b, c0) && cloned::<C>(c0, c),
        _ => true,
    }
}

/// Runs one binary combine node on a worker of its own, reading one
/// event from each side per step and suppressing unchanged results.
/// `sent` records every event handed to the outputs, in order.
#[verifier::reject_recursive_types(C)]
pub struct Lift2Runner<F, A, B, C> where A: Send + Clone, B: Send + Clone, C: Send + Clone {
    pub f: F,
    pub cached_a: Option<A>,
    pub cached_b: Option<B>,
    pub cached_c: Option<C>,
    pub outputs: Vec<Sender<Event<C>>>,
    pub sent: Ghost<Seq<Event<C>>>,
}

impl<
    F: Combine<A, B, C>,
    A: 'static + Send + Clone,
    B: 'static + Send + Clone,
    C: 'static + Send + Clone + PartialEq,
> Lift2Runner<F, A, B, C> {
    pub fn new(f: F, outputs: Vec<Sender<Event<C>>>) -> (r: Self)
        ensures
            r.f == f,
            r.outputs == outputs,
            r.cached_a is None,
            r.cached_b is None,
            r.cached_c is None,
            r.sent@ == Seq::<Event<C>>::empty(),
    {
        Lift2Runner {
            f,
            cached_a: None,
            cached_b: None,
            cached_c: None,
            outputs,
            sent: Ghost(Seq::empty()),
        }
    }

    /// One combine step over the refreshed caches: when neither side
    /// changed, one tick goes out and nothing else happens; when a
    /// side changed, clones of both caches are combined and the result
    /// goes through change suppression.  A step taken while a cache
    /// was never seeded — a tick arrived before that side's first
    /// value — is a protocol violation and announces the terminal
    /// marker instead.
    fn step(&mut self, any_changed: bool) -> (out: Event<C>)
        requires
            forall|a: A, b: B| #[trigger] old(self).f.pre2(a, b),
        ensures
            final(self).f == old(self).f,
            final(self).outputs == old(self).outputs,
            final(self).cached_a == old(self).cached_a,
            final(self).cached_b == old(self).cached_b,
            final(self).sent == old(self).sent,
            lift2_sent_ok(old(self).f, out),
            !any_changed ==> out is Unchanged && final(self).cached_c == old(self).cached_c,
            any_changed ==> match (old(self).cached_a, old(self).cached_b) {
                (Some(ca), Some(cb)) => exists|a2: A, b2: B, c: C|
                    cloned::<A>(ca, a2) && cloned::<B>(cb, b2) && #[trigger] old(self).f.post2(
                        a2,
                        b2,
                        c,
                    ) && dedup_rel(old(self).cached_c, c, final(self).cached_c, out),
                _ => out is Exit && final(self).cached_c == old(self).cached_c,
            },
    {
        if !any_changed {
            return Event::Unchanged;
        }
        let a = match &self.cached_a {
            Some(a) => a.clone(),
            None => {
                return Event::Exit;
            },
        };
        let b = match &self.cached_b {
            Some(b) => b.clone(),
            None => {
                return Event::Exit;
            },
        };
        let ghost ga = a;
        let ghost gb = b;
        let c = self.f.combine(a, b);
        if same_as_cached(&self.cached_c, &c) {
            proof {
                assert(dedup_rel(self.cached_c, c, self.cached_c, Event::<C>::Unchanged));
            }
            Event::Unchanged
        } else {
            let out = c.clone();
            self.cached_c = Some(c);
            Event::Changed(out)
        }
    }

    /// Drives the node until either input ends.  Each step pairs one
    /// event from each side; the side that did not change contributes
    /// its cached value.  A tick on a side that never carried a value
    /// is a protocol violation — the caches are expected to be seeded
    /// by each side's first value — and aborts the runner after
    /// forwarding the terminal marker.
    pub fn run(&mut self, l_rx: Receiver<Event<A>>, r_rx: Receiver<Event<B>>)
        requires
            forall|a: A, b: B| #[trigger] old(self).f.pre2(a, b),
        ensures
            final(self).f == old(self).f,
            final(self).outputs == old(self).outputs,
            old(self).sent@.is_prefix_of(final(self).sent@),
            forall|i: int|
                old(self).sent@.len() <= i < final(self).sent@.len() ==> lift2_sent_ok(
                    old(self).f,
                    #[trigger] final(self).sent@[i],
                ),
            forall|i: int|
                old(self).sent@.len() <= i < final(self).sent@.len()
                    && #[trigger] final(self).sent@[i] is Exit ==> i == final(self).sent@.len()
                    - 1,
    {
        let mut fuel: u64 = u64::MAX;
        while fuel > 0
            invariant
                forall|a: A, b: B| #[trigger] self.f.pre2(a, b),
                self.f == old(self).f,
                self.outputs == old(self).outputs,
                old(self).sent@.is_prefix_of(self.sent@),
                forall|i: int|
                    old(self).sent@.len() <= i < self.sent@.len() ==> lift2_sent_ok(
                        old(self).f,
                        #[trigger] self.sent@[i],
                    ),
                forall|i: int|
                    old(self).sent@.len() <= i < self.sent@.len() ==> !(#[trigger] self.sent@[i]
                        is Exit),
            decreases fuel,
        {
            fuel = fuel - 1;
            let mut any_changed = false;
            match recv(&l_rx) {
                Some(Event::Changed(a)) => {
                    self.cached_a = Some(a);
                    any_changed = true;
                },
                Some(Event::Unchanged) => {},
                Some(Event::Exit) => {
                    self.broadcast(Event::Exit);
                    return ;
                },
                None => {
                    return ;
                },
            }
            match recv(&r_rx) {
                Some(Event::Changed(b)) => {
                    self.cached_b = Some(b);
                    any_changed = true;
                },
                Some(Event::Unchanged) => {},
                Some(Event::Exit) => {
                    self.broadcast(Event::Exit);
                    return ;
                },
                None => {
                    return ;
                },
            }
            let out = self.step(any_changed);
            let stop = matches!(out, Event::Exit);
            self.broadcast(out);
            if stop {
                return ;
            }
        }
    }

    /// Sends a copy of one event to every output, and records it.
    fn broadcast(&mut self, e: Event<C>)
        ensures
            final(self).f == old(self).f,
            final(self).outputs == old(self).outputs,
            final(self).cached_a == old(self).cached_a,
            final(self).cached_b == old(self).cached_b,
            final(self).cached_c == old(self).cached_c,
            final(self).sent@ == old(self).sent@.push(e),
    {
        let ghost ge = e;
        let n = self.outputs.len();
        let mut k: usize = 0;
        while k < n
            invariant
                n == self.outputs.len(),
                self == old(self),
            decreases n - k,
        {
            send(&self.outputs[k], e.clone());
            k = k + 1;
        }
        proof {
            self.sent@ = self.sent@.push(ge);
        }
    }
}

/// What a fold runner may hand its outputs: any tick or terminal
/// marker, and a changed value only if it is (a clone of) some state
/// the accumulator produced.
pub open spec fn fold_sent_ok<F: Combine<B, A, B>, A, B: Clone>(f: F, e: Event<B>) -> bool {
    match e {
        Event::Changed(b) => exists|s: B, a: A, b0: B|
            #[trigger] f.post2(s, a, b0) && cloned::<B>(b0, b),
        _ => true,
    }
}

/// Runs one accumulator node on a worker of its own: each changed
/// value advances the state, and a step that leaves the state equal to
/// its previous value is announced as `Unchanged`.  `sent` records
/// every event handed to the outputs, in order.
#[verifier::reject_recursive_types(B)]
pub struct FoldRunner<F, A, B> where A: Send, B: Send + Clone {
    pub f: F,
    pub state: B,
    pub outputs: Vec<Sender<Event<B>>>,
    pub sent: Ghost<Seq<Event<B>>>,
    pub marker: PhantomData<A>,
}

impl<
    F: Combine<B, A, B>,
    A: 'static + Send + Clone,
    B: 'static + Send + Clone + PartialEq,
> FoldRunner<F, A, B> {
    pub fn new(f: F, initial: B, outputs: Vec<Sender<Event<B>>>) -> (r: Self)
        ensures
            r.f == f,
            r.state == initial,
            r.outputs == outputs,
            r.sent@ == Seq::<Event<B>>::empty(),
    {
        FoldRunner { f, state: initial, outputs, sent: Ghost(Seq::empty()), marker: PhantomData }
    }

    /// One step on a changed value: advances a clone of the state
    /// through the accumulator, then announces the new state — or one
    /// tick, when the step left the state equal to its previous value.
    fn step(&mut self, a: A) -> (out: Event<B>)
        requires
            forall|b: B, x: A| #[trigger] old(self).f.pre2(b, x),
        ensures
            final(self).f == old(self).f,
            final(self).outputs == old(self).outputs,
            final(self).sent == old(self).sent,
            exists|s2: B, b: B|
                cloned::<B>(old(self).state, s2) && #[trigger] old(self).f.post2(s2, a, b)
                    && dedup_rel(
                    Some(old(self).state),
                    b,
                    Some(final(self).state),
                    out,
                ),
            fold_sent_ok(old(self).f, out),
    {
        let cl = self.state.clone();
        let ghost gs = cl;
        let b = self.f.combine(cl, a);
        if *&self.state == b {
            proof {
                assert(dedup_rel(Some(self.state), b, Some(self.state), Event::<B>::Unchanged));
            }
            Event::Unchanged
        } else {
            let out = b.clone();
            self.state = b;
            Event::Changed(out)
        }
    }

    /// Drives the node until its input ends, advancing the accumulator
    /// on each changed value; ticks pass along with the state kept, and
    /// the terminal marker is forwarded once before the runner stops.
    pub fn run(&mut self, rx: Receiver<Event<A>>)
        requires
            forall|b: B, a: A| #[trigger] old(self).f.pre2(b, a),
        ensures
            final(self).f == old(self).f,
            final(self).outputs == old(self).outputs,
            old(self).sent@.is_prefix_of(final(self).sent@),
            forall|i: int|
                old(self).sent@.len() <= i < final(self).sent@.len() ==> fold_sent_ok(
                    old(self).f,
                    #[trigger] final(self).sent@[i],
                ),
            forall|i: int|
                old(self).sent@.len() <= i < final(self).sent@.len()
                    && #[trigger] final(self).sent@[i] is Exit ==> i == final(self).sent@.len()
                    - 1,
    {
        let mut fuel: u64 = u64::MAX;
        while fuel > 0
            invariant
                forall|b: B, a: A| #[trigger] self.f.pre2(b, a),
                self.f == old(self).f,
                self.outputs == old(self).outputs,
                old(self).sent@.is_prefix_of(self.sent@),
                forall|i: int|
                    old(self).sent@.len() <= i < self.sent@.len() ==> fold_sent_ok(
                        old(self).f,
                        #[trigger] self.sent@[i],
                    ),
                forall|i: int|
                    old(self).sent@.len() <= i < self.sent@.len() ==> !(#[trigger] self.sent@[i]
                        is Exit),
            decreases fuel,
        {
            fuel = fuel - 1;
            match recv(&rx) {
                Some(Event::Changed(a)) => {
                    let out = self.step(a);
                    self.broadcast(out);
                },
                Some(Event::Unchanged) => {
                    self.broadcast(Event::Unchanged);
                },
                Some(Event::Exit) => {
                    self.broadcast(Event::Exit);
                    return ;
                },
                None => {
                    return ;
                },
            }
        }
    }

    /// Sends a copy of one event to every output, and records it.
    fn broadcast(&mut self, e: Event<B>)
        ensures
            final(self).f == old(self).f,
            final(self).outputs == old(self).outputs,
            final(self).state == old(self).state,
            final(self).sent@ == old(self).sent@.push(e),
    {
        let ghost ge = e;
        let n = self.outputs.len();
        let mut k: usize = 0;
        while k < n
            invariant
                n == self.outputs.len(),
                self == old(self),
            decreases n - k,
        {
            send(&self.outputs[k], e.clone());
            k = k + 1;
        }
        proof {
            self.sent@ = self.sent@.push(ge);
        }
    }
}

} // verus!
