//! Fan-out: a `Fork` broadcasts one upstream signal's events to any
//! number of `Branch` consumers.

use vstd::prelude::*;

verus! {

use crate::channel::{clone_sender, recv, send, try_recv, unbounded};
use crate::primitives::fold::{fold_initial_rel, FoldSignal};
use crate::primitives::lift::{lift_initial_rel, LiftSignal};
use crate::transform::{Lift, Merge};
use crate::{forward_step, sig_cloned, Config, Event, Push, Run, Signal, SignalExt, SignalType};
use std::sync::mpsc::{Receiver, Sender};

/// The incoming half of a fan-out point.  When the topology is
/// launched it drives its parent once, broadcasting every event to the
/// branches that registered during the build phase.  With no branches
/// attached it still consumes the parent's events, so that nothing
/// upstream blocks.
#[verifier::reject_recursive_types(A)]
pub struct Fork<S, A> where S: Send, A: Send + Clone {
    pub parent: S,
    pub sink_rx: Receiver<Sender<Event<A>>>,
}

impl<S: Signal<A>, A: 'static + Send + Clone> Fork<S, A> {
    pub fn new(parent: S, sink_rx: Receiver<Sender<Event<A>>>) -> (r: Fork<S, A>)
        ensures
            r.parent == parent,
    {
        Fork { parent, sink_rx }
    }
}

impl<S: Signal<A>, A: 'static + Send + Clone> Run for Fork<S, A> {
    open spec fn run_wf(&self) -> bool {
        self.parent.wf() && self.parent.initial_spec() is Dynamic
    }

    fn run(self) {
        let Fork { parent, sink_rx } = self;
        // Build ended before this worker was released, so every branch
        // registration is already queued: collect them all.
        let mut sinks: Vec<Sender<Event<A>>> = Vec::new();
        let mut fuel: u64 = u64::MAX;
        while fuel > 0
            decreases fuel,
        {
            fuel = fuel - 1;
            match try_recv(&sink_rx) {
                Some(tx) => sinks.push(tx),
                None => break ,
            }
        }
        if sinks.len() == 0 {
            parent.push_to(None::<ForkPusher<A>>);
        } else {
            parent.push_to(Some(ForkPusher { sink_txs: sinks }));
        }
    }
}

/// The pusher a fork installs at the bottom of its parent's chain: it
/// clones each incoming event once per registered branch.
#[verifier::reject_recursive_types(A)]
pub struct ForkPusher<A: Send + Clone> {
    pub sink_txs: Vec<Sender<Event<A>>>,
}

impl<A: 'static + Send + Clone> Push<A> for ForkPusher<A> {
    open spec fn pusher_wf(&self) -> bool {
        true
    }

    open spec fn pusher_height(&self) -> nat {
        0
    }

    fn push(&mut self, event: Event<A>) {
        let n = self.sink_txs.len();
        let mut k: usize = 0;
        while k < n
            invariant
                n == self.sink_txs.len(),
            decreases n - k,
        {
            // A branch may have gone away; that is no reason to stop
            // serving the others.
            send(&self.sink_txs[k], event.clone());
            k = k + 1;
        }
    }
}

/// A data source which can be used as input more than once.
///
/// Cloning a branch attaches one more consumer to the same fork; each
/// clone registers its own queue when a downstream node is built on it.
/// A branch keeps the kind of the signal it stands for: a branch of a
/// constant sub-graph reports `Constant`, contributes its value at
/// build time, and is never driven.
#[verifier::reject_recursive_types(A)]
pub struct Branch<A: Send + Clone> {
    pub config: Config,
    pub fork_txs: Sender<Sender<Event<A>>>,
    pub source_rx: Option<Receiver<Event<A>>>,
    pub initial: SignalType<A>,
}

impl<A: Send + Clone> Branch<A> {
    /// Registers this branch with its fork: allocates the queue the
    /// fork will broadcast into, hands the sending end over, and keeps
    /// the receiving end as this branch's source.
    pub fn register(&mut self)
        ensures
            final(self).source_rx is Some,
            final(self).initial == old(self).initial,
            final(self).config == old(self).config,
            final(self).fork_txs == old(self).fork_txs,
    {
        let (tx, rx) = unbounded();
        // The fork may already be gone when the sub-graph is constant;
        // the branch then simply never receives anything.
        send(&self.fork_txs, tx);
        self.source_rx = Some(rx);
    }

    pub fn new(
        config: Config,
        fork_txs: Sender<Sender<Event<A>>>,
        source_rx: Option<Receiver<Event<A>>>,
        initial: SignalType<A>,
    ) -> (r: Branch<A>)
        ensures
            r.config == config,
            r.initial == initial,
            r.source_rx == source_rx,
    {
        Branch { config, fork_txs, source_rx, initial }
    }
}

impl<A: Send + Clone> Clone for Branch<A> {
    /// The clone shares the fork but starts unregistered: it gets a
    /// queue of its own once something is built on it.
    fn clone(&self) -> (r: Self)
        ensures
            r.source_rx is None,
            sig_cloned(self.initial, r.initial),
            r.config == self.config,
    {
        Branch {
            config: self.config,
            fork_txs: clone_sender(&self.fork_txs),
            source_rx: None,
            initial: self.initial.clone(),
        }
    }
}

impl<A: 'static + Send + Clone> Branch<A> {
    /// Apply a pure function to this branch's stream; the combinator
    /// surface's `lift`, offered on the branch itself as well.
    pub fn lift<F, B>(self, f: F) -> (r: LiftSignal<Branch<A>, Lift<F>, A, B>) where
        F: 'static + Send + Fn(A) -> B,
        B: 'static + Send + Clone,

        requires
            forall|a: A| #[trigger] call_requires(f, (a,)),
        ensures
            r.wf(),
            lift_initial_rel((Lift { f }), self.initial_spec(), r.initial_spec()),
    {
        SignalExt::lift(self, f)
    }

    /// Merge this branch's stream into an accumulator; the combinator
    /// surface's `fold`, offered on the branch itself as well.
    pub fn foldp<F, B>(self, initial: B, f: F) -> (r: FoldSignal<Branch<A>, Merge<F>, A, B>) where
        F: 'static + Send + Fn(B, A) -> B,
        B: 'static + Send + Clone,

        requires
            forall|b: B, a: A| #[trigger] call_requires(f, (b, a)),
        ensures
            r.wf(),
            fold_initial_rel((Merge { f }), initial, self.initial_spec(), r.initial_spec()),
    {
        SignalExt::fold(self, initial, f)
    }
}

impl<A: 'static + Send + Clone> Signal<A> for Branch<A> {
    open spec fn wf(&self) -> bool {
        true
    }

    open spec fn height(&self) -> nat {
        0
    }

    open spec fn initial_spec(&self) -> SignalType<A> {
        self.initial
    }

    fn config(&self) -> Config {
        self.config
    }

    fn initial(&self) -> SignalType<A> {
        self.initial.clone()
    }

    /// Attaching a consumer registers the branch with its fork.
    fn init(&mut self) {
        self.register();
    }

    fn push_to<P: Push<A>>(self, target: Option<P>) {
        let Branch { source_rx, .. } = self;
        match (target, source_rx) {
            (Some(mut t), Some(rx)) => {
                let mut fuel: u64 = u64::MAX;
                while fuel > 0
                    invariant
                        t.pusher_wf(),
                    decreases fuel,
                {
                    fuel = fuel - 1;
                    let (out, stop) = forward_step(recv(&rx));
                    t.push(out);
                    if stop {
                        return ;
                    }
                }
            },
            (None, Some(rx)) => {
                // Keep the queue drained so the fork never blocks.
                let mut fuel: u64 = u64::MAX;
                while fuel > 0
                    decreases fuel,
                {
                    fuel = fuel - 1;
                    let (_out, stop) = forward_step(recv(&rx));
                    if stop {
                        return ;
                    }
                }
            },
            _ => {
                // Never registered: there is nothing to pull from.
            },
        }
    }
}

} // verus!
