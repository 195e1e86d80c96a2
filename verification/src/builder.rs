//! Build-phase graph assembly and registration.

use vstd::prelude::*;

verus! {

use crate::channel::{bounded, spawn_worker, unbounded};
use crate::coordinator::Coordinator;
use crate::primitives::async_::Async;
use crate::primitives::channel::Channel;
use crate::primitives::fold::{fold_image, FoldSignal};
use crate::primitives::fork::{Branch, Fork};
use crate::primitives::input::{RngInput, TickInput};
use crate::primitives::value::Value;
use crate::topology::Gated;
use crate::transform::{Combine, Increment};
use crate::{sig_cloned, spec_unwrap, Config, Signal, SignalType};
use core::ops::Add;
use std::sync::mpsc::{Receiver, Sender};
use vstd::std_specs::ops::AddSpec;

/// `Builder` provides helpers for building topologies.
///
/// Workers are brought up as the graph is assembled, each parked behind
/// a release switch; nothing processes data until the topology is
/// launched, which releases them all with the frozen input vector.
pub struct Builder {
    pub config: Config,
    pub coordinator: Coordinator,
    pub runners: Vec<Sender<()>>,
}

impl Builder {
    /// Create a new Builder.
    pub fn new(config: Config) -> (b: Builder)
        ensures
            b.config == config,
            b.coordinator.inputs.len() == 0,
            b.coordinator.indexed(),
            b.runners.len() == 0,
    {
        Builder { config, coordinator: Coordinator::new(), runners: Vec::new() }
    }

    /// Listen to `input` and push received data into the topology.
    ///
    /// All data must enter the topology via a call to `listen`: each
    /// value received on `input` becomes one global event, mirrored to
    /// every other input as a no-change tick.
    pub fn listen<A: 'static + Send + Clone>(&mut self, initial: A, input: Receiver<A>) -> (r:
        Branch<A>)
        ensures
            sig_cloned(SignalType::Dynamic(initial), r.initial),
            r.source_rx is None,
            final(self).config == old(self).config,
            final(self).coordinator.inputs.len() == old(self).coordinator.inputs.len() + 1,
            final(self).runners.len() == old(self).runners.len() + 1,
            old(self).coordinator.indexed() ==> final(self).coordinator.indexed(),
    {
        let buffer = self.config.buffer_size;
        let rx = self.coordinator.channel(input, buffer);
        let config = self.config;
        self.add(Channel::new(config, rx, initial))
    }

    /// Creates a signal with constant value `v`.
    ///
    /// Nodes downstream of values are evaluated once, at build time,
    /// and never again; combined with a dynamic signal via `lift2`, the
    /// constant contributes a fixed value on every dynamic tick.
    pub fn value<T: 'static + Send + Clone>(&self, v: T) -> (r: Value<T>)
        ensures
            r.initial == v,
            r.config == self.config,
    {
        Value::new(self.config, v)
    }

    /// Creates an input which pushes `initial` again whenever any other
    /// input receives a value, so everything downstream of it
    /// recomputes on every global event.
    pub fn ack_value<A: 'static + Send + Clone>(&mut self, initial: A) -> (r: Branch<A>)
        ensures
            sig_cloned(SignalType::Dynamic(initial), r.initial),
            r.source_rx is None,
            final(self).config == old(self).config,
            final(self).coordinator.inputs.len() == old(self).coordinator.inputs.len() + 1,
            final(self).runners.len() == old(self).runners.len() + 1,
            old(self).coordinator.indexed() ==> final(self).coordinator.indexed(),
    {
        let (tx, rx) = bounded(self.config.buffer_size);
        self.coordinator.register(TickInput::new(initial.clone(), tx));
        let config = self.config;
        self.add(Channel::new(config, rx, initial))
    }

    /// A signal that increments by `by` each time the topology receives
    /// data.  The accumulator's addition must be defined on every pair
    /// of values it can reach: a machine integer does not qualify —
    /// its addition gives out at its largest value — so a verified
    /// caller brings a type whose addition is total.
    pub fn ack_counter<A>(&mut self, initial: A, by: A) -> (r: Branch<A>) where
        A: 'static + Send + Clone + Add<Output = A>,

        requires
            forall|c: A, i: A| #[trigger] c.add_req(i),
        ensures
            r.source_rx is None,
            final(self).config == old(self).config,
            final(self).coordinator.inputs.len() == old(self).coordinator.inputs.len() + 1,
            final(self).runners.len() == old(self).runners.len() + 2,
            A::obeys_add_spec() ==> (r.initial matches SignalType::Dynamic(v) && exists|b2: A, s: A|
                #![trigger crate::clone2(by, b2), cloned::<A>(s, v)]
                crate::clone2(by, b2) && s == initial.add_spec(b2) && cloned::<A>(s, v)),
            old(self).coordinator.indexed() ==> final(self).coordinator.indexed(),
    {
        let mut ticked = self.ack_value(by);
        let ghost bi = ticked.initial_spec();
        ticked.init();
        let config = ticked.config();
        let acc = FoldSignal::new(config, ticked, initial, Increment);
        let ghost ai = acc.initial_spec();
        let r = self.add(acc);
        proof {
            if A::obeys_add_spec() {
                let b1 = spec_unwrap(bi);
                let sv = spec_unwrap(ai);
                assert(fold_image(Increment, initial, b1, sv));
                let a2 = choose|a2: A|
                    cloned::<A>(b1, a2) && #[trigger] Increment.post2(initial, a2, sv);
                assert(sv == initial.add_spec(a2));
                assert(cloned::<A>(by, b1));
                assert(crate::clone2(by, a2));
                assert(cloned::<A>(sv, spec_unwrap(r.initial)));
            }
        }
        r
    }

    /// A signal which draws a fresh value from `rng` each time the
    /// topology receives data.
    ///
    /// Exposing generated values as an input makes each draw a fact of
    /// the system's history, instead of hiding it in a handler.
    pub fn ack_random<F, A>(&mut self, rng: F) -> (r: Branch<A>) where
        F: 'static + Send + Fn() -> A,
        A: 'static + Send + Clone,

        requires
            call_requires(rng, ()),
        ensures
            r.source_rx is None,
            r.initial matches SignalType::Dynamic(v) && exists|v0: A|
                #[trigger] call_ensures(rng, (), v0) && cloned::<A>(v0, v),
            final(self).config == old(self).config,
            final(self).coordinator.inputs.len() == old(self).coordinator.inputs.len() + 1,
            final(self).runners.len() == old(self).runners.len() + 1,
            old(self).coordinator.indexed() ==> final(self).coordinator.indexed(),
    {
        let initial = rng();
        let (tx, rx) = bounded(self.config.buffer_size);
        self.coordinator.register(RngInput::new(rng, tx));
        let config = self.config;
        self.add(Channel::new(config, rx, initial))
    }

    /// Add a signal to the topology.
    ///
    /// Only added signals are run.  Returns a `Branch<A>` of the same
    /// kind as `root`, which can be cloned so `root` feeds more than
    /// one consumer.  A dynamic root gets a fan-out worker; a constant
    /// root was already folded at build time, its branch stays
    /// constant, and nothing of it runs.
    pub fn add<SA: Signal<A>, A: 'static + Send + Clone>(&mut self, root: SA) -> (r: Branch<A>)
        requires
            root.wf(),
        ensures
            sig_cloned(root.initial_spec(), r.initial),
            r.source_rx is None,
            final(self).config == old(self).config,
            final(self).coordinator.inputs == old(self).coordinator.inputs,
            root.initial_spec() is Dynamic ==> final(self).runners.len() == old(
                self,
            ).runners.len() + 1,
            root.initial_spec() is Constant ==> final(self).runners == old(self).runners,
            old(self).coordinator.indexed() ==> final(self).coordinator.indexed(),
    {
        let v = root.initial();
        if matches!(v, SignalType::Dynamic(_)) {
            let (reg_tx, reg_rx) = unbounded();
            let (go_tx, go_rx) = unbounded();
            spawn_worker(Gated { go_rx, job: Fork::new(root, reg_rx) });
            self.runners.push(go_tx);
            Branch::new(self.config, reg_tx, None, v)
        } else {
            // The sub-graph above is constant: it was evaluated while
            // it was built, and nothing of it runs.  The branch keeps
            // a registration end no fork will serve.
            let (reg_tx, _reg_rx) = unbounded();
            Branch::new(self.config, reg_tx, None, v)
        }
    }

    /// Combination of adding a signal and a fresh input.
    ///
    /// The output of a dynamic `root` is re-injected into the topology
    /// as a new input, so a slow `root` no longer serializes with the
    /// other inputs: downstream sees its changes whenever they are
    /// ready.  A constant `root` was folded at build time already: the
    /// adapter degenerates into its constant branch and registers no
    /// input and no runner.
    pub fn async_<SA: Signal<A>, A: 'static + Send + Clone>(&mut self, root: SA) -> (r: Branch<A>)
        requires
            root.wf(),
        ensures
            r.source_rx is None,
            final(self).config == old(self).config,
            root.initial_spec() is Dynamic ==> {
                &&& (r.initial matches SignalType::Dynamic(v) && crate::clone2(
                    spec_unwrap(root.initial_spec()),
                    v,
                ))
                &&& final(self).coordinator.inputs.len() == old(self).coordinator.inputs.len() + 1
                &&& final(self).runners.len() == old(self).runners.len() + 2
            },
            root.initial_spec() is Constant ==> {
                &&& sig_cloned(root.initial_spec(), r.initial)
                &&& final(self).coordinator.inputs == old(self).coordinator.inputs
                &&& final(self).runners == old(self).runners
            },
            old(self).coordinator.indexed() ==> final(self).coordinator.indexed(),
    {
        let v = root.initial();
        if matches!(v, SignalType::Constant(_)) {
            let (reg_tx, _reg_rx) = unbounded();
            Branch::new(self.config, reg_tx, None, v)
        } else {
            let (tx, rx) = bounded(self.config.buffer_size);
            let (go_tx, go_rx) = unbounded();
            spawn_worker(Gated { go_rx, job: Async::new(root, tx) });
            self.runners.push(go_tx);
            let ghost gv = v;
            let r = self.listen(v.unwrap(), rx);
            proof {
                assert(cloned::<A>(spec_unwrap(root.initial_spec()), spec_unwrap(gv)));
            }
            r
        }
    }
}

} // verus!
