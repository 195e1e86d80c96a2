//! A concurrent functional-reactive runtime.
//!
//! An application declares a static directed acyclic graph of
//! data-transforming nodes ("signals") during a single-threaded build
//! phase, then launches it once.  At run time every external event that
//! enters at one input is mirrored to every other input as a "no-change"
//! tick, so that each dynamic node observes exactly one [`Event`] per
//! global event before the next one is processed.
//!
//! What the protocol guarantees over whole runs — one observation per
//! slot per global event, per-input source ordering, and the stream
//! laws of the map and fold nodes — is stated and proved in
//! [`protocol`].

use vstd::prelude::*;

mod builder;
mod channel;
mod config;
pub mod coordinator;
pub mod liftn;
pub mod primitives;
pub mod protocol;
pub mod runner;
mod signal_ext;
mod topology;
pub mod transform;

pub use builder::Builder;
pub use config::Config;
pub use signal_ext::SignalExt;
pub use topology::{Topology, TopologyHandle};

verus! {

/// Container for data as it flows across the topology.
///
/// `Changed` carries a new value, `Unchanged` is a synchronization tick
/// that carries none, and `Exit` is the terminal marker: a node forwards
/// it once and stops.
pub enum Event<A> {
    Changed(A),
    Unchanged,
    Exit,
}

/// Whether `out` is the same event as `src`, with a payload that could
/// have been produced by cloning the payload of `src`.
pub open spec fn event_cloned<A: Clone>(src: Event<A>, out: Event<A>) -> bool {
    match src {
        Event::Changed(a) => out matches Event::Changed(b) && cloned::<A>(a, b),
        Event::Unchanged => out matches Event::Unchanged,
        Event::Exit => out matches Event::Exit,
    }
}

impl<A: Clone> Clone for Event<A> {
    fn clone(&self) -> (r: Self)
        ensures
            event_cloned(*self, r),
    {
        match self {
            Event::Changed(a) => Event::Changed(a.clone()),
            Event::Unchanged => Event::Unchanged,
            Event::Exit => Event::Exit,
        }
    }
}

/// The build-time kind of a signal: a `Constant` value never changes at
/// run time and is folded away by combiners, while a `Dynamic` signal
/// will push events once the topology runs.
pub enum SignalType<A> {
    Constant(A),
    Dynamic(A),
}

/// The value carried by a signal kind, whichever kind it is.
pub open spec fn spec_unwrap<A>(s: SignalType<A>) -> A {
    match s {
        SignalType::Constant(v) => v,
        SignalType::Dynamic(v) => v,
    }
}

/// What a boundary or branch node hands downstream for one pull from
/// its queue: the received event itself, untouched, or one synthesized
/// `Exit` when the queue has closed.  The flag says whether the node
/// stops after this step, which it does exactly when the terminal
/// marker goes out.
pub fn forward_step<A>(received: Option<Event<A>>) -> (out: (Event<A>, bool))
    ensures
        received matches Some(e) ==> out.0 == e && (out.1 <==> e is Exit),
        received is None ==> out.0 is Exit && out.1,
{
    match received {
        Some(e) => {
            let stop = matches!(e, Event::Exit);
            (e, stop)
        },
        None => (Event::Exit, true),
    }
}

/// Whether `c` is a clone of a clone of `a`: what survives a value
/// being handed across two ownership boundaries.
pub open spec fn clone2<A: Clone>(a: A, c: A) -> bool {
    exists|m: A| cloned::<A>(a, m) && #[trigger] cloned::<A>(m, c)
}

/// Whether `out` is the same kind as `src`, carrying a clone of its value.
pub open spec fn sig_cloned<A: Clone>(src: SignalType<A>, out: SignalType<A>) -> bool {
    match src {
        SignalType::Constant(a) => out matches SignalType::Constant(b) && cloned::<A>(a, b),
        SignalType::Dynamic(a) => out matches SignalType::Dynamic(b) && cloned::<A>(a, b),
    }
}

impl<A> SignalType<A> {
    /// Extracts the carried value, losing the kind.
    pub fn unwrap(self) -> (r: A)
        ensures
            r == spec_unwrap(self),
    {
        match self {
            SignalType::Constant(v) => v,
            SignalType::Dynamic(v) => v,
        }
    }
}

impl<A: Clone> Clone for SignalType<A> {
    fn clone(&self) -> (r: Self)
        ensures
            sig_cloned(*self, r),
    {
        match self {
            SignalType::Constant(v) => SignalType::Constant(v.clone()),
            SignalType::Dynamic(v) => SignalType::Dynamic(v.clone()),
        }
    }
}

/// Types which can receive incoming data from other signals.
///
/// A pusher is one link of the chain that a worker drives: it consumes
/// one event, updates its own state, and hands one event on to the next
/// link.  `pusher_height` bounds the length of the chain below it, which
/// is what lets each `push` call terminate.
pub trait Push<A>: Send where A: Send {
    spec fn pusher_wf(&self) -> bool;

    spec fn pusher_height(&self) -> nat;

    fn push(&mut self, event: Event<A>)
        requires
            old(self).pusher_wf(),
        ensures
            final(self).pusher_wf(),
            final(self).pusher_height() == old(self).pusher_height(),
        decreases self.pusher_height(),
    ;
}

/// Whether the optional downstream target of a drive is well formed.
pub open spec fn target_wf<A: Send, P: Push<A>>(target: &Option<P>) -> bool {
    match target {
        Some(p) => p.pusher_wf(),
        None => true,
    }
}

/// Types which can serve as a data source.
///
/// A signal reports its build-time kind through `initial` and, when the
/// topology is launched, is driven exactly once through `push_to`:
/// `push_to(None)` means "no downstream, but still consume events",
/// `push_to(Some(t))` means "emit each event to `t`".  Driving is only
/// meaningful for `Dynamic` signals; a `Constant` signal never pushes.
pub trait Signal<A>: 'static + Send + Sized where A: 'static + Send + Clone {
    spec fn wf(&self) -> bool;

    /// Bounds the chain of parents above this node, so that installing a
    /// push chain terminates.
    spec fn height(&self) -> nat;

    /// The kind and value this signal reports at build time.
    spec fn initial_spec(&self) -> SignalType<A>;

    /// Returns a copy of the signal's configuration.
    fn config(&self) -> Config;

    /// Called at build time when a downstream consumer is attached.
    fn init(&mut self)
        requires
            old(self).wf(),
        ensures
            final(self).wf(),
            final(self).height() == old(self).height(),
            final(self).initial_spec() == old(self).initial_spec(),
    {
    }

    /// Returns the "initial" value of the signal.
    fn initial(&self) -> (r: SignalType<A>)
        requires
            self.wf(),
        ensures
            sig_cloned(self.initial_spec(), r),
    ;

    /// Consumes the signal and runs its event loop, pushing every event
    /// into `target`.  Only a dynamic signal may be driven.
    fn push_to<P: Push<A>>(self, target: Option<P>)
        requires
            self.wf(),
            self.initial_spec() is Dynamic,
            target_wf(&target),
        decreases self.height(),
    ;
}

/// Construct a new topology and run it.
///
/// `f` receives a fresh `Builder`, adds inputs and transformations to
/// it, and gives it back; the built topology is then launched, and the
/// handle that shuts it down is returned.
pub fn spawn_topology<F: FnOnce(Builder) -> Builder>(config: Config, f: F) -> (h: TopologyHandle)
    requires
        forall|b: Builder|
            (b.config == config && b.coordinator.inputs.len() == 0 && b.runners.len() == 0)
                ==> #[trigger] call_requires(f, (b,)),
    ensures
        exists|b0: Builder, b1: Builder|
            #[trigger] call_ensures(f, (b0,), b1) && h.term_txs.len()
                == b1.coordinator.inputs.len(),
{
    let builder = Builder::new(config);
    let built = f(builder);
    Topology::new(built.coordinator, built.runners).run()
}

/// A work unit that owns its state and runs to completion on a worker
/// thread of its own.
pub trait Run: 'static + Send + Sized {
    spec fn run_wf(&self) -> bool;

    fn run(self)
        requires
            self.run_wf(),
    ;
}

} // verus!
