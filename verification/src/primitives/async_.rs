//! The asynchronous adapter: re-injects a slow signal's output as a new
//! input, so its latency no longer serializes with the other inputs.

use vstd::prelude::*;

verus! {

use crate::channel::sync_send;
use crate::{Event, Push, Run, Signal, SignalType};
use std::sync::mpsc::SyncSender;

/// What the adapter re-injects into its fresh input for one observed
/// event: a changed value, and nothing else.  A tick's absence on the
/// new queue is mirrored back as `Unchanged` by the coordinator, and
/// the terminal marker reaches every input through the topology handle
/// anyway.
pub fn async_step<A>(event: Event<A>) -> (out: Option<A>)
    ensures
        event matches Event::Changed(a) ==> out == Some(a),
        event is Unchanged ==> out is None,
        event is Exit ==> out is None,
{
    match event {
        Event::Changed(a) => Some(a),
        Event::Unchanged => None,
        Event::Exit => None,
    }
}

/// The worker that drives the wrapped signal and feeds each of its
/// changed values into the external queue of a fresh input.  A constant
/// signal needs no re-injection and the worker does nothing.
#[verifier::reject_recursive_types(A)]
pub struct Async<S, A: Send> {
    pub parent: S,
    pub tx: SyncSender<A>,
}

impl<S: Signal<A>, A: 'static + Send + Clone> Async<S, A> {
    pub fn new(parent: S, tx: SyncSender<A>) -> (r: Async<S, A>)
        ensures
            r.parent == parent,
    {
        Async { parent, tx }
    }
}

impl<S: Signal<A>, A: 'static + Send + Clone> Run for Async<S, A> {
    open spec fn run_wf(&self) -> bool {
        self.parent.wf()
    }

    fn run(self) {
        let Async { parent, tx } = self;
        match parent.initial() {
            SignalType::Constant(_) => {
                // Folded away at build time: nothing flows at run time.
            },
            SignalType::Dynamic(_) => {
                parent.push_to(Some(AsyncPusher { tx }));
            },
        }
    }
}

/// The bottom of the adapter's chain: changed values go into the new
/// input's external queue, while ticks produce nothing there (absence
/// is mirrored back as `Unchanged` by the coordinator) and the terminal
/// marker reaches every input through the coordinator anyway.
#[verifier::reject_recursive_types(A)]
pub struct AsyncPusher<A: Send> {
    pub tx: SyncSender<A>,
}

impl<A: 'static + Send + Clone> Push<A> for AsyncPusher<A> {
    open spec fn pusher_wf(&self) -> bool {
        true
    }

    open spec fn pusher_height(&self) -> nat {
        0
    }

    fn push(&mut self, event: Event<A>) {
        match async_step(event) {
            Some(a) => {
                // The input driver may already be gone; keep draining.
                sync_send(&self.tx, a);
            },
            None => {},
        }
    }
}

} // verus!
