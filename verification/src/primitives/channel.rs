//! The boundary adapter that turns a driver-fed event queue into a
//! signal.

use vstd::prelude::*;

verus! {

use crate::channel::recv;
use crate::{forward_step, Config, Event, Push, Signal, SignalType};
use std::sync::mpsc::Receiver;

/// A dynamic signal fed by an input driver's delivery slot.  At run
/// time it pulls events from the slot and forwards each one downstream;
/// when the slot closes it synthesizes `Exit`, forwards it once, and
/// terminates.
#[verifier::reject_recursive_types(A)]
pub struct Channel<A: Send + Clone> {
    pub config: Config,
    pub source_rx: Receiver<Event<A>>,
    pub initial: A,
}

impl<A: Send + Clone> Channel<A> {
    pub fn new(config: Config, source_rx: Receiver<Event<A>>, initial: A) -> (r: Channel<A>)
        ensures
            r.config == config,
            r.initial == initial,
    {
        Channel { config, source_rx, initial }
    }
}

impl<A: 'static + Send + Clone> Signal<A> for Channel<A> {
    open spec fn wf(&self) -> bool {
        true
    }

    open spec fn height(&self) -> nat {
        0
    }

    open spec fn initial_spec(&self) -> SignalType<A> {
        SignalType::Dynamic(self.initial)
    }

    fn config(&self) -> Config {
        self.config
    }

    fn initial(&self) -> SignalType<A> {
        SignalType::Dynamic(self.initial.clone())
    }

    fn push_to<P: Push<A>>(self, target: Option<P>) {
        let Channel { source_rx, .. } = self;
        match target {
            Some(mut t) => {
                let mut fuel: u64 = u64::MAX;
                while fuel > 0
                    invariant
                        t.pusher_wf(),
                    decreases fuel,
                {
                    fuel = fuel - 1;
                    let (out, stop) = forward_step(recv(&source_rx));
                    t.push(out);
                    if stop {
                        return ;
                    }
                }
            },
            None => {
                // No consumer: keep draining so the driver never blocks.
                let mut fuel: u64 = u64::MAX;
                while fuel > 0
                    decreases fuel,
                {
                    fuel = fuel - 1;
                    let (_out, stop) = forward_step(recv(&source_rx));
                    if stop {
                        return ;
                    }
                }
            },
        }
    }
}

} // verus!
