//! A constant-valued signal: known at build time, never pushes at run
//! time.  Combiners fold it away into their own initial values.

use vstd::prelude::*;

verus! {

use crate::{Config, Push, Signal, SignalType};

/// A signal holding a fixed value.  Anything downstream of it alone is
/// evaluated once, during the build phase, and never again.
pub struct Value<A: Send + Clone> {
    pub config: Config,
    pub initial: A,
}

impl<A: Send + Clone> Clone for Value<A> {
    fn clone(&self) -> (r: Self)
        ensures
            r.config == self.config,
            cloned::<A>(self.initial, r.initial),
    {
        Value { config: self.config, initial: self.initial.clone() }
    }
}

impl<A: Send + Clone> Value<A> {
    pub fn new(config: Config, v: A) -> (r: Self)
        ensures
            r.config == config,
            r.initial == v,
    {
        Value { config, initial: v }
    }
}

impl<A: 'static + Send + Clone> Signal<A> for Value<A> {
    open spec fn wf(&self) -> bool {
        true
    }

    open spec fn height(&self) -> nat {
        0
    }

    open spec fn initial_spec(&self) -> SignalType<A> {
        SignalType::Constant(self.initial)
    }

    fn config(&self) -> Config {
        self.config
    }

    fn initial(&self) -> SignalType<A> {
        SignalType::Constant(self.initial.clone())
    }

    fn push_to<P: Push<A>>(self, target: Option<P>) {
        // A constant signal reports `Constant`, so no caller can meet
        // the contract of driving it: this body is unreachable.
    }
}

} // verus!
