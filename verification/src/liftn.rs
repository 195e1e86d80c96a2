//! Pulling one side of an n-ary combine.

use vstd::prelude::*;

verus! {

use crate::channel::recv;
use crate::Event;
use std::sync::mpsc::Receiver;

/// Pulls one input of an n-ary combine step by step, caching the last
/// value seen so that a tick can contribute it again.
#[verifier::reject_recursive_types(A)]
pub struct InputPuller<A: Send> {
    pub last: Option<A>,
    pub rx: Receiver<Event<A>>,
}

/// Classifies one received event against the cache: the per-variant
/// table of a pull.  A fresh value is cached, returned and raises the
/// change flag; a tick returns a copy of the cached value and leaves
/// the flags alone; a tick with nothing cached is a protocol
/// violation — each side's first event seeds the cache — and reports
/// the end of the stream, as do the terminal marker and a vanished
/// upstream.
pub fn pull_step<A: Send + Clone>(
    last: &mut Option<A>,
    received: Option<Event<A>>,
    any_changed: &mut bool,
    any_exit: &mut bool,
) -> (r: Option<A>)
    ensures
        received matches Some(Event::Changed(a)) ==> r == Some(a) && *final(any_changed)
            && *final(any_exit) == *old(any_exit) && (*final(last) matches Some(l) && cloned::<A>(
            a,
            l,
        )),
        received == Some(Event::<A>::Unchanged) ==> *final(any_changed) == *old(any_changed)
            && *final(last) == *old(last) && match *old(last) {
            Some(c) => *final(any_exit) == *old(any_exit) && (r matches Some(v) && cloned::<A>(
                c,
                v,
            )),
            None => *final(any_exit) && r is None,
        },
        received == Some(Event::<A>::Exit) || received is None ==> *final(any_exit) && r is None
            && *final(last) == *old(last) && *final(any_changed) == *old(any_changed),
{
    match received {
        Some(Event::Changed(a)) => {
            *any_changed = true;
            *last = Some(a.clone());
            Some(a)
        },
        Some(Event::Unchanged) => {
            match last {
                Some(a) => Some(a.clone()),
                None => {
                    *any_exit = true;
                    None
                },
            }
        },
        Some(Event::Exit) => {
            *any_exit = true;
            None
        },
        None => {
            *any_exit = true;
            None
        },
    }
}

impl<A: Send + Clone> InputPuller<A> {
    /// Takes this side's contribution to one combine step, as one
    /// [`pull_step`] on whatever the queue yielded: a changed value is
    /// cached, returned, and raises the change flag; a tick returns
    /// the cached value and leaves the flag alone; anything that ends
    /// the stream raises the exit flag.
    pub fn pull(&mut self, any_changed: &mut bool, any_exit: &mut bool) -> (r: Option<A>)
        ensures
            final(self).rx == old(self).rx,
            *old(any_changed) ==> *final(any_changed),
            *old(any_exit) ==> *final(any_exit),
            r is None ==> *final(any_exit) && final(self).last == old(self).last,
            r matches Some(v) ==> *final(any_exit) == *old(any_exit) && ((*final(any_changed)
                && (final(self).last matches Some(l) && cloned::<A>(v, l))) || ((old(
                self,
            ).last matches Some(c) && cloned::<A>(c, v)) && final(self).last == old(self).last
                && *final(any_changed) == *old(any_changed))),
    {
        let received = recv(&self.rx);
        pull_step(&mut self.last, received, any_changed, any_exit)
    }
}

} // verus!
