use vstd::prelude::*;

verus! {

/// Topology configuration.
///
/// `buffer_size` determines the capacity of the bounded queues used for
/// transporting events between workers.  `0` means rendezvous: a sender
/// blocks until the receiver takes the event, which propagates
/// backpressure all the way to the external source.
#[derive(Clone, Copy, Debug)]
pub struct Config {
    pub buffer_size: usize,
}

impl Default for Config {
    fn default() -> (c: Config)
        ensures
            c.buffer_size == 0,
    {
        Config { buffer_size: 0 }
    }
}

} // verus!
