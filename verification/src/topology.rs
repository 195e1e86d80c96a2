//! Run-phase launch and shutdown.

use vstd::prelude::*;

verus! {

use crate::channel::{recv, send};
use crate::coordinator::Coordinator;
use crate::primitives::input::NoOpSender;
use crate::Run;
use std::sync::mpsc::{Receiver, Sender};

/// A worker that parks until the topology is launched, then runs its
/// job; if the topology is dropped unlaunched it just exits.
pub struct Gated<R: Run> {
    pub go_rx: Receiver<()>,
    pub job: R,
}

impl<R: Run> Run for Gated<R> {
    open spec fn run_wf(&self) -> bool {
        self.job.run_wf()
    }

    fn run(self) {
        let Gated { go_rx, job } = self;
        match recv(&go_rx) {
            Some(_) => job.run(),
            None => {},
        }
    }
}

/// A built topology, ready to launch: the coordinator holding the
/// registered inputs, and the release switches of the root runners.
pub struct Topology {
    pub coordinator: Coordinator,
    pub runners: Vec<Sender<()>>,
}

impl Topology {
    /// Create a new topology.
    pub fn new(coordinator: Coordinator, runners: Vec<Sender<()>>) -> (r: Self)
        ensures
            r.coordinator == coordinator,
            r.runners == runners,
    {
        Topology { coordinator, runners }
    }

    /// Launches the topology: releases every root runner, then lets
    /// the coordinator release its drivers with the frozen mirror
    /// vector.  Returns the handle that shuts the topology down.
    pub fn run(self) -> (h: TopologyHandle)
        ensures
            h.term_txs.len() == self.coordinator.inputs.len(),
            self.coordinator.indexed() ==> forall|i: int|
                0 <= i < h.term_txs.len() ==> #[trigger] h.term_txs[i].slot@ == i,
    {
        let Topology { coordinator, runners } = self;

        let mut i: usize = 0;
        while i < runners.len()
            decreases runners.len() - i,
        {
            // A runner that already exited is no obstacle.
            send(&runners[i], ());
            i = i + 1;
        }

        TopologyHandle { term_txs: coordinator.spawn() }
    }
}

/// Whether `after` is `before` with one more terminal marker handed
/// through every handle: same handles, same slots, each exit record
/// one higher.
pub open spec fn exits_handed(before: Seq<NoOpSender>, after: Seq<NoOpSender>) -> bool {
    &&& after.len() == before.len()
    &&& forall|i: int|
        0 <= i < before.len() ==> #[trigger] after[i].tx == before[i].tx && after[i].slot
            == before[i].slot && after[i].exits@ == before[i].exits@ + 1
}

/// For explicitly terminating a running topology.
///
/// Dropping the handle leaves the topology running — the usual way to
/// observe a graph is to launch it and keep reading its output queues
/// — so shutting it down is an explicit call to `stop`.
pub struct TopologyHandle {
    pub term_txs: Vec<NoOpSender>,
}

impl TopologyHandle {
    /// Cooperative shutdown: hands one `Exit` to every input's slot —
    /// each handle's exit record rises by exactly one — which each node
    /// downstream forwards once before it stops.
    pub fn stop(&mut self)
        ensures
            exits_handed(old(self).term_txs@, final(self).term_txs@),
    {
        let ghost orig = self.term_txs@;
        let n = self.term_txs.len();

        // Take the handles off the back, then put each back in order
        // after handing it the marker.
        let mut stack: Vec<NoOpSender> = Vec::new();
        proof {
            assert(orig.take(n as int) =~= orig);
        }
        while self.term_txs.len() > 0
            invariant
                orig.len() == n,
                stack.len() + self.term_txs.len() == n,
                self.term_txs@ == orig.take(self.term_txs.len() as int),
                forall|k: int| 0 <= k < stack.len() ==> #[trigger] stack[k] == orig[n - 1 - k],
            decreases self.term_txs.len(),
        {
            let ghost l = self.term_txs@.len() as int;
            proof {
                assert(1 <= l <= orig.len());
                assert(self.term_txs@ == orig.take(l));
            }
            let h = self.term_txs.pop().unwrap();
            proof {
                assert(self.term_txs@ == orig.take(l).drop_last());
                assert forall|k: int| 0 <= k < l - 1 implies orig.take(l).drop_last()[k]
                    == orig.take(l - 1)[k] by {
                    assert(orig.take(l).drop_last()[k] == orig[k]);
                    assert(orig.take(l - 1)[k] == orig[k]);
                }
                assert(orig.take(l).drop_last() =~= orig.take(l - 1));
                assert(h == orig.take(l).last());
                assert(h == orig[l - 1]);
            }
            stack.push(h);
        }

        while stack.len() > 0
            invariant
                orig.len() == n,
                stack.len() + self.term_txs.len() == n,
                forall|k: int| 0 <= k < stack.len() ==> #[trigger] stack[k] == orig[n - 1 - k],
                forall|k: int|
                    0 <= k < self.term_txs.len() ==> #[trigger] self.term_txs[k].tx == orig[k].tx
                        && self.term_txs[k].slot == orig[k].slot && self.term_txs[k].exits@
                        == orig[k].exits@ + 1,
            decreases stack.len(),
        {
            let mut h = stack.pop().unwrap();
            h.deliver_exit();
            self.term_txs.push(h);
        }
        proof {
            assert(self.term_txs.len() == n);
            assert(exits_handed(old(self).term_txs@, self.term_txs@));
        }
    }
}

} // verus!
