//! The coordinator: owner of the registered inputs and keeper of the
//! global ordering invariant.
//!
//! Every input registers here during the build phase and receives a
//! stable index.  At launch the coordinator freezes the vector of
//! mirror handles, one per input in index order, and hands it to every
//! pulling driver together with its index; a driver that receives a
//! value delivers `Changed` to its own slot and a no-change
//! notification to every other slot — each mirror acknowledges its
//! delivery before the driver moves on — and only then pulls its next
//! source value.  That per-event broadcast is what makes every dynamic
//! node observe exactly one event per global event; what it guarantees
//! over whole runs is stated and proved in [`crate::protocol`].

use vstd::prelude::*;

verus! {

use crate::channel::{bounded, clone_sync_sender, send, spawn_worker, unbounded};
use crate::primitives::input::{
    InputDriver, InputHandle, Launch, Mirror, NoOp, NoOpSender, ReceiverInput,
};
use crate::Event;
use std::sync::mpsc::Receiver;

/// The build-phase registry of inputs, one entry per stable index.
pub struct Coordinator {
    pub inputs: Vec<InputHandle>,
}

impl Coordinator {
    /// Every registered handle records the index it was registered at.
    pub open spec fn indexed(&self) -> bool {
        forall|i: int| 0 <= i < self.inputs.len() ==> #[trigger] self.inputs[i].no_op.slot@ == i
    }

    /// An empty registry: no inputs yet.
    pub fn new() -> (c: Coordinator)
        ensures
            c.inputs.len() == 0,
            c.indexed(),
    {
        Coordinator { inputs: Vec::new() }
    }

    /// Registers an input that pulls from `source`: brings up its
    /// driver and its mirror agent, and returns the delivery slot its
    /// channel node will consume, a bounded queue of capacity
    /// `buffer`.  The driver stays parked until the topology launches.
    pub fn channel<A: 'static + Send + Clone>(&mut self, source: Receiver<A>, buffer: usize) -> (r:
        Receiver<Event<A>>)
        ensures
            final(self).inputs.len() == old(self).inputs.len() + 1,
            forall|i: int|
                0 <= i < old(self).inputs.len() ==> final(self).inputs[i] == old(self).inputs[i],
            final(self).inputs[old(self).inputs.len() as int].no_op.slot@ == old(
                self,
            ).inputs.len(),
            old(self).indexed() ==> final(self).indexed(),
    {
        let (tx, rx) = bounded(buffer);
        let (ctl_tx, ctl_rx) = bounded(0);
        spawn_worker(Mirror { ctl_rx, no_op: clone_sync_sender(&tx) });
        let (launch_tx, launch_rx) = unbounded();
        spawn_worker(InputDriver { launch_rx, input: ReceiverInput::new(source, tx) });
        let ghost slot = self.inputs.len() as int;
        let no_op = NoOpSender { tx: ctl_tx, slot: Ghost(slot), exits: Ghost(0) };
        self.inputs.push(InputHandle { no_op, launch: Some(launch_tx) });
        rx
    }

    /// Registers an input with no source of its own: `no_op` alone
    /// serves its slot, contributing one notification per global event
    /// originated elsewhere.
    pub fn register<N: NoOp + 'static>(&mut self, no_op: N)
        requires
            no_op.no_op_wf(),
        ensures
            final(self).inputs.len() == old(self).inputs.len() + 1,
            forall|i: int|
                0 <= i < old(self).inputs.len() ==> final(self).inputs[i] == old(self).inputs[i],
            final(self).inputs[old(self).inputs.len() as int].no_op.slot@ == old(
                self,
            ).inputs.len(),
            old(self).indexed() ==> final(self).indexed(),
    {
        let (ctl_tx, ctl_rx) = bounded(0);
        spawn_worker(Mirror { ctl_rx, no_op });
        let ghost slot = self.inputs.len() as int;
        let handle = NoOpSender { tx: ctl_tx, slot: Ghost(slot), exits: Ghost(0) };
        self.inputs.push(InputHandle { no_op: handle, launch: None });
    }

    /// Launches the protocol: freezes the mirror vector, one handle
    /// per input in index order, releases every pulling driver with
    /// its index and that vector, and returns one termination handle
    /// per input.
    pub fn spawn(self) -> (term_txs: Vec<NoOpSender>)
        ensures
            term_txs.len() == self.inputs.len(),
            forall|i: int|
                0 <= i < term_txs.len() ==> #[trigger] term_txs[i].slot@
                    == self.inputs[i].no_op.slot@,
            self.indexed() ==> forall|i: int|
                0 <= i < term_txs.len() ==> #[trigger] term_txs[i].slot@ == i,
    {
        let Coordinator { inputs } = self;
        let n = inputs.len();

        let mut no_ops: Vec<NoOpSender> = Vec::new();
        let mut i: usize = 0;
        while i < n
            invariant
                n == inputs.len(),
                no_ops.len() == i,
                i <= n,
            decreases n - i,
        {
            no_ops.push(inputs[i].no_op.clone());
            i = i + 1;
        }

        let mut term_txs: Vec<NoOpSender> = Vec::new();
        let mut i: usize = 0;
        while i < n
            invariant
                n == inputs.len(),
                term_txs.len() == i,
                i <= n,
                forall|k: int|
                    0 <= k < i ==> #[trigger] term_txs[k].slot@ == inputs[k].no_op.slot@,
            decreases n - i,
        {
            term_txs.push(inputs[i].no_op.clone());
            i = i + 1;
        }

        let mut idx: usize = 0;
        while idx < n
            invariant
                n == inputs.len(),
            decreases n - idx,
        {
            match &inputs[idx].launch {
                Some(launch_tx) => {
                    send(launch_tx, Launch { idx, no_ops: no_ops.clone() });
                },
                None => {},
            }
            idx = idx + 1;
        }

        term_txs
    }
}

} // verus!
