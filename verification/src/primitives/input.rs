//! Input drivers: the sources that inject external events into a
//! topology, and the mirror agents that deliver the per-event
//! "no-change" notifications of the coordination protocol.

use vstd::prelude::*;

verus! {

use crate::channel::{bounded, clone_sync_sender, recv, sync_send};
use crate::{Event, Run};
use std::sync::mpsc::{Receiver, Sender, SyncSender};

/// Command delivered to an input's mirror agent: either "another input
/// originated a global event, contribute your notification, and
/// acknowledge on this channel once it is delivered", or "shut the
/// input down".
pub enum Notice {
    NoChange(SyncSender<()>),
    Exit,
}

/// Types which can contribute one notification per global event to
/// their own downstream slot.
///
/// A plain event sender contributes an `Unchanged` tick; a tick input
/// contributes its configured value; a generator input contributes a
/// freshly drawn value.
pub trait NoOp: Send {
    spec fn no_op_wf(&self) -> bool;

    /// Delivers this input's notification for one global event.
    /// Returns true when the downstream receiver is gone.
    fn send_no_change(&self) -> bool
        requires
            self.no_op_wf(),
    ;

    /// Delivers the terminal marker downstream.
    fn send_exit(&self)
        requires
            self.no_op_wf(),
    ;
}

impl<A: Send> NoOp for SyncSender<Event<A>> {
    open spec fn no_op_wf(&self) -> bool {
        true
    }

    fn send_no_change(&self) -> bool {
        !sync_send(self, Event::Unchanged)
    }

    fn send_exit(&self) {
        sync_send(self, Event::Exit);
    }
}

/// A handle on an input's mirror agent; delivering through it relays
/// the command to whatever `NoOp` behaviour the agent owns, and a
/// no-change notification returns only once the agent has delivered
/// it downstream: a driver that notified every other slot through
/// these handles has completed its broadcast, as one global event
/// requires, before it pulls its next source value.
///
/// `slot` records which input the handle serves, and `exits` how many
/// terminal markers were handed through it: the bookkeeping that lets
/// launch and shutdown state which slot each of their handles reaches.
pub struct NoOpSender {
    pub tx: SyncSender<Notice>,
    pub slot: Ghost<int>,
    pub exits: Ghost<int>,
}

impl Clone for NoOpSender {
    fn clone(&self) -> (r: Self)
        ensures
            r.slot == self.slot,
            r.exits == self.exits,
    {
        NoOpSender { tx: clone_sync_sender(&self.tx), slot: self.slot, exits: self.exits }
    }
}

impl NoOpSender {
    /// Hands one terminal marker to this handle's slot and records it.
    pub fn deliver_exit(&mut self)
        ensures
            final(self).tx == old(self).tx,
            final(self).slot == old(self).slot,
            final(self).exits@ == old(self).exits@ + 1,
    {
        sync_send(&self.tx, Notice::Exit);
        proof {
            self.exits@ = self.exits@ + 1;
        }
    }
}

impl NoOp for NoOpSender {
    open spec fn no_op_wf(&self) -> bool {
        true
    }

    fn send_no_change(&self) -> bool {
        let (reply_tx, reply_rx) = bounded(0);
        if !sync_send(&self.tx, Notice::NoChange(reply_tx)) {
            return true;
        }
        // Wait until the agent has delivered its notification; an
        // agent that went away counts as a gone downstream.
        match recv(&reply_rx) {
            Some(_) => false,
            None => true,
        }
    }

    fn send_exit(&self) {
        sync_send(&self.tx, Notice::Exit);
    }
}

/// The worker that serves one input's mirror slot: it turns each
/// coordination command into that input's own notification,
/// acknowledges the delivery back to the originating driver, and stops
/// after delivering `Exit` or when the coordinator is gone.
pub struct Mirror<N: NoOp> {
    pub ctl_rx: Receiver<Notice>,
    pub no_op: N,
}

impl<N: NoOp + 'static> Run for Mirror<N> {
    open spec fn run_wf(&self) -> bool {
        self.no_op.no_op_wf()
    }

    fn run(self) {
        let Mirror { ctl_rx, no_op } = self;
        let mut fuel: u64 = u64::MAX;
        while fuel > 0
            invariant
                no_op.no_op_wf(),
            decreases fuel,
        {
            fuel = fuel - 1;
            match recv(&ctl_rx) {
                Some(Notice::NoChange(reply_tx)) => {
                    if no_op.send_no_change() {
                        return ;
                    }
                    // The delivery is done; release the driver.  A
                    // driver that vanished meanwhile ends this input.
                    if !sync_send(&reply_tx, ()) {
                        return ;
                    }
                },
                Some(Notice::Exit) => {
                    no_op.send_exit();
                    return ;
                },
                None => {
                    return ;
                },
            }
        }
    }
}

/// Types which pull external data and drive the per-event broadcast.
pub trait RunInput: 'static + Send + Sized {
    spec fn input_wf(&self) -> bool;

    /// Runs the driver: `idx` is this input's stable index, `no_ops`
    /// holds one mirror handle per registered input, in index order.
    fn run(self, idx: usize, no_ops: Vec<NoOpSender>)
        requires
            self.input_wf(),
    ;
}

/// One registered input, as the builder hands it to the topology: the
/// handle of its mirror agent and, for an input that pulls from a
/// source of its own, the channel that releases its driver at launch.
pub struct InputHandle {
    pub no_op: NoOpSender,
    pub launch: Option<Sender<Launch>>,
}

/// What a driver waits for before it may pull from its source: its index
/// and the frozen vector of mirror handles, one per input.
pub struct Launch {
    pub idx: usize,
    pub no_ops: Vec<NoOpSender>,
}

/// The worker wrapping an input driver: it parks until the topology is
/// launched, then runs the driver with the index and mirrors it was
/// assigned.  If the topology is dropped unlaunched it just exits.
pub struct InputDriver<I: RunInput> {
    pub launch_rx: Receiver<Launch>,
    pub input: I,
}

impl<I: RunInput> Run for InputDriver<I> {
    open spec fn run_wf(&self) -> bool {
        self.input.input_wf()
    }

    fn run(self) {
        let InputDriver { launch_rx, input } = self;
        match recv(&launch_rx) {
            Some(launch) => input.run(launch.idx, launch.no_ops),
            None => {},
        }
    }
}

/// What the originating input's own slot is handed for one global
/// event: the received value, as a `Changed` event.
pub fn changed_event<A: Clone>(a: &A) -> (e: Event<A>)
    ensures
        e matches Event::Changed(v) && cloned::<A>(*a, v),
{
    Event::Changed(a.clone())
}

/// An input fed by an externally supplied queue.  Each received value
/// becomes one global event, delivered as one row of
/// [`crate::protocol::broadcast_row`]: `Changed` on this input's own
/// slot, a no-change notification on every other slot, in index order,
/// each acknowledged before the driver pulls again.  When the queue
/// closes, `Exit` goes to every slot and the driver stops.
#[verifier::reject_recursive_types(A)]
pub struct ReceiverInput<A: Send> {
    pub rx: Receiver<A>,
    pub tx: SyncSender<Event<A>>,
}

impl<A: Send> ReceiverInput<A> {
    pub fn new(rx: Receiver<A>, tx: SyncSender<Event<A>>) -> (r: ReceiverInput<A>)
        ensures
            r.rx == rx,
            r.tx == tx,
    {
        ReceiverInput { rx, tx }
    }
}

impl<A: 'static + Send + Clone> RunInput for ReceiverInput<A> {
    open spec fn input_wf(&self) -> bool {
        true
    }

    fn run(self, idx: usize, no_ops: Vec<NoOpSender>) {
        let ReceiverInput { rx, tx } = self;
        let mut fuel: u64 = u64::MAX;
        while fuel > 0
            decreases fuel,
        {
            fuel = fuel - 1;
            match recv(&rx) {
                Some(a) => {
                    let n = no_ops.len();
                    let mut j: usize = 0;
                    while j < n
                        invariant
                            n == no_ops.len(),
                        decreases n - j,
                    {
                        if j == idx {
                            if !sync_send(&tx, changed_event(&a)) {
                                return ;
                            }
                        } else {
                            if no_ops[j].send_no_change() {
                                return ;
                            }
                        }
                        j = j + 1;
                    }
                },
                None => {
                    let n = no_ops.len();
                    let mut j: usize = 0;
                    while j < n
                        invariant
                            n == no_ops.len(),
                        decreases n - j,
                    {
                        no_ops[j].send_exit();
                        j = j + 1;
                    }
                    return ;
                },
            }
        }
    }
}

/// An input with no source of its own: on every global event originated
/// elsewhere it emits `Changed` with its configured value, which makes
/// everything downstream of it recompute on every tick of the topology.
#[verifier::reject_recursive_types(A)]
pub struct TickInput<A: Send + Clone> {
    pub initial: A,
    pub tx: SyncSender<Event<A>>,
}

impl<A: Send + Clone> TickInput<A> {
    pub fn new(v: A, tx: SyncSender<Event<A>>) -> (r: Self)
        ensures
            r.initial == v,
            r.tx == tx,
    {
        TickInput { initial: v, tx }
    }
}

impl<A: 'static + Send + Clone> RunInput for TickInput<A> {
    open spec fn input_wf(&self) -> bool {
        true
    }

    fn run(self, idx: usize, no_ops: Vec<NoOpSender>) {
        // Nothing to pull: all the work happens on the mirror side.
    }
}

impl<A: Send + Clone> TickInput<A> {
    /// What this input contributes per global event: not a tick but
    /// `Changed` with its configured value, which is what re-fires
    /// everything downstream of it.
    pub fn notice_event(&self) -> (e: Event<A>)
        ensures
            e matches Event::Changed(v) && cloned::<A>(self.initial, v),
    {
        Event::Changed(self.initial.clone())
    }
}

impl<A: Send + Clone> NoOp for TickInput<A> {
    open spec fn no_op_wf(&self) -> bool {
        true
    }

    fn send_no_change(&self) -> bool {
        !sync_send(&self.tx, self.notice_event())
    }

    fn send_exit(&self) {
        sync_send(&self.tx, Event::Exit);
    }
}

/// An input that draws a fresh value from its generator on every global
/// event originated elsewhere.
#[verifier::reject_recursive_types(A)]
#[verifier::reject_recursive_types(F)]
pub struct RngInput<F, A> where F: Fn() -> A + Send, A: Send {
    pub rng: F,
    pub tx: SyncSender<Event<A>>,
}

impl<F: Fn() -> A + Send, A: Send> RngInput<F, A> {
    pub fn new(rng: F, tx: SyncSender<Event<A>>) -> (r: Self)
        ensures
            r.rng == rng,
            r.tx == tx,
    {
        RngInput { rng, tx }
    }
}

impl<F: 'static + Fn() -> A + Send, A: 'static + Send + Clone> RunInput for RngInput<F, A> {
    open spec fn input_wf(&self) -> bool {
        call_requires(self.rng, ())
    }

    fn run(self, idx: usize, no_ops: Vec<NoOpSender>) {
        // Nothing to pull: all the work happens on the mirror side.
    }
}

impl<F: Fn() -> A + Send, A: Send> RngInput<F, A> {
    /// What this input contributes per global event: `Changed` with a
    /// value freshly drawn from its generator.
    pub fn notice_event(&self) -> (e: Event<A>)
        requires
            call_requires(self.rng, ()),
        ensures
            e matches Event::Changed(v) && call_ensures(self.rng, (), v),
    {
        let a = (self.rng)();
        Event::Changed(a)
    }
}

impl<F: Fn() -> A + Send, A: Send> NoOp for RngInput<F, A> {
    open spec fn no_op_wf(&self) -> bool {
        call_requires(self.rng, ())
    }

    fn send_no_change(&self) -> bool {
        !sync_send(&self.tx, self.notice_event())
    }

    fn send_exit(&self) {
        sync_send(&self.tx, Event::Exit);
    }
}

} // verus!
