//! The trusted edge of the runtime: standard bounded and unbounded
//! queues for carrying values between workers, and the worker threads
//! themselves.  Everything else in the crate is verified against the
//! contracts stated here.

use vstd::prelude::*;

verus! {

use crate::Run;

#[verifier::external_type_specification]
#[verifier::external_body]
#[verifier::reject_recursive_types(T)]
pub struct ExSender<T>(std::sync::mpsc::Sender<T>);

#[verifier::external_type_specification]
#[verifier::external_body]
#[verifier::reject_recursive_types(T)]
pub struct ExSyncSender<T>(std::sync::mpsc::SyncSender<T>);

#[verifier::external_type_specification]
#[verifier::external_body]
#[verifier::reject_recursive_types(T)]
pub struct ExReceiver<T>(std::sync::mpsc::Receiver<T>);

/// Relies on std::sync::mpsc::channel: returns the two ends of one new
/// unbounded queue.
#[verifier::external_body]
pub fn unbounded<T: Send>() -> (std::sync::mpsc::Sender<T>, std::sync::mpsc::Receiver<T>) {
    std::sync::mpsc::channel()
}

/// Relies on std::sync::mpsc::sync_channel: returns the two ends of one
/// new bounded queue of capacity `cap`; capacity zero is rendezvous.
#[verifier::external_body]
pub fn bounded<T: Send>(cap: usize) -> (std::sync::mpsc::SyncSender<T>, std::sync::mpsc::Receiver<T>) {
    std::sync::mpsc::sync_channel(cap)
}

/// Relies on std::sync::mpsc::Sender::send: enqueues the value without
/// blocking; reports whether the receiving end still exists.
#[verifier::external_body]
pub fn send<T: Send>(tx: &std::sync::mpsc::Sender<T>, t: T) -> bool {
    tx.send(t).is_ok()
}

/// Relies on std::sync::mpsc::SyncSender::send: blocks until the queue
/// accepts the value; reports whether the receiving end still exists.
#[verifier::external_body]
pub fn sync_send<T: Send>(tx: &std::sync::mpsc::SyncSender<T>, t: T) -> bool {
    tx.send(t).is_ok()
}

/// Relies on std::sync::mpsc::Receiver::recv: blocks until a value
/// arrives; `None` means every sending end is gone.
#[verifier::external_body]
pub fn recv<T: Send>(rx: &std::sync::mpsc::Receiver<T>) -> Option<T> {
    match rx.recv() {
        Ok(t) => Some(t),
        Err(_) => None,
    }
}

/// Relies on std::sync::mpsc::Receiver::try_recv: returns a queued value
/// if one is ready, `None` when the queue is empty or closed.
#[verifier::external_body]
pub fn try_recv<T: Send>(rx: &std::sync::mpsc::Receiver<T>) -> Option<T> {
    match rx.try_recv() {
        Ok(t) => Some(t),
        Err(_) => None,
    }
}

/// Relies on std::sync::mpsc::Sender::clone: returns another sending end
/// of the same queue.
#[verifier::external_body]
pub fn clone_sender<T: Send>(tx: &std::sync::mpsc::Sender<T>) -> std::sync::mpsc::Sender<T> {
    tx.clone()
}

/// Relies on std::sync::mpsc::SyncSender::clone: returns another sending
/// end of the same queue.
#[verifier::external_body]
pub fn clone_sync_sender<T: Send>(
    tx: &std::sync::mpsc::SyncSender<T>,
) -> std::sync::mpsc::SyncSender<T> {
    tx.clone()
}

/// Relies on threadpool::ThreadPool::{new, execute}: `job.run()` is
/// executed once, on the worker thread of a dedicated pool of one; the
/// pool handle is dropped, and the already queued job still runs, since
/// the pool's worker drains its queue before it exits.
#[verifier::external_body]
pub fn spawn_worker<R: Run>(job: R)
    requires
        job.run_wf(),
{
    let pool = threadpool::ThreadPool::new(1);
    pool.execute(move || job.run());
}

} // verus!
