//! The single-node runners and the combine-side puller, driven
//! directly over queues.

use cfrp::liftn::InputPuller;
use cfrp::runner::{FoldRunner, Lift2Runner, LiftRunner};
use cfrp::transform::{Lift, Merge};
use cfrp::Event;
use std::sync::mpsc::channel;

fn expect_changed(e: Event<u64>, want: u64) {
    match e {
        Event::Changed(v) => assert_eq!(v, want),
        Event::Unchanged => panic!("expected a changed value, got a tick"),
        Event::Exit => panic!("expected a changed value, got the terminal marker"),
    }
}

fn expect_unchanged(e: Event<u64>) {
    assert!(matches!(e, Event::Unchanged));
}

fn expect_exit(e: Event<u64>) {
    assert!(matches!(e, Event::Exit));
}

#[test]
fn lift_runner_suppresses_unchanged_results() {
    let (in_tx, in_rx) = channel();
    let (out_tx, out_rx) = channel();

    in_tx.send(Event::Changed(4u64)).unwrap();
    in_tx.send(Event::Unchanged).unwrap();
    in_tx.send(Event::Changed(5)).unwrap();
    in_tx.send(Event::Changed(8)).unwrap();
    in_tx.send(Event::Exit).unwrap();

    let mut runner = LiftRunner::new(Lift { f: |i: u64| i / 2 }, vec![out_tx]);
    runner.run(in_rx);

    expect_changed(out_rx.recv().unwrap(), 2);
    expect_unchanged(out_rx.recv().unwrap());
    // 5 / 2 is 2 again: the result did not change, so a tick goes out.
    expect_unchanged(out_rx.recv().unwrap());
    expect_changed(out_rx.recv().unwrap(), 4);
    expect_exit(out_rx.recv().unwrap());
    drop(runner);
    assert!(out_rx.recv().is_err());
}

#[test]
fn lift2_runner_combines_with_caches() {
    let (l_tx, l_rx) = channel();
    let (r_tx, r_rx) = channel();
    let (out_tx, out_rx) = channel();

    l_tx.send(Event::Changed(1u64)).unwrap();
    l_tx.send(Event::Unchanged).unwrap();
    l_tx.send(Event::Exit).unwrap();
    r_tx.send(Event::Changed(2u64)).unwrap();
    r_tx.send(Event::Changed(3)).unwrap();

    let mut runner = Lift2Runner::new(Merge { f: |a: u64, b: u64| a + b }, vec![out_tx]);
    runner.run(l_rx, r_rx);

    expect_changed(out_rx.recv().unwrap(), 3);
    // The left cache contributes 1 against the fresh right 3.
    expect_changed(out_rx.recv().unwrap(), 4);
    expect_exit(out_rx.recv().unwrap());
    drop(runner);
    assert!(out_rx.recv().is_err());
}

#[test]
fn lift2_runner_rejects_tick_before_value() {
    let (l_tx, l_rx) = channel();
    let (r_tx, r_rx) = channel();
    let (out_tx, out_rx) = channel();

    // A tick on a side whose cache was never seeded cannot be
    // combined: the runner gives up after forwarding the marker.
    l_tx.send(Event::<u64>::Unchanged).unwrap();
    r_tx.send(Event::Changed(2u64)).unwrap();

    let mut runner = Lift2Runner::new(Merge { f: |a: u64, b: u64| a + b }, vec![out_tx]);
    runner.run(l_rx, r_rx);

    expect_exit(out_rx.recv().unwrap());
    drop(runner);
    assert!(out_rx.recv().is_err());
}

#[test]
fn fold_runner_accumulates_and_suppresses() {
    let (in_tx, in_rx) = channel();
    let (out_tx, out_rx) = channel();

    in_tx.send(Event::Changed(1u64)).unwrap();
    in_tx.send(Event::Changed(0)).unwrap();
    in_tx.send(Event::Unchanged).unwrap();
    in_tx.send(Event::Changed(2)).unwrap();
    in_tx.send(Event::Exit).unwrap();

    let mut runner = FoldRunner::new(Merge { f: |acc: u64, i: u64| acc + i }, 0u64, vec![out_tx]);
    runner.run(in_rx);

    expect_changed(out_rx.recv().unwrap(), 1);
    // Adding zero left the state alone: a tick goes out instead.
    expect_unchanged(out_rx.recv().unwrap());
    expect_unchanged(out_rx.recv().unwrap());
    expect_changed(out_rx.recv().unwrap(), 3);
    expect_exit(out_rx.recv().unwrap());
}

#[test]
fn input_puller_caches_and_flags() {
    let (tx, rx) = channel();
    tx.send(Event::Changed(7u64)).unwrap();
    tx.send(Event::Unchanged).unwrap();
    tx.send(Event::Exit).unwrap();

    let mut puller = InputPuller { last: None, rx };

    let mut changed = false;
    let mut exit = false;
    assert_eq!(puller.pull(&mut changed, &mut exit), Some(7));
    assert!(changed && !exit);

    let mut changed = false;
    let mut exit = false;
    assert_eq!(puller.pull(&mut changed, &mut exit), Some(7));
    assert!(!changed && !exit);

    let mut changed = false;
    let mut exit = false;
    assert_eq!(puller.pull(&mut changed, &mut exit), None);
    assert!(!changed && exit);
}

#[test]
fn input_puller_rejects_tick_before_value() {
    let (tx, rx) = channel();
    tx.send(Event::<u64>::Unchanged).unwrap();

    let mut puller = InputPuller { last: None, rx };

    let mut changed = false;
    let mut exit = false;
    assert_eq!(puller.pull(&mut changed, &mut exit), None);
    assert!(!changed && exit);
}
