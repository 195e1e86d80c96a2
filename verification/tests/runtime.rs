//! The behaviour of whole topologies, observed from outside through
//! ordinary channels.

use cfrp::{spawn_topology, SignalExt};
use std::sync::mpsc::{channel, sync_channel};

#[test]
fn lift_value() {
    let (out_tx, out_rx) = channel();

    spawn_topology(Default::default(), move |mut t| {
        t.value(0)
            .lift(move |i| {
                out_tx.send(i | (1 << 1)).unwrap();
            })
            .add_to(&mut t);
        t
    });

    // Initial value
    assert_eq!(out_rx.recv().unwrap(), 0b00000010);
}

#[test]
fn fold_value() {
    let (out_tx, out_rx) = channel();

    spawn_topology(Default::default(), move |mut t| {
        t.value(0)
            .fold(out_tx, |tx, i| {
                tx.send(i | (1 << 1)).unwrap();
                tx
            })
            .add_to(&mut t);
        t
    });

    // Initial value
    assert_eq!(out_rx.recv().unwrap(), 0b00000010);
}

#[test]
fn lift2_channel_value() {
    let (tx, rx) = sync_channel(0);
    let (out_tx, out_rx) = channel();

    spawn_topology(Default::default(), move |mut t| {
        let value = t.value(1 << 1);
        t.listen(1 << 0, rx)
            .lift2(value, move |i, j| out_tx.send(i | j).unwrap())
            .add_to(&mut t);
        t
    });

    // Initial value
    assert_eq!(out_rx.recv().unwrap(), (1 << 0) | (1 << 1));

    tx.send(1 << 2).unwrap();
    assert_eq!(out_rx.recv().unwrap(), (1 << 2) | (1 << 1));
}

#[test]
fn lift2_value_value() {
    let (out_tx, out_rx) = channel();

    spawn_topology(Default::default(), move |mut t| {
        let value = t.value(1 << 1);
        t.value(1 << 0)
            .lift2(value, move |i, j| out_tx.send(i | j).unwrap())
            .add_to(&mut t);
        t
    });

    // Initial value
    assert_eq!(out_rx.recv().unwrap(), (1 << 0) | (1 << 1));
}

#[test]
fn async_sends() {
    let (tx, rx) = sync_channel(0);
    let (out_tx, out_rx) = channel();

    spawn_topology(Default::default(), move |mut t| {
        let lifted = t.listen(1 << 0, rx).lift(move |i| {
            out_tx.send(i).unwrap();
        });
        t.async_(lifted);
        t
    });

    assert_eq!(out_rx.recv().unwrap(), 1 << 0);

    tx.send(1 << 1).unwrap();
    assert_eq!(out_rx.recv().unwrap(), 1 << 1);
}

#[test]
fn branch() {
    let (tx, rx) = channel();
    let (out_tx1, out_rx1) = channel();
    let (out_tx2, out_rx2) = channel();

    spawn_topology(Default::default(), move |mut t| {
        let a = t.listen(1 << 0, rx);

        let first = a.clone().lift(move |i| {
            out_tx1.send(i).unwrap();
        });
        t.add(first);
        let second = a.clone().lift(move |i| {
            out_tx2.send(i).unwrap();
        });
        t.add(second);
        t
    });

    assert_eq!(out_rx1.recv().unwrap(), 1 << 0);
    assert_eq!(out_rx2.recv().unwrap(), 1 << 0);

    tx.send(1 << 1).unwrap();
    assert_eq!(out_rx1.recv().unwrap(), 1 << 1);
    assert_eq!(out_rx2.recv().unwrap(), 1 << 1);
}

#[test]
fn rand() {
    let (tx, rx) = channel();
    let (out_tx, out_rx) = channel();

    spawn_topology(Default::default(), move |mut t| {
        let listened = t.listen(0, rx);
        t.add(listened);
        let drawn = t.ack_random(|| rand::random::<u64>() as usize);
        let lifted = drawn.lift(move |i: usize| out_tx.send(i).unwrap());
        t.add(lifted);
        t
    });

    // Just testing to make sure this doesn't explode somehow
    let first = out_rx.recv().unwrap();
    tx.send(0).unwrap();
    let second = out_rx.recv().unwrap();
    assert!(first != second);
}

#[test]
fn map() {
    let (in_tx, in_rx) = sync_channel(0);
    let (out_tx, out_rx) = channel();

    spawn_topology(Default::default(), move |mut t| {
        t.listen(0, in_rx)
            .map(move |i| {
                out_tx.send(i | (1 << 1)).unwrap();
            })
            .add_to(&mut t);
        t
    });

    // Initial value
    assert_eq!(out_rx.recv().unwrap(), 0b00000010);

    // Lifted value
    in_tx.send(1).unwrap();
    assert_eq!(out_rx.recv().unwrap(), 0b00000011);
}

#[test]
fn enumerate() {
    let (in_tx, in_rx) = sync_channel(0);
    let (out_tx, out_rx) = channel();

    spawn_topology(Default::default(), move |mut t| {
        t.listen(0, in_rx)
            .enumerate()
            .lift(move |i| {
                out_tx.send(i).unwrap();
            })
            .add_to(&mut t);
        t
    });

    // Initial value
    assert_eq!(out_rx.recv().unwrap(), (1, 0));

    in_tx.send(1).unwrap();
    assert_eq!(out_rx.recv().unwrap(), (2, 1));
}

#[test]
fn filter() {
    let (in_tx, in_rx) = sync_channel(0);
    let (out_tx, out_rx) = channel();

    spawn_topology(Default::default(), move |mut t| {
        t.listen(0, in_rx)
            .filter(|i| i % 2 == 0)
            .lift(move |i| {
                out_tx.send(i).unwrap();
            })
            .add_to(&mut t);
        t
    });

    // Initial value
    assert_eq!(out_rx.recv().unwrap(), Some(0));

    in_tx.send(1).unwrap();
    assert_eq!(out_rx.recv().unwrap(), None);

    in_tx.send(2).unwrap();
    assert_eq!(out_rx.recv().unwrap(), Some(2));
}

#[test]
fn shit() {
    let (in_tx, in_rx) = channel();
    spawn_topology(Default::default(), |mut t| {
        let input = t.listen(0usize, in_rx).add_to(&mut t);
        let plus_one = input.lift(|i| i + 1).add_to(&mut t);
        let plus_two = plus_one.clone().lift(|i| i + 2);
        let combined = plus_one.lift2(plus_two, |i, j| i + j);
        let accumulated = combined.fold(0, |sum, i| sum + i);
        t.add(accumulated);
        t
    });

    in_tx.send(1usize).unwrap();
}
