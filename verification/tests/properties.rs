//! Scenarios for the runtime's stated properties: the per-event
//! synchronization guarantees, constant folding, shutdown, and the
//! behaviour of the stock combinators on concrete values.

use cfrp::primitives::lift2::Value;
use cfrp::{spawn_topology, SignalExt, SignalType};
use std::sync::mpsc::{channel, sync_channel};

#[test]
fn empty_topology_shuts_down() {
    let mut handle = spawn_topology(Default::default(), |t| t);
    handle.stop();
}

#[test]
fn shutdown_after_traffic() {
    let (tx, rx) = sync_channel(0);
    let (out_tx, out_rx) = channel();

    let mut handle = spawn_topology(Default::default(), move |mut t| {
        t.listen(0usize, rx)
            .lift(move |i| {
                out_tx.send(i).unwrap();
            })
            .add_to(&mut t);
        t
    });

    assert_eq!(out_rx.recv().unwrap(), 0);
    tx.send(7).unwrap();
    assert_eq!(out_rx.recv().unwrap(), 7);

    handle.stop();
    // Exit floods the graph; the output side observes the end of the
    // stream rather than further values.
    assert!(out_rx.recv().is_err());
}

#[test]
fn unconsumed_input_is_drained() {
    let (tx, rx) = sync_channel(0);

    spawn_topology(Default::default(), move |mut t| {
        let listened = t.listen(0usize, rx);
        t.add(listened);
        t
    });

    // The queue is rendezvous: each send completes only because the
    // driver keeps consuming, although no node uses the values.
    tx.send(1).unwrap();
    tx.send(2).unwrap();
}

#[test]
fn constant_subgraph_fires_once() {
    let (tx, rx) = sync_channel(0);
    let (const_tx, const_rx) = channel();
    let (dyn_tx, dyn_rx) = channel();

    spawn_topology(Default::default(), move |mut t| {
        // A fully constant pipeline: value, fold, lift.
        t.value(1)
            .fold(0, |acc, i| acc + i)
            .lift(move |s| {
                const_tx.send(s).unwrap();
            })
            .add_to(&mut t);
        // A dynamic pipeline beside it.
        t.listen(0, rx)
            .lift(move |i| {
                dyn_tx.send(i).unwrap();
            })
            .add_to(&mut t);
        t
    });

    // The constant fold reduced at build time, exactly once.
    assert_eq!(const_rx.recv().unwrap(), 1);
    assert_eq!(dyn_rx.recv().unwrap(), 0);

    // A global event reaches the dynamic path, and only it.
    tx.send(9).unwrap();
    assert_eq!(dyn_rx.recv().unwrap(), 9);
    assert!(const_rx.try_recv().is_err());
}

#[test]
fn lift2_silent_side_still_ticks() {
    let (l_tx, l_rx) = sync_channel(0);
    let (_r_tx, r_rx) = sync_channel::<usize>(0);
    let (out_tx, out_rx) = channel();

    spawn_topology(Default::default(), move |mut t| {
        let left = t.listen(10usize, l_rx);
        let right = t.listen(100usize, r_rx);
        left.lift2(right, move |i, j| out_tx.send(i + j).unwrap()).add_to(&mut t);
        t
    });

    // Initial combination of both seeds.
    assert_eq!(out_rx.recv().unwrap(), 110);

    // The right input never fires; every left event still produces one
    // output, built from the silent side's cached initial.
    l_tx.send(20).unwrap();
    assert_eq!(out_rx.recv().unwrap(), 120);
    l_tx.send(30).unwrap();
    assert_eq!(out_rx.recv().unwrap(), 130);
}

#[test]
fn fold_accumulates_stream() {
    let (tx, rx) = sync_channel(0);
    let (other_tx, other_rx) = sync_channel(0);
    let (out_tx, out_rx) = channel();

    spawn_topology(Default::default(), move |mut t| {
        let drain = t.listen(0usize, other_rx);
        t.add(drain);
        t.listen(0usize, rx)
            .fold(100usize, |acc, i| acc + i)
            .lift(move |s| {
                out_tx.send(s).unwrap();
            })
            .add_to(&mut t);
        t
    });

    // Initial: the accumulator reduced over the input's seed.
    assert_eq!(out_rx.recv().unwrap(), 100);

    tx.send(1).unwrap();
    assert_eq!(out_rx.recv().unwrap(), 101);

    // An event on the other input ticks through the fold without
    // touching its state.
    other_tx.send(9).unwrap();

    tx.send(2).unwrap();
    assert_eq!(out_rx.recv().unwrap(), 103);
    tx.send(3).unwrap();
    assert_eq!(out_rx.recv().unwrap(), 106);
}

#[test]
fn lift_composition_matches_fused() {
    let inputs = [3usize, 7, 9];

    let (tx_a, rx_a) = sync_channel(0);
    let (out_tx_a, out_rx_a) = channel();
    spawn_topology(Default::default(), move |mut t| {
        t.listen(1usize, rx_a)
            .lift(|i| i * 2)
            .lift(move |i| {
                out_tx_a.send(i + 1).unwrap();
            })
            .add_to(&mut t);
        t
    });

    let (tx_b, rx_b) = sync_channel(0);
    let (out_tx_b, out_rx_b) = channel();
    spawn_topology(Default::default(), move |mut t| {
        t.listen(1usize, rx_b)
            .lift(move |i| {
                out_tx_b.send(i * 2 + 1).unwrap();
            })
            .add_to(&mut t);
        t
    });

    let mut seen_a = vec![out_rx_a.recv().unwrap()];
    let mut seen_b = vec![out_rx_b.recv().unwrap()];
    for i in inputs {
        tx_a.send(i).unwrap();
        seen_a.push(out_rx_a.recv().unwrap());
        tx_b.send(i).unwrap();
        seen_b.push(out_rx_b.recv().unwrap());
    }
    assert_eq!(seen_a, seen_b);
    assert_eq!(seen_a, vec![3, 7, 15, 19]);
}

#[test]
fn tick_refires_on_any_event() {
    let (tx, rx) = channel();
    let (out_tx, out_rx) = channel();

    spawn_topology(Default::default(), move |mut t| {
        let ticker = t.ack_value(1usize);
        let observed = ticker.lift(move |i| {
            out_tx.send(i).unwrap();
        });
        t.add(observed);
        let listened = t.listen(0usize, rx);
        t.add(listened);
        t
    });

    // First from the tick's own initial, reduced at build time.
    assert_eq!(out_rx.recv().unwrap(), 1);

    // Every global event elsewhere re-fires the tick's value.
    tx.send(5).unwrap();
    assert_eq!(out_rx.recv().unwrap(), 1);
    tx.send(6).unwrap();
    assert_eq!(out_rx.recv().unwrap(), 1);
}

#[test]
fn counter_counts_events() {
    let (tx, rx) = channel();
    let (out_tx, out_rx) = channel();

    spawn_topology(Default::default(), move |mut t| {
        let counted = t.ack_counter(0usize, 1usize);
        let observed = counted.lift(move |i| {
            out_tx.send(i).unwrap();
        });
        t.add(observed);
        let listened = t.listen(0usize, rx);
        t.add(listened);
        t
    });

    // The build-time reduction folds the first increment in.
    assert_eq!(out_rx.recv().unwrap(), 1);

    tx.send(0).unwrap();
    assert_eq!(out_rx.recv().unwrap(), 2);
    tx.send(0).unwrap();
    assert_eq!(out_rx.recv().unwrap(), 3);
}

#[test]
fn zip_pairs_newest_values() {
    let (l_tx, l_rx) = sync_channel(0);
    let (out_tx, out_rx) = channel();

    spawn_topology(Default::default(), move |mut t| {
        let left = t.listen(1usize, l_rx);
        let right = t.value(7usize);
        left.zip(right)
            .lift(move |p| {
                out_tx.send(p).unwrap();
            })
            .add_to(&mut t);
        t
    });

    assert_eq!(out_rx.recv().unwrap(), (1, 7));
    l_tx.send(2).unwrap();
    assert_eq!(out_rx.recv().unwrap(), (2, 7));
}

#[test]
fn inspect_passes_values_through() {
    let (in_tx, in_rx) = sync_channel(0);
    let (seen_tx, seen_rx) = channel();
    let (out_tx, out_rx) = channel();

    spawn_topology(Default::default(), move |mut t| {
        t.listen(4usize, in_rx)
            .inspect(move |i| {
                seen_tx.send(*i).unwrap();
                true
            })
            .lift(move |i| {
                out_tx.send(i).unwrap();
            })
            .add_to(&mut t);
        t
    });

    assert_eq!(seen_rx.recv().unwrap(), 4);
    assert_eq!(out_rx.recv().unwrap(), 4);
    in_tx.send(5).unwrap();
    assert_eq!(seen_rx.recv().unwrap(), 5);
    assert_eq!(out_rx.recv().unwrap(), 5);
}

#[test]
fn value_carries_either_way() {
    assert_eq!(Value::Changed(5u64).unwrap(), 5);
    assert_eq!(Value::Unchanged(6u64).into_inner(), 6);
    let v = Value::Changed(7u64);
    assert_eq!(v.clone().unwrap(), 7);
    assert_eq!(v.unwrap(), 7);
}

#[test]
fn signal_type_unwrap_carries_either_kind() {
    assert_eq!(SignalType::Constant(3u64).unwrap(), 3);
    assert_eq!(SignalType::Dynamic(4u64).unwrap(), 4);
}

#[test]
fn foldp_accumulates_on_a_branch() {
    let (tx, rx) = sync_channel(0);
    let (out_tx, out_rx) = channel();

    spawn_topology(Default::default(), move |mut t| {
        let folded = t.listen(0usize, rx).foldp(10usize, |acc, i| acc + i);
        folded
            .lift(move |s| {
                out_tx.send(s).unwrap();
            })
            .add_to(&mut t);
        t
    });

    assert_eq!(out_rx.recv().unwrap(), 10);
    tx.send(5).unwrap();
    assert_eq!(out_rx.recv().unwrap(), 15);
}

#[test]
fn buffered_queues_carry_events_too() {
    let (in_tx, in_rx) = sync_channel(1);
    let (out_tx, out_rx) = channel();

    spawn_topology(cfrp::Config { buffer_size: 4 }, move |mut t| {
        t.listen(0usize, in_rx)
            .lift(move |i| {
                out_tx.send(i + 1).unwrap();
            })
            .add_to(&mut t);
        t
    });

    assert_eq!(out_rx.recv().unwrap(), 1);
    in_tx.send(1).unwrap();
    in_tx.send(2).unwrap();
    assert_eq!(out_rx.recv().unwrap(), 2);
    assert_eq!(out_rx.recv().unwrap(), 3);
}

#[test]
fn async_of_constant_registers_nothing() {
    let (tx, rx) = sync_channel(0);
    let (out_tx, out_rx) = channel();

    spawn_topology(Default::default(), move |mut t| {
        // A constant root degenerates: no fresh input, no runner, and
        // above all no stray end-of-stream into the running topology.
        let constant = t.value(5usize);
        let degenerate = t.async_(constant);
        t.add(degenerate);
        t.listen(0usize, rx)
            .lift(move |i| {
                out_tx.send(i).unwrap();
            })
            .add_to(&mut t);
        t
    });

    assert_eq!(out_rx.recv().unwrap(), 0);
    tx.send(3).unwrap();
    assert_eq!(out_rx.recv().unwrap(), 3);
}

#[test]
fn constant_branch_keeps_its_kind() {
    let (out_tx, out_rx) = channel();

    spawn_topology(Default::default(), move |mut t| {
        // The fan-out of a constant sub-graph stays constant: building
        // on it evaluates at build time and brings up no worker.
        let c = t.value(4usize).lift(|i| i + 1).add_to(&mut t);
        c.lift(move |i| {
            out_tx.send(i).unwrap();
        }).add_to(&mut t);
        t
    });

    assert_eq!(out_rx.recv().unwrap(), 5);
    assert!(out_rx.try_recv().is_err());
}
