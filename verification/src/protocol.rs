//! The synchronization protocol and the per-node step semantics as a
//! mathematical model, with the laws the runtime is designed around.
//!
//! One global event is an externally originated input occurrence; a run
//! is the sequence of them.  The model states what each input slot
//! observes over a run, and how the map and fold nodes transform an
//! observed stream; the laws are proved over every run.
//!
//! The model's premise: a run lists the global events in one order.
//! Per input that order is the source order, which the runtime keeps;
//! across inputs the runtime promises no order beyond each event's
//! broadcast completing before its input pulls again, so a run stands
//! for whichever interleaving the race produced.

use vstd::prelude::*;

verus! {

use crate::primitives::lift::lift_rel;
use crate::primitives::lift2::join_out;
use crate::transform::{Combine, Transform};
use crate::Event;

/// The notifications one global event delivers across `n` input slots
/// when the input at `origin` receives `a`: the originating slot
/// observes the new value, every other slot observes one tick.
pub open spec fn broadcast_row<A>(n: nat, origin: int, a: A) -> Seq<Event<A>> {
    Seq::new(
        n,
        |j: int|
            if j == origin {
                Event::Changed(a)
            } else {
                Event::Unchanged
            },
    )
}

/// One global event is total: the broadcast row holds exactly one
/// event for every slot, and carries the value only at the origin.
pub proof fn lemma_row_totality<A>(n: nat, origin: int, a: A, j: int)
    requires
        0 <= j < n,
    ensures
        broadcast_row(n, origin, a).len() == n,
        j == origin ==> broadcast_row(n, origin, a)[j] == Event::Changed(a),
        j != origin ==> broadcast_row(n, origin, a)[j] == Event::<A>::Unchanged,
{
}

/// The stream slot `j` observes over a run: one event per global
/// event, where `events` lists each global event as its originating
/// slot and its value.
pub open spec fn slot_stream<A>(events: Seq<(int, A)>, j: int) -> Seq<Event<A>> {
    Seq::new(
        events.len(),
        |i: int|
            if events[i].0 == j {
                Event::Changed(events[i].1)
            } else {
                Event::Unchanged
            },
    )
}

/// For every run and every slot: the slot observes exactly one event
/// per global event — a `Changed` with the event's value when the
/// event originated there, one `Unchanged` tick otherwise.
pub proof fn lemma_slot_totality<A>(events: Seq<(int, A)>, j: int)
    ensures
        slot_stream(events, j).len() == events.len(),
        forall|i: int|
            0 <= i < events.len() && events[i].0 == j ==> #[trigger] slot_stream(events, j)[i]
                == Event::Changed(events[i].1),
        forall|i: int|
            0 <= i < events.len() && events[i].0 != j ==> #[trigger] slot_stream(events, j)[i]
                == Event::<A>::Unchanged,
{
}

/// The stream a tick-style input's slot observes over a run of `n`
/// global events originated elsewhere: its configured value, announced
/// as changed, once per global event.
pub open spec fn tick_stream<A>(v: A, n: nat) -> Seq<Event<A>> {
    Seq::new(n, |i: int| Event::Changed(v))
}

/// A tick input re-fires on every global event: its slot observes one
/// `Changed` with the configured value per event of the run, however
/// the events originated.
pub proof fn lemma_tick_totality<A>(v: A, n: nat, i: int)
    requires
        0 <= i < n,
    ensures
        tick_stream(v, n).len() == n,
        tick_stream(v, n)[i] == Event::Changed(v),
{
}

/// The values a stream carries, in order.
pub open spec fn changed_values<A>(s: Seq<Event<A>>) -> Seq<A>
    decreases s.len(),
{
    if s.len() == 0 {
        Seq::empty()
    } else {
        let rest = changed_values(s.drop_last());
        match s.last() {
            Event::Changed(a) => rest.push(a),
            _ => rest,
        }
    }
}

/// The values of the global events that originated at slot `j`, in
/// source order.
pub open spec fn originated<A>(events: Seq<(int, A)>, j: int) -> Seq<A>
    decreases events.len(),
{
    if events.len() == 0 {
        Seq::empty()
    } else {
        let rest = originated(events.drop_last(), j);
        if events.last().0 == j {
            rest.push(events.last().1)
        } else {
            rest
        }
    }
}

/// Per-input ordering: the values a slot observes over a run are
/// exactly the values that entered at that slot, in source order.
pub proof fn lemma_source_order<A>(events: Seq<(int, A)>, j: int)
    ensures
        changed_values(slot_stream(events, j)) == originated(events, j),
    decreases events.len(),
{
    if events.len() == 0 {
        assert(slot_stream(events, j) =~= Seq::<Event<A>>::empty());
    } else {
        lemma_source_order(events.drop_last(), j);
        assert(slot_stream(events, j).drop_last() =~= slot_stream(events.drop_last(), j));
        assert(slot_stream(events, j).last() == (if events.last().0 == j {
            Event::Changed(events.last().1)
        } else {
            Event::<A>::Unchanged
        }));
    }
}

/// What a map node makes of one observed event.
pub open spec fn lift_event<A, B>(f: spec_fn(A) -> B, e: Event<A>) -> Event<B> {
    match e {
        Event::Changed(a) => Event::Changed(f(a)),
        Event::Unchanged => Event::Unchanged,
        Event::Exit => Event::Exit,
    }
}

/// What a map node makes of a whole observed stream.
pub open spec fn lift_stream<A, B>(f: spec_fn(A) -> B, s: Seq<Event<A>>) -> Seq<Event<B>> {
    Seq::new(s.len(), |i: int| lift_event(f, s[i]))
}

/// A pure map plays no part in a tick: on every position that carries
/// no value, the output stream does not depend on the function at all.
pub proof fn lemma_lift_ignores_ticks<A, B>(
    f: spec_fn(A) -> B,
    g: spec_fn(A) -> B,
    s: Seq<Event<A>>,
)
    ensures
        forall|i: int|
            0 <= i < s.len() && !(s[i] is Changed) ==> #[trigger] lift_stream(f, s)[i]
                == lift_stream(g, s)[i],
{
}

/// Two maps in a row are one map of the composition: lifting `f` and
/// then `g` yields, observationally, the same stream as lifting the
/// composition of the two.
pub proof fn lemma_lift_fusion<A, B, C>(
    f: spec_fn(A) -> B,
    g: spec_fn(B) -> C,
    gf: spec_fn(A) -> C,
    s: Seq<Event<A>>,
)
    requires
        forall|a: A| #[trigger] gf(a) == g(f(a)),
    ensures
        lift_stream(g, lift_stream(f, s)) == lift_stream(gf, s),
{
    assert(lift_stream(g, lift_stream(f, s)) =~= lift_stream(gf, s));
}

/// What a map node's consumers receive as values is exactly the
/// source's values, mapped, in source order: ticks neither lose nor
/// reorder anything.
pub proof fn lemma_lift_keeps_value_order<A, B>(f: spec_fn(A) -> B, s: Seq<Event<A>>)
    ensures
        changed_values(lift_stream(f, s)) == changed_values(s).map_values(f),
    decreases s.len(),
{
    if s.len() == 0 {
        assert(lift_stream(f, s) =~= Seq::<Event<B>>::empty());
        assert(changed_values(s).map_values(f) =~= Seq::<B>::empty());
    } else {
        lemma_lift_keeps_value_order(f, s.drop_last());
        assert(lift_stream(f, s).drop_last() =~= lift_stream(f, s.drop_last()));
        assert(lift_stream(f, s).last() == lift_event(f, s.last()));
        match s.last() {
            Event::Changed(a) => {
                assert(changed_values(s) == changed_values(s.drop_last()).push(a));
                assert(changed_values(s).map_values(f) =~= changed_values(
                    s.drop_last(),
                ).map_values(f).push(f(a)));
            },
            _ => {
                assert(changed_values(s) == changed_values(s.drop_last()));
            },
        }
    }
}

/// When the contract of a node's transformation pins it to a
/// function, the step contract of the map node pins the node's output
/// to the model's.
pub proof fn lemma_lift_step_models<F: Transform<A, B>, A, B>(
    f: F,
    sf: spec_fn(A) -> B,
    e: Event<A>,
    out: Event<B>,
)
    requires
        forall|a: A, b: B| #[trigger] f.post(a, b) ==> b == sf(a),
        lift_rel(f, e, out),
    ensures
        out == lift_event(sf, e),
{
}

/// When the contract of a combine node's transformation pins it to a
/// function, and the payloads clone exactly, the step contract of the
/// combine pins each announced combination to the model's.
pub proof fn lemma_join_out_models<F: Combine<A, B, C>, A: Clone, B: Clone, C>(
    f: F,
    sf: spec_fn(A, B) -> C,
    a: A,
    b: B,
    out: Event<C>,
)
    requires
        forall|a2: A, b2: B, c: C| #[trigger] f.post2(a2, b2, c) ==> c == sf(a2, b2),
        forall|x: A, y: A| #[trigger] cloned::<A>(x, y) ==> y == x,
        forall|x: B, y: B| #[trigger] cloned::<B>(x, y) ==> y == x,
        join_out(f, a, b, out),
    ensures
        out == Event::Changed(sf(a, b)),
{
}

/// The accumulator a fold node carries after an observed stream:
/// values advance it, ticks and the terminal marker leave it alone.
pub open spec fn fold_events<A, B>(f: spec_fn(B, A) -> B, init: B, s: Seq<Event<A>>) -> B
    decreases s.len(),
{
    if s.len() == 0 {
        init
    } else {
        let prev = fold_events(f, init, s.drop_last());
        match s.last() {
            Event::Changed(a) => f(prev, a),
            _ => prev,
        }
    }
}

/// The stream with its ticks and terminal markers removed.
pub open spec fn keep_changed<A>(s: Seq<Event<A>>) -> Seq<Event<A>>
    decreases s.len(),
{
    if s.len() == 0 {
        Seq::empty()
    } else {
        let rest = keep_changed(s.drop_last());
        match s.last() {
            Event::Changed(a) => rest.push(Event::Changed(a)),
            _ => rest,
        }
    }
}

/// A fold is blind to interleaved ticks: its final state over a stream
/// equals its final state over just the stream's values, for every
/// accumulator.
pub proof fn lemma_fold_ignores_ticks<A, B>(f: spec_fn(B, A) -> B, init: B, s: Seq<Event<A>>)
    ensures
        fold_events(f, init, s) == fold_events(f, init, keep_changed(s)),
    decreases s.len(),
{
    if s.len() > 0 {
        lemma_fold_ignores_ticks(f, init, s.drop_last());
        match s.last() {
            Event::Changed(a) => {
                let kept = keep_changed(s.drop_last());
                assert(keep_changed(s) == kept.push(Event::Changed(a)));
                assert(kept.push(Event::Changed(a)).drop_last() =~= kept);
            },
            _ => {},
        }
    }
}

/// The sum of the values an event stream carries.
pub open spec fn sum_changed(s: Seq<Event<int>>) -> int
    decreases s.len(),
{
    if s.len() == 0 {
        0
    } else {
        sum_changed(s.drop_last()) + match s.last() {
            Event::Changed(a) => a,
            _ => 0,
        }
    }
}

/// Folding addition from `init` over a stream of values, however many
/// ticks are interleaved, yields `init` plus the sum of the values.
pub proof fn lemma_fold_sum(f: spec_fn(int, int) -> int, init: int, s: Seq<Event<int>>)
    requires
        forall|b: int, a: int| #[trigger] f(b, a) == b + a,
    ensures
        fold_events(f, init, s) == init + sum_changed(s),
    decreases s.len(),
{
    if s.len() > 0 {
        lemma_fold_sum(f, init, s.drop_last());
    }
}

/// The newest value a side has carried among its first `i` events,
/// falling back to the seed `d` while none has arrived.
pub open spec fn latest<A>(d: A, s: Seq<Event<A>>, i: int) -> A
    decreases i,
{
    if i <= 0 {
        d
    } else {
        match s[i - 1] {
            Event::Changed(a) => a,
            _ => latest(d, s, i - 1),
        }
    }
}

/// What a binary combine makes of two observed streams read in step,
/// with caches seeded by `l0` and `r0`: a step where either side
/// changed combines the newest value of each side, a step where
/// neither did forwards one tick.
pub open spec fn join_streams<A, B, C>(
    f: spec_fn(A, B) -> C,
    l0: A,
    r0: B,
    ls: Seq<Event<A>>,
    rs: Seq<Event<B>>,
) -> Seq<Event<C>> {
    Seq::new(
        if ls.len() <= rs.len() {
            ls.len()
        } else {
            rs.len()
        },
        |i: int|
            if ls[i] is Changed || rs[i] is Changed {
                Event::Changed(f(latest(l0, ls, i + 1), latest(r0, rs, i + 1)))
            } else {
                Event::Unchanged
            },
    )
}

/// A side that only ever ticks keeps carrying its seed.
pub proof fn lemma_latest_of_silent<A>(d: A, s: Seq<Event<A>>, i: int)
    requires
        0 <= i <= s.len(),
        forall|k: int| 0 <= k < s.len() ==> #[trigger] s[k] is Unchanged,
    ensures
        latest(d, s, i) == d,
    decreases i,
{
    if i > 0 {
        lemma_latest_of_silent(d, s, i - 1);
    }
}

/// A combine over an input that never fires still produces one output
/// per step: each change of the live side is combined with the silent
/// side's seed, and steps where the live side only ticked forward one
/// tick.
pub proof fn lemma_silent_side_contributes_seed<A, B, C>(
    f: spec_fn(A, B) -> C,
    l0: A,
    r0: B,
    ls: Seq<Event<A>>,
    rs: Seq<Event<B>>,
)
    requires
        rs.len() == ls.len(),
        forall|k: int| 0 <= k < rs.len() ==> #[trigger] rs[k] is Unchanged,
    ensures
        join_streams(f, l0, r0, ls, rs).len() == ls.len(),
        forall|i: int|
            0 <= i < ls.len() && ls[i] is Changed ==> #[trigger] join_streams(f, l0, r0, ls, rs)[i]
                == Event::Changed(f(latest(l0, ls, i + 1), r0)),
        forall|i: int|
            0 <= i < ls.len() && !(ls[i] is Changed) ==> #[trigger] join_streams(
                f,
                l0,
                r0,
                ls,
                rs,
            )[i] == Event::<C>::Unchanged,
{
    assert forall|i: int| 0 <= i < ls.len() implies #[trigger] latest(r0, rs, i + 1) == r0 by {
        lemma_latest_of_silent(r0, rs, i + 1);
    }
}

/// What a fork delivers: every one of its `k` branches observes the
/// whole upstream stream.
pub open spec fn fan_out<A>(s: Seq<Event<A>>, k: nat) -> Seq<Seq<Event<A>>> {
    Seq::new(k, |i: int| s)
}

/// Any two branches of one fork observe the identical sequence of
/// events, namely the upstream one.
pub proof fn lemma_branches_identical<A>(s: Seq<Event<A>>, k: nat, i: int, j: int)
    requires
        0 <= i < k,
        0 <= j < k,
    ensures
        fan_out(s, k)[i] == fan_out(s, k)[j],
        fan_out(s, k)[i] == s,
{
}

} // verus!
