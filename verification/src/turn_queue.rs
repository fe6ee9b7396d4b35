//! Speed-ordered turn rotation for the tactics demo.
//!
//! The queue is sorted once, by speed descending, when the encounter is set
//! up; afterwards it only rotates: the head moves to the tail when its turn
//! ends.  The order is never re-sorted.

use vstd::prelude::*;
use crate::stats::Stats;
use vstd::multiset::Multiset;

verus! {

/// Combatant ids in turn order; the head acts next.
pub struct TurnQueue(pub Vec<u64>);

/// The combatant whose turn is active, if any.
pub struct CurrentTurn(pub Option<u64>);

/// Descending by speed: no later entry is faster than an earlier one.
pub open spec fn sorted_by_speed_desc(s: Seq<(u64, u32)>) -> bool {
    forall|i: int, j: int| 0 <= i < j < s.len() ==> #[trigger] s[i].1 >= #[trigger] s[j].1
}

/// Sort combatants by speed, fastest first.  Entries of equal speed may
/// land in either order.
pub fn sort_by_speed(units: Vec<(u64, u32)>) -> (r: Vec<(u64, u32)>)
    ensures
        r@.to_multiset() == units@.to_multiset(),
        r@.len() == units@.len(),
        sorted_by_speed_desc(r@),
{
    broadcast use vstd::seq_lib::group_to_multiset_ensures;
    broadcast use vstd::multiset::group_multiset_axioms;

    let ghost all = units@;
    let mut rest: Vec<(u64, u32)> = units;
    let mut out: Vec<(u64, u32)> = Vec::new();
    proof {
        assert(forall|x: (u64, u32)| !out@.contains(x));
        assert(out@.to_multiset() =~= Multiset::<(u64, u32)>::empty());
        assert(out@.to_multiset().add(rest@.to_multiset()) =~= all.to_multiset());
    }
    while rest.len() > 0
        invariant
            out@.to_multiset().add(rest@.to_multiset()) == all.to_multiset(),
            out@.len() + rest@.len() == all.len(),
            sorted_by_speed_desc(out@),
            forall|i: int, j: int|
                0 <= i < out@.len() && 0 <= j < rest@.len()
                    ==> #[trigger] out@[i].1 >= #[trigger] rest@[j].1,
        decreases rest@.len(),
    {
        // Find the fastest remaining combatant.
        let mut best: usize = 0;
        let mut k: usize = 1;
        while k < rest.len()
            invariant
                0 < rest@.len(),
                0 <= best < k <= rest@.len(),
                forall|m: int| 0 <= m < k ==> #[trigger] rest@[m].1 <= rest@[best as int].1,
            decreases rest@.len() - k,
        {
            if rest[k].1 > rest[best].1 {
                best = k;
            }
            k = k + 1;
        }
        let ghost rest0 = rest@;
        let ghost out0 = out@;
        let item: (u64, u32) = rest.remove(best);
        out.push(item);
        proof {
            assert(rest0[best as int] == item);
            assert(rest0.contains(item));
            assert(rest@ == rest0.remove(best as int));
            assert(out@ == out0.push(item));
            vstd::seq_lib::to_multiset_build(out0, item);
            vstd::seq_lib::to_multiset_remove(rest0, best as int);
            vstd::seq_lib::to_multiset_contains(rest0, item);
            assert(out@.to_multiset() =~= out0.to_multiset().insert(item));
            assert(rest@.to_multiset() =~= rest0.to_multiset().remove(item));
            assert(rest0.to_multiset().count(item) >= 1);
            assert(out@.to_multiset().add(rest@.to_multiset()) =~= all.to_multiset());
            // The element chosen was the fastest left, so order is kept.
            assert(forall|j: int| 0 <= j < rest@.len()
                ==> #[trigger] rest@[j].1 <= item.1);
        }
    }
    out
}

/// Build the queue for an encounter: ids in speed order, no turn active.
/// The ids returned are those given, each exactly as often, arranged so
/// that their speeds never increase along the queue.
pub fn setup_turn_queue(units: &Vec<(u64, Stats)>) -> (r: (TurnQueue, CurrentTurn))
    ensures
        r.1.0 is None,
        r.0.0@.len() == units@.len(),
        exists|s: Seq<(u64, u32)>|
            {
                &&& s.to_multiset() == units@.map_values(
                    |p: (u64, Stats)| (p.0, p.1.speed),
                ).to_multiset()
                &&& sorted_by_speed_desc(s)
                &&& r.0.0@ == s.map_values(|p: (u64, u32)| p.0)
            },
{
    let mut keyed: Vec<(u64, u32)> = Vec::new();
    let mut i: usize = 0;
    while i < units.len()
        invariant
            0 <= i <= units@.len(),
            keyed@ == units@.take(i as int).map_values(|p: (u64, Stats)| (p.0, p.1.speed)),
        decreases units@.len() - i,
    {
        let u: (u64, Stats) = units[i];
        keyed.push((u.0, u.1.speed));
        proof {
            assert(units@.take(i + 1).drop_last() =~= units@.take(i as int));
            assert(keyed@ =~= units@.take(i + 1).map_values(|p: (u64, Stats)| (p.0, p.1.speed)));
        }
        i = i + 1;
    }
    proof {
        assert(units@.take(units@.len() as int) =~= units@);
    }
    let ghost keyed_seq = keyed@;
    let sorted: Vec<(u64, u32)> = sort_by_speed(keyed);
    let ghost sorted_seq = sorted@;
    let mut ids: Vec<u64> = Vec::new();
    let mut j: usize = 0;
    while j < sorted.len()
        invariant
            0 <= j <= sorted@.len(),
            sorted@ == sorted_seq,
            ids@ == sorted_seq.take(j as int).map_values(|p: (u64, u32)| p.0),
        decreases sorted@.len() - j,
    {
        let p: (u64, u32) = sorted[j];
        ids.push(p.0);
        proof {
            assert(sorted_seq.take(j + 1).drop_last() =~= sorted_seq.take(j as int));
            assert(ids@ =~= sorted_seq.take(j + 1).map_values(|p: (u64, u32)| p.0));
        }
        j = j + 1;
    }
    proof {
        assert(sorted_seq.take(sorted_seq.len() as int) =~= sorted_seq);
    }
    (TurnQueue(ids), CurrentTurn(None))
}

/// If no turn is active, activate the head of the queue.  With an active
/// turn, or an empty queue, nothing changes.
pub fn begin_turn(current: &mut CurrentTurn, queue: &TurnQueue)
    ensures
        old(current).0 is Some ==> final(current).0 == old(current).0,
        old(current).0 is None && queue.0@.len() == 0 ==> final(current).0 is None,
        old(current).0 is None && queue.0@.len() > 0
            ==> final(current).0 == Some(queue.0@[0]),
{
    if current.0.is_none() {
        if queue.0.len() > 0 {
            current.0 = Some(queue.0[0]);
        }
    }
}

/// If a turn is active, rotate the head to the tail and clear the active
/// turn.  Without an active turn, or with an empty queue, nothing changes.
pub fn end_turn(current: &mut CurrentTurn, queue: &mut TurnQueue)
    ensures
        old(current).0 is None
            ==> final(current).0 == old(current).0 && final(queue).0@ == old(queue).0@,
        old(current).0 is Some && old(queue).0@.len() == 0
            ==> final(current).0 == old(current).0 && final(queue).0@ == old(queue).0@,
        old(current).0 is Some && old(queue).0@.len() > 0
            ==> final(current).0 is None
                && final(queue).0@
                    == old(queue).0@.drop_first().push(old(current).0.unwrap()),
{
    if let Some(done_unit) = current.0 {
        if queue.0.len() > 0 {
            queue.0.remove(0);
            queue.0.push(done_unit);
            current.0 = None;
            proof {
                assert(queue.0@ =~= old(queue).0@.drop_first().push(done_unit));
            }
        }
    }
}

/// FIFO rotation: when the active turn is the queue's head and the turn is
/// ended and the next begun, the head's successor becomes active — its
/// wrap-around successor when the head is alone.
pub proof fn lemma_end_begin_activates_successor(q: Seq<u64>)
    requires
        q.len() > 0,
    ensures
        q.drop_first().push(q[0])[0] == q[1int % (q.len() as int)],
{
    if q.len() == 1 {
        assert(q.drop_first().push(q[0]) =~= seq![q[0]]);
        vstd::arithmetic::div_mod::lemma_mod_self_0(1int);
    } else {
        vstd::arithmetic::div_mod::lemma_small_mod(1nat, q.len());
    }
}

} // verus!
