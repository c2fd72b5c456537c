//! Cyclic positions of the snapshot ring.

use vstd::prelude::*;

verus! {

/// The ring position that follows `last` in a ring of `capacity` slots.
pub open spec fn successor(last: u8, capacity: u8) -> u8 {
    if last + 1 < capacity {
        (last + 1) as u8
    } else {
        0
    }
}

/// The position after `last`: the slot holding the oldest snapshot, which is
/// the next one to be overwritten.
pub fn next_slot(last: u8, capacity: u8) -> (r: u8)
    ensures
        r == successor(last, capacity),
        last < capacity ==> r == (last + 1) % (capacity as int),
{
    proof {
        if last < capacity {
            lemma_successor_mod(last, capacity);
        }
    }
    if (last as u16) + 1 < capacity as u16 {
        last + 1
    } else {
        0
    }
}

/// Taking `k` steps around the ring from `start`.
pub open spec fn steps(start: u8, capacity: u8, k: nat) -> u8
    decreases k,
{
    if k == 0 {
        start
    } else {
        successor(steps(start, capacity, (k - 1) as nat), capacity)
    }
}

/// Inside the ring, the successor is the next position modulo the capacity.
pub proof fn lemma_successor_mod(last: u8, capacity: u8)
    requires
        last < capacity,
    ensures
        successor(last, capacity) == (last + 1) % (capacity as int),
{
    if last + 1 < capacity {
        vstd::arithmetic::div_mod::lemma_small_mod((last + 1) as nat, capacity as nat);
    } else {
        vstd::arithmetic::div_mod::lemma_mod_self_0(capacity as int);
    }
}

/// From a position inside the ring, `k` steps lead to `(start + k) mod capacity`.
pub proof fn lemma_steps(start: u8, capacity: u8, k: nat)
    requires
        start < capacity,
    ensures
        steps(start, capacity, k) == (start + k) % (capacity as int),
    decreases k,
{
    let c = capacity as int;
    if k == 0 {
        vstd::arithmetic::div_mod::lemma_small_mod(start as nat, c as nat);
    } else {
        lemma_steps(start, capacity, (k - 1) as nat);
        let prev = steps(start, capacity, (k - 1) as nat);
        vstd::arithmetic::div_mod::lemma_mod_bound(start + k - 1, c);
        lemma_successor_mod(prev, capacity);
        vstd::arithmetic::div_mod::lemma_add_mod_noop_right(1, start + k - 1, c);
        assert(1 + (start + k - 1) == start + k);
    }
}

} // verus!
