//! What every accepted or rejected transition satisfies, proved from the
//! checkers' specifications.

use crate::advance::{
    advance_next, consumed_roles, pair_roles, advance_stage, anchor, new_control_payload, old_control,
    overwritten, advanced_headers,
};
use crate::genesis::{genesis_stage, ring_scan};
use crate::records::{
    at_slot, capacity_of, committee_bytes, committee_of, control_bytes, control_of, is_config,
    lemma_committee_round_trip, lemma_snapshot_round_trip, snapshot_bytes, snapshot_of,
    ControlView, SnapshotView,
};
use crate::ring::{lemma_successor_mod, lemma_steps, steps};
use crate::rotation::{kept, replaced, rotation_stage};
use crate::selector::{lemma_select_sound, payloads, GroupRecord};
use crate::transition::{ConsensusAnswer, Transition};
use crate::verdict::{genesis_id, operation, verdict, Operation};
use vstd::prelude::*;

verus! {

proof fn lemma_ring_scan_ok(p: Seq<GroupRecord>, body: SnapshotView, i: int, n: int)
    requires
        0 <= i,
        ring_scan(p, body, i, n) is Ok,
    ensures
        forall|j: int|
            i <= j < n ==> #[trigger] p[1 + j].data@ == snapshot_bytes(at_slot(body, j as u8)),
    decreases n - i,
{
    if i < n {
        lemma_ring_scan_ok(p, body, i + 1, n);
    }
}

/// An accepted genesis fills the ring with the bootstrapped snapshot body at
/// every position `0..N`, each tagged with its own position, and both
/// committee halves with the bootstrapped committee; its control record
/// names position 0. The verdict is a function of the transition and the
/// answer alone, so verifying it again gives the same acceptance.
pub proof fn genesis_fills_the_ring(tx: Transition, answer: ConsensusAnswer)
    requires
        operation(tx) == Operation::Genesis,
        verdict(tx, answer) is Ok,
    ensures
        is_config(tx.group_args@),
        tx.produced@.len() == capacity_of(tx.group_args@) + 3,
        control_of(tx.produced@[0].data@).last_slot_id == 0,
        answer is Bootstrapped,
        forall|i: int|
            0 <= i < capacity_of(tx.group_args@) ==> #[trigger] snapshot_of(
                tx.produced@[1 + i].data@,
            ) == at_slot(answer->Bootstrapped_snapshot@, i as u8),
        tx.produced@[capacity_of(tx.group_args@) + 1].data@ == committee_bytes(
            answer->Bootstrapped_committee@,
        ),
        tx.produced@[capacity_of(tx.group_args@) + 2].data@ == committee_bytes(
            answer->Bootstrapped_committee@,
        ),
{
    let n = capacity_of(tx.group_args@) as int;
    let p = tx.produced@;
    let body = answer->Bootstrapped_snapshot@;
    assert(genesis_stage(tx, genesis_id(tx)) is Ok);
    lemma_ring_scan_ok(p, body, 0, n);
    assert forall|i: int| 0 <= i < n implies #[trigger] snapshot_of(p[1 + i].data@) == at_slot(
        body,
        i as u8,
    ) by {
        assert(p[1 + i].data@ == snapshot_bytes(at_slot(body, i as u8)));
        lemma_snapshot_round_trip(at_slot(body, i as u8));
    }
}

/// The consumed control record of a ring advance that passed its first checks
/// was read from a payload of the control layout.
proof fn lemma_old_control_root(tx: Transition)
    requires
        tx.consumed@.len() == 2,
        advance_stage(tx) is Ok,
    ensures
        old_control(tx).genesis_validators_root.len() == 32,
{
    let recs = payloads(tx.consumed@);
    lemma_select_sound(recs, pair_roles());
    let i = consumed_roles(tx).control_at->Some_0 as int;
    assert(recs[i] == tx.consumed@[i].data@);
}

/// Decoding an encoded control record gives it back.
pub proof fn lemma_control_round_trip(c: ControlView)
    requires
        c.genesis_validators_root.len() == 32,
    ensures
        control_of(control_bytes(c)) == c,
{
    assert(control_bytes(c).subrange(2, 34) =~= c.genesis_validators_root);
}

/// An accepted ring advance overwrites the slot right after the latest one,
/// `(L + 1) mod N`, and its new control record names that slot as the latest,
/// changing nothing else.
pub proof fn advance_overwrites_the_oldest_slot(tx: Transition, answer: ConsensusAnswer)
    requires
        operation(tx) == Operation::Advance,
        verdict(tx, answer) is Ok,
        old_control(tx).last_slot_id < capacity_of(tx.group_args@),
    ensures
        overwritten(tx).slot_id == (old_control(tx).last_slot_id + 1) % (capacity_of(
            tx.group_args@,
        ) as int),
        control_of(new_control_payload(tx)) == (ControlView {
            last_slot_id: overwritten(tx).slot_id,
            ..old_control(tx)
        }),
{
    assert(advance_stage(tx) is Ok);
    lemma_old_control_root(tx);
    lemma_successor_mod(old_control(tx).last_slot_id, capacity_of(tx.group_args@));
    lemma_control_round_trip(ControlView { last_slot_id: advance_next(tx), ..old_control(tx) });
}

/// Over a chain of accepted ring advances of one group, each consuming the
/// control record the previous one produced, the `j`-th advance overwrites
/// slot `(L + j + 1) mod N`: slots are overwritten in cyclic order, never out
/// of turn.
pub proof fn advances_follow_the_ring(txs: Seq<Transition>, answers: Seq<ConsensusAnswer>)
    requires
        txs.len() == answers.len(),
        txs.len() > 0,
        forall|j: int|
            0 <= j < txs.len() ==> operation(#[trigger] txs[j]) == Operation::Advance && verdict(
                txs[j],
                answers[j],
            ) is Ok,
        forall|j: int|
            0 <= j < txs.len() ==> (#[trigger] txs[j]).group_args@ == txs[0].group_args@,
        forall|j: int|
            0 < j < txs.len() ==> old_control(#[trigger] txs[j]) == control_of(
                new_control_payload(txs[j - 1]),
            ),
        old_control(txs[0]).last_slot_id < capacity_of(txs[0].group_args@),
    ensures
        forall|j: int|
            0 <= j < txs.len() ==> (#[trigger] overwritten(txs[j])).slot_id == (old_control(
                txs[0],
            ).last_slot_id + j + 1) % (capacity_of(txs[0].group_args@) as int),
{
    let start = old_control(txs[0]).last_slot_id;
    let cap = capacity_of(txs[0].group_args@);
    assert forall|j: int| 0 <= j < txs.len() implies overwritten(txs[j]).slot_id == steps(
        start,
        cap,
        (j + 1) as nat,
    ) && old_control(txs[j]).last_slot_id == steps(start, cap, j as nat) by {
        lemma_chain_step(txs, answers, j);
    }
    assert forall|j: int| 0 <= j < txs.len() implies (#[trigger] overwritten(txs[j])).slot_id == (
    start + j + 1) % (cap as int) by {
        lemma_steps(start, cap, (j + 1) as nat);
    }
}

proof fn lemma_chain_step(txs: Seq<Transition>, answers: Seq<ConsensusAnswer>, j: int)
    requires
        txs.len() == answers.len(),
        0 <= j < txs.len(),
        forall|k: int|
            0 <= k < txs.len() ==> operation(#[trigger] txs[k]) == Operation::Advance && verdict(
                txs[k],
                answers[k],
            ) is Ok,
        forall|k: int|
            0 <= k < txs.len() ==> (#[trigger] txs[k]).group_args@ == txs[0].group_args@,
        forall|k: int|
            0 < k < txs.len() ==> old_control(#[trigger] txs[k]) == control_of(
                new_control_payload(txs[k - 1]),
            ),
    ensures
        old_control(txs[j]).last_slot_id == steps(
            old_control(txs[0]).last_slot_id,
            capacity_of(txs[0].group_args@),
            j as nat,
        ),
        overwritten(txs[j]).slot_id == steps(
            old_control(txs[0]).last_slot_id,
            capacity_of(txs[0].group_args@),
            (j + 1) as nat,
        ),
    decreases j,
{
    let t = txs[j];
    assert(operation(t) == Operation::Advance && verdict(t, answers[j]) is Ok);
    assert(advance_stage(t) is Ok);
    lemma_old_control_root(t);
    assert(t.group_args@ == txs[0].group_args@);
    lemma_control_round_trip(ControlView { last_slot_id: advance_next(t), ..old_control(t) });
    if j > 0 {
        lemma_chain_step(txs, answers, j - 1);
        let prev = txs[j - 1];
        assert(operation(prev) == Operation::Advance && verdict(prev, answers[j - 1]) is Ok);
        assert(advance_stage(prev) is Ok);
        lemma_old_control_root(prev);
        lemma_control_round_trip(
            ControlView { last_slot_id: advance_next(prev), ..old_control(prev) },
        );
        assert(old_control(t) == control_of(new_control_payload(prev)));
    }
}

/// An accepted committee rotation replaces the half with the (weakly) smaller
/// period, and the larger of the two periods never goes down.
pub proof fn rotation_keeps_the_newer_half(tx: Transition, answer: ConsensusAnswer)
    requires
        operation(tx) == Operation::Rotation,
        verdict(tx, answer) is Ok,
    ensures
        replaced(tx).period <= kept(tx).period,
        answer is Rotated,
        committee_of(tx.produced@[0].data@) == answer->Rotated_committee@,
        vstd::math::max(
            committee_of(tx.produced@[0].data@).period as int,
            kept(tx).period as int,
        ) >= vstd::math::max(replaced(tx).period as int, kept(tx).period as int),
{
    assert(rotation_stage(tx) is Ok);
    lemma_committee_round_trip(answer->Rotated_committee@);
}

/// A transition that consumes group records and produces none is accepted
/// exactly when it consumes the whole group, `N + 3` records, whatever any
/// proof says.
pub proof fn teardown_is_all_or_nothing(tx: Transition, answer: ConsensusAnswer)
    requires
        tx.produced@.len() == 0,
        is_config(tx.group_args@),
    ensures
        tx.consumed@.len() < capacity_of(tx.group_args@) + 3 ==> verdict(tx, answer) is Err,
        tx.consumed@.len() == capacity_of(tx.group_args@) + 3 ==> verdict(tx, answer) is Ok,
{
}

/// A ring advance whose update spans fewer headers past the anchor than the
/// control record's floor is rejected, however the verifier judged its proof.
pub proof fn header_floor_is_enforced(
    tx: Transition,
    snapshot: crate::records::SnapshotSlot,
    code: u8,
)
    requires
        operation(tx) == Operation::Advance,
        advanced_headers(snapshot.maximal_remote_slot, anchor(tx).maximal_remote_slot)
            < old_control(tx).minimal_headers_per_update,
    ensures
        verdict(tx, ConsensusAnswer::Updated { snapshot }) is Err,
        verdict(tx, ConsensusAnswer::Rejected { code }) is Err,
{
}

} // verus!
