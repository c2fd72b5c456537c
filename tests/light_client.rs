use eth_light_client_lock::error::{Error, InternalError};
use eth_light_client_lock::records::{
    parse_committee, parse_config, parse_control, parse_snapshot, CommitteeSlot, ControlRecord,
    SnapshotSlot,
};
use eth_light_client_lock::selector::GroupRecord;
use eth_light_client_lock::transition::{ConsensusAnswer, ConsensusQuery, Transition};
use eth_light_client_lock::type_id::calculate_type_id;
use eth_light_client_lock::verdict::{consensus_query, verify_transition};

const ROOT: [u8; 32] = [7u8; 32];
const FIRST_INPUT: [u8; 44] = [3u8; 44];

fn rec(index: usize, data: Vec<u8>) -> GroupRecord {
    GroupRecord { index, data, proof: None }
}

fn rec_with_proof(index: usize, data: Vec<u8>, proof: &[u8]) -> GroupRecord {
    GroupRecord { index, data, proof: Some(proof.to_vec()) }
}

fn control(last: u8, minimal: u8) -> ControlRecord {
    ControlRecord { last_slot_id: last, minimal_headers_per_update: minimal, genesis_validators_root: ROOT }
}

fn snapshot(id: u8, min: u64, max: u64) -> SnapshotSlot {
    SnapshotSlot {
        slot_id: id,
        minimal_remote_slot: min,
        maximal_remote_slot: max,
        consensus_state: vec![0xaa, 0xbb, 0xcc],
    }
}

fn committee(period: u64) -> CommitteeSlot {
    CommitteeSlot { period, committee_commitment: vec![1, 2, 3, 4, 5, 6, 7, 8, 9, 10] }
}

fn args_for(capacity: u8, produced_count: u64) -> Vec<u8> {
    let id = calculate_type_id(&FIRST_INPUT, produced_count);
    let mut args = id.to_vec();
    args.push(capacity);
    args
}

/// A genesis of a ring of `n` slots, as an honest proposer writes it.
fn genesis_tx(n: u8) -> Transition {
    let total = n as usize + 3;
    let mut produced = vec![rec_with_proof(5, control(0, 2).encode(), b"bootstrap")];
    for i in 0..n {
        produced.push(rec(6 + i as usize, snapshot(i, 100, 100).encode()));
    }
    produced.push(rec(6 + n as usize, committee(5).encode()));
    produced.push(rec(7 + n as usize, committee(5).encode()));
    Transition {
        group_args: args_for(n, total as u64),
        first_input: FIRST_INPUT.to_vec(),
        consumed: vec![],
        produced,
        referenced: vec![],
    }
}

fn bootstrapped() -> ConsensusAnswer {
    ConsensusAnswer::Bootstrapped { snapshot: snapshot(9, 100, 100), committee: committee(5) }
}

/// An advance of a ring of three slots from slot 0 to slot 1.
fn advance_tx() -> Transition {
    Transition {
        group_args: args_for(3, 6),
        first_input: FIRST_INPUT.to_vec(),
        consumed: vec![rec(0, control(0, 2).encode()), rec(1, snapshot(1, 100, 100).encode())],
        produced: vec![
            rec(0, control(1, 2).encode()),
            rec_with_proof(1, snapshot(1, 101, 103).encode(), b"update"),
        ],
        referenced: vec![rec(0, snapshot(0, 100, 100).encode()), rec(1, committee(5).encode())],
    }
}

fn updated() -> ConsensusAnswer {
    ConsensusAnswer::Updated { snapshot: snapshot(0, 101, 103) }
}

/// A rotation replacing the committee half of period 5, the other being of period 6.
fn rotation_tx() -> Transition {
    Transition {
        group_args: args_for(3, 6),
        first_input: FIRST_INPUT.to_vec(),
        consumed: vec![rec(0, committee(5).encode())],
        produced: vec![rec_with_proof(0, committee(7).encode(), b"rotate")],
        referenced: vec![
            rec(0, control(2, 2).encode()),
            rec(1, snapshot(2, 300, 310).encode()),
            rec(2, committee(6).encode()),
        ],
    }
}

fn rotated() -> ConsensusAnswer {
    ConsensusAnswer::Rotated { committee: committee(7) }
}

fn internal(e: InternalError) -> Result<(), Error> {
    Err(Error::Internal(e))
}

#[test]
fn scenario_genesis_then_advance_of_three_slots() {
    let genesis = genesis_tx(3);
    assert_eq!(verify_transition(&genesis, &bootstrapped()), Ok(()));
    let advance = advance_tx();
    assert_eq!(verify_transition(&advance, &updated()), Ok(()));
    let new_control = parse_control(&advance.produced[0].data).unwrap();
    assert_eq!(new_control.last_slot_id, 1);
    let new_slot = parse_snapshot(&advance.produced[1].data).unwrap();
    assert_eq!(new_slot.slot_id, 1);
    assert_eq!(new_slot.maximal_remote_slot, 103);
}

#[test]
fn genesis_query_carries_the_bootstrap_proof() {
    match consensus_query(&genesis_tx(3)) {
        Ok(Some(ConsensusQuery::Bootstrap { proof })) => assert_eq!(proof, b"bootstrap".to_vec()),
        other => panic!("unexpected query: {:?}", other),
    }
}

#[test]
fn genesis_is_deterministic() {
    let tx = genesis_tx(4);
    assert_eq!(verify_transition(&tx, &bootstrapped()), Ok(()));
    assert_eq!(verify_transition(&tx, &bootstrapped()), Ok(()));
}

#[test]
fn genesis_with_too_few_records() {
    let mut tx = genesis_tx(3);
    tx.produced.truncate(3);
    assert_eq!(verify_transition(&tx, &bootstrapped()), internal(InternalError::CreateNotEnoughCells));
}

#[test]
fn genesis_out_of_order() {
    let mut tx = genesis_tx(3);
    tx.produced[2].index = 20;
    assert_eq!(verify_transition(&tx, &bootstrapped()), internal(InternalError::CreateShouldBeOrdered));
}

#[test]
fn genesis_with_bad_group_args() {
    let mut tx = genesis_tx(3);
    tx.group_args.pop();
    assert_eq!(verify_transition(&tx, &bootstrapped()), internal(InternalError::Encoding));
}

#[test]
fn genesis_with_wrong_count() {
    let mut tx = genesis_tx(3);
    let last = tx.group_args.len() - 1;
    tx.group_args[last] = 4;
    assert_eq!(
        verify_transition(&tx, &bootstrapped()),
        internal(InternalError::CreateCellsCountNotMatched)
    );
}

#[test]
fn genesis_with_wrong_instance_id() {
    let mut tx = genesis_tx(3);
    tx.first_input[0] ^= 1;
    assert_eq!(verify_transition(&tx, &bootstrapped()), internal(InternalError::CreateIncorrectUniqueId));
}

#[test]
fn type_id_depends_on_input_and_count() {
    let a = calculate_type_id(&FIRST_INPUT, 6);
    assert_ne!(a, calculate_type_id(&FIRST_INPUT, 7));
    assert_ne!(a, calculate_type_id(&[3u8; 43], 6));
    assert_ne!(a.to_vec(), FIRST_INPUT[..32].to_vec());
}

#[test]
fn genesis_with_bad_control_record() {
    let mut tx = genesis_tx(3);
    tx.produced[0].data.push(0);
    assert_eq!(
        verify_transition(&tx, &bootstrapped()),
        internal(InternalError::CreateBadClientInfoCellData)
    );
}

#[test]
fn genesis_control_not_at_slot_zero() {
    let mut tx = genesis_tx(3);
    tx.produced[0].data = control(1, 2).encode();
    assert_eq!(
        verify_transition(&tx, &bootstrapped()),
        internal(InternalError::CreateClientInfoIndexShouldBeZero)
    );
}

#[test]
fn genesis_control_with_zero_floor() {
    let mut tx = genesis_tx(3);
    tx.produced[0].data = control(0, 0).encode();
    assert_eq!(
        verify_transition(&tx, &bootstrapped()),
        internal(InternalError::CreateClientInfoMinimalHeadersCountShouldNotBeZero)
    );
}

#[test]
fn genesis_without_proof() {
    let mut tx = genesis_tx(3);
    tx.produced[0].proof = None;
    assert_eq!(
        verify_transition(&tx, &bootstrapped()),
        internal(InternalError::CreateWitnessIsNotExisted)
    );
}

#[test]
fn genesis_with_rejected_bootstrap() {
    let tx = genesis_tx(3);
    assert_eq!(
        verify_transition(&tx, &ConsensusAnswer::Rejected { code: 3 }),
        Err(Error::ClientBootstrap(3))
    );
    assert_eq!(Error::ClientBootstrap(3).code(), 0x63);
}

#[test]
fn genesis_with_unexpected_answer() {
    let tx = genesis_tx(3);
    assert_eq!(
        verify_transition(&tx, &updated()),
        internal(InternalError::UnexpectedConsensusAnswer)
    );
}

#[test]
fn genesis_with_short_snapshot() {
    let mut tx = genesis_tx(3);
    tx.produced[2].data.truncate(10);
    assert_eq!(verify_transition(&tx, &bootstrapped()), internal(InternalError::CreateBadClientCellData));
}

#[test]
fn genesis_with_misnumbered_snapshot() {
    let mut tx = genesis_tx(3);
    tx.produced[2].data = snapshot(2, 100, 100).encode();
    assert_eq!(
        verify_transition(&tx, &bootstrapped()),
        internal(InternalError::CreateNewClientIsIncorrect)
    );
}

#[test]
fn genesis_with_different_committee_halves() {
    let mut tx = genesis_tx(3);
    tx.produced[5].data = committee(6).encode();
    assert_eq!(
        verify_transition(&tx, &bootstrapped()),
        internal(InternalError::CreateBadClientSyncCommitteeCellData)
    );
}

#[test]
fn genesis_with_unbootstrapped_committee() {
    let tx = genesis_tx(3);
    let answer =
        ConsensusAnswer::Bootstrapped { snapshot: snapshot(0, 100, 100), committee: committee(8) };
    assert_eq!(
        verify_transition(&tx, &answer),
        internal(InternalError::CreateNewSyncCommitteeIsIncorrect)
    );
}

#[test]
fn advance_query_is_anchored_to_the_latest_slot() {
    match consensus_query(&advance_tx()) {
        Ok(Some(ConsensusQuery::ApplyUpdate { anchor, committee, proof, root })) => {
            assert_eq!(anchor.slot_id, 0);
            assert_eq!(anchor.maximal_remote_slot, 100);
            assert_eq!(committee.period, 5);
            assert_eq!(proof, b"update".to_vec());
            assert_eq!(root, ROOT);
        }
        other => panic!("unexpected query: {:?}", other),
    }
}

#[test]
fn advance_wraps_around_the_ring() {
    let mut tx = advance_tx();
    tx.consumed = vec![rec(0, snapshot(0, 1, 1).encode()), rec(1, control(2, 2).encode())];
    tx.produced = vec![
        rec_with_proof(0, snapshot(0, 101, 103).encode(), b"update"),
        rec(1, control(0, 2).encode()),
    ];
    tx.referenced = vec![rec(0, snapshot(2, 100, 100).encode()), rec(1, committee(5).encode())];
    assert_eq!(verify_transition(&tx, &updated()), Ok(()));
}

#[test]
fn advance_without_consumed_control() {
    let mut tx = advance_tx();
    tx.consumed[0].data = snapshot(5, 1, 1).encode();
    assert_eq!(
        verify_transition(&tx, &updated()),
        internal(InternalError::UpdateClientInputInfoNotFound)
    );
}

#[test]
fn advance_without_consumed_snapshot() {
    let mut tx = advance_tx();
    tx.consumed[1].data = vec![1, 2, 3];
    assert_eq!(
        verify_transition(&tx, &updated()),
        internal(InternalError::UpdateClientInputClientNotFound)
    );
}

#[test]
fn advance_overwriting_a_slot_out_of_turn() {
    let mut tx = advance_tx();
    tx.consumed[1].data = snapshot(2, 100, 100).encode();
    assert_eq!(
        verify_transition(&tx, &updated()),
        internal(InternalError::UpdateClientInputClientIdIsMismatch)
    );
}

#[test]
fn advance_without_produced_control() {
    let mut tx = advance_tx();
    tx.produced[0].data = vec![1];
    assert_eq!(
        verify_transition(&tx, &updated()),
        internal(InternalError::UpdateClientOutputInfoNotFound)
    );
}

#[test]
fn advance_without_produced_snapshot() {
    let mut tx = advance_tx();
    tx.produced[1].data = vec![1];
    assert_eq!(
        verify_transition(&tx, &updated()),
        internal(InternalError::UpdateClientOutputClientNotFound)
    );
}

#[test]
fn advance_changing_the_policy() {
    let mut tx = advance_tx();
    tx.produced[0].data = control(1, 3).encode();
    assert_eq!(verify_transition(&tx, &updated()), internal(InternalError::UpdateClientInfoChanged));
}

#[test]
fn advance_with_three_references() {
    let mut tx = advance_tx();
    tx.referenced.push(rec(2, committee(6).encode()));
    assert_eq!(
        verify_transition(&tx, &updated()),
        internal(InternalError::UpdateClientCellDepsTooMany)
    );
}

#[test]
fn advance_with_one_reference() {
    let mut tx = advance_tx();
    tx.referenced.pop();
    assert_eq!(
        verify_transition(&tx, &updated()),
        internal(InternalError::UpdateClientCellDepsNotEnough)
    );
}

#[test]
fn advance_without_referenced_snapshot() {
    let mut tx = advance_tx();
    tx.referenced = vec![rec(0, vec![1, 2]), rec(1, vec![3, 4])];
    assert_eq!(
        verify_transition(&tx, &updated()),
        internal(InternalError::UpdateClientCellDepClientNotFound)
    );
}

#[test]
fn advance_without_referenced_committee() {
    let mut tx = advance_tx();
    tx.referenced[1].data = vec![1, 2];
    assert_eq!(
        verify_transition(&tx, &updated()),
        internal(InternalError::UpdateClientCellDepSyncCommitteeNotFound)
    );
}

#[test]
fn advance_anchored_to_an_old_slot() {
    let mut tx = advance_tx();
    tx.referenced[0].data = snapshot(2, 100, 100).encode();
    assert_eq!(
        verify_transition(&tx, &updated()),
        internal(InternalError::UpdateClientCellDepClientIdIsMismatch)
    );
}

#[test]
fn advance_without_proof() {
    let mut tx = advance_tx();
    tx.produced[1].proof = None;
    assert_eq!(
        verify_transition(&tx, &updated()),
        internal(InternalError::UpdateClientWitnessIsNotExisted)
    );
}

#[test]
fn advance_below_the_header_floor() {
    let mut tx = advance_tx();
    tx.consumed[0].data = control(0, 5).encode();
    tx.produced[0].data = control(1, 5).encode();
    assert_eq!(
        verify_transition(&tx, &updated()),
        internal(InternalError::UpdateClientHeadersNotEnough)
    );
}

#[test]
fn advance_exactly_at_the_header_floor() {
    let mut tx = advance_tx();
    tx.consumed[0].data = control(0, 4).encode();
    tx.produced[0].data = control(1, 4).encode();
    assert_eq!(verify_transition(&tx, &updated()), Ok(()));
}

#[test]
fn advance_going_backwards_counts_no_header() {
    let mut tx = advance_tx();
    tx.consumed[0].data = control(0, 1).encode();
    tx.produced[0].data = control(1, 1).encode();
    tx.produced[1].data = snapshot(1, 10, 50).encode();
    let answer = ConsensusAnswer::Updated { snapshot: snapshot(0, 10, 50) };
    assert_eq!(
        verify_transition(&tx, &answer),
        internal(InternalError::UpdateClientHeadersNotEnough)
    );
}

#[test]
fn advance_with_rejected_update() {
    let tx = advance_tx();
    let answer = ConsensusAnswer::Rejected { code: 9 };
    assert_eq!(verify_transition(&tx, &answer), Err(Error::ClientUpdate(9)));
}

#[test]
fn advance_with_wrong_new_snapshot() {
    let tx = advance_tx();
    let answer = ConsensusAnswer::Updated { snapshot: snapshot(1, 101, 104) };
    assert_eq!(
        verify_transition(&tx, &answer),
        internal(InternalError::UpdateClientNewClientIsIncorrect)
    );
}

#[test]
fn rotation_accepted() {
    assert_eq!(verify_transition(&rotation_tx(), &rotated()), Ok(()));
}

#[test]
fn rotation_query_uses_the_latest_slot() {
    match consensus_query(&rotation_tx()) {
        Ok(Some(ConsensusQuery::RotateCommittee { anchor_max_slot, root, current, proof })) => {
            assert_eq!(anchor_max_slot, 310);
            assert_eq!(root, ROOT);
            assert_eq!(current.period, 6);
            assert_eq!(proof, b"rotate".to_vec());
        }
        other => panic!("unexpected query: {:?}", other),
    }
}

#[test]
fn rotation_of_equal_periods() {
    let mut tx = rotation_tx();
    tx.referenced[2].data = committee(5).encode();
    assert_eq!(verify_transition(&tx, &rotated()), Ok(()));
}

#[test]
fn rotation_of_the_newer_half() {
    let mut tx = rotation_tx();
    tx.consumed[0].data = committee(7).encode();
    assert_eq!(
        verify_transition(&tx, &rotated()),
        internal(InternalError::UpdateSyncCommitteeCellDepSyncCommitteeIsNotOldest)
    );
}

#[test]
fn rotation_with_bad_input() {
    let mut tx = rotation_tx();
    tx.consumed[0].data = vec![1];
    assert_eq!(
        verify_transition(&tx, &rotated()),
        internal(InternalError::UpdateSyncCommitteeInputSyncCommitteeNotFound)
    );
}

#[test]
fn rotation_with_bad_output() {
    let mut tx = rotation_tx();
    tx.produced[0].data = vec![1];
    assert_eq!(
        verify_transition(&tx, &rotated()),
        internal(InternalError::UpdateSyncCommitteeOutputSyncCommitteeNotFound)
    );
}

#[test]
fn rotation_with_four_references() {
    let mut tx = rotation_tx();
    tx.referenced.push(rec(3, committee(1).encode()));
    assert_eq!(
        verify_transition(&tx, &rotated()),
        internal(InternalError::UpdateSyncCommitteeCellDepsTooMany)
    );
}

#[test]
fn rotation_with_two_references() {
    let mut tx = rotation_tx();
    tx.referenced.remove(0);
    assert_eq!(
        verify_transition(&tx, &rotated()),
        internal(InternalError::UpdateSyncCommitteeCellDepsNotEnough)
    );
}

#[test]
fn rotation_without_referenced_control() {
    let mut tx = rotation_tx();
    tx.referenced[0].data = vec![1];
    assert_eq!(
        verify_transition(&tx, &rotated()),
        internal(InternalError::UpdateSyncCommitteeCellDepInfoNotFound)
    );
}

#[test]
fn rotation_without_referenced_snapshot() {
    let mut tx = rotation_tx();
    tx.referenced[1].data = vec![1];
    tx.referenced[2].data = vec![2];
    assert_eq!(
        verify_transition(&tx, &rotated()),
        internal(InternalError::UpdateSyncCommitteeCellDepClientNotFound)
    );
}

#[test]
fn rotation_without_referenced_committee() {
    let mut tx = rotation_tx();
    tx.referenced[2].data = vec![2];
    assert_eq!(
        verify_transition(&tx, &rotated()),
        internal(InternalError::UpdateSyncCommitteeCellDepSyncCommitteeNotFound)
    );
}

#[test]
fn rotation_anchored_to_an_old_slot() {
    let mut tx = rotation_tx();
    tx.referenced[1].data = snapshot(1, 300, 310).encode();
    assert_eq!(
        verify_transition(&tx, &rotated()),
        internal(InternalError::UpdateSyncCommitteeCellDepClientIsNotLatest)
    );
}

#[test]
fn rotation_without_proof() {
    let mut tx = rotation_tx();
    tx.produced[0].proof = None;
    assert_eq!(
        verify_transition(&tx, &rotated()),
        internal(InternalError::UpdateSyncCommitteeWitnessIsNotExisted)
    );
}

#[test]
fn rotation_with_rejected_proof() {
    let answer = ConsensusAnswer::Rejected { code: 1 };
    assert_eq!(verify_transition(&rotation_tx(), &answer), Err(Error::SyncCommitteeUpdate(1)));
}

#[test]
fn rotation_with_wrong_new_committee() {
    let answer = ConsensusAnswer::Rotated { committee: committee(8) };
    assert_eq!(
        verify_transition(&rotation_tx(), &answer),
        internal(InternalError::UpdateSyncCommitteeNewSyncCommitteeIsIncorrect)
    );
}

fn teardown_tx(consumed: usize) -> Transition {
    Transition {
        group_args: args_for(3, 6),
        first_input: FIRST_INPUT.to_vec(),
        consumed: (0..consumed).map(|i| rec(i, vec![0u8; 40])).collect(),
        produced: vec![],
        referenced: vec![],
    }
}

#[test]
fn teardown_of_the_whole_group() {
    assert_eq!(verify_transition(&teardown_tx(6), &ConsensusAnswer::Rejected { code: 0 }), Ok(()));
    assert_eq!(consensus_query(&teardown_tx(6)).unwrap().is_none(), true);
}

#[test]
fn teardown_of_part_of_the_group() {
    for k in 1..6 {
        assert_eq!(
            verify_transition(&teardown_tx(k), &bootstrapped()),
            internal(InternalError::DestroyNotEnoughCells)
        );
    }
    assert_eq!(
        verify_transition(&teardown_tx(7), &bootstrapped()),
        internal(InternalError::DestroyNotEnoughCells)
    );
}

#[test]
fn unknown_operation() {
    let mut tx = advance_tx();
    tx.produced.pop();
    assert_eq!(verify_transition(&tx, &updated()), internal(InternalError::UnknownOperation));
    assert_eq!(InternalError::UnknownOperation.code(), 0x10);
}

#[test]
fn record_layouts() {
    let c = control(2, 9);
    let bytes = c.encode();
    assert_eq!(bytes.len(), 34);
    assert_eq!(&bytes[..2], &[2, 9]);
    let s = snapshot(1, 0x0102, 0x0304).encode();
    assert_eq!(&s[..17], &[1, 2, 1, 0, 0, 0, 0, 0, 0, 4, 3, 0, 0, 0, 0, 0, 0]);
    let back = parse_snapshot(&s).unwrap();
    assert_eq!(back.minimal_remote_slot, 0x0102);
    assert_eq!(back.consensus_state, vec![0xaa, 0xbb, 0xcc]);
    let k = committee(0x0a0b).encode();
    assert_eq!(&k[..8], &[0x0b, 0x0a, 0, 0, 0, 0, 0, 0]);
    assert_eq!(parse_committee(&k).unwrap().period, 0x0a0b);
    assert!(parse_committee(&[0u8; 7]).is_none());
    let mut args = vec![1u8; 32];
    args.push(5);
    let config = parse_config(&args).unwrap();
    assert_eq!(config.ring_capacity, 5);
    assert_eq!(config.group_instance_id, [1u8; 32]);
}

#[test]
fn error_codes() {
    assert_eq!(InternalError::CreateNotEnoughCells.code(), 0x20);
    assert_eq!(InternalError::DestroyNotEnoughCells.code(), 0x3f);
    assert_eq!(InternalError::UpdateClientInputInfoNotFound.code(), 0x40);
    assert_eq!(InternalError::UpdateSyncCommitteeWitnessIsNotExisted.code(), 0x59);
    assert_eq!(Error::Internal(InternalError::Encoding).code(), 0x04);
    assert_eq!(Error::SyncCommitteeUpdate(0x1f).code(), 0x7f);
}
