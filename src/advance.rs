//! Rotation of one snapshot slot of the ring, anchored to the latest one.

use crate::error::{Error, InternalError};
use crate::records::{
    at_slot, bytes_equal, capacity_of, committee_of, control_bytes, control_of, is_config,
    parse_committee, parse_config, parse_control, parse_snapshot, snapshot_bytes, snapshot_of,
    CommitteeSlot, CommitteeView, ControlRecord, ControlView, SnapshotSlot, SnapshotView,
};
use crate::ring::{next_slot, successor};
use crate::selector::{payloads, select, select_roles, GroupRecord, Selection, Wanted};
use crate::transition::{ConsensusAnswer, ConsensusQuery, QueryView, Transition};
use vstd::prelude::*;

verus! {

/// Roles of the consumed and of the produced pair.
pub open spec fn pair_roles() -> Wanted {
    Wanted { control: true, snapshot: true, committee: false }
}

/// Roles of the referenced anchor pair.
pub open spec fn anchor_roles() -> Wanted {
    Wanted { control: false, snapshot: true, committee: true }
}

pub open spec fn consumed_roles(tx: Transition) -> Selection {
    select(payloads(tx.consumed@), pair_roles())
}

pub open spec fn produced_roles(tx: Transition) -> Selection {
    select(payloads(tx.produced@), pair_roles())
}

pub open spec fn referenced_roles(tx: Transition) -> Selection {
    select(payloads(tx.referenced@), anchor_roles())
}

/// The consumed control record.
pub open spec fn old_control(tx: Transition) -> ControlView {
    control_of(tx.consumed@[consumed_roles(tx).control_at->Some_0 as int].data@)
}

/// The consumed snapshot slot, the one being overwritten.
pub open spec fn overwritten(tx: Transition) -> SnapshotView {
    snapshot_of(tx.consumed@[consumed_roles(tx).snapshot_at->Some_0 as int].data@)
}

/// The position the ring advances to.
pub open spec fn advance_next(tx: Transition) -> u8 {
    successor(old_control(tx).last_slot_id, capacity_of(tx.group_args@))
}

/// The produced snapshot record.
pub open spec fn new_snapshot_record(tx: Transition) -> GroupRecord {
    tx.produced@[produced_roles(tx).snapshot_at->Some_0 as int]
}

/// The produced control record's payload.
pub open spec fn new_control_payload(tx: Transition) -> Seq<u8> {
    tx.produced@[produced_roles(tx).control_at->Some_0 as int].data@
}

/// The referenced snapshot: the latest one, anchor of the update.
pub open spec fn anchor(tx: Transition) -> SnapshotView {
    snapshot_of(tx.referenced@[referenced_roles(tx).snapshot_at->Some_0 as int].data@)
}

/// The referenced committee slot.
pub open spec fn anchor_committee(tx: Transition) -> CommitteeView {
    committee_of(tx.referenced@[referenced_roles(tx).committee_at->Some_0 as int].data@)
}

/// The checks of a ring advance that come before the consensus verifier is asked.
pub open spec fn advance_stage(tx: Transition) -> Result<(), Error> {
    let cs = consumed_roles(tx);
    let ps = produced_roles(tx);
    let rs = referenced_roles(tx);
    if cs.control_at is None {
        Err(Error::Internal(InternalError::UpdateClientInputInfoNotFound))
    } else if cs.snapshot_at is None {
        Err(Error::Internal(InternalError::UpdateClientInputClientNotFound))
    } else if !is_config(tx.group_args@) {
        Err(Error::Internal(InternalError::Encoding))
    } else if overwritten(tx).slot_id != advance_next(tx) {
        Err(Error::Internal(InternalError::UpdateClientInputClientIdIsMismatch))
    } else if ps.control_at is None {
        Err(Error::Internal(InternalError::UpdateClientOutputInfoNotFound))
    } else if ps.snapshot_at is None {
        Err(Error::Internal(InternalError::UpdateClientOutputClientNotFound))
    } else if new_control_payload(tx) != control_bytes(
        ControlView { last_slot_id: advance_next(tx), ..old_control(tx) },
    ) {
        Err(Error::Internal(InternalError::UpdateClientInfoChanged))
    } else if tx.referenced@.len() > 2 {
        Err(Error::Internal(InternalError::UpdateClientCellDepsTooMany))
    } else if tx.referenced@.len() < 2 {
        Err(Error::Internal(InternalError::UpdateClientCellDepsNotEnough))
    } else if rs.snapshot_at is None {
        Err(Error::Internal(InternalError::UpdateClientCellDepClientNotFound))
    } else if rs.committee_at is None {
        Err(Error::Internal(InternalError::UpdateClientCellDepSyncCommitteeNotFound))
    } else if anchor(tx).slot_id != old_control(tx).last_slot_id {
        Err(Error::Internal(InternalError::UpdateClientCellDepClientIdIsMismatch))
    } else if new_snapshot_record(tx).proof is None {
        Err(Error::Internal(InternalError::UpdateClientWitnessIsNotExisted))
    } else {
        Ok(())
    }
}

/// The call a ring advance makes of the consensus verifier.
pub open spec fn advance_query(tx: Transition) -> QueryView {
    QueryView::ApplyUpdate {
        anchor: anchor(tx),
        committee: anchor_committee(tx),
        proof: new_snapshot_record(tx).proof->Some_0@,
        root: old_control(tx).genesis_validators_root,
    }
}

/// Headers that an update spans past the anchor, counting the anchor's own
/// last slot; never negative.
pub open spec fn advanced_headers(new_max: u64, anchor_max: u64) -> int {
    if new_max + 1 >= anchor_max {
        new_max - anchor_max + 1
    } else {
        0
    }
}

/// The checks of a ring advance that use the verifier's answer.
pub open spec fn advance_conclude(tx: Transition, answer: ConsensusAnswer) -> Result<(), Error> {
    match answer {
        ConsensusAnswer::Rejected { code } => Err(Error::ClientUpdate(code)),
        ConsensusAnswer::Updated { snapshot } => {
            if advanced_headers(snapshot.maximal_remote_slot, anchor(tx).maximal_remote_slot)
                < old_control(tx).minimal_headers_per_update {
                Err(Error::Internal(InternalError::UpdateClientHeadersNotEnough))
            } else if new_snapshot_record(tx).data@ != snapshot_bytes(
                at_slot(snapshot@, advance_next(tx)),
            ) {
                Err(Error::Internal(InternalError::UpdateClientNewClientIsIncorrect))
            } else {
                Ok(())
            }
        },
        _ => Err(Error::Internal(InternalError::UnexpectedConsensusAnswer)),
    }
}

pub open spec fn advance_verdict(tx: Transition, answer: ConsensusAnswer) -> Result<(), Error> {
    match advance_stage(tx) {
        Err(e) => Err(e),
        Ok(()) => advance_conclude(tx, answer),
    }
}

/// What the checks before the verifier have established.
struct AdvanceFacts {
    control: ControlRecord,
    next: u8,
    anchor: SnapshotSlot,
    committee: CommitteeSlot,
    produced_snapshot_at: usize,
}

fn advance_facts(tx: &Transition) -> (r: Result<AdvanceFacts, Error>)
    requires
        tx.consumed@.len() == 2,
        tx.produced@.len() == 2,
    ensures
        match r {
            Ok(f) => {
                &&& advance_stage(*tx) is Ok
                &&& f.control@ == old_control(*tx)
                &&& f.next == advance_next(*tx)
                &&& f.anchor@ == anchor(*tx)
                &&& f.committee@ == anchor_committee(*tx)
                &&& produced_roles(*tx).snapshot_at == Some(f.produced_snapshot_at)
                &&& f.produced_snapshot_at < tx.produced@.len()
            },
            Err(e) => advance_stage(*tx) == Err::<(), Error>(e),
        },
{
    let pair = Wanted { control: true, snapshot: true, committee: false };
    let cs = select_roles(&tx.consumed, pair);
    let ci = match cs.control_at {
        Some(i) => i,
        None => return Err(Error::Internal(InternalError::UpdateClientInputInfoNotFound)),
    };
    let si = match cs.snapshot_at {
        Some(i) => i,
        None => return Err(Error::Internal(InternalError::UpdateClientInputClientNotFound)),
    };
    let control = parse_control(tx.consumed[ci].data.as_slice()).unwrap();
    let overwritten = parse_snapshot(tx.consumed[si].data.as_slice()).unwrap();
    let config = match parse_config(tx.group_args.as_slice()) {
        Some(c) => c,
        None => return Err(Error::Internal(InternalError::Encoding)),
    };
    let next = next_slot(control.last_slot_id, config.ring_capacity);
    if overwritten.slot_id != next {
        return Err(Error::Internal(InternalError::UpdateClientInputClientIdIsMismatch));
    }
    let ps = select_roles(&tx.produced, pair);
    let pci = match ps.control_at {
        Some(i) => i,
        None => return Err(Error::Internal(InternalError::UpdateClientOutputInfoNotFound)),
    };
    let psi = match ps.snapshot_at {
        Some(i) => i,
        None => return Err(Error::Internal(InternalError::UpdateClientOutputClientNotFound)),
    };
    let expected_control = ControlRecord { last_slot_id: next, ..control };
    let expected = expected_control.encode();
    if !bytes_equal(tx.produced[pci].data.as_slice(), expected.as_slice()) {
        return Err(Error::Internal(InternalError::UpdateClientInfoChanged));
    }
    if tx.referenced.len() > 2 {
        return Err(Error::Internal(InternalError::UpdateClientCellDepsTooMany));
    }
    if tx.referenced.len() < 2 {
        return Err(Error::Internal(InternalError::UpdateClientCellDepsNotEnough));
    }
    let rs = select_roles(&tx.referenced, Wanted { control: false, snapshot: true, committee: true });
    let rsi = match rs.snapshot_at {
        Some(i) => i,
        None => return Err(Error::Internal(InternalError::UpdateClientCellDepClientNotFound)),
    };
    let rki = match rs.committee_at {
        Some(i) => i,
        None => return Err(Error::Internal(InternalError::UpdateClientCellDepSyncCommitteeNotFound)),
    };
    let anchor = parse_snapshot(tx.referenced[rsi].data.as_slice()).unwrap();
    let committee = parse_committee(tx.referenced[rki].data.as_slice()).unwrap();
    if anchor.slot_id != control.last_slot_id {
        return Err(Error::Internal(InternalError::UpdateClientCellDepClientIdIsMismatch));
    }
    if tx.produced[psi].proof.is_none() {
        return Err(Error::Internal(InternalError::UpdateClientWitnessIsNotExisted));
    }
    Ok(AdvanceFacts { control, next, anchor, committee, produced_snapshot_at: psi })
}

/// Checks the part of a ring advance that precedes the consensus verifier,
/// and returns the call to make of it.
pub fn stage_advance(tx: &Transition) -> (r: Result<ConsensusQuery, Error>)
    requires
        tx.consumed@.len() == 2,
        tx.produced@.len() == 2,
    ensures
        match r {
            Ok(q) => advance_stage(*tx) is Ok && q@ == advance_query(*tx),
            Err(e) => advance_stage(*tx) == Err::<(), Error>(e),
        },
{
    let facts = advance_facts(tx)?;
    let record = &tx.produced[facts.produced_snapshot_at];
    let attachment: &Option<Vec<u8>> = &record.proof;
    let attached = match attachment {
        Some(p) => p.clone(),
        None => return Err(Error::Internal(InternalError::UpdateClientWitnessIsNotExisted)),
    };
    Ok(
        ConsensusQuery::ApplyUpdate {
            anchor: facts.anchor,
            committee: facts.committee,
            proof: attached,
            root: facts.control.genesis_validators_root,
        },
    )
}

/// Checks a whole ring advance, given the verifier's answer.
pub fn check_advance(tx: &Transition, answer: &ConsensusAnswer) -> (r: Result<(), Error>)
    requires
        tx.consumed@.len() == 2,
        tx.produced@.len() == 2,
    ensures
        r == advance_verdict(*tx, *answer),
{
    let facts = advance_facts(tx)?;
    let body = match answer {
        ConsensusAnswer::Rejected { code } => return Err(Error::ClientUpdate(*code)),
        ConsensusAnswer::Updated { snapshot } => snapshot,
        _ => return Err(Error::Internal(InternalError::UnexpectedConsensusAnswer)),
    };
    let new_max = body.maximal_remote_slot;
    let anchor_max = facts.anchor.maximal_remote_slot;
    let advanced: u128 = if new_max as u128 + 1 >= anchor_max as u128 {
        new_max as u128 + 1 - anchor_max as u128
    } else {
        0
    };
    if advanced < facts.control.minimal_headers_per_update as u128 {
        return Err(Error::Internal(InternalError::UpdateClientHeadersNotEnough));
    }
    let expected = body.with_slot_id(facts.next).encode();
    if !bytes_equal(tx.produced[facts.produced_snapshot_at].data.as_slice(), expected.as_slice()) {
        return Err(Error::Internal(InternalError::UpdateClientNewClientIsIncorrect));
    }
    Ok(())
}

} // verus!
