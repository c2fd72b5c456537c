//! Replacement of the older half of the committee double buffer.

use crate::error::{Error, InternalError};
use crate::records::{
    bytes_equal, committee_bytes, committee_of, control_of, is_committee, parse_committee,
    parse_control, parse_snapshot, snapshot_of, CommitteeSlot, CommitteeView, ControlRecord,
    ControlView, SnapshotSlot, SnapshotView,
};
use crate::selector::{payloads, select, select_roles, Selection, Wanted};
use crate::transition::{ConsensusAnswer, ConsensusQuery, QueryView, Transition};
use vstd::prelude::*;

verus! {

/// Roles of the referenced records of a rotation.
pub open spec fn context_roles() -> Wanted {
    Wanted { control: true, snapshot: true, committee: true }
}

pub open spec fn context_selection(tx: Transition) -> Selection {
    select(payloads(tx.referenced@), context_roles())
}

/// The committee half being replaced.
pub open spec fn replaced(tx: Transition) -> CommitteeView {
    committee_of(tx.consumed@[0].data@)
}

/// The referenced control record.
pub open spec fn context_control(tx: Transition) -> ControlView {
    control_of(tx.referenced@[context_selection(tx).control_at->Some_0 as int].data@)
}

/// The referenced snapshot: it must be the latest one.
pub open spec fn context_snapshot(tx: Transition) -> SnapshotView {
    snapshot_of(tx.referenced@[context_selection(tx).snapshot_at->Some_0 as int].data@)
}

/// The committee half that stays.
pub open spec fn kept(tx: Transition) -> CommitteeView {
    committee_of(tx.referenced@[context_selection(tx).committee_at->Some_0 as int].data@)
}

/// The checks of a rotation that come before the consensus verifier is asked.
pub open spec fn rotation_stage(tx: Transition) -> Result<(), Error> {
    let rs = context_selection(tx);
    if !is_committee(tx.consumed@[0].data@) {
        Err(Error::Internal(InternalError::UpdateSyncCommitteeInputSyncCommitteeNotFound))
    } else if !is_committee(tx.produced@[0].data@) {
        Err(Error::Internal(InternalError::UpdateSyncCommitteeOutputSyncCommitteeNotFound))
    } else if tx.referenced@.len() > 3 {
        Err(Error::Internal(InternalError::UpdateSyncCommitteeCellDepsTooMany))
    } else if tx.referenced@.len() < 3 {
        Err(Error::Internal(InternalError::UpdateSyncCommitteeCellDepsNotEnough))
    } else if rs.control_at is None {
        Err(Error::Internal(InternalError::UpdateSyncCommitteeCellDepInfoNotFound))
    } else if rs.snapshot_at is None {
        Err(Error::Internal(InternalError::UpdateSyncCommitteeCellDepClientNotFound))
    } else if rs.committee_at is None {
        Err(Error::Internal(InternalError::UpdateSyncCommitteeCellDepSyncCommitteeNotFound))
    } else if context_snapshot(tx).slot_id != context_control(tx).last_slot_id {
        Err(Error::Internal(InternalError::UpdateSyncCommitteeCellDepClientIsNotLatest))
    } else if kept(tx).period < replaced(tx).period {
        Err(Error::Internal(InternalError::UpdateSyncCommitteeCellDepSyncCommitteeIsNotOldest))
    } else if tx.produced@[0].proof is None {
        Err(Error::Internal(InternalError::UpdateSyncCommitteeWitnessIsNotExisted))
    } else {
        Ok(())
    }
}

/// The call a rotation makes of the consensus verifier.
pub open spec fn rotation_query(tx: Transition) -> QueryView {
    QueryView::RotateCommittee {
        anchor_max_slot: context_snapshot(tx).maximal_remote_slot,
        root: context_control(tx).genesis_validators_root,
        current: kept(tx),
        proof: tx.produced@[0].proof->Some_0@,
    }
}

/// The checks of a rotation that use the verifier's answer.
pub open spec fn rotation_conclude(tx: Transition, answer: ConsensusAnswer) -> Result<(), Error> {
    match answer {
        ConsensusAnswer::Rejected { code } => Err(Error::SyncCommitteeUpdate(code)),
        ConsensusAnswer::Rotated { committee } => {
            if tx.produced@[0].data@ != committee_bytes(committee@) {
                Err(Error::Internal(InternalError::UpdateSyncCommitteeNewSyncCommitteeIsIncorrect))
            } else {
                Ok(())
            }
        },
        _ => Err(Error::Internal(InternalError::UnexpectedConsensusAnswer)),
    }
}

pub open spec fn rotation_verdict(tx: Transition, answer: ConsensusAnswer) -> Result<(), Error> {
    match rotation_stage(tx) {
        Err(e) => Err(e),
        Ok(()) => rotation_conclude(tx, answer),
    }
}

/// What the checks before the verifier have established.
struct RotationFacts {
    control: ControlRecord,
    snapshot: SnapshotSlot,
    kept: CommitteeSlot,
}

fn rotation_facts(tx: &Transition) -> (r: Result<RotationFacts, Error>)
    requires
        tx.consumed@.len() == 1,
        tx.produced@.len() == 1,
    ensures
        match r {
            Ok(f) => {
                &&& rotation_stage(*tx) is Ok
                &&& f.control@ == context_control(*tx)
                &&& f.snapshot@ == context_snapshot(*tx)
                &&& f.kept@ == kept(*tx)
            },
            Err(e) => rotation_stage(*tx) == Err::<(), Error>(e),
        },
{
    let replaced = match parse_committee(tx.consumed[0].data.as_slice()) {
        Some(k) => k,
        None => return Err(
            Error::Internal(InternalError::UpdateSyncCommitteeInputSyncCommitteeNotFound),
        ),
    };
    if parse_committee(tx.produced[0].data.as_slice()).is_none() {
        return Err(Error::Internal(InternalError::UpdateSyncCommitteeOutputSyncCommitteeNotFound));
    }
    if tx.referenced.len() > 3 {
        return Err(Error::Internal(InternalError::UpdateSyncCommitteeCellDepsTooMany));
    }
    if tx.referenced.len() < 3 {
        return Err(Error::Internal(InternalError::UpdateSyncCommitteeCellDepsNotEnough));
    }
    let rs = select_roles(&tx.referenced, Wanted { control: true, snapshot: true, committee: true });
    let ci = match rs.control_at {
        Some(i) => i,
        None => return Err(Error::Internal(InternalError::UpdateSyncCommitteeCellDepInfoNotFound)),
    };
    let si = match rs.snapshot_at {
        Some(i) => i,
        None => return Err(
            Error::Internal(InternalError::UpdateSyncCommitteeCellDepClientNotFound),
        ),
    };
    let ki = match rs.committee_at {
        Some(i) => i,
        None => return Err(
            Error::Internal(InternalError::UpdateSyncCommitteeCellDepSyncCommitteeNotFound),
        ),
    };
    let control = parse_control(tx.referenced[ci].data.as_slice()).unwrap();
    let snapshot = parse_snapshot(tx.referenced[si].data.as_slice()).unwrap();
    let kept = parse_committee(tx.referenced[ki].data.as_slice()).unwrap();
    if snapshot.slot_id != control.last_slot_id {
        return Err(Error::Internal(InternalError::UpdateSyncCommitteeCellDepClientIsNotLatest));
    }
    if kept.period < replaced.period {
        return Err(
            Error::Internal(InternalError::UpdateSyncCommitteeCellDepSyncCommitteeIsNotOldest),
        );
    }
    if tx.produced[0].proof.is_none() {
        return Err(Error::Internal(InternalError::UpdateSyncCommitteeWitnessIsNotExisted));
    }
    Ok(RotationFacts { control, snapshot, kept })
}

/// Checks the part of a committee rotation that precedes the consensus
/// verifier, and returns the call to make of it.
pub fn stage_rotation(tx: &Transition) -> (r: Result<ConsensusQuery, Error>)
    requires
        tx.consumed@.len() == 1,
        tx.produced@.len() == 1,
    ensures
        match r {
            Ok(q) => rotation_stage(*tx) is Ok && q@ == rotation_query(*tx),
            Err(e) => rotation_stage(*tx) == Err::<(), Error>(e),
        },
{
    let facts = rotation_facts(tx)?;
    let attachment: &Option<Vec<u8>> = &tx.produced[0].proof;
    let attached = match attachment {
        Some(p) => p.clone(),
        None => return Err(Error::Internal(InternalError::UpdateSyncCommitteeWitnessIsNotExisted)),
    };
    Ok(
        ConsensusQuery::RotateCommittee {
            anchor_max_slot: facts.snapshot.maximal_remote_slot,
            root: facts.control.genesis_validators_root,
            current: facts.kept,
            proof: attached,
        },
    )
}

/// Checks a whole committee rotation, given the verifier's answer.
pub fn check_rotation(tx: &Transition, answer: &ConsensusAnswer) -> (r: Result<(), Error>)
    requires
        tx.consumed@.len() == 1,
        tx.produced@.len() == 1,
    ensures
        r == rotation_verdict(*tx, *answer),
{
    let _facts = rotation_facts(tx)?;
    let next = match answer {
        ConsensusAnswer::Rejected { code } => return Err(Error::SyncCommitteeUpdate(*code)),
        ConsensusAnswer::Rotated { committee } => committee,
        _ => return Err(Error::Internal(InternalError::UnexpectedConsensusAnswer)),
    };
    let expected = next.encode();
    if !bytes_equal(tx.produced[0].data.as_slice(), expected.as_slice()) {
        return Err(Error::Internal(InternalError::UpdateSyncCommitteeNewSyncCommitteeIsIncorrect));
    }
    Ok(())
}

} // verus!
