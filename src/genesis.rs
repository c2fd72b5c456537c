//! Creation of a whole group in one transition.

use crate::error::{Error, InternalError};
use crate::records::{
    at_slot, capacity_of, committee_bytes, control_of, instance_id_of, is_committee, is_config,
    is_control, is_snapshot, parse_committee, parse_config, parse_control, parse_snapshot,
    snapshot_bytes, bytes_equal, SnapshotView,
};
use crate::selector::GroupRecord;
use crate::transition::{ConsensusAnswer, ConsensusQuery, QueryView, Transition};
use vstd::prelude::*;

verus! {

pub open spec fn contiguous(recs: Seq<GroupRecord>) -> bool {
    forall|i: int| 0 <= i < recs.len() - 1 ==> recs[i].index + 1 == #[trigger] recs[i + 1].index
}

/// The checks of a genesis that come before the consensus verifier is asked:
/// `type_id` is the id that the transition binds the new group to.
pub open spec fn genesis_stage(tx: Transition, type_id: Seq<u8>) -> Result<(), Error> {
    let p = tx.produced@;
    let args = tx.group_args@;
    if p.len() < 4 {
        Err(Error::Internal(InternalError::CreateNotEnoughCells))
    } else if !contiguous(p) {
        Err(Error::Internal(InternalError::CreateShouldBeOrdered))
    } else if !is_config(args) {
        Err(Error::Internal(InternalError::Encoding))
    } else if p.len() != capacity_of(args) + 3 {
        Err(Error::Internal(InternalError::CreateCellsCountNotMatched))
    } else if type_id != instance_id_of(args) {
        Err(Error::Internal(InternalError::CreateIncorrectUniqueId))
    } else if !is_control(p[0].data@) {
        Err(Error::Internal(InternalError::CreateBadClientInfoCellData))
    } else if control_of(p[0].data@).last_slot_id != 0 {
        Err(Error::Internal(InternalError::CreateClientInfoIndexShouldBeZero))
    } else if control_of(p[0].data@).minimal_headers_per_update == 0 {
        Err(Error::Internal(InternalError::CreateClientInfoMinimalHeadersCountShouldNotBeZero))
    } else if p[0].proof is None {
        Err(Error::Internal(InternalError::CreateWitnessIsNotExisted))
    } else {
        Ok(())
    }
}

/// The snapshot records from ring position `i` on must each hold `body` at
/// their own position.
pub open spec fn ring_scan(p: Seq<GroupRecord>, body: SnapshotView, i: int, n: int) -> Result<
    (),
    Error,
>
    decreases n - i,
{
    if i >= n {
        Ok(())
    } else if !is_snapshot(p[1 + i].data@) {
        Err(Error::Internal(InternalError::CreateBadClientCellData))
    } else if p[1 + i].data@ != snapshot_bytes(at_slot(body, i as u8)) {
        Err(Error::Internal(InternalError::CreateNewClientIsIncorrect))
    } else {
        ring_scan(p, body, i + 1, n)
    }
}

/// The checks of a genesis that use the verifier's answer.
pub open spec fn genesis_conclude(tx: Transition, answer: ConsensusAnswer) -> Result<(), Error> {
    let p = tx.produced@;
    let n = capacity_of(tx.group_args@) as int;
    match answer {
        ConsensusAnswer::Rejected { code } => Err(Error::ClientBootstrap(code)),
        ConsensusAnswer::Bootstrapped { snapshot, committee } => {
            if ring_scan(p, snapshot@, 0, n) is Err {
                ring_scan(p, snapshot@, 0, n)
            } else if !is_committee(p[n + 1].data@) || !is_committee(p[n + 2].data@) || p[n
                + 1].data@ != p[n + 2].data@ {
                Err(Error::Internal(InternalError::CreateBadClientSyncCommitteeCellData))
            } else if p[n + 1].data@ != committee_bytes(committee@) {
                Err(Error::Internal(InternalError::CreateNewSyncCommitteeIsIncorrect))
            } else {
                Ok(())
            }
        },
        _ => Err(Error::Internal(InternalError::UnexpectedConsensusAnswer)),
    }
}

pub open spec fn genesis_verdict(tx: Transition, type_id: Seq<u8>, answer: ConsensusAnswer) -> Result<
    (),
    Error,
> {
    match genesis_stage(tx, type_id) {
        Err(e) => Err(e),
        Ok(()) => genesis_conclude(tx, answer),
    }
}

/// Checks the part of a genesis that precedes the consensus verifier, and
/// returns the call to make of it.
pub fn stage_genesis(tx: &Transition, type_id: &[u8; 32]) -> (r: Result<ConsensusQuery, Error>)
    ensures
        match r {
            Ok(q) => genesis_stage(*tx, type_id@) is Ok && q@ == (QueryView::Bootstrap {
                proof: tx.produced@[0].proof->Some_0@,
            }),
            Err(e) => genesis_stage(*tx, type_id@) == Err::<(), Error>(e),
        },
{
    let p = &tx.produced;
    if p.len() < 4 {
        return Err(Error::Internal(InternalError::CreateNotEnoughCells));
    }
    let mut i: usize = 0;
    while i < p.len() - 1
        invariant
            p@ == tx.produced@,
            p@.len() >= 4,
            i < p@.len(),
            forall|j: int| 0 <= j < i ==> p@[j].index + 1 == #[trigger] p@[j + 1].index,
        decreases p@.len() - i,
    {
        if p[i].index >= p[i + 1].index || p[i + 1].index - p[i].index != 1 {
            assert(!contiguous(p@)) by {
                if contiguous(p@) {
                    assert(p@[i as int].index + 1 == p@[i + 1].index);
                }
            }
            return Err(Error::Internal(InternalError::CreateShouldBeOrdered));
        }
        i = i + 1;
    }
    let config = match parse_config(tx.group_args.as_slice()) {
        Some(c) => c,
        None => return Err(Error::Internal(InternalError::Encoding)),
    };
    if p.len() != config.ring_capacity as usize + 3 {
        return Err(Error::Internal(InternalError::CreateCellsCountNotMatched));
    }
    if !bytes_equal(type_id, &config.group_instance_id) {
        return Err(Error::Internal(InternalError::CreateIncorrectUniqueId));
    }
    let control = match parse_control(p[0].data.as_slice()) {
        Some(c) => c,
        None => return Err(Error::Internal(InternalError::CreateBadClientInfoCellData)),
    };
    if control.last_slot_id != 0 {
        return Err(Error::Internal(InternalError::CreateClientInfoIndexShouldBeZero));
    }
    if control.minimal_headers_per_update == 0 {
        return Err(
            Error::Internal(InternalError::CreateClientInfoMinimalHeadersCountShouldNotBeZero),
        );
    }
    let attachment: &Option<Vec<u8>> = &p[0].proof;
    match attachment {
        Some(proof) => Ok(ConsensusQuery::Bootstrap { proof: proof.clone() }),
        None => Err(Error::Internal(InternalError::CreateWitnessIsNotExisted)),
    }
}

/// Checks the part of a genesis that uses the verifier's answer.
pub fn conclude_genesis(tx: &Transition, answer: &ConsensusAnswer) -> (r: Result<(), Error>)
    requires
        is_config(tx.group_args@),
        tx.produced@.len() == capacity_of(tx.group_args@) + 3,
    ensures
        r == genesis_conclude(*tx, *answer),
{
    let p = &tx.produced;
    let n = tx.group_args[32] as usize;
    let (body, committee) = match answer {
        ConsensusAnswer::Rejected { code } => return Err(Error::ClientBootstrap(*code)),
        ConsensusAnswer::Bootstrapped { snapshot, committee } => (snapshot, committee),
        _ => return Err(Error::Internal(InternalError::UnexpectedConsensusAnswer)),
    };
    let mut i: usize = 0;
    while i < n
        invariant
            i <= n,
            p@ == tx.produced@,
            *answer == (ConsensusAnswer::Bootstrapped { snapshot: *body, committee: *committee }),
            n == capacity_of(tx.group_args@),
            p@.len() == n + 3,
            ring_scan(p@, body@, 0, n as int) == ring_scan(p@, body@, i as int, n as int),
        decreases n - i,
    {
        let data = p[1 + i].data.as_slice();
        if parse_snapshot(data).is_none() {
            return Err(Error::Internal(InternalError::CreateBadClientCellData));
        }
        let expected = body.with_slot_id(i as u8).encode();
        if !bytes_equal(data, expected.as_slice()) {
            return Err(Error::Internal(InternalError::CreateNewClientIsIncorrect));
        }
        i = i + 1;
    }
    let first = p[n + 1].data.as_slice();
    let second = p[n + 2].data.as_slice();
    if parse_committee(first).is_none() || parse_committee(second).is_none() || !bytes_equal(
        first,
        second,
    ) {
        return Err(Error::Internal(InternalError::CreateBadClientSyncCommitteeCellData));
    }
    let expected = committee.encode();
    if !bytes_equal(first, expected.as_slice()) {
        return Err(Error::Internal(InternalError::CreateNewSyncCommitteeIsIncorrect));
    }
    Ok(())
}

/// Checks a whole genesis, given the id the transition binds the new group to
/// and the verifier's answer.
pub fn check_genesis(tx: &Transition, type_id: &[u8; 32], answer: &ConsensusAnswer) -> (r: Result<
    (),
    Error,
>)
    ensures
        r == genesis_verdict(*tx, type_id@, *answer),
{
    stage_genesis(tx, type_id)?;
    conclude_genesis(tx, answer)
}

} // verus!
