//! A proposed transition, and the questions and answers exchanged with the
//! consensus verifier.

use crate::records::{CommitteeSlot, CommitteeView, SnapshotSlot, SnapshotView};
use crate::selector::GroupRecord;
use vstd::prelude::*;

verus! {

/// Everything a verification reads: the group's identifier payload, the
/// reference of the distinguished consumed record, and the group's records in
/// the consumed, produced and referenced-only sets, each in positional order.
#[derive(Clone, Debug)]
pub struct Transition {
    pub group_args: Vec<u8>,
    pub first_input: Vec<u8>,
    pub consumed: Vec<GroupRecord>,
    pub produced: Vec<GroupRecord>,
    pub referenced: Vec<GroupRecord>,
}

/// The call that a transition asks of the consensus verifier.
#[derive(Clone, Debug)]
pub enum ConsensusQuery {
    /// Interpret a bootstrap proof.
    Bootstrap { proof: Vec<u8> },
    /// Apply an incremental update to an anchor snapshot.
    ApplyUpdate {
        anchor: SnapshotSlot,
        committee: CommitteeSlot,
        proof: Vec<u8>,
        root: [u8; 32],
    },
    /// Derive the next committee from the current one.
    RotateCommittee {
        anchor_max_slot: u64,
        root: [u8; 32],
        current: CommitteeSlot,
        proof: Vec<u8>,
    },
}

pub ghost enum QueryView {
    Bootstrap { proof: Seq<u8> },
    ApplyUpdate { anchor: SnapshotView, committee: CommitteeView, proof: Seq<u8>, root: Seq<u8> },
    RotateCommittee {
        anchor_max_slot: u64,
        root: Seq<u8>,
        current: CommitteeView,
        proof: Seq<u8>,
    },
}

impl View for ConsensusQuery {
    type V = QueryView;

    open spec fn view(&self) -> QueryView {
        match self {
            ConsensusQuery::Bootstrap { proof } => QueryView::Bootstrap { proof: proof@ },
            ConsensusQuery::ApplyUpdate { anchor, committee, proof, root } => QueryView::ApplyUpdate {
                anchor: anchor@,
                committee: committee@,
                proof: proof@,
                root: root@,
            },
            ConsensusQuery::RotateCommittee { anchor_max_slot, root, current, proof } =>
                QueryView::RotateCommittee {
                anchor_max_slot: *anchor_max_slot,
                root: root@,
                current: current@,
                proof: proof@,
            },
        }
    }
}

/// What the consensus verifier answered.
#[derive(Clone, Debug)]
pub enum ConsensusAnswer {
    Bootstrapped { snapshot: SnapshotSlot, committee: CommitteeSlot },
    Updated { snapshot: SnapshotSlot },
    Rotated { committee: CommitteeSlot },
    /// The proof was rejected, with the verifier's own code.
    Rejected { code: u8 },
}

/// The proof attached to a record, as a sequence, if any.
pub open spec fn proof_of(r: GroupRecord) -> Option<Seq<u8>> {
    match r.proof {
        Some(p) => Some(p@),
        None => None,
    }
}

} // verus!
