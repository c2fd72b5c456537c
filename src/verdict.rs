//! The entry point: which operation a transition is, and whether it is legal.

use crate::advance::{advance_query, advance_stage, advance_verdict, check_advance, stage_advance};
use crate::error::{Error, InternalError};
use crate::genesis::{check_genesis, genesis_stage, genesis_verdict, stage_genesis};
use crate::rotation::{check_rotation, rotation_query, rotation_stage, rotation_verdict, stage_rotation};
use crate::teardown::{check_teardown, teardown_verdict};
use crate::transition::{ConsensusAnswer, ConsensusQuery, QueryView, Transition};
use crate::type_id::{calculate_type_id, type_id_of};
use vstd::prelude::*;

verus! {

/// The four operations on a group, told apart by how many of its records the
/// transition consumes and produces.
#[derive(Clone, Copy, Debug, PartialEq, Eq, Structural)]
pub enum Operation {
    Genesis,
    Teardown,
    Advance,
    Rotation,
    Unknown,
}

pub open spec fn operation_of(consumed: nat, produced: nat) -> Operation {
    if consumed == 0 {
        Operation::Genesis
    } else if produced == 0 {
        Operation::Teardown
    } else if consumed == 2 && produced == 2 {
        Operation::Advance
    } else if consumed == 1 && produced == 1 {
        Operation::Rotation
    } else {
        Operation::Unknown
    }
}

pub open spec fn operation(tx: Transition) -> Operation {
    operation_of(tx.consumed@.len(), tx.produced@.len())
}

pub fn classify(tx: &Transition) -> (r: Operation)
    ensures
        r == operation(*tx),
{
    let consumed = tx.consumed.len();
    let produced = tx.produced.len();
    if consumed == 0 {
        Operation::Genesis
    } else if produced == 0 {
        Operation::Teardown
    } else if consumed == 2 && produced == 2 {
        Operation::Advance
    } else if consumed == 1 && produced == 1 {
        Operation::Rotation
    } else {
        Operation::Unknown
    }
}

/// The id that a genesis transition binds its group to.
pub open spec fn genesis_id(tx: Transition) -> Seq<u8> {
    type_id_of(tx.first_input@, tx.produced@.len() as u64)
}

/// Whether `tx` is legal, given what the consensus verifier answered to the
/// call that `required_query` names. A teardown asks nothing, and the answer
/// does not matter to it.
pub open spec fn verdict(tx: Transition, answer: ConsensusAnswer) -> Result<(), Error> {
    match operation(tx) {
        Operation::Genesis => genesis_verdict(tx, genesis_id(tx), answer),
        Operation::Teardown => teardown_verdict(tx),
        Operation::Advance => advance_verdict(tx, answer),
        Operation::Rotation => rotation_verdict(tx, answer),
        Operation::Unknown => Err(Error::Internal(InternalError::UnknownOperation)),
    }
}

/// The call that `tx` asks of the consensus verifier, or the rejection that
/// comes before any such call. A legal teardown asks nothing.
pub open spec fn required_query(tx: Transition) -> Result<Option<QueryView>, Error> {
    match operation(tx) {
        Operation::Genesis => match genesis_stage(tx, genesis_id(tx)) {
            Err(e) => Err(e),
            Ok(()) => Ok(Some(QueryView::Bootstrap { proof: tx.produced@[0].proof->Some_0@ })),
        },
        Operation::Teardown => match teardown_verdict(tx) {
            Err(e) => Err(e),
            Ok(()) => Ok(None),
        },
        Operation::Advance => match advance_stage(tx) {
            Err(e) => Err(e),
            Ok(()) => Ok(Some(advance_query(tx))),
        },
        Operation::Rotation => match rotation_stage(tx) {
            Err(e) => Err(e),
            Ok(()) => Ok(Some(rotation_query(tx))),
        },
        Operation::Unknown => Err(Error::Internal(InternalError::UnknownOperation)),
    }
}

/// Runs every check that precedes the consensus verifier, and returns the call
/// to make of it (`None` when the transition needs none).
pub fn consensus_query(tx: &Transition) -> (r: Result<Option<ConsensusQuery>, Error>)
    ensures
        match r {
            Ok(Some(q)) => required_query(*tx) == Ok::<Option<QueryView>, Error>(Some(q@)),
            Ok(None) => required_query(*tx) == Ok::<Option<QueryView>, Error>(None),
            Err(e) => required_query(*tx) == Err::<Option<QueryView>, Error>(e),
        },
{
    match classify(tx) {
        Operation::Genesis => {
            let id = calculate_type_id(tx.first_input.as_slice(), tx.produced.len() as u64);
            let q = stage_genesis(tx, &id)?;
            Ok(Some(q))
        },
        Operation::Teardown => {
            check_teardown(tx)?;
            Ok(None)
        },
        Operation::Advance => {
            let q = stage_advance(tx)?;
            Ok(Some(q))
        },
        Operation::Rotation => {
            let q = stage_rotation(tx)?;
            Ok(Some(q))
        },
        Operation::Unknown => Err(Error::Internal(InternalError::UnknownOperation)),
    }
}

/// Decides whether `tx` is legal, given the consensus verifier's answer to the
/// call that `consensus_query` returned for it.
pub fn verify_transition(tx: &Transition, answer: &ConsensusAnswer) -> (r: Result<(), Error>)
    ensures
        r == verdict(*tx, *answer),
{
    match classify(tx) {
        Operation::Genesis => {
            let id = calculate_type_id(tx.first_input.as_slice(), tx.produced.len() as u64);
            check_genesis(tx, &id, answer)
        },
        Operation::Teardown => check_teardown(tx),
        Operation::Advance => check_advance(tx, answer),
        Operation::Rotation => check_rotation(tx, answer),
        Operation::Unknown => Err(Error::Internal(InternalError::UnknownOperation)),
    }
}

} // verus!
