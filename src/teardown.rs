//! Destruction of a whole group in one transition.

use crate::error::{Error, InternalError};
use crate::records::{capacity_of, is_config, parse_config};
use crate::transition::Transition;
use vstd::prelude::*;

verus! {

/// A group may only be destroyed whole: its control record, every snapshot
/// slot and both committee slots. No proof is needed.
pub open spec fn teardown_verdict(tx: Transition) -> Result<(), Error> {
    if !is_config(tx.group_args@) {
        Err(Error::Internal(InternalError::Encoding))
    } else if tx.consumed@.len() != capacity_of(tx.group_args@) + 3 {
        Err(Error::Internal(InternalError::DestroyNotEnoughCells))
    } else {
        Ok(())
    }
}

pub fn check_teardown(tx: &Transition) -> (r: Result<(), Error>)
    ensures
        r == teardown_verdict(*tx),
{
    let config = match parse_config(tx.group_args.as_slice()) {
        Some(c) => c,
        None => return Err(Error::Internal(InternalError::Encoding)),
    };
    if tx.consumed.len() != config.ring_capacity as usize + 3 {
        return Err(Error::Internal(InternalError::DestroyNotEnoughCells));
    }
    Ok(())
}

} // verus!
