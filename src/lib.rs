//! Verification of state transitions for a ring-buffered light-client record
//! group: one control record, a ring of snapshot slots and a double buffer of
//! committee slots.
//!
//! A transition is classified by how many of the group's records it consumes
//! and produces (`verdict`), and each kind has its own module: `genesis`,
//! `advance`, `rotation` and `teardown`. Proofs are judged by an external
//! consensus verifier: `consensus_query` names the call to make of it, and
//! `verify_transition` takes the result of that call and gives the verdict.
//! `guarantees` proves what every verdict satisfies.
//!
//! Beside it stand the argument handling of the helper program that checks
//! transaction proofs (`verify_bin`) and the packet checks of the token
//! transfer lock (`sudt_transfer`).

pub mod error;
pub mod records;
pub mod ring;
pub mod selector;
pub mod type_id;
pub mod transition;
pub mod genesis;
pub mod advance;
pub mod rotation;
pub mod teardown;
pub mod verdict;
pub mod guarantees;
pub mod verify_bin;
pub mod sudt_transfer;
