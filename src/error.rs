//! Rejection reasons, each with a stable numeric code.

use vstd::prelude::*;

verus! {

/// Reasons found by this library itself, grouped by the check that finds them.
#[derive(Clone, Copy, Debug, PartialEq, Eq, Structural)]
pub enum InternalError {
    // Failures of the host while loading the transition.
    IndexOutOfBound,
    ItemMissing,
    LengthNotEnough,
    Encoding,
    UnknownSysError,
    // Before any operation.
    UnknownOperation,
    UnexpectedConsensusAnswer,
    // Group genesis.
    CreateNotEnoughCells,
    CreateShouldBeOrdered,
    CreateCellsCountNotMatched,
    CreateIncorrectUniqueId,
    CreateBadClientInfoCellData,
    CreateClientInfoIndexShouldBeZero,
    CreateClientInfoMinimalHeadersCountShouldNotBeZero,
    CreateWitnessIsNotExisted,
    CreateBadClientCellData,
    CreateNewClientIsIncorrect,
    CreateBadClientSyncCommitteeCellData,
    CreateNewSyncCommitteeIsIncorrect,
    // Group teardown.
    DestroyNotEnoughCells,
    // Ring advance.
    UpdateClientInputInfoNotFound,
    UpdateClientInputClientNotFound,
    UpdateClientInputClientIdIsMismatch,
    UpdateClientOutputInfoNotFound,
    UpdateClientOutputClientNotFound,
    UpdateClientInfoChanged,
    UpdateClientCellDepsTooMany,
    UpdateClientCellDepsNotEnough,
    UpdateClientCellDepClientNotFound,
    UpdateClientCellDepSyncCommitteeNotFound,
    UpdateClientCellDepClientIdIsMismatch,
    UpdateClientWitnessIsNotExisted,
    UpdateClientHeadersNotEnough,
    UpdateClientNewClientIsIncorrect,
    // Committee rotation.
    UpdateSyncCommitteeInputSyncCommitteeNotFound,
    UpdateSyncCommitteeOutputSyncCommitteeNotFound,
    UpdateSyncCommitteeCellDepsTooMany,
    UpdateSyncCommitteeCellDepsNotEnough,
    UpdateSyncCommitteeCellDepInfoNotFound,
    UpdateSyncCommitteeCellDepClientNotFound,
    UpdateSyncCommitteeCellDepSyncCommitteeNotFound,
    UpdateSyncCommitteeCellDepClientIsNotLatest,
    UpdateSyncCommitteeCellDepSyncCommitteeIsNotOldest,
    UpdateSyncCommitteeWitnessIsNotExisted,
    UpdateSyncCommitteeNewSyncCommitteeIsIncorrect,
}

pub open spec fn internal_code(e: InternalError) -> u8 {
    match e {
        InternalError::IndexOutOfBound => 0x01,
        InternalError::ItemMissing => 0x02,
        InternalError::LengthNotEnough => 0x03,
        InternalError::Encoding => 0x04,
        InternalError::UnknownSysError => 0x05,
        InternalError::UnknownOperation => 0x10,
        InternalError::UnexpectedConsensusAnswer => 0x11,
        InternalError::CreateNotEnoughCells => 0x20,
        InternalError::CreateShouldBeOrdered => 0x21,
        InternalError::CreateCellsCountNotMatched => 0x22,
        InternalError::CreateIncorrectUniqueId => 0x23,
        InternalError::CreateBadClientInfoCellData => 0x24,
        InternalError::CreateClientInfoIndexShouldBeZero => 0x25,
        InternalError::CreateClientInfoMinimalHeadersCountShouldNotBeZero => 0x26,
        InternalError::CreateWitnessIsNotExisted => 0x27,
        InternalError::CreateBadClientCellData => 0x28,
        InternalError::CreateNewClientIsIncorrect => 0x29,
        InternalError::CreateBadClientSyncCommitteeCellData => 0x2a,
        InternalError::CreateNewSyncCommitteeIsIncorrect => 0x2b,
        InternalError::DestroyNotEnoughCells => 0x3f,
        InternalError::UpdateClientInputInfoNotFound => 0x40,
        InternalError::UpdateClientInputClientNotFound => 0x41,
        InternalError::UpdateClientInputClientIdIsMismatch => 0x42,
        InternalError::UpdateClientOutputInfoNotFound => 0x43,
        InternalError::UpdateClientOutputClientNotFound => 0x44,
        InternalError::UpdateClientInfoChanged => 0x45,
        InternalError::UpdateClientCellDepsTooMany => 0x46,
        InternalError::UpdateClientCellDepsNotEnough => 0x47,
        InternalError::UpdateClientCellDepClientNotFound => 0x48,
        InternalError::UpdateClientCellDepSyncCommitteeNotFound => 0x49,
        InternalError::UpdateClientCellDepClientIdIsMismatch => 0x4a,
        InternalError::UpdateClientWitnessIsNotExisted => 0x4b,
        InternalError::UpdateClientHeadersNotEnough => 0x4c,
        InternalError::UpdateClientNewClientIsIncorrect => 0x4d,
        InternalError::UpdateSyncCommitteeInputSyncCommitteeNotFound => 0x50,
        InternalError::UpdateSyncCommitteeOutputSyncCommitteeNotFound => 0x51,
        InternalError::UpdateSyncCommitteeCellDepsTooMany => 0x52,
        InternalError::UpdateSyncCommitteeCellDepsNotEnough => 0x53,
        InternalError::UpdateSyncCommitteeCellDepInfoNotFound => 0x54,
        InternalError::UpdateSyncCommitteeCellDepClientNotFound => 0x55,
        InternalError::UpdateSyncCommitteeCellDepSyncCommitteeNotFound => 0x56,
        InternalError::UpdateSyncCommitteeCellDepClientIsNotLatest => 0x57,
        InternalError::UpdateSyncCommitteeCellDepSyncCommitteeIsNotOldest => 0x58,
        InternalError::UpdateSyncCommitteeWitnessIsNotExisted => 0x59,
        InternalError::UpdateSyncCommitteeNewSyncCommitteeIsIncorrect => 0x5a,
    }
}

impl InternalError {
    /// The stable numeric code of this reason.
    pub fn code(&self) -> (r: u8)
        ensures
            r == internal_code(*self),
    {
        match self {
            InternalError::IndexOutOfBound => 0x01,
            InternalError::ItemMissing => 0x02,
            InternalError::LengthNotEnough => 0x03,
            InternalError::Encoding => 0x04,
            InternalError::UnknownSysError => 0x05,
            InternalError::UnknownOperation => 0x10,
            InternalError::UnexpectedConsensusAnswer => 0x11,
            InternalError::CreateNotEnoughCells => 0x20,
            InternalError::CreateShouldBeOrdered => 0x21,
            InternalError::CreateCellsCountNotMatched => 0x22,
            InternalError::CreateIncorrectUniqueId => 0x23,
            InternalError::CreateBadClientInfoCellData => 0x24,
            InternalError::CreateClientInfoIndexShouldBeZero => 0x25,
            InternalError::CreateClientInfoMinimalHeadersCountShouldNotBeZero => 0x26,
            InternalError::CreateWitnessIsNotExisted => 0x27,
            InternalError::CreateBadClientCellData => 0x28,
            InternalError::CreateNewClientIsIncorrect => 0x29,
            InternalError::CreateBadClientSyncCommitteeCellData => 0x2a,
            InternalError::CreateNewSyncCommitteeIsIncorrect => 0x2b,
            InternalError::DestroyNotEnoughCells => 0x3f,
            InternalError::UpdateClientInputInfoNotFound => 0x40,
            InternalError::UpdateClientInputClientNotFound => 0x41,
            InternalError::UpdateClientInputClientIdIsMismatch => 0x42,
            InternalError::UpdateClientOutputInfoNotFound => 0x43,
            InternalError::UpdateClientOutputClientNotFound => 0x44,
            InternalError::UpdateClientInfoChanged => 0x45,
            InternalError::UpdateClientCellDepsTooMany => 0x46,
            InternalError::UpdateClientCellDepsNotEnough => 0x47,
            InternalError::UpdateClientCellDepClientNotFound => 0x48,
            InternalError::UpdateClientCellDepSyncCommitteeNotFound => 0x49,
            InternalError::UpdateClientCellDepClientIdIsMismatch => 0x4a,
            InternalError::UpdateClientWitnessIsNotExisted => 0x4b,
            InternalError::UpdateClientHeadersNotEnough => 0x4c,
            InternalError::UpdateClientNewClientIsIncorrect => 0x4d,
            InternalError::UpdateSyncCommitteeInputSyncCommitteeNotFound => 0x50,
            InternalError::UpdateSyncCommitteeOutputSyncCommitteeNotFound => 0x51,
            InternalError::UpdateSyncCommitteeCellDepsTooMany => 0x52,
            InternalError::UpdateSyncCommitteeCellDepsNotEnough => 0x53,
            InternalError::UpdateSyncCommitteeCellDepInfoNotFound => 0x54,
            InternalError::UpdateSyncCommitteeCellDepClientNotFound => 0x55,
            InternalError::UpdateSyncCommitteeCellDepSyncCommitteeNotFound => 0x56,
            InternalError::UpdateSyncCommitteeCellDepClientIsNotLatest => 0x57,
            InternalError::UpdateSyncCommitteeCellDepSyncCommitteeIsNotOldest => 0x58,
            InternalError::UpdateSyncCommitteeWitnessIsNotExisted => 0x59,
            InternalError::UpdateSyncCommitteeNewSyncCommitteeIsIncorrect => 0x5a,
        }
    }
}

/// Why a transition was rejected: a reason of this library, or the code that
/// the consensus verifier gave when it rejected a proof.
#[derive(Clone, Copy, Debug, PartialEq, Eq, Structural)]
pub enum Error {
    Internal(InternalError),
    ClientBootstrap(u8),
    ClientUpdate(u8),
    SyncCommitteeUpdate(u8),
}

/// Proof rejections occupy the codes from `0x60` on.
pub const PROOF_ERROR_BASE: u8 = 0x60;

pub open spec fn error_code(e: Error) -> u8 {
    match e {
        Error::Internal(i) => internal_code(i),
        Error::ClientBootstrap(c) => ((PROOF_ERROR_BASE + c) % 256) as u8,
        Error::ClientUpdate(c) => ((PROOF_ERROR_BASE + c) % 256) as u8,
        Error::SyncCommitteeUpdate(c) => ((PROOF_ERROR_BASE + c) % 256) as u8,
    }
}

fn proof_code(c: u8) -> (r: u8)
    ensures
        r == (PROOF_ERROR_BASE + c) % 256,
{
    PROOF_ERROR_BASE.wrapping_add(c)
}

impl Error {
    /// The stable numeric code of this rejection.
    pub fn code(&self) -> (r: u8)
        ensures
            r == error_code(*self),
    {
        match self {
            Error::Internal(i) => i.code(),
            Error::ClientBootstrap(c) => proof_code(*c),
            Error::ClientUpdate(c) => proof_code(*c),
            Error::SyncCommitteeUpdate(c) => proof_code(*c),
        }
    }
}

impl From<InternalError> for Error {
    fn from(e: InternalError) -> (r: Error)
        ensures
            r == Error::Internal(e),
    {
        Error::Internal(e)
    }
}

impl vstd::std_specs::convert::FromSpecImpl<InternalError> for Error {
    open spec fn obeys_from_spec() -> bool {
        true
    }

    open spec fn from_spec(e: InternalError) -> Error {
        Error::Internal(e)
    }
}

} // verus!
