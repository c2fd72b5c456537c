//! The helper program that checks a transaction proof against a snapshot: its
//! rejection reasons and how it reads its two arguments.

use vstd::prelude::*;

verus! {

/// Reasons found by the helper program itself.
#[derive(Clone, Copy, Debug, PartialEq, Eq, Structural)]
pub enum InternalError {
    IndexOutOfBound,
    ItemMissing,
    LengthNotEnough,
    Encoding,
    UnknownSysError,
    IncorrectArgc,
    IncorrectArgv,
    TransactionProofIsNotExisted,
    TransactionPayloadIsNotExisted,
    IncorrectTransactionProof,
    IncorrectTransactionPayload,
}

pub open spec fn helper_code(e: InternalError) -> u8 {
    match e {
        InternalError::IndexOutOfBound => 0x01,
        InternalError::ItemMissing => 0x02,
        InternalError::LengthNotEnough => 0x03,
        InternalError::Encoding => 0x04,
        InternalError::UnknownSysError => 0x05,
        InternalError::IncorrectArgc => 0x10,
        InternalError::IncorrectArgv => 0x11,
        InternalError::TransactionProofIsNotExisted => 0x12,
        InternalError::TransactionPayloadIsNotExisted => 0x13,
        InternalError::IncorrectTransactionProof => 0x14,
        InternalError::IncorrectTransactionPayload => 0x15,
    }
}

impl InternalError {
    pub fn code(&self) -> (r: u8)
        ensures
            r == helper_code(*self),
    {
        match self {
            InternalError::IndexOutOfBound => 0x01,
            InternalError::ItemMissing => 0x02,
            InternalError::LengthNotEnough => 0x03,
            InternalError::Encoding => 0x04,
            InternalError::UnknownSysError => 0x05,
            InternalError::IncorrectArgc => 0x10,
            InternalError::IncorrectArgv => 0x11,
            InternalError::TransactionProofIsNotExisted => 0x12,
            InternalError::TransactionPayloadIsNotExisted => 0x13,
            InternalError::IncorrectTransactionProof => 0x14,
            InternalError::IncorrectTransactionPayload => 0x15,
        }
    }
}

/// Position of the snapshot's cell among the referenced cells.
pub const CLIENT_ARG_INDEX: usize = 0;

/// Position of the witness holding the proof.
pub const WITNESS_ARG_INDEX: usize = 1;

pub open spec fn is_digit(c: char) -> bool {
    48 <= (c as u32) <= 57
}

/// The number that a string of decimal digits spells.
pub open spec fn digits_value(s: Seq<char>) -> int
    decreases s.len(),
{
    if s.len() == 0 {
        0
    } else {
        digits_value(s.drop_last()) * 10 + ((s.last() as u32) - 48)
    }
}

/// The digits of an unsigned number's text, after its optional `+` sign.
pub open spec fn unsigned_digits(s: Seq<char>) -> Seq<char> {
    if s.len() > 0 && s[0] == '+' {
        s.skip(1)
    } else {
        s
    }
}

/// The `usize` that a text spells: an optional `+`, then one or more decimal
/// digits, and a value that fits.
pub open spec fn usize_of_text(s: Seq<char>) -> Option<usize> {
    let d = unsigned_digits(s);
    if d.len() > 0 && (forall|i: int| 0 <= i < d.len() ==> is_digit(#[trigger] d[i]))
        && digits_value(d) <= usize::MAX {
        Some(digits_value(d) as usize)
    } else {
        None
    }
}

/// Relies on `<usize as FromStr>::from_str` (through `str::parse`): it accepts
/// an optional `+` followed by decimal digits whose value fits, and fails
/// otherwise.
#[verifier::external_body]
fn parse_usize(s: &str) -> (r: Option<usize>)
    ensures
        r == usize_of_text(s@),
{
    s.parse::<usize>().ok()
}

pub open spec fn argument_value(arg: Option<String>) -> Option<usize> {
    match arg {
        Some(text) => usize_of_text(text@),
        None => None,
    }
}

/// Reads the number at `index` among the program's arguments; an argument
/// that is not text (`None`) or not a number is refused.
pub fn load_usize_from_argv(argv: &Vec<Option<String>>, index: usize) -> (r: Result<
    usize,
    InternalError,
>)
    requires
        index < argv@.len(),
    ensures
        r == (match argument_value(argv@[index as int]) {
            Some(v) => Ok::<usize, InternalError>(v),
            None => Err(InternalError::IncorrectArgv),
        }),
{
    match &argv[index] {
        Some(text) => match parse_usize(text.as_str()) {
            Some(v) => Ok(v),
            None => Err(InternalError::IncorrectArgv),
        },
        None => Err(InternalError::IncorrectArgv),
    }
}

pub open spec fn arguments(argv: Seq<Option<String>>) -> Result<(usize, usize), InternalError> {
    if argv.len() != 2 {
        Err(InternalError::IncorrectArgc)
    } else {
        match (argument_value(argv[CLIENT_ARG_INDEX as int]), argument_value(
            argv[WITNESS_ARG_INDEX as int],
        )) {
            (Some(c), Some(w)) => Ok((c, w)),
            _ => Err(InternalError::IncorrectArgv),
        }
    }
}

/// The two arguments: where the snapshot's cell is, and where the witness is.
pub fn parse_arguments(argv: &Vec<Option<String>>) -> (r: Result<(usize, usize), InternalError>)
    ensures
        r == arguments(argv@),
{
    if argv.len() != 2 {
        return Err(InternalError::IncorrectArgc);
    }
    let client_cell_index = load_usize_from_argv(argv, CLIENT_ARG_INDEX)?;
    let witness_index = load_usize_from_argv(argv, WITNESS_ARG_INDEX)?;
    Ok((client_cell_index, witness_index))
}

} // verus!
