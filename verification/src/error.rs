//! The closed set of failures that instructions can raise, and the host-facing
//! failure signal they are surfaced through.

use vstd::prelude::*;

verus! {

/// Domain failures raised by the token instructions.
///
/// The set is closed and its order is stable: the ordinal of a variant (see
/// [`token_error_code`]) is the numeric code the host receives, so the list is
/// append-only.
#[derive(Clone, Debug, PartialEq, Eq, Structural)]
pub enum TokenError {
    /// The instruction byte names no known instruction.
    InvalidInstruction,
    /// Initialization was attempted on a record that is already initialized.
    AlreadyInUse,
    /// The signer address differs from the source account's recorded owner.
    OwnerMismatch,
    /// The source account holds no unit to transfer.
    InsufficientFunds,
    /// Source and destination accounts belong to different mints.
    MintMismatch,
    /// A record that must already be initialized is not.
    NotInitialized,
}

/// The failure signal surfaced to the host: either a domain failure carried as
/// its stable numeric code, or one of the host's own generic failure kinds
/// that the processor can raise.
#[derive(Clone, Debug, PartialEq, Eq, Structural)]
pub enum ProgramError {
    /// A domain failure, carried as the ordinal of its [`TokenError`] kind.
    Custom(u32),
    /// A record buffer is shorter than the record's fixed length.
    InvalidAccountData,
    /// The instruction was handed fewer storage slots than it reads.
    NotEnoughAccountKeys,
    /// The signer slot carries no authorization proof.
    MissingRequiredSignature,
}

/// The stable numeric code of each domain failure.
pub open spec fn token_error_code(e: TokenError) -> u32 {
    match e {
        TokenError::InvalidInstruction => 0,
        TokenError::AlreadyInUse => 1,
        TokenError::OwnerMismatch => 2,
        TokenError::InsufficientFunds => 3,
        TokenError::MintMismatch => 4,
        TokenError::NotInitialized => 5,
    }
}

/// The host-facing failure that a domain failure converts into.
pub open spec fn token_err(e: TokenError) -> ProgramError {
    ProgramError::Custom(token_error_code(e))
}

impl From<TokenError> for ProgramError {
    fn from(e: TokenError) -> (r: Self) {
        match e {
            TokenError::InvalidInstruction => ProgramError::Custom(0),
            TokenError::AlreadyInUse => ProgramError::Custom(1),
            TokenError::OwnerMismatch => ProgramError::Custom(2),
            TokenError::InsufficientFunds => ProgramError::Custom(3),
            TokenError::MintMismatch => ProgramError::Custom(4),
            TokenError::NotInitialized => ProgramError::Custom(5),
        }
    }
}

impl vstd::std_specs::convert::FromSpecImpl<TokenError> for ProgramError {
    open spec fn obeys_from_spec() -> bool {
        true
    }

    open spec fn from_spec(e: TokenError) -> Self {
        token_err(e)
    }
}

} // verus!
