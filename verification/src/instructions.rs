//! The instruction wire format: a single opcode byte with no payload.

use vstd::prelude::*;

use crate::error::{token_err, ProgramError, TokenError};

verus! {

/// One of the three instructions the processor applies.
#[derive(Clone, Debug, PartialEq, Eq, Structural)]
pub enum TokenInstruction {
    /// Initializes a new mint and seeds a holding account with the one unit
    /// the mint issues.
    ///
    /// Storage slots read, in positional order:
    ///
    ///   0. The mint to initialize (written).
    ///   1. The account to seed (written).
    ///   2. The seeded account's owner (address only).
    InitializeMint,

    /// Initializes a new, empty holding account.
    ///
    /// Storage slots read, in positional order:
    ///
    ///   0. The account to initialize (written).
    ///   1. The mint this account will be associated with (address only).
    ///   2. The new account's owner (address only).
    InitializeAccount,

    /// Transfers the unit from one account to another.
    ///
    /// Storage slots read, in positional order:
    ///
    ///   0. The source account (written).
    ///   1. The destination account (written).
    ///   2. The source account's owner, which must sign.
    Transfer,
}

/// The opcode byte that encodes an instruction.
pub open spec fn spec_opcode(i: TokenInstruction) -> u8 {
    match i {
        TokenInstruction::InitializeMint => 0,
        TokenInstruction::InitializeAccount => 1,
        TokenInstruction::Transfer => 2,
    }
}

/// What decoding an instruction buffer yields: the instruction named by the
/// first byte, or `InvalidInstruction` when the buffer is empty or the byte
/// is not an opcode.
pub open spec fn spec_unpack(input: Seq<u8>) -> Result<TokenInstruction, ProgramError> {
    if input.len() == 0 {
        Err(token_err(TokenError::InvalidInstruction))
    } else if input[0] == 0 {
        Ok(TokenInstruction::InitializeMint)
    } else if input[0] == 1 {
        Ok(TokenInstruction::InitializeAccount)
    } else if input[0] == 2 {
        Ok(TokenInstruction::Transfer)
    } else {
        Err(token_err(TokenError::InvalidInstruction))
    }
}

impl TokenInstruction {
    /// Decodes the opcode byte at the start of `input`.
    pub fn unpack(input: &[u8]) -> (r: Result<TokenInstruction, ProgramError>)
        ensures
            r == spec_unpack(input@),
    {
        if input.len() == 0 {
            return Err(ProgramError::from(TokenError::InvalidInstruction));
        }
        match input[0] {
            0 => Ok(TokenInstruction::InitializeMint),
            1 => Ok(TokenInstruction::InitializeAccount),
            2 => Ok(TokenInstruction::Transfer),
            _ => Err(ProgramError::from(TokenError::InvalidInstruction)),
        }
    }

    /// Encodes the instruction as its one opcode byte; decoding the result
    /// gives the instruction back.
    pub fn pack(&self) -> (r: Vec<u8>)
        ensures
            r@ == seq![spec_opcode(*self)],
            spec_unpack(r@) == Ok::<TokenInstruction, ProgramError>(*self),
    {
        let mut buf = Vec::new();
        match self {
            TokenInstruction::InitializeMint => buf.push(0),
            TokenInstruction::InitializeAccount => buf.push(1),
            TokenInstruction::Transfer => buf.push(2),
        }
        proof {
            assert(buf@ =~= seq![spec_opcode(*self)]);
        }
        buf
    }
}

} // verus!
