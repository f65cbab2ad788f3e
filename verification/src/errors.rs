use vstd::prelude::*;

verus! {

/// Program-specific error code: the escrowed amount is zero.
pub const ERR_ZERO_AMOUNT: u32 = 6000;

/// Program-specific error code: `cancel_after` is not in the future.
pub const ERR_INVALID_CANCEL_AFTER: u32 = 6001;

/// Program-specific error code: `cancel_after` lies beyond the longest escrow duration.
pub const ERR_CANCEL_AFTER_TOO_FAR: u32 = 6002;

/// Program-specific error code: a non-authority tried to cancel before expiry.
pub const ERR_TOO_EARLY_TO_CANCEL: u32 = 6003;

/// Program-specific error code: an account does not match what the escrow requires.
pub const ERR_UNAUTHORIZED: u32 = 6004;

/// Why an instruction was refused.
///
/// The first six variants are the runtime's builtin program errors; the next
/// five are the program's own custom errors; `Runtime` carries an error that the
/// runtime itself reported (as the runtime's numeric code).
#[derive(Debug, Clone, Copy, PartialEq, Eq, Structural)]
pub enum EscrowError {
    InvalidInstructionData,
    NotEnoughAccountKeys,
    MissingRequiredSignature,
    InvalidAccountData,
    IllegalOwner,
    ArithmeticOverflow,
    ZeroAmount,
    InvalidCancelAfter,
    CancelAfterTooFar,
    TooEarlyToCancel,
    Unauthorized,
    Runtime(u64),
}

impl EscrowError {
    /// The custom error code of a program-specific error, `None` for the others.
    pub open spec fn spec_custom_code(self) -> Option<u32> {
        match self {
            EscrowError::ZeroAmount => Some(ERR_ZERO_AMOUNT),
            EscrowError::InvalidCancelAfter => Some(ERR_INVALID_CANCEL_AFTER),
            EscrowError::CancelAfterTooFar => Some(ERR_CANCEL_AFTER_TOO_FAR),
            EscrowError::TooEarlyToCancel => Some(ERR_TOO_EARLY_TO_CANCEL),
            EscrowError::Unauthorized => Some(ERR_UNAUTHORIZED),
            _ => None,
        }
    }

    /// The custom error code under which the program reports this error, if it is
    /// one of the program's own.
    pub fn custom_code(&self) -> (r: Option<u32>)
        ensures
            r == self.spec_custom_code(),
    {
        match self {
            EscrowError::ZeroAmount => Some(ERR_ZERO_AMOUNT),
            EscrowError::InvalidCancelAfter => Some(ERR_INVALID_CANCEL_AFTER),
            EscrowError::CancelAfterTooFar => Some(ERR_CANCEL_AFTER_TOO_FAR),
            EscrowError::TooEarlyToCancel => Some(ERR_TOO_EARLY_TO_CANCEL),
            EscrowError::Unauthorized => Some(ERR_UNAUTHORIZED),
            _ => None,
        }
    }
}

} // verus!
