use vstd::prelude::*;

verus! {

/// Every way a relayer operation can be refused.
#[derive(Clone, Copy, Debug, PartialEq, Eq, Structural)]
pub enum RelayerError {
    Unauthorized,
    InsufficientBalance,
    InvalidNonce,
    ExpiredTransaction,
    ContractPaused,
    InvalidAccountId,
    AmountTooLow,
    AmountTooHigh,
    LastAdmin,
    AlreadyExists,
    CannotSelfRemove,
    NotFound,
    InvalidSignature,
    InvalidRequestId,
    InvalidChainId,
    AccountTaken,
    RateLimitHit,
    KeyExpired,
    InsufficientDeposit,
    InsufficientSignatures,
    FeeTooLow,
    MissingInput,
    InsufficientGasPool,
}

} // verus!
