use vstd::prelude::*;

verus! {

/// Why an operation on pool accounts was refused.
#[derive(Clone, Copy, Debug, PartialEq, Eq, Structural)]
pub enum PoolError {
    /// A supplied account is not at the address its derivation gives.
    IdentityMismatch,
    /// The two token mints of a pool are the same.
    InvalidMintPair,
    /// An LP mint's decimals differ from the larger decimals of the two tokens.
    PrecisionMismatch,
    /// The signer does not own an escrow, or the escrows have different owners.
    AuthorizationMismatch,
    /// The movable balance exceeds what the source escrow vault holds.
    CeilingViolation,
    /// A required account is missing or does not hold the expected kind of record.
    AccountNotFound,
    /// An account that is to be created already exists.
    AccountAlreadyExists,
    /// A balance would leave the range of a `u64`.
    MathOverflow,
}

} // verus!
