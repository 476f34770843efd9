use vstd::prelude::*;

verus! {

/// Every way in which a pool instruction is rejected.
#[derive(Clone, Copy, Debug, PartialEq, Eq, Structural)]
pub enum SwapError {
    /// A supplied mint does not match the account that it is claimed to
    /// describe, or does not belong to the pool.
    InvalidMint,
    /// The user's destination account is not of the mint that the pool pays out.
    InvalidDestinationMint,
    /// The input amount is zero.
    ZeroAmount,
    /// One of the two reserves is zero.
    PoolIsEmpty,
    /// The computed output is below the caller's minimum.
    SlippageExceeded,
    /// An arithmetic step left its range.
    CalculationOverflow,
    /// A vault does not match the pool's record or is not held by the pool authority.
    InvalidVault,
    /// A token account is not owned by the user who acts through it.
    InvalidOwner,
    /// The user's source account is of neither of the pool's mints.
    ///
    /// Kept apart from `InvalidDestinationMint`: the two failures have
    /// different causes and callers can tell them apart.
    InvalidSourceMint,
    /// A program-derived address could not be derived, or the account supplied
    /// in its place is another one.
    AddressMismatch,
}

} // verus!
