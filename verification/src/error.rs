use vstd::prelude::*;

verus! {

/// The failure taxonomy of the exchange program. Every operation either
/// completes entirely or fails with one of these and leaves no partial state
/// behind.
#[derive(Clone, Copy, Debug, PartialEq, Eq, Structural)]
pub enum ExchangeError {
    /// The store could not allocate a new record: the payer cannot fund the
    /// allocation, or the chosen address is already occupied.
    ResourceExhaustion,
    /// A session named a synchronizer record that does not resolve.
    UnresolvedReference,
    /// A burn was attempted without the holder's own signature, or a mint
    /// without a proof that derives the mint authority's address.
    Unauthorized,
    /// A burn asked for more than the holder's balance.
    InsufficientBalance,
}

} // verus!
