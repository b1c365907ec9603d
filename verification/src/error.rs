//! The typed errors of the exchange. Every failure is detected during
//! validation, before any mutation, and aborts the whole operation.

use vstd::prelude::*;

verus! {

/// Why an operation was rejected. Each validator reports the first failing
/// check, and a rejected operation leaves every account exactly as it was.
#[derive(Clone, Copy, Debug, PartialEq, Eq, Structural)]
pub enum EscrowError {
    /// The account list is shorter or longer than the operation demands.
    NotEnoughAccounts,
    /// The authorizing party did not sign the calling transaction.
    MissingSignature,
    /// The record account is not owned by this program.
    WrongProgramOwner,
    /// The record account does not have the exact fixed record size.
    WrongDataSize,
    /// The record or custody account does not exist yet, or no longer does:
    /// the trade has not been opened, or has already settled or been
    /// cancelled.
    Uninitialized,
    /// The record or custody namespace is already occupied by an open trade.
    AlreadyInitialized,
    /// A supplied record or custody address differs from the recomputed
    /// derived address (or no derived address exists for the seeds).
    AddressMismatch,
    /// A malformed argument payload: wrong length, unknown operation
    /// selector, or a zero deposit amount.
    InvalidArgument,
    /// The token ledger cannot move the requested quantity: the source
    /// holding account does not cover it.
    InsufficientFunds,
    /// The token ledger cannot credit the destination: its balance would
    /// exceed the largest representable quantity.
    BalanceOverflow,
}

} // verus!
