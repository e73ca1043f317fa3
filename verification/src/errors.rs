//! Error taxonomy of the protocol operations.

use vstd::prelude::*;

verus! {

/// Failure reported by the external ledger service for a transfer or a mint,
/// propagated verbatim to the caller of the operation that requested it.
#[derive(Clone, Copy, Debug, PartialEq, Eq, Structural)]
pub enum LedgerError {
    /// The source balance could not cover the requested amount.
    InsufficientBalance,
}

/// Every way a protocol operation can fail. Each operation that returns one
/// of these leaves the persistent record exactly as it found it.
#[derive(Clone, Copy, Debug, PartialEq, Eq, Structural)]
pub enum ProtocolError {
    /// The persistent record already exists at its canonical location.
    AlreadyInitialized,
    /// The caller is not the stored pool authority.
    Unauthorized,
    /// The configured rates take more than the whole input amount, so the
    /// user share would underflow.
    DistributionUnderflow,
    /// A product or a running balance would not fit in 64 bits.
    DistributionOverflow,
    /// A transfer or a mint failed at the external ledger service.
    Ledger(LedgerError),
}

} // verus!
