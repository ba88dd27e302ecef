//! The error taxonomy of the ledger model. Every error is deterministic:
//! the same inputs always produce the same error.

use vstd::prelude::*;

verus! {

/// Everything that can go wrong in a codec, execution, or slot operation.
#[derive(Clone, Copy, Debug, PartialEq, Eq, Structural)]
pub enum LedgerError {
    /// A payload does not match the size or shape its account kind requires.
    MalformedLayout,
    /// The instruction referenced an account index (or a byte of its payload)
    /// that the supplied account list does not have.
    AccountIndexOutOfRange,
    /// `advance_slot` was called with a target not beyond the current slot.
    SlotNotAdvancing,
    /// The transaction's program address does not hold an executable,
    /// loader-owned account.
    ProgramNotFound,
    /// No version of the upgradeable program is visible yet: the recorded
    /// deployment slot has not been passed and no earlier version was loaded.
    ProgramNotVisible,
    /// An address named by the transaction, or the data address a Program
    /// record points at, is absent from the account set.
    AccountNotFound,
}

} // verus!
