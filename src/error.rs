use vstd::prelude::*;

verus! {

/// Why an instruction was refused. Every refusal leaves all accounts as they were.
#[derive(Clone, Copy, Debug, PartialEq, Eq, Structural)]
pub enum DexError {
    /// Wrong number of accounts, a slot that must be writable is not, or a
    /// record that does not have its fixed layout.
    StructuralError,
    /// A stateful account not owned by this program, or a fixed external
    /// account that is not the program it must be.
    OwnershipError,
    /// A required signature is missing.
    SignerError,
    /// A cross-referenced key does not match: vault, authority, admin, owner, market.
    ArgumentError,
    /// Nothing to do: there are no fees to sweep.
    NoOp,
    /// The account already holds a record.
    AlreadyInitialized,
    /// The account still holds balances or open orders.
    AccountNotEmpty,
    /// No bump yields a program-derived authority.
    DerivationError,
    /// The payload's tag is unknown or the payload is truncated.
    InvalidInstruction,
    /// A balance or lamport count would leave the range of `u64`.
    BalanceOverflow,
}

} // verus!
