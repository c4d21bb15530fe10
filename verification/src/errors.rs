//! Why an operation is refused.

use vstd::prelude::*;

verus! {

/// Why a deposit is refused. A refused deposit changes nothing.
#[derive(Clone, Copy, Debug, PartialEq, Eq)]
pub enum DepositError {
    /// The vault is locked.
    VaultLocked,
    /// The amount and the depositor's reserve together exceed what a balance
    /// can count.
    Overflow,
    /// The depositor holds less than the amount and its reserve together.
    InsufficientBalance,
    /// The value could not be moved: the vault cannot hold that much more.
    TransferFailed,
}

/// Why a withdrawal is refused. A refused withdrawal changes nothing.
#[derive(Clone, Copy, Debug, PartialEq, Eq)]
pub enum WithdrawError {
    /// The vault is locked.
    VaultLocked,
    /// The caller is not the vault's authority.
    Unauthorized,
    /// The amount and the vault's reserve together exceed what a balance can
    /// count.
    Overflow,
    /// The vault holds less than the amount and its reserve together.
    InsufficientBalance,
    /// The value could not be moved: the authority's account cannot hold that
    /// much more.
    TransferFailed,
}

} // verus!
