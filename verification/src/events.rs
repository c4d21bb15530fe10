//! What a completed operation hands back for publication.

use vstd::prelude::*;
use crate::address::Address;

verus! {

/// What a deposit event says.
pub struct DepositEventView {
    /// The value that was paid in.
    pub amount: nat,
    /// The bytes of the depositor's address.
    pub user: Seq<u8>,
    /// The bytes of the vault's address.
    pub vault: Seq<u8>,
}

/// The record of one completed deposit.
#[derive(Clone, Copy, Debug, PartialEq, Eq)]
pub struct DepositEvent {
    /// The value that was paid in.
    pub amount: u64,
    /// Who paid it.
    pub user: Address,
    /// The vault that received it.
    pub vault: Address,
}

impl View for DepositEvent {
    type V = DepositEventView;

    open spec fn view(&self) -> DepositEventView {
        DepositEventView { amount: self.amount as nat, user: self.user@, vault: self.vault@ }
    }
}

/// What a withdrawal event says.
pub struct WithdrawEventView {
    /// The value that was taken out.
    pub amount: nat,
    /// The bytes of the authority's address.
    pub vault_authority: Seq<u8>,
    /// The bytes of the vault's address.
    pub vault: Seq<u8>,
}

/// The record of one completed withdrawal.
#[derive(Clone, Copy, Debug, PartialEq, Eq)]
pub struct WithdrawEvent {
    /// The value that was taken out.
    pub amount: u64,
    /// The authority that received it.
    pub vault_authority: Address,
    /// The vault that paid it.
    pub vault: Address,
}

impl View for WithdrawEvent {
    type V = WithdrawEventView;

    open spec fn view(&self) -> WithdrawEventView {
        WithdrawEventView {
            amount: self.amount as nat,
            vault_authority: self.vault_authority@,
            vault: self.vault@,
        }
    }
}

} // verus!
