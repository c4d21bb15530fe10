//! The accounts that the operations work on, as plain records.

use vstd::prelude::*;
use crate::address::Address;

verus! {

/// Bytes of data that a plain account stores: none. The reserve that a paying
/// account must keep is the one the ledger asks for this footprint.
pub const WALLET_SPACE: usize = 0;

/// Bytes of data that a vault's account stores: a tag of 8 bytes, the
/// authority's address and the lock flag. The reserve that a vault must keep is
/// the one the ledger asks for this footprint.
pub const VAULT_SPACE: usize = 8 + 32 + 1;

/// What a plain account is to the operations.
pub struct WalletView {
    /// The bytes of the account's address.
    pub address: Seq<u8>,
    /// The value the account holds.
    pub balance: nat,
}

/// A plain account: the address of a caller and the value it holds.
#[derive(Clone, Copy, Debug, PartialEq, Eq)]
pub struct Wallet {
    address: Address,
    balance: u64,
}

impl View for Wallet {
    type V = WalletView;

    closed spec fn view(&self) -> WalletView {
        WalletView { address: self.address@, balance: self.balance as nat }
    }
}

impl Wallet {
    /// The account at `address` that holds `balance`.
    pub fn new(address: Address, balance: u64) -> (wallet: Wallet)
        ensures
            wallet@ == (WalletView { address: address@, balance: balance as nat }),
    {
        Wallet { address, balance }
    }

    /// The address of the account.
    pub fn address(&self) -> (address: Address)
        ensures
            address@ == self@.address,
    {
        self.address
    }

    /// The value the account holds.
    pub fn balance(&self) -> (balance: u64)
        ensures
            balance == self@.balance,
    {
        self.balance
    }

    /// Replaces the value the account holds and nothing else.
    pub(crate) fn set_balance(&mut self, balance: u64)
        ensures
            final(self)@ == (WalletView { balance: balance as nat, ..old(self)@ }),
    {
        self.balance = balance;
    }

    /// Accounts with the same view are the same account.
    pub proof fn lemma_view_determines(self, other: Wallet)
        requires
            self@ == other@,
        ensures
            self == other,
    {
        self.address.lemma_view_determines(other.address);
    }
}

/// What a vault is to the operations.
pub struct VaultView {
    /// The bytes of the vault's own address.
    pub address: Seq<u8>,
    /// The bytes of the address of the one party that may withdraw.
    pub authority: Seq<u8>,
    /// The value held in custody.
    pub balance: nat,
    /// Whether deposits and withdrawals are shut off.
    pub locked: bool,
}

/// A vault: value held in custody for one authority, behind a lock flag.
///
/// The authority is fixed when the record is made: nothing in this library
/// changes it, nor the vault's address or its lock flag.
#[derive(Clone, Copy, Debug, PartialEq, Eq)]
pub struct Vault {
    address: Address,
    authority: Address,
    balance: u64,
    locked: bool,
}

impl View for Vault {
    type V = VaultView;

    closed spec fn view(&self) -> VaultView {
        VaultView {
            address: self.address@,
            authority: self.authority@,
            balance: self.balance as nat,
            locked: self.locked,
        }
    }
}

impl Vault {
    /// The vault at `address` that holds `balance` for `authority`.
    pub fn new(address: Address, authority: Address, balance: u64, locked: bool) -> (vault: Vault)
        ensures
            vault@ == (VaultView {
                address: address@,
                authority: authority@,
                balance: balance as nat,
                locked,
            }),
    {
        Vault { address, authority, balance, locked }
    }

    /// The vault's own address.
    pub fn address(&self) -> (address: Address)
        ensures
            address@ == self@.address,
    {
        self.address
    }

    /// The address of the one party that may withdraw.
    pub fn authority(&self) -> (authority: Address)
        ensures
            authority@ == self@.authority,
    {
        self.authority
    }

    /// The value held in custody.
    pub fn balance(&self) -> (balance: u64)
        ensures
            balance == self@.balance,
    {
        self.balance
    }

    /// Whether deposits and withdrawals are shut off.
    pub fn is_locked(&self) -> (locked: bool)
        ensures
            locked == self@.locked,
    {
        self.locked
    }

    /// Replaces the value held in custody and nothing else.
    pub(crate) fn set_balance(&mut self, balance: u64)
        ensures
            final(self)@ == (VaultView { balance: balance as nat, ..old(self)@ }),
    {
        self.balance = balance;
    }

    /// Vaults with the same view are the same vault.
    pub proof fn lemma_view_determines(self, other: Vault)
        requires
            self@ == other@,
        ensures
            self == other,
    {
        self.address.lemma_view_determines(other.address);
        self.authority.lemma_view_determines(other.authority);
    }
}

} // verus!
