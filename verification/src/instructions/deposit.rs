//! Paying value into a vault.

use vstd::prelude::*;
use crate::errors::DepositError;
use crate::events::{DepositEvent, DepositEventView};
use crate::state::{Vault, VaultView, Wallet, WalletView};

verus! {

/// What the accounts of a deposit are to the operation.
pub struct DepositView {
    /// The account that pays.
    pub user: WalletView,
    /// The vault that receives.
    pub vault: VaultView,
}

/// The accounts of a deposit: the depositor's own account and the vault.
///
/// Any caller may be the depositor: a deposit asks nothing of who pays.
#[derive(Clone, Copy, Debug, PartialEq, Eq)]
pub struct Deposit {
    /// The account that pays.
    pub user: Wallet,
    /// The vault that receives.
    pub vault: Vault,
}

impl View for Deposit {
    type V = DepositView;

    open spec fn view(&self) -> DepositView {
        DepositView { user: self.user@, vault: self.vault@ }
    }
}

impl Deposit {
    /// Accounts with the same view are the same accounts: what `deposit` says
    /// of the view, it says of the records.
    pub proof fn lemma_view_determines(self, other: Deposit)
        requires
            self@ == other@,
        ensures
            self == other,
    {
        self.user.lemma_view_determines(other.user);
        self.vault.lemma_view_determines(other.vault);
    }
}

/// What a deposit comes to: the accounts as it leaves them, and either the
/// event to publish or the reason for the refusal.
pub struct DepositOutcome {
    /// The accounts after the call.
    pub accounts: DepositView,
    /// The event of a completed deposit, or why it was refused.
    pub result: Result<DepositEventView, DepositError>,
}

/// Why a deposit of `amount` is refused, the first reason that applies, or
/// `None` where it goes through. `reserve` is what the depositor's account must
/// keep.
pub open spec fn deposit_refusal(pre: DepositView, reserve: nat, amount: nat) -> Option<
    DepositError,
> {
    if pre.vault.locked {
        Some(DepositError::VaultLocked)
    } else if amount + reserve > u64::MAX {
        Some(DepositError::Overflow)
    } else if pre.user.balance < amount + reserve {
        Some(DepositError::InsufficientBalance)
    } else if pre.vault.balance + amount > u64::MAX {
        Some(DepositError::TransferFailed)
    } else {
        None
    }
}

/// What a deposit of `amount` comes to on the accounts `pre`.
///
/// A refused deposit leaves the accounts as they were. One that goes through
/// takes `amount` from the depositor, adds it to the vault and reports both
/// addresses with the amount.
pub open spec fn deposit_outcome(pre: DepositView, reserve: nat, amount: nat) -> DepositOutcome {
    match deposit_refusal(pre, reserve, amount) {
        Some(error) => DepositOutcome { accounts: pre, result: Err(error) },
        None => DepositOutcome {
            accounts: DepositView {
                user: WalletView { balance: (pre.user.balance - amount) as nat, ..pre.user },
                vault: VaultView { balance: pre.vault.balance + amount, ..pre.vault },
            },
            result: Ok(
                DepositEventView {
                    amount,
                    user: pre.user.address,
                    vault: pre.vault.address,
                },
            ),
        },
    }
}

/// Pays `amount` from the depositor's account into the vault.
///
/// `reserve` is the balance that the ledger asks a plain account to keep (see
/// `WALLET_SPACE`). The deposit is refused, and nothing changes, where the vault
/// is locked, where `amount + reserve` cannot be counted, where the depositor
/// holds less than that sum, or where the vault cannot hold `amount` more; the
/// first of these that applies is the error. Otherwise the value moves and the
/// event to publish is returned.
pub fn deposit(ctx: &mut Deposit, reserve: u64, amount: u64) -> (result: Result<
    DepositEvent,
    DepositError,
>)
    ensures
        final(ctx)@ == deposit_outcome(old(ctx)@, reserve as nat, amount as nat).accounts,
        match result {
            Ok(event) => deposit_outcome(old(ctx)@, reserve as nat, amount as nat).result == Ok::<
                DepositEventView,
                DepositError,
            >(event@),
            Err(error) => deposit_outcome(old(ctx)@, reserve as nat, amount as nat).result == Err::<
                DepositEventView,
                DepositError,
            >(error) && *final(ctx) == *old(ctx),
        },
{
    if ctx.vault.is_locked() {
        return Err(DepositError::VaultLocked);
    }
    let needed: u64 = match amount.checked_add(reserve) {
        Some(sum) => sum,
        None => {
            return Err(DepositError::Overflow);
        },
    };
    let held: u64 = ctx.user.balance();
    if held < needed {
        return Err(DepositError::InsufficientBalance);
    }
    let credited: u64 = match ctx.vault.balance().checked_add(amount) {
        Some(sum) => sum,
        None => {
            return Err(DepositError::TransferFailed);
        },
    };
    let event = DepositEvent { amount, user: ctx.user.address(), vault: ctx.vault.address() };
    ctx.user.set_balance(held - amount);
    ctx.vault.set_balance(credited);
    Ok(event)
}

} // verus!
