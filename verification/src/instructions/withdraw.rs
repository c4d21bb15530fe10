//! Taking value out of a vault.

use vstd::prelude::*;
use crate::errors::WithdrawError;
use crate::events::{WithdrawEvent, WithdrawEventView};
use crate::state::{Vault, VaultView, Wallet, WalletView};

verus! {

/// What the accounts of a withdrawal are to the operation.
pub struct WithdrawView {
    /// The account of the caller, which receives.
    pub vault_authority: WalletView,
    /// The vault that pays.
    pub vault: VaultView,
}

/// The accounts of a withdrawal: the caller's own account and the vault.
///
/// The caller is whoever signed the request. Whether that is the vault's
/// authority is for the withdrawal to decide.
#[derive(Clone, Copy, Debug, PartialEq, Eq)]
pub struct Withdraw {
    /// The account of the caller, which receives.
    pub vault_authority: Wallet,
    /// The vault that pays.
    pub vault: Vault,
}

impl View for Withdraw {
    type V = WithdrawView;

    open spec fn view(&self) -> WithdrawView {
        WithdrawView { vault_authority: self.vault_authority@, vault: self.vault@ }
    }
}

impl Withdraw {
    /// Accounts with the same view are the same accounts: what `withdraw` says
    /// of the view, it says of the records.
    pub proof fn lemma_view_determines(self, other: Withdraw)
        requires
            self@ == other@,
        ensures
            self == other,
    {
        self.vault_authority.lemma_view_determines(other.vault_authority);
        self.vault.lemma_view_determines(other.vault);
    }
}

/// What a withdrawal comes to: the accounts as it leaves them, and either the
/// event to publish or the reason for the refusal.
pub struct WithdrawOutcome {
    /// The accounts after the call.
    pub accounts: WithdrawView,
    /// The event of a completed withdrawal, or why it was refused.
    pub result: Result<WithdrawEventView, WithdrawError>,
}

/// Why a withdrawal of `amount` is refused, the first reason that applies, or
/// `None` where it goes through. `reserve` is what the vault's account must
/// keep.
pub open spec fn withdraw_refusal(pre: WithdrawView, reserve: nat, amount: nat) -> Option<
    WithdrawError,
> {
    if pre.vault.locked {
        Some(WithdrawError::VaultLocked)
    } else if pre.vault_authority.address != pre.vault.authority {
        Some(WithdrawError::Unauthorized)
    } else if amount + reserve > u64::MAX {
        Some(WithdrawError::Overflow)
    } else if pre.vault.balance < amount + reserve {
        Some(WithdrawError::InsufficientBalance)
    } else if pre.vault_authority.balance + amount > u64::MAX {
        Some(WithdrawError::TransferFailed)
    } else {
        None
    }
}

/// What a withdrawal of `amount` comes to on the accounts `pre`.
///
/// A refused withdrawal leaves the accounts as they were. One that goes
/// through takes `amount` from the vault, adds it to the authority's account
/// and reports both addresses with the amount.
pub open spec fn withdraw_outcome(pre: WithdrawView, reserve: nat, amount: nat) -> WithdrawOutcome {
    match withdraw_refusal(pre, reserve, amount) {
        Some(error) => WithdrawOutcome { accounts: pre, result: Err(error) },
        None => WithdrawOutcome {
            accounts: WithdrawView {
                vault_authority: WalletView {
                    balance: pre.vault_authority.balance + amount,
                    ..pre.vault_authority
                },
                vault: VaultView { balance: (pre.vault.balance - amount) as nat, ..pre.vault },
            },
            result: Ok(
                WithdrawEventView {
                    amount,
                    vault_authority: pre.vault_authority.address,
                    vault: pre.vault.address,
                },
            ),
        },
    }
}

/// Pays `amount` out of the vault into the account of its authority.
///
/// `reserve` is the balance that the ledger asks a vault's account to keep (see
/// `VAULT_SPACE`). The withdrawal is refused, and nothing changes, where the
/// vault is locked, where the caller is not the vault's authority, where
/// `amount + reserve` cannot be counted, where the vault holds less than that
/// sum, or where the authority's account cannot hold `amount` more; the first
/// of these that applies is the error. Otherwise the vault is debited and the
/// authority credited in one step, and the event to publish is returned.
pub fn withdraw(ctx: &mut Withdraw, reserve: u64, amount: u64) -> (result: Result<
    WithdrawEvent,
    WithdrawError,
>)
    ensures
        final(ctx)@ == withdraw_outcome(old(ctx)@, reserve as nat, amount as nat).accounts,
        match result {
            Ok(event) => withdraw_outcome(old(ctx)@, reserve as nat, amount as nat).result == Ok::<
                WithdrawEventView,
                WithdrawError,
            >(event@),
            Err(error) => withdraw_outcome(old(ctx)@, reserve as nat, amount as nat).result
                == Err::<WithdrawEventView, WithdrawError>(error) && *final(ctx) == *old(ctx),
        },
{
    if ctx.vault.is_locked() {
        return Err(WithdrawError::VaultLocked);
    }
    let caller = ctx.vault_authority.address();
    if caller != ctx.vault.authority() {
        return Err(WithdrawError::Unauthorized);
    }
    let needed: u64 = match amount.checked_add(reserve) {
        Some(sum) => sum,
        None => {
            return Err(WithdrawError::Overflow);
        },
    };
    let held: u64 = ctx.vault.balance();
    if held < needed {
        return Err(WithdrawError::InsufficientBalance);
    }
    let credited: u64 = match ctx.vault_authority.balance().checked_add(amount) {
        Some(sum) => sum,
        None => {
            return Err(WithdrawError::TransferFailed);
        },
    };
    let event = WithdrawEvent { amount, vault_authority: caller, vault: ctx.vault.address() };
    ctx.vault.set_balance(held - amount);
    ctx.vault_authority.set_balance(credited);
    Ok(event)
}

} // verus!
