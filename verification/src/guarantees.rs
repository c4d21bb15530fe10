//! What holds of every deposit and every withdrawal.
//!
//! `deposit` and `withdraw` are stated by `deposit_outcome` and
//! `withdraw_outcome`. The lemmas here are proved of those two functions, for
//! all accounts, reserves and amounts.

use vstd::prelude::*;
use crate::errors::{DepositError, WithdrawError};
use crate::events::{DepositEventView, WithdrawEventView};
use crate::instructions::deposit::{deposit_outcome, DepositOutcome, DepositView};
use crate::instructions::withdraw::{withdraw_outcome, WithdrawOutcome, WithdrawView};

verus! {

/// The events that a deposit hands back for publication: one where it went
/// through, none where it was refused.
pub open spec fn deposit_events(outcome: DepositOutcome) -> Seq<DepositEventView> {
    match outcome.result {
        Ok(event) => seq![event],
        Err(_) => Seq::empty(),
    }
}

/// The events that a withdrawal hands back for publication: one where it went
/// through, none where it was refused.
pub open spec fn withdraw_events(outcome: WithdrawOutcome) -> Seq<WithdrawEventView> {
    match outcome.result {
        Ok(event) => seq![event],
        Err(_) => Seq::empty(),
    }
}

/// A deposit that goes through adds exactly `amount` to the vault and takes
/// exactly `amount` from the depositor, so the two balances together hold what
/// they held before.
pub proof fn lemma_deposit_conserves_value(pre: DepositView, reserve: nat, amount: nat)
    requires
        deposit_outcome(pre, reserve, amount).result is Ok,
    ensures
        deposit_outcome(pre, reserve, amount).accounts.vault.balance == pre.vault.balance + amount,
        deposit_outcome(pre, reserve, amount).accounts.user.balance == pre.user.balance - amount,
        deposit_outcome(pre, reserve, amount).accounts.user.balance + deposit_outcome(
            pre,
            reserve,
            amount,
        ).accounts.vault.balance == pre.user.balance + pre.vault.balance,
{
}

/// A withdrawal that goes through takes exactly `amount` from the vault and
/// adds exactly `amount` to the authority's account, so the two balances
/// together hold what they held before.
pub proof fn lemma_withdraw_conserves_value(pre: WithdrawView, reserve: nat, amount: nat)
    requires
        withdraw_outcome(pre, reserve, amount).result is Ok,
    ensures
        withdraw_outcome(pre, reserve, amount).accounts.vault.balance == pre.vault.balance - amount,
        withdraw_outcome(pre, reserve, amount).accounts.vault_authority.balance
            == pre.vault_authority.balance + amount,
        withdraw_outcome(pre, reserve, amount).accounts.vault_authority.balance + withdraw_outcome(
            pre,
            reserve,
            amount,
        ).accounts.vault.balance == pre.vault_authority.balance + pre.vault.balance,
{
}

/// A locked vault takes no deposit, whatever the amount, the reserve and the
/// balances, and the accounts stay as they were.
pub proof fn lemma_locked_vault_refuses_deposit(pre: DepositView, reserve: nat, amount: nat)
    requires
        pre.vault.locked,
    ensures
        deposit_outcome(pre, reserve, amount).result == Err::<DepositEventView, DepositError>(
            DepositError::VaultLocked,
        ),
        deposit_outcome(pre, reserve, amount).accounts == pre,
{
}

/// A locked vault pays out nothing, whoever asks and whatever the amount, the
/// reserve and the balances, and the accounts stay as they were.
pub proof fn lemma_locked_vault_refuses_withdraw(pre: WithdrawView, reserve: nat, amount: nat)
    requires
        pre.vault.locked,
    ensures
        withdraw_outcome(pre, reserve, amount).result == Err::<WithdrawEventView, WithdrawError>(
            WithdrawError::VaultLocked,
        ),
        withdraw_outcome(pre, reserve, amount).accounts == pre,
{
}

/// An unlocked vault pays out to nobody but its authority: for any other
/// caller the withdrawal is refused as unauthorized, however much the vault
/// holds, and the accounts stay as they were.
pub proof fn lemma_withdraw_needs_authority(pre: WithdrawView, reserve: nat, amount: nat)
    requires
        !pre.vault.locked,
        pre.vault_authority.address != pre.vault.authority,
    ensures
        withdraw_outcome(pre, reserve, amount).result == Err::<WithdrawEventView, WithdrawError>(
            WithdrawError::Unauthorized,
        ),
        withdraw_outcome(pre, reserve, amount).accounts == pre,
{
}

/// Whoever a withdrawal pays is the vault's authority.
pub proof fn lemma_withdraw_pays_authority_only(pre: WithdrawView, reserve: nat, amount: nat)
    requires
        withdraw_outcome(pre, reserve, amount).result is Ok,
    ensures
        pre.vault_authority.address == pre.vault.authority,
        !pre.vault.locked,
{
}

/// A deposit that goes through leaves the depositor at least its reserve, and
/// the vault no less than it held.
pub proof fn lemma_deposit_keeps_reserve(pre: DepositView, reserve: nat, amount: nat)
    requires
        deposit_outcome(pre, reserve, amount).result is Ok,
    ensures
        deposit_outcome(pre, reserve, amount).accounts.user.balance >= reserve,
        deposit_outcome(pre, reserve, amount).accounts.vault.balance >= pre.vault.balance,
{
}

/// A withdrawal that goes through leaves the vault at least its reserve, and
/// the authority's account no less than it held.
pub proof fn lemma_withdraw_keeps_reserve(pre: WithdrawView, reserve: nat, amount: nat)
    requires
        withdraw_outcome(pre, reserve, amount).result is Ok,
    ensures
        withdraw_outcome(pre, reserve, amount).accounts.vault.balance >= reserve,
        withdraw_outcome(pre, reserve, amount).accounts.vault_authority.balance
            >= pre.vault_authority.balance,
{
}

/// Into an unlocked vault, a deposit that would leave the depositor less than
/// its reserve is refused for want of balance, where amount and reserve can be
/// counted together.
pub proof fn lemma_deposit_below_reserve_refused(pre: DepositView, reserve: nat, amount: nat)
    requires
        !pre.vault.locked,
        amount + reserve <= u64::MAX,
        pre.user.balance - amount < reserve,
    ensures
        deposit_outcome(pre, reserve, amount).result == Err::<DepositEventView, DepositError>(
            DepositError::InsufficientBalance,
        ),
        deposit_outcome(pre, reserve, amount).accounts == pre,
{
}

/// From an unlocked vault, a withdrawal by the authority that would leave the
/// vault less than its reserve is refused for want of balance, where amount
/// and reserve can be counted together.
pub proof fn lemma_withdraw_below_reserve_refused(pre: WithdrawView, reserve: nat, amount: nat)
    requires
        !pre.vault.locked,
        pre.vault_authority.address == pre.vault.authority,
        amount + reserve <= u64::MAX,
        pre.vault.balance - amount < reserve,
    ensures
        withdraw_outcome(pre, reserve, amount).result == Err::<WithdrawEventView, WithdrawError>(
            WithdrawError::InsufficientBalance,
        ),
        withdraw_outcome(pre, reserve, amount).accounts == pre,
{
}

/// Into an unlocked vault, a deposit whose amount and reserve cannot be
/// counted together is refused as an overflow, and the accounts stay as they
/// were.
pub proof fn lemma_deposit_overflow_refused(pre: DepositView, reserve: nat, amount: nat)
    requires
        !pre.vault.locked,
        amount + reserve > u64::MAX,
    ensures
        deposit_outcome(pre, reserve, amount).result == Err::<DepositEventView, DepositError>(
            DepositError::Overflow,
        ),
        deposit_outcome(pre, reserve, amount).accounts == pre,
{
}

/// From an unlocked vault, a withdrawal by the authority whose amount and
/// reserve cannot be counted together is refused as an overflow, and the
/// accounts stay as they were.
pub proof fn lemma_withdraw_overflow_refused(pre: WithdrawView, reserve: nat, amount: nat)
    requires
        !pre.vault.locked,
        pre.vault_authority.address == pre.vault.authority,
        amount + reserve > u64::MAX,
    ensures
        withdraw_outcome(pre, reserve, amount).result == Err::<WithdrawEventView, WithdrawError>(
            WithdrawError::Overflow,
        ),
        withdraw_outcome(pre, reserve, amount).accounts == pre,
{
}

/// Into an unlocked vault, a deposit of the largest amount there is, under any
/// reserve but none, is refused as an overflow: the sum is never left to wrap.
/// The accounts stay as they were.
pub proof fn lemma_deposit_largest_amount_refused(pre: DepositView, reserve: nat)
    requires
        !pre.vault.locked,
        reserve > 0,
    ensures
        deposit_outcome(pre, reserve, u64::MAX as nat).result == Err::<
            DepositEventView,
            DepositError,
        >(DepositError::Overflow),
        deposit_outcome(pre, reserve, u64::MAX as nat).accounts == pre,
{
}

/// From an unlocked vault, a withdrawal by the authority of the largest amount
/// there is, under any reserve but none, is refused as an overflow: the sum is
/// never left to wrap. The accounts stay as they were.
pub proof fn lemma_withdraw_largest_amount_refused(pre: WithdrawView, reserve: nat)
    requires
        !pre.vault.locked,
        pre.vault_authority.address == pre.vault.authority,
        reserve > 0,
    ensures
        withdraw_outcome(pre, reserve, u64::MAX as nat).result == Err::<
            WithdrawEventView,
            WithdrawError,
        >(WithdrawError::Overflow),
        withdraw_outcome(pre, reserve, u64::MAX as nat).accounts == pre,
{
}

/// A deposit hands back an event exactly where it goes through, and then one
/// event, which names the amount, the depositor and the vault. A refused
/// deposit hands back none and leaves every balance as it was.
pub proof fn lemma_deposit_event_iff_success(pre: DepositView, reserve: nat, amount: nat)
    ensures
        deposit_outcome(pre, reserve, amount).result is Ok <==> deposit_events(
            deposit_outcome(pre, reserve, amount),
        ).len() > 0,
        deposit_outcome(pre, reserve, amount).result is Ok ==> deposit_events(
            deposit_outcome(pre, reserve, amount),
        ) == seq![
            DepositEventView { amount, user: pre.user.address, vault: pre.vault.address },
        ],
        deposit_outcome(pre, reserve, amount).result is Err ==> deposit_events(
            deposit_outcome(pre, reserve, amount),
        ).len() == 0 && deposit_outcome(pre, reserve, amount).accounts == pre,
{
}

/// A withdrawal hands back an event exactly where it goes through, and then
/// one event, which names the amount, the authority and the vault. A refused
/// withdrawal hands back none and leaves every balance as it was.
pub proof fn lemma_withdraw_event_iff_success(pre: WithdrawView, reserve: nat, amount: nat)
    ensures
        withdraw_outcome(pre, reserve, amount).result is Ok <==> withdraw_events(
            withdraw_outcome(pre, reserve, amount),
        ).len() > 0,
        withdraw_outcome(pre, reserve, amount).result is Ok ==> withdraw_events(
            withdraw_outcome(pre, reserve, amount),
        ) == seq![
            WithdrawEventView {
                amount,
                vault_authority: pre.vault_authority.address,
                vault: pre.vault.address,
            },
        ],
        withdraw_outcome(pre, reserve, amount).result is Err ==> withdraw_events(
            withdraw_outcome(pre, reserve, amount),
        ).len() == 0 && withdraw_outcome(pre, reserve, amount).accounts == pre,
{
}

/// No deposit changes who the vault's authority is, whether the vault is
/// locked, or the address of either account.
pub proof fn lemma_deposit_keeps_identities(pre: DepositView, reserve: nat, amount: nat)
    ensures
        deposit_outcome(pre, reserve, amount).accounts.vault.authority == pre.vault.authority,
        deposit_outcome(pre, reserve, amount).accounts.vault.locked == pre.vault.locked,
        deposit_outcome(pre, reserve, amount).accounts.vault.address == pre.vault.address,
        deposit_outcome(pre, reserve, amount).accounts.user.address == pre.user.address,
{
}

/// No withdrawal changes who the vault's authority is, whether the vault is
/// locked, or the address of either account.
pub proof fn lemma_withdraw_keeps_identities(pre: WithdrawView, reserve: nat, amount: nat)
    ensures
        withdraw_outcome(pre, reserve, amount).accounts.vault.authority == pre.vault.authority,
        withdraw_outcome(pre, reserve, amount).accounts.vault.locked == pre.vault.locked,
        withdraw_outcome(pre, reserve, amount).accounts.vault.address == pre.vault.address,
        withdraw_outcome(pre, reserve, amount).accounts.vault_authority.address
            == pre.vault_authority.address,
{
}

} // verus!
