//! A custodial vault on a ledger of balances.
//!
//! A vault holds value for one authority. Anyone may pay into an unlocked
//! vault; only the authority may take value out of it, and only while the
//! vault and the paying account each keep the reserve that the ledger asks of
//! them. The operations work on plain records of the accounts involved: they
//! decide, move the balances in those records and hand back the event to
//! publish. Reading the accounts and publishing the event is the caller's part.
//!
//! [`deposit`] and [`withdraw`] are the operations; `deposit_outcome` and
//! `withdraw_outcome` say what each comes to, and the module `guarantees` holds
//! what follows for every call.

pub mod address;
pub mod errors;
pub mod events;
pub mod guarantees;
pub mod instructions;
pub mod state;

pub use address::{Address, ADDRESS_BYTES};
pub use errors::{DepositError, WithdrawError};
pub use events::{DepositEvent, DepositEventView, WithdrawEvent, WithdrawEventView};
pub use instructions::deposit::{
    deposit, deposit_outcome, deposit_refusal, Deposit, DepositOutcome, DepositView,
};
pub use instructions::withdraw::{
    withdraw, withdraw_outcome, withdraw_refusal, Withdraw, WithdrawOutcome, WithdrawView,
};
pub use state::{Vault, VaultView, Wallet, WalletView, VAULT_SPACE, WALLET_SPACE};
