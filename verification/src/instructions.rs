//! The operations on a vault.

pub mod deposit;
pub mod withdraw;
