use on_chain_vault::{
    deposit, withdraw, Address, Deposit, DepositError, DepositEvent, Vault, Wallet, Withdraw,
    WithdrawError, WithdrawEvent,
};

const NEAR_TOP: [u64; 8] = [0, 1, 2, 3, u64::MAX - 2, u64::MAX - 1, u64::MAX, 1 << 63];

fn tagged(tag: u8) -> Address {
    Address::new([tag; 32])
}

#[test]
fn deposit_agrees_with_the_rule_on_small_and_large_numbers() {
    for locked in [false, true] {
        for held in NEAR_TOP {
            for custody in NEAR_TOP {
                for reserve in NEAR_TOP {
                    for amount in NEAR_TOP {
                        let before = Deposit {
                            user: Wallet::new(tagged(1), held),
                            vault: Vault::new(tagged(9), tagged(2), custody, locked),
                        };
                        let mut ctx = before;
                        let result = deposit(&mut ctx, reserve, amount);
                        let needed = amount as u128 + reserve as u128;
                        let expected = if locked {
                            Err(DepositError::VaultLocked)
                        } else if needed > u64::MAX as u128 {
                            Err(DepositError::Overflow)
                        } else if (held as u128) < needed {
                            Err(DepositError::InsufficientBalance)
                        } else if custody as u128 + amount as u128 > u64::MAX as u128 {
                            Err(DepositError::TransferFailed)
                        } else {
                            Ok(DepositEvent { amount, user: tagged(1), vault: tagged(9) })
                        };
                        assert_eq!(result, expected);
                        if result.is_ok() {
                            assert_eq!(ctx.user.balance(), held - amount);
                            assert_eq!(ctx.vault.balance(), custody + amount);
                            assert!(ctx.user.balance() >= reserve);
                            assert_eq!(ctx.user.address(), tagged(1));
                            assert_eq!(ctx.vault.address(), tagged(9));
                            assert_eq!(ctx.vault.authority(), tagged(2));
                            assert_eq!(ctx.vault.is_locked(), locked);
                        } else {
                            assert_eq!(ctx, before);
                        }
                    }
                }
            }
        }
    }
}

#[test]
fn withdraw_agrees_with_the_rule_on_small_and_large_numbers() {
    for locked in [false, true] {
        for caller in [2u8, 3] {
            for held in NEAR_TOP {
                for custody in NEAR_TOP {
                    for reserve in NEAR_TOP {
                        for amount in NEAR_TOP {
                            let before = Withdraw {
                                vault_authority: Wallet::new(tagged(caller), held),
                                vault: Vault::new(tagged(9), tagged(2), custody, locked),
                            };
                            let mut ctx = before;
                            let result = withdraw(&mut ctx, reserve, amount);
                            let needed = amount as u128 + reserve as u128;
                            let expected = if locked {
                                Err(WithdrawError::VaultLocked)
                            } else if caller != 2 {
                                Err(WithdrawError::Unauthorized)
                            } else if needed > u64::MAX as u128 {
                                Err(WithdrawError::Overflow)
                            } else if (custody as u128) < needed {
                                Err(WithdrawError::InsufficientBalance)
                            } else if held as u128 + amount as u128 > u64::MAX as u128 {
                                Err(WithdrawError::TransferFailed)
                            } else {
                                Ok(WithdrawEvent {
                                    amount,
                                    vault_authority: tagged(2),
                                    vault: tagged(9),
                                })
                            };
                            assert_eq!(result, expected);
                            if result.is_ok() {
                                assert_eq!(ctx.vault.balance(), custody - amount);
                                assert_eq!(ctx.vault_authority.balance(), held + amount);
                                assert!(ctx.vault.balance() >= reserve);
                                assert_eq!(ctx.vault_authority.address(), tagged(2));
                                assert_eq!(ctx.vault.address(), tagged(9));
                                assert_eq!(ctx.vault.authority(), tagged(2));
                                assert_eq!(ctx.vault.is_locked(), locked);
                            } else {
                                assert_eq!(ctx, before);
                            }
                        }
                    }
                }
            }
        }
    }
}
