use on_chain_vault::{Address, Vault, Wallet, VAULT_SPACE, WALLET_SPACE};

#[test]
fn address_keeps_its_bytes() {
    let mut bytes = [0u8; 32];
    for (i, byte) in bytes.iter_mut().enumerate() {
        *byte = (i * 7 + 1) as u8;
    }
    assert_eq!(Address::new(bytes).to_bytes(), bytes);
}

#[test]
fn address_equal_bytes_are_equal() {
    assert_eq!(Address::new([4; 32]), Address::new([4; 32]));
    assert!(Address::new([0; 32]) == Address::new([0; 32]));
    assert!(Address::new([255; 32]) == Address::new([255; 32]));
}

#[test]
fn address_differs_on_any_one_byte() {
    let base = Address::new([4; 32]);
    for i in 0..32 {
        let mut bytes = [4u8; 32];
        bytes[i] = 5;
        assert!(Address::new(bytes) != base, "byte {}", i);
        assert!(base != Address::new(bytes), "byte {}", i);
    }
}

#[test]
fn wallet_keeps_what_it_was_made_of() {
    let wallet = Wallet::new(Address::new([1; 32]), 890_880);
    assert_eq!(wallet.address(), Address::new([1; 32]));
    assert_eq!(wallet.balance(), 890_880);
}

#[test]
fn vault_keeps_what_it_was_made_of() {
    let vault = Vault::new(Address::new([9; 32]), Address::new([2; 32]), 77, true);
    assert_eq!(vault.address(), Address::new([9; 32]));
    assert_eq!(vault.authority(), Address::new([2; 32]));
    assert_eq!(vault.balance(), 77);
    assert!(vault.is_locked());
    let open = Vault::new(Address::new([9; 32]), Address::new([2; 32]), u64::MAX, false);
    assert_eq!(open.balance(), u64::MAX);
    assert!(!open.is_locked());
}

#[test]
fn footprints_differ_between_wallet_and_vault() {
    assert_eq!(WALLET_SPACE, 0);
    assert_eq!(VAULT_SPACE, 41);
}
