use ledger_core::account::AccountHandle;
use ledger_core::addr::{Address, PROGRAM_ID, SYSTEM_PROGRAM_ID};
use ledger_core::pda::derive_address;
use ledger_core::vault::{
    deposit, vault_pda_seeds, withdraw, Deposit, VaultError, Withdraw,
};
use ledger_core::LedgerError;

fn handle(address: Address, owner: Address, lamports: u64, data: Vec<u8>, signer: bool) -> AccountHandle {
    AccountHandle { address, owner, lamports, data, is_signer: signer }
}

const OWNER: Address = [3; 32];

fn vault_addr() -> (Address, u8) {
    let seeds = vault_pda_seeds(&OWNER);
    derive_address(&seeds, &PROGRAM_ID).unwrap()
}

fn vault_accounts(owner_lamports: u64, vault_lamports: u64, signer: bool) -> Vec<AccountHandle> {
    let (addr, _) = vault_addr();
    vec![
        handle(OWNER, SYSTEM_PROGRAM_ID, owner_lamports, Vec::new(), signer),
        handle(addr, SYSTEM_PROGRAM_ID, vault_lamports, Vec::new(), false),
        handle(SYSTEM_PROGRAM_ID, SYSTEM_PROGRAM_ID, 1, Vec::new(), false),
    ]
}

#[test]
fn deposit_then_withdraw_round_trip() {
    let accounts = vault_accounts(1000, 0, true);
    let payload = 400u64.to_le_bytes().to_vec();
    let mut dep = Deposit::try_from(&payload, &accounts).unwrap();
    dep.process().unwrap();
    assert_eq!(dep.accounts.owner.lamports, 600);
    assert_eq!(dep.accounts.vault.lamports, 400);

    let accounts = vec![
        dep.accounts.owner.clone(),
        dep.accounts.vault.clone(),
        handle(SYSTEM_PROGRAM_ID, SYSTEM_PROGRAM_ID, 1, Vec::new(), false),
    ];
    let mut wd = Withdraw::try_from(&accounts).unwrap();
    wd.process().unwrap();
    assert_eq!(wd.accounts.owner.lamports, 1000);
    assert_eq!(wd.accounts.vault.lamports, 0);
}

#[test]
fn deposit_requires_signature() {
    let accounts = vault_accounts(1000, 0, false);
    let payload = 400u64.to_le_bytes().to_vec();
    assert_eq!(Deposit::try_from(&payload, &accounts).err(), Some(LedgerError::NotSigner));
}

#[test]
fn deposit_requires_empty_vault() {
    let accounts = vault_accounts(1000, 7, true);
    let payload = 400u64.to_le_bytes().to_vec();
    assert_eq!(
        Deposit::try_from(&payload, &accounts).err(),
        Some(LedgerError::InvalidAccountData)
    );
}

#[test]
fn deposit_rejects_wrong_derived_address() {
    let mut accounts = vault_accounts(1000, 0, true);
    accounts[1].address[0] ^= 1;
    let payload = 400u64.to_le_bytes().to_vec();
    assert_eq!(Deposit::try_from(&payload, &accounts).err(), Some(LedgerError::InvalidAddress));
}

#[test]
fn deposit_rejects_zero_amount_and_odd_lengths() {
    let accounts = vault_accounts(1000, 0, true);
    let payload = 0u64.to_le_bytes().to_vec();
    assert_eq!(
        Deposit::try_from(&payload, &accounts).err(),
        Some(LedgerError::InvalidAccountData)
    );
    assert_eq!(
        Deposit::try_from(&[1, 2, 3], &accounts).err(),
        Some(LedgerError::InvalidInstructionData)
    );
}

#[test]
fn withdraw_requires_funded_vault() {
    let accounts = vault_accounts(1000, 0, true);
    assert_eq!(Withdraw::try_from(&accounts).err(), Some(LedgerError::InvalidAccountData));
}

#[test]
fn withdraw_keeps_the_found_bump() {
    let (_, bump) = vault_addr();
    let accounts = vault_accounts(1000, 50, true);
    let wd = Withdraw::try_from(&accounts).unwrap();
    assert_eq!(wd.accounts.bump, bump);
}

#[test]
fn rent_gated_deposit_and_withdraw() {
    let mut signer = handle([3; 32], SYSTEM_PROGRAM_ID, 1000, Vec::new(), true);
    let mut vault = handle([4; 32], SYSTEM_PROGRAM_ID, 0, Vec::new(), false);
    // The amount must clear the rent minimum strictly.
    assert_eq!(deposit(&mut signer, &mut vault, 100, 100), Err(VaultError::InvalidAmount));
    // A signer who cannot cover the amount is refused and nothing moves.
    assert_eq!(deposit(&mut signer, &mut vault, 2000, 100), Err(VaultError::InvalidAmount));
    assert_eq!(signer.lamports, 1000);
    assert_eq!(vault.lamports, 0);
    deposit(&mut signer, &mut vault, 101, 100).unwrap();
    assert_eq!(signer.lamports, 899);
    assert_eq!(vault.lamports, 101);
    // A second deposit cycle is refused while the vault is funded.
    assert_eq!(deposit(&mut signer, &mut vault, 200, 100), Err(VaultError::VaultAlreadyExists));
    withdraw(&mut signer, &mut vault).unwrap();
    assert_eq!(signer.lamports, 1000);
    assert_eq!(vault.lamports, 0);
    assert_eq!(withdraw(&mut signer, &mut vault), Err(VaultError::InvalidAmount));
}
