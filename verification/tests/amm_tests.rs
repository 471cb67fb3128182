use ledger_core::account::AccountHandle;
use ledger_core::addr::{Address, PROGRAM_ID, SYSTEM_PROGRAM_ID, TOKEN_PROGRAM_ID};
use ledger_core::amm_deposit::Deposit;
use ledger_core::amm_initialize::{config_pda_seeds, mint_lp_pda_seeds, Initialize};
use ledger_core::amm_swap::Swap;
use ledger_core::amm::{parse_amm_instruction, AmmInstruction};
use ledger_core::amm_withdraw::Withdraw;
use ledger_core::pda::derive_address;
use ledger_core::state::{Config, CONFIG_LEN};
use ledger_core::LedgerError;

fn handle(address: Address, owner: Address, lamports: u64, data: Vec<u8>, signer: bool) -> AccountHandle {
    AccountHandle { address, owner, lamports, data, is_signer: signer }
}

fn token_data(mint: &Address, owner: &Address, amount: u64) -> Vec<u8> {
    let mut d = vec![0u8; 165];
    d[0..32].copy_from_slice(mint);
    d[32..64].copy_from_slice(owner);
    d[64..72].copy_from_slice(&amount.to_le_bytes());
    d
}

fn token_amount(a: &AccountHandle) -> u64 {
    u64::from_le_bytes(a.data[64..72].try_into().unwrap())
}

fn mint_data(supply: u64) -> Vec<u8> {
    let mut d = vec![0u8; 82];
    d[36..44].copy_from_slice(&supply.to_le_bytes());
    d
}

fn mint_supply(a: &AccountHandle) -> u64 {
    u64::from_le_bytes(a.data[36..44].try_into().unwrap())
}

fn config_data(state: u8, fee: u16) -> Vec<u8> {
    let c = Config {
        state,
        seed: 42,
        authority: [0; 32],
        mint_x: [1; 32],
        mint_y: [2; 32],
        fee,
        config_bump: 0xfe,
    };
    c.to_bytes()
}

fn deposit_payload(amount: u64, max_x: u64, max_y: u64, expiration: i64) -> Vec<u8> {
    let mut p = Vec::new();
    p.extend_from_slice(&amount.to_le_bytes());
    p.extend_from_slice(&max_x.to_le_bytes());
    p.extend_from_slice(&max_y.to_le_bytes());
    p.extend_from_slice(&expiration.to_le_bytes());
    p
}

fn pool_accounts(lp_supply: u64, vx: u64, vy: u64, user_x: u64, user_y: u64, user_lp: u64) -> Vec<AccountHandle> {
    let mint_x = [1u8; 32];
    let mint_y = [2u8; 32];
    let user_addr = [5u8; 32];
    vec![
        handle(user_addr, SYSTEM_PROGRAM_ID, 1000, Vec::new(), true),
        handle([6; 32], TOKEN_PROGRAM_ID, 1, mint_data(lp_supply), false),
        handle([7; 32], TOKEN_PROGRAM_ID, 1, token_data(&mint_x, &[9; 32], vx), false),
        handle([8; 32], TOKEN_PROGRAM_ID, 1, token_data(&mint_y, &[9; 32], vy), false),
        handle([10; 32], TOKEN_PROGRAM_ID, 1, token_data(&mint_x, &user_addr, user_x), false),
        handle([11; 32], TOKEN_PROGRAM_ID, 1, token_data(&mint_y, &user_addr, user_y), false),
        handle([12; 32], TOKEN_PROGRAM_ID, 1, token_data(&[6; 32], &user_addr, user_lp), false),
        handle([9; 32], PROGRAM_ID, 1, config_data(1, 100), false),
        handle(TOKEN_PROGRAM_ID, SYSTEM_PROGRAM_ID, 1, Vec::new(), false),
    ]
}

#[test]
fn bootstrap_deposit_sets_exact_balances() {
    let accounts = pool_accounts(0, 0, 0, 5000, 5000, 0);
    let payload = deposit_payload(500, 1000, 2000, 100);
    let mut ix = Deposit::try_from(&payload, &accounts).unwrap();
    ix.process(50).unwrap();
    assert_eq!(token_amount(&ix.accounts.vault_x), 1000);
    assert_eq!(token_amount(&ix.accounts.vault_y), 2000);
    assert_eq!(token_amount(&ix.accounts.user_x_ata), 4000);
    assert_eq!(token_amount(&ix.accounts.user_y_ata), 3000);
    assert_eq!(token_amount(&ix.accounts.user_lp_ata), 500);
    assert_eq!(mint_supply(&ix.accounts.mint_lp), 500);
}

#[test]
fn proportional_deposit_respects_ceiling() {
    // supply 100, vaults (1000, 2000); asking for 50 shares needs
    // (500, 1000); ceilings below that must fail.
    let accounts = pool_accounts(100, 1000, 2000, 5000, 5000, 0);
    let payload = deposit_payload(50, 499, 2000, 100);
    let mut ix = Deposit::try_from(&payload, &accounts).unwrap();
    assert_eq!(ix.process(50), Err(LedgerError::InvalidArgument));

    let accounts = pool_accounts(100, 1000, 2000, 5000, 5000, 0);
    let payload = deposit_payload(50, 500, 1000, 100);
    let mut ix = Deposit::try_from(&payload, &accounts).unwrap();
    ix.process(50).unwrap();
    assert_eq!(token_amount(&ix.accounts.vault_x), 1500);
    assert_eq!(token_amount(&ix.accounts.vault_y), 3000);
    assert_eq!(mint_supply(&ix.accounts.mint_lp), 150);
}

#[test]
fn expired_deposit_fails_and_changes_nothing() {
    let accounts = pool_accounts(0, 0, 0, 5000, 5000, 0);
    let payload = deposit_payload(500, 1000, 2000, 100);
    let mut ix = Deposit::try_from(&payload, &accounts).unwrap();
    let vx_before = ix.accounts.vault_x.data.clone();
    assert_eq!(ix.process(101), Err(LedgerError::InvalidArgument));
    assert_eq!(ix.accounts.vault_x.data, vx_before);
    assert_eq!(token_amount(&ix.accounts.user_x_ata), 5000);
}

#[test]
fn deposit_requires_initialized_state() {
    let mut accounts = pool_accounts(0, 0, 0, 5000, 5000, 0);
    accounts[7].data = config_data(2, 100);
    let payload = deposit_payload(500, 1000, 2000, 100);
    let mut ix = Deposit::try_from(&payload, &accounts).unwrap();
    assert_eq!(ix.process(50), Err(LedgerError::InvalidAccountData));
}

#[test]
fn deposit_needs_nine_accounts() {
    let accounts = vec![handle([5; 32], SYSTEM_PROGRAM_ID, 0, Vec::new(), true)];
    let payload = deposit_payload(1, 1, 1, 1);
    assert_eq!(
        Deposit::try_from(&payload, &accounts).err(),
        Some(LedgerError::NotEnoughAccountKeys)
    );
}

#[test]
fn deposit_rejects_short_payload() {
    let accounts = pool_accounts(0, 0, 0, 1, 1, 0);
    let payload = vec![0u8; 31];
    assert_eq!(
        Deposit::try_from(&payload, &accounts).err(),
        Some(LedgerError::InvalidInstructionData)
    );
}

#[test]
fn full_withdraw_drains_vaults_exactly() {
    let accounts = pool_accounts(500, 1000, 2000, 0, 0, 500);
    let payload = deposit_payload(500, 0, 0, 100);
    let mut ix = Withdraw::try_from(&payload, &accounts).unwrap();
    ix.process(50).unwrap();
    assert_eq!(token_amount(&ix.accounts.vault_x), 0);
    assert_eq!(token_amount(&ix.accounts.vault_y), 0);
    assert_eq!(token_amount(&ix.accounts.user_x_ata), 1000);
    assert_eq!(token_amount(&ix.accounts.user_y_ata), 2000);
    assert_eq!(token_amount(&ix.accounts.user_lp_ata), 0);
    assert_eq!(mint_supply(&ix.accounts.mint_lp), 0);
}

#[test]
fn partial_withdraw_is_proportional() {
    // supply 100, vaults (1000, 2000); 50 shares pay (500, 1000).
    let accounts = pool_accounts(100, 1000, 2000, 0, 0, 50);
    let payload = deposit_payload(50, 500, 1000, 100);
    let mut ix = Withdraw::try_from(&payload, &accounts).unwrap();
    ix.process(50).unwrap();
    assert_eq!(token_amount(&ix.accounts.vault_x), 500);
    assert_eq!(token_amount(&ix.accounts.vault_y), 1000);
    assert_eq!(token_amount(&ix.accounts.user_x_ata), 500);
    assert_eq!(token_amount(&ix.accounts.user_y_ata), 1000);
}

#[test]
fn withdraw_below_floor_fails() {
    let accounts = pool_accounts(100, 1000, 2000, 0, 0, 50);
    let payload = deposit_payload(50, 501, 1000, 100);
    let mut ix = Withdraw::try_from(&payload, &accounts).unwrap();
    assert_eq!(ix.process(50), Err(LedgerError::InvalidArgument));
    assert_eq!(token_amount(&ix.accounts.vault_x), 1000);
}

#[test]
fn withdraw_allowed_in_withdraw_only_state_but_not_disabled() {
    let mut accounts = pool_accounts(500, 1000, 2000, 0, 0, 500);
    accounts[7].data = config_data(3, 100);
    let payload = deposit_payload(500, 0, 0, 100);
    let mut ix = Withdraw::try_from(&payload, &accounts).unwrap();
    ix.process(50).unwrap();

    let mut accounts = pool_accounts(500, 1000, 2000, 0, 0, 500);
    accounts[7].data = config_data(2, 100);
    let mut ix = Withdraw::try_from(&payload, &accounts).unwrap();
    assert_eq!(ix.process(50), Err(LedgerError::InvalidAccountData));
}

#[test]
fn expired_withdraw_fails() {
    let accounts = pool_accounts(500, 1000, 2000, 0, 0, 500);
    let payload = deposit_payload(500, 0, 0, 100);
    let mut ix = Withdraw::try_from(&payload, &accounts).unwrap();
    assert_eq!(ix.process(101), Err(LedgerError::InvalidArgument));
    assert_eq!(token_amount(&ix.accounts.vault_x), 1000);
}

#[test]
fn amm_payload_routing() {
    let mut wire = vec![1u8];
    wire.extend_from_slice(&deposit_payload(500, 1000, 2000, 100));
    match parse_amm_instruction(&wire).unwrap() {
        AmmInstruction::Deposit(d) => {
            assert_eq!(d.amount, 500);
            assert_eq!(d.max_x, 1000);
            assert_eq!(d.max_y, 2000);
            assert_eq!(d.expiration, 100);
        }
        _ => panic!("routed to the wrong instruction"),
    }
    let mut wd = vec![2u8];
    wd.extend_from_slice(&deposit_payload(1, 2, 3, 4));
    assert!(matches!(parse_amm_instruction(&wd).unwrap(), AmmInstruction::Withdraw(_)));
    let mut sw = vec![3u8, 1];
    sw.extend_from_slice(&7u64.to_le_bytes());
    sw.extend_from_slice(&1u64.to_le_bytes());
    sw.extend_from_slice(&9i64.to_le_bytes());
    match parse_amm_instruction(&sw).unwrap() {
        AmmInstruction::Swap(d) => {
            assert!(d.is_x);
            assert_eq!(d.amount, 7);
            assert_eq!(d.min, 1);
            assert_eq!(d.expiration, 9);
        }
        _ => panic!("routed to the wrong instruction"),
    }
    assert_eq!(parse_amm_instruction(&[]).err(), Some(LedgerError::InvalidInstructionData));
    assert_eq!(parse_amm_instruction(&[7]).err(), Some(LedgerError::InvalidInstructionData));
}

fn swap_accounts(vx: u64, vy: u64, user_x: u64, user_y: u64) -> Vec<AccountHandle> {
    let mint_x = [1u8; 32];
    let mint_y = [2u8; 32];
    let user_addr = [5u8; 32];
    vec![
        handle(user_addr, SYSTEM_PROGRAM_ID, 1000, Vec::new(), true),
        handle([10; 32], TOKEN_PROGRAM_ID, 1, token_data(&mint_x, &user_addr, user_x), false),
        handle([11; 32], TOKEN_PROGRAM_ID, 1, token_data(&mint_y, &user_addr, user_y), false),
        handle([7; 32], TOKEN_PROGRAM_ID, 1, token_data(&mint_x, &[9; 32], vx), false),
        handle([8; 32], TOKEN_PROGRAM_ID, 1, token_data(&mint_y, &[9; 32], vy), false),
        handle([9; 32], PROGRAM_ID, 1, config_data(1, 100), false),
        handle(TOKEN_PROGRAM_ID, SYSTEM_PROGRAM_ID, 1, Vec::new(), false),
    ]
}

fn swap_payload(is_x: bool, amount: u64, min: u64, expiration: i64) -> Vec<u8> {
    let mut p = Vec::new();
    p.push(if is_x { 1 } else { 0 });
    p.extend_from_slice(&amount.to_le_bytes());
    p.extend_from_slice(&min.to_le_bytes());
    p.extend_from_slice(&expiration.to_le_bytes());
    p
}

#[test]
fn swap_pays_constant_product_output() {
    // Fee 100 bp on 100 in: 99 kept; out = 1000 * 99 / 1099 = 90.
    let accounts = swap_accounts(1000, 1000, 500, 0);
    let payload = swap_payload(true, 100, 0, 100);
    let mut ix = Swap::try_from(&payload, &accounts).unwrap();
    ix.process(50).unwrap();
    assert_eq!(token_amount(&ix.accounts.vault_x), 1100);
    assert_eq!(token_amount(&ix.accounts.vault_y), 910);
    assert_eq!(token_amount(&ix.accounts.user_x_ata), 400);
    assert_eq!(token_amount(&ix.accounts.user_y_ata), 90);
}

#[test]
fn swap_below_min_fails_and_vaults_are_unchanged() {
    let accounts = swap_accounts(1000, 1000, 500, 0);
    let payload = swap_payload(true, 100, 91, 100);
    let mut ix = Swap::try_from(&payload, &accounts).unwrap();
    let vx = ix.accounts.vault_x.data.clone();
    let vy = ix.accounts.vault_y.data.clone();
    assert_eq!(ix.process(50), Err(LedgerError::InvalidArgument));
    assert_eq!(ix.accounts.vault_x.data, vx);
    assert_eq!(ix.accounts.vault_y.data, vy);
}

#[test]
fn expired_swap_fails() {
    let accounts = swap_accounts(1000, 1000, 500, 0);
    let payload = swap_payload(true, 100, 0, 100);
    let mut ix = Swap::try_from(&payload, &accounts).unwrap();
    assert_eq!(ix.process(101), Err(LedgerError::InvalidArgument));
}

#[test]
fn swap_other_direction() {
    let accounts = swap_accounts(1000, 1000, 0, 500);
    let payload = swap_payload(false, 100, 0, 100);
    let mut ix = Swap::try_from(&payload, &accounts).unwrap();
    ix.process(50).unwrap();
    assert_eq!(token_amount(&ix.accounts.vault_y), 1100);
    assert_eq!(token_amount(&ix.accounts.vault_x), 910);
}

fn initialize_payload(seed: u64, fee: u16, mint_x: &Address, mint_y: &Address, config_bump: u8, lp_bump: u8, authority: &Address) -> Vec<u8> {
    let mut p = Vec::new();
    p.extend_from_slice(&seed.to_le_bytes());
    p.extend_from_slice(&fee.to_le_bytes());
    p.extend_from_slice(mint_x);
    p.extend_from_slice(mint_y);
    p.push(config_bump);
    p.push(lp_bump);
    p.extend_from_slice(authority);
    p
}

#[test]
fn initialize_then_bootstrap_deposit() {
    let mint_x = [1u8; 32];
    let mint_y = [2u8; 32];
    let seeds = config_pda_seeds(77, &mint_x, &mint_y);
    let (config_addr, config_bump) = derive_address(&seeds, &PROGRAM_ID).unwrap();
    let lp_seeds = mint_lp_pda_seeds(&config_addr);
    let (lp_addr, lp_bump) = derive_address(&lp_seeds, &PROGRAM_ID).unwrap();
    let payload = initialize_payload(77, 250, &mint_x, &mint_y, config_bump, lp_bump, &[4; 32]);
    let accounts = vec![
        handle([5; 32], SYSTEM_PROGRAM_ID, 1000, Vec::new(), true),
        handle(lp_addr, SYSTEM_PROGRAM_ID, 0, Vec::new(), false),
        handle(config_addr, SYSTEM_PROGRAM_ID, 0, Vec::new(), false),
        handle(TOKEN_PROGRAM_ID, SYSTEM_PROGRAM_ID, 1, Vec::new(), false),
        handle(SYSTEM_PROGRAM_ID, SYSTEM_PROGRAM_ID, 1, Vec::new(), false),
    ];
    let mut ix = Initialize::try_from(&payload, &accounts).unwrap();
    ix.process(30, 20).unwrap();
    assert_eq!(ix.accounts.initializer.lamports, 950);
    assert_eq!(ix.accounts.config.owner, PROGRAM_ID);
    assert_eq!(ix.accounts.config.lamports, 30);
    assert_eq!(ix.accounts.config.data.len(), CONFIG_LEN);
    let cfg = Config::from_bytes(&ix.accounts.config.data).unwrap();
    assert_eq!(cfg.state, 1);
    assert_eq!(cfg.seed, 77);
    assert_eq!(cfg.fee, 250);
    assert_eq!(cfg.mint_x, mint_x);
    assert_eq!(cfg.mint_y, mint_y);
    assert_eq!(cfg.config_bump, config_bump);
    assert_eq!(ix.accounts.mint_lp.owner, TOKEN_PROGRAM_ID);
    assert_eq!(mint_supply(&ix.accounts.mint_lp), 0);
    assert_eq!(ix.accounts.mint_lp.data[44], 6);
    assert_eq!(&ix.accounts.mint_lp.data[4..36], &config_addr);

    // The freshly created pool accepts a bootstrap deposit.
    let user_addr = [5u8; 32];
    let deposit_accounts = vec![
        handle(user_addr, SYSTEM_PROGRAM_ID, 1000, Vec::new(), true),
        ix.accounts.mint_lp.clone(),
        handle([7; 32], TOKEN_PROGRAM_ID, 1, token_data(&mint_x, &config_addr, 0), false),
        handle([8; 32], TOKEN_PROGRAM_ID, 1, token_data(&mint_y, &config_addr, 0), false),
        handle([10; 32], TOKEN_PROGRAM_ID, 1, token_data(&mint_x, &user_addr, 5000), false),
        handle([11; 32], TOKEN_PROGRAM_ID, 1, token_data(&mint_y, &user_addr, 5000), false),
        handle([12; 32], TOKEN_PROGRAM_ID, 1, token_data(&lp_addr, &user_addr, 0), false),
        ix.accounts.config.clone(),
        handle(TOKEN_PROGRAM_ID, SYSTEM_PROGRAM_ID, 1, Vec::new(), false),
    ];
    let dep_payload = deposit_payload(500, 1000, 2000, 100);
    let mut dep = Deposit::try_from(&dep_payload, &deposit_accounts).unwrap();
    dep.process(50).unwrap();
    assert_eq!(token_amount(&dep.accounts.vault_x), 1000);
    assert_eq!(token_amount(&dep.accounts.vault_y), 2000);
    assert_eq!(mint_supply(&dep.accounts.mint_lp), 500);
}

#[test]
fn initialize_rejects_large_fee() {
    let accounts = vec![
        handle([5; 32], SYSTEM_PROGRAM_ID, 1000, Vec::new(), true),
        handle([6; 32], SYSTEM_PROGRAM_ID, 0, Vec::new(), false),
        handle([7; 32], SYSTEM_PROGRAM_ID, 0, Vec::new(), false),
        handle(TOKEN_PROGRAM_ID, SYSTEM_PROGRAM_ID, 1, Vec::new(), false),
        handle(SYSTEM_PROGRAM_ID, SYSTEM_PROGRAM_ID, 1, Vec::new(), false),
    ];
    let payload = initialize_payload(77, 10000, &[1; 32], &[2; 32], 0xfe, 0xfd, &[4; 32]);
    let mut ix = Initialize::try_from(&payload, &accounts).unwrap();
    assert_eq!(ix.process(30, 20), Err(LedgerError::InvalidAccountData));
}

#[test]
fn set_fee_rejects_ten_thousand() {
    let mut c = Config::from_bytes(&config_data(1, 100)).unwrap();
    assert_eq!(c.set_fee(10000), Err(LedgerError::InvalidAccountData));
    assert_eq!(c.set_fee(u16::MAX), Err(LedgerError::InvalidAccountData));
    assert!(c.set_fee(9999).is_ok());
    assert_eq!(c.fee, 9999);
    assert_eq!(
        c.set_inner(1, [0; 32], [1; 32], [2; 32], 10000, 0xfe),
        Err(LedgerError::InvalidAccountData)
    );
}

#[test]
fn set_state_admits_exactly_the_lifecycle_targets() {
    let mut c = Config::from_bytes(&config_data(1, 100)).unwrap();
    assert!(c.set_state(2).is_ok());
    assert_eq!(c.state, 2);
    assert!(c.set_state(3).is_ok());
    assert_eq!(c.state, 3);
    assert_eq!(c.set_state(0), Err(LedgerError::InvalidAccountData));
    assert_eq!(c.set_state(4), Err(LedgerError::InvalidAccountData));
    assert_eq!(c.state, 3);
}
