use ledger_core::account::AccountHandle;
use ledger_core::addr::{
    Address, ASSOCIATED_TOKEN_PROGRAM_ID, PROGRAM_ID, SYSTEM_PROGRAM_ID, TOKEN_PROGRAM_ID,
};
use ledger_core::checks::AssociatedTokenAccount;
use ledger_core::escrow::{escrow_pda_seeds, parse_escrow_instruction, EscrowInstruction};
use ledger_core::escrow_make::Make;
use ledger_core::escrow_refund::Refund;
use ledger_core::escrow_take::Take;
use ledger_core::pda::{derive_address, replay_derivation};
use ledger_core::LedgerError;

fn handle(address: Address, owner: Address, lamports: u64, data: Vec<u8>, signer: bool) -> AccountHandle {
    AccountHandle { address, owner, lamports, data, is_signer: signer }
}

fn token_data(mint: &Address, owner: &Address, amount: u64) -> Vec<u8> {
    let mut d = vec![0u8; 165];
    d[0..32].copy_from_slice(mint);
    d[32..64].copy_from_slice(owner);
    d[64..72].copy_from_slice(&amount.to_le_bytes());
    d
}

fn token_amount(a: &AccountHandle) -> u64 {
    u64::from_le_bytes(a.data[64..72].try_into().unwrap())
}

fn make_payload(seed: u64, receive: u64, amount: u64) -> Vec<u8> {
    let mut p = Vec::new();
    p.extend_from_slice(&seed.to_le_bytes());
    p.extend_from_slice(&receive.to_le_bytes());
    p.extend_from_slice(&amount.to_le_bytes());
    p
}

const MAKER: Address = [3; 32];
const TAKER: Address = [4; 32];
const MINT_A: Address = [1; 32];
const MINT_B: Address = [2; 32];

/// Runs Make(seed=7, amount=100 of A, receive=50 of B) and returns the
/// settled escrow and vault handles plus the maker after payment.
fn run_make() -> Make {
    let seeds = escrow_pda_seeds(&MAKER, 7);
    let (escrow_addr, _bump) = derive_address(&seeds, &PROGRAM_ID).unwrap();
    let (vault_addr, _) =
        AssociatedTokenAccount::derive(&escrow_addr, &MINT_A, &TOKEN_PROGRAM_ID).unwrap();
    let accounts = vec![
        handle(MAKER, SYSTEM_PROGRAM_ID, 1000, Vec::new(), true),
        handle(escrow_addr, SYSTEM_PROGRAM_ID, 0, Vec::new(), false),
        handle(MINT_A, TOKEN_PROGRAM_ID, 1, vec![0; 82], false),
        handle(MINT_B, TOKEN_PROGRAM_ID, 1, vec![0; 82], false),
        handle([20; 32], TOKEN_PROGRAM_ID, 1, token_data(&MINT_A, &MAKER, 100), false),
        handle(vault_addr, SYSTEM_PROGRAM_ID, 0, Vec::new(), false),
        handle(SYSTEM_PROGRAM_ID, SYSTEM_PROGRAM_ID, 1, Vec::new(), false),
        handle(TOKEN_PROGRAM_ID, SYSTEM_PROGRAM_ID, 1, Vec::new(), false),
    ];
    let payload = make_payload(7, 50, 100);
    let mut ix = Make::try_from(&payload, &accounts).unwrap();
    ix.process(10, 5).unwrap();
    ix
}

#[test]
fn make_locks_the_offer_in_the_vault() {
    let ix = run_make();
    assert_eq!(ix.accounts.maker.lamports, 985);
    assert_eq!(ix.accounts.escrow.owner, PROGRAM_ID);
    assert_eq!(ix.accounts.escrow.data.len(), 113);
    assert_eq!(token_amount(&ix.accounts.vault), 100);
    assert_eq!(token_amount(&ix.accounts.maker_ata_a), 0);
}

#[test]
fn make_rejects_zero_amount() {
    let accounts = vec![
        handle(MAKER, SYSTEM_PROGRAM_ID, 1000, Vec::new(), true),
        handle([9; 32], SYSTEM_PROGRAM_ID, 0, Vec::new(), false),
        handle(MINT_A, TOKEN_PROGRAM_ID, 1, vec![0; 82], false),
        handle(MINT_B, TOKEN_PROGRAM_ID, 1, vec![0; 82], false),
        handle([20; 32], TOKEN_PROGRAM_ID, 1, token_data(&MINT_A, &MAKER, 100), false),
        handle([21; 32], SYSTEM_PROGRAM_ID, 0, Vec::new(), false),
        handle(SYSTEM_PROGRAM_ID, SYSTEM_PROGRAM_ID, 1, Vec::new(), false),
        handle(TOKEN_PROGRAM_ID, SYSTEM_PROGRAM_ID, 1, Vec::new(), false),
    ];
    let payload = make_payload(7, 50, 0);
    let mut ix = Make::try_from(&payload, &accounts).unwrap();
    assert_eq!(ix.process(10, 5), Err(LedgerError::InvalidArgument));
}

#[test]
fn make_without_signature_fails_before_any_effect() {
    let mut accounts = vec![
        handle(MAKER, SYSTEM_PROGRAM_ID, 1000, Vec::new(), false),
        handle([9; 32], SYSTEM_PROGRAM_ID, 0, Vec::new(), false),
        handle(MINT_A, TOKEN_PROGRAM_ID, 1, vec![0; 82], false),
        handle(MINT_B, TOKEN_PROGRAM_ID, 1, vec![0; 82], false),
        handle([20; 32], TOKEN_PROGRAM_ID, 1, token_data(&MINT_A, &MAKER, 100), false),
        handle([21; 32], SYSTEM_PROGRAM_ID, 0, Vec::new(), false),
        handle(SYSTEM_PROGRAM_ID, SYSTEM_PROGRAM_ID, 1, Vec::new(), false),
        handle(TOKEN_PROGRAM_ID, SYSTEM_PROGRAM_ID, 1, Vec::new(), false),
    ];
    accounts[0].is_signer = false;
    let payload = make_payload(7, 50, 100);
    let mut ix = Make::try_from(&payload, &accounts).unwrap();
    assert_eq!(ix.process(10, 5), Err(LedgerError::NotSigner));
    assert_eq!(token_amount(&ix.accounts.maker_ata_a), 100);
    assert_eq!(ix.accounts.maker.lamports, 1000);
}

fn take_accounts_after_make(made: &Make) -> Vec<AccountHandle> {
    let (taker_ata_a_addr, _) =
        AssociatedTokenAccount::derive(&TAKER, &MINT_A, &TOKEN_PROGRAM_ID).unwrap();
    let (taker_ata_b_addr, _) =
        AssociatedTokenAccount::derive(&TAKER, &MINT_B, &TOKEN_PROGRAM_ID).unwrap();
    let (maker_ata_b_addr, _) =
        AssociatedTokenAccount::derive(&MAKER, &MINT_B, &TOKEN_PROGRAM_ID).unwrap();
    vec![
        handle(TAKER, SYSTEM_PROGRAM_ID, 500, Vec::new(), true),
        made.accounts.maker.clone(),
        made.accounts.escrow.clone(),
        made.accounts.mint_a.clone(),
        made.accounts.mint_b.clone(),
        made.accounts.vault.clone(),
        handle(taker_ata_a_addr, SYSTEM_PROGRAM_ID, 0, Vec::new(), false),
        handle(taker_ata_b_addr, TOKEN_PROGRAM_ID, 1, token_data(&MINT_B, &TAKER, 50), false),
        handle(maker_ata_b_addr, SYSTEM_PROGRAM_ID, 0, Vec::new(), false),
        handle(SYSTEM_PROGRAM_ID, SYSTEM_PROGRAM_ID, 1, Vec::new(), false),
        handle(TOKEN_PROGRAM_ID, SYSTEM_PROGRAM_ID, 1, Vec::new(), false),
        handle(ASSOCIATED_TOKEN_PROGRAM_ID, SYSTEM_PROGRAM_ID, 1, Vec::new(), false),
    ]
}

#[test]
fn take_demands_the_full_handle_list() {
    let made = run_make();
    let mut accounts = take_accounts_after_make(&made);
    accounts.pop();
    assert_eq!(Take::try_from(&accounts).err(), Some(LedgerError::NotEnoughAccountKeys));
}

#[test]
fn escrow_round_trip_via_take() {
    let made = run_make();
    let accounts = take_accounts_after_make(&made);
    let mut take = Take::try_from(&accounts).unwrap();
    take.process(2).unwrap();
    // The taker holds the 100 of asset A, the maker the 50 of asset B.
    assert_eq!(token_amount(&take.accounts.taker_ata_a), 100);
    assert_eq!(token_amount(&take.accounts.maker_ata_b), 50);
    assert_eq!(token_amount(&take.accounts.taker_ata_b), 0);
    // Vault and escrow are closed, their rent refunded.
    assert_eq!(take.accounts.vault.data, vec![0xff]);
    assert_eq!(take.accounts.vault.lamports, 0);
    assert_eq!(take.accounts.escrow.data, vec![0xff]);
    assert_eq!(take.accounts.escrow.lamports, 0);
    assert_eq!(take.accounts.maker.lamports, 985 + 5);
    // Taker paid two account creations and got the escrow rent back.
    assert_eq!(take.accounts.taker.lamports, 500 - 2 - 2 + 10);
}

#[test]
fn escrow_round_trip_via_refund() {
    let made = run_make();
    let accounts = vec![
        made.accounts.maker.clone(),
        made.accounts.escrow.clone(),
        made.accounts.mint_a.clone(),
        made.accounts.vault.clone(),
        made.accounts.maker_ata_a.clone(),
        handle(TOKEN_PROGRAM_ID, SYSTEM_PROGRAM_ID, 1, Vec::new(), false),
    ];
    let mut refund = Refund::try_from(&accounts).unwrap();
    refund.process().unwrap();
    assert_eq!(token_amount(&refund.accounts.maker_ata_a), 100);
    assert_eq!(refund.accounts.vault.data, vec![0xff]);
    assert_eq!(refund.accounts.escrow.data, vec![0xff]);
    // Both rents came back to the maker.
    assert_eq!(refund.accounts.maker.lamports, 985 + 10 + 5);
}

#[test]
fn take_after_refund_fails() {
    let made = run_make();
    let refund_accounts = vec![
        made.accounts.maker.clone(),
        made.accounts.escrow.clone(),
        made.accounts.mint_a.clone(),
        made.accounts.vault.clone(),
        made.accounts.maker_ata_a.clone(),
        handle(TOKEN_PROGRAM_ID, SYSTEM_PROGRAM_ID, 1, Vec::new(), false),
    ];
    let mut refund = Refund::try_from(&refund_accounts).unwrap();
    refund.process().unwrap();
    // Rebuild a Take over the now-closed escrow: validation must refuse
    // the stale handle.
    let mut made_after = made;
    made_after.accounts.escrow = refund.accounts.escrow.clone();
    made_after.accounts.vault = refund.accounts.vault.clone();
    let accounts = take_accounts_after_make(&made_after);
    assert_eq!(Take::try_from(&accounts).err(), Some(LedgerError::InvalidAccountData));
}

#[test]
fn take_skips_creation_of_an_existing_destination() {
    let made = run_make();
    let mut accounts = take_accounts_after_make(&made);
    // The taker already holds an account for asset A at the derived
    // address, with a balance: the upsert must leave it in place and add
    // to it, and the taker then pays only one account creation.
    let (taker_ata_a_addr, _) =
        AssociatedTokenAccount::derive(&TAKER, &MINT_A, &TOKEN_PROGRAM_ID).unwrap();
    accounts[6] = handle(
        taker_ata_a_addr,
        TOKEN_PROGRAM_ID,
        1,
        token_data(&MINT_A, &TAKER, 7),
        false,
    );
    let mut take = Take::try_from(&accounts).unwrap();
    take.process(2).unwrap();
    assert_eq!(token_amount(&take.accounts.taker_ata_a), 107);
    assert_eq!(take.accounts.taker.lamports, 500 - 2 + 10);
}

#[test]
fn take_rejects_a_substituted_escrow_record() {
    let made = run_make();
    let mut accounts = take_accounts_after_make(&made);
    // Corrupt the stored seed: the re-derivation no longer matches the
    // handle's address.
    accounts[2].data[0] ^= 1;
    let mut take = Take::try_from(&accounts).unwrap();
    assert_eq!(take.process(2), Err(LedgerError::InvalidAddress));
}

#[test]
fn take_checks_recorded_maker() {
    let made = run_make();
    let mut accounts = take_accounts_after_make(&made);
    accounts[1].address = [99; 32];
    let mut take = Take::try_from(&accounts).unwrap();
    assert_eq!(take.process(2), Err(LedgerError::InvalidAddress));
}

#[test]
fn escrow_payload_routing() {
    let mut make_wire = vec![0u8];
    make_wire.extend_from_slice(&make_payload(7, 50, 100));
    match parse_escrow_instruction(&make_wire).unwrap() {
        EscrowInstruction::Make(d) => {
            assert_eq!(d.seed, 7);
            assert_eq!(d.receive, 50);
            assert_eq!(d.amount, 100);
        }
        _ => panic!("routed to the wrong instruction"),
    }
    assert!(matches!(parse_escrow_instruction(&[1]).unwrap(), EscrowInstruction::Take));
    assert!(matches!(parse_escrow_instruction(&[2]).unwrap(), EscrowInstruction::Refund));
    assert_eq!(parse_escrow_instruction(&[]).err(), Some(LedgerError::InvalidInstructionData));
    assert_eq!(parse_escrow_instruction(&[9]).err(), Some(LedgerError::InvalidInstructionData));
    assert_eq!(
        parse_escrow_instruction(&[0, 1, 2]).err(),
        Some(LedgerError::InvalidInstructionData)
    );
}

#[test]
fn derivation_replays_and_seed_change_moves_the_address() {
    let seeds = escrow_pda_seeds(&MAKER, 7);
    let (addr, bump) = derive_address(&seeds, &PROGRAM_ID).unwrap();
    // Replaying the derivation from the stored seeds and bump gives the
    // stored address back.
    assert_eq!(replay_derivation(&seeds, bump, &PROGRAM_ID), Some(addr));
    // The derived address is none of the inputs: the derivation really
    // ran.
    assert_ne!(addr, MAKER);
    assert_ne!(addr, PROGRAM_ID);
    // A different seed derives a different address.
    let other = escrow_pda_seeds(&MAKER, 8);
    let (other_addr, _) = derive_address(&other, &PROGRAM_ID).unwrap();
    assert_ne!(addr, other_addr);
}
