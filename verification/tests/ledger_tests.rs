use ledger_core::account::AccountHandle;
use ledger_core::addr::{Address, PROGRAM_ID, SYSTEM_PROGRAM_ID};
use ledger_core::data_store::{
    data_pda_seeds, initialize, process_instruction, update, validate_initialize,
    validate_update, Data,
};
use ledger_core::pda::derive_address;
use ledger_core::token_ledger::{
    ledger_pda_seeds, parse_ledger_instruction, process_instruction_mint,
    process_instruction_transfer, TokenLedgerInstruction,
};
use ledger_core::LedgerError;

fn handle(address: Address, owner: Address, lamports: u64, data: Vec<u8>, signer: bool) -> AccountHandle {
    AccountHandle { address, owner, lamports, data, is_signer: signer }
}

const USER: Address = [3; 32];
const INTO: Address = [4; 32];

fn pda_of(user: &Address) -> Address {
    let seeds = ledger_pda_seeds(user);
    derive_address(&seeds, &PROGRAM_ID).unwrap().0
}

#[test]
fn mint_creates_the_record_and_adds() {
    let mut user = handle(USER, SYSTEM_PROGRAM_ID, 1000, Vec::new(), true);
    let mut user_pda = handle(pda_of(&USER), SYSTEM_PROGRAM_ID, 0, Vec::new(), false);
    process_instruction_mint(&mut user, &mut user_pda, &100u64.to_be_bytes(), 30, &PROGRAM_ID)
        .unwrap();
    assert_eq!(user.lamports, 970);
    assert_eq!(user_pda.lamports, 30);
    assert_eq!(user_pda.owner, PROGRAM_ID);
    assert_eq!(user_pda.data, 100u64.to_be_bytes().to_vec());

    // A second mint only adds.
    process_instruction_mint(&mut user, &mut user_pda, &11u64.to_be_bytes(), 30, &PROGRAM_ID)
        .unwrap();
    assert_eq!(user.lamports, 970);
    assert_eq!(user_pda.data, 111u64.to_be_bytes().to_vec());
}

#[test]
fn mint_refuses_overflow_and_wrong_record() {
    let mut user = handle(USER, SYSTEM_PROGRAM_ID, 1000, Vec::new(), true);
    let mut user_pda = handle(
        pda_of(&USER),
        PROGRAM_ID,
        30,
        u64::MAX.to_be_bytes().to_vec(),
        false,
    );
    assert_eq!(
        process_instruction_mint(&mut user, &mut user_pda, &1u64.to_be_bytes(), 30, &PROGRAM_ID),
        Err(LedgerError::ArithmeticOverflow)
    );
    assert_eq!(user_pda.data, u64::MAX.to_be_bytes().to_vec());

    let mut wrong = handle([9; 32], SYSTEM_PROGRAM_ID, 0, Vec::new(), false);
    assert_eq!(
        process_instruction_mint(&mut user, &mut wrong, &1u64.to_be_bytes(), 30, &PROGRAM_ID),
        Err(LedgerError::InvalidAddress)
    );
}

#[test]
fn transfer_moves_between_records() {
    let mut user = handle(USER, SYSTEM_PROGRAM_ID, 1000, Vec::new(), true);
    let mut user_pda = handle(pda_of(&USER), PROGRAM_ID, 30, 100u64.to_be_bytes().to_vec(), false);
    let into = handle(INTO, SYSTEM_PROGRAM_ID, 5, Vec::new(), false);
    let mut into_pda = handle(pda_of(&INTO), SYSTEM_PROGRAM_ID, 0, Vec::new(), false);
    process_instruction_transfer(
        &mut user,
        &mut user_pda,
        &into,
        &mut into_pda,
        &40u64.to_be_bytes(),
        30,
        &PROGRAM_ID,
    )
    .unwrap();
    assert_eq!(user_pda.data, 60u64.to_be_bytes().to_vec());
    assert_eq!(into_pda.data, 40u64.to_be_bytes().to_vec());
    assert_eq!(user.lamports, 970);
    assert_eq!(into_pda.lamports, 30);
}

#[test]
fn transfer_refuses_more_than_the_balance() {
    let mut user = handle(USER, SYSTEM_PROGRAM_ID, 1000, Vec::new(), true);
    let mut user_pda = handle(pda_of(&USER), PROGRAM_ID, 30, 100u64.to_be_bytes().to_vec(), false);
    let into = handle(INTO, SYSTEM_PROGRAM_ID, 5, Vec::new(), false);
    let mut into_pda = handle(pda_of(&INTO), PROGRAM_ID, 30, 7u64.to_be_bytes().to_vec(), false);
    assert_eq!(
        process_instruction_transfer(
            &mut user,
            &mut user_pda,
            &into,
            &mut into_pda,
            &101u64.to_be_bytes(),
            30,
            &PROGRAM_ID,
        ),
        Err(LedgerError::ArithmeticOverflow)
    );
    assert_eq!(user_pda.data, 100u64.to_be_bytes().to_vec());
    assert_eq!(into_pda.data, 7u64.to_be_bytes().to_vec());
}

#[test]
fn transfer_requires_signature() {
    let mut user = handle(USER, SYSTEM_PROGRAM_ID, 1000, Vec::new(), false);
    let mut user_pda = handle(pda_of(&USER), PROGRAM_ID, 30, 100u64.to_be_bytes().to_vec(), false);
    let into = handle(INTO, SYSTEM_PROGRAM_ID, 5, Vec::new(), false);
    let mut into_pda = handle(pda_of(&INTO), PROGRAM_ID, 30, 7u64.to_be_bytes().to_vec(), false);
    assert_eq!(
        process_instruction_transfer(
            &mut user,
            &mut user_pda,
            &into,
            &mut into_pda,
            &1u64.to_be_bytes(),
            30,
            &PROGRAM_ID,
        ),
        Err(LedgerError::NotSigner)
    );
}

#[test]
fn ledger_payload_routing() {
    let mut mint_wire = vec![0u8];
    mint_wire.extend_from_slice(&100u64.to_be_bytes());
    match parse_ledger_instruction(&mint_wire).unwrap() {
        TokenLedgerInstruction::Mint(amount) => assert_eq!(amount, 100),
        _ => panic!("routed to the wrong instruction"),
    }
    let mut transfer_wire = vec![1u8];
    transfer_wire.extend_from_slice(&40u64.to_be_bytes());
    match parse_ledger_instruction(&transfer_wire).unwrap() {
        TokenLedgerInstruction::Transfer(amount) => assert_eq!(amount, 40),
        _ => panic!("routed to the wrong instruction"),
    }
    assert_eq!(parse_ledger_instruction(&[]).err(), Some(LedgerError::InvalidInstructionData));
    assert_eq!(
        parse_ledger_instruction(&[2, 0, 0, 0, 0, 0, 0, 0, 0]).err(),
        Some(LedgerError::InvalidInstructionData)
    );
    assert_eq!(
        parse_ledger_instruction(&[0, 1, 2]).err(),
        Some(LedgerError::InvalidInstructionData)
    );
}

#[test]
fn store_creates_then_resizes_with_rent_adjustment() {
    let mut user = handle(USER, SYSTEM_PROGRAM_ID, 1000, Vec::new(), true);
    let mut record = handle(pda_of(&USER), SYSTEM_PROGRAM_ID, 0, Vec::new(), false);
    process_instruction(&mut user, &mut record, b"hello", 50, &PROGRAM_ID).unwrap();
    assert_eq!(record.data, b"hello".to_vec());
    assert_eq!(record.lamports, 50);
    assert_eq!(user.lamports, 950);

    // Shrinking the record refunds the surplus rent.
    process_instruction(&mut user, &mut record, b"hi", 20, &PROGRAM_ID).unwrap();
    assert_eq!(record.data, b"hi".to_vec());
    assert_eq!(record.lamports, 20);
    assert_eq!(user.lamports, 980);

    // Growing it tops the rent up from the user.
    process_instruction(&mut user, &mut record, b"hello again", 110, &PROGRAM_ID).unwrap();
    assert_eq!(record.data, b"hello again".to_vec());
    assert_eq!(record.lamports, 110);
    assert_eq!(user.lamports, 890);
}

#[test]
fn store_rejects_a_foreign_record() {
    let mut user = handle(USER, SYSTEM_PROGRAM_ID, 1000, Vec::new(), true);
    let mut record = handle([9; 32], SYSTEM_PROGRAM_ID, 0, Vec::new(), false);
    assert_eq!(
        process_instruction(&mut user, &mut record, b"hello", 50, &PROGRAM_ID),
        Err(LedgerError::InvalidAddress)
    );
}

#[test]
fn data_record_validation_goes_by_derivation_and_signature() {
    let seeds = data_pda_seeds(&USER);
    let (record_addr, bump) = derive_address(&seeds, &PROGRAM_ID).unwrap();
    let user = handle(USER, SYSTEM_PROGRAM_ID, 100, Vec::new(), true);
    // Creation: the found bump comes back for caching.
    assert_eq!(validate_initialize(&user, &record_addr), Ok(bump));
    let unsigned = handle(USER, SYSTEM_PROGRAM_ID, 100, Vec::new(), false);
    assert_eq!(validate_initialize(&unsigned, &record_addr), Err(LedgerError::NotSigner));
    let mut wrong_addr = record_addr;
    wrong_addr[0] ^= 1;
    assert_eq!(validate_initialize(&user, &wrong_addr), Err(LedgerError::InvalidAddress));

    // Update: the stored bump must replay to the record's own address,
    // and the user must be the recorded owner.
    let record = initialize(&user, bump);
    assert_eq!(validate_update(&user, &record, &record_addr), Ok(()));
    assert_eq!(validate_update(&unsigned, &record, &record_addr), Err(LedgerError::NotSigner));
    assert_eq!(
        validate_update(&user, &record, &wrong_addr),
        Err(LedgerError::InvalidAddress)
    );
    let mut stale = initialize(&user, bump);
    stale.bump = bump.wrapping_sub(1);
    assert_eq!(validate_update(&user, &stale, &record_addr), Err(LedgerError::InvalidAddress));
    let stranger = handle([9; 32], SYSTEM_PROGRAM_ID, 100, Vec::new(), true);
    assert_eq!(
        validate_update(&stranger, &record, &record_addr),
        Err(LedgerError::InvalidAddress)
    );
    let mut foreign_record = initialize(&stranger, bump);
    foreign_record.auth = [9; 32];
    assert_eq!(
        validate_update(&user, &foreign_record, &record_addr),
        Err(LedgerError::InvalidOwner)
    );
}

#[test]
fn data_record_space_and_owner_rule() {
    assert_eq!(Data::space_for(0), 45);
    assert_eq!(Data::space_for(10), 55);

    let user = handle(USER, SYSTEM_PROGRAM_ID, 100, Vec::new(), true);
    let mut record = initialize(&user, 0xfd);
    assert_eq!(record.auth, USER);
    assert_eq!(record.bump, 0xfd);
    assert!(record.data.is_empty());

    let mut user = handle(USER, SYSTEM_PROGRAM_ID, 100, Vec::new(), true);
    let mut record_lamports = 80u64;
    update(&mut record, &mut record_lamports, &mut user, b"abc", 30).unwrap();
    assert_eq!(record.data, b"abc".to_vec());
    assert_eq!(record_lamports, 30);
    assert_eq!(user.lamports, 150);

    let mut stranger = handle([9; 32], SYSTEM_PROGRAM_ID, 100, Vec::new(), true);
    assert_eq!(
        update(&mut record, &mut record_lamports, &mut stranger, b"x", 30),
        Err(LedgerError::InvalidOwner)
    );
    assert_eq!(record.data, b"abc".to_vec());
}
