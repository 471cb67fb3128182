use ledger_core::account::AccountHandle;
use ledger_core::addr::{
    addr_eq, Address, SYSTEM_PROGRAM_ID, TOKEN_2022_PROGRAM_ID, TOKEN_PROGRAM_ID,
};
use ledger_core::bytes::{i64_from_le_bytes, u64_from_be_bytes, u64_to_be_bytes};
use ledger_core::checks::{
    AssociatedTokenAccount, MintInterface, ProgramAccount, SignerAccount, SystemAccount,
    TokenAccountInterface,
};
use ledger_core::curve::{pair_amounts_from_shares, swap_output};
use ledger_core::state::{Config, Escrow, CONFIG_LEN, ESCROW_LEN};
use ledger_core::LedgerError;

fn handle(address: Address, owner: Address, lamports: u64, data: Vec<u8>, signer: bool) -> AccountHandle {
    AccountHandle { address, owner, lamports, data, is_signer: signer }
}

#[test]
fn signed_little_endian_parsing() {
    assert_eq!(i64_from_le_bytes(&0i64.to_le_bytes()), 0);
    assert_eq!(i64_from_le_bytes(&42i64.to_le_bytes()), 42);
    assert_eq!(i64_from_le_bytes(&(-5i64).to_le_bytes()), -5);
    assert_eq!(i64_from_le_bytes(&i64::MIN.to_le_bytes()), i64::MIN);
    assert_eq!(i64_from_le_bytes(&i64::MAX.to_le_bytes()), i64::MAX);
}

#[test]
fn big_endian_round_trip() {
    for v in [0u64, 1, 0x0102030405060708, u64::MAX] {
        let bytes = u64_to_be_bytes(v);
        assert_eq!(bytes, v.to_be_bytes().to_vec());
        assert_eq!(u64_from_be_bytes(&bytes, 0), v);
    }
}

#[test]
fn config_record_round_trips() {
    let c = Config {
        state: 1,
        seed: 0xdeadbeef,
        authority: [7; 32],
        mint_x: [1; 32],
        mint_y: [2; 32],
        fee: 9999,
        config_bump: 0xfe,
    };
    let bytes = c.to_bytes();
    assert_eq!(bytes.len(), CONFIG_LEN);
    let back = Config::from_bytes(&bytes).unwrap();
    assert_eq!(back.state, c.state);
    assert_eq!(back.seed, c.seed);
    assert_eq!(back.authority, c.authority);
    assert_eq!(back.mint_x, c.mint_x);
    assert_eq!(back.mint_y, c.mint_y);
    assert_eq!(back.fee, c.fee);
    assert_eq!(back.config_bump, c.config_bump);
    assert_eq!(
        Config::from_bytes(&bytes[..CONFIG_LEN - 1]).err(),
        Some(LedgerError::InvalidAccountData)
    );
    assert!(back.has_authority().is_some());
    let none = Config { authority: [0; 32], ..back };
    assert!(none.has_authority().is_none());
}

#[test]
fn escrow_record_round_trips() {
    let e = Escrow {
        seed: 7,
        maker: [3; 32],
        mint_a: [1; 32],
        mint_b: [2; 32],
        receive: 50,
        bump: 0xfd,
    };
    let bytes = e.to_bytes();
    assert_eq!(bytes.len(), ESCROW_LEN);
    let back = Escrow::from_bytes(&bytes).unwrap();
    assert_eq!(back.seed, 7);
    assert_eq!(back.maker, [3; 32]);
    assert_eq!(back.mint_a, [1; 32]);
    assert_eq!(back.mint_b, [2; 32]);
    assert_eq!(back.receive, 50);
    assert_eq!(back.bump, 0xfd);
}

#[test]
fn loader_validates_owner_and_length() {
    let e = Escrow {
        seed: 7,
        maker: [3; 32],
        mint_a: [1; 32],
        mint_b: [2; 32],
        receive: 50,
        bump: 0xfd,
    };
    let good = handle([9; 32], ledger_core::addr::PROGRAM_ID, 1, e.to_bytes(), false);
    assert!(Escrow::load(&good, &ledger_core::addr::PROGRAM_ID).is_ok());
    let foreign = handle([9; 32], [8; 32], 1, e.to_bytes(), false);
    assert_eq!(
        Escrow::load(&foreign, &ledger_core::addr::PROGRAM_ID).err(),
        Some(LedgerError::InvalidOwner)
    );
    let short = handle([9; 32], ledger_core::addr::PROGRAM_ID, 1, vec![0xff], false);
    assert_eq!(
        Escrow::load(&short, &ledger_core::addr::PROGRAM_ID).err(),
        Some(LedgerError::InvalidAccountData)
    );
}

#[test]
fn capability_checks_decide_exactly() {
    let signer = handle([1; 32], SYSTEM_PROGRAM_ID, 0, Vec::new(), true);
    assert!(SignerAccount::check(&signer).is_ok());
    let unsigned = handle([1; 32], SYSTEM_PROGRAM_ID, 0, Vec::new(), false);
    assert_eq!(SignerAccount::check(&unsigned), Err(LedgerError::NotSigner));

    assert!(SystemAccount::check(&signer).is_ok());
    let owned = handle([1; 32], [9; 32], 0, Vec::new(), false);
    assert_eq!(SystemAccount::check(&owned), Err(LedgerError::InvalidOwner));

    let record = handle([1; 32], ledger_core::addr::PROGRAM_ID, 0, vec![0; 5], false);
    assert!(ProgramAccount::check(&record, &ledger_core::addr::PROGRAM_ID, 5).is_ok());
    assert_eq!(
        ProgramAccount::check(&record, &ledger_core::addr::PROGRAM_ID, 6),
        Err(LedgerError::InvalidAccountData)
    );
    assert_eq!(
        ProgramAccount::check(&record, &[8; 32], 5),
        Err(LedgerError::InvalidOwner)
    );
}

#[test]
fn mint_interface_accepts_both_token_ledgers() {
    let legacy = handle([1; 32], TOKEN_PROGRAM_ID, 0, vec![0; 82], false);
    assert!(MintInterface::check(&legacy).is_ok());
    let wrong_len = handle([1; 32], TOKEN_PROGRAM_ID, 0, vec![0; 83], false);
    assert_eq!(MintInterface::check(&wrong_len), Err(LedgerError::InvalidAccountData));
    let foreign = handle([1; 32], [9; 32], 0, vec![0; 82], false);
    assert_eq!(MintInterface::check(&foreign), Err(LedgerError::InvalidOwner));

    // An extended account longer than the legacy record must carry the
    // mint tag at the fixed offset.
    let mut extended = vec![0u8; 200];
    extended[165] = 1;
    let ok = handle([1; 32], TOKEN_2022_PROGRAM_ID, 0, extended.clone(), false);
    assert!(MintInterface::check(&ok).is_ok());
    extended[165] = 2;
    let tagged_as_account = handle([1; 32], TOKEN_2022_PROGRAM_ID, 0, extended.clone(), false);
    assert_eq!(
        MintInterface::check(&tagged_as_account),
        Err(LedgerError::InvalidAccountData)
    );
    assert!(TokenAccountInterface::check(&tagged_as_account).is_ok());
    let mut long_account = vec![0u8; 200];
    long_account[165] = 2;
    let acc = handle([1; 32], TOKEN_2022_PROGRAM_ID, 0, long_account, false);
    assert!(TokenAccountInterface::check(&acc).is_ok());
    let too_short = handle([1; 32], TOKEN_2022_PROGRAM_ID, 0, vec![0; 100], false);
    assert_eq!(MintInterface::check(&too_short), Err(LedgerError::InvalidAccountData));
}

#[test]
fn ata_check_goes_by_derived_address() {
    let owner = [3u8; 32];
    let mint = [1u8; 32];
    let (addr, _) = AssociatedTokenAccount::derive(&owner, &mint, &TOKEN_PROGRAM_ID).unwrap();
    let mut data = vec![0u8; 165];
    data[0..32].copy_from_slice(&mint);
    data[32..64].copy_from_slice(&owner);
    let good = handle(addr, TOKEN_PROGRAM_ID, 1, data.clone(), false);
    let auth = handle(owner, SYSTEM_PROGRAM_ID, 0, Vec::new(), false);
    let mint_h = handle(mint, TOKEN_PROGRAM_ID, 0, vec![0; 82], false);
    let tp = handle(TOKEN_PROGRAM_ID, SYSTEM_PROGRAM_ID, 0, Vec::new(), false);
    assert!(AssociatedTokenAccount::check(&good, &auth, &mint_h, &tp).is_ok());

    // An account at any other address cannot claim to be the associated
    // one, whatever its data says.
    let mut wrong = good.clone();
    wrong.address[0] ^= 1;
    assert_eq!(
        AssociatedTokenAccount::check(&wrong, &auth, &mint_h, &tp),
        Err(LedgerError::InvalidAddress)
    );
}

#[test]
fn proportional_math_is_exact() {
    // ratio(50 / 100) = 0.5 at six decimals; half of each balance.
    assert_eq!(pair_amounts_from_shares(1000, 2000, 100, 50), Ok((500, 1000)));
    // Rounding is downward at the scaled ratio.
    assert_eq!(pair_amounts_from_shares(1, 1, 3, 1), Ok((0, 0)));
    assert_eq!(pair_amounts_from_shares(100, 100, 3, 1), Ok((33, 33)));
    // The whole supply maps to the whole balances.
    assert_eq!(pair_amounts_from_shares(123, 456, 9, 9), Ok((123, 456)));
}

#[test]
fn swap_output_matches_the_formula_and_caps_at_reserve() {
    // No fee: 1000 * 100 / 1100 = 90.
    assert_eq!(swap_output(1000, 1000, 0, 100), Ok(90));
    // 100 bp fee keeps 99 of 100: 1000 * 99 / 1099 = 90.
    assert_eq!(swap_output(1000, 1000, 100, 100), Ok(90));
    // Half the pool in: 1000 * 500 / 1500 = 333.
    assert_eq!(swap_output(1000, 1000, 0, 500), Ok(333));
    // The output never exceeds the facing reserve.
    assert_eq!(swap_output(1, 1000, 0, u64::MAX), Ok(999));
    // An empty input side with nothing coming in cannot quote: the curve
    // arithmetic fails.
    assert_eq!(swap_output(0, 1000, 0, 0), Err(LedgerError::ArithmeticOverflow));
}

#[test]
fn address_equality_is_bytewise() {
    let a = [7u8; 32];
    let mut b = [7u8; 32];
    assert!(addr_eq(&a, &b));
    b[31] = 8;
    assert!(!addr_eq(&a, &b));
}
