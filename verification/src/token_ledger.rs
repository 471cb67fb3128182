use vstd::prelude::*;

use crate::account::{create_account, spec_same_but_lamports, spec_unclaimed, AccountHandle};
use crate::addr::{addr_to_vec, Address};
use crate::bytes::{
    lemma_u64_be_round_trip, spec_u64_from_be_bytes, u64_from_be_bytes, u64_to_be_bytes,
};
use crate::errors::LedgerError;
use crate::pda::{spec_try_find_pda, try_find_pda};

verus! {

/// The seed tuple of a user's balance record: the user's own address.
pub open spec fn spec_ledger_pda_seeds(user: Seq<u8>) -> Seq<Seq<u8>> {
    seq![user]
}

/// Builds the balance-record seed tuple for a user.
pub fn ledger_pda_seeds(user: &Address) -> (r: Vec<Vec<u8>>)
    ensures
        r.deep_view() =~~= spec_ledger_pda_seeds(user@),
        forall|i: int|
            0 <= i < r.deep_view().len() ==> #[trigger] r.deep_view()[i].len()
                <= crate::pda::MAX_SEED_LEN,
{
    let mut r: Vec<Vec<u8>> = Vec::new();
    r.push(addr_to_vec(user));
    proof {
        assert(r.deep_view() =~~= spec_ledger_pda_seeds(user@));
    }
    r
}

/// The balance an 8-byte big-endian record carries.
pub open spec fn spec_ledger_balance(d: Seq<u8>) -> u64
    recommends
        d.len() == 8,
{
    spec_u64_from_be_bytes(d.subrange(0, 8))
}

/// One parsed balance-ledger instruction, with the 8-byte big-endian
/// amount it carries.
pub enum TokenLedgerInstruction {
    Mint(u64),
    Transfer(u64),
}

/// Routes a balance-ledger payload by its leading discriminator byte: 0
/// mints, 1 transfers; an empty payload, an unknown discriminator, or a
/// body that is not exactly eight bytes fail `InvalidInstructionData`.
pub fn parse_ledger_instruction(data: &[u8]) -> (r: Result<TokenLedgerInstruction, LedgerError>)
    ensures
        r is Ok <==> data@.len() == 9 && (data@[0] == 0 || data@[0] == 1),
        r is Err ==> r == Err::<TokenLedgerInstruction, LedgerError>(
            LedgerError::InvalidInstructionData,
        ),
        r is Ok && data@[0] == 0 ==> r.unwrap() is Mint && r.unwrap()->Mint_0
            == spec_u64_from_be_bytes(data@.subrange(1, 9)),
        r is Ok && data@[0] == 1 ==> r.unwrap() is Transfer && r.unwrap()->Transfer_0
            == spec_u64_from_be_bytes(data@.subrange(1, 9)),
{
    if data.len() != 9 {
        return Err(LedgerError::InvalidInstructionData);
    }
    let disc = *vstd::slice::slice_index_get(data, 0);
    if disc == 0 {
        Ok(TokenLedgerInstruction::Mint(u64_from_be_bytes(data, 1)))
    } else if disc == 1 {
        Ok(TokenLedgerInstruction::Transfer(u64_from_be_bytes(data, 1)))
    } else {
        Err(LedgerError::InvalidInstructionData)
    }
}

/// The full decision minting into a user's balance record makes over its
/// pre-state: whether the record is first created, and the new balance —
/// or the error that aborts the instruction before any effect.
pub open spec fn spec_ledger_mint_outcome(
    user: AccountHandle,
    user_pda: AccountHandle,
    payload: Seq<u8>,
    rent_exemption: u64,
    program_id: Seq<u8>,
) -> Result<(bool, u64), LedgerError> {
    if !user.is_signer {
        Err(LedgerError::NotSigner)
    } else if payload.len() != 8 {
        Err(LedgerError::InvalidInstructionData)
    } else {
        match spec_try_find_pda(spec_ledger_pda_seeds(user.address@), program_id) {
            Option::None => Err(LedgerError::InvalidAddress),
            Option::Some(p) => {
                if !(p.0 =~= user_pda.address@) {
                    Err(LedgerError::InvalidAddress)
                } else {
                    let created = user_pda.lamports == 0;
                    if created && !spec_unclaimed(user_pda) {
                        Err(LedgerError::InvalidAccountData)
                    } else if created && user.lamports < rent_exemption {
                        Err(LedgerError::InvalidArgument)
                    } else if !created && user_pda.data@.len() != 8 {
                        Err(LedgerError::InvalidAccountData)
                    } else {
                        let old_balance = if created {
                            0u64
                        } else {
                            spec_ledger_balance(user_pda.data@)
                        };
                        let inc = spec_u64_from_be_bytes(payload);
                        if old_balance + inc > u64::MAX {
                            Err(LedgerError::ArithmeticOverflow)
                        } else {
                            Ok((created, (old_balance + inc) as u64))
                        }
                    }
                }
            },
        }
    }
}

/// Mints into a user's balance record: the user signs and names the
/// record derived from their own address; a record not yet funded is
/// first created at the rent-exempt balance; the 8-byte big-endian
/// payload is added to the stored balance, refusing overflow — all of it
/// or none of it.
pub fn process_instruction_mint(
    user: &mut AccountHandle,
    user_pda: &mut AccountHandle,
    payload: &[u8],
    rent_exemption: u64,
    program_id: &Address,
) -> (r: Result<(), LedgerError>)
    ensures
        (spec_ledger_mint_outcome(
            *old(user),
            *old(user_pda),
            payload@,
            rent_exemption,
            program_id@,
        ) is Err) ==> r == Err::<(), LedgerError>(
            spec_ledger_mint_outcome(
                *old(user),
                *old(user_pda),
                payload@,
                rent_exemption,
                program_id@,
            )->Err_0,
        ) && *final(user) == *old(user) && *final(user_pda) == *old(user_pda),
        (spec_ledger_mint_outcome(
            *old(user),
            *old(user_pda),
            payload@,
            rent_exemption,
            program_id@,
        ) is Ok) ==> r is Ok && {
            let p = spec_ledger_mint_outcome(
                *old(user),
                *old(user_pda),
                payload@,
                rent_exemption,
                program_id@,
            )->Ok_0;
            &&& final(user_pda).data@.len() == 8
            &&& spec_ledger_balance(final(user_pda).data@) == p.1
            &&& final(user_pda).address == old(user_pda).address
            &&& spec_same_but_lamports(*old(user), *final(user))
            &&& (p.0 ==> final(user).lamports == old(user).lamports - rent_exemption && final(user_pda).lamports == rent_exemption && final(user_pda).owner@ =~= program_id@)
            &&& (!p.0 ==> final(user).lamports == old(user).lamports && final(user_pda).lamports
                == old(user_pda).lamports && final(user_pda).owner == old(user_pda).owner)
        },
{
    if !user.is_signer {
        return Err(LedgerError::NotSigner);
    }
    if payload.len() != 8 {
        return Err(LedgerError::InvalidInstructionData);
    }
    let seeds = ledger_pda_seeds(&user.address);
    match try_find_pda(&seeds, program_id) {
        Option::None => { return Err(LedgerError::InvalidAddress) },
        Option::Some(p) => {
            if !user_pda.has_address(&p.0) {
                return Err(LedgerError::InvalidAddress);
            }
        },
    }
    let created = user_pda.lamports == 0;
    if created {
        if !(user_pda.owned_by(&crate::addr::SYSTEM_PROGRAM_ID) && user_pda.data.len() == 0) {
            return Err(LedgerError::InvalidAccountData);
        }
        if user.lamports < rent_exemption {
            return Err(LedgerError::InvalidArgument);
        }
    } else {
        if user_pda.data.len() != 8 {
            return Err(LedgerError::InvalidAccountData);
        }
    }
    let old_balance: u64 = if created {
        0
    } else {
        u64_from_be_bytes(user_pda.data.as_slice(), 0)
    };
    let inc = u64_from_be_bytes(payload, 0);
    proof {
        assert(payload@.subrange(0, 8) =~= payload@);
        if !created {
            assert(old(user_pda).data@.subrange(0, 8) =~= old(user_pda).data@);
        }
    }
    if old_balance > u64::MAX - inc {
        return Err(LedgerError::ArithmeticOverflow);
    }
    if created {
        match create_account(user, user_pda, rent_exemption, 8, program_id) {
            Ok(_) => (),
            Err(e) => { return Err(e) },
        }
    }
    let new_balance = old_balance + inc;
    user_pda.data = u64_to_be_bytes(new_balance);
    proof {
        lemma_u64_be_round_trip(new_balance);
        assert(user_pda.data@.subrange(0, 8) =~= user_pda.data@);
    }
    Ok(())
}

/// The full decision transferring between two balance records makes over
/// its pre-state: whether the destination record is first created, and
/// both new balances — or the error that aborts the instruction before
/// any effect.
pub open spec fn spec_ledger_transfer_outcome(
    user: AccountHandle,
    user_pda: AccountHandle,
    into: AccountHandle,
    into_pda: AccountHandle,
    payload: Seq<u8>,
    rent_exemption: u64,
    program_id: Seq<u8>,
) -> Result<(bool, u64, u64), LedgerError> {
    if !user.is_signer {
        Err(LedgerError::NotSigner)
    } else if payload.len() != 8 {
        Err(LedgerError::InvalidInstructionData)
    } else {
        match spec_try_find_pda(spec_ledger_pda_seeds(user.address@), program_id) {
            Option::None => Err(LedgerError::InvalidAddress),
            Option::Some(p) => {
                if !(p.0 =~= user_pda.address@) {
                    Err(LedgerError::InvalidAddress)
                } else {
                    match spec_try_find_pda(spec_ledger_pda_seeds(into.address@), program_id) {
                        Option::None => Err(LedgerError::InvalidAddress),
                        Option::Some(q) => {
                            if !(q.0 =~= into_pda.address@) {
                                Err(LedgerError::InvalidAddress)
                            } else {
                                let created = into_pda.lamports == 0;
                                if created && !spec_unclaimed(into_pda) {
                                    Err(LedgerError::InvalidAccountData)
                                } else if created && user.lamports < rent_exemption {
                                    Err(LedgerError::InvalidArgument)
                                } else if user_pda.data@.len() != 8 {
                                    Err(LedgerError::InvalidAccountData)
                                } else if !created && into_pda.data@.len() != 8 {
                                    Err(LedgerError::InvalidAccountData)
                                } else {
                                    let from_balance = spec_ledger_balance(user_pda.data@);
                                    let into_balance = if created {
                                        0u64
                                    } else {
                                        spec_ledger_balance(into_pda.data@)
                                    };
                                    let inc = spec_u64_from_be_bytes(payload);
                                    if from_balance < inc {
                                        Err(LedgerError::ArithmeticOverflow)
                                    } else if into_balance + inc > u64::MAX {
                                        Err(LedgerError::ArithmeticOverflow)
                                    } else {
                                        Ok(
                                            (
                                                created,
                                                (from_balance - inc) as u64,
                                                (into_balance + inc) as u64,
                                            ),
                                        )
                                    }
                                }
                            }
                        },
                    }
                }
            },
        }
    }
}

/// Transfers between two balance records: the sender signs, both records
/// must be the derived records of their owners, and the destination is
/// created at the sender's expense where it does not exist yet; the
/// 8-byte big-endian payload moves from one balance to the other,
/// refusing underflow and overflow — all of it or none of it.
pub fn process_instruction_transfer(
    user: &mut AccountHandle,
    user_pda: &mut AccountHandle,
    into: &AccountHandle,
    into_pda: &mut AccountHandle,
    payload: &[u8],
    rent_exemption: u64,
    program_id: &Address,
) -> (r: Result<(), LedgerError>)
    ensures
        (spec_ledger_transfer_outcome(
            *old(user),
            *old(user_pda),
            *into,
            *old(into_pda),
            payload@,
            rent_exemption,
            program_id@,
        ) is Err) ==> r == Err::<(), LedgerError>(
            spec_ledger_transfer_outcome(
                *old(user),
                *old(user_pda),
                *into,
                *old(into_pda),
                payload@,
                rent_exemption,
                program_id@,
            )->Err_0,
        ) && *final(user) == *old(user) && *final(user_pda) == *old(user_pda) && *final(into_pda)
            == *old(into_pda),
        (spec_ledger_transfer_outcome(
            *old(user),
            *old(user_pda),
            *into,
            *old(into_pda),
            payload@,
            rent_exemption,
            program_id@,
        ) is Ok) ==> r is Ok && {
            let p = spec_ledger_transfer_outcome(
                *old(user),
                *old(user_pda),
                *into,
                *old(into_pda),
                payload@,
                rent_exemption,
                program_id@,
            )->Ok_0;
            &&& final(user_pda).data@.len() == 8
            &&& spec_ledger_balance(final(user_pda).data@) == p.1
            &&& final(into_pda).data@.len() == 8
            &&& spec_ledger_balance(final(into_pda).data@) == p.2
            &&& final(user_pda).address == old(user_pda).address
            &&& final(into_pda).address == old(into_pda).address
            &&& final(user_pda).lamports == old(user_pda).lamports
            &&& spec_same_but_lamports(*old(user), *final(user))
            &&& (p.0 ==> final(user).lamports == old(user).lamports - rent_exemption && final(into_pda).lamports == rent_exemption && final(into_pda).owner@ =~= program_id@)
            &&& (!p.0 ==> final(user).lamports == old(user).lamports && final(into_pda).lamports
                == old(into_pda).lamports && final(into_pda).owner == old(into_pda).owner)
        },
{
    if !user.is_signer {
        return Err(LedgerError::NotSigner);
    }
    if payload.len() != 8 {
        return Err(LedgerError::InvalidInstructionData);
    }
    let seeds = ledger_pda_seeds(&user.address);
    match try_find_pda(&seeds, program_id) {
        Option::None => { return Err(LedgerError::InvalidAddress) },
        Option::Some(p) => {
            if !user_pda.has_address(&p.0) {
                return Err(LedgerError::InvalidAddress);
            }
        },
    }
    let into_seeds = ledger_pda_seeds(&into.address);
    match try_find_pda(&into_seeds, program_id) {
        Option::None => { return Err(LedgerError::InvalidAddress) },
        Option::Some(q) => {
            if !into_pda.has_address(&q.0) {
                return Err(LedgerError::InvalidAddress);
            }
        },
    }
    let created = into_pda.lamports == 0;
    if created {
        if !(into_pda.owned_by(&crate::addr::SYSTEM_PROGRAM_ID) && into_pda.data.len() == 0) {
            return Err(LedgerError::InvalidAccountData);
        }
        if user.lamports < rent_exemption {
            return Err(LedgerError::InvalidArgument);
        }
    }
    if user_pda.data.len() != 8 {
        return Err(LedgerError::InvalidAccountData);
    }
    if !created && into_pda.data.len() != 8 {
        return Err(LedgerError::InvalidAccountData);
    }
    let from_balance = u64_from_be_bytes(user_pda.data.as_slice(), 0);
    let into_balance: u64 = if created {
        0
    } else {
        u64_from_be_bytes(into_pda.data.as_slice(), 0)
    };
    let inc = u64_from_be_bytes(payload, 0);
    proof {
        assert(payload@.subrange(0, 8) =~= payload@);
        assert(old(user_pda).data@.subrange(0, 8) =~= old(user_pda).data@);
        if !created {
            assert(old(into_pda).data@.subrange(0, 8) =~= old(into_pda).data@);
        }
    }
    if from_balance < inc {
        return Err(LedgerError::ArithmeticOverflow);
    }
    if into_balance > u64::MAX - inc {
        return Err(LedgerError::ArithmeticOverflow);
    }
    if created {
        match create_account(user, into_pda, rent_exemption, 8, program_id) {
            Ok(_) => (),
            Err(e) => { return Err(e) },
        }
    }
    let new_from = from_balance - inc;
    let new_into = into_balance + inc;
    user_pda.data = u64_to_be_bytes(new_from);
    into_pda.data = u64_to_be_bytes(new_into);
    proof {
        lemma_u64_be_round_trip(new_from);
        lemma_u64_be_round_trip(new_into);
        assert(user_pda.data@.subrange(0, 8) =~= user_pda.data@);
        assert(into_pda.data@.subrange(0, 8) =~= into_pda.data@);
    }
    Ok(())
}

} // verus!
