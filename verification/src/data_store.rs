use vstd::prelude::*;

use crate::account::{create_account, spec_same_but_lamports, spec_unclaimed, AccountHandle};
use crate::addr::{addr_eq, Address};
use crate::errors::LedgerError;
use crate::pda::{spec_create_pda, spec_try_find_pda, try_find_pda};
use crate::token_ledger::{ledger_pda_seeds, spec_ledger_pda_seeds};

verus! {

/// The full decision storing a payload in a user's data record makes
/// over its pre-state: whether the record is first created, or the error
/// that aborts the instruction before any effect.
pub open spec fn spec_store_outcome(
    user: AccountHandle,
    record: AccountHandle,
    payload: Seq<u8>,
    rent_exemption: u64,
    program_id: Seq<u8>,
) -> Result<bool, LedgerError> {
    if !user.is_signer {
        Err(LedgerError::NotSigner)
    } else {
        match spec_try_find_pda(spec_ledger_pda_seeds(user.address@), program_id) {
            Option::None => Err(LedgerError::InvalidAddress),
            Option::Some(p) => {
                if !(p.0 =~= record.address@) {
                    Err(LedgerError::InvalidAddress)
                } else {
                    let created = record.lamports == 0;
                    if created && !spec_unclaimed(record) {
                        Err(LedgerError::InvalidAccountData)
                    } else if created && user.lamports < rent_exemption {
                        Err(LedgerError::InvalidArgument)
                    } else if !created && rent_exemption > record.lamports && user.lamports
                        < rent_exemption - record.lamports {
                        Err(LedgerError::InvalidArgument)
                    } else if !created && rent_exemption < record.lamports && user.lamports + (
                    record.lamports - rent_exemption) > u64::MAX {
                        Err(LedgerError::ArithmeticOverflow)
                    } else {
                        Ok(created)
                    }
                }
            },
        }
    }
}

/// Stores a payload in the user's data record: the user signs and names
/// the record derived from their own address.  A record not yet funded is
/// created at the rent-exempt balance for the payload's size; an existing
/// record is topped up from the user where the rent minimum rose, or
/// refunds the surplus where it fell, then resizes to the payload and
/// holds it — all of it or none of it.
pub fn process_instruction(
    user: &mut AccountHandle,
    record: &mut AccountHandle,
    payload: &[u8],
    rent_exemption: u64,
    program_id: &Address,
) -> (r: Result<(), LedgerError>)
    ensures
        (spec_store_outcome(*old(user), *old(record), payload@, rent_exemption, program_id@)
            is Err) ==> r == Err::<(), LedgerError>(
            spec_store_outcome(
                *old(user),
                *old(record),
                payload@,
                rent_exemption,
                program_id@,
            )->Err_0,
        ) && *final(user) == *old(user) && *final(record) == *old(record),
        (spec_store_outcome(*old(user), *old(record), payload@, rent_exemption, program_id@)
            is Ok) ==> r is Ok && {
            let created = spec_store_outcome(
                *old(user),
                *old(record),
                payload@,
                rent_exemption,
                program_id@,
            )->Ok_0;
            &&& final(record).data@ =~= payload@
            &&& final(record).lamports == rent_exemption
            &&& final(record).address == old(record).address
            &&& (created ==> final(record).owner@ =~= program_id@)
            &&& (!created ==> final(record).owner == old(record).owner)
            &&& spec_same_but_lamports(*old(user), *final(user))
            &&& final(user).lamports == (if created {
                old(user).lamports - rent_exemption
            } else {
                old(user).lamports + old(record).lamports - rent_exemption
            })
        },
{
    if !user.is_signer {
        return Err(LedgerError::NotSigner);
    }
    let seeds = ledger_pda_seeds(&user.address);
    match try_find_pda(&seeds, program_id) {
        Option::None => { return Err(LedgerError::InvalidAddress) },
        Option::Some(p) => {
            if !record.has_address(&p.0) {
                return Err(LedgerError::InvalidAddress);
            }
        },
    }
    let created = record.lamports == 0;
    if created {
        if !(record.owned_by(&crate::addr::SYSTEM_PROGRAM_ID) && record.data.len() == 0) {
            return Err(LedgerError::InvalidAccountData);
        }
        if user.lamports < rent_exemption {
            return Err(LedgerError::InvalidArgument);
        }
        match create_account(user, record, rent_exemption, payload.len(), program_id) {
            Ok(_) => (),
            Err(e) => { return Err(e) },
        }
        record.data = vstd::slice::slice_to_vec(payload);
        return Ok(());
    }
    if rent_exemption > record.lamports {
        let top_up = rent_exemption - record.lamports;
        if user.lamports < top_up {
            return Err(LedgerError::InvalidArgument);
        }
        user.lamports = user.lamports - top_up;
        record.lamports = rent_exemption;
    } else if rent_exemption < record.lamports {
        let refund = record.lamports - rent_exemption;
        if user.lamports > u64::MAX - refund {
            return Err(LedgerError::ArithmeticOverflow);
        }
        user.lamports = user.lamports + refund;
        record.lamports = rent_exemption;
    }
    record.data = vstd::slice::slice_to_vec(payload);
    Ok(())
}

/// The fixed first seed of an owner-checked data record's derivation:
/// the bytes of `"data"`.
pub open spec fn spec_data_tag() -> Seq<u8> {
    seq![100u8, 97u8, 116u8, 97u8]
}

/// The seed tuple of a user's owner-checked data record: the tag, then
/// the user.
pub open spec fn spec_data_pda_seeds(user: Seq<u8>) -> Seq<Seq<u8>> {
    seq![spec_data_tag(), user]
}

/// Builds the owner-checked data record's seed tuple for a user.
pub fn data_pda_seeds(user: &Address) -> (r: Vec<Vec<u8>>)
    ensures
        r.deep_view() =~~= spec_data_pda_seeds(user@),
        forall|i: int|
            0 <= i < r.deep_view().len() ==> #[trigger] r.deep_view()[i].len()
                <= crate::pda::MAX_SEED_LEN,
{
    let mut tag: Vec<u8> = Vec::new();
    tag.push(100);
    tag.push(97);
    tag.push(116);
    tag.push(97);
    let mut r: Vec<Vec<u8>> = Vec::new();
    r.push(tag);
    r.push(crate::addr::addr_to_vec(user));
    proof {
        assert(r.deep_view() =~~= spec_data_pda_seeds(user@));
    }
    r
}

/// The persistent record of the owner-checked data store: the recorded
/// owner, the cached bump, and the held bytes.
pub struct Data {
    pub auth: Address,
    pub bump: u8,
    pub data: Vec<u8>,
}

/// Validation creating an owner-checked data record demands: the user
/// signs, and the record's handle sits at the address freshly derived
/// from the tagged seeds — the found bump comes back for caching.
pub fn validate_initialize(user: &AccountHandle, record_address: &Address) -> (r: Result<
    u8,
    LedgerError,
>)
    ensures
        !user.is_signer ==> r == Err::<u8, LedgerError>(LedgerError::NotSigner),
        user.is_signer ==> (r == (match spec_try_find_pda(
            spec_data_pda_seeds(user.address@),
            crate::addr::PROGRAM_ID@,
        ) {
            Option::Some(p) => if p.0 =~= record_address@ {
                Ok::<u8, LedgerError>(p.1)
            } else {
                Err(LedgerError::InvalidAddress)
            },
            Option::None => Err(LedgerError::InvalidAddress),
        })),
{
    if !user.is_signer {
        return Err(LedgerError::NotSigner);
    }
    let seeds = data_pda_seeds(&user.address);
    match try_find_pda(&seeds, &crate::addr::PROGRAM_ID) {
        Option::None => Err(LedgerError::InvalidAddress),
        Option::Some(p) => {
            if crate::addr::addr_eq(&p.0, record_address) {
                Ok(p.1)
            } else {
                Err(LedgerError::InvalidAddress)
            }
        },
    }
}

/// Validation updating an owner-checked data record demands: the user
/// signs; replaying the derivation from the tagged seeds and the stored
/// bump gives the record's own address back — a cached bump is never
/// trusted without this replay; and the user is the recorded owner.
pub fn validate_update(user: &AccountHandle, record: &Data, record_address: &Address) -> (r:
    Result<(), LedgerError>)
    ensures
        !user.is_signer ==> r == Err::<(), LedgerError>(LedgerError::NotSigner),
        user.is_signer ==> (r == (match spec_create_pda(
            spec_data_pda_seeds(user.address@).push(seq![record.bump]),
            crate::addr::PROGRAM_ID@,
        ) {
            Option::Some(addr) => if !(addr =~= record_address@) {
                Err::<(), LedgerError>(LedgerError::InvalidAddress)
            } else if !(record.auth@ =~= user.address@) {
                Err(LedgerError::InvalidOwner)
            } else {
                Ok(())
            },
            Option::None => Err(LedgerError::InvalidAddress),
        })),
{
    if !user.is_signer {
        return Err(LedgerError::NotSigner);
    }
    let seeds = data_pda_seeds(&user.address);
    match crate::pda::replay_derivation(&seeds, record.bump, &crate::addr::PROGRAM_ID) {
        Option::None => { return Err(LedgerError::InvalidAddress) },
        Option::Some(addr) => {
            if !crate::addr::addr_eq(&addr, record_address) {
                return Err(LedgerError::InvalidAddress);
            }
        },
    }
    if !crate::addr::addr_eq(&record.auth, &user.address) {
        return Err(LedgerError::InvalidOwner);
    }
    Ok(())
}

impl Data {
    /// The account space such a record needs: an 8-byte record tag, the
    /// owner, the bump, a 4-byte length prefix, then the bytes.
    pub fn space_for(data_len: usize) -> (r: usize)
        requires
            data_len <= usize::MAX - 45,
        ensures
            r == 45 + data_len,
    {
        8 + 32 + 1 + 4 + data_len
    }
}

/// Creation of a fresh data record for a user: the user becomes its
/// recorded owner, the found bump is cached, and the record starts empty.
pub fn initialize(user: &AccountHandle, bump: u8) -> (d: Data)
    ensures
        d.auth == user.address,
        d.bump == bump,
        d.data@ =~= Seq::<u8>::empty(),
{
    Data { auth: user.address, bump, data: Vec::new() }
}

/// Replaces the record's bytes, only for its recorded owner — anyone
/// else fails `InvalidOwner` — and refunds the user any native balance
/// the shrunken record no longer needs above its new rent minimum.
pub fn update(
    record: &mut Data,
    record_lamports: &mut u64,
    user: &mut AccountHandle,
    new_data: &[u8],
    rent_exemption: u64,
) -> (r: Result<(), LedgerError>)
    requires
        old(user).lamports + *old(record_lamports) <= u64::MAX,
    ensures
        !(old(user).address@ =~= old(record).auth@) ==> r == Err::<(), LedgerError>(
            LedgerError::InvalidOwner,
        ) && *final(record) == *old(record) && *final(record_lamports) == *old(record_lamports)
            && *final(user) == *old(user),
        (old(user).address@ =~= old(record).auth@) ==> r is Ok && final(record).data@ =~= new_data@
            && final(record).auth == old(record).auth && final(record).bump == old(record).bump
            && spec_same_but_lamports(*old(user), *final(user)) && (if old(record_lamports)
            > rent_exemption {
            *final(record_lamports) == rent_exemption && final(user).lamports == old(user).lamports
                + *old(record_lamports) - rent_exemption
        } else {
            *final(record_lamports) == *old(record_lamports) && final(user).lamports == old(
                user,
            ).lamports
        }),
{
    if !addr_eq(&user.address, &record.auth) {
        return Err(LedgerError::InvalidOwner);
    }
    record.data = vstd::slice::slice_to_vec(new_data);
    if *record_lamports > rent_exemption {
        let refund = *record_lamports - rent_exemption;
        *record_lamports = rent_exemption;
        user.lamports = user.lamports + refund;
    }
    Ok(())
}

} // verus!
