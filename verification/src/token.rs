use vstd::prelude::*;

use crate::account::AccountHandle;
use crate::bytes::write_u64_le_at;
use crate::errors::LedgerError;

verus! {

/// Byte length of a legacy token-account record.
pub const TOKEN_ACCOUNT_LEN: usize = 165;

/// Byte length of a mint record.
pub const MINT_LEN: usize = 82;

/// The mint an existing token-account record names.
pub open spec fn spec_token_mint(d: Seq<u8>) -> Seq<u8>
    recommends
        d.len() >= 32,
{
    d.subrange(0, 32)
}

/// The holder an existing token-account record names.
pub open spec fn spec_token_owner(d: Seq<u8>) -> Seq<u8>
    recommends
        d.len() >= 64,
{
    d.subrange(32, 64)
}

/// The balance an existing token-account record carries.
pub open spec fn spec_token_amount(d: Seq<u8>) -> u64
    recommends
        d.len() >= 72,
{
    vstd::bytes::spec_u64_from_le_bytes(d.subrange(64, 72))
}

/// The outstanding supply a mint record carries.
pub open spec fn spec_mint_supply(d: Seq<u8>) -> u64
    recommends
        d.len() >= 44,
{
    vstd::bytes::spec_u64_from_le_bytes(d.subrange(36, 44))
}

/// A token-account handle whose record changed in nothing but the balance,
/// and whose handle-level fields did not change at all.
pub open spec fn spec_token_rebalanced(pre: AccountHandle, post: AccountHandle, v: u64) -> bool {
    &&& post.data@.len() == pre.data@.len()
    &&& spec_token_amount(post.data@) == v
    &&& spec_token_mint(post.data@) =~= spec_token_mint(pre.data@)
    &&& spec_token_owner(post.data@) =~= spec_token_owner(pre.data@)
    &&& post.address == pre.address
    &&& post.owner == pre.owner
    &&& post.lamports == pre.lamports
    &&& post.is_signer == pre.is_signer
}

/// A mint handle whose record changed in nothing but the supply, and whose
/// handle-level fields did not change at all.
pub open spec fn spec_mint_resupplied(pre: AccountHandle, post: AccountHandle, v: u64) -> bool {
    &&& post.data@.len() == pre.data@.len()
    &&& spec_mint_supply(post.data@) == v
    &&& post.address == pre.address
    &&& post.owner == pre.owner
    &&& post.lamports == pre.lamports
    &&& post.is_signer == pre.is_signer
}

/// Reads the balance out of a token-account handle, after the length check
/// a typed load of the record performs.
pub fn read_token_amount(a: &AccountHandle) -> (r: Result<u64, LedgerError>)
    ensures
        r is Ok <==> a.data@.len() == TOKEN_ACCOUNT_LEN,
        r is Err ==> r == Err::<u64, LedgerError>(LedgerError::InvalidAccountData),
        r is Ok ==> r.unwrap() == spec_token_amount(a.data@),
{
    if a.data.len() != TOKEN_ACCOUNT_LEN {
        return Err(LedgerError::InvalidAccountData);
    }
    let s = vstd::slice::slice_subrange(a.data.as_slice(), 64, 72);
    Ok(vstd::bytes::u64_from_le_bytes(s))
}

/// Reads the supply out of a mint handle, after the length check a typed
/// load of the record performs.
pub fn read_mint_supply(a: &AccountHandle) -> (r: Result<u64, LedgerError>)
    ensures
        r is Ok <==> a.data@.len() == MINT_LEN,
        r is Err ==> r == Err::<u64, LedgerError>(LedgerError::InvalidAccountData),
        r is Ok ==> r.unwrap() == spec_mint_supply(a.data@),
{
    if a.data.len() != MINT_LEN {
        return Err(LedgerError::InvalidAccountData);
    }
    let s = vstd::slice::slice_subrange(a.data.as_slice(), 36, 44);
    Ok(vstd::bytes::u64_from_le_bytes(s))
}

/// Overwrites the balance field of a token-account record, leaving every
/// other field of the record and of the handle as it was.
pub fn write_token_amount(a: &mut AccountHandle, v: u64)
    requires
        old(a).data@.len() >= 72,
    ensures
        spec_token_rebalanced(*old(a), *final(a), v),
        forall|j: int|
            0 <= j < final(a).data@.len() && !(64 <= j < 72) ==> final(a).data@[j] == old(
                a,
            ).data@[j],
{
    write_u64_le_at(&mut a.data, 64, v);
    proof {
        vstd::bytes::lemma_auto_spec_u64_to_from_le_bytes();
    }
}

/// Overwrites the supply field of a mint record, leaving every other field
/// of the record and of the handle as it was.
pub fn write_mint_supply(a: &mut AccountHandle, v: u64)
    requires
        old(a).data@.len() >= 44,
    ensures
        spec_mint_resupplied(*old(a), *final(a), v),
        forall|j: int|
            0 <= j < final(a).data@.len() && !(36 <= j < 44) ==> final(a).data@[j] == old(
                a,
            ).data@[j],
{
    write_u64_le_at(&mut a.data, 36, v);
    proof {
        vstd::bytes::lemma_auto_spec_u64_to_from_le_bytes();
    }
}

/// A fresh token-account record for a holder and mint: empty balance,
/// every other byte zero.
pub fn new_token_account_data(mint: &crate::addr::Address, owner: &crate::addr::Address) -> (r:
    Vec<u8>)
    ensures
        r@.len() == TOKEN_ACCOUNT_LEN,
        spec_token_mint(r@) =~= mint@,
        spec_token_owner(r@) =~= owner@,
        spec_token_amount(r@) == 0,
{
    let mut r = crate::addr::addr_to_vec(mint);
    crate::addr::push_addr(&mut r, owner);
    let mut rest = crate::bytes::zero_bytes(101);
    r.append(&mut rest);
    write_u64_le_at(&mut r, 64, 0);
    proof {
        vstd::bytes::lemma_auto_spec_u64_to_from_le_bytes();
        assert(spec_token_mint(r@) =~= mint@);
        assert(spec_token_owner(r@) =~= owner@);
        assert(r@.subrange(64, 72) =~= vstd::bytes::spec_u64_to_le_bytes(0u64));
    }
    r
}

/// Whether a mint record carries the initialized mark.
pub open spec fn spec_mint_initialized(d: Seq<u8>) -> bool
    recommends
        d.len() == MINT_LEN,
{
    d[45] != 0
}

/// The decimals byte of a mint record.
pub open spec fn spec_mint_decimals(d: Seq<u8>) -> u8
    recommends
        d.len() == MINT_LEN,
{
    d[44]
}

/// The minting authority a mint record names.
pub open spec fn spec_mint_authority(d: Seq<u8>) -> Seq<u8>
    recommends
        d.len() == MINT_LEN,
{
    d.subrange(4, 36)
}

/// Initialization of a fresh mint record, as the token ledger performs
/// it: the record must have a mint's exact size and not be initialized
/// yet; it then carries the given authority and decimals, zero supply,
/// and the initialized mark.
pub fn init_mint_record(a: &mut AccountHandle, authority: &crate::addr::Address, decimals: u8) -> (r: Result<
    (),
    LedgerError,
>)
    ensures
        r is Ok <==> old(a).data@.len() == MINT_LEN && !spec_mint_initialized(old(a).data@),
        r is Err ==> r == Err::<(), LedgerError>(LedgerError::InvalidAccountData) && *final(a)
            == *old(a),
        r is Ok ==> final(a).data@.len() == MINT_LEN && spec_mint_supply(final(a).data@) == 0
            && spec_mint_decimals(final(a).data@) == decimals && spec_mint_authority(
            final(a).data@,
        ) =~= authority@ && spec_mint_initialized(final(a).data@),
        final(a).address == old(a).address,
        final(a).owner == old(a).owner,
        final(a).lamports == old(a).lamports,
        final(a).is_signer == old(a).is_signer,
{
    if a.data.len() != MINT_LEN {
        return Err(LedgerError::InvalidAccountData);
    }
    if a.data[45] != 0 {
        return Err(LedgerError::InvalidAccountData);
    }
    a.data[0] = 1;
    a.data[1] = 0;
    a.data[2] = 0;
    a.data[3] = 0;
    let mut i: usize = 0;
    while i < 32
        invariant
            i <= 32,
            a.data@.len() == MINT_LEN,
            forall|j: int| 0 <= j < i ==> a.data@[4 + j] == authority@[j],
            a.address == old(a).address,
            a.owner == old(a).owner,
            a.lamports == old(a).lamports,
            a.is_signer == old(a).is_signer,
            a.data@[45] == old(a).data@[45],
        decreases 32 - i,
    {
        a.data[4 + i] = authority[i];
        i += 1;
    }
    write_u64_le_at(&mut a.data, 36, 0);
    a.data[44] = decimals;
    a.data[45] = 1;
    proof {
        vstd::bytes::lemma_auto_spec_u64_to_from_le_bytes();
        assert(a.data@.subrange(36, 44) =~= vstd::bytes::spec_u64_to_le_bytes(0u64));
        assert(spec_mint_authority(a.data@) =~= authority@);
    }
    Ok(())
}

/// An authorized transfer between two token accounts, all or nothing, as
/// the token ledger performs it: the source must cover the amount and the
/// destination must be able to hold it, else nothing moves.
pub fn token_transfer(from: &mut AccountHandle, to: &mut AccountHandle, amount: u64) -> (r: Result<
    (),
    LedgerError,
>)
    requires
        old(from).data@.len() == TOKEN_ACCOUNT_LEN,
        old(to).data@.len() == TOKEN_ACCOUNT_LEN,
    ensures
        r is Ok <==> spec_token_amount(old(from).data@) >= amount && spec_token_amount(
            old(to).data@,
        ) + amount <= u64::MAX,
        spec_token_amount(old(from).data@) < amount ==> r == Err::<(), LedgerError>(
            LedgerError::InvalidArgument,
        ),
        r is Err ==> *final(from) == *old(from) && *final(to) == *old(to),
        r is Ok ==> spec_token_rebalanced(
            *old(from),
            *final(from),
            (spec_token_amount(old(from).data@) - amount) as u64,
        ),
        r is Ok ==> spec_token_rebalanced(
            *old(to),
            *final(to),
            (spec_token_amount(old(to).data@) + amount) as u64,
        ),
{
    let from_amt = match read_token_amount(from) {
        Ok(v) => v,
        Err(e) => { return Err(e) },
    };
    let to_amt = match read_token_amount(to) {
        Ok(v) => v,
        Err(e) => { return Err(e) },
    };
    if from_amt < amount {
        return Err(LedgerError::InvalidArgument);
    }
    if to_amt > u64::MAX - amount {
        return Err(LedgerError::ArithmeticOverflow);
    }
    write_token_amount(from, from_amt - amount);
    write_token_amount(to, to_amt + amount);
    Ok(())
}

/// Minting of new tokens into an account under the mint's authority, as the
/// token ledger performs it: the supply and the destination balance both
/// grow by the amount, or nothing changes.
pub fn token_mint_to(mint: &mut AccountHandle, to: &mut AccountHandle, amount: u64) -> (r: Result<
    (),
    LedgerError,
>)
    requires
        old(mint).data@.len() == MINT_LEN,
        old(to).data@.len() == TOKEN_ACCOUNT_LEN,
    ensures
        r is Ok <==> spec_mint_supply(old(mint).data@) + amount <= u64::MAX && spec_token_amount(
            old(to).data@,
        ) + amount <= u64::MAX,
        r is Err ==> r == Err::<(), LedgerError>(LedgerError::ArithmeticOverflow),
        r is Err ==> *final(mint) == *old(mint) && *final(to) == *old(to),
        r is Ok ==> spec_mint_resupplied(
            *old(mint),
            *final(mint),
            (spec_mint_supply(old(mint).data@) + amount) as u64,
        ),
        r is Ok ==> spec_token_rebalanced(
            *old(to),
            *final(to),
            (spec_token_amount(old(to).data@) + amount) as u64,
        ),
{
    let supply = match read_mint_supply(mint) {
        Ok(v) => v,
        Err(e) => { return Err(e) },
    };
    let to_amt = match read_token_amount(to) {
        Ok(v) => v,
        Err(e) => { return Err(e) },
    };
    if supply > u64::MAX - amount {
        return Err(LedgerError::ArithmeticOverflow);
    }
    if to_amt > u64::MAX - amount {
        return Err(LedgerError::ArithmeticOverflow);
    }
    write_mint_supply(mint, supply + amount);
    write_token_amount(to, to_amt + amount);
    Ok(())
}

/// Burning of tokens from an account, as the token ledger performs it: the
/// supply and the account balance both shrink by the amount, or nothing
/// changes.  A balance that cannot cover the amount fails `InvalidArgument`.
pub fn token_burn(mint: &mut AccountHandle, from: &mut AccountHandle, amount: u64) -> (r: Result<
    (),
    LedgerError,
>)
    requires
        old(mint).data@.len() == MINT_LEN,
        old(from).data@.len() == TOKEN_ACCOUNT_LEN,
    ensures
        r is Ok <==> spec_token_amount(old(from).data@) >= amount && spec_mint_supply(
            old(mint).data@,
        ) >= amount,
        r is Err ==> r == Err::<(), LedgerError>(LedgerError::InvalidArgument),
        r is Err ==> *final(mint) == *old(mint) && *final(from) == *old(from),
        r is Ok ==> spec_mint_resupplied(
            *old(mint),
            *final(mint),
            (spec_mint_supply(old(mint).data@) - amount) as u64,
        ),
        r is Ok ==> spec_token_rebalanced(
            *old(from),
            *final(from),
            (spec_token_amount(old(from).data@) - amount) as u64,
        ),
{
    let supply = match read_mint_supply(mint) {
        Ok(v) => v,
        Err(e) => { return Err(e) },
    };
    let from_amt = match read_token_amount(from) {
        Ok(v) => v,
        Err(e) => { return Err(e) },
    };
    if from_amt < amount {
        return Err(LedgerError::InvalidArgument);
    }
    if supply < amount {
        return Err(LedgerError::InvalidArgument);
    }
    write_mint_supply(mint, supply - amount);
    write_token_amount(from, from_amt - amount);
    Ok(())
}

} // verus!
