use vstd::prelude::*;

use crate::addr::{Address, SYSTEM_PROGRAM_ID};
use crate::addr::addr_eq;
use crate::bytes::{clone_bytes, zero_bytes};
use crate::errors::LedgerError;

verus! {

/// The model of a resource handle: everything an instruction may read of a
/// ledger account, held as plain values for the instruction's duration.
pub struct AccountHandle {
    /// The account's own address.
    pub address: Address,
    /// Identity of the program that owns the account.
    pub owner: Address,
    /// Native balance.
    pub lamports: u64,
    /// Raw account data.
    pub data: Vec<u8>,
    /// Whether the transaction submitter cosigned for this address.
    pub is_signer: bool,
}

/// Two handle states that agree on every observable field.
pub open spec fn spec_handle_eq(a: AccountHandle, b: AccountHandle) -> bool {
    &&& a.address == b.address
    &&& a.owner == b.owner
    &&& a.lamports == b.lamports
    &&& a.data@ =~= b.data@
    &&& a.is_signer == b.is_signer
}

/// Two handle states that agree on everything but the native balance.
pub open spec fn spec_same_but_lamports(pre: AccountHandle, post: AccountHandle) -> bool {
    &&& post.address == pre.address
    &&& post.owner == pre.owner
    &&& post.data@ =~= pre.data@
    &&& post.is_signer == pre.is_signer
}

impl Clone for AccountHandle {
    fn clone(&self) -> (r: Self)
        ensures
            r.address == self.address,
            r.owner == self.owner,
            r.lamports == self.lamports,
            r.data@ =~= self.data@,
            r.is_signer == self.is_signer,
    {
        AccountHandle {
            address: self.address,
            owner: self.owner,
            lamports: self.lamports,
            data: clone_bytes(&self.data),
            is_signer: self.is_signer,
        }
    }
}

impl AccountHandle {
    /// Length of the account's data.
    pub fn data_len(&self) -> (n: usize)
        ensures
            n == self.data@.len(),
    {
        self.data.len()
    }

    /// Whether the account is owned by the given program.
    pub fn owned_by(&self, program: &Address) -> (r: bool)
        ensures
            r <==> self.owner@ =~= program@,
    {
        addr_eq(&self.owner, program)
    }

    /// Whether the handle's own address equals the given one.
    pub fn has_address(&self, a: &Address) -> (r: bool)
        ensures
            r <==> self.address@ =~= a@,
    {
        addr_eq(&self.address, a)
    }
}

/// What must hold for the system ledger to create an account at `to`:
/// the target is still unclaimed and the payer can fund it.
pub open spec fn spec_can_create(payer: AccountHandle, to: AccountHandle, lamports: u64) -> bool {
    &&& spec_unclaimed(to)
    &&& payer.lamports >= lamports
}

/// An account no program has claimed yet.
pub open spec fn spec_unclaimed(a: AccountHandle) -> bool {
    &&& a.owner@ =~= SYSTEM_PROGRAM_ID@
    &&& a.lamports == 0
    &&& a.data@.len() == 0
}

/// Creation of a fresh account funded by `payer`, as the system ledger
/// performs it: the target must be unclaimed, and receives the requested
/// space (zeroed) and native balance under the new owner.
///
/// An already-claimed target fails `InvalidAccountData` (an address
/// collision); a payer without the funds fails `InvalidArgument`.
pub fn create_account(
    payer: &mut AccountHandle,
    to: &mut AccountHandle,
    lamports: u64,
    space: usize,
    owner: &Address,
) -> (r: Result<(), LedgerError>)
    ensures
        r is Ok <==> spec_can_create(*old(payer), *old(to), lamports),
        r is Err ==> *final(payer) == *old(payer) && *final(to) == *old(to),
        r is Err && !spec_unclaimed(*old(to)) ==> r == Err::<(), LedgerError>(
            LedgerError::InvalidAccountData,
        ),
        r is Err && spec_unclaimed(*old(to)) ==> r == Err::<(), LedgerError>(
            LedgerError::InvalidArgument,
        ),
        r is Ok ==> spec_same_but_lamports(*old(payer), *final(payer)) && final(payer).lamports
            == old(payer).lamports - lamports,
        r is Ok ==> final(to).lamports == lamports && final(to).owner@ =~= owner@
            && final(to).data@.len() == space && (forall|j: int|
            0 <= j < space ==> final(to).data@[j] == 0u8) && final(to).address == old(to).address
            && final(to).is_signer == old(to).is_signer,
{
    let unclaimed = to.owned_by(&SYSTEM_PROGRAM_ID) && to.lamports == 0 && to.data.len() == 0;
    if !unclaimed {
        return Err(LedgerError::InvalidAccountData);
    }
    if payer.lamports < lamports {
        return Err(LedgerError::InvalidArgument);
    }
    payer.lamports = payer.lamports - lamports;
    to.lamports = lamports;
    to.owner = *owner;
    to.data = zero_bytes(space);
    Ok(())
}

/// Closing of a program-owned account: a tombstone byte replaces the data,
/// the account shrinks to that single byte, and its whole native balance
/// moves to `dest`.  A later typed load of the closed account fails its
/// length check.
pub fn close_account(acct: &mut AccountHandle, dest: &mut AccountHandle)
    requires
        old(dest).lamports + old(acct).lamports <= u64::MAX,
    ensures
        final(acct).data@ =~= seq![0xffu8],
        final(acct).lamports == 0,
        final(acct).address == old(acct).address,
        final(acct).owner == old(acct).owner,
        final(acct).is_signer == old(acct).is_signer,
        spec_same_but_lamports(*old(dest), *final(dest)),
        final(dest).lamports == old(dest).lamports + old(acct).lamports,
{
    dest.lamports = dest.lamports + acct.lamports;
    acct.lamports = 0;
    let mut tomb: Vec<u8> = Vec::new();
    tomb.push(0xff);
    acct.data = tomb;
}

/// Moves native balance between two accounts, as the system ledger's
/// transfer does.  Fails `InvalidArgument` if the source cannot cover the
/// amount, `ArithmeticOverflow` if the destination cannot hold it.
pub fn lamport_transfer(from: &mut AccountHandle, to: &mut AccountHandle, lamports: u64) -> (r:
    Result<(), LedgerError>)
    ensures
        r is Ok <==> old(from).lamports >= lamports && old(to).lamports + lamports <= u64::MAX,
        r is Err ==> *final(from) == *old(from) && *final(to) == *old(to),
        old(from).lamports < lamports ==> r == Err::<(), LedgerError>(LedgerError::InvalidArgument),
        r is Ok ==> spec_same_but_lamports(*old(from), *final(from)) && final(from).lamports == old(
            from,
        ).lamports - lamports,
        r is Ok ==> spec_same_but_lamports(*old(to), *final(to)) && final(to).lamports == old(
            to,
        ).lamports + lamports,
{
    if from.lamports < lamports {
        return Err(LedgerError::InvalidArgument);
    }
    if to.lamports > u64::MAX - lamports {
        return Err(LedgerError::ArithmeticOverflow);
    }
    from.lamports = from.lamports - lamports;
    to.lamports = to.lamports + lamports;
    Ok(())
}

} // verus!
