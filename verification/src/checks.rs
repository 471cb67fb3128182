use vstd::prelude::*;

use crate::account::AccountHandle;
use crate::addr::{
    addr_to_vec, Address, ASSOCIATED_TOKEN_PROGRAM_ID, SYSTEM_PROGRAM_ID, TOKEN_2022_PROGRAM_ID,
    TOKEN_PROGRAM_ID,
};
use crate::errors::LedgerError;
use crate::pda::{spec_try_find_pda, try_find_pda};
use crate::token::MINT_LEN;
use crate::token::TOKEN_ACCOUNT_LEN;

verus! {

/// Offset of the record-kind tag in an extended token-ledger account.
pub const TOKEN_2022_DISCRIMINATOR_OFFSET: usize = 165;

/// Tag of a mint record in an extended token-ledger account.
pub const TOKEN_2022_MINT_DISCRIMINATOR: u8 = 1;

/// Tag of a token-account record in an extended token-ledger account.
pub const TOKEN_2022_TOKEN_ACCOUNT_DISCRIMINATOR: u8 = 2;

/// Capability: the handle was cosigned by the transaction submitter.
pub struct SignerAccount;

impl SignerAccount {
    /// Fails `NotSigner` unless the submitter cosigned for the handle.
    pub fn check(account: &AccountHandle) -> (r: Result<(), LedgerError>)
        ensures
            r is Ok <==> account.is_signer,
            r is Err ==> r == Err::<(), LedgerError>(LedgerError::NotSigner),
    {
        if !account.is_signer {
            return Err(LedgerError::NotSigner);
        }
        Ok(())
    }
}

/// Capability: the handle is owned by the system program.
pub struct SystemAccount;

impl SystemAccount {
    /// Fails `InvalidOwner` unless the system program owns the handle.
    pub fn check(account: &AccountHandle) -> (r: Result<(), LedgerError>)
        ensures
            r is Ok <==> account.owner@ =~= SYSTEM_PROGRAM_ID@,
            r is Err ==> r == Err::<(), LedgerError>(LedgerError::InvalidOwner),
    {
        if !account.owned_by(&SYSTEM_PROGRAM_ID) {
            return Err(LedgerError::InvalidOwner);
        }
        Ok(())
    }
}

/// The decision a record-interface check makes for a handle, given the
/// exact record length of the legacy layout and the extended tag expected:
/// a handle of the legacy token ledger must have exactly the legacy
/// length; one of the extended token ledger may instead be long enough to
/// carry the expected record tag at the fixed legacy-record offset; any
/// other owner is refused outright.
pub open spec fn spec_interface_check(
    a: AccountHandle,
    legacy_len: int,
    tag: u8,
) -> Result<(), LedgerError> {
    if a.owner@ =~= TOKEN_2022_PROGRAM_ID@ {
        if a.data@.len() == legacy_len {
            Ok(())
        } else if a.data@.len() <= TOKEN_2022_DISCRIMINATOR_OFFSET {
            Err(LedgerError::InvalidAccountData)
        } else if a.data@[TOKEN_2022_DISCRIMINATOR_OFFSET as int] == tag {
            Ok(())
        } else {
            Err(LedgerError::InvalidAccountData)
        }
    } else if a.owner@ =~= TOKEN_PROGRAM_ID@ {
        if a.data@.len() == legacy_len {
            Ok(())
        } else {
            Err(LedgerError::InvalidAccountData)
        }
    } else {
        Err(LedgerError::InvalidOwner)
    }
}

fn interface_check(account: &AccountHandle, legacy_len: usize, tag: u8) -> (r: Result<
    (),
    LedgerError,
>)
    ensures
        r == spec_interface_check(*account, legacy_len as int, tag),
{
    if !account.owned_by(&TOKEN_2022_PROGRAM_ID) {
        if !account.owned_by(&TOKEN_PROGRAM_ID) {
            return Err(LedgerError::InvalidOwner);
        }
        if account.data.len() != legacy_len {
            return Err(LedgerError::InvalidAccountData);
        }
        return Ok(());
    }
    if account.data.len() == legacy_len {
        return Ok(());
    }
    if account.data.len() <= TOKEN_2022_DISCRIMINATOR_OFFSET {
        return Err(LedgerError::InvalidAccountData);
    }
    if account.data[TOKEN_2022_DISCRIMINATOR_OFFSET] != tag {
        return Err(LedgerError::InvalidAccountData);
    }
    Ok(())
}

/// Capability: the handle is a mint of either token-ledger program.
pub struct MintInterface;

impl MintInterface {
    /// Fails `InvalidOwner` if neither token-ledger program owns the
    /// handle, `InvalidAccountData` if the length or record tag does not
    /// describe a mint.
    pub fn check(account: &AccountHandle) -> (r: Result<(), LedgerError>)
        ensures
            r == spec_interface_check(
                *account,
                MINT_LEN as int,
                TOKEN_2022_MINT_DISCRIMINATOR,
            ),
    {
        interface_check(account, MINT_LEN, TOKEN_2022_MINT_DISCRIMINATOR)
    }
}

/// Capability: the handle is a token account of either token-ledger
/// program.
pub struct TokenAccountInterface;

impl TokenAccountInterface {
    /// Fails `InvalidOwner` if neither token-ledger program owns the
    /// handle, `InvalidAccountData` if the length or record tag does not
    /// describe a token account.
    pub fn check(account: &AccountHandle) -> (r: Result<(), LedgerError>)
        ensures
            r == spec_interface_check(
                *account,
                TOKEN_ACCOUNT_LEN as int,
                TOKEN_2022_TOKEN_ACCOUNT_DISCRIMINATOR,
            ),
    {
        interface_check(account, TOKEN_ACCOUNT_LEN, TOKEN_2022_TOKEN_ACCOUNT_DISCRIMINATOR)
    }
}

/// The seed tuple of an associated token account: holder, token-ledger
/// program, then mint.
pub open spec fn spec_ata_seeds(authority: Seq<u8>, token_program: Seq<u8>, mint: Seq<u8>) -> Seq<
    Seq<u8>,
> {
    seq![authority, token_program, mint]
}

/// The decision the associated-token-account check makes: first the
/// token-account interface check, then an independent re-derivation of
/// the associated address — the sole source of truth; a handle cannot
/// claim to be the associated account, it must prove it by address.
pub open spec fn spec_ata_check(
    account: AccountHandle,
    authority: Seq<u8>,
    mint: Seq<u8>,
    token_program: Seq<u8>,
) -> Result<(), LedgerError> {
    match spec_interface_check(
        account,
        TOKEN_ACCOUNT_LEN as int,
        TOKEN_2022_TOKEN_ACCOUNT_DISCRIMINATOR,
    ) {
        Err(e) => Err(e),
        Ok(_) => {
            match spec_try_find_pda(
                spec_ata_seeds(authority, token_program, mint),
                ASSOCIATED_TOKEN_PROGRAM_ID@,
            ) {
                Option::Some(p) => {
                    if p.0 =~= account.address@ {
                        Ok(())
                    } else {
                        Err(LedgerError::InvalidAddress)
                    }
                },
                Option::None => Err(LedgerError::InvalidAddress),
            }
        },
    }
}

/// Capability: the handle is the associated token account of a holder
/// for a mint under a token-ledger program.
pub struct AssociatedTokenAccount;

impl AssociatedTokenAccount {
    /// Derives the associated account address for a holder and mint.
    pub fn derive(authority: &Address, mint: &Address, token_program: &Address) -> (r: Option<
        (Address, u8),
    >)
        ensures
            r is Some <==> spec_try_find_pda(
                spec_ata_seeds(authority@, token_program@, mint@),
                ASSOCIATED_TOKEN_PROGRAM_ID@,
            ) is Some,
            r is Some ==> r.unwrap().0@ =~= spec_try_find_pda(
                spec_ata_seeds(authority@, token_program@, mint@),
                ASSOCIATED_TOKEN_PROGRAM_ID@,
            ).unwrap().0,
    {
        let mut seeds: Vec<Vec<u8>> = Vec::new();
        seeds.push(addr_to_vec(authority));
        seeds.push(addr_to_vec(token_program));
        seeds.push(addr_to_vec(mint));
        proof {
            assert(seeds.deep_view() =~~= spec_ata_seeds(authority@, token_program@, mint@));
        }
        try_find_pda(&seeds, &ASSOCIATED_TOKEN_PROGRAM_ID)
    }

    /// Applies the token-account interface check, then re-derives the
    /// associated address from `(authority, token_program, mint)` and
    /// fails `InvalidAddress` unless it equals the handle's own address.
    pub fn check(
        account: &AccountHandle,
        authority: &AccountHandle,
        mint: &AccountHandle,
        token_program: &AccountHandle,
    ) -> (r: Result<(), LedgerError>)
        ensures
            r == spec_ata_check(
                *account,
                authority.address@,
                mint.address@,
                token_program.address@,
            ),
    {
        match TokenAccountInterface::check(account) {
            Ok(_) => (),
            Err(e) => { return Err(e) },
        }
        let derived = AssociatedTokenAccount::derive(
            &authority.address,
            &mint.address,
            &token_program.address,
        );
        match derived {
            Option::Some(p) => {
                if account.has_address(&p.0) {
                    Ok(())
                } else {
                    Err(LedgerError::InvalidAddress)
                }
            },
            Option::None => Err(LedgerError::InvalidAddress),
        }
    }
}

/// The decision creating an associated token account makes: the address
/// must re-derive, the account must be unclaimed, and the payer must
/// cover the rent.
pub open spec fn spec_ata_init_check(
    account: AccountHandle,
    authority: Seq<u8>,
    mint: Seq<u8>,
    token_program: Seq<u8>,
    payer: AccountHandle,
    rent: u64,
) -> Result<(), LedgerError> {
    match spec_try_find_pda(
        spec_ata_seeds(authority, token_program, mint),
        ASSOCIATED_TOKEN_PROGRAM_ID@,
    ) {
        Option::None => Err(LedgerError::InvalidAddress),
        Option::Some(p) => {
            if !(p.0 =~= account.address@) {
                Err(LedgerError::InvalidAddress)
            } else if !crate::account::spec_unclaimed(account) {
                Err(LedgerError::InvalidAccountData)
            } else if payer.lamports < rent {
                Err(LedgerError::InvalidArgument)
            } else {
                Ok(())
            }
        },
    }
}

impl AssociatedTokenAccount {
    /// Creates the associated token account: re-derives its address,
    /// claims the unclaimed account for the token-ledger program, funds
    /// its rent from the payer, and lays down an empty token record for
    /// the holder and mint.
    pub fn init(
        account: &mut AccountHandle,
        mint: &Address,
        payer: &mut AccountHandle,
        owner: &Address,
        token_program: &Address,
        rent: u64,
    ) -> (r: Result<(), LedgerError>)
        ensures
            r == spec_ata_init_check(*old(account), owner@, mint@, token_program@, *old(payer), rent),
            r is Err ==> *final(account) == *old(account) && *final(payer) == *old(payer),
            r is Ok ==> crate::account::spec_same_but_lamports(*old(payer), *final(payer))
                && final(payer).lamports == old(payer).lamports - rent,
            r is Ok ==> final(account).owner@ =~= token_program@ && final(account).lamports == rent
                && final(account).data@.len() == TOKEN_ACCOUNT_LEN && crate::token::spec_token_mint(
                final(account).data@,
            ) =~= mint@ && crate::token::spec_token_owner(final(account).data@) =~= owner@
                && crate::token::spec_token_amount(final(account).data@) == 0 && final(account).address == old(account).address && final(account).is_signer == old(account).is_signer,
    {
        let derived = AssociatedTokenAccount::derive(owner, mint, token_program);
        match derived {
            Option::None => { return Err(LedgerError::InvalidAddress) },
            Option::Some(p) => {
                if !account.has_address(&p.0) {
                    return Err(LedgerError::InvalidAddress);
                }
            },
        }
        match crate::account::create_account(payer, account, rent, TOKEN_ACCOUNT_LEN, token_program)
            {
            Ok(_) => (),
            Err(e) => { return Err(e) },
        }
        let record = crate::token::new_token_account_data(mint, owner);
        account.data = record;
        Ok(())
    }

    /// Creates the associated account only where the capability check
    /// fails — an idempotent upsert, not a state transition: an account
    /// that already proves itself by address is left untouched.
    pub fn init_if_needed(
        account: &mut AccountHandle,
        mint: &Address,
        payer: &mut AccountHandle,
        owner: &Address,
        token_program: &Address,
        rent: u64,
    ) -> (r: Result<(), LedgerError>)
        ensures
            spec_ata_check(*old(account), owner@, mint@, token_program@) is Ok ==> r is Ok
                && *final(account) == *old(account) && *final(payer) == *old(payer),
            spec_ata_check(*old(account), owner@, mint@, token_program@) is Err ==> r
                == spec_ata_init_check(
                *old(account),
                owner@,
                mint@,
                token_program@,
                *old(payer),
                rent,
            ),
            r is Err ==> *final(account) == *old(account) && *final(payer) == *old(payer),
            r is Ok ==> final(account).address == old(account).address,
            r is Ok && spec_ata_check(*old(account), owner@, mint@, token_program@) is Err
                ==> crate::account::spec_same_but_lamports(*old(payer), *final(payer)) && final(payer).lamports == old(payer).lamports - rent && final(account).data@.len()
                == TOKEN_ACCOUNT_LEN && crate::token::spec_token_mint(final(account).data@)
                =~= mint@ && crate::token::spec_token_owner(final(account).data@) =~= owner@
                && crate::token::spec_token_amount(final(account).data@) == 0 && final(account).lamports == rent && final(account).owner@ =~= token_program@ && final(account).is_signer == old(account).is_signer,
    {
        let ok = {
            let mut pass = false;
            let derived = AssociatedTokenAccount::derive(owner, mint, token_program);
            let iface = interface_check(
                account,
                TOKEN_ACCOUNT_LEN,
                TOKEN_2022_TOKEN_ACCOUNT_DISCRIMINATOR,
            );
            match (iface, derived) {
                (Ok(_), Option::Some(p)) => {
                    if account.has_address(&p.0) {
                        pass = true;
                    }
                },
                _ => (),
            }
            pass
        };
        if ok {
            return Ok(());
        }
        AssociatedTokenAccount::init(account, mint, payer, owner, token_program, rent)
    }
}

/// Capability: the handle is a typed state record of this program.
pub struct ProgramAccount;

impl ProgramAccount {
    /// Fails `InvalidOwner` unless this program owns the handle, and
    /// `InvalidAccountData` unless the length matches the record's fixed
    /// size exactly.
    pub fn check(account: &AccountHandle, program_id: &Address, record_len: usize) -> (r: Result<
        (),
        LedgerError,
    >)
        ensures
            r is Ok <==> account.owner@ =~= program_id@ && account.data@.len() == record_len,
            !(account.owner@ =~= program_id@) ==> r == Err::<(), LedgerError>(
                LedgerError::InvalidOwner,
            ),
            account.owner@ =~= program_id@ && account.data@.len() != record_len ==> r == Err::<
                (),
                LedgerError,
            >(LedgerError::InvalidAccountData),
    {
        if !account.owned_by(program_id) {
            return Err(LedgerError::InvalidOwner);
        }
        if account.data.len() != record_len {
            return Err(LedgerError::InvalidAccountData);
        }
        Ok(())
    }

    /// Creates the record's account under this program, funded by the
    /// payer with the rent-exempt balance for its size.  The caller signs
    /// for the new account's derived address.
    pub fn init(
        payer: &mut AccountHandle,
        account: &mut AccountHandle,
        space: usize,
        rent_minimum: u64,
        program_id: &Address,
    ) -> (r: Result<(), LedgerError>)
        ensures
            r is Ok <==> crate::account::spec_can_create(*old(payer), *old(account), rent_minimum),
            r is Err ==> *final(payer) == *old(payer) && *final(account) == *old(account),
            r is Ok ==> crate::account::spec_same_but_lamports(*old(payer), *final(payer))
                && final(payer).lamports == old(payer).lamports - rent_minimum,
            r is Ok ==> final(account).lamports == rent_minimum && final(account).owner@
                =~= program_id@ && final(account).data@.len() == space && (forall|j: int|
                0 <= j < space ==> final(account).data@[j] == 0u8) && final(account).address == old(account).address && final(account).is_signer == old(account).is_signer,
    {
        crate::account::create_account(payer, account, rent_minimum, space, program_id)
    }

    /// Closes the record's account: tombstone, shrink, and the whole
    /// native balance to the destination.
    pub fn close(account: &mut AccountHandle, destination: &mut AccountHandle)
        requires
            old(destination).lamports + old(account).lamports <= u64::MAX,
        ensures
            final(account).data@ =~= seq![0xffu8],
            final(account).lamports == 0,
            final(account).address == old(account).address,
            final(account).owner == old(account).owner,
            final(account).is_signer == old(account).is_signer,
            crate::account::spec_same_but_lamports(*old(destination), *final(destination)),
            final(destination).lamports == old(destination).lamports + old(account).lamports,
    {
        crate::account::close_account(account, destination)
    }
}

} // verus!
