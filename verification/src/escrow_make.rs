use vstd::prelude::*;

use crate::account::{spec_handle_eq, spec_same_but_lamports, spec_unclaimed, AccountHandle};
use crate::addr::{ASSOCIATED_TOKEN_PROGRAM_ID, PROGRAM_ID};
use crate::checks::{spec_ata_seeds, AssociatedTokenAccount, SignerAccount};
use crate::errors::LedgerError;
use crate::escrow::{escrow_pda_seeds, spec_escrow_pda_seeds};
use crate::pda::{spec_try_find_pda, try_find_pda};
use crate::state::{spec_escrow_matches_bytes, Escrow, ESCROW_LEN};
use crate::token::{
    read_token_amount, spec_token_amount, spec_token_mint, spec_token_owner,
    spec_token_rebalanced, token_transfer, TOKEN_ACCOUNT_LEN,
};

verus! {

/// The ordered handle list opening an escrow expects.
pub struct MakeAccounts {
    pub maker: AccountHandle,
    pub escrow: AccountHandle,
    pub mint_a: AccountHandle,
    pub mint_b: AccountHandle,
    pub maker_ata_a: AccountHandle,
    pub vault: AccountHandle,
    pub system_program: AccountHandle,
    pub token_program: AccountHandle,
}

impl MakeAccounts {
    /// Destructures the handle list; fewer than eight handles fail
    /// `NotEnoughAccountKeys`, trailing extras are ignored.
    pub fn try_from(accounts: &Vec<AccountHandle>) -> (r: Result<MakeAccounts, LedgerError>)
        ensures
            r is Ok <==> accounts@.len() >= 8,
            r is Err ==> r == Err::<MakeAccounts, LedgerError>(LedgerError::NotEnoughAccountKeys),
            r is Ok ==> spec_handle_eq(r.unwrap().maker, accounts@[0]) && spec_handle_eq(
                r.unwrap().escrow,
                accounts@[1],
            ) && spec_handle_eq(r.unwrap().mint_a, accounts@[2]) && spec_handle_eq(
                r.unwrap().mint_b,
                accounts@[3],
            ) && spec_handle_eq(r.unwrap().maker_ata_a, accounts@[4]) && spec_handle_eq(
                r.unwrap().vault,
                accounts@[5],
            ) && spec_handle_eq(r.unwrap().system_program, accounts@[6]) && spec_handle_eq(
                r.unwrap().token_program,
                accounts@[7],
            ),
    {
        if accounts.len() < 8 {
            return Err(LedgerError::NotEnoughAccountKeys);
        }
        Ok(
            MakeAccounts {
                maker: accounts[0].clone(),
                escrow: accounts[1].clone(),
                mint_a: accounts[2].clone(),
                mint_b: accounts[3].clone(),
                maker_ata_a: accounts[4].clone(),
                vault: accounts[5].clone(),
                system_program: accounts[6].clone(),
                token_program: accounts[7].clone(),
            },
        )
    }
}

/// Payload opening an escrow: the seed disambiguator, the requested
/// amount of the wanted asset, and the offered amount of the locked one.
pub struct MakeInstructionData {
    pub seed: u64,
    pub receive: u64,
    pub amount: u64,
}

impl MakeInstructionData {
    /// Parses the fixed-width little-endian payload; a short payload fails
    /// `InvalidInstructionData`.
    pub fn try_from(data: &[u8]) -> (r: Result<MakeInstructionData, LedgerError>)
        ensures
            r is Ok <==> data@.len() >= 24,
            r is Err ==> r == Err::<MakeInstructionData, LedgerError>(
                LedgerError::InvalidInstructionData,
            ),
            r is Ok ==> r.unwrap().seed == vstd::bytes::spec_u64_from_le_bytes(
                data@.subrange(0, 8),
            ) && r.unwrap().receive == vstd::bytes::spec_u64_from_le_bytes(data@.subrange(8, 16))
                && r.unwrap().amount == vstd::bytes::spec_u64_from_le_bytes(
                data@.subrange(16, 24),
            ),
    {
        if data.len() < 24 {
            return Err(LedgerError::InvalidInstructionData);
        }
        let seed = vstd::bytes::u64_from_le_bytes(vstd::slice::slice_subrange(data, 0, 8));
        let receive = vstd::bytes::u64_from_le_bytes(vstd::slice::slice_subrange(data, 8, 16));
        let amount = vstd::bytes::u64_from_le_bytes(vstd::slice::slice_subrange(data, 16, 24));
        Ok(MakeInstructionData { seed, receive, amount })
    }
}

/// An escrow-opening instruction: handles and payload.
pub struct Make {
    pub accounts: MakeAccounts,
    pub instruction_data: MakeInstructionData,
}

/// The full decision opening an escrow makes over its pre-state: the bump
/// byte the escrow's derivation settles on, or the error that aborts the
/// instruction before any effect.
pub open spec fn spec_make_outcome(s: Make, rent_escrow: u64, rent_vault: u64) -> Result<
    u8,
    LedgerError,
> {
    let data = s.instruction_data;
    if !s.accounts.maker.is_signer {
        Err(LedgerError::NotSigner)
    } else if data.amount == 0 {
        Err(LedgerError::InvalidArgument)
    } else {
        match spec_try_find_pda(
            spec_escrow_pda_seeds(s.accounts.maker.address@, data.seed),
            PROGRAM_ID@,
        ) {
            Option::None => Err(LedgerError::InvalidAddress),
            Option::Some(p) => {
                if !(p.0 =~= s.accounts.escrow.address@) {
                    Err(LedgerError::InvalidAddress)
                } else if !spec_unclaimed(s.accounts.escrow) {
                    Err(LedgerError::InvalidAccountData)
                } else if s.accounts.maker.lamports < rent_escrow {
                    Err(LedgerError::InvalidArgument)
                } else {
                    match spec_try_find_pda(
                        spec_ata_seeds(
                            s.accounts.escrow.address@,
                            s.accounts.token_program.address@,
                            s.accounts.mint_a.address@,
                        ),
                        ASSOCIATED_TOKEN_PROGRAM_ID@,
                    ) {
                        Option::None => Err(LedgerError::InvalidAddress),
                        Option::Some(q) => {
                            if !(q.0 =~= s.accounts.vault.address@) {
                                Err(LedgerError::InvalidAddress)
                            } else if !spec_unclaimed(s.accounts.vault) {
                                Err(LedgerError::InvalidAccountData)
                            } else if s.accounts.maker.lamports - rent_escrow < rent_vault {
                                Err(LedgerError::InvalidArgument)
                            } else if s.accounts.maker_ata_a.data@.len() != TOKEN_ACCOUNT_LEN {
                                Err(LedgerError::InvalidAccountData)
                            } else if spec_token_amount(s.accounts.maker_ata_a.data@)
                                < data.amount {
                                Err(LedgerError::InvalidArgument)
                            } else {
                                Ok(p.1)
                            }
                        },
                    }
                }
            },
        }
    }
}

impl Make {
    /// The payload byte that routes to this instruction.
    pub const DISCRIMINATOR: u8 = 0;

    /// Parses handles, then payload.
    pub fn try_from(data: &[u8], accounts: &Vec<AccountHandle>) -> (r: Result<Make, LedgerError>)
        ensures
            r is Ok <==> accounts@.len() >= 8 && data@.len() >= 24,
            accounts@.len() < 8 ==> r == Err::<Make, LedgerError>(
                LedgerError::NotEnoughAccountKeys,
            ),
            accounts@.len() >= 8 && data@.len() < 24 ==> r == Err::<Make, LedgerError>(
                LedgerError::InvalidInstructionData,
            ),
    {
        let accounts = match MakeAccounts::try_from(accounts) {
            Ok(a) => a,
            Err(e) => { return Err(e) },
        };
        let instruction_data = match MakeInstructionData::try_from(data) {
            Ok(d) => d,
            Err(e) => { return Err(e) },
        };
        Ok(Make { accounts, instruction_data })
    }

    /// Opens the escrow: the maker must sign and offer a positive amount;
    /// the escrow account and its vault are created at their derived
    /// addresses, funded by the maker with the given rents; the record is
    /// laid down with the found bump; and the offered amount moves from
    /// the maker's token account into the vault — all of it or none of it.
    pub fn process(&mut self, rent_escrow: u64, rent_vault: u64) -> (r: Result<(), LedgerError>)
        ensures
            (spec_make_outcome(*old(self), rent_escrow, rent_vault) is Err) ==> r == Err::<
                (),
                LedgerError,
            >(spec_make_outcome(*old(self), rent_escrow, rent_vault)->Err_0) && *final(self)
                == *old(self),
            (spec_make_outcome(*old(self), rent_escrow, rent_vault) is Ok) ==> r is Ok && {
                let b = spec_make_outcome(*old(self), rent_escrow, rent_vault)->Ok_0;
                let data = old(self).instruction_data;
                &&& spec_same_but_lamports(old(self).accounts.maker, final(self).accounts.maker)
                &&& final(self).accounts.maker.lamports == old(self).accounts.maker.lamports
                    - rent_escrow - rent_vault
                &&& final(self).accounts.escrow.owner@ =~= PROGRAM_ID@
                &&& final(self).accounts.escrow.lamports == rent_escrow
                &&& spec_escrow_matches_bytes(
                    Escrow {
                        seed: data.seed,
                        maker: old(self).accounts.maker.address,
                        mint_a: old(self).accounts.mint_a.address,
                        mint_b: old(self).accounts.mint_b.address,
                        receive: data.receive,
                        bump: b,
                    },
                    final(self).accounts.escrow.data@,
                )
                &&& final(self).accounts.escrow.address == old(self).accounts.escrow.address
                &&& final(self).accounts.vault.owner@ =~= old(
                    self,
                ).accounts.token_program.address@
                &&& final(self).accounts.vault.lamports == rent_vault
                &&& final(self).accounts.vault.data@.len() == TOKEN_ACCOUNT_LEN
                &&& spec_token_mint(final(self).accounts.vault.data@) =~= old(
                    self,
                ).accounts.mint_a.address@
                &&& spec_token_owner(final(self).accounts.vault.data@) =~= old(
                    self,
                ).accounts.escrow.address@
                &&& spec_token_amount(final(self).accounts.vault.data@) == data.amount
                &&& final(self).accounts.vault.address == old(self).accounts.vault.address
                &&& spec_token_rebalanced(
                    old(self).accounts.maker_ata_a,
                    final(self).accounts.maker_ata_a,
                    (spec_token_amount(old(self).accounts.maker_ata_a.data@) - data.amount) as u64,
                )
                &&& final(self).accounts.mint_a == old(self).accounts.mint_a
                &&& final(self).accounts.mint_b == old(self).accounts.mint_b
                &&& final(self).accounts.system_program == old(self).accounts.system_program
                &&& final(self).accounts.token_program == old(self).accounts.token_program
            },
            final(self).instruction_data == old(self).instruction_data,
    {
        let seed = self.instruction_data.seed;
        let receive = self.instruction_data.receive;
        let amount = self.instruction_data.amount;
        match SignerAccount::check(&self.accounts.maker) {
            Ok(_) => (),
            Err(e) => { return Err(e) },
        }
        if amount == 0 {
            return Err(LedgerError::InvalidArgument);
        }
        let seeds = escrow_pda_seeds(&self.accounts.maker.address, seed);
        let bump: u8;
        match try_find_pda(&seeds, &PROGRAM_ID) {
            Option::None => { return Err(LedgerError::InvalidAddress) },
            Option::Some(p) => {
                if !self.accounts.escrow.has_address(&p.0) {
                    return Err(LedgerError::InvalidAddress);
                }
                bump = p.1;
            },
        }
        if !(self.accounts.escrow.owned_by(&crate::addr::SYSTEM_PROGRAM_ID)
            && self.accounts.escrow.lamports == 0 && self.accounts.escrow.data.len() == 0) {
            return Err(LedgerError::InvalidAccountData);
        }
        if self.accounts.maker.lamports < rent_escrow {
            return Err(LedgerError::InvalidArgument);
        }
        let vault_derived = AssociatedTokenAccount::derive(
            &self.accounts.escrow.address,
            &self.accounts.mint_a.address,
            &self.accounts.token_program.address,
        );
        match vault_derived {
            Option::None => { return Err(LedgerError::InvalidAddress) },
            Option::Some(q) => {
                if !self.accounts.vault.has_address(&q.0) {
                    return Err(LedgerError::InvalidAddress);
                }
            },
        }
        if !(self.accounts.vault.owned_by(&crate::addr::SYSTEM_PROGRAM_ID)
            && self.accounts.vault.lamports == 0 && self.accounts.vault.data.len() == 0) {
            return Err(LedgerError::InvalidAccountData);
        }
        if self.accounts.maker.lamports - rent_escrow < rent_vault {
            return Err(LedgerError::InvalidArgument);
        }
        let maker_balance = match read_token_amount(&self.accounts.maker_ata_a) {
            Ok(v) => v,
            Err(e) => { return Err(e) },
        };
        if maker_balance < amount {
            return Err(LedgerError::InvalidArgument);
        }
        match crate::account::create_account(
            &mut self.accounts.maker,
            &mut self.accounts.escrow,
            rent_escrow,
            ESCROW_LEN,
            &PROGRAM_ID,
        ) {
            Ok(_) => (),
            Err(e) => { return Err(e) },
        }
        match AssociatedTokenAccount::init(
            &mut self.accounts.vault,
            &self.accounts.mint_a.address,
            &mut self.accounts.maker,
            &self.accounts.escrow.address,
            &self.accounts.token_program.address,
            rent_vault,
        ) {
            Ok(_) => (),
            Err(e) => { return Err(e) },
        }
        let record = Escrow {
            seed,
            maker: self.accounts.maker.address,
            mint_a: self.accounts.mint_a.address,
            mint_b: self.accounts.mint_b.address,
            receive,
            bump,
        };
        match record.store(&mut self.accounts.escrow, &PROGRAM_ID) {
            Ok(_) => (),
            Err(e) => { return Err(e) },
        }
        match token_transfer(&mut self.accounts.maker_ata_a, &mut self.accounts.vault, amount) {
            Ok(_) => (),
            Err(e) => { return Err(e) },
        }
        Ok(())
    }
}

} // verus!
