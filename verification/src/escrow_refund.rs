use vstd::prelude::*;

use crate::account::{close_account, spec_handle_eq, spec_same_but_lamports, AccountHandle};
use crate::addr::{addr_eq, PROGRAM_ID};
use crate::errors::LedgerError;
use crate::escrow::{escrow_pda_seeds, spec_escrow_pda_seeds};
use crate::pda::{replay_derivation, spec_create_pda};
use crate::state::{
    spec_escrow_bump, spec_escrow_maker, spec_escrow_seed, Escrow, ESCROW_LEN,
};
use crate::token::{
    read_token_amount, spec_token_amount, spec_token_rebalanced, token_transfer,
    TOKEN_ACCOUNT_LEN,
};

verus! {

/// The ordered handle list refunding an escrow expects.
pub struct RefundAccounts {
    pub maker: AccountHandle,
    pub escrow: AccountHandle,
    pub mint_a: AccountHandle,
    pub vault: AccountHandle,
    pub maker_ata_a: AccountHandle,
    pub token_program: AccountHandle,
}

impl RefundAccounts {
    /// Destructures the handle list; fewer than six handles fail
    /// `NotEnoughAccountKeys`, trailing extras are ignored.
    pub fn try_from(accounts: &Vec<AccountHandle>) -> (r: Result<RefundAccounts, LedgerError>)
        ensures
            r is Ok <==> accounts@.len() >= 6,
            r is Err ==> r == Err::<RefundAccounts, LedgerError>(LedgerError::NotEnoughAccountKeys),
            r is Ok ==> spec_handle_eq(r.unwrap().maker, accounts@[0]) && spec_handle_eq(
                r.unwrap().escrow,
                accounts@[1],
            ) && spec_handle_eq(r.unwrap().mint_a, accounts@[2]) && spec_handle_eq(
                r.unwrap().vault,
                accounts@[3],
            ) && spec_handle_eq(r.unwrap().maker_ata_a, accounts@[4]) && spec_handle_eq(
                r.unwrap().token_program,
                accounts@[5],
            ),
    {
        if accounts.len() < 6 {
            return Err(LedgerError::NotEnoughAccountKeys);
        }
        Ok(
            RefundAccounts {
                maker: accounts[0].clone(),
                escrow: accounts[1].clone(),
                mint_a: accounts[2].clone(),
                vault: accounts[3].clone(),
                maker_ata_a: accounts[4].clone(),
                token_program: accounts[5].clone(),
            },
        )
    }
}

/// A refunding instruction: the handles.
pub struct Refund {
    pub accounts: RefundAccounts,
}

/// The full decision refunding an escrow makes over its pre-state: the
/// vault balance that returns to the maker, or the error that aborts the
/// instruction before any effect.
pub open spec fn spec_refund_outcome(s: Refund) -> Result<u64, LedgerError> {
    let a = s.accounts;
    let ed = a.escrow.data@;
    if !a.maker.is_signer {
        Err(LedgerError::NotSigner)
    } else if ed.len() != ESCROW_LEN {
        Err(LedgerError::InvalidAccountData)
    } else if !(a.escrow.owner@ =~= PROGRAM_ID@) {
        Err(LedgerError::InvalidOwner)
    } else if !(a.maker.address@ =~= spec_escrow_maker(ed)) {
        Err(LedgerError::InvalidAddress)
    } else {
        let replayed = spec_create_pda(
            spec_escrow_pda_seeds(a.maker.address@, spec_escrow_seed(ed)).push(
                seq![spec_escrow_bump(ed)],
            ),
            PROGRAM_ID@,
        );
        if !(replayed matches Option::Some(addr) && addr =~= a.escrow.address@) {
            Err(LedgerError::InvalidAddress)
        } else if a.vault.data@.len() != TOKEN_ACCOUNT_LEN {
            Err(LedgerError::InvalidAccountData)
        } else if a.maker_ata_a.data@.len() != TOKEN_ACCOUNT_LEN {
            Err(LedgerError::InvalidAccountData)
        } else if spec_token_amount(a.maker_ata_a.data@) + spec_token_amount(a.vault.data@)
            > u64::MAX {
            Err(LedgerError::ArithmeticOverflow)
        } else {
            Ok(spec_token_amount(a.vault.data@))
        }
    }
}

impl Refund {
    /// The payload byte that routes to this instruction.
    pub const DISCRIMINATOR: u8 = 2;

    /// Validates the handle list.
    pub fn try_from(accounts: &Vec<AccountHandle>) -> (r: Result<Refund, LedgerError>)
        ensures
            r is Ok <==> accounts@.len() >= 6,
            r is Err ==> r == Err::<Refund, LedgerError>(LedgerError::NotEnoughAccountKeys),
            r is Ok ==> spec_handle_eq(r.unwrap().accounts.maker, accounts@[0]) && spec_handle_eq(
                r.unwrap().accounts.escrow,
                accounts@[1],
            ) && spec_handle_eq(r.unwrap().accounts.mint_a, accounts@[2]) && spec_handle_eq(
                r.unwrap().accounts.vault,
                accounts@[3],
            ) && spec_handle_eq(r.unwrap().accounts.maker_ata_a, accounts@[4]) && spec_handle_eq(
                r.unwrap().accounts.token_program,
                accounts@[5],
            ),
    {
        let accounts = match RefundAccounts::try_from(accounts) {
            Ok(a) => a,
            Err(e) => { return Err(e) },
        };
        Ok(Refund { accounts })
    }

    /// Unwinds the escrow: the maker must sign and be the recorded maker,
    /// the escrow's own address must re-derive from its stored record;
    /// then, atomically, the vault's whole balance returns to the maker's
    /// token account and both the vault and the escrow close to the
    /// maker.
    pub fn process(&mut self) -> (r: Result<(), LedgerError>)
        requires
            old(self).accounts.maker.lamports + old(self).accounts.vault.lamports + old(
                self,
            ).accounts.escrow.lamports <= u64::MAX,
        ensures
            (spec_refund_outcome(*old(self)) is Err) ==> r == Err::<(), LedgerError>(
                spec_refund_outcome(*old(self))->Err_0,
            ) && *final(self) == *old(self),
            (spec_refund_outcome(*old(self)) is Ok) ==> r is Ok && {
                let va = spec_refund_outcome(*old(self))->Ok_0;
                let a = old(self).accounts;
                let f = final(self).accounts;
                &&& f.escrow.data@ =~= seq![0xffu8]
                &&& f.escrow.lamports == 0
                &&& f.vault.data@ =~= seq![0xffu8]
                &&& f.vault.lamports == 0
                &&& spec_same_but_lamports(a.maker, f.maker)
                &&& f.maker.lamports == a.maker.lamports + a.vault.lamports + a.escrow.lamports
                &&& spec_token_rebalanced(
                    a.maker_ata_a,
                    f.maker_ata_a,
                    (spec_token_amount(a.maker_ata_a.data@) + va) as u64,
                )
                &&& f.mint_a == a.mint_a
                &&& f.token_program == a.token_program
            },
    {
        match crate::checks::SignerAccount::check(&self.accounts.maker) {
            Ok(_) => (),
            Err(e) => { return Err(e) },
        }
        let e = match Escrow::load(&self.accounts.escrow, &PROGRAM_ID) {
            Ok(v) => v,
            Err(err) => { return Err(err) },
        };
        proof {
            vstd::bytes::lemma_auto_spec_u64_to_from_le_bytes();
        }
        if !addr_eq(&self.accounts.maker.address, &e.maker) {
            return Err(LedgerError::InvalidAddress);
        }
        let seeds = escrow_pda_seeds(&self.accounts.maker.address, e.seed);
        match replay_derivation(&seeds, e.bump, &PROGRAM_ID) {
            Option::None => { return Err(LedgerError::InvalidAddress) },
            Option::Some(addr) => {
                if !self.accounts.escrow.has_address(&addr) {
                    return Err(LedgerError::InvalidAddress);
                }
            },
        }
        let va = match read_token_amount(&self.accounts.vault) {
            Ok(v) => v,
            Err(err) => { return Err(err) },
        };
        let base = match read_token_amount(&self.accounts.maker_ata_a) {
            Ok(v) => v,
            Err(err) => { return Err(err) },
        };
        if base > u64::MAX - va {
            return Err(LedgerError::ArithmeticOverflow);
        }
        match token_transfer(&mut self.accounts.vault, &mut self.accounts.maker_ata_a, va) {
            Ok(_) => (),
            Err(err) => { return Err(err) },
        }
        close_account(&mut self.accounts.vault, &mut self.accounts.maker);
        close_account(&mut self.accounts.escrow, &mut self.accounts.maker);
        Ok(())
    }
}

} // verus!
