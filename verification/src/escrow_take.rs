use vstd::prelude::*;

use crate::account::{close_account, spec_handle_eq, spec_same_but_lamports, AccountHandle};
use crate::addr::{addr_eq, PROGRAM_ID};
use crate::checks::{
    spec_ata_check, spec_ata_init_check, AssociatedTokenAccount, MintInterface, ProgramAccount,
    SignerAccount,
};
use crate::errors::LedgerError;
use crate::escrow::{escrow_pda_seeds, spec_escrow_pda_seeds};
use crate::pda::{replay_derivation, spec_create_pda};
use crate::state::{
    spec_escrow_bump, spec_escrow_maker, spec_escrow_mint_a, spec_escrow_mint_b,
    spec_escrow_receive, spec_escrow_seed, Escrow, ESCROW_LEN,
};
use crate::token::{
    read_token_amount, spec_token_amount, spec_token_rebalanced, token_transfer,
    TOKEN_ACCOUNT_LEN,
};

verus! {

/// The ordered handle list taking an escrow expects.
pub struct TakeAccounts {
    pub taker: AccountHandle,
    pub maker: AccountHandle,
    pub escrow: AccountHandle,
    pub mint_a: AccountHandle,
    pub mint_b: AccountHandle,
    pub vault: AccountHandle,
    pub taker_ata_a: AccountHandle,
    pub taker_ata_b: AccountHandle,
    pub maker_ata_b: AccountHandle,
    pub system_program: AccountHandle,
    pub token_program: AccountHandle,
}

/// The capability set taking an escrow demands of its handles: the taker
/// signs; the escrow is this program's record; both mints check out; the
/// taker's account for the wanted asset and the vault both prove
/// themselves by derived address.
pub open spec fn spec_take_validate(
    taker: AccountHandle,
    escrow: AccountHandle,
    mint_a: AccountHandle,
    mint_b: AccountHandle,
    vault: AccountHandle,
    taker_ata_b: AccountHandle,
    token_program: AccountHandle,
) -> Result<(), LedgerError> {
    if !taker.is_signer {
        Err(LedgerError::NotSigner)
    } else if !(escrow.owner@ =~= PROGRAM_ID@) {
        Err(LedgerError::InvalidOwner)
    } else if escrow.data@.len() != ESCROW_LEN {
        Err(LedgerError::InvalidAccountData)
    } else {
        match crate::checks::spec_interface_check(
            mint_a,
            crate::token::MINT_LEN as int,
            crate::checks::TOKEN_2022_MINT_DISCRIMINATOR,
        ) {
            Err(e) => Err(e),
            Ok(_) => match crate::checks::spec_interface_check(
                mint_b,
                crate::token::MINT_LEN as int,
                crate::checks::TOKEN_2022_MINT_DISCRIMINATOR,
            ) {
                Err(e) => Err(e),
                Ok(_) => match spec_ata_check(
                    taker_ata_b,
                    taker.address@,
                    mint_b.address@,
                    token_program.address@,
                ) {
                    Err(e) => Err(e),
                    Ok(_) => spec_ata_check(
                        vault,
                        escrow.address@,
                        mint_a.address@,
                        token_program.address@,
                    ),
                },
            },
        }
    }
}

impl TakeAccounts {
    /// Destructures the handle list — fewer than twelve handles fail
    /// `NotEnoughAccountKeys`, trailing extras are ignored; the twelfth,
    /// the associated-token program a real transaction must carry, is
    /// demanded but read no further — and runs the capability set before
    /// any side effect.
    pub fn try_from(accounts: &Vec<AccountHandle>) -> (r: Result<TakeAccounts, LedgerError>)
        ensures
            accounts@.len() < 12 ==> r == Err::<TakeAccounts, LedgerError>(
                LedgerError::NotEnoughAccountKeys,
            ),
            accounts@.len() >= 12 && (spec_take_validate(
                accounts@[0],
                accounts@[2],
                accounts@[3],
                accounts@[4],
                accounts@[5],
                accounts@[7],
                accounts@[10],
            ) is Err) ==> r == Err::<TakeAccounts, LedgerError>(
                spec_take_validate(
                    accounts@[0],
                    accounts@[2],
                    accounts@[3],
                    accounts@[4],
                    accounts@[5],
                    accounts@[7],
                    accounts@[10],
                )->Err_0,
            ),
            accounts@.len() >= 12 && (spec_take_validate(
                accounts@[0],
                accounts@[2],
                accounts@[3],
                accounts@[4],
                accounts@[5],
                accounts@[7],
                accounts@[10],
            ) is Ok) ==> r is Ok && spec_handle_eq(r.unwrap().taker, accounts@[0])
                && spec_handle_eq(r.unwrap().maker, accounts@[1]) && spec_handle_eq(
                r.unwrap().escrow,
                accounts@[2],
            ) && spec_handle_eq(r.unwrap().mint_a, accounts@[3]) && spec_handle_eq(
                r.unwrap().mint_b,
                accounts@[4],
            ) && spec_handle_eq(r.unwrap().vault, accounts@[5]) && spec_handle_eq(
                r.unwrap().taker_ata_a,
                accounts@[6],
            ) && spec_handle_eq(r.unwrap().taker_ata_b, accounts@[7]) && spec_handle_eq(
                r.unwrap().maker_ata_b,
                accounts@[8],
            ) && spec_handle_eq(r.unwrap().system_program, accounts@[9]) && spec_handle_eq(
                r.unwrap().token_program,
                accounts@[10],
            ),
    {
        if accounts.len() < 12 {
            return Err(LedgerError::NotEnoughAccountKeys);
        }
        let taker = accounts[0].clone();
        let maker = accounts[1].clone();
        let escrow = accounts[2].clone();
        let mint_a = accounts[3].clone();
        let mint_b = accounts[4].clone();
        let vault = accounts[5].clone();
        let taker_ata_a = accounts[6].clone();
        let taker_ata_b = accounts[7].clone();
        let maker_ata_b = accounts[8].clone();
        let system_program = accounts[9].clone();
        let token_program = accounts[10].clone();
        match SignerAccount::check(&taker) {
            Ok(_) => (),
            Err(e) => { return Err(e) },
        }
        match ProgramAccount::check(&escrow, &PROGRAM_ID, ESCROW_LEN) {
            Ok(_) => (),
            Err(e) => { return Err(e) },
        }
        match MintInterface::check(&mint_a) {
            Ok(_) => (),
            Err(e) => { return Err(e) },
        }
        match MintInterface::check(&mint_b) {
            Ok(_) => (),
            Err(e) => { return Err(e) },
        }
        match AssociatedTokenAccount::check(&taker_ata_b, &taker, &mint_b, &token_program) {
            Ok(_) => (),
            Err(e) => { return Err(e) },
        }
        match AssociatedTokenAccount::check(&vault, &escrow, &mint_a, &token_program) {
            Ok(_) => (),
            Err(e) => { return Err(e) },
        }
        Ok(
            TakeAccounts {
                taker,
                maker,
                escrow,
                mint_a,
                mint_b,
                vault,
                taker_ata_a,
                taker_ata_b,
                maker_ata_b,
                system_program,
                token_program,
            },
        )
    }
}

/// A settling instruction: the validated handles.
pub struct Take {
    pub accounts: TakeAccounts,
}

/// What a settling run has decided before it touches anything: whether
/// each lazily-created destination account must first be created, and the
/// vault balance that will move.
pub struct TakePlan {
    pub created_a: bool,
    pub created_b: bool,
    pub vault_amount: u64,
}

/// The full decision taking an escrow makes over its pre-state: the plan,
/// or the error that aborts the instruction before any effect.
pub open spec fn spec_take_outcome(s: Take, rent_ata: u64) -> Result<TakePlan, LedgerError> {
    let a = s.accounts;
    let ed = a.escrow.data@;
    if ed.len() != ESCROW_LEN {
        Err(LedgerError::InvalidAccountData)
    } else if !(a.escrow.owner@ =~= PROGRAM_ID@) {
        Err(LedgerError::InvalidOwner)
    } else if !(a.maker.address@ =~= spec_escrow_maker(ed)) {
        Err(LedgerError::InvalidAddress)
    } else if !(a.mint_a.address@ =~= spec_escrow_mint_a(ed)) {
        Err(LedgerError::InvalidAddress)
    } else if !(a.mint_b.address@ =~= spec_escrow_mint_b(ed)) {
        Err(LedgerError::InvalidAddress)
    } else {
        let replayed = spec_create_pda(
            spec_escrow_pda_seeds(a.maker.address@, spec_escrow_seed(ed)).push(
                seq![spec_escrow_bump(ed)],
            ),
            PROGRAM_ID@,
        );
        if !(replayed matches Option::Some(addr) && addr =~= a.escrow.address@) {
            Err(LedgerError::InvalidAddress)
        } else {
            let c1 = spec_ata_check(
                a.taker_ata_a,
                a.taker.address@,
                a.mint_a.address@,
                a.token_program.address@,
            ) is Err;
            let init1 = spec_ata_init_check(
                a.taker_ata_a,
                a.taker.address@,
                a.mint_a.address@,
                a.token_program.address@,
                a.taker,
                rent_ata,
            );
            if c1 && init1 is Err {
                Err(init1->Err_0)
            } else {
                let taker1 = AccountHandle {
                    lamports: if c1 {
                        (a.taker.lamports - rent_ata) as u64
                    } else {
                        a.taker.lamports
                    },
                    ..a.taker
                };
                let c2 = spec_ata_check(
                    a.maker_ata_b,
                    a.maker.address@,
                    a.mint_b.address@,
                    a.token_program.address@,
                ) is Err;
                let init2 = spec_ata_init_check(
                    a.maker_ata_b,
                    a.maker.address@,
                    a.mint_b.address@,
                    a.token_program.address@,
                    taker1,
                    rent_ata,
                );
                if c2 && init2 is Err {
                    Err(init2->Err_0)
                } else if a.vault.data@.len() != TOKEN_ACCOUNT_LEN {
                    Err(LedgerError::InvalidAccountData)
                } else {
                    let va = spec_token_amount(a.vault.data@);
                    let base_a = if c1 {
                        0u64
                    } else {
                        spec_token_amount(a.taker_ata_a.data@)
                    };
                    if !c1 && a.taker_ata_a.data@.len() != TOKEN_ACCOUNT_LEN {
                        Err(LedgerError::InvalidAccountData)
                    } else if base_a + va > u64::MAX {
                        Err(LedgerError::ArithmeticOverflow)
                    } else if a.taker_ata_b.data@.len() != TOKEN_ACCOUNT_LEN {
                        Err(LedgerError::InvalidAccountData)
                    } else if spec_token_amount(a.taker_ata_b.data@) < spec_escrow_receive(ed) {
                        Err(LedgerError::InvalidArgument)
                    } else {
                        let base_b = if c2 {
                            0u64
                        } else {
                            spec_token_amount(a.maker_ata_b.data@)
                        };
                        if !c2 && a.maker_ata_b.data@.len() != TOKEN_ACCOUNT_LEN {
                            Err(LedgerError::InvalidAccountData)
                        } else if base_b + spec_escrow_receive(ed) > u64::MAX {
                            Err(LedgerError::ArithmeticOverflow)
                        } else {
                            Ok(TakePlan { created_a: c1, created_b: c2, vault_amount: va })
                        }
                    }
                }
            }
        }
    }
}

impl Take {
    /// The payload byte that routes to this instruction.
    pub const DISCRIMINATOR: u8 = 1;

    /// Validates the handle list.
    pub fn try_from(accounts: &Vec<AccountHandle>) -> (r: Result<Take, LedgerError>)
        ensures
            accounts@.len() < 12 ==> r == Err::<Take, LedgerError>(
                LedgerError::NotEnoughAccountKeys,
            ),
            accounts@.len() >= 12 && (spec_take_validate(
                accounts@[0],
                accounts@[2],
                accounts@[3],
                accounts@[4],
                accounts@[5],
                accounts@[7],
                accounts@[10],
            ) is Err) ==> r == Err::<Take, LedgerError>(
                spec_take_validate(
                    accounts@[0],
                    accounts@[2],
                    accounts@[3],
                    accounts@[4],
                    accounts@[5],
                    accounts@[7],
                    accounts@[10],
                )->Err_0,
            ),
            accounts@.len() >= 12 && (spec_take_validate(
                accounts@[0],
                accounts@[2],
                accounts@[3],
                accounts@[4],
                accounts@[5],
                accounts@[7],
                accounts@[10],
            ) is Ok) ==> r is Ok && spec_handle_eq(r.unwrap().accounts.taker, accounts@[0])
                && spec_handle_eq(r.unwrap().accounts.maker, accounts@[1]) && spec_handle_eq(
                r.unwrap().accounts.escrow,
                accounts@[2],
            ) && spec_handle_eq(r.unwrap().accounts.mint_a, accounts@[3]) && spec_handle_eq(
                r.unwrap().accounts.mint_b,
                accounts@[4],
            ) && spec_handle_eq(r.unwrap().accounts.vault, accounts@[5]) && spec_handle_eq(
                r.unwrap().accounts.taker_ata_a,
                accounts@[6],
            ) && spec_handle_eq(r.unwrap().accounts.taker_ata_b, accounts@[7]) && spec_handle_eq(
                r.unwrap().accounts.maker_ata_b,
                accounts@[8],
            ) && spec_handle_eq(r.unwrap().accounts.system_program, accounts@[9])
                && spec_handle_eq(r.unwrap().accounts.token_program, accounts@[10]),
    {
        let accounts = match TakeAccounts::try_from(accounts) {
            Ok(a) => a,
            Err(e) => { return Err(e) },
        };
        Ok(Take { accounts })
    }

    /// Settles the escrow: re-derives the escrow's own address from its
    /// stored record and refuses a substituted account; creates the
    /// taker's and maker's destination accounts where they are missing;
    /// then, atomically, moves the vault's whole balance to the taker,
    /// closes the vault to the maker, moves the recorded `receive` amount
    /// from taker to maker, and closes the escrow to the taker.
    #[verifier::rlimit(60)]
    pub fn process(&mut self, rent_ata: u64) -> (r: Result<(), LedgerError>)
        requires
            old(self).accounts.maker.lamports + old(self).accounts.vault.lamports <= u64::MAX,
            old(self).accounts.taker.lamports + old(self).accounts.escrow.lamports <= u64::MAX,
        ensures
            (spec_take_outcome(*old(self), rent_ata) is Err) ==> r == Err::<(), LedgerError>(
                spec_take_outcome(*old(self), rent_ata)->Err_0,
            ) && *final(self) == *old(self),
            (spec_take_outcome(*old(self), rent_ata) is Ok) ==> r is Ok && {
                let p = spec_take_outcome(*old(self), rent_ata)->Ok_0;
                let a = old(self).accounts;
                let receive = spec_escrow_receive(a.escrow.data@);
                let f = final(self).accounts;
                &&& f.escrow.data@ =~= seq![0xffu8]
                &&& f.escrow.lamports == 0
                &&& f.vault.data@ =~= seq![0xffu8]
                &&& f.vault.lamports == 0
                &&& spec_same_but_lamports(a.maker, f.maker)
                &&& f.maker.lamports == a.maker.lamports + a.vault.lamports
                &&& spec_same_but_lamports(a.taker, f.taker)
                &&& f.taker.lamports == a.taker.lamports - (if p.created_a {
                    rent_ata as int
                } else {
                    0
                }) - (if p.created_b {
                    rent_ata as int
                } else {
                    0
                }) + a.escrow.lamports
                &&& f.taker_ata_a.data@.len() == TOKEN_ACCOUNT_LEN
                &&& spec_token_amount(f.taker_ata_a.data@) == (if p.created_a {
                    0
                } else {
                    spec_token_amount(a.taker_ata_a.data@) as int
                }) + p.vault_amount
                &&& f.taker_ata_a.address == a.taker_ata_a.address
                &&& spec_token_rebalanced(
                    a.taker_ata_b,
                    f.taker_ata_b,
                    (spec_token_amount(a.taker_ata_b.data@) - receive) as u64,
                )
                &&& f.maker_ata_b.data@.len() == TOKEN_ACCOUNT_LEN
                &&& spec_token_amount(f.maker_ata_b.data@) == (if p.created_b {
                    0
                } else {
                    spec_token_amount(a.maker_ata_b.data@) as int
                }) + receive
                &&& f.maker_ata_b.address == a.maker_ata_b.address
                &&& f.mint_a == a.mint_a
                &&& f.mint_b == a.mint_b
                &&& f.system_program == a.system_program
                &&& f.token_program == a.token_program
            },
    {
        let e = match Escrow::load(&self.accounts.escrow, &PROGRAM_ID) {
            Ok(v) => v,
            Err(err) => { return Err(err) },
        };
        proof {
            vstd::bytes::lemma_auto_spec_u64_to_from_le_bytes();
        }
        if !addr_eq(&self.accounts.maker.address, &e.maker) {
            return Err(LedgerError::InvalidAddress);
        }
        if !addr_eq(&self.accounts.mint_a.address, &e.mint_a) {
            return Err(LedgerError::InvalidAddress);
        }
        if !addr_eq(&self.accounts.mint_b.address, &e.mint_b) {
            return Err(LedgerError::InvalidAddress);
        }
        let seeds = escrow_pda_seeds(&self.accounts.maker.address, e.seed);
        match replay_derivation(&seeds, e.bump, &PROGRAM_ID) {
            Option::None => { return Err(LedgerError::InvalidAddress) },
            Option::Some(addr) => {
                if !self.accounts.escrow.has_address(&addr) {
                    return Err(LedgerError::InvalidAddress);
                }
            },
        }
        let c1 = match AssociatedTokenAccount::check(
            &self.accounts.taker_ata_a,
            &self.accounts.taker,
            &self.accounts.mint_a,
            &self.accounts.token_program,
        ) {
            Ok(_) => false,
            Err(_) => true,
        };
        if c1 {
            let derived = AssociatedTokenAccount::derive(
                &self.accounts.taker.address,
                &self.accounts.mint_a.address,
                &self.accounts.token_program.address,
            );
            match derived {
                Option::None => { return Err(LedgerError::InvalidAddress) },
                Option::Some(p) => {
                    if !self.accounts.taker_ata_a.has_address(&p.0) {
                        return Err(LedgerError::InvalidAddress);
                    }
                },
            }
            if !(self.accounts.taker_ata_a.owned_by(&crate::addr::SYSTEM_PROGRAM_ID)
                && self.accounts.taker_ata_a.lamports == 0
                && self.accounts.taker_ata_a.data.len() == 0) {
                return Err(LedgerError::InvalidAccountData);
            }
            if self.accounts.taker.lamports < rent_ata {
                return Err(LedgerError::InvalidArgument);
            }
        }
        let c2 = match AssociatedTokenAccount::check(
            &self.accounts.maker_ata_b,
            &self.accounts.maker,
            &self.accounts.mint_b,
            &self.accounts.token_program,
        ) {
            Ok(_) => false,
            Err(_) => true,
        };
        if c2 {
            let derived = AssociatedTokenAccount::derive(
                &self.accounts.maker.address,
                &self.accounts.mint_b.address,
                &self.accounts.token_program.address,
            );
            match derived {
                Option::None => { return Err(LedgerError::InvalidAddress) },
                Option::Some(p) => {
                    if !self.accounts.maker_ata_b.has_address(&p.0) {
                        return Err(LedgerError::InvalidAddress);
                    }
                },
            }
            if !(self.accounts.maker_ata_b.owned_by(&crate::addr::SYSTEM_PROGRAM_ID)
                && self.accounts.maker_ata_b.lamports == 0
                && self.accounts.maker_ata_b.data.len() == 0) {
                return Err(LedgerError::InvalidAccountData);
            }
            let already: u64 = if c1 {
                rent_ata
            } else {
                0
            };
            if self.accounts.taker.lamports - already < rent_ata {
                return Err(LedgerError::InvalidArgument);
            }
        }
        let va = match read_token_amount(&self.accounts.vault) {
            Ok(v) => v,
            Err(err) => { return Err(err) },
        };
        let base_a: u64 = if c1 {
            0
        } else {
            match read_token_amount(&self.accounts.taker_ata_a) {
                Ok(v) => v,
                Err(err) => { return Err(err) },
            }
        };
        if base_a > u64::MAX - va {
            return Err(LedgerError::ArithmeticOverflow);
        }
        let tb = match read_token_amount(&self.accounts.taker_ata_b) {
            Ok(v) => v,
            Err(err) => { return Err(err) },
        };
        if tb < e.receive {
            return Err(LedgerError::InvalidArgument);
        }
        let base_b: u64 = if c2 {
            0
        } else {
            match read_token_amount(&self.accounts.maker_ata_b) {
                Ok(v) => v,
                Err(err) => { return Err(err) },
            }
        };
        if base_b > u64::MAX - e.receive {
            return Err(LedgerError::ArithmeticOverflow);
        }
        let taker_addr = self.accounts.taker.address;
        let maker_addr = self.accounts.maker.address;
        match AssociatedTokenAccount::init_if_needed(
            &mut self.accounts.taker_ata_a,
            &self.accounts.mint_a.address,
            &mut self.accounts.taker,
            &taker_addr,
            &self.accounts.token_program.address,
            rent_ata,
        ) {
            Ok(_) => (),
            Err(err) => { return Err(err) },
        }
        match AssociatedTokenAccount::init_if_needed(
            &mut self.accounts.maker_ata_b,
            &self.accounts.mint_b.address,
            &mut self.accounts.taker,
            &maker_addr,
            &self.accounts.token_program.address,
            rent_ata,
        ) {
            Ok(_) => (),
            Err(err) => { return Err(err) },
        }
        match token_transfer(&mut self.accounts.vault, &mut self.accounts.taker_ata_a, va) {
            Ok(_) => (),
            Err(err) => { return Err(err) },
        }
        close_account(&mut self.accounts.vault, &mut self.accounts.maker);
        match token_transfer(&mut self.accounts.taker_ata_b, &mut self.accounts.maker_ata_b, e.receive)
            {
            Ok(_) => (),
            Err(err) => { return Err(err) },
        }
        close_account(&mut self.accounts.escrow, &mut self.accounts.taker);
        Ok(())
    }
}

} // verus!
