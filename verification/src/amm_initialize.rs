use vstd::prelude::*;

use crate::account::{spec_handle_eq, spec_same_but_lamports, spec_unclaimed, AccountHandle};
use crate::addr::{addr_from_slice, addr_to_vec, Address, PROGRAM_ID, TOKEN_PROGRAM_ID};
use crate::errors::LedgerError;
use crate::pda::{replay_derivation, spec_create_pda};
use crate::state::{spec_config_matches_bytes, Config, CONFIG_LEN};
use crate::token::{
    init_mint_record, spec_mint_authority, spec_mint_decimals, spec_mint_initialized,
    spec_mint_supply, MINT_LEN,
};

verus! {

/// The fixed first seed of a pool-configuration derivation: the bytes of
/// `"config"`.
pub open spec fn spec_config_tag() -> Seq<u8> {
    seq![99u8, 111u8, 110u8, 102u8, 105u8, 103u8]
}

/// The fixed first seed of a liquidity-mint derivation: the bytes of
/// `"mint_lp"`.
pub open spec fn spec_mint_lp_tag() -> Seq<u8> {
    seq![109u8, 105u8, 110u8, 116u8, 95u8, 108u8, 112u8]
}

/// The seed tuple of a pool configuration's derived address.
pub open spec fn spec_config_pda_seeds(seed: u64, mint_x: Seq<u8>, mint_y: Seq<u8>) -> Seq<
    Seq<u8>,
> {
    seq![spec_config_tag(), vstd::bytes::spec_u64_to_le_bytes(seed), mint_x, mint_y]
}

/// The seed tuple of a pool's liquidity-mint derived address.
pub open spec fn spec_mint_lp_pda_seeds(config: Seq<u8>) -> Seq<Seq<u8>> {
    seq![spec_mint_lp_tag(), config]
}

/// Builds the pool-configuration seed tuple.
pub fn config_pda_seeds(seed: u64, mint_x: &Address, mint_y: &Address) -> (r: Vec<Vec<u8>>)
    ensures
        r.deep_view() =~~= spec_config_pda_seeds(seed, mint_x@, mint_y@),
        forall|i: int|
            0 <= i < r.deep_view().len() ==> #[trigger] r.deep_view()[i].len()
                <= crate::pda::MAX_SEED_LEN,
{
    let mut tag: Vec<u8> = Vec::new();
    tag.push(99);
    tag.push(111);
    tag.push(110);
    tag.push(102);
    tag.push(105);
    tag.push(103);
    let mut r: Vec<Vec<u8>> = Vec::new();
    r.push(tag);
    r.push(vstd::bytes::u64_to_le_bytes(seed));
    r.push(addr_to_vec(mint_x));
    r.push(addr_to_vec(mint_y));
    proof {
        assert(r.deep_view() =~~= spec_config_pda_seeds(seed, mint_x@, mint_y@));
        vstd::bytes::lemma_auto_spec_u64_to_from_le_bytes();
    }
    r
}

/// Builds the liquidity-mint seed tuple.
pub fn mint_lp_pda_seeds(config: &Address) -> (r: Vec<Vec<u8>>)
    ensures
        r.deep_view() =~~= spec_mint_lp_pda_seeds(config@),
        forall|i: int|
            0 <= i < r.deep_view().len() ==> #[trigger] r.deep_view()[i].len()
                <= crate::pda::MAX_SEED_LEN,
{
    let mut tag: Vec<u8> = Vec::new();
    tag.push(109);
    tag.push(105);
    tag.push(110);
    tag.push(116);
    tag.push(95);
    tag.push(108);
    tag.push(112);
    let mut r: Vec<Vec<u8>> = Vec::new();
    r.push(tag);
    r.push(addr_to_vec(config));
    proof {
        assert(r.deep_view() =~~= spec_mint_lp_pda_seeds(config@));
    }
    r
}

/// The ordered handle list pool initialization expects.
pub struct InitializeAccounts {
    pub initializer: AccountHandle,
    pub mint_lp: AccountHandle,
    pub config: AccountHandle,
    pub token_program: AccountHandle,
    pub system_program: AccountHandle,
}

impl InitializeAccounts {
    /// Destructures the handle list; fewer than five handles fail
    /// `NotEnoughAccountKeys`, trailing extras are ignored.
    pub fn try_from(accounts: &Vec<AccountHandle>) -> (r: Result<InitializeAccounts, LedgerError>)
        ensures
            r is Ok <==> accounts@.len() >= 5,
            r is Err ==> r == Err::<InitializeAccounts, LedgerError>(
                LedgerError::NotEnoughAccountKeys,
            ),
            r is Ok ==> spec_handle_eq(r.unwrap().initializer, accounts@[0]) && spec_handle_eq(
                r.unwrap().mint_lp,
                accounts@[1],
            ) && spec_handle_eq(r.unwrap().config, accounts@[2]) && spec_handle_eq(
                r.unwrap().token_program,
                accounts@[3],
            ) && spec_handle_eq(r.unwrap().system_program, accounts@[4]),
    {
        if accounts.len() < 5 {
            return Err(LedgerError::NotEnoughAccountKeys);
        }
        Ok(
            InitializeAccounts {
                initializer: accounts[0].clone(),
                mint_lp: accounts[1].clone(),
                config: accounts[2].clone(),
                token_program: accounts[3].clone(),
                system_program: accounts[4].clone(),
            },
        )
    }
}

/// Payload of pool initialization: the pool's parameters, the two cached
/// bump bytes, and an optional owner — a payload without the trailing
/// owner field means no owner.
pub struct InitializeInstructionData {
    pub seed: u64,
    pub fee: u16,
    pub mint_x: Address,
    pub mint_y: Address,
    pub config_bump: u8,
    pub lp_bump: u8,
    pub authority: Address,
}

impl InitializeInstructionData {
    /// Parses the fixed-width little-endian payload: exactly 108 bytes
    /// with the owner, exactly 76 without (the owner then all zeroes);
    /// any other length fails `InvalidInstructionData`.
    pub fn try_from(data: &[u8]) -> (r: Result<InitializeInstructionData, LedgerError>)
        ensures
            r is Ok <==> (data@.len() == 108 || data@.len() == 76),
            r is Err ==> r == Err::<InitializeInstructionData, LedgerError>(
                LedgerError::InvalidInstructionData,
            ),
            r is Ok ==> r.unwrap().seed == vstd::bytes::spec_u64_from_le_bytes(
                data@.subrange(0, 8),
            ) && r.unwrap().fee == vstd::bytes::spec_u16_from_le_bytes(data@.subrange(8, 10))
                && r.unwrap().mint_x@ =~= data@.subrange(10, 42) && r.unwrap().mint_y@
                =~= data@.subrange(42, 74) && r.unwrap().config_bump == data@[74]
                && r.unwrap().lp_bump == data@[75],
            r is Ok && data@.len() == 108 ==> r.unwrap().authority@ =~= data@.subrange(76, 108),
            r is Ok && data@.len() == 76 ==> r.unwrap().authority@ =~= Seq::new(
                32,
                |i: int| 0u8,
            ),
    {
        if data.len() != 108 && data.len() != 76 {
            return Err(LedgerError::InvalidInstructionData);
        }
        let seed = vstd::bytes::u64_from_le_bytes(vstd::slice::slice_subrange(data, 0, 8));
        let fee = vstd::bytes::u16_from_le_bytes(vstd::slice::slice_subrange(data, 8, 10));
        let mint_x = addr_from_slice(data, 10);
        let mint_y = addr_from_slice(data, 42);
        let config_bump = *vstd::slice::slice_index_get(data, 74);
        let lp_bump = *vstd::slice::slice_index_get(data, 75);
        let authority: Address = if data.len() == 108 {
            addr_from_slice(data, 76)
        } else {
            let z: Address = [
                0, 0, 0, 0, 0, 0, 0, 0, 0, 0, 0, 0, 0, 0, 0, 0, 0, 0, 0, 0, 0, 0, 0, 0, 0, 0, 0,
                0, 0, 0, 0, 0,
            ];
            z
        };
        proof {
            if data@.len() == 76 {
                assert(authority@ =~= Seq::new(32, |i: int| 0u8));
            }
        }
        Ok(InitializeInstructionData { seed, fee, mint_x, mint_y, config_bump, lp_bump, authority })
    }
}

/// A pool-initialization instruction: handles and payload.
pub struct Initialize {
    pub accounts: InitializeAccounts,
    pub instruction_data: InitializeInstructionData,
}

/// The full decision pool initialization makes over its pre-state, or the
/// error that aborts the instruction before any effect.
pub open spec fn spec_initialize_outcome(
    s: Initialize,
    rent_config: u64,
    rent_mint: u64,
) -> Result<(), LedgerError> {
    let a = s.accounts;
    let d = s.instruction_data;
    if d.fee >= 10000 {
        Err(LedgerError::InvalidAccountData)
    } else {
        let config_replay = spec_create_pda(
            spec_config_pda_seeds(d.seed, d.mint_x@, d.mint_y@).push(seq![d.config_bump]),
            PROGRAM_ID@,
        );
        if !(config_replay matches Option::Some(addr) && addr =~= a.config.address@) {
            Err(LedgerError::InvalidAddress)
        } else if !spec_unclaimed(a.config) {
            Err(LedgerError::InvalidAccountData)
        } else if a.initializer.lamports < rent_config {
            Err(LedgerError::InvalidArgument)
        } else {
            let lp_replay = spec_create_pda(
                spec_mint_lp_pda_seeds(a.config.address@).push(seq![d.lp_bump]),
                PROGRAM_ID@,
            );
            if !(lp_replay matches Option::Some(addr) && addr =~= a.mint_lp.address@) {
                Err(LedgerError::InvalidAddress)
            } else if !spec_unclaimed(a.mint_lp) {
                Err(LedgerError::InvalidAccountData)
            } else if a.initializer.lamports - rent_config < rent_mint {
                Err(LedgerError::InvalidArgument)
            } else {
                Ok(())
            }
        }
    }
}

/// The fee bound holds: a pool comes into being only under a fee below
/// the basis-point denominator — any larger fee aborts initialization,
/// for every such input.
pub proof fn lemma_initialize_fee_bound(s: Initialize, rent_config: u64, rent_mint: u64)
    requires
        s.instruction_data.fee >= 10000,
    ensures
        spec_initialize_outcome(s, rent_config, rent_mint) == Err::<(), LedgerError>(
            LedgerError::InvalidAccountData,
        ),
{
}

impl Initialize {
    /// The payload byte that routes to this instruction.
    pub const DISCRIMINATOR: u8 = 0;

    /// Parses handles, then payload.
    pub fn try_from(data: &[u8], accounts: &Vec<AccountHandle>) -> (r: Result<
        Initialize,
        LedgerError,
    >)
        ensures
            r is Ok <==> accounts@.len() >= 5 && (data@.len() == 108 || data@.len() == 76),
            accounts@.len() < 5 ==> r == Err::<Initialize, LedgerError>(
                LedgerError::NotEnoughAccountKeys,
            ),
            accounts@.len() >= 5 && !(data@.len() == 108 || data@.len() == 76) ==> r == Err::<
                Initialize,
                LedgerError,
            >(LedgerError::InvalidInstructionData),
    {
        let accounts = match InitializeAccounts::try_from(accounts) {
            Ok(a) => a,
            Err(e) => { return Err(e) },
        };
        let instruction_data = match InitializeInstructionData::try_from(data) {
            Ok(d) => d,
            Err(e) => { return Err(e) },
        };
        Ok(Initialize { accounts, instruction_data })
    }

    /// Creates the pool: refuses a fee at or above the basis-point
    /// denominator; creates the configuration record and the liquidity
    /// mint at their derived addresses, funded by the initializer with
    /// the given rents; marks the pool `Initialized` and stores its
    /// parameters; and initializes the liquidity mint with six decimals
    /// under the configuration's authority — all of it or none of it.
    pub fn process(&mut self, rent_config: u64, rent_mint: u64) -> (r: Result<(), LedgerError>)
        ensures
            (spec_initialize_outcome(*old(self), rent_config, rent_mint) is Err) ==> r == Err::<
                (),
                LedgerError,
            >(spec_initialize_outcome(*old(self), rent_config, rent_mint)->Err_0) && *final(self)
                == *old(self),
            (spec_initialize_outcome(*old(self), rent_config, rent_mint) is Ok) ==> r is Ok && {
                let a = old(self).accounts;
                let d = old(self).instruction_data;
                let f = final(self).accounts;
                &&& spec_same_but_lamports(a.initializer, f.initializer)
                &&& f.initializer.lamports == a.initializer.lamports - rent_config - rent_mint
                &&& f.config.owner@ =~= PROGRAM_ID@
                &&& f.config.lamports == rent_config
                &&& spec_config_matches_bytes(
                    Config {
                        state: 1,
                        seed: d.seed,
                        authority: d.authority,
                        mint_x: d.mint_x,
                        mint_y: d.mint_y,
                        fee: d.fee,
                        config_bump: d.config_bump,
                    },
                    f.config.data@,
                )
                &&& f.config.address == a.config.address
                &&& f.mint_lp.owner@ =~= TOKEN_PROGRAM_ID@
                &&& f.mint_lp.lamports == rent_mint
                &&& f.mint_lp.data@.len() == MINT_LEN
                &&& spec_mint_supply(f.mint_lp.data@) == 0
                &&& spec_mint_decimals(f.mint_lp.data@) == 6
                &&& spec_mint_authority(f.mint_lp.data@) =~= a.config.address@
                &&& spec_mint_initialized(f.mint_lp.data@)
                &&& f.mint_lp.address == a.mint_lp.address
                &&& f.token_program == a.token_program
                &&& f.system_program == a.system_program
            },
            final(self).instruction_data == old(self).instruction_data,
    {
        let seed = self.instruction_data.seed;
        let fee = self.instruction_data.fee;
        let config_bump = self.instruction_data.config_bump;
        let lp_bump = self.instruction_data.lp_bump;
        if fee >= 10000 {
            return Err(LedgerError::InvalidAccountData);
        }
        let config_seeds = config_pda_seeds(
            seed,
            &self.instruction_data.mint_x,
            &self.instruction_data.mint_y,
        );
        match replay_derivation(&config_seeds, config_bump, &PROGRAM_ID) {
            Option::None => { return Err(LedgerError::InvalidAddress) },
            Option::Some(addr) => {
                if !self.accounts.config.has_address(&addr) {
                    return Err(LedgerError::InvalidAddress);
                }
            },
        }
        if !(self.accounts.config.owned_by(&crate::addr::SYSTEM_PROGRAM_ID)
            && self.accounts.config.lamports == 0 && self.accounts.config.data.len() == 0) {
            return Err(LedgerError::InvalidAccountData);
        }
        if self.accounts.initializer.lamports < rent_config {
            return Err(LedgerError::InvalidArgument);
        }
        let lp_seeds = mint_lp_pda_seeds(&self.accounts.config.address);
        match replay_derivation(&lp_seeds, lp_bump, &PROGRAM_ID) {
            Option::None => { return Err(LedgerError::InvalidAddress) },
            Option::Some(addr) => {
                if !self.accounts.mint_lp.has_address(&addr) {
                    return Err(LedgerError::InvalidAddress);
                }
            },
        }
        if !(self.accounts.mint_lp.owned_by(&crate::addr::SYSTEM_PROGRAM_ID)
            && self.accounts.mint_lp.lamports == 0 && self.accounts.mint_lp.data.len() == 0) {
            return Err(LedgerError::InvalidAccountData);
        }
        if self.accounts.initializer.lamports - rent_config < rent_mint {
            return Err(LedgerError::InvalidArgument);
        }
        match crate::account::create_account(
            &mut self.accounts.initializer,
            &mut self.accounts.config,
            rent_config,
            CONFIG_LEN,
            &PROGRAM_ID,
        ) {
            Ok(_) => (),
            Err(e) => { return Err(e) },
        }
        let mut record = Config {
            state: 0,
            seed: 0,
            authority: self.instruction_data.authority,
            mint_x: self.instruction_data.mint_x,
            mint_y: self.instruction_data.mint_y,
            fee: 0,
            config_bump,
        };
        match record.set_inner(
            seed,
            self.instruction_data.authority,
            self.instruction_data.mint_x,
            self.instruction_data.mint_y,
            fee,
            config_bump,
        ) {
            Ok(_) => (),
            Err(e) => { return Err(e) },
        }
        match record.store(&mut self.accounts.config, &PROGRAM_ID) {
            Ok(_) => (),
            Err(e) => { return Err(e) },
        }
        match crate::account::create_account(
            &mut self.accounts.initializer,
            &mut self.accounts.mint_lp,
            rent_mint,
            MINT_LEN,
            &TOKEN_PROGRAM_ID,
        ) {
            Ok(_) => (),
            Err(e) => { return Err(e) },
        }
        let config_addr = self.accounts.config.address;
        match init_mint_record(&mut self.accounts.mint_lp, &config_addr, 6) {
            Ok(_) => (),
            Err(e) => { return Err(e) },
        }
        Ok(())
    }
}

} // verus!
