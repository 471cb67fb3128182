use vstd::prelude::*;

use crate::account::{spec_handle_eq, AccountHandle};
use crate::addr::PROGRAM_ID;
use crate::bytes::{i64_from_le_bytes, spec_i64_from_le_bytes};
use crate::curve::{pair_amounts_from_shares, spec_pair_amounts};
use crate::errors::LedgerError;
use crate::state::{spec_config_state, Config, CONFIG_LEN};
use crate::token::{
    read_mint_supply, read_token_amount, spec_mint_resupplied, spec_mint_supply,
    spec_token_amount, spec_token_rebalanced, token_mint_to, token_transfer, MINT_LEN,
    TOKEN_ACCOUNT_LEN,
};

verus! {

/// The decision the token ledger makes for a transfer, over the old data
/// of both records.
pub open spec fn spec_transfer_check(from_d: Seq<u8>, to_d: Seq<u8>, amount: u64) -> Result<
    (),
    LedgerError,
> {
    if from_d.len() != TOKEN_ACCOUNT_LEN {
        Err(LedgerError::InvalidAccountData)
    } else if to_d.len() != TOKEN_ACCOUNT_LEN {
        Err(LedgerError::InvalidAccountData)
    } else if spec_token_amount(from_d) < amount {
        Err(LedgerError::InvalidArgument)
    } else if spec_token_amount(to_d) + amount > u64::MAX {
        Err(LedgerError::ArithmeticOverflow)
    } else {
        Ok(())
    }
}

/// The decision the token ledger makes for minting into an account, over
/// the old data of the mint and of the destination record.
pub open spec fn spec_mint_to_check(mint_d: Seq<u8>, to_d: Seq<u8>, amount: u64) -> Result<
    (),
    LedgerError,
> {
    if mint_d.len() != MINT_LEN {
        Err(LedgerError::InvalidAccountData)
    } else if to_d.len() != TOKEN_ACCOUNT_LEN {
        Err(LedgerError::InvalidAccountData)
    } else if spec_mint_supply(mint_d) + amount > u64::MAX {
        Err(LedgerError::ArithmeticOverflow)
    } else if spec_token_amount(to_d) + amount > u64::MAX {
        Err(LedgerError::ArithmeticOverflow)
    } else {
        Ok(())
    }
}

/// The ordered handle list a deposit expects.
pub struct DepositAccounts {
    pub user: AccountHandle,
    pub mint_lp: AccountHandle,
    pub vault_x: AccountHandle,
    pub vault_y: AccountHandle,
    pub user_x_ata: AccountHandle,
    pub user_y_ata: AccountHandle,
    pub user_lp_ata: AccountHandle,
    pub config: AccountHandle,
    pub token_program: AccountHandle,
}

impl DepositAccounts {
    /// Destructures the handle list; fewer than nine handles fail
    /// `NotEnoughAccountKeys`, trailing extras are ignored.
    pub fn try_from(accounts: &Vec<AccountHandle>) -> (r: Result<DepositAccounts, LedgerError>)
        ensures
            r is Ok <==> accounts@.len() >= 9,
            r is Err ==> r == Err::<DepositAccounts, LedgerError>(LedgerError::NotEnoughAccountKeys),
            r is Ok ==> spec_handle_eq(r.unwrap().user, accounts@[0]) && spec_handle_eq(
                r.unwrap().mint_lp,
                accounts@[1],
            ) && spec_handle_eq(r.unwrap().vault_x, accounts@[2]) && spec_handle_eq(
                r.unwrap().vault_y,
                accounts@[3],
            ) && spec_handle_eq(r.unwrap().user_x_ata, accounts@[4]) && spec_handle_eq(
                r.unwrap().user_y_ata,
                accounts@[5],
            ) && spec_handle_eq(r.unwrap().user_lp_ata, accounts@[6]) && spec_handle_eq(
                r.unwrap().config,
                accounts@[7],
            ) && spec_handle_eq(r.unwrap().token_program, accounts@[8]),
    {
        if accounts.len() < 9 {
            return Err(LedgerError::NotEnoughAccountKeys);
        }
        Ok(
            DepositAccounts {
                user: accounts[0].clone(),
                mint_lp: accounts[1].clone(),
                vault_x: accounts[2].clone(),
                vault_y: accounts[3].clone(),
                user_x_ata: accounts[4].clone(),
                user_y_ata: accounts[5].clone(),
                user_lp_ata: accounts[6].clone(),
                config: accounts[7].clone(),
                token_program: accounts[8].clone(),
            },
        )
    }
}

/// Payload of a deposit: requested liquidity shares, the slippage
/// ceilings, and the expiry.
pub struct DepositInstructionData {
    pub amount: u64,
    pub max_x: u64,
    pub max_y: u64,
    pub expiration: i64,
}

impl DepositInstructionData {
    /// Parses the fixed-width little-endian payload; a short payload fails
    /// `InvalidInstructionData`.
    pub fn try_from(data: &[u8]) -> (r: Result<DepositInstructionData, LedgerError>)
        ensures
            r is Ok <==> data@.len() >= 32,
            r is Err ==> r == Err::<DepositInstructionData, LedgerError>(
                LedgerError::InvalidInstructionData,
            ),
            r is Ok ==> r.unwrap().amount == vstd::bytes::spec_u64_from_le_bytes(
                data@.subrange(0, 8),
            ) && r.unwrap().max_x == vstd::bytes::spec_u64_from_le_bytes(data@.subrange(8, 16))
                && r.unwrap().max_y == vstd::bytes::spec_u64_from_le_bytes(data@.subrange(16, 24))
                && r.unwrap().expiration as int == spec_i64_from_le_bytes(data@.subrange(24, 32)),
    {
        if data.len() < 32 {
            return Err(LedgerError::InvalidInstructionData);
        }
        let amount = vstd::bytes::u64_from_le_bytes(vstd::slice::slice_subrange(data, 0, 8));
        let max_x = vstd::bytes::u64_from_le_bytes(vstd::slice::slice_subrange(data, 8, 16));
        let max_y = vstd::bytes::u64_from_le_bytes(vstd::slice::slice_subrange(data, 16, 24));
        let expiration = i64_from_le_bytes(vstd::slice::slice_subrange(data, 24, 32));
        Ok(DepositInstructionData { amount, max_x, max_y, expiration })
    }
}

/// A deposit instruction: handles and payload.
pub struct Deposit {
    pub accounts: DepositAccounts,
    pub instruction_data: DepositInstructionData,
}

/// The share amounts a deposit settles on: the caller's ceilings verbatim
/// while no liquidity is outstanding, else the proportional pair.
pub open spec fn spec_deposit_amounts(
    supply: u64,
    vx: u64,
    vy: u64,
    data: DepositInstructionData,
) -> Option<(u64, u64)> {
    if supply == 0 {
        Some((data.max_x, data.max_y))
    } else {
        spec_pair_amounts(vx, vy, supply, data.amount)
    }
}

/// The full decision a deposit makes over its pre-state: the planned pair
/// of pool contributions, or the error that aborts the instruction before
/// any effect.
pub open spec fn spec_deposit_outcome(s: Deposit, now: i64) -> Result<(u64, u64), LedgerError> {
    let cd = s.accounts.config.data@;
    let data = s.instruction_data;
    if now > data.expiration {
        Err(LedgerError::InvalidArgument)
    } else if cd.len() != CONFIG_LEN {
        Err(LedgerError::InvalidAccountData)
    } else if !(s.accounts.config.owner@ =~= PROGRAM_ID@) {
        Err(LedgerError::InvalidOwner)
    } else if spec_config_state(cd) != 1 {
        Err(LedgerError::InvalidAccountData)
    } else if s.accounts.mint_lp.data@.len() != MINT_LEN {
        Err(LedgerError::InvalidAccountData)
    } else if s.accounts.vault_x.data@.len() != TOKEN_ACCOUNT_LEN {
        Err(LedgerError::InvalidAccountData)
    } else if s.accounts.vault_y.data@.len() != TOKEN_ACCOUNT_LEN {
        Err(LedgerError::InvalidAccountData)
    } else {
        let supply = spec_mint_supply(s.accounts.mint_lp.data@);
        let vx = spec_token_amount(s.accounts.vault_x.data@);
        let vy = spec_token_amount(s.accounts.vault_y.data@);
        match spec_deposit_amounts(supply, vx, vy, data) {
            Option::None => Err(LedgerError::ArithmeticOverflow),
            Option::Some((x, y)) => {
                if x > data.max_x || y > data.max_y {
                    Err(LedgerError::InvalidArgument)
                } else {
                    match spec_transfer_check(s.accounts.user_x_ata.data@, s.accounts.vault_x.data@, x) {
                        Err(e) => Err(e),
                        Ok(_) => match spec_transfer_check(
                            s.accounts.user_y_ata.data@,
                            s.accounts.vault_y.data@,
                            y,
                        ) {
                            Err(e) => Err(e),
                            Ok(_) => match spec_mint_to_check(
                                s.accounts.mint_lp.data@,
                                s.accounts.user_lp_ata.data@,
                                data.amount,
                            ) {
                                Err(e) => Err(e),
                                Ok(_) => Ok((x, y)),
                            },
                        },
                    }
                }
            },
        }
    }
}

/// Bootstrapping a pool: while no liquidity is outstanding, a deposit
/// settles on the caller's ceilings exactly — the first deposit sets the
/// pool's balances and price ratio verbatim, for every pair of ceilings.
pub proof fn lemma_bootstrap_deposit_is_exact(vx: u64, vy: u64, data: DepositInstructionData)
    ensures
        spec_deposit_amounts(0, vx, vy, data) == Some((data.max_x, data.max_y)),
{
}

/// An expired deposit decides nothing else: whenever the current time
/// lies past the carried expiration, the outcome is `InvalidArgument`,
/// whatever every other input holds.
pub proof fn lemma_expired_deposit_fails(s: Deposit, now: i64)
    requires
        now > s.instruction_data.expiration,
    ensures
        spec_deposit_outcome(s, now) == Err::<(u64, u64), LedgerError>(
            LedgerError::InvalidArgument,
        ),
{
}

impl Deposit {
    /// The payload byte that routes to this instruction.
    pub const DISCRIMINATOR: u8 = 1;

    /// Parses handles, then payload.
    pub fn try_from(data: &[u8], accounts: &Vec<AccountHandle>) -> (r: Result<
        Deposit,
        LedgerError,
    >)
        ensures
            r is Ok <==> accounts@.len() >= 9 && data@.len() >= 32,
            accounts@.len() < 9 ==> r == Err::<Deposit, LedgerError>(
                LedgerError::NotEnoughAccountKeys,
            ),
            accounts@.len() >= 9 && data@.len() < 32 ==> r == Err::<Deposit, LedgerError>(
                LedgerError::InvalidInstructionData,
            ),
    {
        let accounts = match DepositAccounts::try_from(accounts) {
            Ok(a) => a,
            Err(e) => { return Err(e) },
        };
        let instruction_data = match DepositInstructionData::try_from(data) {
            Ok(d) => d,
            Err(e) => { return Err(e) },
        };
        Ok(Deposit { accounts, instruction_data })
    }

    /// Runs the deposit against the modeled pool: expiry check, state check,
    /// the proportional (or bootstrap) contribution with its slippage
    /// ceiling, then both asset transfers user to vault and the liquidity
    /// mint to the user — all of it or none of it.
    pub fn process(&mut self, now: i64) -> (r: Result<(), LedgerError>)
        ensures
            (spec_deposit_outcome(*old(self), now) is Err) ==> r == Err::<(), LedgerError>(
                spec_deposit_outcome(*old(self), now)->Err_0,
            ) && *final(self) == *old(self),
            (spec_deposit_outcome(*old(self), now) is Ok) ==> r is Ok && {
                let p = spec_deposit_outcome(*old(self), now)->Ok_0;
                let amount = old(self).instruction_data.amount;
                &&& spec_token_rebalanced(
                    old(self).accounts.user_x_ata,
                    final(self).accounts.user_x_ata,
                    (spec_token_amount(old(self).accounts.user_x_ata.data@) - p.0) as u64,
                )
                &&& spec_token_rebalanced(
                    old(self).accounts.vault_x,
                    final(self).accounts.vault_x,
                    (spec_token_amount(old(self).accounts.vault_x.data@) + p.0) as u64,
                )
                &&& spec_token_rebalanced(
                    old(self).accounts.user_y_ata,
                    final(self).accounts.user_y_ata,
                    (spec_token_amount(old(self).accounts.user_y_ata.data@) - p.1) as u64,
                )
                &&& spec_token_rebalanced(
                    old(self).accounts.vault_y,
                    final(self).accounts.vault_y,
                    (spec_token_amount(old(self).accounts.vault_y.data@) + p.1) as u64,
                )
                &&& spec_mint_resupplied(
                    old(self).accounts.mint_lp,
                    final(self).accounts.mint_lp,
                    (spec_mint_supply(old(self).accounts.mint_lp.data@) + amount) as u64,
                )
                &&& spec_token_rebalanced(
                    old(self).accounts.user_lp_ata,
                    final(self).accounts.user_lp_ata,
                    (spec_token_amount(old(self).accounts.user_lp_ata.data@) + amount) as u64,
                )
                &&& final(self).accounts.user == old(self).accounts.user
                &&& final(self).accounts.config == old(self).accounts.config
                &&& final(self).accounts.token_program == old(self).accounts.token_program
            },
            final(self).instruction_data == old(self).instruction_data,
    {
        let amount = self.instruction_data.amount;
        let max_x = self.instruction_data.max_x;
        let max_y = self.instruction_data.max_y;
        if now > self.instruction_data.expiration {
            return Err(LedgerError::InvalidArgument);
        }
        let config = match Config::load(&self.accounts.config, &PROGRAM_ID) {
            Ok(c) => c,
            Err(e) => { return Err(e) },
        };
        if config.state != 1 {
            return Err(LedgerError::InvalidAccountData);
        }
        let supply = match read_mint_supply(&self.accounts.mint_lp) {
            Ok(v) => v,
            Err(e) => { return Err(e) },
        };
        let vx = match read_token_amount(&self.accounts.vault_x) {
            Ok(v) => v,
            Err(e) => { return Err(e) },
        };
        let vy = match read_token_amount(&self.accounts.vault_y) {
            Ok(v) => v,
            Err(e) => { return Err(e) },
        };
        let (x, y) = if supply == 0 {
            (max_x, max_y)
        } else {
            match pair_amounts_from_shares(vx, vy, supply, amount) {
                Ok(p) => p,
                Err(e) => { return Err(e) },
            }
        };
        if x > max_x || y > max_y {
            return Err(LedgerError::InvalidArgument);
        }
        let ux = match read_token_amount(&self.accounts.user_x_ata) {
            Ok(v) => v,
            Err(e) => { return Err(e) },
        };
        if ux < x {
            return Err(LedgerError::InvalidArgument);
        }
        if vx > u64::MAX - x {
            return Err(LedgerError::ArithmeticOverflow);
        }
        let uy = match read_token_amount(&self.accounts.user_y_ata) {
            Ok(v) => v,
            Err(e) => { return Err(e) },
        };
        if uy < y {
            return Err(LedgerError::InvalidArgument);
        }
        if vy > u64::MAX - y {
            return Err(LedgerError::ArithmeticOverflow);
        }
        let ulp = match read_token_amount(&self.accounts.user_lp_ata) {
            Ok(v) => v,
            Err(e) => { return Err(e) },
        };
        if supply > u64::MAX - amount {
            return Err(LedgerError::ArithmeticOverflow);
        }
        if ulp > u64::MAX - amount {
            return Err(LedgerError::ArithmeticOverflow);
        }
        match token_transfer(&mut self.accounts.user_x_ata, &mut self.accounts.vault_x, x) {
            Ok(_) => (),
            Err(e) => { return Err(e) },
        }
        match token_transfer(&mut self.accounts.user_y_ata, &mut self.accounts.vault_y, y) {
            Ok(_) => (),
            Err(e) => { return Err(e) },
        }
        match token_mint_to(&mut self.accounts.mint_lp, &mut self.accounts.user_lp_ata, amount) {
            Ok(_) => (),
            Err(e) => { return Err(e) },
        }
        Ok(())
    }
}

} // verus!
