use vstd::prelude::*;

use crate::account::{spec_handle_eq, AccountHandle};
use crate::addr::PROGRAM_ID;
use crate::amm_deposit::spec_transfer_check;
use crate::bytes::{i64_from_le_bytes, spec_i64_from_le_bytes};
use crate::curve::{spec_swap_output, swap_output, FEE_DENOMINATOR};
use crate::errors::LedgerError;
use crate::state::{spec_config_fee, spec_config_state, Config, CONFIG_LEN};
use crate::token::{
    read_token_amount, spec_token_amount, spec_token_rebalanced, token_transfer,
    TOKEN_ACCOUNT_LEN,
};

verus! {

/// The ordered handle list a swap expects.
pub struct SwapAccounts {
    pub user: AccountHandle,
    pub user_x_ata: AccountHandle,
    pub user_y_ata: AccountHandle,
    pub vault_x: AccountHandle,
    pub vault_y: AccountHandle,
    pub config: AccountHandle,
    pub token_program: AccountHandle,
}

impl SwapAccounts {
    /// Destructures the handle list; fewer than seven handles fail
    /// `NotEnoughAccountKeys`, trailing extras are ignored.
    pub fn try_from(accounts: &Vec<AccountHandle>) -> (r: Result<SwapAccounts, LedgerError>)
        ensures
            r is Ok <==> accounts@.len() >= 7,
            r is Err ==> r == Err::<SwapAccounts, LedgerError>(LedgerError::NotEnoughAccountKeys),
            r is Ok ==> spec_handle_eq(r.unwrap().user, accounts@[0]) && spec_handle_eq(
                r.unwrap().user_x_ata,
                accounts@[1],
            ) && spec_handle_eq(r.unwrap().user_y_ata, accounts@[2]) && spec_handle_eq(
                r.unwrap().vault_x,
                accounts@[3],
            ) && spec_handle_eq(r.unwrap().vault_y, accounts@[4]) && spec_handle_eq(
                r.unwrap().config,
                accounts@[5],
            ) && spec_handle_eq(r.unwrap().token_program, accounts@[6]),
    {
        if accounts.len() < 7 {
            return Err(LedgerError::NotEnoughAccountKeys);
        }
        Ok(
            SwapAccounts {
                user: accounts[0].clone(),
                user_x_ata: accounts[1].clone(),
                user_y_ata: accounts[2].clone(),
                vault_x: accounts[3].clone(),
                vault_y: accounts[4].clone(),
                config: accounts[5].clone(),
                token_program: accounts[6].clone(),
            },
        )
    }
}

/// Payload of a swap: the traded direction, the amount brought in, the
/// slippage floor on what comes out, and the expiry.
pub struct SwapInstructionData {
    pub is_x: bool,
    pub amount: u64,
    pub min: u64,
    pub expiration: i64,
}

impl SwapInstructionData {
    /// Parses the fixed-width little-endian payload — one direction byte,
    /// then three 8-byte fields; a short payload fails
    /// `InvalidInstructionData`.  Any non-zero direction byte trades the
    /// first asset in.
    pub fn try_from(data: &[u8]) -> (r: Result<SwapInstructionData, LedgerError>)
        ensures
            r is Ok <==> data@.len() >= 25,
            r is Err ==> r == Err::<SwapInstructionData, LedgerError>(
                LedgerError::InvalidInstructionData,
            ),
            r is Ok ==> (r.unwrap().is_x <==> data@[0] != 0) && r.unwrap().amount
                == vstd::bytes::spec_u64_from_le_bytes(data@.subrange(1, 9)) && r.unwrap().min
                == vstd::bytes::spec_u64_from_le_bytes(data@.subrange(9, 17))
                && r.unwrap().expiration as int == spec_i64_from_le_bytes(data@.subrange(17, 25)),
    {
        if data.len() < 25 {
            return Err(LedgerError::InvalidInstructionData);
        }
        let is_x = *vstd::slice::slice_index_get(data, 0) != 0;
        let amount = vstd::bytes::u64_from_le_bytes(vstd::slice::slice_subrange(data, 1, 9));
        let min = vstd::bytes::u64_from_le_bytes(vstd::slice::slice_subrange(data, 9, 17));
        let expiration = i64_from_le_bytes(vstd::slice::slice_subrange(data, 17, 25));
        Ok(SwapInstructionData { is_x, amount, min, expiration })
    }
}

/// A swap instruction: handles and payload.
pub struct Swap {
    pub accounts: SwapAccounts,
    pub instruction_data: SwapInstructionData,
}

/// The full decision a swap makes over its pre-state: the settled
/// `(deposit, withdraw)` pair, or the error that aborts the instruction
/// before any effect.
pub open spec fn spec_swap_outcome(s: Swap, now: i64) -> Result<(u64, u64), LedgerError> {
    let cd = s.accounts.config.data@;
    let data = s.instruction_data;
    if now > data.expiration {
        Err(LedgerError::InvalidArgument)
    } else if cd.len() != CONFIG_LEN {
        Err(LedgerError::InvalidAccountData)
    } else if !(s.accounts.config.owner@ =~= PROGRAM_ID@) {
        Err(LedgerError::InvalidOwner)
    } else if spec_config_state(cd) != 1 {
        Err(LedgerError::InvalidAccountData)
    } else if s.accounts.vault_x.data@.len() != TOKEN_ACCOUNT_LEN {
        Err(LedgerError::InvalidAccountData)
    } else if s.accounts.vault_y.data@.len() != TOKEN_ACCOUNT_LEN {
        Err(LedgerError::InvalidAccountData)
    } else if spec_config_fee(cd) >= FEE_DENOMINATOR {
        Err(LedgerError::InvalidAccountData)
    } else {
        let vx = spec_token_amount(s.accounts.vault_x.data@);
        let vy = spec_token_amount(s.accounts.vault_y.data@);
        let reserve_in = if data.is_x {
            vx
        } else {
            vy
        };
        let reserve_out = if data.is_x {
            vy
        } else {
            vx
        };
        match spec_swap_output(reserve_in, reserve_out, spec_config_fee(cd), data.amount) {
            Option::None => Err(LedgerError::ArithmeticOverflow),
            Option::Some(out) => {
                if out < data.min {
                    Err(LedgerError::InvalidArgument)
                } else {
                    let from_d = if data.is_x {
                        s.accounts.user_x_ata.data@
                    } else {
                        s.accounts.user_y_ata.data@
                    };
                    let vault_in_d = if data.is_x {
                        s.accounts.vault_x.data@
                    } else {
                        s.accounts.vault_y.data@
                    };
                    let vault_out_d = if data.is_x {
                        s.accounts.vault_y.data@
                    } else {
                        s.accounts.vault_x.data@
                    };
                    let to_d = if data.is_x {
                        s.accounts.user_y_ata.data@
                    } else {
                        s.accounts.user_x_ata.data@
                    };
                    match spec_transfer_check(from_d, vault_in_d, data.amount) {
                        Err(e) => Err(e),
                        Ok(_) => match spec_transfer_check(vault_out_d, to_d, out) {
                            Err(e) => Err(e),
                            Ok(_) => Ok((data.amount, out)),
                        },
                    }
                }
            },
        }
    }
}

/// The slippage floor holds: a swap settles only on a withdrawal at or
/// above the caller's floor — a quote below it aborts the instruction
/// with `InvalidArgument`.
pub proof fn lemma_swap_respects_floor(s: Swap, now: i64)
    ensures
        (spec_swap_outcome(s, now) is Ok) ==> spec_swap_outcome(s, now)->Ok_0.1
            >= s.instruction_data.min,
{
}

/// An expired swap decides nothing else: whenever the current time lies
/// past the carried expiration, the outcome is `InvalidArgument`,
/// whatever every other input holds.
pub proof fn lemma_expired_swap_fails(s: Swap, now: i64)
    requires
        now > s.instruction_data.expiration,
    ensures
        spec_swap_outcome(s, now) == Err::<(u64, u64), LedgerError>(LedgerError::InvalidArgument),
{
}

impl Swap {
    /// The payload byte that routes to this instruction.
    pub const DISCRIMINATOR: u8 = 3;

    /// Parses handles, then payload.
    pub fn try_from(data: &[u8], accounts: &Vec<AccountHandle>) -> (r: Result<Swap, LedgerError>)
        ensures
            r is Ok <==> accounts@.len() >= 7 && data@.len() >= 25,
            accounts@.len() < 7 ==> r == Err::<Swap, LedgerError>(
                LedgerError::NotEnoughAccountKeys,
            ),
            accounts@.len() >= 7 && data@.len() < 25 ==> r == Err::<Swap, LedgerError>(
                LedgerError::InvalidInstructionData,
            ),
    {
        let accounts = match SwapAccounts::try_from(accounts) {
            Ok(a) => a,
            Err(e) => { return Err(e) },
        };
        let instruction_data = match SwapInstructionData::try_from(data) {
            Ok(d) => d,
            Err(e) => { return Err(e) },
        };
        Ok(Swap { accounts, instruction_data })
    }

    /// Runs the swap against the modeled pool: expiry check, state check,
    /// the constant-product quote with the pool's fee and the caller's
    /// floor, then the two-leg atomic exchange — the input asset user to
    /// vault, the output asset vault to user — all of it or none of it.
    pub fn process(&mut self, now: i64) -> (r: Result<(), LedgerError>)
        ensures
            (spec_swap_outcome(*old(self), now) is Err) ==> r == Err::<(), LedgerError>(
                spec_swap_outcome(*old(self), now)->Err_0,
            ) && *final(self) == *old(self),
            (spec_swap_outcome(*old(self), now) is Ok) ==> r is Ok && {
                let p = spec_swap_outcome(*old(self), now)->Ok_0;
                let is_x = old(self).instruction_data.is_x;
                let user_in = if is_x {
                    old(self).accounts.user_x_ata
                } else {
                    old(self).accounts.user_y_ata
                };
                let vault_in = if is_x {
                    old(self).accounts.vault_x
                } else {
                    old(self).accounts.vault_y
                };
                let vault_out = if is_x {
                    old(self).accounts.vault_y
                } else {
                    old(self).accounts.vault_x
                };
                let user_out = if is_x {
                    old(self).accounts.user_y_ata
                } else {
                    old(self).accounts.user_x_ata
                };
                let fin_user_in = if is_x {
                    final(self).accounts.user_x_ata
                } else {
                    final(self).accounts.user_y_ata
                };
                let fin_vault_in = if is_x {
                    final(self).accounts.vault_x
                } else {
                    final(self).accounts.vault_y
                };
                let fin_vault_out = if is_x {
                    final(self).accounts.vault_y
                } else {
                    final(self).accounts.vault_x
                };
                let fin_user_out = if is_x {
                    final(self).accounts.user_y_ata
                } else {
                    final(self).accounts.user_x_ata
                };
                &&& spec_token_rebalanced(
                    user_in,
                    fin_user_in,
                    (spec_token_amount(user_in.data@) - p.0) as u64,
                )
                &&& spec_token_rebalanced(
                    vault_in,
                    fin_vault_in,
                    (spec_token_amount(vault_in.data@) + p.0) as u64,
                )
                &&& spec_token_rebalanced(
                    vault_out,
                    fin_vault_out,
                    (spec_token_amount(vault_out.data@) - p.1) as u64,
                )
                &&& spec_token_rebalanced(
                    user_out,
                    fin_user_out,
                    (spec_token_amount(user_out.data@) + p.1) as u64,
                )
                &&& final(self).accounts.user == old(self).accounts.user
                &&& final(self).accounts.config == old(self).accounts.config
                &&& final(self).accounts.token_program == old(self).accounts.token_program
            },
            final(self).instruction_data == old(self).instruction_data,
    {
        let amount = self.instruction_data.amount;
        let min = self.instruction_data.min;
        let is_x = self.instruction_data.is_x;
        if now > self.instruction_data.expiration {
            return Err(LedgerError::InvalidArgument);
        }
        let config = match Config::load(&self.accounts.config, &PROGRAM_ID) {
            Ok(c) => c,
            Err(e) => { return Err(e) },
        };
        if config.state != 1 {
            return Err(LedgerError::InvalidAccountData);
        }
        let vx = match read_token_amount(&self.accounts.vault_x) {
            Ok(v) => v,
            Err(e) => { return Err(e) },
        };
        let vy = match read_token_amount(&self.accounts.vault_y) {
            Ok(v) => v,
            Err(e) => { return Err(e) },
        };
        proof {
            vstd::bytes::lemma_auto_spec_u16_to_from_le_bytes();
        }
        if config.fee >= 10000 {
            return Err(LedgerError::InvalidAccountData);
        }
        let reserve_in = if is_x {
            vx
        } else {
            vy
        };
        let reserve_out = if is_x {
            vy
        } else {
            vx
        };
        let out = match swap_output(reserve_in, reserve_out, config.fee, amount) {
            Ok(v) => v,
            Err(e) => { return Err(e) },
        };
        if out < min {
            return Err(LedgerError::InvalidArgument);
        }
        if is_x {
            let u_in = match read_token_amount(&self.accounts.user_x_ata) {
                Ok(v) => v,
                Err(e) => { return Err(e) },
            };
            if u_in < amount {
                return Err(LedgerError::InvalidArgument);
            }
            if vx > u64::MAX - amount {
                return Err(LedgerError::ArithmeticOverflow);
            }
            let u_out = match read_token_amount(&self.accounts.user_y_ata) {
                Ok(v) => v,
                Err(e) => { return Err(e) },
            };
            if vy < out {
                return Err(LedgerError::InvalidArgument);
            }
            if u_out > u64::MAX - out {
                return Err(LedgerError::ArithmeticOverflow);
            }
            match token_transfer(&mut self.accounts.user_x_ata, &mut self.accounts.vault_x, amount)
                {
                Ok(_) => (),
                Err(e) => { return Err(e) },
            }
            match token_transfer(&mut self.accounts.vault_y, &mut self.accounts.user_y_ata, out) {
                Ok(_) => (),
                Err(e) => { return Err(e) },
            }
        } else {
            let u_in = match read_token_amount(&self.accounts.user_y_ata) {
                Ok(v) => v,
                Err(e) => { return Err(e) },
            };
            if u_in < amount {
                return Err(LedgerError::InvalidArgument);
            }
            if vy > u64::MAX - amount {
                return Err(LedgerError::ArithmeticOverflow);
            }
            let u_out = match read_token_amount(&self.accounts.user_x_ata) {
                Ok(v) => v,
                Err(e) => { return Err(e) },
            };
            if vx < out {
                return Err(LedgerError::InvalidArgument);
            }
            if u_out > u64::MAX - out {
                return Err(LedgerError::ArithmeticOverflow);
            }
            match token_transfer(&mut self.accounts.user_y_ata, &mut self.accounts.vault_y, amount)
                {
                Ok(_) => (),
                Err(e) => { return Err(e) },
            }
            match token_transfer(&mut self.accounts.vault_x, &mut self.accounts.user_x_ata, out) {
                Ok(_) => (),
                Err(e) => { return Err(e) },
            }
        }
        Ok(())
    }
}

} // verus!
