use vstd::prelude::*;

use crate::account::{lamport_transfer, spec_handle_eq, spec_same_but_lamports, AccountHandle};
use crate::addr::{addr_to_vec, Address, PROGRAM_ID, SYSTEM_PROGRAM_ID};
use crate::errors::LedgerError;
use crate::pda::{spec_try_find_pda, try_find_pda};

verus! {

/// The fixed first seed of a vault derivation: the bytes of `"vault"`.
pub open spec fn spec_vault_tag() -> Seq<u8> {
    seq![118u8, 97u8, 117u8, 108u8, 116u8]
}

/// The seed tuple of an owner's vault: the tag, then the owner.
pub open spec fn spec_vault_pda_seeds(owner: Seq<u8>) -> Seq<Seq<u8>> {
    seq![spec_vault_tag(), owner]
}

/// Builds the vault seed tuple for an owner.
pub fn vault_pda_seeds(owner: &Address) -> (r: Vec<Vec<u8>>)
    ensures
        r.deep_view() =~~= spec_vault_pda_seeds(owner@),
        forall|i: int|
            0 <= i < r.deep_view().len() ==> #[trigger] r.deep_view()[i].len()
                <= crate::pda::MAX_SEED_LEN,
{
    let mut tag: Vec<u8> = Vec::new();
    tag.push(118);
    tag.push(97);
    tag.push(117);
    tag.push(108);
    tag.push(116);
    let mut r: Vec<Vec<u8>> = Vec::new();
    r.push(tag);
    r.push(addr_to_vec(owner));
    proof {
        assert(r.deep_view() =~~= spec_vault_pda_seeds(owner@));
    }
    r
}

/// The capability set a vault deposit demands: the owner signs, the vault
/// is system-owned and still empty, and the vault's address is the
/// owner's derived vault address.
pub open spec fn spec_vault_deposit_validate(owner: AccountHandle, vault: AccountHandle) -> Result<
    (),
    LedgerError,
> {
    if !owner.is_signer {
        Err(LedgerError::NotSigner)
    } else if !(vault.owner@ =~= SYSTEM_PROGRAM_ID@) {
        Err(LedgerError::InvalidOwner)
    } else if vault.lamports != 0 {
        Err(LedgerError::InvalidAccountData)
    } else {
        match spec_try_find_pda(spec_vault_pda_seeds(owner.address@), PROGRAM_ID@) {
            Option::Some(p) => {
                if p.0 =~= vault.address@ {
                    Ok(())
                } else {
                    Err(LedgerError::InvalidAddress)
                }
            },
            Option::None => Err(LedgerError::InvalidAddress),
        }
    }
}

/// The ordered handle pair a vault deposit expects.
pub struct DepositAccount {
    pub owner: AccountHandle,
    pub vault: AccountHandle,
}

impl DepositAccount {
    /// Destructures the handle list — the third expected handle, the
    /// system program, is read but unused — and runs the capability set.
    pub fn try_from(accounts: &Vec<AccountHandle>) -> (r: Result<DepositAccount, LedgerError>)
        ensures
            accounts@.len() < 3 ==> r == Err::<DepositAccount, LedgerError>(
                LedgerError::NotEnoughAccountKeys,
            ),
            accounts@.len() >= 3 && (spec_vault_deposit_validate(accounts@[0], accounts@[1])
                is Err) ==> r == Err::<DepositAccount, LedgerError>(
                spec_vault_deposit_validate(accounts@[0], accounts@[1])->Err_0,
            ),
            accounts@.len() >= 3 && (spec_vault_deposit_validate(accounts@[0], accounts@[1])
                is Ok) ==> r is Ok && spec_handle_eq(r.unwrap().owner, accounts@[0])
                && spec_handle_eq(r.unwrap().vault, accounts@[1]),
    {
        if accounts.len() < 3 {
            return Err(LedgerError::NotEnoughAccountKeys);
        }
        let owner = accounts[0].clone();
        let vault = accounts[1].clone();
        if !owner.is_signer {
            return Err(LedgerError::NotSigner);
        }
        if !vault.owned_by(&SYSTEM_PROGRAM_ID) {
            return Err(LedgerError::InvalidOwner);
        }
        if vault.lamports != 0 {
            return Err(LedgerError::InvalidAccountData);
        }
        let seeds = vault_pda_seeds(&owner.address);
        match try_find_pda(&seeds, &PROGRAM_ID) {
            Option::None => { return Err(LedgerError::InvalidAddress) },
            Option::Some(p) => {
                if !vault.has_address(&p.0) {
                    return Err(LedgerError::InvalidAddress);
                }
            },
        }
        Ok(DepositAccount { owner, vault })
    }
}

/// Payload of a vault deposit: the amount alone, which must be positive.
pub struct DepositInstruction {
    pub amount: u64,
}

impl DepositInstruction {
    /// Parses the 8-byte little-endian payload; any other length fails
    /// `InvalidInstructionData`, a zero amount `InvalidAccountData`.
    pub fn try_from(data: &[u8]) -> (r: Result<DepositInstruction, LedgerError>)
        ensures
            data@.len() != 8 ==> r == Err::<DepositInstruction, LedgerError>(
                LedgerError::InvalidInstructionData,
            ),
            data@.len() == 8 && vstd::bytes::spec_u64_from_le_bytes(data@) == 0 ==> r == Err::<
                DepositInstruction,
                LedgerError,
            >(LedgerError::InvalidAccountData),
            data@.len() == 8 && vstd::bytes::spec_u64_from_le_bytes(data@) != 0 ==> r is Ok
                && r.unwrap().amount == vstd::bytes::spec_u64_from_le_bytes(data@),
    {
        if data.len() != 8 {
            return Err(LedgerError::InvalidInstructionData);
        }
        let amount = vstd::bytes::u64_from_le_bytes(data);
        if amount == 0 {
            return Err(LedgerError::InvalidAccountData);
        }
        Ok(DepositInstruction { amount })
    }
}

/// A vault-deposit instruction: handles and payload.
pub struct Deposit {
    pub accounts: DepositAccount,
    pub instruction_data: DepositInstruction,
}

impl Deposit {
    /// The payload byte that routes to this instruction.
    pub const DISCRIMINATOR: u8 = 0;

    /// Parses handles, then payload.
    pub fn try_from(data: &[u8], accounts: &Vec<AccountHandle>) -> (r: Result<
        Deposit,
        LedgerError,
    >)
        ensures
            accounts@.len() < 3 ==> r == Err::<Deposit, LedgerError>(
                LedgerError::NotEnoughAccountKeys,
            ),
            accounts@.len() >= 3 && (spec_vault_deposit_validate(accounts@[0], accounts@[1])
                is Err) ==> r == Err::<Deposit, LedgerError>(
                spec_vault_deposit_validate(accounts@[0], accounts@[1])->Err_0,
            ),
    {
        let accounts = match DepositAccount::try_from(accounts) {
            Ok(a) => a,
            Err(e) => { return Err(e) },
        };
        let instruction_data = match DepositInstruction::try_from(data) {
            Ok(d) => d,
            Err(e) => { return Err(e) },
        };
        Ok(Deposit { accounts, instruction_data })
    }

    /// Moves the deposit from the owner into the vault; fails
    /// `InvalidArgument` if the owner cannot cover it, and then moves
    /// nothing.
    pub fn process(&mut self) -> (r: Result<(), LedgerError>)
        requires
            old(self).accounts.vault.lamports + old(self).instruction_data.amount <= u64::MAX,
        ensures
            r is Ok <==> old(self).accounts.owner.lamports >= old(self).instruction_data.amount,
            r is Err ==> r == Err::<(), LedgerError>(LedgerError::InvalidArgument) && *final(self)
                == *old(self),
            r is Ok ==> spec_same_but_lamports(
                old(self).accounts.owner,
                final(self).accounts.owner,
            ) && final(self).accounts.owner.lamports == old(self).accounts.owner.lamports - old(
                self,
            ).instruction_data.amount,
            r is Ok ==> spec_same_but_lamports(
                old(self).accounts.vault,
                final(self).accounts.vault,
            ) && final(self).accounts.vault.lamports == old(self).accounts.vault.lamports + old(
                self,
            ).instruction_data.amount,
            final(self).instruction_data == old(self).instruction_data,
    {
        let amount = self.instruction_data.amount;
        match lamport_transfer(&mut self.accounts.owner, &mut self.accounts.vault, amount) {
            Ok(_) => Ok(()),
            Err(e) => Err(e),
        }
    }
}

/// The capability set a vault withdrawal demands: the owner signs, the
/// vault is system-owned and holds something, and the vault's address is
/// the owner's derived vault address — whose bump is kept for signing.
pub open spec fn spec_vault_withdraw_validate(owner: AccountHandle, vault: AccountHandle) -> Result<
    u8,
    LedgerError,
> {
    if !owner.is_signer {
        Err(LedgerError::NotSigner)
    } else if !(vault.owner@ =~= SYSTEM_PROGRAM_ID@) {
        Err(LedgerError::InvalidOwner)
    } else if vault.lamports == 0 {
        Err(LedgerError::InvalidAccountData)
    } else {
        match spec_try_find_pda(spec_vault_pda_seeds(owner.address@), PROGRAM_ID@) {
            Option::Some(p) => {
                if p.0 =~= vault.address@ {
                    Ok(p.1)
                } else {
                    Err(LedgerError::InvalidAddress)
                }
            },
            Option::None => Err(LedgerError::InvalidAddress),
        }
    }
}

/// The ordered handle pair a vault withdrawal expects, with the found
/// bump cached for the derived signature.
pub struct WithdrawAccounts {
    pub owner: AccountHandle,
    pub vault: AccountHandle,
    pub bump: u8,
}

impl WithdrawAccounts {
    /// Destructures the handle list — the third expected handle, the
    /// system program, is read but unused — and runs the capability set.
    pub fn try_from(accounts: &Vec<AccountHandle>) -> (r: Result<WithdrawAccounts, LedgerError>)
        ensures
            accounts@.len() < 3 ==> r == Err::<WithdrawAccounts, LedgerError>(
                LedgerError::NotEnoughAccountKeys,
            ),
            accounts@.len() >= 3 && (spec_vault_withdraw_validate(accounts@[0], accounts@[1])
                is Err) ==> r == Err::<WithdrawAccounts, LedgerError>(
                spec_vault_withdraw_validate(accounts@[0], accounts@[1])->Err_0,
            ),
            accounts@.len() >= 3 && (spec_vault_withdraw_validate(accounts@[0], accounts@[1])
                is Ok) ==> r is Ok && spec_handle_eq(r.unwrap().owner, accounts@[0])
                && spec_handle_eq(r.unwrap().vault, accounts@[1]) && r.unwrap().bump
                == spec_vault_withdraw_validate(accounts@[0], accounts@[1])->Ok_0,
    {
        if accounts.len() < 3 {
            return Err(LedgerError::NotEnoughAccountKeys);
        }
        let owner = accounts[0].clone();
        let vault = accounts[1].clone();
        if !owner.is_signer {
            return Err(LedgerError::NotSigner);
        }
        if !vault.owned_by(&SYSTEM_PROGRAM_ID) {
            return Err(LedgerError::InvalidOwner);
        }
        if vault.lamports == 0 {
            return Err(LedgerError::InvalidAccountData);
        }
        let seeds = vault_pda_seeds(&owner.address);
        match try_find_pda(&seeds, &PROGRAM_ID) {
            Option::None => { return Err(LedgerError::InvalidAddress) },
            Option::Some(p) => {
                if !vault.has_address(&p.0) {
                    return Err(LedgerError::InvalidAddress);
                }
                Ok(WithdrawAccounts { owner, vault, bump: p.1 })
            },
        }
    }
}

/// A vault-withdrawal instruction: the validated handles.
pub struct Withdraw {
    pub accounts: WithdrawAccounts,
}

impl Withdraw {
    /// The payload byte that routes to this instruction.
    pub const DISCRIMINATOR: u8 = 1;

    /// Validates the handle list.
    pub fn try_from(accounts: &Vec<AccountHandle>) -> (r: Result<Withdraw, LedgerError>)
        ensures
            accounts@.len() < 3 ==> r == Err::<Withdraw, LedgerError>(
                LedgerError::NotEnoughAccountKeys,
            ),
            accounts@.len() >= 3 && (spec_vault_withdraw_validate(accounts@[0], accounts@[1])
                is Err) ==> r == Err::<Withdraw, LedgerError>(
                spec_vault_withdraw_validate(accounts@[0], accounts@[1])->Err_0,
            ),
            accounts@.len() >= 3 && (spec_vault_withdraw_validate(accounts@[0], accounts@[1])
                is Ok) ==> r is Ok && spec_handle_eq(r.unwrap().accounts.owner, accounts@[0])
                && spec_handle_eq(r.unwrap().accounts.vault, accounts@[1])
                && r.unwrap().accounts.bump == spec_vault_withdraw_validate(
                accounts@[0],
                accounts@[1],
            )->Ok_0,
    {
        let accounts = match WithdrawAccounts::try_from(accounts) {
            Ok(a) => a,
            Err(e) => { return Err(e) },
        };
        Ok(Withdraw { accounts })
    }

    /// Sweeps the vault's whole balance back to the owner under the
    /// derived signer.
    pub fn process(&mut self) -> (r: Result<(), LedgerError>)
        requires
            old(self).accounts.owner.lamports + old(self).accounts.vault.lamports <= u64::MAX,
        ensures
            r is Ok,
            spec_same_but_lamports(old(self).accounts.owner, final(self).accounts.owner),
            final(self).accounts.owner.lamports == old(self).accounts.owner.lamports + old(
                self,
            ).accounts.vault.lamports,
            spec_same_but_lamports(old(self).accounts.vault, final(self).accounts.vault),
            final(self).accounts.vault.lamports == 0,
            final(self).accounts.bump == old(self).accounts.bump,
    {
        let amount = self.accounts.vault.lamports;
        match lamport_transfer(&mut self.accounts.vault, &mut self.accounts.owner, amount) {
            Ok(_) => Ok(()),
            Err(e) => Err(e),
        }
    }
}

/// Errors of the single-asset native-balance vault with the rent-minimum
/// rule.
#[derive(Clone, Copy, Debug, PartialEq, Eq, Structural)]
pub enum VaultError {
    /// The vault already holds a balance: one deposit cycle at a time.
    VaultAlreadyExists,
    /// The amount does not clear the rent minimum, or there is nothing to
    /// withdraw.
    InvalidAmount,
}

/// A deposit under the rent-minimum rule: the vault must be empty — one
/// deposit cycle at a time — and the amount must exceed the rent-exempt
/// minimum for an empty account, so that the vault persists.  A signer who
/// cannot cover the amount is refused the same way the funding transfer
/// would refuse it — the amount is invalid for that signer — and nothing
/// moves.
pub fn deposit(signer: &mut AccountHandle, vault: &mut AccountHandle, amount: u64, rent_min: u64) -> (r:
    Result<(), VaultError>)
    requires
        old(vault).lamports + amount <= u64::MAX,
    ensures
        r is Ok <==> old(vault).lamports == 0 && amount > rent_min && old(signer).lamports
            >= amount,
        old(vault).lamports != 0 ==> r == Err::<(), VaultError>(VaultError::VaultAlreadyExists),
        old(vault).lamports == 0 && !(amount > rent_min && old(signer).lamports >= amount) ==> r
            == Err::<(), VaultError>(VaultError::InvalidAmount),
        r is Err ==> *final(signer) == *old(signer) && *final(vault) == *old(vault),
        r is Ok ==> spec_same_but_lamports(*old(signer), *final(signer)) && final(signer).lamports
            == old(signer).lamports - amount,
        r is Ok ==> spec_same_but_lamports(*old(vault), *final(vault)) && final(vault).lamports
            == old(vault).lamports + amount,
{
    if vault.lamports != 0 {
        return Err(VaultError::VaultAlreadyExists);
    }
    if amount <= rent_min {
        return Err(VaultError::InvalidAmount);
    }
    if signer.lamports < amount {
        return Err(VaultError::InvalidAmount);
    }
    signer.lamports = signer.lamports - amount;
    vault.lamports = vault.lamports + amount;
    Ok(())
}

/// A withdrawal under the rent-minimum rule: the vault must hold
/// something; its whole balance returns to the signer under the derived
/// signer.
pub fn withdraw(signer: &mut AccountHandle, vault: &mut AccountHandle) -> (r: Result<
    (),
    VaultError,
>)
    requires
        old(signer).lamports + old(vault).lamports <= u64::MAX,
    ensures
        r is Ok <==> old(vault).lamports != 0,
        r is Err ==> r == Err::<(), VaultError>(VaultError::InvalidAmount) && *final(signer)
            == *old(signer) && *final(vault) == *old(vault),
        r is Ok ==> spec_same_but_lamports(*old(signer), *final(signer)) && final(signer).lamports
            == old(signer).lamports + old(vault).lamports,
        r is Ok ==> spec_same_but_lamports(*old(vault), *final(vault)) && final(vault).lamports
            == 0,
{
    if vault.lamports == 0 {
        return Err(VaultError::InvalidAmount);
    }
    let amount = vault.lamports;
    vault.lamports = 0;
    signer.lamports = signer.lamports + amount;
    Ok(())
}

} // verus!
