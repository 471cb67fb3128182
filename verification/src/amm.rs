use vstd::prelude::*;

use crate::amm_deposit::DepositInstructionData;
use crate::amm_initialize::InitializeInstructionData;
use crate::amm_swap::SwapInstructionData;
use crate::amm_withdraw::WithdrawInstructionData;
use crate::errors::LedgerError;

verus! {

/// One parsed exchange instruction.
pub enum AmmInstruction {
    Initialize(InitializeInstructionData),
    Deposit(DepositInstructionData),
    Withdraw(WithdrawInstructionData),
    Swap(SwapInstructionData),
}

/// Whether an exchange payload routes: a leading discriminator byte
/// selecting an instruction, followed by that instruction's well-formed
/// body.
pub open spec fn spec_amm_payload_routes(d: Seq<u8>) -> bool {
    &&& d.len() >= 1
    &&& {
        ||| (d[0] == 0 && (d.len() == 109 || d.len() == 77))
        ||| (d[0] == 1 && d.len() >= 33)
        ||| (d[0] == 2 && d.len() >= 33)
        ||| (d[0] == 3 && d.len() >= 26)
    }
}

/// Routes an exchange payload by its leading discriminator byte: 0
/// initializes a pool, 1 deposits, 2 withdraws, 3 swaps; an empty
/// payload, an unknown discriminator, or a malformed body fail
/// `InvalidInstructionData`.
pub fn parse_amm_instruction(data: &[u8]) -> (r: Result<AmmInstruction, LedgerError>)
    ensures
        r is Ok <==> spec_amm_payload_routes(data@),
        r is Err ==> r == Err::<AmmInstruction, LedgerError>(LedgerError::InvalidInstructionData),
        r is Ok && data@[0] == 0 ==> r.unwrap() is Initialize,
        r is Ok && data@[0] == 1 ==> r.unwrap() is Deposit,
        r is Ok && data@[0] == 2 ==> r.unwrap() is Withdraw,
        r is Ok && data@[0] == 3 ==> r.unwrap() is Swap,
{
    if data.len() < 1 {
        return Err(LedgerError::InvalidInstructionData);
    }
    let disc = *vstd::slice::slice_index_get(data, 0);
    let rest = vstd::slice::slice_subrange(data, 1, data.len());
    if disc == 0 {
        match InitializeInstructionData::try_from(rest) {
            Ok(d) => Ok(AmmInstruction::Initialize(d)),
            Err(e) => Err(e),
        }
    } else if disc == 1 {
        match DepositInstructionData::try_from(rest) {
            Ok(d) => Ok(AmmInstruction::Deposit(d)),
            Err(e) => Err(e),
        }
    } else if disc == 2 {
        match WithdrawInstructionData::try_from(rest) {
            Ok(d) => Ok(AmmInstruction::Withdraw(d)),
            Err(e) => Err(e),
        }
    } else if disc == 3 {
        match SwapInstructionData::try_from(rest) {
            Ok(d) => Ok(AmmInstruction::Swap(d)),
            Err(e) => Err(e),
        }
    } else {
        Err(LedgerError::InvalidInstructionData)
    }
}

} // verus!
