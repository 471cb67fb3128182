use vstd::prelude::*;

verus! {

/// Error taxonomy shared by every instruction of the ledger programs.
///
/// Every failure is detected synchronously and aborts the whole instruction:
/// a function that returns one of these errors leaves all of its `&mut`
/// arguments unchanged.
#[derive(Clone, Copy, Debug, PartialEq, Eq, Structural)]
pub enum LedgerError {
    /// The handle was not cosigned by the transaction submitter.
    NotSigner,
    /// The handle's owning program is not the expected one.
    InvalidOwner,
    /// A derived address did not match the handle's own address.
    InvalidAddress,
    /// Wrong length, state or type tag in a handle's data.
    InvalidAccountData,
    /// The instruction was given fewer handles than it expects.
    NotEnoughAccountKeys,
    /// The instruction payload is malformed or too short.
    InvalidInstructionData,
    /// Expired, slippage violated, or the pool refuses the operation.
    InvalidArgument,
    /// An arithmetic step would overflow.
    ArithmeticOverflow,
}

} // verus!
