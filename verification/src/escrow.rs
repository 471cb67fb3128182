use vstd::prelude::*;

use crate::addr::Address;
use crate::errors::LedgerError;

verus! {

/// The fixed first seed of every escrow derivation: the bytes of
/// `"escrow"`.
pub open spec fn spec_escrow_tag() -> Seq<u8> {
    seq![101u8, 115u8, 99u8, 114u8, 111u8, 119u8]
}

/// The seed tuple of an escrow's derived address: the tag, the maker,
/// and the little-endian seed disambiguator.
pub open spec fn spec_escrow_pda_seeds(maker: Seq<u8>, seed: u64) -> Seq<Seq<u8>> {
    seq![spec_escrow_tag(), maker, vstd::bytes::spec_u64_to_le_bytes(seed)]
}

/// Builds the escrow seed tuple for a maker and seed disambiguator.
pub fn escrow_pda_seeds(maker: &Address, seed: u64) -> (r: Vec<Vec<u8>>)
    ensures
        r.deep_view() =~~= spec_escrow_pda_seeds(maker@, seed),
        forall|i: int|
            0 <= i < r.deep_view().len() ==> #[trigger] r.deep_view()[i].len()
                <= crate::pda::MAX_SEED_LEN,
{
    let mut tag: Vec<u8> = Vec::new();
    tag.push(101);
    tag.push(115);
    tag.push(99);
    tag.push(114);
    tag.push(111);
    tag.push(119);
    let mut r: Vec<Vec<u8>> = Vec::new();
    r.push(tag);
    r.push(crate::addr::addr_to_vec(maker));
    r.push(vstd::bytes::u64_to_le_bytes(seed));
    proof {
        assert(r.deep_view() =~~= spec_escrow_pda_seeds(maker@, seed));
        vstd::bytes::lemma_auto_spec_u64_to_from_le_bytes();
    }
    r
}

/// One parsed escrow instruction.
pub enum EscrowInstruction {
    Make(crate::escrow_make::MakeInstructionData),
    Take,
    Refund,
}

/// Routes an escrow payload by its leading discriminator byte: 0 opens an
/// escrow, 1 takes it, 2 refunds it; an empty payload, an unknown
/// discriminator, or a short body fail `InvalidInstructionData`.
pub fn parse_escrow_instruction(data: &[u8]) -> (r: Result<EscrowInstruction, LedgerError>)
    ensures
        r is Ok <==> (data@.len() >= 1 && (data@[0] == 0 && data@.len() >= 25 || data@[0] == 1
            || data@[0] == 2)),
        r is Err ==> r == Err::<EscrowInstruction, LedgerError>(
            LedgerError::InvalidInstructionData,
        ),
        r is Ok && data@[0] == 0 ==> (r.unwrap() matches EscrowInstruction::Make(d) && d.seed
            == vstd::bytes::spec_u64_from_le_bytes(data@.subrange(1, 9)) && d.receive
            == vstd::bytes::spec_u64_from_le_bytes(data@.subrange(9, 17)) && d.amount
            == vstd::bytes::spec_u64_from_le_bytes(data@.subrange(17, 25))),
        r is Ok && data@[0] == 1 ==> r.unwrap() is Take,
        r is Ok && data@[0] == 2 ==> r.unwrap() is Refund,
{
    if data.len() < 1 {
        return Err(LedgerError::InvalidInstructionData);
    }
    let disc = *vstd::slice::slice_index_get(data, 0);
    if disc == 0 {
        let rest = vstd::slice::slice_subrange(data, 1, data.len());
        let d = match crate::escrow_make::MakeInstructionData::try_from(rest) {
            Ok(d) => d,
            Err(e) => { return Err(e) },
        };
        proof {
            assert(rest@.subrange(0, 8) =~= data@.subrange(1, 9));
            assert(rest@.subrange(8, 16) =~= data@.subrange(9, 17));
            assert(rest@.subrange(16, 24) =~= data@.subrange(17, 25));
        }
        Ok(EscrowInstruction::Make(d))
    } else if disc == 1 {
        Ok(EscrowInstruction::Take)
    } else if disc == 2 {
        Ok(EscrowInstruction::Refund)
    } else {
        Err(LedgerError::InvalidInstructionData)
    }
}

} // verus!
