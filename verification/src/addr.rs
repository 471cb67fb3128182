use vstd::prelude::*;

verus! {

/// A ledger address: a 32-byte public key or program identity.
pub type Address = [u8; 32];

/// The system program owns every account that no other program has claimed.
pub const SYSTEM_PROGRAM_ID: Address = [
    0, 0, 0, 0, 0, 0, 0, 0, 0, 0, 0, 0, 0, 0, 0, 0, 0, 0, 0, 0, 0, 0, 0, 0, 0, 0, 0, 0, 0, 0, 0,
    0,
];

/// Identity of the legacy token-ledger program.
pub const TOKEN_PROGRAM_ID: Address = [
    0x06, 0xdd, 0xf6, 0xe1, 0xd7, 0x65, 0xa1, 0x93, 0xd9, 0xcb, 0xe1, 0x46, 0xce, 0xeb, 0x79,
    0xac, 0x1c, 0xb4, 0x85, 0xed, 0x5f, 0x5b, 0x37, 0x91, 0x3a, 0x8c, 0xf5, 0x85, 0x7e, 0xff,
    0x00, 0xa9,
];

/// Identity of the extended token-ledger program.
pub const TOKEN_2022_PROGRAM_ID: Address = [
    0x06, 0xdd, 0xf6, 0xe1, 0xee, 0x75, 0x8f, 0xde, 0x18, 0x42, 0x5d, 0xbc, 0xe4, 0x6c, 0xcd,
    0xda, 0xb6, 0x1a, 0xfc, 0x4d, 0x83, 0xb9, 0x0d, 0x27, 0xfe, 0xbd, 0xf9, 0x28, 0xd8, 0xa1,
    0x8b, 0xfc,
];

/// Identity of the associated-token-account program.
pub const ASSOCIATED_TOKEN_PROGRAM_ID: Address = [
    0x8c, 0x97, 0x25, 0x8f, 0x4e, 0x24, 0x89, 0xf1, 0xbb, 0x3d, 0x10, 0x29, 0x14, 0x8e, 0x0d,
    0x83, 0x0b, 0x5a, 0x13, 0x99, 0xda, 0xff, 0x10, 0x84, 0x04, 0x8e, 0x7b, 0xd8, 0xdb, 0xe9,
    0xf8, 0x59,
];

/// Identity under which the escrow, vault and exchange programs here deploy.
pub const PROGRAM_ID: Address = [
    0x0f, 0x1e, 0x6b, 0x14, 0x21, 0xc0, 0x4a, 0x07, 0x04, 0x31, 0x26, 0x5c, 0x19, 0xc5, 0xbb,
    0xee, 0x19, 0x92, 0xba, 0xe8, 0xaf, 0xd1, 0xcd, 0x07, 0x8e, 0xf8, 0xaf, 0x70, 0x47, 0xdc,
    0x11, 0xf7,
];

/// Byte-for-byte equality of two addresses.
pub fn addr_eq(a: &Address, b: &Address) -> (r: bool)
    ensures
        r <==> a@ =~= b@,
{
    let mut i: usize = 0;
    while i < 32
        invariant
            i <= 32,
            forall|j: int| 0 <= j < i ==> a@[j] == b@[j],
        decreases 32 - i,
    {
        if a[i] != b[i] {
            assert(a@[i as int] != b@[i as int]);
            return false;
        }
        i += 1;
    }
    assert(a@ =~= b@);
    true
}

/// Copies an address out of a byte slice.
pub fn addr_from_slice(s: &[u8], start: usize) -> (r: Address)
    requires
        start + 32 <= s@.len(),
    ensures
        r@ =~= s@.subrange(start as int, start + 32),
{
    let n = s.len();
    let mut r: Address = [0; 32];
    let mut i: usize = 0;
    while i < 32
        invariant
            i <= 32,
            start + 32 <= n,
            n == s@.len(),
            r@.len() == 32,
            forall|j: int| 0 <= j < i ==> r@[j] == s@[start + j],
        decreases 32 - i,
    {
        r[i] = s[start + i];
        i += 1;
    }
    r
}

/// Appends an address to a byte vector.
pub fn push_addr(out: &mut Vec<u8>, a: &Address)
    ensures
        final(out)@ =~= old(out)@ + a@,
{
    let mut i: usize = 0;
    while i < 32
        invariant
            i <= 32,
            out@ =~= old(out)@ + a@.subrange(0, i as int),
        decreases 32 - i,
    {
        out.push(a[i]);
        assert(out@ =~= old(out)@ + a@.subrange(0, i + 1));
        i += 1;
    }
    assert(a@.subrange(0, 32) =~= a@);
}

/// An address as an owned byte vector, as seed material for derivations.
pub fn addr_to_vec(a: &Address) -> (r: Vec<u8>)
    ensures
        r@ =~= a@,
{
    let mut r: Vec<u8> = Vec::new();
    push_addr(&mut r, a);
    r
}

} // verus!
