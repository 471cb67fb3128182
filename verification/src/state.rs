use vstd::prelude::*;

use crate::account::AccountHandle;
use crate::addr::{addr_from_slice, push_addr, Address};
use crate::errors::LedgerError;

verus! {

/// Lifecycle states of an exchange pool.
#[derive(Clone, Copy, Debug, PartialEq, Eq, Structural)]
pub enum AmmState {
    Uninitialized,
    Initialized,
    Disabled,
    WithdrawOnly,
}

impl AmmState {
    /// The byte under which the state is stored.
    pub open spec fn spec_as_u8(self) -> u8 {
        match self {
            AmmState::Uninitialized => 0,
            AmmState::Initialized => 1,
            AmmState::Disabled => 2,
            AmmState::WithdrawOnly => 3,
        }
    }

    /// The byte under which the state is stored.
    pub fn as_u8(&self) -> (r: u8)
        ensures
            r == self.spec_as_u8(),
    {
        match self {
            AmmState::Uninitialized => 0,
            AmmState::Initialized => 1,
            AmmState::Disabled => 2,
            AmmState::WithdrawOnly => 3,
        }
    }
}

/// Byte length of a stored pool configuration record.
pub const CONFIG_LEN: usize = 108;

/// Persistent state of one exchange pool.  The field order and widths give
/// the stored record's layout and are load-bearing.
#[derive(Clone, Copy)]
pub struct Config {
    /// One of the `AmmState` bytes.
    pub state: u8,
    /// Disambiguates multiple pools over the same asset pair.
    pub seed: u64,
    /// Optional owner; all zeroes means no owner.
    pub authority: Address,
    /// First traded asset.
    pub mint_x: Address,
    /// Second traded asset.
    pub mint_y: Address,
    /// Fee in basis points; always below 10 000.
    pub fee: u16,
    /// Cached disambiguation byte of the pool's derived address.
    pub config_bump: u8,
}

/// The lifecycle byte of a stored pool configuration record.
pub open spec fn spec_config_state(s: Seq<u8>) -> u8
    recommends
        s.len() == CONFIG_LEN,
{
    s[0]
}

/// The fee of a stored pool configuration record.
pub open spec fn spec_config_fee(s: Seq<u8>) -> u16
    recommends
        s.len() == CONFIG_LEN,
{
    vstd::bytes::spec_u16_from_le_bytes(s.subrange(105, 107))
}

/// The fixed little-endian layout in which a `Config` is stored.
pub open spec fn spec_config_matches_bytes(c: Config, s: Seq<u8>) -> bool {
    &&& s.len() == CONFIG_LEN
    &&& s[0] == c.state
    &&& s.subrange(1, 9) =~= vstd::bytes::spec_u64_to_le_bytes(c.seed)
    &&& s.subrange(9, 41) =~= c.authority@
    &&& s.subrange(41, 73) =~= c.mint_x@
    &&& s.subrange(73, 105) =~= c.mint_y@
    &&& s.subrange(105, 107) =~= vstd::bytes::spec_u16_to_le_bytes(c.fee)
    &&& s[107] == c.config_bump
}

impl Config {
    /// The record serialized in its stored layout.
    pub fn to_bytes(&self) -> (r: Vec<u8>)
        ensures
            spec_config_matches_bytes(*self, r@),
    {
        let mut r: Vec<u8> = Vec::new();
        r.push(self.state);
        let mut seed_b = vstd::bytes::u64_to_le_bytes(self.seed);
        r.append(&mut seed_b);
        push_addr(&mut r, &self.authority);
        push_addr(&mut r, &self.mint_x);
        push_addr(&mut r, &self.mint_y);
        let mut fee_b = vstd::bytes::u16_to_le_bytes(self.fee);
        r.append(&mut fee_b);
        r.push(self.config_bump);
        proof {
            assert(r@.subrange(1, 9) =~= vstd::bytes::spec_u64_to_le_bytes(self.seed));
            assert(r@.subrange(9, 41) =~= self.authority@);
            assert(r@.subrange(41, 73) =~= self.mint_x@);
            assert(r@.subrange(73, 105) =~= self.mint_y@);
            assert(r@.subrange(105, 107) =~= vstd::bytes::spec_u16_to_le_bytes(self.fee));
        }
        r
    }

    /// Parses a stored record.  Anything but exactly `CONFIG_LEN` bytes
    /// fails `InvalidAccountData`.
    pub fn from_bytes(s: &[u8]) -> (r: Result<Config, LedgerError>)
        ensures
            r is Ok <==> s@.len() == CONFIG_LEN,
            r is Err ==> r == Err::<Config, LedgerError>(LedgerError::InvalidAccountData),
            r is Ok ==> spec_config_matches_bytes(r.unwrap(), s@),
    {
        if s.len() != CONFIG_LEN {
            return Err(LedgerError::InvalidAccountData);
        }
        let state = *vstd::slice::slice_index_get(s, 0);
        let seed = vstd::bytes::u64_from_le_bytes(vstd::slice::slice_subrange(s, 1, 9));
        let authority = addr_from_slice(s, 9);
        let mint_x = addr_from_slice(s, 41);
        let mint_y = addr_from_slice(s, 73);
        let fee = vstd::bytes::u16_from_le_bytes(vstd::slice::slice_subrange(s, 105, 107));
        let config_bump = *vstd::slice::slice_index_get(s, 107);
        let c = Config { state, seed, authority, mint_x, mint_y, fee, config_bump };
        proof {
            vstd::bytes::lemma_auto_spec_u64_to_from_le_bytes();
            vstd::bytes::lemma_auto_spec_u16_to_from_le_bytes();
            assert(s@.subrange(1, 9) =~= vstd::bytes::spec_u64_to_le_bytes(c.seed));
            assert(s@.subrange(105, 107) =~= vstd::bytes::spec_u16_to_le_bytes(c.fee));
        }
        Ok(c)
    }

    /// Loads the pool configuration out of a handle: the owner and length
    /// validation of the typed state loader, then the parse.
    pub fn load(acct: &AccountHandle, program_id: &Address) -> (r: Result<Config, LedgerError>)
        ensures
            r is Ok <==> acct.data@.len() == CONFIG_LEN && acct.owner@ =~= program_id@,
            acct.data@.len() != CONFIG_LEN ==> r == Err::<Config, LedgerError>(
                LedgerError::InvalidAccountData,
            ),
            acct.data@.len() == CONFIG_LEN && !(acct.owner@ =~= program_id@) ==> r == Err::<
                Config,
                LedgerError,
            >(LedgerError::InvalidOwner),
            r is Ok ==> spec_config_matches_bytes(r.unwrap(), acct.data@),
    {
        if acct.data.len() != CONFIG_LEN {
            return Err(LedgerError::InvalidAccountData);
        }
        if !acct.owned_by(program_id) {
            return Err(LedgerError::InvalidOwner);
        }
        Config::from_bytes(acct.data.as_slice())
    }

    /// Writes the record back into a handle, under the same owner and
    /// length validation as a mutable load.
    pub fn store(&self, acct: &mut AccountHandle, program_id: &Address) -> (r: Result<
        (),
        LedgerError,
    >)
        ensures
            r is Ok <==> old(acct).data@.len() == CONFIG_LEN && old(acct).owner@ =~= program_id@,
            old(acct).data@.len() != CONFIG_LEN ==> r == Err::<(), LedgerError>(
                LedgerError::InvalidAccountData,
            ),
            old(acct).data@.len() == CONFIG_LEN && !(old(acct).owner@ =~= program_id@) ==> r
                == Err::<(), LedgerError>(LedgerError::InvalidOwner),
            r is Err ==> *final(acct) == *old(acct),
            r is Ok ==> spec_config_matches_bytes(*self, final(acct).data@),
            final(acct).address == old(acct).address,
            final(acct).owner == old(acct).owner,
            final(acct).lamports == old(acct).lamports,
            final(acct).is_signer == old(acct).is_signer,
    {
        if acct.data.len() != CONFIG_LEN {
            return Err(LedgerError::InvalidAccountData);
        }
        if !acct.owned_by(program_id) {
            return Err(LedgerError::InvalidOwner);
        }
        acct.data = self.to_bytes();
        Ok(())
    }

    /// The stored lifecycle byte.
    pub fn state(&self) -> (r: u8)
        ensures
            r == self.state,
    {
        self.state
    }

    /// The stored seed disambiguator.
    pub fn seed(&self) -> (r: u64)
        ensures
            r == self.seed,
    {
        self.seed
    }

    /// The stored owner address.
    pub fn authority(&self) -> (r: &Address)
        ensures
            r == self.authority,
    {
        &self.authority
    }

    /// The first traded asset.
    pub fn mint_x(&self) -> (r: &Address)
        ensures
            r == self.mint_x,
    {
        &self.mint_x
    }

    /// The second traded asset.
    pub fn mint_y(&self) -> (r: &Address)
        ensures
            r == self.mint_y,
    {
        &self.mint_y
    }

    /// The stored fee, in basis points.
    pub fn fee(&self) -> (r: u16)
        ensures
            r == self.fee,
    {
        self.fee
    }

    /// The cached bump byte of the pool's derived address.
    pub fn config_bump(&self) -> (r: u8)
        ensures
            r == self.config_bump,
    {
        self.config_bump
    }

    /// Advances the lifecycle state.  Exactly the lifecycle's own targets
    /// are admitted — `Initialized`, `Disabled` or `WithdrawOnly` — so the
    /// stored byte never reverts to `Uninitialized` and never leaves the
    /// lifecycle's range.
    pub fn set_state(&mut self, state: u8) -> (r: Result<(), LedgerError>)
        ensures
            r is Ok <==> AmmState::Initialized.spec_as_u8() <= state
                <= AmmState::WithdrawOnly.spec_as_u8(),
            r is Err ==> r == Err::<(), LedgerError>(LedgerError::InvalidAccountData) && *final(self) == *old(self),
            r is Ok ==> *final(self) == (Config { state, ..*old(self) }),
    {
        if state < 1 || state > 3 {
            return Err(LedgerError::InvalidAccountData);
        }
        self.state = state;
        Ok(())
    }

    /// Sets the fee.  A fee of 10 000 basis points or more is refused, so a
    /// stored record always carries `fee < 10_000`.
    pub fn set_fee(&mut self, fee: u16) -> (r: Result<(), LedgerError>)
        ensures
            r is Ok <==> fee < 10000,
            r is Err ==> r == Err::<(), LedgerError>(LedgerError::InvalidAccountData) && *final(self) == *old(self),
            r is Ok ==> *final(self) == (Config { fee, ..*old(self) }),
    {
        if fee >= 10000 {
            return Err(LedgerError::InvalidAccountData);
        }
        self.fee = fee;
        Ok(())
    }

    pub fn set_seed(&mut self, seed: u64)
        ensures
            *final(self) == (Config { seed, ..*old(self) }),
    {
        self.seed = seed;
    }

    pub fn set_authority(&mut self, authority: Address)
        ensures
            *final(self) == (Config { authority, ..*old(self) }),
    {
        self.authority = authority;
    }

    pub fn set_mint_x(&mut self, mint_x: Address)
        ensures
            *final(self) == (Config { mint_x, ..*old(self) }),
    {
        self.mint_x = mint_x;
    }

    pub fn set_mint_y(&mut self, mint_y: Address)
        ensures
            *final(self) == (Config { mint_y, ..*old(self) }),
    {
        self.mint_y = mint_y;
    }

    pub fn set_config_bump(&mut self, config_bump: u8)
        ensures
            *final(self) == (Config { config_bump, ..*old(self) }),
    {
        self.config_bump = config_bump;
    }

    /// Fills a fresh record: marks it `Initialized` and stores the pool's
    /// parameters.  A fee of 10 000 or more fails and leaves the record as
    /// it was.
    pub fn set_inner(
        &mut self,
        seed: u64,
        authority: Address,
        mint_x: Address,
        mint_y: Address,
        fee: u16,
        config_bump: u8,
    ) -> (r: Result<(), LedgerError>)
        ensures
            r is Ok <==> fee < 10000,
            r is Err ==> r == Err::<(), LedgerError>(LedgerError::InvalidAccountData) && *final(self) == *old(self),
            r is Ok ==> *final(self) == (Config {
                state: AmmState::Initialized.spec_as_u8(),
                seed,
                authority,
                mint_x,
                mint_y,
                fee,
                config_bump,
            }),
    {
        if fee >= 10000 {
            return Err(LedgerError::InvalidAccountData);
        }
        let mut next = *self;
        match next.set_state(1) {
            Ok(_) => (),
            Err(e) => { return Err(e) },
        }
        next.set_seed(seed);
        next.set_authority(authority);
        next.set_mint_x(mint_x);
        next.set_mint_y(mint_y);
        match next.set_fee(fee) {
            Ok(_) => (),
            Err(e) => { return Err(e) },
        }
        next.set_config_bump(config_bump);
        *self = next;
        Ok(())
    }

    /// The stored owner, or `None` when the record holds the all-zero
    /// address, which stands for "no owner".
    pub fn has_authority(&self) -> (r: Option<Address>)
        ensures
            (r is Some) <==> !(self.authority@ =~= crate::addr::SYSTEM_PROGRAM_ID@),
            r is Some ==> r.unwrap() == self.authority,
    {
        if crate::addr::addr_eq(&self.authority, &crate::addr::SYSTEM_PROGRAM_ID) {
            None
        } else {
            Some(self.authority)
        }
    }
}

/// Byte length of a stored escrow record.
pub const ESCROW_LEN: usize = 113;

/// Persistent state of one escrow.  The field order and widths give the
/// stored record's layout and are load-bearing.
#[derive(Clone, Copy)]
pub struct Escrow {
    /// Disambiguates multiple escrows by the same maker.
    pub seed: u64,
    /// The wallet that opened the escrow.
    pub maker: Address,
    /// The offered asset, held in the vault.
    pub mint_a: Address,
    /// The requested asset.
    pub mint_b: Address,
    /// How much of `mint_b` the maker asks for.
    pub receive: u64,
    /// Cached disambiguation byte of the escrow's derived address.
    pub bump: u8,
}

/// The seed disambiguator of a stored escrow record.
pub open spec fn spec_escrow_seed(s: Seq<u8>) -> u64
    recommends
        s.len() == ESCROW_LEN,
{
    vstd::bytes::spec_u64_from_le_bytes(s.subrange(0, 8))
}

/// The maker a stored escrow record names.
pub open spec fn spec_escrow_maker(s: Seq<u8>) -> Seq<u8>
    recommends
        s.len() == ESCROW_LEN,
{
    s.subrange(8, 40)
}

/// The offered asset a stored escrow record names.
pub open spec fn spec_escrow_mint_a(s: Seq<u8>) -> Seq<u8>
    recommends
        s.len() == ESCROW_LEN,
{
    s.subrange(40, 72)
}

/// The requested asset a stored escrow record names.
pub open spec fn spec_escrow_mint_b(s: Seq<u8>) -> Seq<u8>
    recommends
        s.len() == ESCROW_LEN,
{
    s.subrange(72, 104)
}

/// The requested amount a stored escrow record carries.
pub open spec fn spec_escrow_receive(s: Seq<u8>) -> u64
    recommends
        s.len() == ESCROW_LEN,
{
    vstd::bytes::spec_u64_from_le_bytes(s.subrange(104, 112))
}

/// The cached bump byte a stored escrow record carries.
pub open spec fn spec_escrow_bump(s: Seq<u8>) -> u8
    recommends
        s.len() == ESCROW_LEN,
{
    s[112]
}

/// The fixed little-endian layout in which an `Escrow` is stored.
pub open spec fn spec_escrow_matches_bytes(e: Escrow, s: Seq<u8>) -> bool {
    &&& s.len() == ESCROW_LEN
    &&& s.subrange(0, 8) =~= vstd::bytes::spec_u64_to_le_bytes(e.seed)
    &&& s.subrange(8, 40) =~= e.maker@
    &&& s.subrange(40, 72) =~= e.mint_a@
    &&& s.subrange(72, 104) =~= e.mint_b@
    &&& s.subrange(104, 112) =~= vstd::bytes::spec_u64_to_le_bytes(e.receive)
    &&& s[112] == e.bump
}

impl Escrow {
    /// The record serialized in its stored layout.
    pub fn to_bytes(&self) -> (r: Vec<u8>)
        ensures
            spec_escrow_matches_bytes(*self, r@),
    {
        let mut r: Vec<u8> = Vec::new();
        let mut seed_b = vstd::bytes::u64_to_le_bytes(self.seed);
        r.append(&mut seed_b);
        push_addr(&mut r, &self.maker);
        push_addr(&mut r, &self.mint_a);
        push_addr(&mut r, &self.mint_b);
        let mut receive_b = vstd::bytes::u64_to_le_bytes(self.receive);
        r.append(&mut receive_b);
        r.push(self.bump);
        proof {
            assert(r@.subrange(0, 8) =~= vstd::bytes::spec_u64_to_le_bytes(self.seed));
            assert(r@.subrange(8, 40) =~= self.maker@);
            assert(r@.subrange(40, 72) =~= self.mint_a@);
            assert(r@.subrange(72, 104) =~= self.mint_b@);
            assert(r@.subrange(104, 112) =~= vstd::bytes::spec_u64_to_le_bytes(self.receive));
        }
        r
    }

    /// Parses a stored record.  Anything but exactly `ESCROW_LEN` bytes
    /// fails `InvalidAccountData`.
    pub fn from_bytes(s: &[u8]) -> (r: Result<Escrow, LedgerError>)
        ensures
            r is Ok <==> s@.len() == ESCROW_LEN,
            r is Err ==> r == Err::<Escrow, LedgerError>(LedgerError::InvalidAccountData),
            r is Ok ==> spec_escrow_matches_bytes(r.unwrap(), s@),
    {
        if s.len() != ESCROW_LEN {
            return Err(LedgerError::InvalidAccountData);
        }
        let seed = vstd::bytes::u64_from_le_bytes(vstd::slice::slice_subrange(s, 0, 8));
        let maker = addr_from_slice(s, 8);
        let mint_a = addr_from_slice(s, 40);
        let mint_b = addr_from_slice(s, 72);
        let receive = vstd::bytes::u64_from_le_bytes(vstd::slice::slice_subrange(s, 104, 112));
        let bump = *vstd::slice::slice_index_get(s, 112);
        let e = Escrow { seed, maker, mint_a, mint_b, receive, bump };
        proof {
            vstd::bytes::lemma_auto_spec_u64_to_from_le_bytes();
            assert(s@.subrange(0, 8) =~= vstd::bytes::spec_u64_to_le_bytes(e.seed));
            assert(s@.subrange(104, 112) =~= vstd::bytes::spec_u64_to_le_bytes(e.receive));
        }
        Ok(e)
    }

    /// Loads the escrow record out of a handle: the owner and length
    /// validation of the typed state loader, then the parse.
    pub fn load(acct: &AccountHandle, program_id: &Address) -> (r: Result<Escrow, LedgerError>)
        ensures
            r is Ok <==> acct.data@.len() == ESCROW_LEN && acct.owner@ =~= program_id@,
            acct.data@.len() != ESCROW_LEN ==> r == Err::<Escrow, LedgerError>(
                LedgerError::InvalidAccountData,
            ),
            acct.data@.len() == ESCROW_LEN && !(acct.owner@ =~= program_id@) ==> r == Err::<
                Escrow,
                LedgerError,
            >(LedgerError::InvalidOwner),
            r is Ok ==> spec_escrow_matches_bytes(r.unwrap(), acct.data@),
    {
        if acct.data.len() != ESCROW_LEN {
            return Err(LedgerError::InvalidAccountData);
        }
        if !acct.owned_by(program_id) {
            return Err(LedgerError::InvalidOwner);
        }
        Escrow::from_bytes(acct.data.as_slice())
    }

    /// Writes the record back into a handle, under the same owner and
    /// length validation as a mutable load.
    pub fn store(&self, acct: &mut AccountHandle, program_id: &Address) -> (r: Result<
        (),
        LedgerError,
    >)
        ensures
            r is Ok <==> old(acct).data@.len() == ESCROW_LEN && old(acct).owner@ =~= program_id@,
            old(acct).data@.len() != ESCROW_LEN ==> r == Err::<(), LedgerError>(
                LedgerError::InvalidAccountData,
            ),
            old(acct).data@.len() == ESCROW_LEN && !(old(acct).owner@ =~= program_id@) ==> r
                == Err::<(), LedgerError>(LedgerError::InvalidOwner),
            r is Err ==> *final(acct) == *old(acct),
            r is Ok ==> spec_escrow_matches_bytes(*self, final(acct).data@),
            final(acct).address == old(acct).address,
            final(acct).owner == old(acct).owner,
            final(acct).lamports == old(acct).lamports,
            final(acct).is_signer == old(acct).is_signer,
    {
        if acct.data.len() != ESCROW_LEN {
            return Err(LedgerError::InvalidAccountData);
        }
        if !acct.owned_by(program_id) {
            return Err(LedgerError::InvalidOwner);
        }
        acct.data = self.to_bytes();
        Ok(())
    }
}

} // verus!
