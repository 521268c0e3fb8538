//! The fundraiser's accounts: the fundraiser itself and one account per
//! contributor, each stored in account data with a fixed C layout.
use vstd::prelude::*;
use crate::error::ProgramError;
use crate::layout::{Pubkey, bool_byte, le_u64, le_i64, read_key, read_u64, read_i64, write_byte, write_key, write_u64, lemma_u64_written, lemma_i64_bits};

verus! {

/// A fundraiser: who raises, in which mint, how much, since when and for
/// how many days.
///
/// Layout (104 bytes): `is_initialized` at 0, `maker` at 1..33,
/// `mint_to_raise` at 33..65, `amount_to_raise` at 72..80,
/// `current_amount` at 80..88, `time_started` at 88..96, `duration` at 96,
/// `bump` at 97; the other bytes are padding.
#[derive(Clone, Copy, Debug, PartialEq, Eq)]
pub struct Fundraiser {
    pub is_initialized: bool,
    pub maker: Pubkey,
    pub mint_to_raise: Pubkey,
    pub amount_to_raise: u64,
    pub current_amount: u64,
    pub time_started: i64,
    pub duration: u8,
    pub bump: u8,
}

/// The per-contributor record of how much has been contributed.
///
/// Layout (16 bytes): `is_initialized` at 0, `amount` at 8..16.
#[derive(Clone, Copy, Debug, PartialEq, Eq, Structural)]
pub struct Contributor {
    pub is_initialized: bool,
    pub amount: u64,
}

impl Default for Fundraiser {
    /// An uninitialized fundraiser: every field zero.
    fn default() -> (r: Fundraiser)
        ensures
            !r.is_initialized,
            r.maker@ == Seq::new(32, |i: int| 0u8),
            r.mint_to_raise@ == Seq::new(32, |i: int| 0u8),
            r.amount_to_raise == 0,
            r.current_amount == 0,
            r.time_started == 0,
            r.duration == 0,
            r.bump == 0,
    {
        let maker: Pubkey = [0u8; 32];
        let mint_to_raise: Pubkey = [0u8; 32];
        assert(maker@ =~= Seq::new(32, |i: int| 0u8));
        assert(mint_to_raise@ =~= Seq::new(32, |i: int| 0u8));
        Fundraiser {
            is_initialized: false,
            maker,
            mint_to_raise,
            amount_to_raise: 0,
            current_amount: 0,
            time_started: 0,
            duration: 0,
            bump: 0,
        }
    }
}

impl Default for Contributor {
    /// An uninitialized record holding nothing.
    fn default() -> (r: Contributor)
        ensures
            r == (Contributor { is_initialized: false, amount: 0 }),
    {
        Contributor { is_initialized: false, amount: 0 }
    }
}

impl Fundraiser {
    /// Size of the account data.
    pub const LEN: usize = 104;

    /// The first seed of the fundraiser's program address.
    pub const SEED: &'static str = "fundraiser";

    /// `bytes` holds exactly this fundraiser in its layout.
    pub open spec fn stored_in(self, bytes: Seq<u8>) -> bool {
        &&& bytes.len() == Self::LEN
        &&& self.is_initialized == (bytes[0] != 0)
        &&& self.maker@ == bytes.subrange(1, 33)
        &&& self.mint_to_raise@ == bytes.subrange(33, 65)
        &&& self.amount_to_raise == le_u64(bytes, 72)
        &&& self.current_amount == le_u64(bytes, 80)
        &&& self.time_started == le_i64(bytes, 88)
        &&& self.duration == bytes[96]
        &&& self.bump == bytes[97]
    }

    /// Whether the account has been initialized.
    pub fn is_initialized(&self) -> (b: bool)
        ensures
            b == self.is_initialized,
    {
        self.is_initialized
    }

    /// Sets up a new fundraiser: initialized, with nothing raised yet.
    pub fn initialize(
        &mut self,
        maker: Pubkey,
        mint_to_raise: Pubkey,
        amount_to_raise: u64,
        duration: u8,
        bump: u8,
        time_started: i64,
    )
        ensures
            *final(self) == (Fundraiser {
                is_initialized: true,
                maker,
                mint_to_raise,
                amount_to_raise,
                current_amount: 0,
                time_started,
                duration,
                bump,
            }),
    {
        self.is_initialized = true;
        self.maker = maker;
        self.mint_to_raise = mint_to_raise;
        self.amount_to_raise = amount_to_raise;
        self.current_amount = 0;
        self.time_started = time_started;
        self.duration = duration;
        self.bump = bump;
    }

    /// Reads a fundraiser from account data of the right size, initialized
    /// or not.
    pub fn load_unchecked(data: &[u8]) -> (r: Result<Fundraiser, ProgramError>)
        ensures
            match r {
                Ok(f) => f.stored_in(data@),
                Err(e) => data@.len() != Self::LEN && e == ProgramError::InvalidAccountData,
            },
    {
        if data.len() != Self::LEN {
            return Err(ProgramError::InvalidAccountData);
        }
        Ok(Fundraiser {
            is_initialized: data[0] != 0,
            maker: read_key(data, 1),
            mint_to_raise: read_key(data, 33),
            amount_to_raise: read_u64(data, 72),
            current_amount: read_u64(data, 80),
            time_started: read_i64(data, 88),
            duration: data[96],
            bump: data[97],
        })
    }

    /// Reads an initialized fundraiser from account data.
    pub fn load(data: &[u8]) -> (r: Result<Fundraiser, ProgramError>)
        ensures
            match r {
                Ok(f) => f.stored_in(data@) && f.is_initialized,
                Err(e) => {
                    ||| (data@.len() != Self::LEN && e == ProgramError::InvalidAccountData)
                    ||| (data@.len() == Self::LEN && data@[0] == 0 && e
                        == ProgramError::UninitializedAccount)
                },
            },
    {
        let f = Self::load_unchecked(data)?;
        if !f.is_initialized() {
            return Err(ProgramError::UninitializedAccount);
        }
        Ok(f)
    }

    /// Writes this fundraiser into account data, leaving the padding as it
    /// was.
    pub fn store(&self, data: &mut [u8])
        requires
            old(data)@.len() == Self::LEN,
        ensures
            self.stored_in(final(data)@),
            final(data)@[0] == bool_byte(self.is_initialized),
            forall|j: int|
                0 <= j < Self::LEN && !Self::field_byte(j) ==> #[trigger] final(data)@[j]
                    == old(data)@[j],
    {
        let ghost d0 = data@;
        write_byte(data, 0, if self.is_initialized { 1 } else { 0 });
        assert(data@[0int + 0] == seq![bool_byte(self.is_initialized)][0]);
        let ghost d1 = data@;
        write_key(data, 1, &self.maker);
        let ghost d2 = data@;
        write_key(data, 33, &self.mint_to_raise);
        let ghost d3 = data@;
        write_u64(data, 72, self.amount_to_raise);
        let ghost d4 = data@;
        write_u64(data, 80, self.current_amount);
        let ghost d5 = data@;
        write_u64(data, 88, #[verifier::truncate] (self.time_started as u64));
        let ghost d6 = data@;
        write_byte(data, 96, self.duration);
        let ghost d7 = data@;
        write_byte(data, 97, self.bump);
        proof {
            let d8 = data@;
            vstd::bytes::lemma_auto_spec_u64_to_from_le_bytes();
            assert(d8[0] == d1[0]);
            assert(d8[96] == d7[96]);
            assert(self.maker@ =~= d8.subrange(1, 33)) by {
                assert forall|k: int| 0 <= k < 32 implies d8.subrange(1, 33)[k] == self.maker@[k] by {
                    assert(d2[1 + k] == self.maker@[k]);
                    assert(d8[1 + k] == d2[1 + k]);
                }
            }
            assert(self.mint_to_raise@ =~= d8.subrange(33, 65)) by {
                assert forall|k: int| 0 <= k < 32 implies d8.subrange(33, 65)[k]
                    == self.mint_to_raise@[k] by {
                    assert(d3[33 + k] == self.mint_to_raise@[k]);
                    assert(d8[33 + k] == d3[33 + k]);
                }
            }
            lemma_u64_written(d3, d4, 72, self.amount_to_raise);
            lemma_u64_written(d4, d5, 80, self.current_amount);
            lemma_u64_written(d5, d6, 88, #[verifier::truncate] (self.time_started as u64));
            assert(d8.subrange(72, 80) =~= d4.subrange(72, 80));
            assert(d8.subrange(80, 88) =~= d5.subrange(80, 88));
            assert(d8.subrange(88, 96) =~= d6.subrange(88, 96));
            lemma_i64_bits(self.time_started);
            assert(d7[96int + 0] == seq![self.duration][0]);
            assert(d8[97int + 0] == seq![self.bump][0]);
            assert(d1[0int + 0] == seq![bool_byte(self.is_initialized)][0]);
            assert forall|j: int| 0 <= j < Self::LEN && !Self::field_byte(j) implies #[trigger] d8[j]
                == d0[j] by {
                assert(d1[j] == d0[j]);
                assert(d2[j] == d1[j]);
                assert(d3[j] == d2[j]);
                assert(d4[j] == d3[j]);
                assert(d5[j] == d4[j]);
                assert(d6[j] == d5[j]);
                assert(d7[j] == d6[j]);
                assert(d8[j] == d7[j]);
            }
        }
    }

    /// Whether byte `j` of the layout belongs to a field (not to padding).
    pub open spec fn field_byte(j: int) -> bool {
        ||| 0 <= j < 65
        ||| 72 <= j < 98
    }
}

impl Contributor {
    /// Size of the account data.
    pub const LEN: usize = 16;

    /// The first seed of a contributor's program address.
    pub const SEED: &'static str = "contributor";

    /// `bytes` holds exactly this contributor record in its layout.
    pub open spec fn stored_in(self, bytes: Seq<u8>) -> bool {
        &&& bytes.len() == Self::LEN
        &&& self.is_initialized == (bytes[0] != 0)
        &&& self.amount == le_u64(bytes, 8)
    }

    /// Whether the account has been initialized.
    pub fn is_initialized(&self) -> (b: bool)
        ensures
            b == self.is_initialized,
    {
        self.is_initialized
    }

    /// Sets up a contributor record holding `amount`.
    pub fn initialize(&mut self, amount: u64)
        ensures
            *final(self) == (Contributor { is_initialized: true, amount }),
    {
        self.is_initialized = true;
        self.amount = amount;
    }

    /// Reads a contributor record from account data of the right size,
    /// initialized or not.
    pub fn load_unchecked(data: &[u8]) -> (r: Result<Contributor, ProgramError>)
        ensures
            match r {
                Ok(c) => c.stored_in(data@),
                Err(e) => data@.len() != Self::LEN && e == ProgramError::InvalidAccountData,
            },
    {
        if data.len() != Self::LEN {
            return Err(ProgramError::InvalidAccountData);
        }
        Ok(Contributor { is_initialized: data[0] != 0, amount: read_u64(data, 8) })
    }

    /// Reads an initialized contributor record from account data.
    pub fn load(data: &[u8]) -> (r: Result<Contributor, ProgramError>)
        ensures
            match r {
                Ok(c) => c.stored_in(data@) && c.is_initialized,
                Err(e) => {
                    ||| (data@.len() != Self::LEN && e == ProgramError::InvalidAccountData)
                    ||| (data@.len() == Self::LEN && data@[0] == 0 && e
                        == ProgramError::UninitializedAccount)
                },
            },
    {
        let c = Self::load_unchecked(data)?;
        if !c.is_initialized() {
            return Err(ProgramError::UninitializedAccount);
        }
        Ok(c)
    }

    /// Writes this record into account data, leaving the padding as it was.
    pub fn store(&self, data: &mut [u8])
        requires
            old(data)@.len() == Self::LEN,
        ensures
            self.stored_in(final(data)@),
            final(data)@[0] == bool_byte(self.is_initialized),
            forall|j: int| 1 <= j < 8 ==> #[trigger] final(data)@[j] == old(data)@[j],
    {
        let ghost d0 = data@;
        write_byte(data, 0, if self.is_initialized { 1 } else { 0 });
        assert(data@[0int + 0] == seq![bool_byte(self.is_initialized)][0]);
        let ghost d1 = data@;
        write_u64(data, 8, self.amount);
        proof {
            lemma_u64_written(d1, data@, 8, self.amount);
            assert(data@[0] == d1[0]);
        }
    }
}

/// A fundraiser read back from the bytes it was stored in is the
/// fundraiser that was stored: two fundraisers held by the same bytes are
/// equal.
pub proof fn lemma_fundraiser_store_load(stored: Fundraiser, loaded: Fundraiser, bytes: Seq<u8>)
    requires
        stored.stored_in(bytes),
        loaded.stored_in(bytes),
    ensures
        loaded == stored,
{
    assert(loaded.maker@ =~= stored.maker@);
    assert(loaded.mint_to_raise@ =~= stored.mint_to_raise@);
    vstd::array::axiom_array_ext_equal(loaded.maker, stored.maker);
    vstd::array::axiom_array_ext_equal(loaded.mint_to_raise, stored.mint_to_raise);
}

/// Storing back a fundraiser loaded from account data changes nothing,
/// provided its initialized flag is stored as 0 or 1, as `store` writes it: the bytes of every
/// field are determined by the field's value, and the padding is kept.
pub proof fn lemma_fundraiser_load_store_unchanged(f: Fundraiser, before: Seq<u8>, after: Seq<u8>)
    requires
        f.stored_in(before),
        before[0] <= 1,
        after[0] <= 1,
        f.stored_in(after),
        forall|j: int|
            0 <= j < Fundraiser::LEN && !Fundraiser::field_byte(j) ==> #[trigger] after[j]
                == before[j],
    ensures
        after == before,
{
    vstd::bytes::lemma_auto_spec_u64_to_from_le_bytes();
    assert(after[0] == before[0]);
    lemma_u64_bits_injective(le_u64(before, 88), le_u64(after, 88));
    assert(after.subrange(72, 80) =~= vstd::bytes::spec_u64_to_le_bytes(
        vstd::bytes::spec_u64_from_le_bytes(after.subrange(72, 80)),
    ));
    assert(before.subrange(72, 80) =~= vstd::bytes::spec_u64_to_le_bytes(
        vstd::bytes::spec_u64_from_le_bytes(before.subrange(72, 80)),
    ));
    assert(after.subrange(80, 88) =~= vstd::bytes::spec_u64_to_le_bytes(
        vstd::bytes::spec_u64_from_le_bytes(after.subrange(80, 88)),
    ));
    assert(before.subrange(80, 88) =~= vstd::bytes::spec_u64_to_le_bytes(
        vstd::bytes::spec_u64_from_le_bytes(before.subrange(80, 88)),
    ));
    assert(after.subrange(88, 96) =~= vstd::bytes::spec_u64_to_le_bytes(
        vstd::bytes::spec_u64_from_le_bytes(after.subrange(88, 96)),
    ));
    assert(before.subrange(88, 96) =~= vstd::bytes::spec_u64_to_le_bytes(
        vstd::bytes::spec_u64_from_le_bytes(before.subrange(88, 96)),
    ));
    assert forall|j: int| 0 <= j < Fundraiser::LEN implies #[trigger] after[j] == before[j] by {
        if 1 <= j < 33 {
            assert(after.subrange(1, 33)[j - 1] == before.subrange(1, 33)[j - 1]);
        } else if 33 <= j < 65 {
            assert(after.subrange(33, 65)[j - 33] == before.subrange(33, 65)[j - 33]);
        } else if 72 <= j < 80 {
            assert(after.subrange(72, 80)[j - 72] == before.subrange(72, 80)[j - 72]);
        } else if 80 <= j < 88 {
            assert(after.subrange(80, 88)[j - 80] == before.subrange(80, 88)[j - 80]);
        } else if 88 <= j < 96 {
            assert(after.subrange(88, 96)[j - 88] == before.subrange(88, 96)[j - 88]);
        }
    }
    assert(after =~= before);
}

/// Two `u64` values with the same two's-complement `i64` reading are equal.
proof fn lemma_u64_bits_injective(a: u64, b: u64)
    ensures
        (#[verifier::truncate] (a as i64)) == (#[verifier::truncate] (b as i64)) ==> a == b,
{
    assert((a as i64) == (b as i64) ==> a == b) by (bit_vector);
}

/// A contributor record read back from the bytes it was stored in is the
/// record that was stored.
pub proof fn lemma_contributor_store_load(
    stored: Contributor,
    loaded: Contributor,
    bytes: Seq<u8>,
)
    requires
        stored.stored_in(bytes),
        loaded.stored_in(bytes),
    ensures
        loaded == stored,
{
}

} // verus!
