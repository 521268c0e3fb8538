//! Fixed-offset byte layouts: reading and writing keys, little-endian
//! integers and single bytes in account and instruction data.
use vstd::prelude::*;
use vstd::bytes::*;
use vstd::slice::slice_subrange;
use crate::error::ProgramError;

verus! {

/// A public key: 32 bytes.
pub type Pubkey = [u8; 32];

/// The 64-bit unsigned integer stored little-endian in `bytes[start..start + 8]`.
pub open spec fn le_u64(bytes: Seq<u8>, start: int) -> u64 {
    spec_u64_from_le_bytes(bytes.subrange(start, start + 8))
}

/// The 64-bit signed integer stored little-endian (two's complement) in
/// `bytes[start..start + 8]`.
pub open spec fn le_i64(bytes: Seq<u8>, start: int) -> i64 {
    #[verifier::truncate] (le_u64(bytes, start) as i64)
}

/// The byte that stands for a boolean.
pub open spec fn bool_byte(b: bool) -> u8 {
    if b {
        1
    } else {
        0
    }
}

/// `after` is `before` with `part` written from `start` on: the bytes of
/// `part` there, every other byte unchanged.
pub open spec fn written(before: Seq<u8>, after: Seq<u8>, start: int, part: Seq<u8>) -> bool {
    &&& after.len() == before.len()
    &&& forall|j: int| 0 <= j < part.len() ==> #[trigger] after[start + j] == part[j]
    &&& forall|j: int|
        0 <= j < before.len() && !(start <= j < start + part.len()) ==> #[trigger] after[j]
            == before[j]
}

/// Reads the little-endian `u64` at `start`.
pub fn read_u64(data: &[u8], start: usize) -> (r: u64)
    requires
        start + 8 <= data@.len(),
    ensures
        r == le_u64(data@, start as int),
{
    let _len = data.len();
    u64_from_le_bytes(slice_subrange(data, start, start + 8))
}

/// Reads the little-endian `i64` at `start`.
pub fn read_i64(data: &[u8], start: usize) -> (r: i64)
    requires
        start + 8 <= data@.len(),
    ensures
        r == le_i64(data@, start as int),
{
    #[verifier::truncate] (read_u64(data, start) as i64)
}

/// Reads the 32-byte key at `start`.
pub fn read_key(data: &[u8], start: usize) -> (k: Pubkey)
    requires
        start + 32 <= data@.len(),
    ensures
        k@ == data@.subrange(start as int, start + 32),
{
    let len = data.len();
    let mut k: Pubkey = [0u8; 32];
    let mut i: usize = 0;
    while i < 32
        invariant
            0 <= i <= 32,
            start + 32 <= data@.len(),
            len == data@.len(),
            forall|j: int| 0 <= j < i ==> k@[j] == data@[start + j],
        decreases 32 - i,
    {
        k[i] = data[start + i];
        i = i + 1;
    }
    assert(k@ =~= data@.subrange(start as int, start + 32));
    k
}

/// Writes `part` into `data` from `start` on.
pub fn write_bytes(data: &mut [u8], start: usize, part: &[u8])
    requires
        start + part@.len() <= old(data)@.len(),
    ensures
        written(old(data)@, final(data)@, start as int, part@),
{
    let n = part.len();
    let len = data.len();
    let mut i: usize = 0;
    while i < n
        invariant
            0 <= i <= n,
            n == part@.len(),
            start + n <= old(data)@.len(),
            data@.len() == old(data)@.len(),
            len == old(data)@.len(),
            forall|j: int| 0 <= j < i ==> #[trigger] data@[start + j] == part@[j],
            forall|j: int|
                0 <= j < old(data)@.len() && !(start <= j < start + i) ==> #[trigger] data@[j]
                    == old(data)@[j],
        decreases n - i,
    {
        data[start + i] = part[i];
        i = i + 1;
    }
}

/// Writes the 32-byte key `k` at `start`.
pub fn write_key(data: &mut [u8], start: usize, k: &Pubkey)
    requires
        start + 32 <= old(data)@.len(),
    ensures
        written(old(data)@, final(data)@, start as int, k@),
{
    write_bytes(data, start, k.as_slice());
}

/// Writes `x` little-endian at `start`.
pub fn write_u64(data: &mut [u8], start: usize, x: u64)
    requires
        start + 8 <= old(data)@.len(),
    ensures
        written(old(data)@, final(data)@, start as int, spec_u64_to_le_bytes(x)),
{
    proof {
        lemma_auto_spec_u64_to_from_le_bytes();
    }
    let b = u64_to_le_bytes(x);
    write_bytes(data, start, b.as_slice());
}

/// Writes the byte `b` at `at`.
pub fn write_byte(data: &mut [u8], at: usize, b: u8)
    requires
        at < old(data)@.len(),
    ensures
        written(old(data)@, final(data)@, at as int, seq![b]),
{
    data[at] = b;
}

/// Splits instruction data into its first byte, which selects the
/// instruction, and the rest; empty data is invalid instruction data.
pub fn split_instruction(data: &[u8]) -> (r: Result<(u8, &[u8]), ProgramError>)
    ensures
        match r {
            Ok((tag, rest)) => data@.len() > 0 && data@ == seq![tag] + rest@,
            Err(e) => data@.len() == 0 && e == ProgramError::InvalidInstructionData,
        },
{
    let n = data.len();
    if n == 0 {
        return Err(ProgramError::InvalidInstructionData);
    }
    let rest = slice_subrange(data, 1, n);
    assert(data@ =~= seq![data@[0]] + rest@);
    Ok((data[0], rest))
}

/// A `u64` written at `start` reads back as itself.
pub proof fn lemma_u64_written(before: Seq<u8>, after: Seq<u8>, start: int, x: u64)
    requires
        0 <= start,
        start + 8 <= before.len(),
        written(before, after, start, spec_u64_to_le_bytes(x)),
    ensures
        le_u64(after, start) == x,
{
    lemma_auto_spec_u64_to_from_le_bytes();
    let bytes = spec_u64_to_le_bytes(x);
    assert forall|k: int| 0 <= k < 8 implies after.subrange(start, start + 8)[k] == bytes[k] by {
        assert(after[start + k] == bytes[k]);
    }
    assert(after.subrange(start, start + 8) =~= bytes);
}

/// An `i64` stored as its two's-complement bits reads back as itself.
pub proof fn lemma_i64_bits(x: i64)
    ensures
        ((#[verifier::truncate] (x as u64)) as i64) == x,
{
    assert(((x as u64) as i64) == x) by (bit_vector);
}

} // verus!
