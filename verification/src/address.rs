//! Program-derived addresses.
use vstd::prelude::*;
use crate::layout::Pubkey;

verus! {

/// The address derived from `seeds` and an optional bump for the program
/// `program_id`: the SHA-256 hash of the seeds, the bump byte if any, the
/// program id and the program-address marker, taken as it comes (no check
/// that it lies off the curve).
pub uninterp spec fn derived_address(
    seeds: Seq<Seq<u8>>,
    bump: Option<u8>,
    program_id: Seq<u8>,
) -> Seq<u8>;

/// Whether 32 bytes are the compressed form of a point of the Ed25519 curve.
pub uninterp spec fn is_curve_point(bytes: Seq<u8>) -> bool;

/// Derives the program address of three seeds and an optional bump.
///
/// Calls `pinocchio_pubkey::derive_address_const(&[s0, s1, s2], bump,
/// program_id)`, which hashes the seeds, the bump, the program id and the
/// marker and returns the hash. Trusted: the result is [`derived_address`]
/// of the three seeds, the bump and the program id, a function of those
/// alone; nothing more is claimed of it.
#[verifier::external_body]
pub(crate) fn derive_address(
    s0: &[u8],
    s1: &[u8],
    s2: &[u8],
    bump: Option<u8>,
    program_id: &Pubkey,
) -> (r: Pubkey)
    ensures
        r@ == derived_address(seq![s0@, s1@, s2@], bump, program_id@),
{
    pinocchio_pubkey::derive_address_const(&[s0, s1, s2], bump, program_id)
}

/// Whether `bytes` lie on the curve, so that they cannot be a program
/// address.
///
/// Calls `curve25519_dalek::edwards::CompressedEdwardsY(bytes).decompress()`
/// and reports whether it gave a point. Trusted: the result is
/// [`is_curve_point`] of the bytes, a function of them alone; nothing more is
/// claimed of it.
#[verifier::external_body]
pub(crate) fn curve_point(bytes: &Pubkey) -> (r: bool)
    ensures
        r == is_curve_point(bytes@),
{
    curve25519_dalek::edwards::CompressedEdwardsY(*bytes).decompress().is_some()
}

/// Whether `address` is a valid program address: one that lies off the
/// curve.
pub open spec fn off_curve(address: Seq<u8>) -> bool {
    !is_curve_point(address)
}

/// Whether `key` is the program address `expected`: the same bytes, and
/// off the curve, as a program address must be.
pub fn is_program_address(key: &Pubkey, expected: &Pubkey) -> (r: bool)
    ensures
        r == (key@ == expected@ && off_curve(expected@)),
{
    !curve_point(expected) && keys_equal(key, expected)
}

/// Whether two keys are the same 32 bytes.
pub fn keys_equal(a: &Pubkey, b: &Pubkey) -> (r: bool)
    ensures
        r == (a@ == b@),
{
    let mut i: usize = 0;
    while i < 32
        invariant
            0 <= i <= 32,
            forall|j: int| 0 <= j < i ==> a@[j] == b@[j],
        decreases 32 - i,
    {
        if a[i] != b[i] {
            return false;
        }
        i = i + 1;
    }
    assert(a@ =~= b@);
    true
}

} // verus!
