//! The whitelist of the transfer-hook program: an admin adds and removes
//! whitelist entries, each at an address derived from the user's key.
use vstd::prelude::*;
use crate::address::{
    curve_point, derive_address, derived_address, is_curve_point, is_program_address, keys_equal,
    off_curve,
};
use crate::error::ProgramError;
use crate::layout::Pubkey;

verus! {

/// The transfer-hook program's address.
pub const WHITELIST_PROGRAM_ID: Pubkey = [
    249, 244, 239, 175, 254, 148, 218, 200, 205, 52, 81, 222, 232, 215, 205, 153, 118, 125, 27,
    230, 83, 134, 39, 120, 85, 198, 205, 50, 10, 81, 112, 254,
];

/// The first seed of a whitelist entry's address: the bytes of "whitelist".
pub const WHITELIST_SEED: [u8; 9] = [119, 104, 105, 116, 101, 108, 105, 115, 116];

/// A whitelist entry: the whitelisted address and the bump of the entry's
/// own address.
#[derive(Clone, Copy, Debug)]
pub struct Whitelist {
    pub user_address: Pubkey,
    pub bump: u8,
}

impl Whitelist {
    /// Space an entry takes: an 8-byte discriminator, the address, the bump.
    pub const SPACE: usize = 8 + 32 + 1;
}

/// The address of the whitelist entry for `user` with `bump`.
pub open spec fn spec_whitelist_address(user: Pubkey, bump: u8) -> Seq<u8> {
    derived_address(seq![WHITELIST_SEED@, user@, seq![bump]], None, WHITELIST_PROGRAM_ID@)
}

/// The address of the whitelist entry for `user` with `bump`: derived from
/// "whitelist", the user's key and the bump, for this program.
pub fn whitelist_address(user: &Pubkey, bump: u8) -> (r: Pubkey)
    ensures
        r@ == spec_whitelist_address(*user, bump),
{
    let b: [u8; 1] = [bump];
    assert(b@ =~= seq![bump]);
    derive_address(WHITELIST_SEED.as_slice(), user.as_slice(), b.as_slice(), None, &WHITELIST_PROGRAM_ID)
}

/// The first bump, going down from `b` to 1, whose entry address for `user`
/// lies off the curve.
pub open spec fn entry_bump_from(user: Pubkey, b: int) -> Option<u8>
    decreases b,
{
    if b < 1 {
        None
    } else if off_curve(spec_whitelist_address(user, b as u8)) {
        Some(b as u8)
    } else {
        entry_bump_from(user, b - 1)
    }
}

/// The canonical bump of `user`'s entry: the highest, from 255 down to 1,
/// that gives an address off the curve.
pub open spec fn canonical_entry_bump(user: Pubkey) -> Option<u8> {
    entry_bump_from(user, 255)
}

/// Finds the canonical bump of `user`'s entry, as the runtime's search for
/// a program address does: from 255 down to 1, the first whose address
/// lies off the curve.
pub fn find_entry_bump(user: &Pubkey) -> (r: Option<u8>)
    ensures
        r == canonical_entry_bump(*user),
{
    let mut b: u8 = 255;
    loop
        invariant
            1 <= b <= 255,
            canonical_entry_bump(*user) == entry_bump_from(*user, b as int),
        decreases b,
    {
        let address = whitelist_address(user, b);
        if !curve_point(&address) {
            return Some(b);
        }
        if b == 1 {
            return None;
        }
        b = b - 1;
    }
}

/// The accounts of the instruction that adds an entry, by key: the admin,
/// the user the entry is for, the entry's account and what it holds.
#[derive(Clone, Copy, Debug)]
pub struct AddAccount {
    pub admin: Pubkey,
    pub user: Pubkey,
    pub whitelist: Pubkey,
    pub entry: Whitelist,
}

impl AddAccount {
    /// The bump of the new entry's account, when that account is at the
    /// address for the user with the canonical bump; `None` otherwise, and
    /// when no bump gives an address off the curve.
    pub fn entry_bump(&self) -> (r: Option<u8>)
        ensures
            r == (match canonical_entry_bump(self.user) {
                Some(c) => if self.whitelist@ == spec_whitelist_address(self.user, c) {
                    Some(c)
                } else {
                    None
                },
                None => None,
            }),
    {
        match find_entry_bump(&self.user) {
            Some(c) => {
                let expected = whitelist_address(&self.user, c);
                if keys_equal(&expected, &self.whitelist) {
                    Some(c)
                } else {
                    None
                }
            },
            None => None,
        }
    }

    /// Fills the new entry with `address` and `bump`.
    pub fn add_account(&mut self, address: Pubkey, bump: u8) -> (r: Result<(), ProgramError>)
        ensures
            r == Ok::<(), ProgramError>(()),
            final(self).entry == (Whitelist { user_address: address, bump }),
            final(self).admin == old(self).admin,
            final(self).user == old(self).user,
            final(self).whitelist == old(self).whitelist,
    {
        self.entry = Whitelist { user_address: address, bump };
        Ok(())
    }
}

/// The accounts of the instruction that removes an entry, by key: the
/// admin, the user the entry is for, the entry's account and what it holds.
#[derive(Clone, Copy, Debug)]
pub struct RemoveAccount {
    pub admin: Pubkey,
    pub user: Pubkey,
    pub whitelist: Pubkey,
    pub entry: Whitelist,
}

impl RemoveAccount {
    /// Whether the entry's account is at the address for the user with the
    /// entry's stored bump, an address that must lie off the curve.
    pub fn accounts_valid(&self) -> (b: bool)
        ensures
            b == (self.whitelist@ == spec_whitelist_address(self.user, self.entry.bump)
                && off_curve(spec_whitelist_address(self.user, self.entry.bump))),
    {
        let expected = whitelist_address(&self.user, self.entry.bump);
        is_program_address(&self.whitelist, &expected)
    }

    /// Removes the entry. Its lamports go back to the admin once the
    /// accounts are valid; the instruction itself has nothing left to do.
    pub fn remove_account() -> (r: Result<(), ProgramError>)
        ensures
            r == Ok::<(), ProgramError>(()),
    {
        Ok(())
    }
}

/// A whitelist entry that ties a user to a mint: the user, the mint and the
/// bump of the entry's own address.
#[derive(Clone, Copy, Debug)]
pub struct WhitelistEntry {
    pub user: Pubkey,
    pub mint: Pubkey,
    pub bump: u8,
}

impl WhitelistEntry {
    /// Space the entry takes: an 8-byte discriminator, the user, the mint,
    /// the bump.
    pub const SPACE: usize = 8 + 32 + 32 + 1;
}

/// The address of the entry for `user` and `mint` with `bump`.
pub open spec fn spec_mint_entry_address(mint: Pubkey, user: Pubkey, bump: u8) -> Seq<u8> {
    derived_address(seq![WHITELIST_SEED@, mint@, user@], Some(bump), WHITELIST_PROGRAM_ID@)
}

/// The address of the entry for `user` and `mint` with `bump`: derived from
/// "whitelist", the mint's key, the user's key and the bump, for this
/// program.
pub fn mint_entry_address(mint: &Pubkey, user: &Pubkey, bump: u8) -> (r: Pubkey)
    ensures
        r@ == spec_mint_entry_address(*mint, *user, bump),
{
    derive_address(
        WHITELIST_SEED.as_slice(),
        mint.as_slice(),
        user.as_slice(),
        Some(bump),
        &WHITELIST_PROGRAM_ID,
    )
}

/// The first bump, going down from `b` to 1, whose entry address for
/// `user` and `mint` lies off the curve.
pub open spec fn mint_entry_bump_from(mint: Pubkey, user: Pubkey, b: int) -> Option<u8>
    decreases b,
{
    if b < 1 {
        None
    } else if off_curve(spec_mint_entry_address(mint, user, b as u8)) {
        Some(b as u8)
    } else {
        mint_entry_bump_from(mint, user, b - 1)
    }
}

/// The canonical bump of the entry for `user` and `mint`.
pub open spec fn canonical_mint_entry_bump(mint: Pubkey, user: Pubkey) -> Option<u8> {
    mint_entry_bump_from(mint, user, 255)
}

/// Finds the canonical bump of the entry for `user` and `mint`: from 255
/// down to 1, the first whose address lies off the curve.
pub fn find_mint_entry_bump(mint: &Pubkey, user: &Pubkey) -> (r: Option<u8>)
    ensures
        r == canonical_mint_entry_bump(*mint, *user),
{
    let mut b: u8 = 255;
    loop
        invariant
            1 <= b <= 255,
            canonical_mint_entry_bump(*mint, *user) == mint_entry_bump_from(*mint, *user, b as int),
        decreases b,
    {
        let address = mint_entry_address(mint, user, b);
        if !curve_point(&address) {
            return Some(b);
        }
        if b == 1 {
            return None;
        }
        b = b - 1;
    }
}

/// The accounts of the instruction that sets up an entry for a user and a
/// mint, by key, and what the entry holds.
#[derive(Clone, Copy, Debug)]
pub struct InitializeWhitelist {
    pub admin: Pubkey,
    pub user: Pubkey,
    pub mint: Pubkey,
    pub whitelist: Pubkey,
    pub entry: WhitelistEntry,
}

impl InitializeWhitelist {
    /// The bump of the entry's account, when that account is at the address
    /// for the mint and the user with the canonical bump; `None` otherwise,
    /// and when no bump gives an address off the curve.
    pub fn whitelist_bump(&self) -> (r: Option<u8>)
        ensures
            r == (match canonical_mint_entry_bump(self.mint, self.user) {
                Some(c) => if self.whitelist@ == spec_mint_entry_address(self.mint, self.user, c) {
                    Some(c)
                } else {
                    None
                },
                None => None,
            }),
    {
        match find_mint_entry_bump(&self.mint, &self.user) {
            Some(c) => {
                let expected = mint_entry_address(&self.mint, &self.user, c);
                if keys_equal(&expected, &self.whitelist) {
                    Some(c)
                } else {
                    None
                }
            },
            None => None,
        }
    }

    /// Fills the new entry with the user, the mint and the entry's bump.
    pub fn initialize_whitelist(&mut self, bump: u8) -> (r: Result<(), ProgramError>)
        ensures
            r == Ok::<(), ProgramError>(()),
            final(self).entry == (WhitelistEntry {
                user: old(self).user,
                mint: old(self).mint,
                bump,
            }),
            final(self).admin == old(self).admin,
            final(self).user == old(self).user,
            final(self).mint == old(self).mint,
            final(self).whitelist == old(self).whitelist,
    {
        self.entry = WhitelistEntry { user: self.user, mint: self.mint, bump };
        Ok(())
    }
}

/// An entry added through a valid account, and holding the bump of that
/// account, passes the removal check.
pub proof fn lemma_added_entry_removable(add: AddAccount, bump: u8, address: Pubkey)
    requires
        canonical_entry_bump(add.user) == Some(bump),
        add.whitelist@ == spec_whitelist_address(add.user, bump),
    ensures
        ({
            let remove = RemoveAccount {
                admin: add.admin,
                user: add.user,
                whitelist: add.whitelist,
                entry: Whitelist { user_address: address, bump },
            };
            remove.whitelist@ == spec_whitelist_address(remove.user, remove.entry.bump) && off_curve(
                spec_whitelist_address(remove.user, remove.entry.bump),
            )
        }),
{
    lemma_canonical_bump_off_curve(add.user, 255);
}

/// A bump found by the search gives an address off the curve.
pub proof fn lemma_canonical_bump_off_curve(user: Pubkey, b: int)
    ensures
        entry_bump_from(user, b) matches Some(c) ==> off_curve(spec_whitelist_address(user, c)),
    decreases b,
{
    if b >= 1 && !off_curve(spec_whitelist_address(user, b as u8)) {
        lemma_canonical_bump_off_curve(user, b - 1);
    }
}

/// What the search from `b` down finds: a bump `c` no higher than `b`
/// whose address is off the curve, every bump above `c` up to `b` giving an
/// address on it; or nothing, when every bump from `b` down to 1 does.
proof fn lemma_entry_bump_from(user: Pubkey, b: int)
    requires
        b <= 255,
    ensures
        entry_bump_from(user, b) matches Some(c) ==> {
            &&& 1 <= c <= b
            &&& off_curve(spec_whitelist_address(user, c))
            &&& forall|k: int|
                c < k <= b ==> #[trigger] is_curve_point(spec_whitelist_address(user, k as u8))
        },
        entry_bump_from(user, b) is None ==> forall|k: int|
            1 <= k <= b ==> #[trigger] is_curve_point(spec_whitelist_address(user, k as u8)),
    decreases b,
{
    if b >= 1 && !off_curve(spec_whitelist_address(user, b as u8)) {
        lemma_entry_bump_from(user, b - 1);
    }
}

/// The canonical bump of a user's entry is the highest bump from 255 down
/// to 1 whose address lies off the curve: the address it gives is off the
/// curve, and every higher bump gives one on the curve. There is none only
/// when every bump from 1 to 255 gives an address on the curve.
pub proof fn lemma_canonical_entry_bump_is_highest(user: Pubkey)
    ensures
        canonical_entry_bump(user) matches Some(c) ==> {
            &&& 1 <= c
            &&& off_curve(spec_whitelist_address(user, c))
            &&& forall|k: int|
                c < k <= 255 ==> #[trigger] is_curve_point(spec_whitelist_address(user, k as u8))
        },
        canonical_entry_bump(user) is None ==> forall|k: int|
            1 <= k <= 255 ==> #[trigger] is_curve_point(spec_whitelist_address(user, k as u8)),
{
    lemma_entry_bump_from(user, 255);
}

/// The bump found for an entry's address off the curve at 255 is 255.
pub proof fn lemma_entry_bump_prefers_255(user: Pubkey)
    requires
        off_curve(spec_whitelist_address(user, 255)),
    ensures
        canonical_entry_bump(user) == Some(255u8),
{
}

/// What the search from `b` down finds, for an entry of a mint and a user.
proof fn lemma_mint_entry_bump_from(mint: Pubkey, user: Pubkey, b: int)
    requires
        b <= 255,
    ensures
        mint_entry_bump_from(mint, user, b) matches Some(c) ==> {
            &&& 1 <= c <= b
            &&& off_curve(spec_mint_entry_address(mint, user, c))
            &&& forall|k: int|
                c < k <= b ==> #[trigger] is_curve_point(
                    spec_mint_entry_address(mint, user, k as u8),
                )
        },
        mint_entry_bump_from(mint, user, b) is None ==> forall|k: int|
            1 <= k <= b ==> #[trigger] is_curve_point(spec_mint_entry_address(mint, user, k as u8)),
    decreases b,
{
    if b >= 1 && !off_curve(spec_mint_entry_address(mint, user, b as u8)) {
        lemma_mint_entry_bump_from(mint, user, b - 1);
    }
}

/// The canonical bump of the entry for a mint and a user is the highest
/// bump from 255 down to 1 whose address lies off the curve; there is none
/// only when every bump from 1 to 255 gives an address on the curve.
pub proof fn lemma_canonical_mint_entry_bump_is_highest(mint: Pubkey, user: Pubkey)
    ensures
        canonical_mint_entry_bump(mint, user) matches Some(c) ==> {
            &&& 1 <= c
            &&& off_curve(spec_mint_entry_address(mint, user, c))
            &&& forall|k: int|
                c < k <= 255 ==> #[trigger] is_curve_point(
                    spec_mint_entry_address(mint, user, k as u8),
                )
        },
        canonical_mint_entry_bump(mint, user) is None ==> forall|k: int|
            1 <= k <= 255 ==> #[trigger] is_curve_point(spec_mint_entry_address(mint, user, k as u8)),
{
    lemma_mint_entry_bump_from(mint, user, 255);
}

} // verus!
