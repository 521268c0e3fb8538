//! The per-user account program: each user has an account at an address
//! derived from their key, can close it, and can ask an oracle for
//! randomness that is delivered back to the program's update instruction.
use vstd::prelude::*;
use crate::address::{derive_address, derived_address, is_program_address, off_curve};
use crate::error::ProgramError;
use crate::layout::Pubkey;

verus! {

/// The user-account program's address.
pub const USER_PROGRAM_ID: Pubkey = [
    208, 152, 224, 131, 38, 184, 204, 17, 182, 70, 27, 141, 38, 177, 204, 49, 76, 91, 222, 64, 19,
    220, 141, 171, 106, 241, 145, 51, 185, 11, 165, 233,
];

/// The first seed of a user account's address: the bytes of "user".
pub const USER_SEED: [u8; 4] = [117, 115, 101, 114];

/// The discriminator of the program's update instruction, to which the
/// oracle delivers the randomness.
pub const UPDATE_DISCRIMINATOR: [u8; 8] = [219, 200, 88, 176, 158, 63, 253, 127];

/// A user's account: whose it is, a number, and the bump of its address.
#[derive(Clone, Copy, Debug)]
pub struct UserAccount {
    pub user: Pubkey,
    pub data: u64,
    pub bump: u8,
}

impl UserAccount {
    /// Space the account takes: the fields plus an 8-byte discriminator.
    pub const INIT_SPACE: usize = 32 + 8 + 1 + 8;
}

/// The address of `user`'s account with `bump`.
pub open spec fn spec_user_account_address(user: Pubkey, bump: u8) -> Seq<u8> {
    derived_address(seq![USER_SEED@, user@, seq![bump]], None, USER_PROGRAM_ID@)
}

/// The address of `user`'s account with `bump`: derived from "user", the
/// user's key and the bump, for this program.
pub fn user_account_address(user: &Pubkey, bump: u8) -> (r: Pubkey)
    ensures
        r@ == spec_user_account_address(*user, bump),
{
    let b: [u8; 1] = [bump];
    assert(b@ =~= seq![bump]);
    derive_address(USER_SEED.as_slice(), user.as_slice(), b.as_slice(), None, &USER_PROGRAM_ID)
}

/// The accounts of the instruction that closes a user's account, by key,
/// with the bump stored in the user account.
#[derive(Clone, Copy, Debug)]
pub struct CloseUser {
    pub user: Pubkey,
    pub user_account: Pubkey,
    pub bump: u8,
}

impl CloseUser {
    /// Whether the user account is the signer's own: at the address derived
    /// from "user", the user's key and the stored bump, which must lie off
    /// the curve.
    pub fn accounts_valid(&self) -> (b: bool)
        ensures
            b == (self.user_account@ == spec_user_account_address(self.user, self.bump)
                && off_curve(spec_user_account_address(self.user, self.bump))),
    {
        let expected = user_account_address(&self.user, self.bump);
        is_program_address(&self.user_account, &expected)
    }

    /// Closes the user account. The lamports go back to the user once the
    /// accounts are valid; the instruction itself has nothing left to do.
    pub fn close(&mut self) -> (r: Result<(), ProgramError>)
        ensures
            r == Ok::<(), ProgramError>(()),
            *final(self) == *old(self),
    {
        Ok(())
    }
}

/// An account that the oracle passes to the callback.
#[derive(Clone, Copy, Debug)]
pub struct CallbackAccount {
    pub pubkey: Pubkey,
    pub is_signer: bool,
    pub is_writable: bool,
}

/// A request for randomness: who pays, which oracle queue serves it, which
/// instruction of which program receives it with which accounts, and the
/// seed the caller adds.
#[derive(Debug)]
pub struct RandomnessRequest {
    pub payer: Pubkey,
    pub oracle_queue: Pubkey,
    pub callback_program_id: Pubkey,
    pub callback_discriminator: Vec<u8>,
    pub caller_seed: [u8; 32],
    pub callback_accounts: Vec<CallbackAccount>,
}

/// The accounts of the instruction that asks for randomness, by key, with
/// the bump stored in the user account.
#[derive(Clone, Copy, Debug)]
pub struct FetchRandomness {
    pub user: Pubkey,
    pub user_account: Pubkey,
    pub bump: u8,
    pub oracle_queue: Pubkey,
}

impl FetchRandomness {
    /// Whether the user account is the signer's own: at the address derived
    /// from "user", the user's key and the stored bump, which must lie off
    /// the curve.
    pub fn accounts_valid(&self) -> (b: bool)
        ensures
            b == (self.user_account@ == spec_user_account_address(self.user, self.bump)
                && off_curve(spec_user_account_address(self.user, self.bump))),
    {
        let expected = user_account_address(&self.user, self.bump);
        is_program_address(&self.user_account, &expected)
    }

    /// The request that the instruction sends: paid by the user, served by
    /// the given oracle queue, delivered to this program's update
    /// instruction with the user's key as its one writable, non-signing
    /// account, and seeded with `entropy` repeated 32 times.
    pub fn handler(&self, entropy: u8) -> (r: RandomnessRequest)
        ensures
            r.payer == self.user,
            r.oracle_queue == self.oracle_queue,
            r.callback_program_id == USER_PROGRAM_ID,
            r.callback_discriminator@ == UPDATE_DISCRIMINATOR@,
            r.caller_seed@ == Seq::new(32, |i: int| entropy),
            r.callback_accounts@ == seq![
                CallbackAccount { pubkey: self.user, is_signer: false, is_writable: true },
            ],
    {
        let mut discriminator: Vec<u8> = Vec::new();
        let mut i: usize = 0;
        while i < 8
            invariant
                0 <= i <= 8,
                discriminator@ == UPDATE_DISCRIMINATOR@.subrange(0, i as int),
            decreases 8 - i,
        {
            discriminator.push(UPDATE_DISCRIMINATOR[i]);
            proof {
                assert(UPDATE_DISCRIMINATOR@.subrange(0, i + 1) =~= UPDATE_DISCRIMINATOR@.subrange(
                    0,
                    i as int,
                ).push(UPDATE_DISCRIMINATOR@[i as int]));
            }
            i = i + 1;
        }
        assert(UPDATE_DISCRIMINATOR@.subrange(0, 8) =~= UPDATE_DISCRIMINATOR@);
        let caller_seed: [u8; 32] = [entropy; 32];
        assert(caller_seed@ =~= Seq::new(32, |i: int| entropy));
        let mut callback_accounts: Vec<CallbackAccount> = Vec::new();
        callback_accounts.push(
            CallbackAccount { pubkey: self.user, is_signer: false, is_writable: true },
        );
        assert(callback_accounts@ =~= seq![
            CallbackAccount { pubkey: self.user, is_signer: false, is_writable: true },
        ]);
        RandomnessRequest {
            payer: self.user,
            oracle_queue: self.oracle_queue,
            callback_program_id: USER_PROGRAM_ID,
            callback_discriminator: discriminator,
            caller_seed,
            callback_accounts,
        }
    }
}

} // verus!
