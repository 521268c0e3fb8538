//! The decisions of the token escrow program: a maker offers tokens of one
//! mint for tokens of another; a taker takes the offer.
use vstd::prelude::*;
use crate::address::{derive_address, derived_address, keys_equal};
use crate::error::ProgramError;
use crate::layout::{Pubkey, le_u64, read_u64, split_instruction};

verus! {

/// The escrow program's address.
pub const ESCROW_PROGRAM_ID: Pubkey = [
    222, 33, 148, 126, 13, 39, 58, 141, 0, 135, 55, 45, 12, 114, 112, 115, 153, 141, 133, 247, 155,
    76, 174, 42, 56, 1, 5, 236, 183, 246, 187, 123,
];

/// The first seed of an escrow's address: the bytes of "escrow".
pub const ESCROW_SEED: [u8; 6] = [101, 115, 99, 114, 111, 119];

/// Accounts a make instruction needs at least.
pub const MAKE_ACCOUNTS: usize = 9;

/// Accounts a take instruction needs at least.
pub const TAKE_ACCOUNTS: usize = 11;

/// What the escrow reads of a token account: its mint and its owner.
#[derive(Clone, Copy, Debug)]
pub struct TokenAccountKeys {
    pub mint: Pubkey,
    pub owner: Pubkey,
}

/// The address of the escrow that `maker` opens with `bump`.
pub open spec fn spec_escrow_address(maker: Pubkey, bump: u8) -> Seq<u8> {
    derived_address(seq![ESCROW_SEED@, maker@, seq![bump]], None, ESCROW_PROGRAM_ID@)
}

/// The entry of the escrow program, which must be called as itself: it
/// accepts any instruction data that is not empty.
pub fn route_instruction(program_id: &Pubkey, data: &[u8]) -> (r: Result<(), ProgramError>)
    requires
        program_id@ == ESCROW_PROGRAM_ID@,
    ensures
        r == (if data@.len() == 0 {
            Err(ProgramError::InvalidInstructionData)
        } else {
            Ok(())
        }),
{
    let _ = split_instruction(data)?;
    Ok(())
}

/// Checks that a make instruction has enough accounts.
pub fn check_make_accounts(n_accounts: usize) -> (r: Result<(), ProgramError>)
    ensures
        r == (if n_accounts < MAKE_ACCOUNTS {
            Err(ProgramError::NotEnoughAccountKeys)
        } else {
            Ok(())
        }),
{
    if n_accounts < MAKE_ACCOUNTS {
        return Err(ProgramError::NotEnoughAccountKeys);
    }
    Ok(())
}

/// Checks the maker's token account: owned by the maker, of the offered
/// mint.
pub fn check_maker_token_account(
    maker: &Pubkey,
    mint_a: &Pubkey,
    maker_ata: &TokenAccountKeys,
) -> (r: Result<(), ProgramError>)
    ensures
        r == (if maker_ata.owner@ != maker@ {
            Err(ProgramError::IllegalOwner)
        } else if maker_ata.mint@ != mint_a@ {
            Err(ProgramError::InvalidAccountData)
        } else {
            Ok(())
        }),
{
    if !keys_equal(&maker_ata.owner, maker) {
        return Err(ProgramError::IllegalOwner);
    }
    if !keys_equal(&maker_ata.mint, mint_a) {
        return Err(ProgramError::InvalidAccountData);
    }
    Ok(())
}

/// The arguments of a make instruction.
///
/// Layout: `bump` at 0, `amount_to_receive` at 1..9, `amount_to_give` at
/// 9..17.
#[derive(Clone, Copy, Debug, PartialEq, Eq, Structural)]
pub struct MakeArgs {
    pub bump: u8,
    pub amount_to_receive: u64,
    pub amount_to_give: u64,
}

impl MakeArgs {
    /// Reads the arguments; the data must hold at least 17 bytes.
    pub fn parse(data: &[u8]) -> (r: MakeArgs)
        requires
            data@.len() >= 17,
        ensures
            r.bump == data@[0],
            r.amount_to_receive == le_u64(data@, 1),
            r.amount_to_give == le_u64(data@, 9),
    {
        MakeArgs { bump: data[0], amount_to_receive: read_u64(data, 1), amount_to_give: read_u64(data, 9) }
    }
}

/// The address of the escrow that `maker` opens with `bump`: derived from
/// the seeds "escrow", the maker's key and the bump, for the escrow
/// program.
pub fn escrow_address(maker: &Pubkey, bump: u8) -> (r: Pubkey)
    ensures
        r@ == spec_escrow_address(*maker, bump),
{
    let b: [u8; 1] = [bump];
    assert(b@ =~= seq![bump]);
    derive_address(ESCROW_SEED.as_slice(), maker.as_slice(), b.as_slice(), None, &ESCROW_PROGRAM_ID)
}

/// Whether `escrow` is the escrow that `maker` opens with `bump`.
pub fn is_escrow_address(escrow: &Pubkey, maker: &Pubkey, bump: u8) -> (b: bool)
    ensures
        b == (escrow@ == spec_escrow_address(*maker, bump)),
{
    let expected = escrow_address(maker, bump);
    keys_equal(&expected, escrow)
}

/// Checks that a take instruction has enough accounts.
pub fn check_take_accounts(n_accounts: usize) -> (r: Result<(), ProgramError>)
    ensures
        r == (if n_accounts < TAKE_ACCOUNTS {
            Err(ProgramError::NotEnoughAccountKeys)
        } else {
            Ok(())
        }),
{
    if n_accounts < TAKE_ACCOUNTS {
        return Err(ProgramError::NotEnoughAccountKeys);
    }
    Ok(())
}

/// The arguments of a take instruction.
///
/// Layout: `amount_to_receive` at 0..8, `amount_to_give` at 8..16.
#[derive(Clone, Copy, Debug, PartialEq, Eq, Structural)]
pub struct TakeArgs {
    pub amount_to_receive: u64,
    pub amount_to_give: u64,
}

impl TakeArgs {
    /// Reads the arguments; the data must hold at least 16 bytes.
    pub fn parse(data: &[u8]) -> (r: TakeArgs)
        requires
            data@.len() >= 16,
        ensures
            r.amount_to_receive == le_u64(data@, 0),
            r.amount_to_give == le_u64(data@, 8),
    {
        TakeArgs { amount_to_receive: read_u64(data, 0), amount_to_give: read_u64(data, 8) }
    }
}

/// Checks that a token account of the taker is owned by the taker.
pub fn check_taker_owner(taker: &Pubkey, account: &TokenAccountKeys) -> (r: Result<
    (),
    ProgramError,
>)
    ensures
        r == (if account.owner@ != taker@ {
            Err(ProgramError::IllegalOwner)
        } else {
            Ok(())
        }),
{
    if !keys_equal(&account.owner, taker) {
        return Err(ProgramError::IllegalOwner);
    }
    Ok(())
}

/// Checks the mints of the taker's and the maker's token accounts, then
/// that `escrow` is the escrow that the maker (the owner of the maker's
/// token account) opened with `bump`.
pub fn check_take(
    mint_a: &Pubkey,
    mint_b: &Pubkey,
    taker_ata_a: &TokenAccountKeys,
    taker_ata_b: &TokenAccountKeys,
    maker_ata: &TokenAccountKeys,
    escrow: &Pubkey,
    bump: u8,
) -> (r: Result<(), ProgramError>)
    ensures
        r == (if taker_ata_a.mint@ != mint_a@ {
            Err(ProgramError::InvalidAccountData)
        } else if taker_ata_b.mint@ != mint_b@ {
            Err(ProgramError::InvalidAccountData)
        } else if maker_ata.mint@ != mint_b@ {
            Err(ProgramError::InvalidAccountData)
        } else if escrow@ != spec_escrow_address(maker_ata.owner, bump) {
            Err(ProgramError::InvalidAccountData)
        } else {
            Ok(())
        }),
{
    if !keys_equal(&taker_ata_a.mint, mint_a) {
        return Err(ProgramError::InvalidAccountData);
    }
    if !keys_equal(&taker_ata_b.mint, mint_b) {
        return Err(ProgramError::InvalidAccountData);
    }
    if !keys_equal(&maker_ata.mint, mint_b) {
        return Err(ProgramError::InvalidAccountData);
    }
    let expected = escrow_address(&maker_ata.owner, bump);
    if !keys_equal(&expected, escrow) {
        return Err(ProgramError::InvalidAccountData);
    }
    Ok(())
}

/// The verdict on a take, in the order the instruction checks: the taker
/// owns its token account of the offered mint, then its token account of
/// the asked mint; then the mints of those two accounts and of the maker's
/// account; then the escrow's address.
pub open spec fn take_verdict(
    taker: Pubkey,
    mint_a: Pubkey,
    mint_b: Pubkey,
    taker_ata_a: TokenAccountKeys,
    taker_ata_b: TokenAccountKeys,
    maker_ata: TokenAccountKeys,
    escrow: Pubkey,
    bump: u8,
) -> Result<(), ProgramError> {
    if taker_ata_a.owner@ != taker@ {
        Err(ProgramError::IllegalOwner)
    } else if taker_ata_b.owner@ != taker@ {
        Err(ProgramError::IllegalOwner)
    } else if taker_ata_a.mint@ != mint_a@ {
        Err(ProgramError::InvalidAccountData)
    } else if taker_ata_b.mint@ != mint_b@ {
        Err(ProgramError::InvalidAccountData)
    } else if maker_ata.mint@ != mint_b@ {
        Err(ProgramError::InvalidAccountData)
    } else if escrow@ != spec_escrow_address(maker_ata.owner, bump) {
        Err(ProgramError::InvalidAccountData)
    } else {
        Ok(())
    }
}

/// All the checks of a take, once the token accounts, the escrow's key and
/// its stored bump have been read: [`take_verdict`].
pub fn decide_take(
    taker: &Pubkey,
    mint_a: &Pubkey,
    mint_b: &Pubkey,
    taker_ata_a: &TokenAccountKeys,
    taker_ata_b: &TokenAccountKeys,
    maker_ata: &TokenAccountKeys,
    escrow: &Pubkey,
    bump: u8,
) -> (r: Result<(), ProgramError>)
    ensures
        r == take_verdict(
            *taker,
            *mint_a,
            *mint_b,
            *taker_ata_a,
            *taker_ata_b,
            *maker_ata,
            *escrow,
            bump,
        ),
{
    check_taker_owner(taker, taker_ata_a)?;
    check_taker_owner(taker, taker_ata_b)?;
    check_take(mint_a, mint_b, taker_ata_a, taker_ata_b, maker_ata, escrow, bump)
}

/// For a given maker and bump, at most one escrow account passes the take
/// check: two accounts that both pass are the same address.
pub proof fn lemma_take_binds_escrow(maker_ata: TokenAccountKeys, bump: u8, e1: Pubkey, e2: Pubkey)
    requires
        e1@ == spec_escrow_address(maker_ata.owner, bump),
        e2@ == spec_escrow_address(maker_ata.owner, bump),
    ensures
        e1 == e2,
{
    vstd::array::axiom_array_ext_equal(e1, e2);
}

/// A take is accepted exactly when every check holds: both of the taker's
/// token accounts are the taker's, the taker's accounts are of the offered
/// and the asked mint, the maker's account is of the asked mint, and the
/// escrow sits at the address its maker opened with the bump. When it is
/// refused, the error is `IllegalOwner` for an owner that is not the taker
/// and `InvalidAccountData` otherwise.
pub proof fn lemma_take_accepted_exactly_when_all_checks_hold(
    taker: Pubkey,
    mint_a: Pubkey,
    mint_b: Pubkey,
    taker_ata_a: TokenAccountKeys,
    taker_ata_b: TokenAccountKeys,
    maker_ata: TokenAccountKeys,
    escrow: Pubkey,
    bump: u8,
)
    ensures
        ({
            let v = take_verdict(taker, mint_a, mint_b, taker_ata_a, taker_ata_b, maker_ata, escrow, bump);
            &&& v is Ok <==> {
                &&& taker_ata_a.owner@ == taker@
                &&& taker_ata_b.owner@ == taker@
                &&& taker_ata_a.mint@ == mint_a@
                &&& taker_ata_b.mint@ == mint_b@
                &&& maker_ata.mint@ == mint_b@
                &&& escrow@ == spec_escrow_address(maker_ata.owner, bump)
            }
            &&& (taker_ata_a.owner@ != taker@ || taker_ata_b.owner@ != taker@) ==> v == Err::<
                (),
                ProgramError,
            >(ProgramError::IllegalOwner)
            &&& (taker_ata_a.owner@ == taker@ && taker_ata_b.owner@ == taker@ && v is Err) ==> v
                == Err::<(), ProgramError>(ProgramError::InvalidAccountData)
        }),
{
}

/// The maker's account must be of the asked mint: a take whose maker
/// account is of another mint is refused, whatever else holds.
pub proof fn lemma_take_refuses_maker_account_of_other_mint(
    taker: Pubkey,
    mint_a: Pubkey,
    mint_b: Pubkey,
    taker_ata_a: TokenAccountKeys,
    taker_ata_b: TokenAccountKeys,
    maker_ata: TokenAccountKeys,
    escrow: Pubkey,
    bump: u8,
)
    requires
        maker_ata.mint@ != mint_b@,
    ensures
        take_verdict(taker, mint_a, mint_b, taker_ata_a, taker_ata_b, maker_ata, escrow, bump) is Err,
{
}

} // verus!
