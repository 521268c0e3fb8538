//! The decisions of the fundraiser program's instructions.
//!
//! Each instruction reads accounts, asks the runtime for the time or the
//! rent, and invokes the token and system programs; between those steps it
//! decides. The functions here are those decisions, in the order in which
//! the instructions take them.
use vstd::prelude::*;
use crate::error::{FundraiserError, ProgramError};
use crate::fundraiser_ix::InitializeIxData;
use crate::fundraiser_state::{Contributor, Fundraiser};
use crate::address::keys_equal;
use crate::layout::Pubkey;

verus! {

/// Seconds in a day.
pub const SECONDS_TO_DAY: i64 = 86400;

/// A single contribution may be at most this percentage of the amount to
/// raise.
pub const MAX_CONTRIBUTION_PERCENTAGE: u64 = 10;

/// The scale of [`MAX_CONTRIBUTION_PERCENTAGE`].
pub const PERCENTAGE_SCALER: u64 = 100;

/// The fundraiser program's address.
pub const FUNDRAISER_PROGRAM_ID: Pubkey = [
    109, 195, 166, 75, 47, 220, 244, 177, 102, 40, 24, 40, 91, 219, 180, 77, 35, 64, 96, 195, 152,
    146, 203, 82, 145, 18, 147, 133, 118, 193, 243, 189,
];

/// Accounts an initialize instruction needs at least: maker, mint, fundraiser,
/// vault, system program, token program.
pub const INITIALIZE_ACCOUNTS: usize = 6;

/// Accounts a contribute instruction takes, exactly: contributor, mint,
/// fundraiser, contributor record, contributor token account, vault, token
/// program, system program.
pub const CONTRIBUTE_ACCOUNTS: usize = 8;

/// Accounts a check-contribution instruction needs at least: maker, mint,
/// fundraiser, vault, maker token account, token program, system program.
pub const CHECK_ACCOUNTS: usize = 7;

/// Ten to the power `n`.
pub open spec fn pow10(n: nat) -> nat
    decreases n,
{
    if n == 0 {
        1
    } else {
        10 * pow10((n - 1) as nat)
    }
}

/// The largest contribution allowed: the percentage cap of the amount to
/// raise, rounded down.
pub open spec fn contribution_cap(amount_to_raise: u64) -> int {
    (amount_to_raise * MAX_CONTRIBUTION_PERCENTAGE) as int / PERCENTAGE_SCALER as int
}

/// Whole days between `time_started` and `now`, rounded toward zero.
pub open spec fn elapsed_days(now: i64, time_started: i64) -> int {
    let elapsed = now - time_started;
    if elapsed >= 0 {
        elapsed / SECONDS_TO_DAY as int
    } else {
        -((-elapsed) / SECONDS_TO_DAY as int)
    }
}

/// Whether the contributor record must first be created: its account has
/// no data or belongs to another program.
pub open spec fn spec_needs_contributor_account(data_is_empty: bool, owner: Pubkey) -> bool {
    data_is_empty || owner != FUNDRAISER_PROGRAM_ID
}

/// The error, if any, that a contribution of `amount` meets; `None` when it
/// is accepted. The checks come in this order: too small (under one whole
/// token of the mint), too big (over the cap), too late (more whole days
/// elapsed, taken modulo 256, than the duration), then the contributor's
/// total with this contribution over the cap (the most a contributor may
/// give). `recorded_before` is what the contributor had given before this
/// contribution: nothing for a record created for it.
pub open spec fn contribution_error(
    fundraiser: Fundraiser,
    recorded_before: u64,
    amount: u64,
    decimals: u8,
    now: i64,
) -> Option<FundraiserError> {
    let cap = contribution_cap(fundraiser.amount_to_raise);
    if amount < pow10(decimals as nat) {
        Some(FundraiserError::ContributionTooSmall)
    } else if amount > cap {
        Some(FundraiserError::ContributionTooBig)
    } else if fundraiser.duration < (elapsed_days(now, fundraiser.time_started) as u8) {
        Some(FundraiserError::FundraiserEnded)
    } else if recorded_before + amount > cap {
        Some(FundraiserError::MaximumContributionsReached)
    } else {
        None
    }
}

/// `10^decimals` for the decimals that fit a `u32` power of ten.
pub fn pow10_u32(decimals: u8) -> (p: u32)
    requires
        decimals <= 9,
    ensures
        p == pow10(decimals as nat),
{
    proof {
        reveal_with_fuel(pow10, 10);
    }
    match decimals {
        0 => 1,
        1 => 10,
        2 => 100,
        3 => 1_000,
        4 => 10_000,
        5 => 100_000,
        6 => 1_000_000,
        7 => 10_000_000,
        8 => 100_000_000,
        _ => 1_000_000_000,
    }
}

/// The verdict on the accounts of an initialize instruction: too few
/// accounts, then a maker who does not sign, then a fundraiser account that
/// already holds data are refused, in this order.
pub open spec fn initialize_accounts_verdict(
    n_accounts: usize,
    maker_is_signer: bool,
    fundraiser_is_empty: bool,
) -> Result<(), ProgramError> {
    if n_accounts < INITIALIZE_ACCOUNTS {
        Err(ProgramError::InvalidAccountData)
    } else if !maker_is_signer {
        Err(ProgramError::MissingRequiredSignature)
    } else if !fundraiser_is_empty {
        Err(ProgramError::AccountAlreadyInitialized)
    } else {
        Ok(())
    }
}

/// Checks the accounts of an initialize instruction: enough of them, the
/// maker signs, the fundraiser account is still empty.
pub fn check_initialize_accounts(
    n_accounts: usize,
    maker_is_signer: bool,
    fundraiser_is_empty: bool,
) -> (r: Result<(), ProgramError>)
    ensures
        r == initialize_accounts_verdict(n_accounts, maker_is_signer, fundraiser_is_empty),
{
    if n_accounts < INITIALIZE_ACCOUNTS {
        return Err(ProgramError::InvalidAccountData);
    }
    if !maker_is_signer {
        return Err(ProgramError::MissingRequiredSignature);
    }
    if !fundraiser_is_empty {
        return Err(ProgramError::AccountAlreadyInitialized);
    }
    Ok(())
}

/// The largest amount to raise that is refused: a fundraiser must aim for
/// more than this.
pub const MIN_AMOUNT_TO_RAISE: u64 = 3;

/// Checks the amount a new fundraiser aims for: it must be bigger than 3.
pub fn check_amount_to_raise(amount: u64) -> (r: Result<(), FundraiserError>)
    ensures
        r == (if amount <= MIN_AMOUNT_TO_RAISE {
            Err(FundraiserError::InvalidAmount)
        } else {
            Ok(())
        }),
{
    if amount <= MIN_AMOUNT_TO_RAISE {
        return Err(FundraiserError::InvalidAmount);
    }
    Ok(())
}

/// Whether a token account is owned by `expected`: the vault by the
/// fundraiser, the contributor's token account by the contributor.
pub fn owned_by(account_owner: &Pubkey, expected: &Pubkey) -> (b: bool)
    ensures
        b == (account_owner@ == expected@),
{
    keys_equal(account_owner, expected)
}

/// The fundraiser that an initialize instruction sets up: initialized,
/// raising `ix.amount` of `mint_to_raise` for `maker` over `ix.duration`
/// days from `now`, nothing raised yet.
pub open spec fn new_fundraiser(
    maker: Pubkey,
    mint_to_raise: Pubkey,
    ix: InitializeIxData,
    now: i64,
) -> Fundraiser {
    Fundraiser {
        is_initialized: true,
        maker,
        mint_to_raise,
        amount_to_raise: ix.amount,
        current_amount: 0,
        time_started: now,
        duration: ix.duration,
        bump: ix.bump,
    }
}

/// Writes a new fundraiser into the freshly created fundraiser account:
/// initialized, raising `ix.amount` of `mint_to_raise` for `maker` over
/// `ix.duration` days from `now`, nothing raised yet. Fails, leaving the
/// data as it was, when the account is not of the fundraiser's size.
pub fn write_new_fundraiser(
    data: &mut [u8],
    maker: Pubkey,
    mint_to_raise: Pubkey,
    ix: &InitializeIxData,
    now: i64,
) -> (r: Result<Fundraiser, ProgramError>)
    ensures
        match r {
            Ok(f) => {
                &&& old(data)@.len() == Fundraiser::LEN
                &&& f == new_fundraiser(maker, mint_to_raise, *ix, now)
                &&& f.stored_in(final(data)@)
            },
            Err(e) => {
                &&& old(data)@.len() != Fundraiser::LEN
                &&& e == ProgramError::InvalidAccountData
                &&& final(data)@ == old(data)@
            },
        },
{
    let mut f = Fundraiser::load_unchecked(data)?;
    f.initialize(maker, mint_to_raise, ix.amount, ix.duration, ix.bump, now);
    f.store(data);
    Ok(f)
}

/// Checks the accounts of a contribute instruction: exactly eight of them,
/// and the contributor signs.
pub fn check_contribute_accounts(n_accounts: usize, contributor_is_signer: bool) -> (r: Result<
    (),
    ProgramError,
>)
    ensures
        r == (if n_accounts != CONTRIBUTE_ACCOUNTS {
            Err(ProgramError::InvalidAccountData)
        } else if !contributor_is_signer {
            Err(ProgramError::MissingRequiredSignature)
        } else {
            Ok(())
        }),
{
    if n_accounts != CONTRIBUTE_ACCOUNTS {
        return Err(ProgramError::InvalidAccountData);
    }
    if !contributor_is_signer {
        return Err(ProgramError::MissingRequiredSignature);
    }
    Ok(())
}

/// Whether the contributor record must first be created: its account has
/// no data or is not owned by the fundraiser program.
pub fn needs_contributor_account(data_is_empty: bool, owner: &Pubkey) -> (b: bool)
    ensures
        b == spec_needs_contributor_account(data_is_empty, *owner),
{
    if data_is_empty {
        return true;
    }
    let same = keys_equal(owner, &FUNDRAISER_PROGRAM_ID);
    proof {
        if same {
            vstd::array::axiom_array_ext_equal(*owner, FUNDRAISER_PROGRAM_ID);
        }
    }
    !same
}

/// Writes a new contributor record, initialized with `amount`, into the
/// freshly created contributor account. Fails, leaving the data as it was,
/// when the account is not of the record's size.
pub fn write_new_contributor(data: &mut [u8], amount: u64) -> (r: Result<
    Contributor,
    ProgramError,
>)
    ensures
        match r {
            Ok(c) => {
                &&& old(data)@.len() == Contributor::LEN
                &&& c == Contributor { is_initialized: true, amount }
                &&& c.stored_in(final(data)@)
            },
            Err(e) => {
                &&& old(data)@.len() != Contributor::LEN
                &&& e == ProgramError::InvalidAccountData
                &&& final(data)@ == old(data)@
            },
        },
{
    let mut c = Contributor::load_unchecked(data)?;
    c.initialize(amount);
    c.store(data);
    Ok(c)
}

/// Checks the size of a contribution: at least one whole token of a mint
/// with `decimals` decimals, at most the cap of the amount to raise.
pub fn check_contribution_size(fundraiser: &Fundraiser, amount: u64, decimals: u8) -> (r: Result<
    (),
    FundraiserError,
>)
    requires
        decimals <= 9,
        amount >= pow10(decimals as nat) ==> fundraiser.amount_to_raise
            * MAX_CONTRIBUTION_PERCENTAGE <= u64::MAX,
    ensures
        r == (if amount < pow10(decimals as nat) {
            Err(FundraiserError::ContributionTooSmall)
        } else if amount > contribution_cap(fundraiser.amount_to_raise) {
            Err(FundraiserError::ContributionTooBig)
        } else {
            Ok(())
        }),
{
    if amount < (pow10_u32(decimals) as u64) {
        return Err(FundraiserError::ContributionTooSmall);
    }
    if amount > (fundraiser.amount_to_raise * MAX_CONTRIBUTION_PERCENTAGE) / PERCENTAGE_SCALER {
        return Err(FundraiserError::ContributionTooBig);
    }
    Ok(())
}

/// Checks when and by whom a contribution comes: the fundraiser has not
/// run for more whole days than its duration (the day count taken modulo
/// 256), and the contributor's total with this contribution stays within
/// the cap, the most a contributor may give. `recorded_before` is what the
/// contributor had given before: nothing for a record created for this
/// contribution.
pub fn check_contribution_window(
    fundraiser: &Fundraiser,
    recorded_before: u64,
    amount: u64,
    now: i64,
) -> (r: Result<(), FundraiserError>)
    requires
        i64::MIN <= now - fundraiser.time_started <= i64::MAX,
        fundraiser.amount_to_raise * MAX_CONTRIBUTION_PERCENTAGE <= u64::MAX,
    ensures
        r == (if fundraiser.duration < (elapsed_days(now, fundraiser.time_started) as u8) {
            Err(FundraiserError::FundraiserEnded)
        } else if recorded_before + amount > contribution_cap(fundraiser.amount_to_raise) {
            Err(FundraiserError::MaximumContributionsReached)
        } else {
            Ok(())
        }),
{
    let days: i64 = (now - fundraiser.time_started) / SECONDS_TO_DAY;
    if fundraiser.duration < (#[verifier::truncate] (days as u8)) {
        return Err(FundraiserError::FundraiserEnded);
    }
    let cap = (fundraiser.amount_to_raise * MAX_CONTRIBUTION_PERCENTAGE) / PERCENTAGE_SCALER;
    if amount > cap || recorded_before > cap - amount {
        return Err(FundraiserError::MaximumContributionsReached);
    }
    Ok(())
}

/// Records an accepted contribution: both the contributor's total and the
/// fundraiser's grow by `amount`, nothing else changes.
pub fn apply_contribution(fundraiser: &mut Fundraiser, contributor: &mut Contributor, amount: u64)
    requires
        old(fundraiser).current_amount + amount <= u64::MAX,
        old(contributor).amount + amount <= u64::MAX,
    ensures
        *final(fundraiser) == (Fundraiser {
            current_amount: (old(fundraiser).current_amount + amount) as u64,
            ..*old(fundraiser)
        }),
        *final(contributor) == (Contributor {
            amount: (old(contributor).amount + amount) as u64,
            ..*old(contributor)
        }),
{
    contributor.amount = contributor.amount + amount;
    fundraiser.current_amount = fundraiser.current_amount + amount;
}

/// The record a contribution adds to: the existing one, or, when the
/// record has just been created for this contribution, a record that
/// already holds the amount.
pub open spec fn prior_record(record: Option<Contributor>, amount: u64) -> Contributor {
    match record {
        Some(c) => c,
        None => Contributor { is_initialized: true, amount },
    }
}

/// What the contributor had given before this contribution: the existing
/// record's amount, nothing for a record created for it.
pub open spec fn recorded_before(record: Option<Contributor>) -> u64 {
    match record {
        Some(c) => c.amount,
        None => 0,
    }
}

/// The whole decision on a contribution of `amount` to `fundraiser`, by a
/// contributor whose record is `record` (`None` when the record is created
/// for this contribution, and then starts out holding the amount): the
/// error of [`contribution_error`], with the cap checked against what the
/// contributor had given before, or the fundraiser and the record with the
/// amount added to both. A record created for the contribution thus ends up
/// holding twice the amount.
pub fn decide_contribution(
    fundraiser: &Fundraiser,
    record: Option<Contributor>,
    amount: u64,
    decimals: u8,
    now: i64,
) -> (r: Result<(Fundraiser, Contributor), FundraiserError>)
    requires
        decimals <= 9,
        amount >= pow10(decimals as nat) ==> fundraiser.amount_to_raise
            * MAX_CONTRIBUTION_PERCENTAGE <= u64::MAX,
        amount >= pow10(decimals as nat) && amount <= contribution_cap(fundraiser.amount_to_raise)
            ==> i64::MIN <= now - fundraiser.time_started <= i64::MAX,
        contribution_error(*fundraiser, recorded_before(record), amount, decimals, now) is None
            ==> fundraiser.current_amount + amount <= u64::MAX,
    ensures
        ({
            let prior = prior_record(record, amount);
            match contribution_error(*fundraiser, recorded_before(record), amount, decimals, now) {
                Some(e) => r == Err::<(Fundraiser, Contributor), FundraiserError>(e),
                None => r == Ok::<(Fundraiser, Contributor), FundraiserError>(
                    (
                        Fundraiser {
                            current_amount: (fundraiser.current_amount + amount) as u64,
                            ..*fundraiser
                        },
                        Contributor { amount: (prior.amount + amount) as u64, ..prior },
                    ),
                ),
            }
        }),
{
    let (mut c, before) = match record {
        Some(c) => (c, c.amount),
        None => {
            let mut c = Contributor::default();
            c.initialize(amount);
            (c, 0)
        },
    };
    check_contribution_size(fundraiser, amount, decimals)?;
    check_contribution_window(fundraiser, before, amount, now)?;
    assert(amount <= contribution_cap(fundraiser.amount_to_raise));
    assert(contribution_cap(fundraiser.amount_to_raise) <= u64::MAX / 10) by (nonlinear_arith)
        requires
            fundraiser.amount_to_raise * MAX_CONTRIBUTION_PERCENTAGE <= u64::MAX,
            MAX_CONTRIBUTION_PERCENTAGE == 10,
            PERCENTAGE_SCALER == 100,
    ;
    let mut f = *fundraiser;
    apply_contribution(&mut f, &mut c, amount);
    Ok((f, c))
}

/// Checks the accounts of a check-contribution instruction: enough of them,
/// and the maker signs.
pub fn check_checker_accounts(n_accounts: usize, maker_is_signer: bool) -> (r: Result<
    (),
    ProgramError,
>)
    ensures
        r == (if n_accounts < CHECK_ACCOUNTS {
            Err(ProgramError::InvalidAccountData)
        } else if !maker_is_signer {
            Err(ProgramError::MissingRequiredSignature)
        } else {
            Ok(())
        }),
{
    if n_accounts < CHECK_ACCOUNTS {
        return Err(ProgramError::InvalidAccountData);
    }
    if !maker_is_signer {
        return Err(ProgramError::MissingRequiredSignature);
    }
    Ok(())
}

/// The verdict on paying out a fundraiser: refused before the target is
/// met, otherwise all that was raised.
pub open spec fn payout_verdict(fundraiser: Fundraiser) -> Result<u64, FundraiserError> {
    if fundraiser.current_amount < fundraiser.amount_to_raise {
        Err(FundraiserError::TargetNotMet)
    } else {
        Ok(fundraiser.current_amount)
    }
}

/// The amount to pay out to the maker once the target is met: all that was
/// raised. Before the target is met the fundraiser cannot be closed.
pub fn payout_amount(fundraiser: &Fundraiser) -> (r: Result<u64, FundraiserError>)
    ensures
        r == payout_verdict(*fundraiser),
{
    if fundraiser.current_amount < fundraiser.amount_to_raise {
        return Err(FundraiserError::TargetNotMet);
    }
    Ok(fundraiser.current_amount)
}

/// The maker's lamports once the fundraiser account's lamports have been
/// moved over to it.
pub fn lamports_after_close(maker_lamports: u64, fundraiser_lamports: u64) -> (r: u64)
    requires
        maker_lamports + fundraiser_lamports <= u64::MAX,
    ensures
        r == maker_lamports + fundraiser_lamports,
{
    maker_lamports + fundraiser_lamports
}

/// A contribution that passes both checks is at least one whole token, at
/// most the cap, comes within the fundraiser's duration (days taken modulo
/// 256), and, added to what the contributor had given before, stays within
/// the cap.
pub proof fn lemma_accepted_contribution(
    fundraiser: Fundraiser,
    recorded_before: u64,
    amount: u64,
    decimals: u8,
    now: i64,
)
    requires
        contribution_error(fundraiser, recorded_before, amount, decimals, now) is None,
    ensures
        pow10(decimals as nat) <= amount <= contribution_cap(fundraiser.amount_to_raise),
        (elapsed_days(now, fundraiser.time_started) as u8) <= fundraiser.duration,
        recorded_before + amount <= contribution_cap(fundraiser.amount_to_raise),
{
}

/// Recording a contribution raises the fundraiser's total by exactly what
/// it adds to the contributor's: the difference between the two totals is
/// kept.
pub proof fn lemma_contribution_keeps_difference(
    before_fundraiser: Fundraiser,
    before_contributor: Contributor,
    after_fundraiser: Fundraiser,
    after_contributor: Contributor,
    amount: u64,
)
    requires
        after_fundraiser == (Fundraiser {
            current_amount: (before_fundraiser.current_amount + amount) as u64,
            ..before_fundraiser
        }),
        after_contributor == (Contributor {
            amount: (before_contributor.amount + amount) as u64,
            ..before_contributor
        }),
        before_fundraiser.current_amount + amount <= u64::MAX,
        before_contributor.amount + amount <= u64::MAX,
    ensures
        after_fundraiser.current_amount - after_contributor.amount
            == before_fundraiser.current_amount - before_contributor.amount,
        after_fundraiser.amount_to_raise == before_fundraiser.amount_to_raise,
{
}

/// Once a fundraiser has been written into its account, initializing it
/// again is refused with `AccountAlreadyInitialized`, whatever the other
/// accounts and data: the refusal comes from the account check, before
/// anything is created or written, so the fundraiser's data is left as it
/// was.
pub proof fn lemma_second_initialize_refused(
    f: Fundraiser,
    data: Seq<u8>,
    n_accounts: usize,
    maker_is_signer: bool,
)
    requires
        f.stored_in(data),
        n_accounts >= INITIALIZE_ACCOUNTS,
        maker_is_signer,
    ensures
        initialize_accounts_verdict(n_accounts, maker_is_signer, data.len() == 0) == Err::<
            (),
            ProgramError,
        >(ProgramError::AccountAlreadyInitialized),
{
}

/// A fundraiser whose amount passed the initialize check, just written by
/// the initialize instruction, cannot be paid out: its target is not met.
pub proof fn lemma_new_fundraiser_not_met(
    maker: Pubkey,
    mint_to_raise: Pubkey,
    ix: InitializeIxData,
    now: i64,
)
    requires
        ix.amount > MIN_AMOUNT_TO_RAISE,
    ensures
        payout_verdict(new_fundraiser(maker, mint_to_raise, ix, now)) == Err::<
            u64,
            FundraiserError,
        >(FundraiserError::TargetNotMet),
{
}

/// The time window counts whole days: a contribution made at or after the
/// start and before the end of day `duration` (that is, less than
/// `duration + 1` full days of 86400 seconds after the start) is never
/// refused as coming after the end.
pub proof fn lemma_not_ended_within_duration(
    fundraiser: Fundraiser,
    recorded_before: u64,
    amount: u64,
    decimals: u8,
    now: i64,
)
    requires
        fundraiser.time_started <= now,
        now - fundraiser.time_started < (fundraiser.duration + 1) * 86400,
    ensures
        contribution_error(fundraiser, recorded_before, amount, decimals, now) != Some(
            FundraiserError::FundraiserEnded,
        ),
{
    let e = now - fundraiser.time_started;
    assert(e / 86400 <= fundraiser.duration) by (nonlinear_arith)
        requires
            0 <= e < (fundraiser.duration + 1) * 86400,
    ;
}

/// Once `duration + 1` full days have passed since the start (and fewer
/// than 256, the range of the day count), a contribution of an accepted
/// size is refused as coming after the end.
pub proof fn lemma_ended_after_duration(
    fundraiser: Fundraiser,
    recorded_before: u64,
    amount: u64,
    decimals: u8,
    now: i64,
)
    requires
        pow10(decimals as nat) <= amount,
        amount as int * 100 <= fundraiser.amount_to_raise as int * 10,
        (fundraiser.duration + 1) * 86400 <= now - fundraiser.time_started < 256 * 86400,
    ensures
        contribution_error(fundraiser, recorded_before, amount, decimals, now) == Some(
            FundraiserError::FundraiserEnded,
        ),
{
    let e = now - fundraiser.time_started;
    let a = fundraiser.amount_to_raise as int * 10;
    assert(amount <= a / 100) by (nonlinear_arith)
        requires
            amount as int * 100 <= a,
    ;
    assert(fundraiser.duration < e / 86400 < 256) by (nonlinear_arith)
        requires
            (fundraiser.duration + 1) * 86400 <= e < 256 * 86400,
    ;
}

/// A contribution of at least one whole token, at most the cap (a tenth of
/// the amount to raise), made within the duration, and that keeps the
/// contributor's total within the cap, is accepted.
pub proof fn lemma_contribution_accepted(
    fundraiser: Fundraiser,
    recorded_before: u64,
    amount: u64,
    decimals: u8,
    now: i64,
)
    requires
        pow10(decimals as nat) <= amount,
        (recorded_before + amount) * 100 <= fundraiser.amount_to_raise as int * 10,
        fundraiser.time_started <= now,
        now - fundraiser.time_started < (fundraiser.duration + 1) * 86400,
    ensures
        contribution_error(fundraiser, recorded_before, amount, decimals, now) is None,
{
    let e = now - fundraiser.time_started;
    let a = fundraiser.amount_to_raise as int * 10;
    let t = recorded_before + amount;
    assert(t <= a / 100) by (nonlinear_arith)
        requires
            t * 100 <= a,
    ;
    assert(e / 86400 <= fundraiser.duration) by (nonlinear_arith)
        requires
            0 <= e < (fundraiser.duration + 1) * 86400,
    ;
}

/// A contribution that would bring the contributor's total over a tenth of
/// the amount to raise is never accepted.
pub proof fn lemma_contribution_over_cap_refused(
    fundraiser: Fundraiser,
    recorded_before: u64,
    amount: u64,
    decimals: u8,
    now: i64,
)
    requires
        (recorded_before + amount) * 100 > fundraiser.amount_to_raise as int * 10,
    ensures
        contribution_error(fundraiser, recorded_before, amount, decimals, now) is Some,
{
    let a = fundraiser.amount_to_raise as int * 10;
    let t = recorded_before + amount;
    assert(t > a / 100) by (nonlinear_arith)
        requires
            t * 100 > a,
            a >= 0,
    ;
}

/// Payout is allowed exactly when the amount raised has reached the amount
/// to raise, and then pays out all that was raised; below the target it is
/// refused as not met.
pub proof fn lemma_payout_exactly_when_target_met(fundraiser: Fundraiser)
    ensures
        payout_verdict(fundraiser) is Ok <==> fundraiser.current_amount >= fundraiser.amount_to_raise,
        fundraiser.current_amount < fundraiser.amount_to_raise ==> payout_verdict(fundraiser)
            == Err::<u64, FundraiserError>(FundraiserError::TargetNotMet),
        payout_verdict(fundraiser) matches Ok(x) ==> x == fundraiser.current_amount,
{
}

/// Raising more never takes a payout away: if a fundraiser can be paid out,
/// so can the same fundraiser with more raised.
pub proof fn lemma_payout_monotone(f: Fundraiser, g: Fundraiser)
    requires
        g == (Fundraiser { current_amount: g.current_amount, ..f }),
        g.current_amount >= f.current_amount,
        payout_verdict(f) is Ok,
    ensures
        payout_verdict(g) == Ok::<u64, FundraiserError>(g.current_amount),
{
}

/// Powers of ten: one at zero, and each ten times the one before.
pub proof fn lemma_pow10_steps(n: nat)
    ensures
        pow10(0) == 1,
        pow10(n + 1) == 10 * pow10(n),
{
}

/// The size checks come first: a contribution under one whole token
/// (`10^decimals` base units) is too small, and one of at least a whole
/// token but over a tenth of the amount to raise is too big, whatever the
/// time and the contributor's record.
pub proof fn lemma_contribution_size_refusals(
    fundraiser: Fundraiser,
    recorded_before: u64,
    amount: u64,
    decimals: u8,
    now: i64,
)
    ensures
        amount < pow10(decimals as nat) ==> contribution_error(
            fundraiser,
            recorded_before,
            amount,
            decimals,
            now,
        ) == Some(FundraiserError::ContributionTooSmall),
        amount >= pow10(decimals as nat) && amount as int * 100 > fundraiser.amount_to_raise as int
            * 10 ==> contribution_error(fundraiser, recorded_before, amount, decimals, now) == Some(
            FundraiserError::ContributionTooBig,
        ),
{
    let a = fundraiser.amount_to_raise as int * 10;
    assert(amount as int * 100 > a ==> amount > a / 100) by (nonlinear_arith)
        requires
            a >= 0,
    ;
}

} // verus!
