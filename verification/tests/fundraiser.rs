use sol_programs::error::{FundraiserError, ProgramError};
use sol_programs::fundraiser_flow::{
    apply_contribution, check_checker_accounts, check_contribute_accounts,
    check_amount_to_raise, check_contribution_size, check_contribution_window,
    check_initialize_accounts, decide_contribution, owned_by,
    lamports_after_close, needs_contributor_account, payout_amount, pow10_u32,
    write_new_contributor, write_new_fundraiser, FUNDRAISER_PROGRAM_ID, SECONDS_TO_DAY,
};
use sol_programs::fundraiser_ix::{
    decode_instruction, ContributeIxData, InitializeIxData, ProgramInstruction,
};
use sol_programs::fundraiser_state::{Contributor, Fundraiser};

fn sample_fundraiser() -> Fundraiser {
    Fundraiser {
        is_initialized: true,
        maker: [3u8; 32],
        mint_to_raise: [9u8; 32],
        amount_to_raise: 1_000_000_000,
        current_amount: 250_000_000,
        time_started: 1_700_000_000,
        duration: 7,
        bump: 254,
    }
}

#[test]
fn error_codes_follow_declaration_order() {
    let all = [
        FundraiserError::TargetNotMet,
        FundraiserError::TargetMet,
        FundraiserError::ContributionTooBig,
        FundraiserError::ContributionTooSmall,
        FundraiserError::MaximumContributionsReached,
        FundraiserError::FundraiserNotEnded,
        FundraiserError::FundraiserEnded,
        FundraiserError::InvalidAmount,
    ];
    for (i, e) in all.iter().enumerate() {
        assert_eq!(e.code(), i as u32);
        assert_eq!(ProgramError::from(*e), ProgramError::Custom(i as u32));
    }
}

#[test]
fn fundraiser_store_then_load_gives_it_back() {
    let f = sample_fundraiser();
    let mut data = vec![0xAAu8; Fundraiser::LEN];
    f.store(&mut data);
    let g = Fundraiser::load(&data).unwrap();
    assert!(g.is_initialized);
    assert_eq!(g.maker, f.maker);
    assert_eq!(g.mint_to_raise, f.mint_to_raise);
    assert_eq!(g.amount_to_raise, f.amount_to_raise);
    assert_eq!(g.current_amount, f.current_amount);
    assert_eq!(g.time_started, f.time_started);
    assert_eq!(g.duration, f.duration);
    assert_eq!(g.bump, f.bump);
    // Padding is left as it was.
    for j in 65..72 {
        assert_eq!(data[j], 0xAA);
    }
    for j in 98..104 {
        assert_eq!(data[j], 0xAA);
    }
    // Exact bytes of some fields.
    assert_eq!(data[0], 1);
    assert_eq!(&data[72..80], &1_000_000_000u64.to_le_bytes());
    assert_eq!(&data[88..96], &1_700_000_000i64.to_le_bytes());
    assert_eq!(data[96], 7);
    assert_eq!(data[97], 254);
}

#[test]
fn fundraiser_negative_time_round_trips() {
    let mut f = sample_fundraiser();
    f.time_started = -5;
    let mut data = vec![0u8; Fundraiser::LEN];
    f.store(&mut data);
    assert_eq!(Fundraiser::load(&data).unwrap().time_started, -5);
}

#[test]
fn fundraiser_load_errors() {
    assert_eq!(
        Fundraiser::load(&[0u8; 10]).unwrap_err(),
        ProgramError::InvalidAccountData
    );
    assert_eq!(
        Fundraiser::load(&[0u8; Fundraiser::LEN]).unwrap_err(),
        ProgramError::UninitializedAccount
    );
    assert!(Fundraiser::load_unchecked(&[0u8; Fundraiser::LEN]).is_ok());
    assert_eq!(
        Fundraiser::load_unchecked(&[0u8; 105]).unwrap_err(),
        ProgramError::InvalidAccountData
    );
}

#[test]
fn fundraiser_initialize_sets_every_field() {
    let mut f = Fundraiser::load_unchecked(&[0u8; Fundraiser::LEN]).unwrap();
    f.initialize([1u8; 32], [2u8; 32], 500, 30, 251, 42);
    assert!(f.is_initialized());
    assert_eq!(f.maker, [1u8; 32]);
    assert_eq!(f.mint_to_raise, [2u8; 32]);
    assert_eq!(f.amount_to_raise, 500);
    assert_eq!(f.current_amount, 0);
    assert_eq!(f.time_started, 42);
    assert_eq!(f.duration, 30);
    assert_eq!(f.bump, 251);
}

#[test]
fn contributor_round_trip_and_initialize() {
    let mut c = Contributor::load_unchecked(&[0u8; Contributor::LEN]).unwrap();
    assert!(!c.is_initialized());
    c.initialize(77);
    assert!(c.is_initialized);
    assert_eq!(c.amount, 77);
    let mut data = vec![5u8; Contributor::LEN];
    c.store(&mut data);
    assert_eq!(data[0], 1);
    assert_eq!(&data[1..8], &[5u8; 7]);
    assert_eq!(&data[8..16], &77u64.to_le_bytes());
    let d = Contributor::load(&data).unwrap();
    assert_eq!(d.amount, 77);
    assert_eq!(
        Contributor::load(&[0u8; Contributor::LEN]).unwrap_err(),
        ProgramError::UninitializedAccount
    );
    assert_eq!(
        Contributor::load(&[1u8; 15]).unwrap_err(),
        ProgramError::InvalidAccountData
    );
}

#[test]
fn instruction_data_round_trip() {
    let ix = InitializeIxData { amount: 123_456, duration: 14, bump: 250 };
    let bytes = ix.to_bytes();
    assert_eq!(bytes.len(), 16);
    assert_eq!(&bytes[10..16], &[0u8; 6]);
    assert_eq!(InitializeIxData::parse(&bytes).unwrap(), ix);
    assert_eq!(
        InitializeIxData::parse(&bytes[..15]).unwrap_err(),
        ProgramError::InvalidInstructionData
    );
    let cx = ContributeIxData { amount: 9, fundraiser_bump: 1, contributor_bump: 2 };
    let cbytes = cx.to_bytes();
    assert_eq!(cbytes[0], 9);
    assert_eq!(cbytes[8], 1);
    assert_eq!(cbytes[9], 2);
    assert_eq!(ContributeIxData::parse(&cbytes).unwrap(), cx);
    assert_eq!(
        ContributeIxData::parse(&[0u8; 17]).unwrap_err(),
        ProgramError::InvalidInstructionData
    );
}

#[test]
fn instruction_selection() {
    let (i, rest) = decode_instruction(&[1, 8, 9]).unwrap();
    assert_eq!(i, ProgramInstruction::Contribute);
    assert_eq!(rest, &[8, 9]);
    assert_eq!(decode_instruction(&[0]).unwrap().0, ProgramInstruction::Initialize);
    assert_eq!(decode_instruction(&[2]).unwrap().0, ProgramInstruction::CheckContribution);
    assert_eq!(decode_instruction(&[3]).unwrap().0, ProgramInstruction::Refund);
    assert_eq!(decode_instruction(&[4]).unwrap_err(), ProgramError::InvalidInstructionData);
    assert_eq!(decode_instruction(&[]).unwrap_err(), ProgramError::InvalidInstructionData);
    for t in 0u8..4 {
        assert_eq!(ProgramInstruction::decode(t).unwrap().tag(), t);
    }
}

#[test]
fn initialize_account_checks_in_order() {
    assert_eq!(check_initialize_accounts(5, true, true), Err(ProgramError::InvalidAccountData));
    assert_eq!(
        check_initialize_accounts(6, false, false),
        Err(ProgramError::MissingRequiredSignature)
    );
    assert_eq!(
        check_initialize_accounts(7, true, false),
        Err(ProgramError::AccountAlreadyInitialized)
    );
    assert_eq!(check_initialize_accounts(6, true, true), Ok(()));
}

#[test]
fn new_fundraiser_is_written() {
    let ix = InitializeIxData { amount: 10_000, duration: 3, bump: 200 };
    let mut data = vec![0u8; Fundraiser::LEN];
    let f = write_new_fundraiser(&mut data, [4u8; 32], [5u8; 32], &ix, 99).unwrap();
    assert_eq!(f.current_amount, 0);
    let g = Fundraiser::load(&data).unwrap();
    assert_eq!(g.maker, [4u8; 32]);
    assert_eq!(g.mint_to_raise, [5u8; 32]);
    assert_eq!(g.amount_to_raise, 10_000);
    assert_eq!(g.time_started, 99);
    assert_eq!(g.duration, 3);
    assert_eq!(g.bump, 200);
    let mut short = vec![7u8; 20];
    assert_eq!(
        write_new_fundraiser(&mut short, [4u8; 32], [5u8; 32], &ix, 99).unwrap_err(),
        ProgramError::InvalidAccountData
    );
    assert_eq!(short, vec![7u8; 20]);
}

#[test]
fn contribute_account_checks() {
    assert_eq!(check_contribute_accounts(7, true), Err(ProgramError::InvalidAccountData));
    assert_eq!(check_contribute_accounts(9, true), Err(ProgramError::InvalidAccountData));
    assert_eq!(check_contribute_accounts(8, false), Err(ProgramError::MissingRequiredSignature));
    assert_eq!(check_contribute_accounts(8, true), Ok(()));
}

#[test]
fn contributor_record_creation() {
    assert!(needs_contributor_account(true, &FUNDRAISER_PROGRAM_ID));
    assert!(needs_contributor_account(false, &[0u8; 32]));
    assert!(!needs_contributor_account(false, &FUNDRAISER_PROGRAM_ID));
    let mut data = vec![0u8; Contributor::LEN];
    let c = write_new_contributor(&mut data, 5_000).unwrap();
    assert_eq!(c.amount, 5_000);
    assert_eq!(Contributor::load(&data).unwrap().amount, 5_000);
    let mut wrong = vec![0u8; 3];
    assert_eq!(write_new_contributor(&mut wrong, 1).unwrap_err(), ProgramError::InvalidAccountData);
}

#[test]
fn powers_of_ten() {
    assert_eq!(pow10_u32(0), 1);
    assert_eq!(pow10_u32(6), 1_000_000);
    assert_eq!(pow10_u32(9), 1_000_000_000);
}

#[test]
fn contribution_size_limits() {
    let f = sample_fundraiser(); // cap: 100_000_000
    assert_eq!(
        check_contribution_size(&f, 999_999, 6),
        Err(FundraiserError::ContributionTooSmall)
    );
    assert_eq!(check_contribution_size(&f, 1_000_000, 6), Ok(()));
    assert_eq!(check_contribution_size(&f, 100_000_000, 6), Ok(()));
    assert_eq!(
        check_contribution_size(&f, 100_000_001, 6),
        Err(FundraiserError::ContributionTooBig)
    );
    // Rounding down of the cap: 10% of 1_005 is 100.
    let mut g = f;
    g.amount_to_raise = 1_005;
    assert_eq!(check_contribution_size(&g, 100, 0), Ok(()));
    assert_eq!(check_contribution_size(&g, 101, 0), Err(FundraiserError::ContributionTooBig));
}

#[test]
fn contribution_window_and_cap() {
    let f = sample_fundraiser(); // 7 days, cap 100_000_000
    let start = f.time_started;
    assert_eq!(check_contribution_window(&f, 0, 5, start), Ok(()));
    assert_eq!(
        check_contribution_window(&f, 0, 5, start + 7 * SECONDS_TO_DAY + SECONDS_TO_DAY - 1),
        Ok(())
    );
    assert_eq!(
        check_contribution_window(&f, 0, 5, start + 8 * SECONDS_TO_DAY),
        Err(FundraiserError::FundraiserEnded)
    );
    // Clock behind the start: days round toward zero.
    assert_eq!(check_contribution_window(&f, 0, 5, start - SECONDS_TO_DAY + 1), Ok(()));
    // Day counts are taken modulo 256.
    assert_eq!(check_contribution_window(&f, 0, 5, start + 256 * SECONDS_TO_DAY), Ok(()));
    // The contributor's total with the new amount may not pass the cap.
    assert_eq!(
        check_contribution_window(&f, 100_000_001, 1, start),
        Err(FundraiserError::MaximumContributionsReached)
    );
    assert_eq!(
        check_contribution_window(&f, 100_000_000, 50_000_000, start),
        Err(FundraiserError::MaximumContributionsReached)
    );
    assert_eq!(
        check_contribution_window(&f, 60_000_000, 40_000_001, start),
        Err(FundraiserError::MaximumContributionsReached)
    );
    // Reaching the cap exactly is accepted.
    assert_eq!(check_contribution_window(&f, 60_000_000, 40_000_000, start), Ok(()));
    // No overflow on huge totals: refused.
    assert_eq!(
        check_contribution_window(&f, u64::MAX, 1, start),
        Err(FundraiserError::MaximumContributionsReached)
    );
}

#[test]
fn applying_a_contribution() {
    let mut f = sample_fundraiser();
    let mut c = Contributor { is_initialized: true, amount: 10 };
    apply_contribution(&mut f, &mut c, 1_000_000);
    assert_eq!(f.current_amount, 251_000_000);
    assert_eq!(c.amount, 1_000_010);
    assert_eq!(f.amount_to_raise, 1_000_000_000);
}

#[test]
fn checker_flow() {
    assert_eq!(check_checker_accounts(6, true), Err(ProgramError::InvalidAccountData));
    assert_eq!(check_checker_accounts(7, false), Err(ProgramError::MissingRequiredSignature));
    assert_eq!(check_checker_accounts(8, true), Ok(()));
    let mut f = sample_fundraiser();
    assert_eq!(payout_amount(&f), Err(FundraiserError::TargetNotMet));
    f.current_amount = f.amount_to_raise;
    assert_eq!(payout_amount(&f), Ok(1_000_000_000));
    f.current_amount = f.amount_to_raise + 5;
    assert_eq!(payout_amount(&f), Ok(1_000_000_005));
    assert_eq!(lamports_after_close(10, 32), 42);
    // A fresh fundraiser with a positive target has not met it.
    let mut g = f;
    g.initialize([0u8; 32], [0u8; 32], 1, 1, 1, 0);
    assert_eq!(payout_amount(&g), Err(FundraiserError::TargetNotMet));
}

#[test]
fn program_id_matches_its_text() {
    assert_eq!(
        FUNDRAISER_PROGRAM_ID,
        pinocchio_pubkey::from_str("8PUUQdLNp2KBgKSRyaWX8n5EEsfh1oRAYNCXJ6n1QqxG")
    );
}

#[test]
fn defaults_are_zero() {
    let f = Fundraiser::default();
    assert!(!f.is_initialized);
    assert_eq!(f.maker, [0u8; 32]);
    assert_eq!(f.amount_to_raise, 0);
    assert_eq!(f.current_amount, 0);
    let c = Contributor::default();
    assert_eq!(c, Contributor { is_initialized: false, amount: 0 });
    assert_eq!(InitializeIxData::default(), InitializeIxData { amount: 0, duration: 0, bump: 0 });
    assert_eq!(
        ContributeIxData::default(),
        ContributeIxData { amount: 0, fundraiser_bump: 0, contributor_bump: 0 }
    );
}

#[test]
fn stored_fundraiser_equals_loaded_one() {
    let f = sample_fundraiser();
    let mut data = vec![0u8; Fundraiser::LEN];
    f.store(&mut data);
    assert_eq!(Fundraiser::load(&data).unwrap(), f);
}

#[test]
fn amount_to_raise_must_exceed_three() {
    for a in 0..=3u64 {
        assert_eq!(check_amount_to_raise(a), Err(FundraiserError::InvalidAmount));
    }
    assert_eq!(check_amount_to_raise(4), Ok(()));
    assert_eq!(check_amount_to_raise(u64::MAX), Ok(()));
    assert_eq!(ProgramError::from(FundraiserError::InvalidAmount), ProgramError::Custom(7));
}

#[test]
fn token_account_owner_check() {
    assert!(owned_by(&[4u8; 32], &[4u8; 32]));
    let mut other = [4u8; 32];
    other[31] = 5;
    assert!(!owned_by(&other, &[4u8; 32]));
}

#[test]
fn whole_contribution_decision() {
    let f = sample_fundraiser(); // cap 100_000_000, 6 decimals minimum 1_000_000
    let now = f.time_started + 1;
    // Existing record: both totals grow.
    let rec = Contributor { is_initialized: true, amount: 10_000_000 };
    let (g, c) = decide_contribution(&f, Some(rec), 5_000_000, 6, now).unwrap();
    assert_eq!(g.current_amount, 255_000_000);
    assert_eq!(c.amount, 15_000_000);
    // A record created for this contribution starts at the amount, then adds it.
    let (g, c) = decide_contribution(&f, None, 5_000_000, 6, now).unwrap();
    assert_eq!(g.current_amount, 255_000_000);
    assert_eq!(c, Contributor { is_initialized: true, amount: 10_000_000 });
    // Errors in order.
    assert_eq!(
        decide_contribution(&f, None, 999_999, 6, now).unwrap_err(),
        FundraiserError::ContributionTooSmall
    );
    assert_eq!(
        decide_contribution(&f, None, 100_000_001, 6, now).unwrap_err(),
        FundraiserError::ContributionTooBig
    );
    assert_eq!(
        decide_contribution(&f, None, 1_000_000, 6, now + 8 * SECONDS_TO_DAY).unwrap_err(),
        FundraiserError::FundraiserEnded
    );
    let full = Contributor { is_initialized: true, amount: 100_000_000 };
    assert_eq!(
        decide_contribution(&f, Some(full), 1_000_000, 6, now).unwrap_err(),
        FundraiserError::MaximumContributionsReached
    );
    // A new record is checked against nothing given before, then holds
    // the amount twice.
    let (_, c) = decide_contribution(&f, None, 60_000_000, 6, now).unwrap();
    assert_eq!(c.amount, 120_000_000);
    let (_, c) = decide_contribution(&f, None, 100_000_000, 6, now).unwrap();
    assert_eq!(c.amount, 200_000_000);
    // An existing record over half the cap is refused more than the rest.
    let half = Contributor { is_initialized: true, amount: 60_000_000 };
    assert_eq!(
        decide_contribution(&f, Some(half), 40_000_001, 6, now).unwrap_err(),
        FundraiserError::MaximumContributionsReached
    );
}

#[test]
fn second_initialize_is_refused() {
    let ix = InitializeIxData { amount: 10_000, duration: 3, bump: 200 };
    let mut data = vec![0u8; Fundraiser::LEN];
    write_new_fundraiser(&mut data, [4u8; 32], [5u8; 32], &ix, 99).unwrap();
    let before = data.clone();
    assert_eq!(
        check_initialize_accounts(6, true, data.is_empty()),
        Err(ProgramError::AccountAlreadyInitialized)
    );
    assert_eq!(data, before);
}
