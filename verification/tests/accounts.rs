use sol_programs::user_account::{
    user_account_address, CloseUser, FetchRandomness, UserAccount, UPDATE_DISCRIMINATOR,
    USER_PROGRAM_ID, USER_SEED,
};
use sol_programs::whitelist::{
    find_entry_bump, find_mint_entry_bump, mint_entry_address, whitelist_address, AddAccount,
    InitializeWhitelist, RemoveAccount, Whitelist, WhitelistEntry, WHITELIST_PROGRAM_ID,
    WHITELIST_SEED,
};

const USER: [u8; 32] = [7u8; 32];
const EXPECTED_USER_ACCOUNT: [u8; 32] = [
    47, 214, 190, 30, 205, 240, 173, 108, 22, 243, 128, 142, 32, 103, 46, 34, 60, 239, 133, 225,
    19, 207, 249, 94, 210, 231, 191, 167, 201, 212, 112, 103,
];
// The address for bump 253, which lies on the curve.
const USER_ACCOUNT_ON_CURVE: [u8; 32] = [
    61, 243, 152, 34, 22, 153, 105, 2, 224, 61, 14, 201, 210, 193, 243, 140, 103, 124, 34, 190,
    114, 128, 122, 124, 112, 79, 144, 201, 25, 88, 9, 16,
];
// Entry addresses for bumps 254 (on the curve) and 252 (off it).
const WHITELIST_ON_CURVE: [u8; 32] = [
    107, 215, 199, 192, 12, 214, 168, 204, 236, 231, 61, 32, 120, 242, 215, 134, 28, 129, 141,
    251, 221, 116, 212, 102, 100, 49, 78, 174, 32, 151, 224, 104,
];
const WHITELIST_252: [u8; 32] = [
    32, 105, 82, 19, 45, 42, 149, 42, 219, 75, 161, 108, 17, 197, 74, 201, 47, 124, 169, 30, 163,
    58, 50, 84, 178, 94, 117, 95, 1, 183, 94, 254,
];
// Entry address for mint [5; 32], user [7; 32] and bump 255 (off the curve).
const MINT_ENTRY_255: [u8; 32] = [
    86, 214, 236, 130, 159, 20, 80, 57, 231, 82, 151, 227, 193, 140, 246, 148, 165, 49, 181, 182,
    61, 209, 37, 151, 115, 168, 242, 115, 247, 18, 130, 70,
];
// Entry address for bump 252 (off the curve, but not canonical).
const MINT_ENTRY_252: [u8; 32] = [
    194, 116, 251, 65, 101, 16, 102, 229, 196, 37, 217, 186, 155, 240, 213, 90, 113, 87, 73, 205,
    114, 18, 31, 126, 68, 67, 136, 163, 8, 214, 204, 136,
];
const EXPECTED_WHITELIST: [u8; 32] = [
    145, 16, 149, 225, 120, 194, 217, 46, 140, 207, 247, 6, 106, 85, 13, 29, 200, 173, 219, 180,
    175, 182, 228, 21, 163, 83, 125, 135, 99, 233, 31, 60,
];

#[test]
fn account_constants() {
    assert_eq!(&USER_SEED, b"user");
    assert_eq!(&WHITELIST_SEED, b"whitelist");
    assert_eq!(UserAccount::INIT_SPACE, 49);
    assert_eq!(Whitelist::SPACE, 41);
    assert_eq!(
        USER_PROGRAM_ID,
        pinocchio_pubkey::from_str("F3H1NHuNn35n5R1Cus2uzCraBJfg772ogTdwoyNGJYfz")
    );
    assert_eq!(
        WHITELIST_PROGRAM_ID,
        pinocchio_pubkey::from_str("Hpj96iQNXfgX8umTeUMGBhjcpN5wmb8htRuhTjs8ngFX")
    );
}

#[test]
fn user_account_address_and_close() {
    assert_eq!(user_account_address(&USER, 255), EXPECTED_USER_ACCOUNT);
    let mut ok = CloseUser { user: USER, user_account: EXPECTED_USER_ACCOUNT, bump: 255 };
    assert!(ok.accounts_valid());
    assert!(ok.close().is_ok());
    let bad = CloseUser { user: USER, user_account: EXPECTED_USER_ACCOUNT, bump: 254 };
    assert!(!bad.accounts_valid());
    // The derived address for bump 253 lies on the curve: no program address.
    assert_eq!(user_account_address(&USER, 253), USER_ACCOUNT_ON_CURVE);
    let on_curve = CloseUser { user: USER, user_account: USER_ACCOUNT_ON_CURVE, bump: 253 };
    assert!(!on_curve.accounts_valid());
}

#[test]
fn randomness_request_contents() {
    let fetch = FetchRandomness {
        user: USER,
        user_account: EXPECTED_USER_ACCOUNT,
        bump: 255,
        oracle_queue: [3u8; 32],
    };
    assert!(fetch.accounts_valid());
    let req = fetch.handler(42);
    assert_eq!(req.payer, USER);
    assert_eq!(req.oracle_queue, [3u8; 32]);
    assert_eq!(req.callback_program_id, USER_PROGRAM_ID);
    assert_eq!(req.callback_discriminator, UPDATE_DISCRIMINATOR.to_vec());
    assert_eq!(req.caller_seed, [42u8; 32]);
    assert_eq!(req.callback_accounts.len(), 1);
    assert_eq!(req.callback_accounts[0].pubkey, USER);
    assert!(!req.callback_accounts[0].is_signer);
    assert!(req.callback_accounts[0].is_writable);
}

#[test]
fn whitelist_add_and_remove() {
    assert_eq!(whitelist_address(&USER, 253), EXPECTED_WHITELIST);
    assert_eq!(whitelist_address(&USER, 254), WHITELIST_ON_CURVE);
    assert_eq!(whitelist_address(&USER, 252), WHITELIST_252);
    // Bumps 255 and 254 give addresses on the curve: the canonical bump is 253.
    assert_eq!(find_entry_bump(&USER), Some(253));
    let mut add = AddAccount {
        admin: [1u8; 32],
        user: USER,
        whitelist: EXPECTED_WHITELIST,
        entry: Whitelist { user_address: [0u8; 32], bump: 0 },
    };
    assert_eq!(add.entry_bump(), Some(253));
    // An account at a non-canonical bump's address is refused.
    let other = AddAccount { whitelist: WHITELIST_252, ..add };
    assert_eq!(other.entry_bump(), None);
    assert!(add.add_account([5u8; 32], 253).is_ok());
    assert_eq!(add.entry.user_address, [5u8; 32]);
    assert_eq!(add.entry.bump, 253);
    let remove = RemoveAccount { admin: add.admin, user: USER, whitelist: add.whitelist, entry: add.entry };
    assert!(remove.accounts_valid());
    // A stored bump whose address lies on the curve is refused.
    let on_curve = RemoveAccount {
        whitelist: WHITELIST_ON_CURVE,
        entry: Whitelist { user_address: [5u8; 32], bump: 254 },
        ..remove
    };
    assert!(!on_curve.accounts_valid());
    // A stored bump off the curve but not canonical still matches its address.
    let stored_252 = RemoveAccount {
        whitelist: WHITELIST_252,
        entry: Whitelist { user_address: [5u8; 32], bump: 252 },
        ..remove
    };
    assert!(stored_252.accounts_valid());
    assert!(RemoveAccount::remove_account().is_ok());
}

#[test]
fn whitelist_for_a_mint() {
    let mint = [5u8; 32];
    assert_eq!(WhitelistEntry::SPACE, 73);
    assert_eq!(mint_entry_address(&mint, &USER, 255), MINT_ENTRY_255);
    assert_eq!(mint_entry_address(&mint, &USER, 252), MINT_ENTRY_252);
    assert_eq!(find_mint_entry_bump(&mint, &USER), Some(255));
    let mut init = InitializeWhitelist {
        admin: [1u8; 32],
        user: USER,
        mint,
        whitelist: MINT_ENTRY_255,
        entry: WhitelistEntry { user: [0u8; 32], mint: [0u8; 32], bump: 0 },
    };
    let bump = init.whitelist_bump().unwrap();
    assert_eq!(bump, 255);
    assert!(init.initialize_whitelist(bump).is_ok());
    assert_eq!(init.entry.user, USER);
    assert_eq!(init.entry.mint, mint);
    assert_eq!(init.entry.bump, 255);
    let wrong = InitializeWhitelist { whitelist: MINT_ENTRY_252, ..init };
    assert_eq!(wrong.whitelist_bump(), None);
}
