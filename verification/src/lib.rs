//! Verified logic of a handful of small Solana programs: a fundraiser, a
//! token escrow, a per-user account with randomness requests and a
//! transfer-hook whitelist.
pub mod error;
pub mod layout;
pub mod fundraiser_state;
pub mod fundraiser_ix;
pub mod fundraiser_flow;
pub mod address;
pub mod escrow;
pub mod user_account;
pub mod whitelist;
