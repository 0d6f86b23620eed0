//! A jackpot-round library: participants pool deposits into numbered rounds,
//! a weighted random draw picks a winner in proportion to each participant's
//! share, and the winner claims the pooled total.
//!
//! The round ledger, fee accounting and winner selection are verified; the
//! randomness itself comes from an external oracle whose account data is read
//! through a small trusted boundary.

pub mod config;
pub mod errors;
pub mod gameground;
pub mod instructions;
pub mod misc;
pub mod pubkey;
pub mod utils;

pub use instructions::{claim_reward, configure, create_game, join_game, set_winner};
