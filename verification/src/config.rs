//! The global configuration: the authority and wallet identities, the
//! platform fee rate, and the monotonically increasing round counter.

use vstd::prelude::*;
use crate::pubkey::Pubkey;

verus! {

/// Global settings. Created once, updated only by the authority.
#[derive(Clone, Copy, Debug)]
pub struct Config {
    pub authority: Pubkey,
    pub payer_wallet: Pubkey,
    pub team_wallet: Pubkey,
    pub platform_fee: u64,
    pub game_round: u64,
}

impl Config {
    /// The fee rate is a valid basis-point value.
    pub open spec fn wf(&self) -> bool {
        self.platform_fee <= 10_000
    }
}

} // verus!
