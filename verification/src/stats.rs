//! Platform-wide statistics, read-only: a snapshot of the configuration,
//! the prize totals, and the vault balance the host read.

use vstd::prelude::*;

use crate::config::GlobalConfig;
use crate::prizes::PrizeLedger;

verus! {

/// A read-only snapshot of the platform's totals and settings.
#[derive(Clone, Copy, Debug, PartialEq, Eq, Structural)]
pub struct PlatformStats {
    /// What the reserve vault holds, as the host read it.
    pub total_burned: u64,
    /// Everything ever paid out by executed distributions.
    pub total_distributed: u64,
    /// What one access pass costs right now.
    pub current_access_cost: u64,
    /// Who pays the incidental call fee right now.
    pub current_fee_mode: u8,
    /// The running season number.
    pub current_season: u32,
    /// How many proposals were ever created.
    pub total_proposals: u64,
    /// How many distributions were ever submitted.
    pub total_distributions: u64,
}

/// Snapshots the platform's statistics: the vault balance the host read,
/// the prize totals, and the current settings; proposals ever created is
/// the id counter less its starting one. No state changes.
pub fn get_platform_stats(
    config: &GlobalConfig,
    prizes: &PrizeLedger,
    vault_balance: u64,
) -> (r: PlatformStats)
    requires
        config.wf(),
    ensures
        r.total_burned == vault_balance,
        r.total_distributed == prizes.config.total_distributed,
        r.current_access_cost == config.access_cost,
        r.current_fee_mode == config.fee_mode,
        r.current_season == prizes.config.current_season,
        r.total_proposals == config.next_proposal_id - 1,
        r.total_distributions == prizes.config.distribution_count,
{
    PlatformStats {
        total_burned: vault_balance,
        total_distributed: prizes.config.total_distributed,
        current_access_cost: config.access_cost,
        current_fee_mode: config.fee_mode,
        current_season: prizes.config.current_season,
        total_proposals: config.next_proposal_id - 1,
        total_distributions: prizes.config.distribution_count,
    }
}

} // verus!
