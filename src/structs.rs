//! The snapshots that the remote bot serves, and the statistics shown to the
//! user. Amounts are integers; percentages are in hundredths of a percent.

use vstd::prelude::*;
use crate::activities::{ArgonActivityRecord, BitcoinActivityRecord, BotActivityRecord};

verus! {

/// What one cohort earned in the frame of an earnings snapshot.
#[derive(Debug)]
pub struct IEarningsFileCohort {
    pub last_block_mined_at: String,
    pub blocks_mined: u32,
    pub argons_mined: u64,
    pub argons_minted: u64,
    pub argonots_mined: u64,
}

/// The earnings snapshot of one frame, with the earnings of each cohort keyed
/// by the cohort's id written in decimal.
#[derive(Debug)]
pub struct IEarningsFile {
    pub frame_progress: u32,
    pub frame_tick_start: u32,
    pub frame_tick_end: u32,
    pub last_block_number: u32,
    pub by_cohort_frame_id: Vec<(String, IEarningsFileCohort)>,
}

/// One subaccount in a bids snapshot.
#[derive(Debug)]
pub struct IBidsFileSubaccount {
    pub index: u32,
    pub address: String,
    pub bid_position: Option<u32>,
    pub argons_bid: Option<u64>,
    pub is_rebid: Option<bool>,
    pub last_bid_at_tick: Option<u32>,
}

/// The bids snapshot of one cohort.
#[derive(Debug)]
pub struct IBidsFile {
    pub frame_id_at_cohort_bidding: u32,
    pub frame_id_at_cohort_activation: u32,
    pub frame_bidding_progress: u32,
    pub last_block_number: u32,
    pub argons_bid_total: u64,
    pub transaction_fees: u64,
    pub argonots_staked_per_seat: u64,
    pub argons_to_be_mined_per_block: u64,
    pub seats_won: u32,
    pub subaccounts: Vec<IBidsFileSubaccount>,
}

/// The bot's status: chain heads, when its files last changed, the frames it
/// holds and how far it has loaded.
#[derive(Debug)]
pub struct IBotStatus {
    pub argon_block_numbers: (u32, u32),
    pub bitcoin_block_numbers: (u32, u32),
    pub bids_last_modified_at: String,
    pub earnings_last_modified_at: String,
    pub has_won_seats: bool,
    pub last_block_number: u32,
    pub last_finalized_block_number: u32,
    pub oldest_frame_id_to_sync: u32,
    pub current_frame_id: u32,
    pub load_progress: u32,
    pub queue_depth: u32,
}

/// Totals over all cohorts.
#[derive(Clone, Copy, Debug, PartialEq, Eq, Structural)]
pub struct IDashboardGlobalStats {
    pub active_cohorts: u32,
    pub active_seats: u32,
    pub total_blocks_mined: u32,
    pub total_argons_bid: u64,
    pub total_transaction_fees: u64,
    pub total_argonots_mined: u64,
    pub total_argons_mined: u64,
    pub total_argons_minted: u64,
}

/// Totals of one cohort.
#[derive(Clone, Copy, Debug, PartialEq, Eq, Structural)]
pub struct IDashboardCohortStats {
    pub cohort_id: u32,
    pub frame_tick_start: u32,
    pub frame_tick_end: u32,
    pub transaction_fees: u64,
    pub argonots_staked: u64,
    pub argons_bid: u64,
    pub seats_won: u32,
    pub blocks_mined: u32,
    pub argonots_mined: u64,
    pub argons_mined: u64,
    pub argons_minted: u64,
}

/// The dashboard: global totals and those of the selected cohort.
#[derive(Clone, Copy, Debug, PartialEq, Eq, Structural)]
pub struct IDashboardStats {
    pub global: IDashboardGlobalStats,
    pub cohort_id: Option<u32>,
    pub cohort: Option<IDashboardCohortStats>,
}

/// The bids of the current cohort.
#[derive(Debug)]
pub struct IActiveBids {
    pub subaccounts: Vec<IBidsFileSubaccount>,
}

/// Everything the statistics view shows.
#[derive(Debug)]
pub struct IStats {
    pub is_syncing: bool,
    pub sync_progress: u64,
    pub sync_error: Option<String>,
    pub has_won_seats: bool,
    pub active_bids: IActiveBids,
    pub dashboard: IDashboardStats,
    pub argon_activity: Vec<ArgonActivityRecord>,
    pub bitcoin_activity: Vec<BitcoinActivityRecord>,
    pub bot_activity: Vec<BotActivityRecord>,
}

} // verus!
