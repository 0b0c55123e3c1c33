//! What the statistics view shows, and how a fetch of it proceeds.

use vstd::prelude::*;
use crate::cohort_accounts::{account_in_cohort, CohortAccountRecord};
use crate::cohort_frames::earnings_totals;
use crate::cohorts::{cohort_totals, cohort_with_ticks};
use crate::config::ServerDetails;
use crate::db::{DbError, DbView, DB};
use crate::frames::{frame_with_id, max_frame_id, Frames};
use crate::structs::{
    IActiveBids, IBidsFileSubaccount, IBotStatus, IDashboardCohortStats, IDashboardGlobalStats,
    IDashboardStats, IStats,
};
use crate::table::{find_where, rows_where};

verus! {

/// How a fetch of the statistics proceeds.
#[derive(Clone, Copy, Debug, PartialEq, Eq, Structural)]
pub enum FetchPlan {
    /// The host installs or awaits upgrade approval: show idle statistics
    /// without touching the network.
    Idle,
    /// A sync failed for good: show the error.
    ReportSyncError,
    /// The datastore lags: sync every frame from `oldest` to `current` in the
    /// background.
    FullSync { oldest: u32, current: u32 },
    /// The datastore is complete: sync `previous` (when it is still open) and
    /// `current` before answering.
    SyncInline { previous: Option<u32>, current: u32 },
}

/// Sync progress in hundredths of a percent: nine tenths from the bot's load
/// progress and, once the bot has loaded, one tenth from the datastore's.
pub open spec fn sync_progress_of(load_progress: u32, db_progress: u64) -> u64 {
    let bot = (load_progress * 9 / 10) as u64;
    if bot < 9000 {
        bot
    } else {
        (bot + db_progress / 10) as u64
    }
}

/// The datastore's progress in hundredths of a percent when it holds `found`
/// frame rows of `expected`, and whether only the current frame is missing,
/// which counts as complete.
pub open spec fn db_progress_of(found: nat, expected: nat, has_current: bool) -> (u64, bool) {
    if found == expected {
        (10000, false)
    } else if found + 1 == expected && !has_current {
        (10000, true)
    } else {
        let p = found * 10000 / expected;
        (if p > u64::MAX { u64::MAX } else { p as u64 }, false)
    }
}

/// The plan of a fetch, given the host's details, the sync progress, whether
/// only the current frame is missing, and the frames stored.
pub open spec fn fetch_plan_of(
    d: ServerDetails,
    progress: u64,
    missing_current: bool,
    frames: Seq<crate::frames::FrameRecord>,
    oldest: u32,
    current: u32,
) -> Result<FetchPlan, DbError> {
    if d.is_installing || d.requires_upgrade {
        Ok(FetchPlan::Idle)
    } else if d.sync_error is Some {
        Ok(FetchPlan::ReportSyncError)
    } else if progress < 10000 {
        Ok(FetchPlan::FullSync { oldest, current })
    } else if !missing_current {
        Ok(FetchPlan::SyncInline { previous: None, current })
    } else if current == 0 {
        Err(DbError::MissingRow)
    } else {
        match find_where(frames, frame_with_id((current - 1) as u32)) {
            None => Err(DbError::MissingRow),
            Some(f) => Ok(FetchPlan::SyncInline {
                previous: if f.is_processed { None } else { Some((current - 1) as u32) },
                current,
            }),
        }
    }
}

/// The global totals of the datastore.
pub open spec fn global_stats_of(v: DbView) -> Result<IDashboardGlobalStats, DbError> {
    match cohort_totals(v.cohorts, max_frame_id(v.frames)) {
        Err(e) => Err(e),
        Ok((active_cohorts, active_seats, fees, bids)) => match earnings_totals(v.cohort_frames, None) {
            Err(e) => Err(e),
            Ok((blocks, argonots, mined, minted)) => Ok(IDashboardGlobalStats {
                active_cohorts,
                active_seats,
                total_blocks_mined: blocks,
                total_argons_bid: bids,
                total_transaction_fees: fees,
                total_argonots_mined: argonots,
                total_argons_mined: mined,
                total_argons_minted: minted,
            }),
        },
    }
}

/// The totals of cohort `id`, when it won seats.
pub open spec fn cohort_stats_of(v: DbView, id: u32) -> Result<Option<IDashboardCohortStats>, DbError> {
    match cohort_with_ticks(v.cohorts, v.frames, id) {
        Err(e) => Err(e),
        Ok(None) => Ok(None),
        Ok(Some(c)) => match earnings_totals(v.cohort_frames, Some(c.id)) {
            Err(e) => Err(e),
            Ok((blocks, argonots, mined, minted)) => Ok(Some(IDashboardCohortStats {
                cohort_id: c.id,
                frame_tick_start: c.frame_tick_start,
                frame_tick_end: c.frame_tick_end,
                transaction_fees: c.transaction_fees,
                argonots_staked: c.argonots_staked,
                argons_bid: c.argons_bid,
                seats_won: c.seats_won,
                blocks_mined: blocks,
                argonots_mined: argonots,
                argons_mined: mined,
                argons_minted: minted,
            })),
        },
    }
}

/// The dashboard for the selected cohort, if any.
pub open spec fn dashboard_of(v: DbView, cohort_id: Option<u32>) -> Result<IDashboardStats, DbError> {
    match global_stats_of(v) {
        Err(e) => Err(e),
        Ok(global) => match cohort_id {
            None => Ok(IDashboardStats { global, cohort_id, cohort: None }),
            Some(id) => match cohort_stats_of(v, id) {
                Err(e) => Err(e),
                Ok(cohort) => Ok(IDashboardStats { global, cohort_id, cohort }),
            },
        },
    }
}

/// A stored subaccount bid as the view shows it.
pub open spec fn bid_of_account(a: CohortAccountRecord) -> IBidsFileSubaccount {
    IBidsFileSubaccount {
        index: a.idx,
        address: a.address,
        bid_position: Some(a.bid_position),
        argons_bid: Some(a.argons_bid),
        is_rebid: None,
        last_bid_at_tick: None,
    }
}

/// The decisions of a statistics fetch.
pub struct Stats;

impl Stats {
    /// The statistics shown while nothing can be fetched: all zero, with
    /// `cohort_id` selected and an empty cohort card.
    pub fn default(cohort_id: Option<u32>) -> (r: IStats)
        ensures
            !r.is_syncing,
            r.sync_progress == 0,
            r.sync_error is None,
            !r.has_won_seats,
            r.active_bids.subaccounts@.len() == 0,
            r.dashboard.cohort_id == cohort_id,
            r.dashboard.global == (IDashboardGlobalStats {
                active_cohorts: 0,
                active_seats: 0,
                total_blocks_mined: 0,
                total_argons_bid: 0,
                total_transaction_fees: 0,
                total_argonots_mined: 0,
                total_argons_mined: 0,
                total_argons_minted: 0,
            }),
            r.dashboard.cohort == Some(IDashboardCohortStats {
                cohort_id: 0,
                frame_tick_start: 0,
                frame_tick_end: 0,
                transaction_fees: 0,
                argonots_staked: 0,
                argons_bid: 0,
                seats_won: 0,
                blocks_mined: 0,
                argonots_mined: 0,
                argons_mined: 0,
                argons_minted: 0,
            }),
            r.argon_activity@.len() == 0,
            r.bitcoin_activity@.len() == 0,
            r.bot_activity@.len() == 0,
    {
        IStats {
            is_syncing: false,
            sync_progress: 0,
            sync_error: None,
            has_won_seats: false,
            active_bids: IActiveBids { subaccounts: Vec::new() },
            dashboard: IDashboardStats {
                global: IDashboardGlobalStats {
                    active_cohorts: 0,
                    active_seats: 0,
                    total_blocks_mined: 0,
                    total_argons_bid: 0,
                    total_transaction_fees: 0,
                    total_argonots_mined: 0,
                    total_argons_mined: 0,
                    total_argons_minted: 0,
                },
                cohort_id,
                cohort: Some(IDashboardCohortStats {
                    cohort_id: 0,
                    frame_tick_start: 0,
                    frame_tick_end: 0,
                    transaction_fees: 0,
                    argonots_staked: 0,
                    argons_bid: 0,
                    seats_won: 0,
                    blocks_mined: 0,
                    argonots_mined: 0,
                    argons_mined: 0,
                    argons_minted: 0,
                }),
            },
            argon_activity: Vec::new(),
            bitcoin_activity: Vec::new(),
            bot_activity: Vec::new(),
        }
    }

    /// Sync progress from the bot's load progress and the datastore's, both in
    /// hundredths of a percent.
    pub fn calculate_sync_progress(load_progress: u32, db_progress: u64) -> (r: u64)
        ensures
            r == sync_progress_of(load_progress, db_progress),
    {
        let bot = (load_progress as u64 * 9) / 10;
        if bot < 9000 {
            bot
        } else {
            bot + db_progress / 10
        }
    }

    /// The datastore's progress over the frames `oldest` to `current`, and
    /// whether only the current frame is missing.
    pub fn calculate_db_sync_progress(frames: &Frames, oldest: u32, current: u32) -> (r: (u64, bool))
        requires
            oldest <= current,
        ensures
            r == db_progress_of(
                frames@.len(),
                (current - oldest + 1) as nat,
                find_where(frames@, frame_with_id(current)) is Some,
            ),
    {
        let expected: u64 = current as u64 - oldest as u64 + 1;
        let found = frames.fetch_record_count();
        if found as u128 == expected as u128 {
            return (10000, false);
        }
        if found as u128 + 1 == expected as u128 {
            if frames.fetch_by_id(current).is_none() {
                return (10000, true);
            }
        }
        let p: u128 = (found as u128 * 10000) / expected as u128;
        if p > u64::MAX as u128 {
            (u64::MAX, false)
        } else {
            (p as u64, false)
        }
    }

    /// How a fetch proceeds, given the host's details, the sync progress,
    /// whether only the current frame is missing, and the frame range the bot
    /// holds.
    pub fn plan_fetch(
        details: &ServerDetails,
        sync_progress: u64,
        is_missing_current_frame: bool,
        frames: &Frames,
        oldest_frame_id_to_sync: u32,
        current_frame_id: u32,
    ) -> (r: Result<FetchPlan, DbError>)
        ensures
            r == fetch_plan_of(
                *details,
                sync_progress,
                is_missing_current_frame,
                frames@,
                oldest_frame_id_to_sync,
                current_frame_id,
            ),
    {
        if details.is_installing || details.requires_upgrade {
            return Ok(FetchPlan::Idle);
        }
        if details.sync_error.is_some() {
            return Ok(FetchPlan::ReportSyncError);
        }
        if sync_progress < 10000 {
            return Ok(FetchPlan::FullSync { oldest: oldest_frame_id_to_sync, current: current_frame_id });
        }
        if !is_missing_current_frame {
            return Ok(FetchPlan::SyncInline { previous: None, current: current_frame_id });
        }
        if current_frame_id == 0 {
            return Err(DbError::MissingRow);
        }
        match frames.fetch_by_id(current_frame_id - 1) {
            None => Err(DbError::MissingRow),
            Some(f) => Ok(FetchPlan::SyncInline {
                previous: if f.is_processed { None } else { Some(current_frame_id - 1) },
                current: current_frame_id,
            }),
        }
    }

    /// The global totals of the datastore.
    pub fn fetch_dashboard_global_stats(db: &DB) -> (r: Result<IDashboardGlobalStats, DbError>)
        ensures
            r == global_stats_of(db@),
    {
        let current_frame_id = db.frames.latest_id();
        let (active_cohorts, active_seats, total_transaction_fees, total_argons_bid) =
            db.cohorts.fetch_global_stats(current_frame_id)?;
        let (total_blocks_mined, total_argonots_mined, total_argons_mined, total_argons_minted) =
            db.cohort_frames.fetch_global_stats()?;
        Ok(IDashboardGlobalStats {
            active_cohorts,
            active_seats,
            total_blocks_mined,
            total_argons_bid,
            total_transaction_fees,
            total_argonots_mined,
            total_argons_mined,
            total_argons_minted,
        })
    }

    /// The totals of cohort `cohort_id`, when it won seats.
    pub fn fetch_dashboard_cohort_stats(db: &DB, cohort_id: u32) -> (r: Result<Option<IDashboardCohortStats>, DbError>)
        ensures
            r == cohort_stats_of(db@, cohort_id),
    {
        let cohort = match db.cohorts.fetch_by_id(&db.frames, cohort_id)? {
            Some(c) => c,
            None => return Ok(None),
        };
        let (blocks_mined, argonots_mined, argons_mined, argons_minted) =
            db.cohort_frames.fetch_cohort_stats(cohort.id)?;
        Ok(Some(IDashboardCohortStats {
            cohort_id: cohort.id,
            frame_tick_start: cohort.frame_tick_start,
            frame_tick_end: cohort.frame_tick_end,
            transaction_fees: cohort.transaction_fees,
            argonots_staked: cohort.argonots_staked,
            argons_bid: cohort.argons_bid,
            seats_won: cohort.seats_won,
            blocks_mined,
            argonots_mined,
            argons_mined,
            argons_minted,
        }))
    }

    /// The dashboard: global totals and those of `cohort_id`, if given.
    pub fn fetch_dashboard(db: &DB, cohort_id: Option<u32>) -> (r: Result<IDashboardStats, DbError>)
        ensures
            r == dashboard_of(db@, cohort_id),
    {
        let global = Self::fetch_dashboard_global_stats(db)?;
        let cohort = match cohort_id {
            Some(id) => Self::fetch_dashboard_cohort_stats(db, id)?,
            None => None,
        };
        Ok(IDashboardStats { global, cohort_id, cohort })
    }

    /// The cohort to show when none is selected: the latest that won seats.
    pub fn fetch_latest_cohort_id(db: &DB) -> (r: Option<u32>)
        ensures
            r == crate::cohorts::latest_active_id(db@.cohorts),
    {
        db.cohorts.fetch_latest_active_id()
    }

    /// The stored bids of the cohort that starts at `current_frame_id`.
    pub fn fetch_active_bids(db: &DB, current_frame_id: u32) -> (r: IActiveBids)
        ensures
            r.subaccounts@ == rows_where(db@.cohort_accounts, account_in_cohort(current_frame_id)).map_values(
                |a: CohortAccountRecord| bid_of_account(a),
            ),
    {
        let accounts = db.cohort_accounts.fetch_for_cohort_id(current_frame_id);
        let mut subaccounts: Vec<IBidsFileSubaccount> = Vec::new();
        let mut i: usize = 0;
        while i < accounts.len()
            invariant
                i <= accounts@.len(),
                subaccounts@ == accounts@.subrange(0, i as int).map_values(|a: CohortAccountRecord| bid_of_account(a)),
            decreases accounts@.len() - i,
        {
            let a = &accounts[i];
            subaccounts.push(IBidsFileSubaccount {
                index: a.idx,
                address: a.address.clone(),
                bid_position: Some(a.bid_position),
                argons_bid: Some(a.argons_bid),
                is_rebid: None,
                last_bid_at_tick: None,
            });
            i = i + 1;
            assert(subaccounts@ =~= accounts@.subrange(0, i as int).map_values(|a: CohortAccountRecord| bid_of_account(a)));
        }
        assert(accounts@.subrange(0, i as int) =~= accounts@);
        IActiveBids { subaccounts }
    }

    /// Keeps what the bot reports about the host: the oldest frame to sync,
    /// when known, and whether it won seats.
    pub fn update_server_details_from_bot_status(details: &mut ServerDetails, bot_status: &IBotStatus)
        ensures
            *final(details) == (ServerDetails {
                oldest_frame_id_to_sync: if bot_status.oldest_frame_id_to_sync > 0 {
                    Some(bot_status.oldest_frame_id_to_sync)
                } else {
                    old(details).oldest_frame_id_to_sync
                },
                has_mining_seats: bot_status.has_won_seats,
                ..*old(details)
            }),
    {
        if bot_status.oldest_frame_id_to_sync > 0 {
            details.oldest_frame_id_to_sync = Some(bot_status.oldest_frame_id_to_sync);
        }
        details.has_mining_seats = bot_status.has_won_seats;
    }
}

} // verus!
