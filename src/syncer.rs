//! Reconciles the bot's earnings and bids snapshots into the local datastore.

use vstd::prelude::*;
use crate::cohort_accounts::{account_in_cohort, account_outside_cohort, CohortAccountRecord};
use crate::cohorts::{cohort_with_id, CohortRecord};
use crate::cohort_frames::{cohort_frame_with_key, CohortFrameRecord};
use crate::db::{DbView, DB};
use crate::frames::{frame_with_id, update_where, FrameRecord};
use crate::structs::{IBidsFile, IBidsFileSubaccount, IEarningsFile, IEarningsFileCohort};
use crate::table::{
    find_where, index_where, lemma_index_where_at, lemma_index_where_bounds, rows_where, upsert,
};
use crate::text::{decimal_value, is_decimal, parse_u32};

verus! {

/// Why a snapshot could not be folded into the datastore.
#[derive(Clone, Copy, Debug, PartialEq, Eq, Structural)]
pub enum SyncError {
    /// A cohort key of an earnings snapshot is not a decimal id.
    RemoteParseFailure,
    /// No bids snapshot was supplied for a cohort that the earnings name.
    MissingBids,
    /// A cohort starts after the frame that names it, or its stake does not fit.
    OutOfRange,
}

/// Progress of a cohort's ten-frame term, in hundredths of a percent, after
/// `frames_completed` whole frames and a current frame at `frame_progress`.
pub open spec fn cohort_progress(frames_completed: u32, frame_progress: u32) -> u64 {
    ((frames_completed * 10000 + frame_progress) / 10) as u64
}

/// The datastore row of a subaccount's bid in `cohort`; an absent bid or
/// position counts as zero.
pub open spec fn account_row(cohort: u32, sub: IBidsFileSubaccount) -> CohortAccountRecord {
    CohortAccountRecord {
        frame_id_at_cohort_activation: cohort,
        idx: sub.index,
        address: sub.address,
        argons_bid: match sub.argons_bid {
            Some(b) => b,
            None => 0,
        },
        bid_position: match sub.bid_position {
            Some(p) => p,
            None => 0,
        },
    }
}

/// The rows of `subs` as bids of `cohort`.
pub open spec fn account_rows(cohort: u32, subs: Seq<IBidsFileSubaccount>) -> Seq<CohortAccountRecord> {
    subs.map_values(|s: IBidsFileSubaccount| account_row(cohort, s))
}

/// The datastore after the bids snapshot `bids` of `cohort` is read while frame
/// `frame_id` is at `frame_progress`. Only a cohort whose bidding has closed is
/// stored: its row is written and its subaccounts replace the stored ones.
pub open spec fn synced_cohort(v: DbView, cohort: u32, frame_id: u32, frame_progress: u32, bids: IBidsFile) -> Result<DbView, SyncError> {
    if bids.frame_bidding_progress < 10000 {
        Ok(v)
    } else if cohort > frame_id || bids.argonots_staked_per_seat * bids.seats_won > u64::MAX {
        Err(SyncError::OutOfRange)
    } else {
        let row = CohortRecord {
            id: cohort,
            progress: cohort_progress((frame_id - cohort) as u32, frame_progress),
            transaction_fees: bids.transaction_fees,
            argonots_staked: (bids.argonots_staked_per_seat * bids.seats_won) as u64,
            argons_bid: bids.argons_bid_total,
            seats_won: bids.seats_won,
        };
        Ok(DbView {
            cohorts: upsert(v.cohorts, cohort_with_id(cohort), row),
            cohort_accounts: rows_where(v.cohort_accounts, account_outside_cohort(cohort))
                + account_rows(cohort, bids.subaccounts@),
            ..v
        })
    }
}

/// Matches the bids snapshot supplied for `cohort`.
pub open spec fn bids_of_cohort(cohort: u32) -> spec_fn((u32, IBidsFile)) -> bool {
    |b: (u32, IBidsFile)| b.0 == cohort
}

/// Whether a cohort key names a cohort id.
pub open spec fn is_cohort_key(key: Seq<char>) -> bool {
    is_decimal(key) && decimal_value(key) <= u32::MAX
}

/// The datastore row of what `cohort` earned in frame `frame_id`.
pub open spec fn cohort_frame_row(frame_id: u32, cohort: u32, data: IEarningsFileCohort) -> CohortFrameRecord {
    CohortFrameRecord {
        frame_id,
        cohort_id: cohort,
        blocks_mined: data.blocks_mined,
        argonots_mined: data.argonots_mined,
        argons_mined: data.argons_mined,
        argons_minted: data.argons_minted,
    }
}

/// The datastore after the cohort entries of an earnings snapshot of frame
/// `frame_id` are read in order, with the error that stopped the reading, if
/// any. The first entry of a cohort not in `seen` also reads that cohort's bids
/// snapshot; every entry writes the cohort's earnings in the frame.
pub open spec fn synced_entries(
    v: DbView,
    frame_id: u32,
    frame_progress: u32,
    entries: Seq<(String, IEarningsFileCohort)>,
    bids: Seq<(u32, IBidsFile)>,
    seen: Seq<u32>,
) -> (DbView, Option<SyncError>)
    decreases entries.len(),
{
    if entries.len() == 0 {
        (v, None)
    } else if !is_cohort_key(entries[0].0@) {
        (v, Some(SyncError::RemoteParseFailure))
    } else {
        let cohort = decimal_value(entries[0].0@) as u32;
        let stepped = if seen.contains(cohort) {
            Ok(v)
        } else {
            match find_where(bids, bids_of_cohort(cohort)) {
                None => Err(SyncError::MissingBids),
                Some(b) => synced_cohort(v, cohort, frame_id, frame_progress, b.1),
            }
        };
        match stepped {
            Err(e) => (v, Some(e)),
            Ok(v1) => {
                let v2 = DbView {
                    cohort_frames: upsert(
                        v1.cohort_frames,
                        cohort_frame_with_key(frame_id, cohort),
                        cohort_frame_row(frame_id, cohort, entries[0].1),
                    ),
                    ..v1
                };
                synced_entries(
                    v2,
                    frame_id,
                    frame_progress,
                    entries.subrange(1, entries.len() as int),
                    bids,
                    seen.push(cohort),
                )
            },
        }
    }
}

/// The cohorts whose bids snapshots a sync of `entries` reads, in the order it
/// reads them: each named cohort once, up to the first key that is no id.
pub open spec fn cohorts_read(entries: Seq<(String, IEarningsFileCohort)>, seen: Seq<u32>) -> Seq<u32>
    decreases entries.len(),
{
    if entries.len() == 0 || !is_cohort_key(entries[0].0@) {
        seen
    } else {
        let c = decimal_value(entries[0].0@) as u32;
        cohorts_read(
            entries.subrange(1, entries.len() as int),
            if seen.contains(c) { seen } else { seen.push(c) },
        )
    }
}

/// Whether frame `frame_id` is stored and processed in `v`.
pub open spec fn frame_processed(v: DbView, frame_id: u32) -> bool {
    match find_where(v.frames, frame_with_id(frame_id)) {
        Some(f) => f.is_processed,
        None => false,
    }
}

/// The datastore after the earnings snapshot `e` of frame `frame_id` is read,
/// with the error that stopped the reading, if any. A processed frame is left
/// alone. Otherwise the frame row is written first, then the cohort entries,
/// and last the frame is marked processed when its snapshot is complete.
pub open spec fn synced_frame(v: DbView, frame_id: u32, e: IEarningsFile, bids: Seq<(u32, IBidsFile)>) -> (DbView, Option<SyncError>) {
    if frame_processed(v, frame_id) {
        (v, None)
    } else {
        let open_row = FrameRecord {
            id: frame_id,
            progress: e.frame_progress,
            tick_start: e.frame_tick_start,
            tick_end: e.frame_tick_end,
            is_processed: false,
        };
        let v1 = DbView { frames: upsert(v.frames, frame_with_id(frame_id), open_row), ..v };
        let (v2, err) = synced_entries(v1, frame_id, e.frame_progress, e.by_cohort_frame_id@, bids, Seq::empty());
        if err is Some {
            (v2, err)
        } else {
            let done_row = FrameRecord { is_processed: e.frame_progress == 10000, ..open_row };
            (DbView { frames: update_where(v2.frames, frame_with_id(frame_id), done_row), ..v2 }, None)
        }
    }
}

/// Whether `id` is in `ids`.
fn contains_id(ids: &Vec<u32>, id: u32) -> (r: bool)
    ensures
        r == ids@.contains(id),
{
    let mut k: usize = 0;
    while k < ids.len()
        invariant
            k <= ids@.len(),
            forall|j: int| 0 <= j < k ==> ids@[j] != id,
        decreases ids@.len() - k,
    {
        if ids[k] == id {
            return true;
        }
        k = k + 1;
    }
    false
}

/// The dedup state of the telemetry poll, and the sync steps that use the
/// datastore.
pub struct StatsSyncer {
    pub last_argon_block_numbers: (u32, u32),
    pub last_bitcoin_block_numbers: (u32, u32),
    pub bids_last_modified_at: String,
    pub earnings_last_modified_at: String,
}

impl StatsSyncer {
    /// Folds the bids snapshot of `cohort_starting_frame_id` into `db`, while
    /// frame `current_frame_id` is at `current_frame_progress`. On an error the
    /// datastore is left as it was.
    pub fn sync_db_cohort(
        db: &mut DB,
        cohort_starting_frame_id: u32,
        current_frame_id: u32,
        current_frame_progress: u32,
        data: &IBidsFile,
    ) -> (r: Result<(), SyncError>)
        ensures
            match synced_cohort(old(db)@, cohort_starting_frame_id, current_frame_id, current_frame_progress, *data) {
                Ok(v) => r is Ok && final(db)@ == v,
                Err(e) => r == Err::<(), SyncError>(e) && final(db)@ == old(db)@,
            },
    {
        if data.frame_bidding_progress < 10000 {
            return Ok(());
        }
        if cohort_starting_frame_id > current_frame_id {
            return Err(SyncError::OutOfRange);
        }
        let staked = match data.argonots_staked_per_seat.checked_mul(data.seats_won as u64) {
            None => return Err(SyncError::OutOfRange),
            Some(x) => x,
        };
        let frames_completed = current_frame_id - cohort_starting_frame_id;
        let progress = (frames_completed as u64 * 10000 + current_frame_progress as u64) / 10;
        db.cohorts.insert_or_update(
            cohort_starting_frame_id,
            progress,
            data.transaction_fees,
            staked,
            data.argons_bid_total,
            data.seats_won,
        );
        db.cohort_accounts.delete_for_cohort(cohort_starting_frame_id);
        let ghost base = db.cohort_accounts@;
        let mut i: usize = 0;
        let n = data.subaccounts.len();
        while i < n
            invariant
                n == data.subaccounts@.len(),
                i <= n,
                db.cohort_accounts@ == base + account_rows(cohort_starting_frame_id, data.subaccounts@.subrange(0, i as int)),
                db.frames@ == old(db).frames@,
                db.cohorts@ == upsert(
                    old(db).cohorts@,
                    cohort_with_id(cohort_starting_frame_id),
                    CohortRecord {
                        id: cohort_starting_frame_id,
                        progress: progress,
                        transaction_fees: data.transaction_fees,
                        argonots_staked: staked,
                        argons_bid: data.argons_bid_total,
                        seats_won: data.seats_won,
                    },
                ),
                db.cohort_frames@ == old(db).cohort_frames@,
                db.argon_activities@ == old(db).argon_activities@,
                db.bitcoin_activities@ == old(db).bitcoin_activities@,
                db.bot_activities@ == old(db).bot_activities@,
                base == rows_where(old(db).cohort_accounts@, account_outside_cohort(cohort_starting_frame_id)),
            decreases n - i,
        {
            let sub = &data.subaccounts[i];
            let bid = match sub.argons_bid {
                Some(b) => b,
                None => 0,
            };
            let position = match sub.bid_position {
                Some(p) => p,
                None => 0,
            };
            db.cohort_accounts.insert(cohort_starting_frame_id, sub.index, sub.address.clone(), bid, position);
            proof {
                assert(account_rows(cohort_starting_frame_id, data.subaccounts@.subrange(0, i + 1))
                    =~= account_rows(cohort_starting_frame_id, data.subaccounts@.subrange(0, i as int)).push(
                    account_row(cohort_starting_frame_id, data.subaccounts@[i as int])));
            }
            i = i + 1;
        }
        proof {
            assert(data.subaccounts@.subrange(0, n as int) =~= data.subaccounts@);
            assert(progress == cohort_progress(frames_completed, current_frame_progress));
        }
        Ok(())
    }

    fn bids_index(bids: &Vec<(u32, IBidsFile)>, cohort: u32) -> (r: Option<usize>)
        ensures
            match r {
                Some(i) => i < bids@.len() && i as int == index_where(bids@, bids_of_cohort(cohort)),
                None => index_where(bids@, bids_of_cohort(cohort)) == -1,
            },
    {
        let ghost p = bids_of_cohort(cohort);
        let mut i: usize = bids.len();
        while i > 0
            invariant
                i <= bids@.len(),
                p == bids_of_cohort(cohort),
                forall|j: int| i <= j < bids@.len() ==> !p(#[trigger] bids@[j]),
            decreases i,
        {
            if bids[i - 1].0 == cohort {
                proof {
                    lemma_index_where_at(bids@, p, i - 1);
                }
                return Some(i - 1);
            }
            i = i - 1;
        }
        proof {
            lemma_index_where_at(bids@, p, -1);
        }
        None
    }

    /// The cohorts whose bids snapshots must be fetched before `earnings` can
    /// be synced, in the order the sync reads them.
    pub fn cohorts_to_fetch(earnings: &IEarningsFile) -> (r: Vec<u32>)
        ensures
            r@ == cohorts_read(earnings.by_cohort_frame_id@, Seq::empty()),
    {
        let ghost entries = earnings.by_cohort_frame_id@;
        let n = earnings.by_cohort_frame_id.len();
        let mut seen: Vec<u32> = Vec::new();
        let mut i: usize = 0;
        proof {
            assert(entries.subrange(0, n as int) =~= entries);
            assert(seen@ =~= Seq::<u32>::empty());
        }
        while i < n
            invariant
                n == entries.len(),
                entries == earnings.by_cohort_frame_id@,
                i <= n,
                cohorts_read(entries.subrange(i as int, n as int), seen@) == cohorts_read(entries, Seq::empty()),
            decreases n - i,
        {
            let ghost rest = entries.subrange(i as int, n as int);
            proof {
                assert(rest[0] == entries[i as int]);
                assert(rest.subrange(1, rest.len() as int) =~= entries.subrange(i + 1, n as int));
            }
            let cohort = match parse_u32(earnings.by_cohort_frame_id[i].0.as_str()) {
                None => {
                    return seen;
                },
                Some(c) => c,
            };
            let already = contains_id(&seen, cohort);
            if !already {
                seen.push(cohort);
            }
            i = i + 1;
        }
        proof {
            assert(entries.subrange(n as int, n as int) =~= Seq::<(String, IEarningsFileCohort)>::empty());
        }
        seen
    }

    /// Whether frame `frame_id` is stored and processed, so that syncing it
    /// again would change nothing.
    pub fn is_frame_processed(db: &DB, frame_id: u32) -> (r: bool)
        ensures
            r == frame_processed(db@, frame_id),
    {
        match db.frames.fetch_by_id(frame_id) {
            Some(f) => f.is_processed,
            None => false,
        }
    }

    /// Folds the earnings snapshot `earnings` of frame `frame_id` into `db`,
    /// with `bids` holding the bids snapshot of each cohort that it names.
    pub fn sync_db_frame(db: &mut DB, frame_id: u32, earnings: &IEarningsFile, bids: &Vec<(u32, IBidsFile)>) -> (r: Result<(), SyncError>)
        ensures
            final(db)@ == synced_frame(old(db)@, frame_id, *earnings, bids@).0,
            r == match synced_frame(old(db)@, frame_id, *earnings, bids@).1 {
                None => Ok::<(), SyncError>(()),
                Some(e) => Err(e),
            },
    {
        if Self::is_frame_processed(db, frame_id) {
            return Ok(());
        }
        db.frames.insert_or_update(
            frame_id,
            earnings.frame_tick_start,
            earnings.frame_tick_end,
            earnings.frame_progress,
            false,
        );
        let ghost v1 = db@;
        let ghost entries = earnings.by_cohort_frame_id@;
        let ghost open_row = FrameRecord {
            id: frame_id,
            progress: earnings.frame_progress,
            tick_start: earnings.frame_tick_start,
            tick_end: earnings.frame_tick_end,
            is_processed: false,
        };
        assert(v1 == DbView { frames: upsert(old(db)@.frames, frame_with_id(frame_id), open_row), ..old(db)@ });
        let n = earnings.by_cohort_frame_id.len();
        let mut seen: Vec<u32> = Vec::new();
        let mut i: usize = 0;
        let ghost total = synced_entries(v1, frame_id, earnings.frame_progress, entries, bids@, Seq::empty());
        proof {
            assert(entries.subrange(0, n as int) =~= entries);
            assert(seen@ =~= Seq::<u32>::empty());
            assert(!frame_processed(old(db)@, frame_id));
            assert(total.1 is Some ==> synced_frame(old(db)@, frame_id, *earnings, bids@) == total);
            assert(total.1 is None ==> synced_frame(old(db)@, frame_id, *earnings, bids@) == (DbView {
                    frames: update_where(total.0.frames, frame_with_id(frame_id), FrameRecord { is_processed: earnings.frame_progress == 10000, ..open_row }),
                    ..total.0
                }, None::<SyncError>));
        }
        while i < n
            invariant
                n == entries.len(),
                entries == earnings.by_cohort_frame_id@,
                i <= n,
                synced_entries(db@, frame_id, earnings.frame_progress, entries.subrange(i as int, n as int), bids@, seen@)
                    == total,
                total.1 is Some ==> synced_frame(old(db)@, frame_id, *earnings, bids@) == total,
                total.1 is None ==> synced_frame(old(db)@, frame_id, *earnings, bids@) == (DbView {
                    frames: update_where(total.0.frames, frame_with_id(frame_id), FrameRecord { is_processed: earnings.frame_progress == 10000, ..open_row }),
                    ..total.0
                }, None::<SyncError>),
            decreases n - i,
        {
            let ghost before = db@;
            let ghost rest = entries.subrange(i as int, n as int);
            proof {
                assert(rest[0] == entries[i as int]);
                assert(rest.subrange(1, rest.len() as int) =~= entries.subrange(i + 1, n as int));
                assert(entries.subrange(0, n as int) =~= entries);
            }
            let entry = &earnings.by_cohort_frame_id[i];
            let cohort = match parse_u32(entry.0.as_str()) {
                None => {
                    proof {
                        assert(!is_cohort_key(rest[0].0@));
                        assert(synced_entries(before, frame_id, earnings.frame_progress, rest, bids@, seen@)
                            == (before, Some(SyncError::RemoteParseFailure)));
                    }
                    return Err(SyncError::RemoteParseFailure);
                },
                Some(c) => c,
            };
            let already = contains_id(&seen, cohort);
            if !already {
                match Self::bids_index(bids, cohort) {
                    None => {
                        return Err(SyncError::MissingBids);
                    },
                    Some(b) => {
                        let res = Self::sync_db_cohort(db, cohort, frame_id, earnings.frame_progress, &bids[b].1);
                        match res {
                            Err(e) => {
                                return Err(e);
                            },
                            Ok(()) => {},
                        }
                    },
                }
            }
            seen.push(cohort);
            let data = &entry.1;
            db.cohort_frames.insert_or_update(
                frame_id,
                cohort,
                data.blocks_mined,
                data.argonots_mined,
                data.argons_mined,
                data.argons_minted,
            );
            i = i + 1;
        }
        proof {
            assert(entries.subrange(n as int, n as int) =~= Seq::<(String, IEarningsFileCohort)>::empty());
            assert(entries.subrange(0, n as int) =~= entries);
        }
        db.frames.update(
            frame_id,
            earnings.frame_tick_start,
            earnings.frame_tick_end,
            earnings.frame_progress,
            earnings.frame_progress == 10000,
        );
        Ok(())
    }
}

proof fn lemma_rows_where_concat<T>(a: Seq<T>, b: Seq<T>, p: spec_fn(T) -> bool)
    ensures
        rows_where(a + b, p) == rows_where(a, p) + rows_where(b, p),
    decreases b.len(),
{
    if b.len() == 0 {
        assert(a + b =~= a);
        assert(rows_where(a, p) + rows_where(b, p) =~= rows_where(a, p));
    } else {
        lemma_rows_where_concat(a, b.drop_last(), p);
        assert((a + b).drop_last() =~= a + b.drop_last());
        assert((a + b).last() == b.last());
        if p(b.last()) {
            assert(rows_where(a, p) + rows_where(b, p) =~= (rows_where(a, p) + rows_where(b.drop_last(), p)).push(b.last()));
        }
    }
}

proof fn lemma_no_rows_left(s: Seq<CohortAccountRecord>, cohort: u32)
    ensures
        rows_where(rows_where(s, account_outside_cohort(cohort)), account_in_cohort(cohort)).len() == 0,
    decreases s.len(),
{
    if s.len() > 0 {
        lemma_no_rows_left(s.drop_last(), cohort);
        let x = rows_where(s.drop_last(), account_outside_cohort(cohort));
        assert(x.push(s.last()).drop_last() =~= x);
    }
}

proof fn lemma_rows_of_cohort(cohort: u32, subs: Seq<IBidsFileSubaccount>)
    ensures
        rows_where(account_rows(cohort, subs), account_in_cohort(cohort)) == account_rows(cohort, subs),
    decreases subs.len(),
{
    if subs.len() > 0 {
        lemma_rows_of_cohort(cohort, subs.drop_last());
        assert(account_rows(cohort, subs).drop_last() =~= account_rows(cohort, subs.drop_last()));
    }
}

/// Reading a cohort's bids with its bidding closed leaves exactly the
/// snapshot's subaccounts stored for that cohort.
pub proof fn lemma_cohort_accounts_match_snapshot(v: DbView, cohort: u32, frame_id: u32, frame_progress: u32, bids: IBidsFile)
    requires
        synced_cohort(v, cohort, frame_id, frame_progress, bids) is Ok,
        bids.frame_bidding_progress >= 10000,
    ensures
        rows_where(synced_cohort(v, cohort, frame_id, frame_progress, bids)->Ok_0.cohort_accounts, account_in_cohort(cohort))
            == account_rows(cohort, bids.subaccounts@),
{
    let kept = rows_where(v.cohort_accounts, account_outside_cohort(cohort));
    let added = account_rows(cohort, bids.subaccounts@);
    lemma_rows_where_concat(kept, added, account_in_cohort(cohort));
    lemma_no_rows_left(v.cohort_accounts, cohort);
    lemma_rows_of_cohort(cohort, bids.subaccounts@);
    assert(rows_where(kept, account_in_cohort(cohort)) + added =~= added);
}

/// When the bids of one cohort are read twice, the second time with its bidding
/// closed, the cohort's stored subaccounts are exactly those of the second
/// snapshot: nothing of the first list is left over.
pub proof fn lemma_sync_db_cohort_full_replacement(
    v: DbView,
    cohort: u32,
    first_frame: u32,
    first_progress: u32,
    first: IBidsFile,
    second_frame: u32,
    second_progress: u32,
    second: IBidsFile,
)
    requires
        synced_cohort(v, cohort, first_frame, first_progress, first) is Ok,
        synced_cohort(
            synced_cohort(v, cohort, first_frame, first_progress, first)->Ok_0,
            cohort,
            second_frame,
            second_progress,
            second,
        ) is Ok,
        second.frame_bidding_progress >= 10000,
    ensures
        rows_where(
            synced_cohort(
                synced_cohort(v, cohort, first_frame, first_progress, first)->Ok_0,
                cohort,
                second_frame,
                second_progress,
                second,
            )->Ok_0.cohort_accounts,
            account_in_cohort(cohort),
        ) == account_rows(cohort, second.subaccounts@),
{
    let v1 = synced_cohort(v, cohort, first_frame, first_progress, first)->Ok_0;
    lemma_cohort_accounts_match_snapshot(v1, cohort, second_frame, second_progress, second);
}

proof fn lemma_entries_keep_frames(
    v: DbView,
    frame_id: u32,
    frame_progress: u32,
    entries: Seq<(String, IEarningsFileCohort)>,
    bids: Seq<(u32, IBidsFile)>,
    seen: Seq<u32>,
)
    ensures
        synced_entries(v, frame_id, frame_progress, entries, bids, seen).0.frames == v.frames,
    decreases entries.len(),
{
    if entries.len() > 0 && is_cohort_key(entries[0].0@) {
        let cohort = decimal_value(entries[0].0@) as u32;
        let stepped = if seen.contains(cohort) {
            Ok(v)
        } else {
            match find_where(bids, bids_of_cohort(cohort)) {
                None => Err(SyncError::MissingBids),
                Some(b) => synced_cohort(v, cohort, frame_id, frame_progress, b.1),
            }
        };
        match stepped {
            Err(e) => {},
            Ok(v1) => {
                let v2 = DbView {
                    cohort_frames: upsert(
                        v1.cohort_frames,
                        cohort_frame_with_key(frame_id, cohort),
                        cohort_frame_row(frame_id, cohort, entries[0].1),
                    ),
                    ..v1
                };
                lemma_entries_keep_frames(
                    v2,
                    frame_id,
                    frame_progress,
                    entries.subrange(1, entries.len() as int),
                    bids,
                    seen.push(cohort),
                );
            },
        }
    }
}

proof fn lemma_written_row_found<T>(s: Seq<T>, p: spec_fn(T) -> bool, r: T)
    requires
        p(r),
    ensures
        index_where(upsert(s, p, r), p) >= 0,
        forall|r2: T| #[trigger] p(r2) ==> find_where(update_where(upsert(s, p, r), p, r2), p) == Some(r2),
{
    lemma_index_where_bounds(s, p);
    let i = index_where(s, p);
    let u = upsert(s, p, r);
    let k = if i >= 0 { i } else { s.len() as int };
    assert forall|j: int| k < j < u.len() implies !p(#[trigger] u[j]) by {
        assert(u[j] == s[j]);
    }
    lemma_index_where_at(u, p, k);
    assert forall|r2: T| #[trigger] p(r2) implies find_where(update_where(u, p, r2), p) == Some(r2) by {
        let w = update_where(u, p, r2);
        assert forall|j: int| k < j < w.len() implies !p(#[trigger] w[j]) by {
            assert(w[j] == u[j]);
        }
        lemma_index_where_at(w, p, k);
    }
}

/// A sync that succeeds with the frame's snapshot complete leaves the frame
/// marked processed.
pub proof fn lemma_complete_snapshot_marks_processed(v: DbView, frame_id: u32, e: IEarningsFile, bids: Seq<(u32, IBidsFile)>)
    requires
        synced_frame(v, frame_id, e, bids).1 is None,
        e.frame_progress == 10000,
    ensures
        frame_processed(synced_frame(v, frame_id, e, bids).0, frame_id),
{
    if !frame_processed(v, frame_id) {
        let open_row = FrameRecord {
            id: frame_id,
            progress: e.frame_progress,
            tick_start: e.frame_tick_start,
            tick_end: e.frame_tick_end,
            is_processed: false,
        };
        let v1 = DbView { frames: upsert(v.frames, frame_with_id(frame_id), open_row), ..v };
        lemma_entries_keep_frames(v1, frame_id, e.frame_progress, e.by_cohort_frame_id@, bids, Seq::empty());
        lemma_written_row_found(v.frames, frame_with_id(frame_id), open_row);
        let done_row = FrameRecord { is_processed: true, ..open_row };
        assert(frame_with_id(frame_id)(done_row));
    }
}

/// When a sync of a frame leaves it marked processed, a second sync of that
/// frame changes nothing, whatever snapshots it is handed: no row is added,
/// replaced or removed in any table.
pub proof fn lemma_sync_db_frame_idempotent(
    v: DbView,
    frame_id: u32,
    first: IEarningsFile,
    first_bids: Seq<(u32, IBidsFile)>,
    second: IEarningsFile,
    second_bids: Seq<(u32, IBidsFile)>,
)
    requires
        frame_processed(synced_frame(v, frame_id, first, first_bids).0, frame_id),
    ensures
        synced_frame(synced_frame(v, frame_id, first, first_bids).0, frame_id, second, second_bids)
            == (synced_frame(v, frame_id, first, first_bids).0, None::<SyncError>),
{
}

} // verus!
