//! The cohorts table: one row per bidding cohort, keyed by the frame at which
//! the cohort was activated.

use vstd::prelude::*;
use crate::db::DbError;
use crate::frames::{frame_with_id, FrameRecord, Frames};
use crate::table::{
    find_where, index_where, lemma_index_where_at, lemma_sum_of_prefix, sum_of, upsert,
};

verus! {

/// Number of ticks in a cohort's term: ten frames of 1440 ticks.
pub const COHORT_TICKS: u32 = 14400;

/// Number of frames for which a cohort counts as active.
pub const ACTIVE_COHORT_FRAMES: u32 = 10;

/// One cohort. `progress` is in hundredths of a percent of its term.
#[derive(Clone, Copy, Debug, PartialEq, Eq, Structural)]
pub struct CohortRecord {
    pub id: u32,
    pub progress: u64,
    pub transaction_fees: u64,
    pub argonots_staked: u64,
    pub argons_bid: u64,
    pub seats_won: u32,
}

/// A cohort that won seats, with the tick range of its term.
#[derive(Clone, Copy, Debug, PartialEq, Eq, Structural)]
pub struct CohortRecordWithTicks {
    pub id: u32,
    pub frame_tick_start: u32,
    pub frame_tick_end: u32,
    pub transaction_fees: u64,
    pub argonots_staked: u64,
    pub argons_bid: u64,
    pub seats_won: u32,
}

/// Matches the row of cohort `id`.
pub open spec fn cohort_with_id(id: u32) -> spec_fn(CohortRecord) -> bool {
    |r: CohortRecord| r.id == id
}

/// Matches the row of cohort `id` when it won seats.
pub open spec fn active_cohort_with_id(id: u32) -> spec_fn(CohortRecord) -> bool {
    |r: CohortRecord| r.id == id && r.seats_won > 0
}

/// The largest id of a cohort that won seats.
pub open spec fn latest_active_id(s: Seq<CohortRecord>) -> Option<u32>
    decreases s.len(),
{
    if s.len() == 0 {
        None
    } else {
        let m = latest_active_id(s.drop_last());
        let r = s.last();
        if r.seats_won > 0 && (m is None || r.id > m->Some_0) {
            Some(r.id)
        } else {
            m
        }
    }
}

/// The cohort `id` with the ticks of its first frame, as `fetch_by_id` reads it.
pub open spec fn cohort_with_ticks(cohorts: Seq<CohortRecord>, frames: Seq<FrameRecord>, id: u32) -> Result<Option<CohortRecordWithTicks>, DbError> {
    match find_where(cohorts, active_cohort_with_id(id)) {
        None => Ok(None),
        Some(c) => match find_where(frames, frame_with_id(id)) {
            None => Err(DbError::MissingRow),
            Some(f) => if f.tick_start + COHORT_TICKS > u32::MAX {
                Err(DbError::OutOfRange)
            } else {
                Ok(Some(CohortRecordWithTicks {
                    id: c.id,
                    frame_tick_start: f.tick_start,
                    frame_tick_end: (f.tick_start + COHORT_TICKS) as u32,
                    transaction_fees: c.transaction_fees,
                    argonots_staked: c.argonots_staked,
                    argons_bid: c.argons_bid,
                    seats_won: c.seats_won,
                }))
            },
        },
    }
}

/// The first cohort id that still counts as active in frame `current`.
pub open spec fn oldest_active_id(current: u32) -> u32 {
    if current <= ACTIVE_COHORT_FRAMES + 1 { 1 } else { (current - ACTIVE_COHORT_FRAMES) as u32 }
}

/// A cohort's transaction fees, as summed by the totals.
pub open spec fn fee_of() -> spec_fn(CohortRecord) -> int {
    |r: CohortRecord| r.transaction_fees as int
}

/// A cohort's total bid, as summed by the totals.
pub open spec fn bid_of() -> spec_fn(CohortRecord) -> int {
    |r: CohortRecord| r.argons_bid as int
}

/// One for a cohort from `oldest` on, else zero.
pub open spec fn active_count_of(oldest: u32) -> spec_fn(CohortRecord) -> int {
    |r: CohortRecord| if r.id >= oldest { 1int } else { 0int }
}

/// The seats of a cohort from `oldest` on, else zero.
pub open spec fn active_seats_of(oldest: u32) -> spec_fn(CohortRecord) -> int {
    |r: CohortRecord| if r.id >= oldest { r.seats_won as int } else { 0int }
}

/// The totals over `s` as `fetch_global_stats` reports them: active cohorts,
/// their seats, all fees and all bids; an error when one does not fit.
pub open spec fn cohort_totals(s: Seq<CohortRecord>, current: u32) -> Result<(u32, u32, u64, u64), DbError> {
    let oldest = oldest_active_id(current);
    let active = sum_of(s, active_count_of(oldest));
    let seats = sum_of(s, active_seats_of(oldest));
    let fees = sum_of(s, fee_of());
    let bids = sum_of(s, bid_of());
    if active > u32::MAX || seats > u32::MAX || fees > u64::MAX || bids > u64::MAX {
        Err(DbError::OutOfRange)
    } else {
        Ok((active as u32, seats as u32, fees as u64, bids as u64))
    }
}

/// The cohorts table.
pub struct Cohorts {
    rows: Vec<CohortRecord>,
}

impl View for Cohorts {
    type V = Seq<CohortRecord>;

    closed spec fn view(&self) -> Seq<CohortRecord> {
        self.rows@
    }
}

impl Cohorts {
    /// An empty table.
    pub fn new() -> (r: Cohorts)
        ensures
            r@ == Seq::<CohortRecord>::empty(),
    {
        Cohorts { rows: Vec::new() }
    }

    fn index_where_id(&self, id: u32, active_only: bool) -> (r: Option<usize>)
        ensures
            match r {
                Some(i) => i < self@.len() && i as int == index_where(
                    self@,
                    if active_only { active_cohort_with_id(id) } else { cohort_with_id(id) },
                ),
                None => index_where(
                    self@,
                    if active_only { active_cohort_with_id(id) } else { cohort_with_id(id) },
                ) == -1,
            },
    {
        let ghost p = if active_only { active_cohort_with_id(id) } else { cohort_with_id(id) };
        let mut i: usize = self.rows.len();
        while i > 0
            invariant
                i <= self.rows@.len(),
                p == (if active_only { active_cohort_with_id(id) } else { cohort_with_id(id) }),
                forall|j: int| i <= j < self.rows@.len() ==> !p(#[trigger] self.rows@[j]),
            decreases i,
        {
            let r = self.rows[i - 1];
            if r.id == id && (!active_only || r.seats_won > 0) {
                proof {
                    lemma_index_where_at(self.rows@, p, i - 1);
                }
                return Some(i - 1);
            }
            i = i - 1;
        }
        proof {
            lemma_index_where_at(self.rows@, p, -1);
        }
        None
    }

    /// Writes the row of cohort `id`, replacing the one already there.
    pub fn insert_or_update(
        &mut self,
        id: u32,
        progress: u64,
        transaction_fees: u64,
        argonots_staked: u64,
        argons_bid: u64,
        seats_won: u32,
    ) -> (r: CohortRecord)
        ensures
            r == (CohortRecord { id, progress, transaction_fees, argonots_staked, argons_bid, seats_won }),
            final(self)@ == upsert(old(self)@, cohort_with_id(id), r),
    {
        let rec = CohortRecord { id, progress, transaction_fees, argonots_staked, argons_bid, seats_won };
        match self.index_where_id(id, false) {
            Some(i) => {
                self.rows.set(i, rec);
            },
            None => {
                self.rows.push(rec);
            },
        }
        rec
    }

    /// The largest id of a cohort that won seats, if any.
    pub fn fetch_latest_active_id(&self) -> (r: Option<u32>)
        ensures
            r == latest_active_id(self@),
    {
        let mut m: Option<u32> = None;
        let mut i: usize = 0;
        while i < self.rows.len()
            invariant
                i <= self.rows@.len(),
                m == latest_active_id(self.rows@.subrange(0, i as int)),
            decreases self.rows@.len() - i,
        {
            proof {
                assert(self.rows@.subrange(0, i + 1).drop_last() =~= self.rows@.subrange(0, i as int));
            }
            let r = self.rows[i];
            if r.seats_won > 0 {
                match m {
                    None => {
                        m = Some(r.id);
                    },
                    Some(x) => {
                        if r.id > x {
                            m = Some(r.id);
                        }
                    },
                }
            }
            i = i + 1;
        }
        proof {
            assert(self.rows@.subrange(0, i as int) =~= self.rows@);
        }
        m
    }

    /// Cohort `id`, when it won seats, with the tick range of its term, which
    /// starts at the first tick of frame `id`.
    pub fn fetch_by_id(&self, frames: &Frames, id: u32) -> (r: Result<Option<CohortRecordWithTicks>, DbError>)
        ensures
            r == cohort_with_ticks(self@, frames@, id),
    {
        match self.index_where_id(id, true) {
            None => Ok(None),
            Some(i) => {
                let c = self.rows[i];
                match frames.fetch_by_id(id) {
                    None => Err(DbError::MissingRow),
                    Some(f) => {
                        match f.tick_start.checked_add(COHORT_TICKS) {
                            None => Err(DbError::OutOfRange),
                            Some(end) => Ok(Some(CohortRecordWithTicks {
                                id: c.id,
                                frame_tick_start: f.tick_start,
                                frame_tick_end: end,
                                transaction_fees: c.transaction_fees,
                                argonots_staked: c.argonots_staked,
                                argons_bid: c.argons_bid,
                                seats_won: c.seats_won,
                            })),
                        }
                    },
                }
            },
        }
    }

    /// Active cohorts and their seats as of frame `current_frame_id`, with the
    /// fees and bids of all cohorts.
    pub fn fetch_global_stats(&self, current_frame_id: u32) -> (r: Result<(u32, u32, u64, u64), DbError>)
        ensures
            r == cohort_totals(self@, current_frame_id),
    {
        let oldest: u32 = if current_frame_id <= ACTIVE_COHORT_FRAMES + 1 {
            1
        } else {
            current_frame_id - ACTIVE_COHORT_FRAMES
        };
        let ghost s = self.rows@;
        let ghost n = s.len() as int;
        let mut active: u32 = 0;
        let mut seats: u32 = 0;
        let mut fees: u64 = 0;
        let mut bids: u64 = 0;
        let mut i: usize = 0;
        while i < self.rows.len()
            invariant
                s == self.rows@,
                n == s.len(),
                oldest == oldest_active_id(current_frame_id),
                i <= n,
                active == sum_of(s.subrange(0, i as int), active_count_of(oldest)),
                seats == sum_of(s.subrange(0, i as int), active_seats_of(oldest)),
                fees == sum_of(s.subrange(0, i as int), fee_of()),
                bids == sum_of(s.subrange(0, i as int), bid_of()),
            decreases n - i,
        {
            let r = self.rows[i];
            proof {
                assert(s.subrange(0, i + 1).drop_last() =~= s.subrange(0, i as int));
                assert(s.subrange(0, n) =~= s);
                assert(forall|x: CohortRecord| #[trigger] active_count_of(oldest)(x) >= 0);
                assert(forall|x: CohortRecord| #[trigger] active_seats_of(oldest)(x) >= 0);
                assert(forall|x: CohortRecord| #[trigger] fee_of()(x) >= 0);
                assert(forall|x: CohortRecord| #[trigger] bid_of()(x) >= 0);
                lemma_sum_of_prefix(s, active_count_of(oldest), i + 1, n);
                lemma_sum_of_prefix(s, active_seats_of(oldest), i + 1, n);
                lemma_sum_of_prefix(s, fee_of(), i + 1, n);
                lemma_sum_of_prefix(s, bid_of(), i + 1, n);
            }
            let in_term = r.id >= oldest;
            if in_term {
                match active.checked_add(1) {
                    None => return Err(DbError::OutOfRange),
                    Some(x) => {
                        active = x;
                    },
                }
                match seats.checked_add(r.seats_won) {
                    None => return Err(DbError::OutOfRange),
                    Some(x) => {
                        seats = x;
                    },
                }
            }
            match fees.checked_add(r.transaction_fees) {
                None => return Err(DbError::OutOfRange),
                Some(x) => {
                    fees = x;
                },
            }
            match bids.checked_add(r.argons_bid) {
                None => return Err(DbError::OutOfRange),
                Some(x) => {
                    bids = x;
                },
            }
            i = i + 1;
        }
        proof {
            assert(s.subrange(0, n) =~= s);
        }
        Ok((active, seats, fees, bids))
    }
}

impl Cohorts {
    /// A table holding `rows`, in order, as a saved copy of one.
    pub fn from_rows(rows: Vec<CohortRecord>) -> (r: Cohorts)
        ensures
            r@ == rows@,
    {
        Cohorts { rows }
    }

    /// The rows, in order, to be saved.
    pub fn rows(&self) -> (r: &Vec<CohortRecord>)
        ensures
            r@ == self@,
    {
        &self.rows
    }
}

} // verus!
