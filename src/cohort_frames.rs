//! The cohort-frames table: what each cohort earned in each frame, one row per
//! (frame, cohort) pair.

use vstd::prelude::*;
use crate::db::DbError;
use crate::table::{index_where, lemma_index_where_at, lemma_sum_of_prefix, sum_of, upsert};

verus! {

/// Earnings of one cohort in one frame.
#[derive(Clone, Copy, Debug, PartialEq, Eq, Structural)]
pub struct CohortFrameRecord {
    pub frame_id: u32,
    pub cohort_id: u32,
    pub blocks_mined: u32,
    pub argonots_mined: u64,
    pub argons_mined: u64,
    pub argons_minted: u64,
}

/// Earnings summed over frames.
#[derive(Clone, Copy, Debug, PartialEq, Eq, Structural)]
pub struct CohortFrameStats {
    pub total_blocks_mined: u32,
    pub total_argonots_mined: u64,
    pub total_argons_mined: u64,
    pub total_argons_minted: u64,
}

/// Matches the row of the pair (`frame_id`, `cohort_id`).
pub open spec fn cohort_frame_with_key(frame_id: u32, cohort_id: u32) -> spec_fn(CohortFrameRecord) -> bool {
    |r: CohortFrameRecord| r.frame_id == frame_id && r.cohort_id == cohort_id
}

/// Whether `r` counts toward the totals of `cohort`; every row counts when no
/// cohort is given.
pub open spec fn counts_for(r: CohortFrameRecord, cohort: Option<u32>) -> bool {
    cohort is None || r.cohort_id == cohort->Some_0
}

/// Blocks mined in a row that counts toward `cohort`, else zero.
pub open spec fn blocks_of(cohort: Option<u32>) -> spec_fn(CohortFrameRecord) -> int {
    |r: CohortFrameRecord| if counts_for(r, cohort) { r.blocks_mined as int } else { 0int }
}

/// Argonots mined in a row that counts toward `cohort`, else zero.
pub open spec fn argonots_of(cohort: Option<u32>) -> spec_fn(CohortFrameRecord) -> int {
    |r: CohortFrameRecord| if counts_for(r, cohort) { r.argonots_mined as int } else { 0int }
}

/// Argons mined in a row that counts toward `cohort`, else zero.
pub open spec fn mined_of(cohort: Option<u32>) -> spec_fn(CohortFrameRecord) -> int {
    |r: CohortFrameRecord| if counts_for(r, cohort) { r.argons_mined as int } else { 0int }
}

/// Argons minted in a row that counts toward `cohort`, else zero.
pub open spec fn minted_of(cohort: Option<u32>) -> spec_fn(CohortFrameRecord) -> int {
    |r: CohortFrameRecord| if counts_for(r, cohort) { r.argons_minted as int } else { 0int }
}

/// The earnings of `cohort` (of all cohorts when `None`) summed over `s`: blocks
/// mined, argonots mined, argons mined and argons minted; an error when one
/// does not fit.
pub open spec fn earnings_totals(s: Seq<CohortFrameRecord>, cohort: Option<u32>) -> Result<(u32, u64, u64, u64), DbError> {
    let blocks = sum_of(s, blocks_of(cohort));
    let argonots = sum_of(s, argonots_of(cohort));
    let mined = sum_of(s, mined_of(cohort));
    let minted = sum_of(s, minted_of(cohort));
    if blocks > u32::MAX || argonots > u64::MAX || mined > u64::MAX || minted > u64::MAX {
        Err(DbError::OutOfRange)
    } else {
        Ok((blocks as u32, argonots as u64, mined as u64, minted as u64))
    }
}

/// The cohort-frames table.
pub struct CohortFrames {
    rows: Vec<CohortFrameRecord>,
}

impl View for CohortFrames {
    type V = Seq<CohortFrameRecord>;

    closed spec fn view(&self) -> Seq<CohortFrameRecord> {
        self.rows@
    }
}

impl CohortFrames {
    /// An empty table.
    pub fn new() -> (r: CohortFrames)
        ensures
            r@ == Seq::<CohortFrameRecord>::empty(),
    {
        CohortFrames { rows: Vec::new() }
    }

    /// Writes the row of the pair (`frame_id`, `cohort_id`), replacing the one
    /// already there.
    pub fn insert_or_update(
        &mut self,
        frame_id: u32,
        cohort_id: u32,
        blocks_mined: u32,
        argonots_mined: u64,
        argons_mined: u64,
        argons_minted: u64,
    ) -> (r: CohortFrameRecord)
        ensures
            r == (CohortFrameRecord { frame_id, cohort_id, blocks_mined, argonots_mined, argons_mined, argons_minted }),
            final(self)@ == upsert(old(self)@, cohort_frame_with_key(frame_id, cohort_id), r),
    {
        let rec = CohortFrameRecord { frame_id, cohort_id, blocks_mined, argonots_mined, argons_mined, argons_minted };
        match self.index_of(frame_id, cohort_id) {
            Some(i) => {
                self.rows.set(i, rec);
            },
            None => {
                self.rows.push(rec);
            },
        }
        rec
    }

    fn index_of(&self, frame_id: u32, cohort_id: u32) -> (r: Option<usize>)
        ensures
            match r {
                Some(i) => i < self@.len() && i as int == index_where(self@, cohort_frame_with_key(frame_id, cohort_id)),
                None => index_where(self@, cohort_frame_with_key(frame_id, cohort_id)) == -1,
            },
    {
        let ghost p = cohort_frame_with_key(frame_id, cohort_id);
        let mut i: usize = self.rows.len();
        while i > 0
            invariant
                i <= self.rows@.len(),
                p == cohort_frame_with_key(frame_id, cohort_id),
                forall|j: int| i <= j < self.rows@.len() ==> !p(#[trigger] self.rows@[j]),
            decreases i,
        {
            if self.rows[i - 1].frame_id == frame_id && self.rows[i - 1].cohort_id == cohort_id {
                proof {
                    lemma_index_where_at(self.rows@, p, i - 1);
                }
                return Some(i - 1);
            }
            i = i - 1;
        }
        proof {
            lemma_index_where_at(self.rows@, p, -1);
        }
        None
    }

    fn totals(&self, cohort: Option<u32>) -> (r: Result<(u32, u64, u64, u64), DbError>)
        ensures
            r == earnings_totals(self@, cohort),
    {
        let ghost s = self.rows@;
        let ghost n = s.len() as int;
        let mut blocks: u32 = 0;
        let mut argonots: u64 = 0;
        let mut mined: u64 = 0;
        let mut minted: u64 = 0;
        let mut i: usize = 0;
        while i < self.rows.len()
            invariant
                s == self.rows@,
                n == s.len(),
                i <= n,
                blocks == sum_of(s.subrange(0, i as int), blocks_of(cohort)),
                argonots == sum_of(s.subrange(0, i as int), argonots_of(cohort)),
                mined == sum_of(s.subrange(0, i as int), mined_of(cohort)),
                minted == sum_of(s.subrange(0, i as int), minted_of(cohort)),
            decreases n - i,
        {
            let r = self.rows[i];
            proof {
                assert(s.subrange(0, i + 1).drop_last() =~= s.subrange(0, i as int));
                assert(s.subrange(0, n) =~= s);
                assert(forall|x: CohortFrameRecord| #[trigger] blocks_of(cohort)(x) >= 0);
                assert(forall|x: CohortFrameRecord| #[trigger] argonots_of(cohort)(x) >= 0);
                assert(forall|x: CohortFrameRecord| #[trigger] mined_of(cohort)(x) >= 0);
                assert(forall|x: CohortFrameRecord| #[trigger] minted_of(cohort)(x) >= 0);
                lemma_sum_of_prefix(s, blocks_of(cohort), i + 1, n);
                lemma_sum_of_prefix(s, argonots_of(cohort), i + 1, n);
                lemma_sum_of_prefix(s, mined_of(cohort), i + 1, n);
                lemma_sum_of_prefix(s, minted_of(cohort), i + 1, n);
            }
            let counts = match cohort {
                None => true,
                Some(c) => r.cohort_id == c,
            };
            if counts {
                match blocks.checked_add(r.blocks_mined) {
                    None => return Err(DbError::OutOfRange),
                    Some(x) => {
                        blocks = x;
                    },
                }
                match argonots.checked_add(r.argonots_mined) {
                    None => return Err(DbError::OutOfRange),
                    Some(x) => {
                        argonots = x;
                    },
                }
                match mined.checked_add(r.argons_mined) {
                    None => return Err(DbError::OutOfRange),
                    Some(x) => {
                        mined = x;
                    },
                }
                match minted.checked_add(r.argons_minted) {
                    None => return Err(DbError::OutOfRange),
                    Some(x) => {
                        minted = x;
                    },
                }
            }
            i = i + 1;
        }
        proof {
            assert(s.subrange(0, n) =~= s);
        }
        Ok((blocks, argonots, mined, minted))
    }

    /// Earnings of all cohorts over all frames.
    pub fn fetch_global_stats(&self) -> (r: Result<(u32, u64, u64, u64), DbError>)
        ensures
            r == earnings_totals(self@, None),
    {
        self.totals(None)
    }

    /// Earnings of cohort `cohort_id` over all frames.
    pub fn fetch_cohort_stats(&self, cohort_id: u32) -> (r: Result<(u32, u64, u64, u64), DbError>)
        ensures
            r == earnings_totals(self@, Some(cohort_id)),
    {
        self.totals(Some(cohort_id))
    }
}

impl CohortFrames {
    /// A table holding `rows`, in order, as a saved copy of one.
    pub fn from_rows(rows: Vec<CohortFrameRecord>) -> (r: CohortFrames)
        ensures
            r@ == rows@,
    {
        CohortFrames { rows }
    }

    /// The rows, in order, to be saved.
    pub fn rows(&self) -> (r: &Vec<CohortFrameRecord>)
        ensures
            r@ == self@,
    {
        &self.rows
    }
}

} // verus!
