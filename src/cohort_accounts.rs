//! The cohort-accounts table: the subaccounts that bid for a cohort, replaced
//! as a whole each time the cohort's bids are read.

use vstd::prelude::*;
use crate::table::rows_where;

verus! {

/// One subaccount's bid in a cohort.
#[derive(Debug)]
pub struct CohortAccountRecord {
    pub frame_id_at_cohort_activation: u32,
    pub idx: u32,
    pub address: String,
    pub argons_bid: u64,
    pub bid_position: u32,
}

impl Clone for CohortAccountRecord {
    fn clone(&self) -> (r: Self)
        ensures
            r == *self,
    {
        CohortAccountRecord {
            frame_id_at_cohort_activation: self.frame_id_at_cohort_activation,
            idx: self.idx,
            address: self.address.clone(),
            argons_bid: self.argons_bid,
            bid_position: self.bid_position,
        }
    }
}

/// Matches the rows of cohort `cohort_id`.
pub open spec fn account_in_cohort(cohort_id: u32) -> spec_fn(CohortAccountRecord) -> bool {
    |r: CohortAccountRecord| r.frame_id_at_cohort_activation == cohort_id
}

/// Matches the rows of every cohort but `cohort_id`.
pub open spec fn account_outside_cohort(cohort_id: u32) -> spec_fn(CohortAccountRecord) -> bool {
    |r: CohortAccountRecord| r.frame_id_at_cohort_activation != cohort_id
}

/// The cohort-accounts table.
pub struct CohortAccounts {
    rows: Vec<CohortAccountRecord>,
}

impl View for CohortAccounts {
    type V = Seq<CohortAccountRecord>;

    closed spec fn view(&self) -> Seq<CohortAccountRecord> {
        self.rows@
    }
}

impl CohortAccounts {
    /// An empty table.
    pub fn new() -> (r: CohortAccounts)
        ensures
            r@ == Seq::<CohortAccountRecord>::empty(),
    {
        CohortAccounts { rows: Vec::new() }
    }

    /// Removes every row of cohort `frame_id_at_cohort_activation`.
    pub fn delete_for_cohort(&mut self, frame_id_at_cohort_activation: u32)
        ensures
            final(self)@ == rows_where(old(self)@, account_outside_cohort(frame_id_at_cohort_activation)),
    {
        let ghost p = account_outside_cohort(frame_id_at_cohort_activation);
        let mut kept: Vec<CohortAccountRecord> = Vec::new();
        let mut i: usize = 0;
        while i < self.rows.len()
            invariant
                i <= self.rows@.len(),
                self.rows@ == old(self).rows@,
                p == account_outside_cohort(frame_id_at_cohort_activation),
                kept@ == rows_where(self.rows@.subrange(0, i as int), p),
            decreases self.rows@.len() - i,
        {
            proof {
                assert(self.rows@.subrange(0, i + 1).drop_last() =~= self.rows@.subrange(0, i as int));
            }
            if self.rows[i].frame_id_at_cohort_activation != frame_id_at_cohort_activation {
                kept.push(self.rows[i].clone());
            }
            i = i + 1;
        }
        proof {
            assert(self.rows@.subrange(0, i as int) =~= self.rows@);
        }
        self.rows = kept;
    }

    /// Adds the bid of subaccount `idx` to cohort `frame_id_at_cohort_activation`.
    pub fn insert(
        &mut self,
        frame_id_at_cohort_activation: u32,
        idx: u32,
        address: String,
        argons_bid: u64,
        bid_position: u32,
    ) -> (r: CohortAccountRecord)
        ensures
            r == (CohortAccountRecord { frame_id_at_cohort_activation, idx, address, argons_bid, bid_position }),
            final(self)@ == old(self)@.push(r),
    {
        let rec = CohortAccountRecord { frame_id_at_cohort_activation, idx, address, argons_bid, bid_position };
        let out = rec.clone();
        self.rows.push(rec);
        out
    }

    /// The rows of cohort `frame_id_at_cohort_activation`, in insertion order.
    pub fn fetch_for_cohort_id(&self, frame_id_at_cohort_activation: u32) -> (r: Vec<CohortAccountRecord>)
        ensures
            r@ == rows_where(self@, account_in_cohort(frame_id_at_cohort_activation)),
    {
        let ghost p = account_in_cohort(frame_id_at_cohort_activation);
        let mut found: Vec<CohortAccountRecord> = Vec::new();
        let mut i: usize = 0;
        while i < self.rows.len()
            invariant
                i <= self.rows@.len(),
                p == account_in_cohort(frame_id_at_cohort_activation),
                found@ == rows_where(self.rows@.subrange(0, i as int), p),
            decreases self.rows@.len() - i,
        {
            proof {
                assert(self.rows@.subrange(0, i + 1).drop_last() =~= self.rows@.subrange(0, i as int));
            }
            if self.rows[i].frame_id_at_cohort_activation == frame_id_at_cohort_activation {
                found.push(self.rows[i].clone());
            }
            i = i + 1;
        }
        proof {
            assert(self.rows@.subrange(0, i as int) =~= self.rows@);
        }
        found
    }
}

impl CohortAccounts {
    /// A table holding `rows`, in order, as a saved copy of one.
    pub fn from_rows(rows: Vec<CohortAccountRecord>) -> (r: CohortAccounts)
        ensures
            r@ == rows@,
    {
        CohortAccounts { rows }
    }

    /// The rows, in order, to be saved.
    pub fn rows(&self) -> (r: &Vec<CohortAccountRecord>)
        ensures
            r@ == self@,
    {
        &self.rows
    }
}

} // verus!
