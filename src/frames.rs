//! The frames table: one row per time window of the chain, keyed by its id.

use vstd::prelude::*;
use crate::table::{find_where, index_where, lemma_index_where_at, upsert};

verus! {

/// One time window. `progress` is in hundredths of a percent; a processed
/// frame is final and never fetched again.
#[derive(Clone, Copy, Debug, PartialEq, Eq, Structural)]
pub struct FrameRecord {
    pub id: u32,
    pub progress: u32,
    pub tick_start: u32,
    pub tick_end: u32,
    pub is_processed: bool,
}

/// Matches the row of frame `id`.
pub open spec fn frame_with_id(id: u32) -> spec_fn(FrameRecord) -> bool {
    |r: FrameRecord| r.id == id
}

/// `s` with the row matched by `p` replaced by `r`; unchanged when no row matches.
pub open spec fn update_where<T>(s: Seq<T>, p: spec_fn(T) -> bool, r: T) -> Seq<T> {
    let i = index_where(s, p);
    if i >= 0 {
        s.update(i, r)
    } else {
        s
    }
}

/// The largest frame id in `s`, or 0 when there is none.
pub open spec fn max_frame_id(s: Seq<FrameRecord>) -> u32
    decreases s.len(),
{
    if s.len() == 0 {
        0
    } else {
        let m = max_frame_id(s.drop_last());
        if s.last().id > m {
            s.last().id
        } else {
            m
        }
    }
}

/// The frames table.
pub struct Frames {
    rows: Vec<FrameRecord>,
}

impl View for Frames {
    type V = Seq<FrameRecord>;

    closed spec fn view(&self) -> Seq<FrameRecord> {
        self.rows@
    }
}

impl Frames {
    /// An empty table.
    pub fn new() -> (r: Frames)
        ensures
            r@ == Seq::<FrameRecord>::empty(),
    {
        Frames { rows: Vec::new() }
    }

    fn index_of(&self, id: u32) -> (r: Option<usize>)
        ensures
            match r {
                Some(i) => i < self@.len() && i as int == index_where(self@, frame_with_id(id)),
                None => index_where(self@, frame_with_id(id)) == -1,
            },
    {
        let mut i: usize = self.rows.len();
        while i > 0
            invariant
                i <= self.rows@.len(),
                forall|j: int| i <= j < self.rows@.len() ==> !frame_with_id(id)(#[trigger] self.rows@[j]),
            decreases i,
        {
            if self.rows[i - 1].id == id {
                proof {
                    lemma_index_where_at(self.rows@, frame_with_id(id), i - 1);
                }
                return Some(i - 1);
            }
            i = i - 1;
        }
        proof {
            lemma_index_where_at(self.rows@, frame_with_id(id), -1);
        }
        None
    }

    /// Writes the row of frame `id`, replacing the one already there.
    pub fn insert_or_update(&mut self, id: u32, tick_start: u32, tick_end: u32, progress: u32, is_processed: bool) -> (r: FrameRecord)
        ensures
            r == (FrameRecord { id, progress, tick_start, tick_end, is_processed }),
            final(self)@ == upsert(old(self)@, frame_with_id(id), r),
    {
        let rec = FrameRecord { id, progress, tick_start, tick_end, is_processed };
        match self.index_of(id) {
            Some(i) => {
                self.rows.set(i, rec);
            },
            None => {
                self.rows.push(rec);
            },
        }
        rec
    }

    /// Rewrites the row of frame `id`, if there is one.
    pub fn update(&mut self, id: u32, tick_start: u32, tick_end: u32, progress: u32, is_processed: bool)
        ensures
            final(self)@ == update_where(
                old(self)@,
                frame_with_id(id),
                FrameRecord { id, progress, tick_start, tick_end, is_processed },
            ),
    {
        let rec = FrameRecord { id, progress, tick_start, tick_end, is_processed };
        match self.index_of(id) {
            Some(i) => {
                self.rows.set(i, rec);
            },
            None => {},
        }
    }

    /// The row of frame `id`, if there is one.
    pub fn fetch_by_id(&self, id: u32) -> (r: Option<FrameRecord>)
        ensures
            r == find_where(self@, frame_with_id(id)),
    {
        match self.index_of(id) {
            Some(i) => Some(self.rows[i]),
            None => None,
        }
    }

    /// The number of rows.
    pub fn fetch_record_count(&self) -> (r: usize)
        ensures
            r == self@.len(),
    {
        self.rows.len()
    }

    /// The largest frame id stored, or 0 when the table is empty.
    pub fn latest_id(&self) -> (r: u32)
        ensures
            r == max_frame_id(self@),
    {
        let mut m: u32 = 0;
        let mut i: usize = 0;
        while i < self.rows.len()
            invariant
                i <= self.rows@.len(),
                m == max_frame_id(self.rows@.subrange(0, i as int)),
            decreases self.rows@.len() - i,
        {
            proof {
                assert(self.rows@.subrange(0, i + 1).drop_last() =~= self.rows@.subrange(0, i as int));
            }
            if self.rows[i].id > m {
                m = self.rows[i].id;
            }
            i = i + 1;
        }
        proof {
            assert(self.rows@.subrange(0, i as int) =~= self.rows@);
        }
        m
    }
}

impl Frames {
    /// A table holding `rows`, in order, as a saved copy of one.
    pub fn from_rows(rows: Vec<FrameRecord>) -> (r: Frames)
        ensures
            r@ == rows@,
    {
        Frames { rows }
    }

    /// The rows, in order, to be saved.
    pub fn rows(&self) -> (r: &Vec<FrameRecord>)
        ensures
            r@ == self@,
    {
        &self.rows
    }
}

} // verus!
