//! Append-only logs of observed state changes, kept for display.

use vstd::prelude::*;
use crate::table::newest_first;

verus! {

/// A change of the argon chain head: the local node's block and the main chain's.
#[derive(Debug)]
pub struct ArgonActivityRecord {
    pub localhost_block_number: u32,
    pub mainchain_block_number: u32,
    pub inserted_at: String,
}

impl Clone for ArgonActivityRecord {
    fn clone(&self) -> (r: Self)
        ensures
            r == *self,
    {
        ArgonActivityRecord {
            localhost_block_number: self.localhost_block_number,
            mainchain_block_number: self.mainchain_block_number,
            inserted_at: self.inserted_at.clone(),
        }
    }
}

/// The log of argon chain head changes.
pub struct ArgonActivities {
    rows: Vec<ArgonActivityRecord>,
}

impl View for ArgonActivities {
    type V = Seq<ArgonActivityRecord>;

    closed spec fn view(&self) -> Seq<ArgonActivityRecord> {
        self.rows@
    }
}

impl ArgonActivities {
    /// An empty log.
    pub fn new() -> (r: ArgonActivities)
        ensures
            r@ == Seq::<ArgonActivityRecord>::empty(),
    {
        ArgonActivities { rows: Vec::new() }
    }

    /// Appends an entry observed at `inserted_at`.
    pub fn insert(&mut self, localhost_block: u32, mainchain_block: u32, inserted_at: String) -> (r: ArgonActivityRecord)
        ensures
            r == (ArgonActivityRecord { localhost_block_number: localhost_block, mainchain_block_number: mainchain_block, inserted_at }),
            final(self)@ == old(self)@.push(r),
    {
        let rec = ArgonActivityRecord { localhost_block_number: localhost_block, mainchain_block_number: mainchain_block, inserted_at };
        let out = rec.clone();
        self.rows.push(rec);
        out
    }

    /// The newest entry, if any.
    pub fn latest(&self) -> (r: Option<ArgonActivityRecord>)
        ensures
            r == (if self@.len() == 0 { None } else { Some(self@.last()) }),
    {
        let n = self.rows.len();
        if n == 0 {
            None
        } else {
            Some(self.rows[n - 1].clone())
        }
    }

    /// The five newest entries, newest first.
    pub fn fetch_last_five_records(&self) -> (r: Vec<ArgonActivityRecord>)
        ensures
            r@ == newest_first(self@, 5),
    {
        let n = self.rows.len();
        let k: usize = if n < 5 { n } else { 5 };
        let mut out: Vec<ArgonActivityRecord> = Vec::new();
        let mut j: usize = 0;
        while j < k
            invariant
                n == self.rows@.len(),
                k <= n,
                k == (if n < 5 { n } else { 5 }),
                j <= k,
                out@ == newest_first(self.rows@, 5).subrange(0, j as int),
            decreases k - j,
        {
            out.push(self.rows[n - 1 - j].clone());
            j = j + 1;
            assert(out@ =~= newest_first(self.rows@, 5).subrange(0, j as int));
        }
        assert(out@ =~= newest_first(self.rows@, 5));
        out
    }
}

/// A change of the bitcoin chain head: the local node's block and the main chain's.
#[derive(Debug)]
pub struct BitcoinActivityRecord {
    pub localhost_block_number: u32,
    pub mainchain_block_number: u32,
    pub inserted_at: String,
}

impl Clone for BitcoinActivityRecord {
    fn clone(&self) -> (r: Self)
        ensures
            r == *self,
    {
        BitcoinActivityRecord {
            localhost_block_number: self.localhost_block_number,
            mainchain_block_number: self.mainchain_block_number,
            inserted_at: self.inserted_at.clone(),
        }
    }
}

/// The log of bitcoin chain head changes.
pub struct BitcoinActivities {
    rows: Vec<BitcoinActivityRecord>,
}

impl View for BitcoinActivities {
    type V = Seq<BitcoinActivityRecord>;

    closed spec fn view(&self) -> Seq<BitcoinActivityRecord> {
        self.rows@
    }
}

impl BitcoinActivities {
    /// An empty log.
    pub fn new() -> (r: BitcoinActivities)
        ensures
            r@ == Seq::<BitcoinActivityRecord>::empty(),
    {
        BitcoinActivities { rows: Vec::new() }
    }

    /// Appends an entry observed at `inserted_at`.
    pub fn insert(&mut self, localhost_block: u32, mainchain_block: u32, inserted_at: String) -> (r: BitcoinActivityRecord)
        ensures
            r == (BitcoinActivityRecord { localhost_block_number: localhost_block, mainchain_block_number: mainchain_block, inserted_at }),
            final(self)@ == old(self)@.push(r),
    {
        let rec = BitcoinActivityRecord { localhost_block_number: localhost_block, mainchain_block_number: mainchain_block, inserted_at };
        let out = rec.clone();
        self.rows.push(rec);
        out
    }

    /// The five newest entries, newest first.
    pub fn fetch_last_five_records(&self) -> (r: Vec<BitcoinActivityRecord>)
        ensures
            r@ == newest_first(self@, 5),
    {
        let n = self.rows.len();
        let k: usize = if n < 5 { n } else { 5 };
        let mut out: Vec<BitcoinActivityRecord> = Vec::new();
        let mut j: usize = 0;
        while j < k
            invariant
                n == self.rows@.len(),
                k <= n,
                k == (if n < 5 { n } else { 5 }),
                j <= k,
                out@ == newest_first(self.rows@, 5).subrange(0, j as int),
            decreases k - j,
        {
            out.push(self.rows[n - 1 - j].clone());
            j = j + 1;
            assert(out@ =~= newest_first(self.rows@, 5).subrange(0, j as int));
        }
        assert(out@ =~= newest_first(self.rows@, 5));
        out
    }
}

/// A change reported by the bidding bot.
#[derive(Debug)]
pub struct BotActivityRecord {
    pub action: String,
    pub inserted_at: String,
}

impl Clone for BotActivityRecord {
    fn clone(&self) -> (r: Self)
        ensures
            r == *self,
    {
        BotActivityRecord {
            action: self.action.clone(),
            inserted_at: self.inserted_at.clone(),
        }
    }
}

/// The log of the bidding bot's changes.
pub struct BotActivities {
    rows: Vec<BotActivityRecord>,
}

impl View for BotActivities {
    type V = Seq<BotActivityRecord>;

    closed spec fn view(&self) -> Seq<BotActivityRecord> {
        self.rows@
    }
}

impl BotActivities {
    /// An empty log.
    pub fn new() -> (r: BotActivities)
        ensures
            r@ == Seq::<BotActivityRecord>::empty(),
    {
        BotActivities { rows: Vec::new() }
    }

    /// Appends an entry observed at `inserted_at`.
    pub fn insert(&mut self, action: String, inserted_at: String) -> (r: BotActivityRecord)
        ensures
            r == (BotActivityRecord { action, inserted_at }),
            final(self)@ == old(self)@.push(r),
    {
        let rec = BotActivityRecord { action, inserted_at };
        let out = rec.clone();
        self.rows.push(rec);
        out
    }

    /// The five newest entries, newest first.
    pub fn fetch_last_five_records(&self) -> (r: Vec<BotActivityRecord>)
        ensures
            r@ == newest_first(self@, 5),
    {
        let n = self.rows.len();
        let k: usize = if n < 5 { n } else { 5 };
        let mut out: Vec<BotActivityRecord> = Vec::new();
        let mut j: usize = 0;
        while j < k
            invariant
                n == self.rows@.len(),
                k <= n,
                k == (if n < 5 { n } else { 5 }),
                j <= k,
                out@ == newest_first(self.rows@, 5).subrange(0, j as int),
            decreases k - j,
        {
            out.push(self.rows[n - 1 - j].clone());
            j = j + 1;
            assert(out@ =~= newest_first(self.rows@, 5).subrange(0, j as int));
        }
        assert(out@ =~= newest_first(self.rows@, 5));
        out
    }
}

impl ArgonActivities {
    /// A table holding `rows`, in order, as a saved copy of one.
    pub fn from_rows(rows: Vec<ArgonActivityRecord>) -> (r: ArgonActivities)
        ensures
            r@ == rows@,
    {
        ArgonActivities { rows }
    }

    /// The rows, in order, to be saved.
    pub fn rows(&self) -> (r: &Vec<ArgonActivityRecord>)
        ensures
            r@ == self@,
    {
        &self.rows
    }
}

impl BitcoinActivities {
    /// A table holding `rows`, in order, as a saved copy of one.
    pub fn from_rows(rows: Vec<BitcoinActivityRecord>) -> (r: BitcoinActivities)
        ensures
            r@ == rows@,
    {
        BitcoinActivities { rows }
    }

    /// The rows, in order, to be saved.
    pub fn rows(&self) -> (r: &Vec<BitcoinActivityRecord>)
        ensures
            r@ == self@,
    {
        &self.rows
    }
}

impl BotActivities {
    /// A table holding `rows`, in order, as a saved copy of one.
    pub fn from_rows(rows: Vec<BotActivityRecord>) -> (r: BotActivities)
        ensures
            r@ == rows@,
    {
        BotActivities { rows }
    }

    /// The rows, in order, to be saved.
    pub fn rows(&self) -> (r: &Vec<BotActivityRecord>)
        ensures
            r@ == self@,
    {
        &self.rows
    }
}

} // verus!
