//! One telemetry poll: chain heads and bot file changes are logged only when
//! they differ from what the previous poll saw.

use vstd::prelude::*;
use crate::activities::{ArgonActivityRecord, BitcoinActivityRecord};
use crate::db::DB;
use crate::structs::IBotStatus;
use crate::syncer::{StatsSyncer, SyncError};
use crate::text::{decimal_value, is_decimal, parse_u32, pieces, split, trim, trimmed};

verus! {

/// Whether `s`, once trimmed, is a block number.
pub open spec fn is_block_number(s: Seq<char>) -> bool {
    is_decimal(trimmed(s)) && decimal_value(trimmed(s)) <= u32::MAX
}

/// The (local, main chain) block numbers in the output of a head probe, written
/// `local-mainchain` with optional whitespace around each part.
pub open spec fn block_pair_of(output: Seq<char>) -> Option<(u32, u32)> {
    let parts = pieces(trimmed(output), '-');
    if parts.len() == 2 && is_block_number(parts[0]) && is_block_number(parts[1]) {
        Some((decimal_value(trimmed(parts[0])) as u32, decimal_value(trimmed(parts[1])) as u32))
    } else {
        None
    }
}

/// The last pair seen and the log after a probe observes `pair`: a row is
/// logged, and the pair remembered, only when it differs from `last`.
pub open spec fn head_step<R>(last: (u32, u32), log: Seq<R>, pair: (u32, u32), row: R) -> ((u32, u32), Seq<R>) {
    if last != pair {
        (pair, log.push(row))
    } else {
        (last, log)
    }
}

/// Two probes in a row that observe the same pair log one row between them
/// when the pair is new, and none when it is not: the second probe never logs.
pub proof fn lemma_repeated_head_logged_once<R>(last: (u32, u32), log: Seq<R>, pair: (u32, u32), first: R, second: R)
    ensures
        ({
            let (l1, g1) = head_step(last, log, pair, first);
            let (l2, g2) = head_step(l1, g1, pair, second);
            &&& g2 == g1
            &&& l2 == pair
            &&& g2.len() == log.len() + (if last != pair { 1int } else { 0int })
        }),
{
}

/// Reads the block numbers in the output of a head probe.
pub fn parse_block_numbers(output: &str) -> (r: Result<(u32, u32), SyncError>)
    ensures
        match block_pair_of(output@) {
            Some(p) => r == Ok::<(u32, u32), SyncError>(p),
            None => r == Err::<(u32, u32), SyncError>(SyncError::RemoteParseFailure),
        },
{
    let t = trim(output);
    let parts = split(t.as_str(), '-');
    proof {
        assert(parts@.len() == pieces(trimmed(output@), '-').len());
    }
    if parts.len() != 2 {
        return Err(SyncError::RemoteParseFailure);
    }
    proof {
        assert(parts@[0]@ == pieces(trimmed(output@), '-')[0]);
        assert(parts@[1]@ == pieces(trimmed(output@), '-')[1]);
    }
    let a = trim(parts[0].as_str());
    let b = trim(parts[1].as_str());
    match (parse_u32(a.as_str()), parse_u32(b.as_str())) {
        (Some(x), Some(y)) => Ok((x, y)),
        _ => Err(SyncError::RemoteParseFailure),
    }
}

/// Consecutive failed polls after which the sync error is kept for good.
pub const MAX_CONSECUTIVE_SYNC_FAILURES: u32 = 3;

/// Counts the polls that failed in a row.
#[derive(Clone, Copy, Debug, PartialEq, Eq, Structural)]
pub struct SyncFailures {
    pub consecutive: u32,
}

impl SyncFailures {
    /// No failure yet.
    pub fn new() -> (r: SyncFailures)
        ensures
            r.consecutive == 0,
    {
        SyncFailures { consecutive: 0 }
    }

    /// Records the outcome of a poll and says whether the failures are now
    /// fatal: a success resets the count; the count stops growing at the limit.
    pub fn record(&mut self, succeeded: bool) -> (fatal: bool)
        ensures
            final(self).consecutive == (if succeeded {
                0
            } else if old(self).consecutive < MAX_CONSECUTIVE_SYNC_FAILURES {
                old(self).consecutive + 1
            } else {
                MAX_CONSECUTIVE_SYNC_FAILURES as int
            }),
            fatal == (final(self).consecutive >= MAX_CONSECUTIVE_SYNC_FAILURES),
    {
        if succeeded {
            self.consecutive = 0;
        } else if self.consecutive < MAX_CONSECUTIVE_SYNC_FAILURES {
            self.consecutive = self.consecutive + 1;
        } else {
            self.consecutive = MAX_CONSECUTIVE_SYNC_FAILURES;
        }
        self.consecutive >= MAX_CONSECUTIVE_SYNC_FAILURES
    }
}

impl StatsSyncer {
    /// A poll state that has seen nothing yet.
    pub fn new() -> (r: StatsSyncer)
        ensures
            r.last_argon_block_numbers == (0u32, 0u32),
            r.last_bitcoin_block_numbers == (0u32, 0u32),
            r.bids_last_modified_at@.len() == 0,
            r.earnings_last_modified_at@.len() == 0,
    {
        StatsSyncer {
            last_argon_block_numbers: (0, 0),
            last_bitcoin_block_numbers: (0, 0),
            bids_last_modified_at: String::new(),
            earnings_last_modified_at: String::new(),
        }
    }

    /// Takes the output of the argon head probe, seen at `inserted_at`, and
    /// logs the pair it reads when it differs from the last one seen.
    pub fn update_argon_blockchain_status(&mut self, db: &mut DB, output: &str, inserted_at: String) -> (r: Result<(u32, u32), SyncError>)
        ensures
            match block_pair_of(output@) {
                None => r == Err::<(u32, u32), SyncError>(SyncError::RemoteParseFailure)
                    && *final(self) == *old(self) && final(db)@ == old(db)@,
                Some(p) => r == Ok::<(u32, u32), SyncError>(p) && {
                    let (l, g) = head_step(
                        old(self).last_argon_block_numbers,
                        old(db)@.argon_activities,
                        p,
                        ArgonActivityRecord { localhost_block_number: p.0, mainchain_block_number: p.1, inserted_at },
                    );
                    &&& final(self).last_argon_block_numbers == l
                    &&& final(db)@.argon_activities == g
                    &&& final(self).last_bitcoin_block_numbers == old(self).last_bitcoin_block_numbers
                    &&& final(self).bids_last_modified_at == old(self).bids_last_modified_at
                    &&& final(self).earnings_last_modified_at == old(self).earnings_last_modified_at
                    &&& final(db)@ == (crate::db::DbView { argon_activities: g, ..old(db)@ })
                },
            },
    {
        let pair = parse_block_numbers(output)?;
        if self.last_argon_block_numbers.0 != pair.0 || self.last_argon_block_numbers.1 != pair.1 {
            db.argon_activities.insert(pair.0, pair.1, inserted_at);
            self.last_argon_block_numbers = pair;
        }
        Ok(pair)
    }

    /// Takes the output of the bitcoin head probe, seen at `inserted_at`, and
    /// logs the pair it reads when it differs from the last one seen.
    pub fn update_bitcoin_blockchain_status(&mut self, db: &mut DB, output: &str, inserted_at: String) -> (r: Result<(u32, u32), SyncError>)
        ensures
            match block_pair_of(output@) {
                None => r == Err::<(u32, u32), SyncError>(SyncError::RemoteParseFailure)
                    && *final(self) == *old(self) && final(db)@ == old(db)@,
                Some(p) => r == Ok::<(u32, u32), SyncError>(p) && {
                    let (l, g) = head_step(
                        old(self).last_bitcoin_block_numbers,
                        old(db)@.bitcoin_activities,
                        p,
                        BitcoinActivityRecord { localhost_block_number: p.0, mainchain_block_number: p.1, inserted_at },
                    );
                    &&& final(self).last_bitcoin_block_numbers == l
                    &&& final(db)@.bitcoin_activities == g
                    &&& final(self).last_argon_block_numbers == old(self).last_argon_block_numbers
                    &&& final(self).bids_last_modified_at == old(self).bids_last_modified_at
                    &&& final(self).earnings_last_modified_at == old(self).earnings_last_modified_at
                    &&& final(db)@ == (crate::db::DbView { bitcoin_activities: g, ..old(db)@ })
                },
            },
    {
        let pair = parse_block_numbers(output)?;
        if self.last_bitcoin_block_numbers.0 != pair.0 || self.last_bitcoin_block_numbers.1 != pair.1 {
            db.bitcoin_activities.insert(pair.0, pair.1, inserted_at);
            self.last_bitcoin_block_numbers = pair;
        }
        Ok(pair)
    }

    /// Logs that the bids changed when the bot's bids file carries a time other
    /// than the last one seen; says whether it did.
    pub fn insert_db_bidding_activity(&mut self, db: &mut DB, status: &IBotStatus) -> (r: bool)
        ensures
            r == (old(self).bids_last_modified_at@ != status.bids_last_modified_at@),
            r ==> final(self).bids_last_modified_at == status.bids_last_modified_at
                && final(db)@ == (crate::db::DbView { bot_activities: final(db)@.bot_activities, ..old(db)@ })
                && final(db)@.bot_activities.drop_last() == old(db)@.bot_activities
                && final(db)@.bot_activities.len() == old(db)@.bot_activities.len() + 1
                && final(db)@.bot_activities.last().action@ == "biddings changed"@
                && final(db)@.bot_activities.last().inserted_at == status.bids_last_modified_at,
            !r ==> final(self).bids_last_modified_at == old(self).bids_last_modified_at && final(db)@ == old(db)@,
            final(self).earnings_last_modified_at == old(self).earnings_last_modified_at,
            final(self).last_argon_block_numbers == old(self).last_argon_block_numbers,
            final(self).last_bitcoin_block_numbers == old(self).last_bitcoin_block_numbers,
    {
        if self.bids_last_modified_at == status.bids_last_modified_at {
            return false;
        }
        db.bot_activities.insert("biddings changed".to_owned(), status.bids_last_modified_at.clone());
        self.bids_last_modified_at = status.bids_last_modified_at.clone();
        true
    }

    /// Logs that the earnings changed when the bot's earnings file carries a
    /// time other than the last one seen; says whether it did.
    pub fn insert_db_earnings_activity(&mut self, db: &mut DB, status: &IBotStatus) -> (r: bool)
        ensures
            r == (old(self).earnings_last_modified_at@ != status.earnings_last_modified_at@),
            r ==> final(self).earnings_last_modified_at == status.earnings_last_modified_at
                && final(db)@ == (crate::db::DbView { bot_activities: final(db)@.bot_activities, ..old(db)@ })
                && final(db)@.bot_activities.drop_last() == old(db)@.bot_activities
                && final(db)@.bot_activities.len() == old(db)@.bot_activities.len() + 1
                && final(db)@.bot_activities.last().action@ == "earnings changed"@
                && final(db)@.bot_activities.last().inserted_at == status.earnings_last_modified_at,
            !r ==> final(self).earnings_last_modified_at == old(self).earnings_last_modified_at && final(db)@ == old(db)@,
            final(self).bids_last_modified_at == old(self).bids_last_modified_at,
            final(self).last_argon_block_numbers == old(self).last_argon_block_numbers,
            final(self).last_bitcoin_block_numbers == old(self).last_bitcoin_block_numbers,
    {
        if self.earnings_last_modified_at == status.earnings_last_modified_at {
            return false;
        }
        db.bot_activities.insert("earnings changed".to_owned(), status.earnings_last_modified_at.clone());
        self.earnings_last_modified_at = status.earnings_last_modified_at.clone();
        true
    }
}

} // verus!
