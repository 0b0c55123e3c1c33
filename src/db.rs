//! The local datastore: the tables that the telemetry sync fills and the
//! dashboard reads.

use vstd::prelude::*;
use crate::activities::{
    ArgonActivities, ArgonActivityRecord, BitcoinActivities, BitcoinActivityRecord, BotActivities,
    BotActivityRecord,
};
use crate::cohort_accounts::{CohortAccountRecord, CohortAccounts};
use crate::cohort_frames::{CohortFrameRecord, CohortFrames};
use crate::cohorts::{CohortRecord, Cohorts};
use crate::frames::{FrameRecord, Frames};

verus! {

/// Why a query of the datastore has no answer.
#[derive(Clone, Copy, Debug, PartialEq, Eq, Structural)]
pub enum DbError {
    /// A total or a derived value does not fit the type of its column.
    OutOfRange,
    /// A row that the query joins with is absent.
    MissingRow,
}

/// All tables of the datastore.
pub struct DB {
    pub frames: Frames,
    pub cohorts: Cohorts,
    pub cohort_frames: CohortFrames,
    pub cohort_accounts: CohortAccounts,
    pub argon_activities: ArgonActivities,
    pub bitcoin_activities: BitcoinActivities,
    pub bot_activities: BotActivities,
}

/// The contents of every table of the datastore.
pub struct DbView {
    pub frames: Seq<FrameRecord>,
    pub cohorts: Seq<CohortRecord>,
    pub cohort_frames: Seq<CohortFrameRecord>,
    pub cohort_accounts: Seq<CohortAccountRecord>,
    pub argon_activities: Seq<ArgonActivityRecord>,
    pub bitcoin_activities: Seq<BitcoinActivityRecord>,
    pub bot_activities: Seq<BotActivityRecord>,
}

impl View for DB {
    type V = DbView;

    open spec fn view(&self) -> DbView {
        DbView {
            frames: self.frames@,
            cohorts: self.cohorts@,
            cohort_frames: self.cohort_frames@,
            cohort_accounts: self.cohort_accounts@,
            argon_activities: self.argon_activities@,
            bitcoin_activities: self.bitcoin_activities@,
            bot_activities: self.bot_activities@,
        }
    }
}

impl DB {
    /// A datastore with every table empty.
    pub fn new() -> (r: DB)
        ensures
            r@.frames.len() == 0,
            r@.cohorts.len() == 0,
            r@.cohort_frames.len() == 0,
            r@.cohort_accounts.len() == 0,
            r@.argon_activities.len() == 0,
            r@.bitcoin_activities.len() == 0,
            r@.bot_activities.len() == 0,
    {
        DB {
            frames: Frames::new(),
            cohorts: Cohorts::new(),
            cohort_frames: CohortFrames::new(),
            cohort_accounts: CohortAccounts::new(),
            argon_activities: ArgonActivities::new(),
            bitcoin_activities: BitcoinActivities::new(),
            bot_activities: BotActivities::new(),
        }
    }
}

} // verus!
