use argon_commander::db::DB;
use argon_commander::poll::parse_block_numbers;
use argon_commander::structs::{IBidsFile, IBidsFileSubaccount, IBotStatus, IEarningsFile, IEarningsFileCohort};
use argon_commander::syncer::{StatsSyncer, SyncError};

fn sub(index: u32, address: &str, bid: Option<u64>) -> IBidsFileSubaccount {
    IBidsFileSubaccount {
        index,
        address: address.to_string(),
        bid_position: Some(index),
        argons_bid: bid,
        is_rebid: None,
        last_bid_at_tick: None,
    }
}

fn bids(cohort: u32, progress: u32, seats: u32, subs: Vec<IBidsFileSubaccount>) -> IBidsFile {
    IBidsFile {
        frame_id_at_cohort_bidding: cohort - 1,
        frame_id_at_cohort_activation: cohort,
        frame_bidding_progress: progress,
        last_block_number: 0,
        argons_bid_total: 900,
        transaction_fees: 40,
        argonots_staked_per_seat: 1000,
        argons_to_be_mined_per_block: 0,
        seats_won: seats,
        subaccounts: subs,
    }
}

fn cohort_entry(key: &str, blocks: u32) -> (String, IEarningsFileCohort) {
    (
        key.to_string(),
        IEarningsFileCohort {
            last_block_mined_at: String::new(),
            blocks_mined: blocks,
            argons_mined: 10,
            argons_minted: 20,
            argonots_mined: 30,
        },
    )
}

fn earnings(progress: u32, entries: Vec<(String, IEarningsFileCohort)>) -> IEarningsFile {
    IEarningsFile { frame_progress: progress, frame_tick_start: 100, frame_tick_end: 200, last_block_number: 0, by_cohort_frame_id: entries }
}

fn status(bids_at: &str, earnings_at: &str) -> IBotStatus {
    IBotStatus {
        argon_block_numbers: (0, 0),
        bitcoin_block_numbers: (0, 0),
        bids_last_modified_at: bids_at.to_string(),
        earnings_last_modified_at: earnings_at.to_string(),
        has_won_seats: false,
        last_block_number: 0,
        last_finalized_block_number: 0,
        oldest_frame_id_to_sync: 0,
        current_frame_id: 0,
        load_progress: 0,
        queue_depth: 0,
    }
}

#[test]
fn frame_sync_writes_frame_cohort_and_accounts() {
    let mut db = DB::new();
    let e = earnings(10000, vec![cohort_entry("8", 3), cohort_entry("9", 4)]);
    let b = vec![(8, bids(8, 10000, 2, vec![sub(0, "a", Some(5)), sub(1, "b", None)])), (9, bids(9, 5000, 1, vec![]))];
    assert_eq!(StatsSyncer::sync_db_frame(&mut db, 10, &e, &b), Ok(()));
    let f = db.frames.fetch_by_id(10).unwrap();
    assert!(f.is_processed);
    assert_eq!((f.tick_start, f.tick_end, f.progress), (100, 200, 10000));
    assert!(StatsSyncer::is_frame_processed(&db, 10));
    assert_eq!(db.cohort_frames.fetch_global_stats(), Ok((7, 60, 20, 40)));
    let c8 = db.cohorts.fetch_by_id(&db.frames, 8);
    assert_eq!(c8, Err(argon_commander::db::DbError::MissingRow));
    assert_eq!(db.cohorts.fetch_latest_active_id(), Some(8));
    assert_eq!(db.cohorts.fetch_global_stats(10), Ok((1, 2, 40, 900)));
    let accounts = db.cohort_accounts.fetch_for_cohort_id(8);
    assert_eq!(accounts.len(), 2);
    assert_eq!(accounts[1].argons_bid, 0);
    assert!(db.cohort_accounts.fetch_for_cohort_id(9).is_empty());
}

#[test]
fn cohort_progress_and_stake() {
    let mut db = DB::new();
    assert_eq!(StatsSyncer::sync_db_cohort(&mut db, 8, 10, 5000, &bids(8, 10000, 3, vec![])), Ok(()));
    let (active, seats, fees, bid) = db.cohorts.fetch_global_stats(10).unwrap();
    assert_eq!((active, seats, fees, bid), (1, 3, 40, 900));
    let mut frames_db = DB::new();
    frames_db.frames.insert_or_update(8, 7, 9, 0, false);
    StatsSyncer::sync_db_cohort(&mut frames_db, 8, 10, 5000, &bids(8, 10000, 3, vec![])).unwrap();
    let c = frames_db.cohorts.fetch_by_id(&frames_db.frames, 8).unwrap().unwrap();
    assert_eq!(c.argonots_staked, 3000);
}

#[test]
fn second_sync_of_processed_frame_changes_nothing() {
    let mut db = DB::new();
    let e = earnings(10000, vec![cohort_entry("8", 3)]);
    let b = vec![(8, bids(8, 10000, 1, vec![sub(0, "a", Some(5))]))];
    StatsSyncer::sync_db_frame(&mut db, 10, &e, &b).unwrap();
    let other = earnings(5000, vec![cohort_entry("8", 99), cohort_entry("11", 1)]);
    assert_eq!(StatsSyncer::sync_db_frame(&mut db, 10, &other, &Vec::new()), Ok(()));
    assert_eq!(db.cohort_frames.fetch_global_stats(), Ok((3, 30, 10, 20)));
    assert_eq!(db.frames.fetch_record_count(), 1);
    assert_eq!(db.cohort_accounts.fetch_for_cohort_id(8).len(), 1);
}

#[test]
fn open_frame_is_synced_again() {
    let mut db = DB::new();
    let b = vec![(8, bids(8, 10000, 1, vec![]))];
    StatsSyncer::sync_db_frame(&mut db, 10, &earnings(4000, vec![cohort_entry("8", 3)]), &b).unwrap();
    assert!(!StatsSyncer::is_frame_processed(&db, 10));
    StatsSyncer::sync_db_frame(&mut db, 10, &earnings(6000, vec![cohort_entry("8", 5)]), &b).unwrap();
    assert_eq!(db.cohort_frames.fetch_global_stats().unwrap().0, 5);
    assert_eq!(db.frames.fetch_by_id(10).unwrap().progress, 6000);
}

#[test]
fn resync_replaces_accounts() {
    let mut db = DB::new();
    let first = bids(8, 10000, 2, vec![sub(0, "a", Some(1)), sub(1, "b", Some(2)), sub(2, "c", Some(3))]);
    let second = bids(8, 10000, 2, vec![sub(5, "z", Some(9))]);
    StatsSyncer::sync_db_cohort(&mut db, 8, 9, 0, &first).unwrap();
    db.cohort_accounts.insert(7, 0, "other".to_string(), 1, 1);
    StatsSyncer::sync_db_cohort(&mut db, 8, 10, 0, &second).unwrap();
    let rows = db.cohort_accounts.fetch_for_cohort_id(8);
    assert_eq!(rows.len(), 1);
    assert_eq!((rows[0].idx, rows[0].address.as_str(), rows[0].argons_bid), (5, "z", 9));
    assert_eq!(db.cohort_accounts.fetch_for_cohort_id(7).len(), 1);
}

#[test]
fn bad_cohort_key_is_a_parse_failure() {
    let mut db = DB::new();
    let e = earnings(10000, vec![cohort_entry("x8", 3)]);
    assert_eq!(StatsSyncer::sync_db_frame(&mut db, 10, &e, &Vec::new()), Err(SyncError::RemoteParseFailure));
    assert!(!StatsSyncer::is_frame_processed(&db, 10));
    assert_eq!(db.frames.fetch_record_count(), 1);
}

#[test]
fn missing_bids_stop_the_sync() {
    let mut db = DB::new();
    let e = earnings(10000, vec![cohort_entry("8", 3)]);
    assert_eq!(StatsSyncer::sync_db_frame(&mut db, 10, &e, &Vec::new()), Err(SyncError::MissingBids));
    assert_eq!(db.cohort_frames.fetch_global_stats(), Ok((0, 0, 0, 0)));
}

#[test]
fn cohort_after_frame_is_out_of_range() {
    let mut db = DB::new();
    assert_eq!(StatsSyncer::sync_db_cohort(&mut db, 12, 10, 0, &bids(12, 10000, 1, vec![])), Err(SyncError::OutOfRange));
    let mut big = bids(8, 10000, 2, vec![]);
    big.argonots_staked_per_seat = u64::MAX;
    assert_eq!(StatsSyncer::sync_db_cohort(&mut db, 8, 10, 0, &big), Err(SyncError::OutOfRange));
    assert_eq!(db.cohorts.fetch_latest_active_id(), None);
}

#[test]
fn repeated_head_logged_once() {
    let mut db = DB::new();
    let mut s = StatsSyncer::new();
    assert_eq!(s.update_argon_blockchain_status(&mut db, " 10-12\n", "t1".to_string()), Ok((10, 12)));
    assert_eq!(s.update_argon_blockchain_status(&mut db, "10 - 12", "t2".to_string()), Ok((10, 12)));
    assert_eq!(db.argon_activities.fetch_last_five_records().len(), 1);
    s.update_argon_blockchain_status(&mut db, "11-12", "t3".to_string()).unwrap();
    assert_eq!(db.argon_activities.fetch_last_five_records().len(), 2);
    s.update_bitcoin_blockchain_status(&mut db, "5-5", "t".to_string()).unwrap();
    s.update_bitcoin_blockchain_status(&mut db, "5-5", "t".to_string()).unwrap();
    assert_eq!(db.bitcoin_activities.fetch_last_five_records().len(), 1);
}

#[test]
fn first_head_of_zero_pair_is_not_logged() {
    let mut db = DB::new();
    let mut s = StatsSyncer::new();
    s.update_argon_blockchain_status(&mut db, "0-0", "t".to_string()).unwrap();
    assert!(db.argon_activities.latest().is_none());
}

#[test]
fn malformed_head_output() {
    assert_eq!(parse_block_numbers("12"), Err(SyncError::RemoteParseFailure));
    assert_eq!(parse_block_numbers("1-2-3"), Err(SyncError::RemoteParseFailure));
    assert_eq!(parse_block_numbers("a-2"), Err(SyncError::RemoteParseFailure));
    assert_eq!(parse_block_numbers("4294967296-1"), Err(SyncError::RemoteParseFailure));
    assert_eq!(parse_block_numbers("4294967295-0"), Ok((u32::MAX, 0)));
    let mut db = DB::new();
    let mut s = StatsSyncer::new();
    assert!(s.update_argon_blockchain_status(&mut db, "oops", "t".to_string()).is_err());
    assert_eq!(s.last_argon_block_numbers, (0, 0));
}

#[test]
fn bot_file_changes_logged_once() {
    let mut db = DB::new();
    let mut s = StatsSyncer::new();
    assert!(s.insert_db_bidding_activity(&mut db, &status("b1", "")));
    assert!(!s.insert_db_bidding_activity(&mut db, &status("b1", "")));
    assert!(!s.insert_db_earnings_activity(&mut db, &status("b1", "")));
    assert!(s.insert_db_earnings_activity(&mut db, &status("b1", "e1")));
    let log = db.bot_activities.fetch_last_five_records();
    assert_eq!(log.len(), 2);
    assert_eq!(log[0].action, "earnings changed");
    assert_eq!(log[1].action, "biddings changed");
    assert_eq!(log[1].inserted_at, "b1");
}
