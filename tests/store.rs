use argon_commander::cohort_frames::CohortFrames;
use argon_commander::cohorts::Cohorts;
use argon_commander::db::{DbError, DB};
use argon_commander::frames::{FrameRecord, Frames};
use argon_commander::activities::{ArgonActivities, BotActivities};
use argon_commander::cohort_accounts::CohortAccounts;

#[test]
fn frame_upsert_replaces_row() {
    let mut f = Frames::new();
    f.insert_or_update(3, 10, 20, 5000, false);
    f.insert_or_update(5, 30, 40, 0, false);
    f.insert_or_update(3, 11, 21, 10000, true);
    assert_eq!(f.fetch_record_count(), 2);
    assert_eq!(
        f.fetch_by_id(3),
        Some(FrameRecord { id: 3, progress: 10000, tick_start: 11, tick_end: 21, is_processed: true })
    );
    assert_eq!(f.latest_id(), 5);
    assert_eq!(f.fetch_by_id(4), None);
}

#[test]
fn frame_update_skips_missing_row() {
    let mut f = Frames::new();
    f.update(9, 1, 2, 3, true);
    assert_eq!(f.fetch_record_count(), 0);
    assert_eq!(f.latest_id(), 0);
    f.insert_or_update(9, 0, 0, 0, false);
    f.update(9, 1, 2, 3, true);
    assert_eq!(f.fetch_by_id(9).unwrap().tick_end, 2);
}

#[test]
fn cohort_totals_count_active_term() {
    let mut c = Cohorts::new();
    c.insert_or_update(1, 0, 5, 0, 100, 2);
    c.insert_or_update(12, 0, 7, 0, 200, 3);
    c.insert_or_update(20, 0, 1, 0, 50, 0);
    assert_eq!(c.fetch_global_stats(22), Ok((2, 3, 13, 350)));
    assert_eq!(c.fetch_global_stats(5), Ok((3, 5, 13, 350)));
    assert_eq!(c.fetch_latest_active_id(), Some(12));
    assert_eq!(Cohorts::new().fetch_latest_active_id(), None);
}

#[test]
fn cohort_totals_overflow_is_an_error() {
    let mut c = Cohorts::new();
    c.insert_or_update(1, 0, u64::MAX, 0, 0, 0);
    c.insert_or_update(2, 0, 1, 0, 0, 0);
    assert_eq!(c.fetch_global_stats(2), Err(DbError::OutOfRange));
}

#[test]
fn cohort_with_ticks_needs_its_frame() {
    let mut c = Cohorts::new();
    let mut f = Frames::new();
    c.insert_or_update(4, 0, 1, 2, 3, 1);
    c.insert_or_update(6, 0, 1, 2, 3, 0);
    assert_eq!(c.fetch_by_id(&f, 4), Err(DbError::MissingRow));
    f.insert_or_update(4, 1000, 2000, 0, false);
    let r = c.fetch_by_id(&f, 4).unwrap().unwrap();
    assert_eq!(r.frame_tick_start, 1000);
    assert_eq!(r.frame_tick_end, 15400);
    assert_eq!(c.fetch_by_id(&f, 6), Ok(None));
    f.insert_or_update(4, u32::MAX, 0, 0, false);
    assert_eq!(c.fetch_by_id(&f, 4), Err(DbError::OutOfRange));
}

#[test]
fn cohort_frame_totals() {
    let mut cf = CohortFrames::new();
    cf.insert_or_update(1, 1, 2, 10, 20, 30);
    cf.insert_or_update(2, 1, 3, 1, 2, 3);
    cf.insert_or_update(2, 2, 4, 1, 1, 1);
    cf.insert_or_update(2, 1, 5, 1, 2, 3);
    assert_eq!(cf.fetch_global_stats(), Ok((11, 12, 23, 34)));
    assert_eq!(cf.fetch_cohort_stats(1), Ok((7, 11, 22, 33)));
    assert_eq!(cf.fetch_cohort_stats(9), Ok((0, 0, 0, 0)));
    cf.insert_or_update(3, 3, u32::MAX, 0, 0, 0);
    assert_eq!(cf.fetch_global_stats(), Err(DbError::OutOfRange));
}

#[test]
fn accounts_delete_only_their_cohort() {
    let mut a = CohortAccounts::new();
    a.insert(1, 0, "a".to_string(), 5, 1);
    a.insert(2, 0, "b".to_string(), 6, 2);
    a.insert(1, 1, "c".to_string(), 7, 3);
    a.delete_for_cohort(1);
    assert!(a.fetch_for_cohort_id(1).is_empty());
    let rest = a.fetch_for_cohort_id(2);
    assert_eq!(rest.len(), 1);
    assert_eq!(rest[0].address, "b");
}

#[test]
fn last_five_newest_first() {
    let mut log = ArgonActivities::new();
    assert!(log.latest().is_none());
    for i in 0..7u32 {
        log.insert(i, i + 1, format!("t{}", i));
    }
    let five = log.fetch_last_five_records();
    let locals: Vec<u32> = five.iter().map(|r| r.localhost_block_number).collect();
    assert_eq!(locals, vec![6, 5, 4, 3, 2]);
    assert_eq!(log.latest().unwrap().inserted_at, "t6");
    let mut bots = BotActivities::new();
    bots.insert("x".to_string(), "t".to_string());
    assert_eq!(bots.fetch_last_five_records().len(), 1);
}

#[test]
fn new_datastore_is_empty() {
    let db = DB::new();
    assert_eq!(db.frames.fetch_record_count(), 0);
    assert_eq!(db.cohort_frames.fetch_global_stats(), Ok((0, 0, 0, 0)));
}
