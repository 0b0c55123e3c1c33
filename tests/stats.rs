use argon_commander::config::{Mnemonics, Security, ServerDetails};
use argon_commander::db::{DbError, DB};
use argon_commander::frames::Frames;
use argon_commander::install_status::{launch_progress, parse_percent, InstallStatus, InstallStatusErrorType, InstallStatusServer, InstallerStatus};
use argon_commander::poll::{SyncFailures, MAX_CONSECUTIVE_SYNC_FAILURES};
use argon_commander::stats::{FetchPlan, Stats};
use argon_commander::structs::{IBotStatus, IEarningsFile, IEarningsFileCohort};
use argon_commander::syncer::StatsSyncer;

fn details() -> ServerDetails {
    ServerDetails {
        ip_address: String::new(),
        ssh_public_key: String::new(),
        ssh_private_key: String::new(),
        ssh_user: "root".to_string(),
        is_new_server: true,
        requires_upgrade: false,
        is_installing: false,
        is_installing_fresh: false,
        is_connected: true,
        is_ready_for_mining: false,
        has_mining_seats: false,
        oldest_frame_id_to_sync: None,
        sync_error: None,
    }
}

#[test]
fn db_progress_counts_rows() {
    let mut f = Frames::new();
    assert_eq!(Stats::calculate_db_sync_progress(&f, 1, 4), (0, false));
    f.insert_or_update(1, 0, 0, 0, true);
    assert_eq!(Stats::calculate_db_sync_progress(&f, 1, 4), (2500, false));
    f.insert_or_update(2, 0, 0, 0, true);
    f.insert_or_update(3, 0, 0, 0, true);
    assert_eq!(Stats::calculate_db_sync_progress(&f, 1, 4), (10000, true));
    f.insert_or_update(4, 0, 0, 0, false);
    assert_eq!(Stats::calculate_db_sync_progress(&f, 1, 4), (10000, false));
}

#[test]
fn fetch_plans() {
    let f = Frames::new();
    let mut d = details();
    d.is_installing = true;
    assert_eq!(Stats::plan_fetch(&d, 10000, false, &f, 1, 4), Ok(FetchPlan::Idle));
    let mut d = details();
    d.sync_error = Some("boom".to_string());
    assert_eq!(Stats::plan_fetch(&d, 10000, false, &f, 1, 4), Ok(FetchPlan::ReportSyncError));
    let d = details();
    assert_eq!(Stats::plan_fetch(&d, 9999, false, &f, 1, 4), Ok(FetchPlan::FullSync { oldest: 1, current: 4 }));
    assert_eq!(Stats::plan_fetch(&d, 10000, false, &f, 1, 4), Ok(FetchPlan::SyncInline { previous: None, current: 4 }));
    assert_eq!(Stats::plan_fetch(&d, 10000, true, &f, 1, 4), Err(DbError::MissingRow));
    let mut g = Frames::new();
    g.insert_or_update(3, 0, 0, 5000, false);
    assert_eq!(Stats::plan_fetch(&d, 10000, true, &g, 1, 4), Ok(FetchPlan::SyncInline { previous: Some(3), current: 4 }));
    g.insert_or_update(3, 0, 0, 10000, true);
    assert_eq!(Stats::plan_fetch(&d, 10000, true, &g, 1, 4), Ok(FetchPlan::SyncInline { previous: None, current: 4 }));
}

#[test]
fn dashboard_from_store() {
    let mut db = DB::new();
    db.frames.insert_or_update(8, 500, 600, 10000, true);
    db.cohorts.insert_or_update(8, 0, 4, 10, 70, 2);
    db.cohort_frames.insert_or_update(8, 8, 3, 1, 2, 3);
    db.cohort_frames.insert_or_update(9, 8, 4, 1, 2, 3);
    db.cohort_accounts.insert(8, 1, "addr".to_string(), 33, 2);
    let dash = Stats::fetch_dashboard(&db, Some(8)).unwrap();
    assert_eq!(dash.global.active_cohorts, 1);
    assert_eq!(dash.global.total_blocks_mined, 7);
    assert_eq!(dash.global.total_argons_bid, 70);
    let cohort = dash.cohort.unwrap();
    assert_eq!((cohort.frame_tick_start, cohort.frame_tick_end), (500, 14900));
    assert_eq!(cohort.argons_minted, 6);
    assert_eq!(Stats::fetch_dashboard(&db, None).unwrap().cohort, None);
    assert_eq!(Stats::fetch_latest_cohort_id(&db), Some(8));
    let bids = Stats::fetch_active_bids(&db, 8);
    assert_eq!(bids.subaccounts.len(), 1);
    assert_eq!(bids.subaccounts[0].argons_bid, Some(33));
    assert!(Stats::fetch_active_bids(&db, 9).subaccounts.is_empty());
}

#[test]
fn idle_stats() {
    let s = Stats::default(Some(3));
    assert!(!s.is_syncing);
    assert_eq!(s.dashboard.cohort_id, Some(3));
    assert_eq!(s.dashboard.cohort.unwrap().seats_won, 0);
}

#[test]
fn bot_status_updates_details() {
    let mut d = details();
    let mut bot = IBotStatus {
        argon_block_numbers: (0, 0),
        bitcoin_block_numbers: (0, 0),
        bids_last_modified_at: String::new(),
        earnings_last_modified_at: String::new(),
        has_won_seats: true,
        last_block_number: 0,
        last_finalized_block_number: 0,
        oldest_frame_id_to_sync: 0,
        current_frame_id: 0,
        load_progress: 0,
        queue_depth: 0,
    };
    Stats::update_server_details_from_bot_status(&mut d, &bot);
    assert_eq!(d.oldest_frame_id_to_sync, None);
    assert!(d.has_mining_seats);
    bot.oldest_frame_id_to_sync = 12;
    bot.has_won_seats = false;
    Stats::update_server_details_from_bot_status(&mut d, &bot);
    assert_eq!(d.oldest_frame_id_to_sync, Some(12));
    assert!(!d.has_mining_seats);
}

#[test]
fn percent_probe_outputs() {
    assert_eq!(parse_percent("45.37%\n"), 4537);
    assert_eq!(parse_percent("100%"), 10000);
    assert_eq!(parse_percent(" 7.5 "), 750);
    assert_eq!(parse_percent(".25%"), 25);
    assert_eq!(parse_percent("3."), 300);
    assert_eq!(parse_percent("abc"), 0);
    assert_eq!(parse_percent(""), 0);
    assert_eq!(launch_progress("100%", "50%"), 7500);
    assert_eq!(launch_progress("oops", "51%"), 2550);
}

#[test]
fn status_read_failure_is_unknown() {
    let mut s = InstallStatus::default();
    s.server.ubuntu_check = 100;
    s.client.file_check = 4000;
    InstallerStatus::fetch_latest_install_status(&mut s, Err("timeout".to_string()));
    assert_eq!(s.server.error_type, Some(InstallStatusErrorType::Unknown));
    assert_eq!(s.server.error_message.as_deref(), Some("timeout"));
    assert_eq!(s.server.ubuntu_check, 100);
    assert_eq!(s.client.file_check, 4000);
    let fresh = InstallStatusServer::default();
    InstallerStatus::fetch_latest_install_status(&mut s, Ok(fresh));
    assert!(s.server.error_type.is_none());
    assert_eq!(s.client.file_check, 0);
    InstallerStatus::record_launch_failure(&mut s, "upload failed".to_string());
    assert_eq!(s.server.error_type, Some(InstallStatusErrorType::FileCheck));
}

#[test]
fn completion_clears_install_flags() {
    let mut d = details();
    d.is_installing = true;
    let done = InstallStatusServer {
        ubuntu_check: 100,
        file_check: 100,
        docker_install: 100,
        bitcoin_install: 100,
        argon_install: 100,
        docker_launch: 10000,
        ..InstallStatusServer::default()
    };
    assert!(InstallerStatus::record_completion(&mut d, &done));
    assert!(!d.is_installing && !d.is_new_server);
    let mut d2 = details();
    d2.is_installing = true;
    let mut failed = done.clone();
    failed.error_type = Some(InstallStatusErrorType::DockerLaunch);
    assert!(!InstallerStatus::record_completion(&mut d2, &failed));
    assert!(d2.is_installing);
}

#[test]
fn cohorts_fetched_once_in_order() {
    let entry = |k: &str| {
        (k.to_string(), IEarningsFileCohort { last_block_mined_at: String::new(), blocks_mined: 0, argons_mined: 0, argons_minted: 0, argonots_mined: 0 })
    };
    let e = IEarningsFile {
        frame_progress: 0,
        frame_tick_start: 0,
        frame_tick_end: 0,
        last_block_number: 0,
        by_cohort_frame_id: vec![entry("9"), entry("8"), entry("9"), entry("bad"), entry("7")],
    };
    assert_eq!(StatsSyncer::cohorts_to_fetch(&e), vec![9, 8]);
}

#[test]
fn secrets_records() {
    let m = Mnemonics::create("w".to_string(), "s".to_string());
    assert_eq!((m.wallet.as_str(), m.session.as_str()), ("w", "s"));
    let s = Security::create("a".to_string(), "b".to_string(), "{}".to_string());
    assert_eq!(s.wallet_json, "{}");
    assert_eq!(argon_commander::installer::Installer::core_dirs(), vec!["deploy", "bot", "calculator", "scripts"]);
}

#[test]
fn failures_become_fatal_in_a_row() {
    let mut f = SyncFailures::new();
    for _ in 1..MAX_CONSECUTIVE_SYNC_FAILURES {
        assert!(!f.record(false));
    }
    assert!(!f.record(true));
    assert_eq!(f.consecutive, 0);
    for _ in 1..MAX_CONSECUTIVE_SYNC_FAILURES {
        assert!(!f.record(false));
    }
    assert!(f.record(false));
    assert!(f.record(false));
    assert_eq!(f.consecutive, MAX_CONSECUTIVE_SYNC_FAILURES);
}

#[test]
fn saved_rows_restore_the_table() {
    let mut f = Frames::new();
    f.insert_or_update(2, 1, 2, 3, false);
    f.insert_or_update(1, 4, 5, 6, true);
    let copy = Frames::from_rows(f.rows().clone());
    assert_eq!(copy.rows(), f.rows());
    assert_eq!(copy.latest_id(), 2);
}
