use argon_commander::config::ServerDetails;
use argon_commander::install_status::{InstallStatus, InstallStatusErrorType, InstallStatusServer};
use argon_commander::installer::{InstallAction, InstallChecks, Installer};

fn details(connected: bool) -> ServerDetails {
    ServerDetails {
        ip_address: "10.0.0.1".to_string(),
        ssh_public_key: String::new(),
        ssh_private_key: String::new(),
        ssh_user: "root".to_string(),
        is_new_server: true,
        requires_upgrade: false,
        is_installing: false,
        is_installing_fresh: false,
        is_connected: connected,
        is_ready_for_mining: false,
        has_mining_seats: false,
        oldest_frame_id_to_sync: None,
        sync_error: None,
    }
}

fn complete() -> InstallStatusServer {
    InstallStatusServer {
        ubuntu_check: 100,
        file_check: 100,
        docker_install: 100,
        bitcoin_install: 100,
        argon_install: 100,
        docker_launch: 10000,
        ..InstallStatusServer::default()
    }
}

#[test]
fn fresh_host_launches_without_approval() {
    let status = InstallStatus::default();
    let checks = Installer::check_install(false, &status, false, &complete());
    assert!(checks.is_installing_fresh);
    let mut d = details(true);
    let mut s = InstallStatus::default();
    s.server.docker_launch = 500;
    let action = Installer::install_if_needed(&mut d, false, &checks, true, &mut s, false);
    assert_eq!(action, InstallAction::Launch);
    assert!(d.is_installing && d.is_installing_fresh && !d.requires_upgrade);
    assert_eq!(s.server.docker_launch, 0);
}

#[test]
fn completed_host_with_same_files_is_left_alone() {
    let mut status = InstallStatus::default();
    status.server.ubuntu_check = 100;
    let checks = Installer::check_install(true, &status, true, &complete());
    assert_eq!(
        checks,
        InstallChecks {
            is_installing_fresh: false,
            has_server_install_started: true,
            has_server_install_completed: true,
            remote_files_need_updating: false,
        }
    );
    let mut d = details(true);
    d.is_installing = true;
    d.requires_upgrade = true;
    let action = Installer::install_if_needed(&mut d, false, &checks, false, &mut status, false);
    assert_eq!(action, InstallAction::UpToDate);
    assert!(!d.is_installing && !d.requires_upgrade);
}

#[test]
fn installed_host_waits_for_approval() {
    let status = InstallStatus::default();
    let checks = Installer::check_install(true, &status, false, &complete());
    let mut d = details(true);
    let mut s = InstallStatus::default();
    assert_eq!(Installer::install_if_needed(&mut d, false, &checks, true, &mut s, false), InstallAction::AwaitingApproval);
    assert!(d.requires_upgrade);
    assert_eq!(Installer::install_if_needed(&mut d, false, &checks, true, &mut s, true), InstallAction::Launch);
    assert!(!d.requires_upgrade);
}

#[test]
fn install_gates() {
    let checks = Installer::check_install(false, &InstallStatus::default(), false, &complete());
    let mut s = InstallStatus::default();
    let mut off = details(false);
    assert_eq!(Installer::install_if_needed(&mut off, false, &checks, true, &mut s, false), InstallAction::NotConnected);
    let mut d = details(true);
    assert_eq!(Installer::install_if_needed(&mut d, true, &checks, true, &mut s, false), InstallAction::AlreadyRunning);
    assert!(d.is_installing);
    let mut d = details(true);
    assert_eq!(Installer::install_if_needed(&mut d, false, &checks, false, &mut s, false), InstallAction::LocalFilesInvalid);
    s.server.error_type = Some(InstallStatusErrorType::DockerInstall);
    assert_eq!(Installer::install_if_needed(&mut d, false, &checks, true, &mut s, false), InstallAction::HasError);
}

#[test]
fn waiting_for_docker_sync() {
    let mut status = InstallStatus::default();
    status.server.ubuntu_check = 100;
    status.server.docker_launch = 3000;
    let mut latest = complete();
    latest.docker_launch = 3000;
    let checks = Installer::check_install(true, &status, true, &latest);
    assert!(!checks.has_server_install_completed);
    let mut d = details(true);
    assert_eq!(Installer::install_if_needed(&mut d, false, &checks, true, &mut status, false), InstallAction::WaitingForDockers);
}

#[test]
fn retry_clears_named_steps() {
    let mut s = InstallStatus::default();
    s.server = complete();
    s.server.error_type = Some(InstallStatusErrorType::FileCheck);
    s.client.file_check = 10000;
    let keys = vec!["FileCheck".to_string(), "Other".to_string()];
    let plan = Installer::clear_step_files(&mut s, &keys);
    assert!(!plan.delete_status);
    assert_eq!(plan.commands, vec!["rm -rf ~/install-logs/FileCheck.*".to_string(), "rm -rf ~/install-logs/Other.*".to_string()]);
    assert_eq!(s.server.file_check, 0);
    assert_eq!(s.client.file_check, 0);
    assert_eq!(s.server.ubuntu_check, 100);
    assert!(s.server.error_type.is_none());
}

#[test]
fn retry_all_clears_everything() {
    let mut s = InstallStatus::default();
    s.server.ubuntu_check = 100;
    let plan = Installer::clear_step_files(&mut s, &vec!["DockerLaunch".to_string(), "all".to_string()]);
    assert!(plan.delete_status);
    assert_eq!(plan.commands, vec!["rm -rf ~/install-logs/*".to_string()]);
    assert_eq!(s.server.ubuntu_check, 100);
}

#[test]
fn launch_clears_later_steps() {
    assert_eq!(Installer::launch_steps_to_clear(), vec!["FileCheck", "BitcoinInstall", "ArgonInstall", "DockerLaunch"]);
}

#[test]
fn install_process_lookup() {
    assert!(Installer::is_install_running(true, None));
    assert!(!Installer::is_install_running(false, None));
    assert!(!Installer::is_install_running(false, Some(" \n")));
    assert!(Installer::is_install_running(false, Some("1234\n")));
}

#[test]
fn commands_and_env_files() {
    assert_eq!(
        Installer::start_install_command("testnet"),
        "ARGON_CHAIN=testnet nohup ~/scripts/install_server.sh > ~/install_server.log 2>&1 &"
    );
    assert_eq!(Installer::get_env_file("testnet"), ".env.testnet");
    assert_eq!(Installer::get_env_file("mainnet"), ".env");
    assert_eq!(Installer::start_bot_command(".env"), "cd deploy && docker compose --env-file=.env up bot -d");
    assert_eq!(Installer::env_security("word word"), "SESSION_KEYS_MNEMONIC=\"word word\"\nKEYPAIR_PASSPHRASE=");
    assert_eq!(Installer::env_state(Some(1207), true), "OLDEST_FRAME_ID_TO_SYNC=1207\nIS_READY_FOR_BIDDING=true\n");
    assert_eq!(Installer::env_state(None, false), "OLDEST_FRAME_ID_TO_SYNC=\nIS_READY_FOR_BIDDING=false\n");
}
