use argon_commander::install_status::{
    InstallStatus, InstallStatusClient, InstallStatusErrorType, InstallStatusServer, InstallerStatus,
};

fn names(list: &[&str]) -> Vec<String> {
    list.iter().map(|s| s.to_string()).collect()
}

#[test]
fn started_step_halts_progress() {
    let files = names(&["UbuntuCheck.finished", "FileCheck.started", "DockerInstall.finished", "ArgonInstall.finished"]);
    let s = InstallerStatus::calculate_status_server(&files, false, 0);
    assert_eq!(s.ubuntu_check, 100);
    assert_eq!(s.file_check, 1);
    assert_eq!(s.docker_install, 0);
    assert_eq!(s.bitcoin_install, 0);
    assert_eq!(s.argon_install, 0);
    assert_eq!(s.docker_launch, 0);
    assert!(s.error_type.is_none());
}

#[test]
fn failed_step_reports_its_error() {
    let files = names(&["UbuntuCheck.finished", "FileCheck.failed", "DockerInstall.finished"]);
    let s = InstallerStatus::calculate_status_server(&files, true, 0);
    assert_eq!(s.ubuntu_check, 100);
    assert_eq!(s.file_check, 0);
    assert_eq!(s.docker_install, 0);
    assert_eq!(s.error_type, Some(InstallStatusErrorType::FileCheck));
    assert!(s.is_running);
    assert!(InstallerStatus::has_error(&s));
}

#[test]
fn complete_install_reads_full_progress() {
    let files = names(&[
        "UbuntuCheck.finished",
        "FileCheck.finished",
        "DockerInstall.finished",
        "BitcoinInstall.finished",
        "BitcoinData.finished",
        "ArgonInstall.finished",
        "DockerLaunch.started",
    ]);
    assert!(InstallerStatus::launch_probe_needed(&files));
    let s = InstallerStatus::calculate_status_server(&files, false, 10000);
    assert_eq!(s.bitcoin_install, 100);
    assert_eq!(s.argon_install, 100);
    assert_eq!(s.docker_launch, 10000);
    assert!(InstallerStatus::is_server_install_complete(&s));
    let half = InstallerStatus::calculate_status_server(&files, false, 4550);
    assert!(!InstallerStatus::is_server_install_complete(&half));
}

#[test]
fn bitcoin_data_in_progress_keeps_half() {
    let files = names(&[
        "UbuntuCheck.finished",
        "FileCheck.finished",
        "DockerInstall.finished",
        "BitcoinInstall.finished",
        "BitcoinData.started",
        "ArgonInstall.finished",
    ]);
    let s = InstallerStatus::calculate_status_server(&files, false, 0);
    assert_eq!(s.bitcoin_install, 50);
    assert_eq!(s.argon_install, 0);
    assert!(!InstallerStatus::launch_probe_needed(&files));
}

#[test]
fn bitcoin_data_failure_is_a_bitcoin_error() {
    let files = names(&["UbuntuCheck.finished", "FileCheck.finished", "DockerInstall.finished", "BitcoinInstall.finished", "BitcoinData.failed"]);
    let s = InstallerStatus::calculate_status_server(&files, false, 0);
    assert_eq!(s.error_type, Some(InstallStatusErrorType::BitcoinInstall));
    assert_eq!(s.bitcoin_install, 50);
}

#[test]
fn launch_failure_wins_over_started() {
    let files = names(&["DockerLaunch.started", "DockerLaunch.failed"]);
    let s = InstallerStatus::calculate_status_server(&files, false, 5000);
    assert_eq!(s.error_type, Some(InstallStatusErrorType::DockerLaunch));
    assert_eq!(s.docker_launch, 0);
}

#[test]
fn no_markers_no_progress() {
    let s = InstallerStatus::calculate_status_server(&Vec::new(), false, 7000);
    assert_eq!(s.ubuntu_check, 0);
    assert_eq!(s.docker_launch, 0);
    assert!(!InstallerStatus::has_server_install_started(&s));
}

#[test]
fn finished_wins_over_failed() {
    let files = names(&["UbuntuCheck.failed", "UbuntuCheck.finished"]);
    let s = InstallerStatus::calculate_status_server(&files, false, 0);
    assert_eq!(s.ubuntu_check, 100);
    assert!(s.error_type.is_none());
}

#[test]
fn listing_lines_become_names() {
    let v = InstallerStatus::log_filenames("UbuntuCheck.finished\n\nFileCheck.started\n");
    assert_eq!(v, vec!["UbuntuCheck.finished".to_string(), "FileCheck.started".to_string()]);
    assert!(InstallerStatus::log_filenames("").is_empty());
}

#[test]
fn client_progress_cleared_before_server_starts() {
    let mut status = InstallStatus::default();
    status.client = InstallStatusClient {
        server_connect: 10000,
        ubuntu_check: 10000,
        file_check: 5000,
        docker_install: 5000,
        bitcoin_install: 5000,
        argon_install: 5000,
        docker_launch: 5000,
    };
    status.server = InstallStatusServer { ubuntu_check: 100, file_check: 100, ..InstallStatusServer::default() };
    let c = InstallerStatus::calculate_status_client(&status);
    assert_eq!(c.file_check, 5000);
    assert_eq!(c.docker_install, 5000);
    assert_eq!(c.bitcoin_install, 0);
    assert_eq!(c.argon_install, 0);
    assert_eq!(c.docker_launch, 0);
    assert_eq!(c.server_connect, 10000);
}

#[test]
fn error_type_names() {
    assert_eq!(InstallStatusErrorType::FileCheck.name(), "FileCheck");
    assert_eq!(InstallStatusErrorType::Unknown.name(), "Unknown");
}
