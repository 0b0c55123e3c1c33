//! The decisions of the installer: whether an install may start, what a retry
//! clears, and the commands that drive the bootstrap script.

use vstd::prelude::*;
use crate::config::ServerDetails;
use crate::install_status::{
    idle_client_status, idle_server_status, install_complete, InstallStatus, InstallStatusClient,
    InstallStatusErrorType, InstallStatusServer, InstallerStatus,
};
use crate::text::{contains_str, decimal_chars, decimal_string, same_text, trim, trimmed, views};

verus! {

/// What the installer learned about the host before deciding.
#[derive(Clone, Copy, Debug, PartialEq, Eq, Structural)]
pub struct InstallChecks {
    /// The host has never received a checksum manifest.
    pub is_installing_fresh: bool,
    pub has_server_install_started: bool,
    pub has_server_install_completed: bool,
    /// The host's copied files differ from the ones this client carries.
    pub remote_files_need_updating: bool,
}

/// What the installer does after its checks.
#[derive(Clone, Copy, Debug, PartialEq, Eq, Structural)]
pub enum InstallAction {
    /// The host is not connected.
    NotConnected,
    /// The bootstrap script already runs, here or on the host.
    AlreadyRunning,
    /// The host completed every step and has the current files.
    UpToDate,
    /// The files this client carries do not match its own manifest.
    LocalFilesInvalid,
    /// The host was installed before; the upgrade waits for the user.
    AwaitingApproval,
    /// A step failed; it waits for an explicit retry.
    HasError,
    /// The script is done and only the nodes' sync remains.
    WaitingForDockers,
    /// Upload the files and start the bootstrap script.
    Launch,
}

/// The checks as `check_install` derives them: a host without a manifest is
/// fresh; one with stale files needs them again; otherwise the latest status
/// says whether the install completed.
pub open spec fn checks_of(has_manifest: bool, started: bool, files_match: bool, latest: InstallStatusServer) -> InstallChecks {
    if !has_manifest {
        InstallChecks {
            is_installing_fresh: true,
            has_server_install_started: false,
            has_server_install_completed: false,
            remote_files_need_updating: true,
        }
    } else if !files_match {
        InstallChecks {
            is_installing_fresh: false,
            has_server_install_started: started,
            has_server_install_completed: false,
            remote_files_need_updating: true,
        }
    } else {
        InstallChecks {
            is_installing_fresh: false,
            has_server_install_started: started,
            has_server_install_completed: install_complete(latest),
            remote_files_need_updating: false,
        }
    }
}

/// The details, the install status and the action after the installer's
/// checks. `running` says whether the script already runs; `files_valid`
/// whether the local files match the local manifest; `approved` whether the
/// caller bypasses the upgrade approval.
pub open spec fn install_plan(
    d: ServerDetails,
    running: bool,
    c: InstallChecks,
    files_valid: bool,
    status: InstallStatus,
    approved: bool,
) -> (ServerDetails, InstallStatus, InstallAction) {
    if !d.is_connected {
        (d, status, InstallAction::NotConnected)
    } else if running {
        (ServerDetails { is_installing: true, ..d }, status, InstallAction::AlreadyRunning)
    } else if c.has_server_install_completed && !c.remote_files_need_updating {
        (
            ServerDetails { requires_upgrade: false, is_installing: false, is_installing_fresh: false, ..d },
            status,
            InstallAction::UpToDate,
        )
    } else if !files_valid {
        (d, status, InstallAction::LocalFilesInvalid)
    } else if !((d.is_installing || c.has_server_install_started) && !c.has_server_install_completed) && !approved
        && !c.is_installing_fresh {
        (ServerDetails { requires_upgrade: true, ..d }, status, InstallAction::AwaitingApproval)
    } else {
        let d1 = ServerDetails {
            requires_upgrade: false,
            is_installing: true,
            is_installing_fresh: d.is_installing_fresh || c.is_installing_fresh,
            ..d
        };
        if status.server.error_type is Some {
            (d1, status, InstallAction::HasError)
        } else {
            let s1 = if c.is_installing_fresh {
                InstallStatus { server: idle_server_status(false), client: idle_client_status() }
            } else {
                status
            };
            if s1.server.docker_launch > 0 && !c.remote_files_need_updating {
                (d1, s1, InstallAction::WaitingForDockers)
            } else {
                (d1, s1, InstallAction::Launch)
            }
        }
    }
}

/// On a fresh host the installer never waits for upgrade approval; when the
/// host is connected, idle, the local files are valid and no error is recorded,
/// it launches the install, whatever the approval flag says.
pub proof fn lemma_fresh_host_proceeds(d: ServerDetails, files_valid: bool, status: InstallStatus, approved: bool, latest: InstallStatusServer)
    ensures
        ({
            let c = checks_of(false, false, false, latest);
            let plan = install_plan(d, false, c, files_valid, status, approved);
            &&& plan.2 != InstallAction::AwaitingApproval
            &&& d.is_connected && files_valid && status.server.error_type is None ==> plan.2 == InstallAction::Launch
        }),
{
}

/// A connected, idle host that completed its install and holds the files this
/// client carries is left alone: nothing is uploaded and no script is started.
pub proof fn lemma_completed_host_is_left_alone(
    d: ServerDetails,
    started: bool,
    latest: InstallStatusServer,
    files_valid: bool,
    status: InstallStatus,
    approved: bool,
)
    requires
        d.is_connected,
        install_complete(latest),
    ensures
        install_plan(d, false, checks_of(true, started, true, latest), files_valid, status, approved).2
            == InstallAction::UpToDate,
{
}

/// The status with the progress of step `key` cleared, on both sides.
pub open spec fn cleared_step(s: InstallStatus, key: Seq<char>) -> InstallStatus {
    if key == "UbuntuCheck"@ {
        InstallStatus {
            server: InstallStatusServer { ubuntu_check: 0, ..s.server },
            client: InstallStatusClient { ubuntu_check: 0, ..s.client },
        }
    } else if key == "FileCheck"@ {
        InstallStatus {
            server: InstallStatusServer { file_check: 0, ..s.server },
            client: InstallStatusClient { file_check: 0, ..s.client },
        }
    } else if key == "DockerInstall"@ {
        InstallStatus {
            server: InstallStatusServer { docker_install: 0, ..s.server },
            client: InstallStatusClient { docker_install: 0, ..s.client },
        }
    } else if key == "BitcoinInstall"@ {
        InstallStatus {
            server: InstallStatusServer { bitcoin_install: 0, ..s.server },
            client: InstallStatusClient { bitcoin_install: 0, ..s.client },
        }
    } else if key == "ArgonInstall"@ {
        InstallStatus {
            server: InstallStatusServer { argon_install: 0, ..s.server },
            client: InstallStatusClient { argon_install: 0, ..s.client },
        }
    } else if key == "DockerLaunch"@ {
        InstallStatus {
            server: InstallStatusServer { docker_launch: 0, ..s.server },
            client: InstallStatusClient { docker_launch: 0, ..s.client },
        }
    } else {
        s
    }
}

/// The status with the progress of each step in `keys` cleared, in order.
pub open spec fn cleared_steps(s: InstallStatus, keys: Seq<Seq<char>>) -> InstallStatus
    decreases keys.len(),
{
    if keys.len() == 0 {
        s
    } else {
        cleared_step(cleared_steps(s, keys.drop_last()), keys.last())
    }
}

/// The status with its error removed.
pub open spec fn without_error(s: InstallStatus) -> InstallStatus {
    InstallStatus { server: InstallStatusServer { error_type: None, error_message: None, ..s.server }, ..s }
}

/// The command that removes the marker files of step `key`.
pub open spec fn marker_removal(key: Seq<char>) -> Seq<char> {
    "rm -rf ~/install-logs/"@ + key + ".*"@
}

/// The key that stands for every step at once.
pub open spec fn all_steps_key() -> Seq<char> {
    "all"@
}

/// What a retry removes: the whole status file and every marker, or the
/// markers of the given steps.
#[derive(Debug)]
pub struct StepFileClearing {
    pub delete_status: bool,
    pub commands: Vec<String>,
}

/// The decisions of the installer.
pub struct Installer;

impl Installer {
    /// The checks that decide an install: `server_has_sha256_file` says whether
    /// the host has a manifest, `remote_files_match` whether its copied files
    /// match this client's, and `latest` is the freshly read status, used only
    /// when the files match.
    pub fn check_install(
        server_has_sha256_file: bool,
        install_status: &InstallStatus,
        remote_files_match: bool,
        latest: &InstallStatusServer,
    ) -> (r: InstallChecks)
        ensures
            r == checks_of(
                server_has_sha256_file,
                install_status.server.ubuntu_check > 0,
                remote_files_match,
                *latest,
            ),
    {
        if !server_has_sha256_file {
            return InstallChecks {
                is_installing_fresh: true,
                has_server_install_started: false,
                has_server_install_completed: false,
                remote_files_need_updating: true,
            };
        }
        let started = InstallerStatus::has_server_install_started(&install_status.server);
        if !remote_files_match {
            return InstallChecks {
                is_installing_fresh: false,
                has_server_install_started: started,
                has_server_install_completed: false,
                remote_files_need_updating: true,
            };
        }
        InstallChecks {
            is_installing_fresh: false,
            has_server_install_started: started,
            has_server_install_completed: InstallerStatus::is_server_install_complete(latest),
            remote_files_need_updating: false,
        }
    }

    /// Decides whether the install starts, updating the host's flags and, for
    /// a fresh host, resetting the install status.
    pub fn install_if_needed(
        details: &mut ServerDetails,
        install_running: bool,
        checks: &InstallChecks,
        local_files_valid: bool,
        install_status: &mut InstallStatus,
        should_bypass_upgrade_check: bool,
    ) -> (r: InstallAction)
        ensures
            ({
                let plan = install_plan(
                    *old(details),
                    install_running,
                    *checks,
                    local_files_valid,
                    *old(install_status),
                    should_bypass_upgrade_check,
                );
                &&& *final(details) == plan.0
                &&& *final(install_status) == plan.1
                &&& r == plan.2
            }),
    {
        if !details.is_connected {
            return InstallAction::NotConnected;
        }
        if install_running {
            details.is_installing = true;
            return InstallAction::AlreadyRunning;
        }
        if checks.has_server_install_completed && !checks.remote_files_need_updating {
            details.requires_upgrade = false;
            details.is_installing = false;
            details.is_installing_fresh = false;
            return InstallAction::UpToDate;
        }
        if !local_files_valid {
            return InstallAction::LocalFilesInvalid;
        }
        let is_within_install_process = (details.is_installing || checks.has_server_install_started)
            && !checks.has_server_install_completed;
        if !is_within_install_process && !should_bypass_upgrade_check && !checks.is_installing_fresh {
            details.requires_upgrade = true;
            return InstallAction::AwaitingApproval;
        }
        details.requires_upgrade = false;
        details.is_installing = true;
        if checks.is_installing_fresh {
            details.is_installing_fresh = true;
        }
        if InstallerStatus::has_error(&install_status.server) {
            return InstallAction::HasError;
        }
        if checks.is_installing_fresh {
            *install_status = InstallStatus::default();
        }
        if install_status.server.docker_launch > 0 && !checks.remote_files_need_updating {
            return InstallAction::WaitingForDockers;
        }
        InstallAction::Launch
    }

    /// Clears the steps named in `step_keys` from `install_status` and lists
    /// the commands that remove their marker files. The key `all` clears
    /// everything: the status file is to be deleted and every marker removed.
    pub fn clear_step_files(install_status: &mut InstallStatus, step_keys: &Vec<String>) -> (r: StepFileClearing)
        ensures
            views(step_keys@).contains(all_steps_key()) ==> {
                &&& r.delete_status
                &&& views(r.commands@) == seq!["rm -rf ~/install-logs/*"@]
                &&& *final(install_status) == *old(install_status)
            },
            !views(step_keys@).contains(all_steps_key()) ==> {
                &&& !r.delete_status
                &&& views(r.commands@) == views(step_keys@).map_values(|k: Seq<char>| marker_removal(k))
                &&& *final(install_status) == cleared_steps(without_error(*old(install_status)), views(step_keys@))
            },
    {
        if contains_str(step_keys, "all") {
            let mut commands: Vec<String> = Vec::new();
            commands.push("rm -rf ~/install-logs/*".to_owned());
            assert(views(commands@) =~= seq!["rm -rf ~/install-logs/*"@]);
            return StepFileClearing { delete_status: true, commands };
        }
        install_status.server.error_type = None;
        install_status.server.error_message = None;
        let ghost start = *install_status;
        let mut commands: Vec<String> = Vec::new();
        let mut i: usize = 0;
        while i < step_keys.len()
            invariant
                i <= step_keys@.len(),
                start == without_error(*old(install_status)),
                *install_status == cleared_steps(start, views(step_keys@.subrange(0, i as int))),
                views(commands@) == views(step_keys@.subrange(0, i as int)).map_values(|k: Seq<char>| marker_removal(k)),
            decreases step_keys@.len() - i,
        {
            let key = step_keys[i].as_str();
            proof {
                assert(views(step_keys@.subrange(0, i + 1)).drop_last() =~= views(step_keys@.subrange(0, i as int)));
                assert(views(step_keys@.subrange(0, i + 1)).last() == key@);
            }
            if same_text(key, "UbuntuCheck") {
                install_status.client.ubuntu_check = 0;
                install_status.server.ubuntu_check = 0;
            } else if same_text(key, "FileCheck") {
                install_status.client.file_check = 0;
                install_status.server.file_check = 0;
            } else if same_text(key, "DockerInstall") {
                install_status.client.docker_install = 0;
                install_status.server.docker_install = 0;
            } else if same_text(key, "BitcoinInstall") {
                install_status.client.bitcoin_install = 0;
                install_status.server.bitcoin_install = 0;
            } else if same_text(key, "ArgonInstall") {
                install_status.client.argon_install = 0;
                install_status.server.argon_install = 0;
            } else if same_text(key, "DockerLaunch") {
                install_status.client.docker_launch = 0;
                install_status.server.docker_launch = 0;
            }
            let mut command = "rm -rf ~/install-logs/".to_owned();
            command.append(key);
            command.append(".*");
            let ghost prev = views(commands@);
            assert(command@ == marker_removal(key@));
            commands.push(command);
            proof {
                assert(views(commands@) =~= prev.push(marker_removal(key@)));
                assert(views(step_keys@.subrange(0, i + 1)).map_values(|k: Seq<char>| marker_removal(k))
                    =~= views(step_keys@.subrange(0, i as int)).map_values(|k: Seq<char>| marker_removal(k)).push(marker_removal(key@)));
                assert(views(commands@) =~= views(step_keys@.subrange(0, i + 1)).map_values(|k: Seq<char>| marker_removal(k)));
            }
            i = i + 1;
        }
        proof {
            assert(step_keys@.subrange(0, i as int) =~= step_keys@);
        }
        StepFileClearing { delete_status: false, commands }
    }

    /// Whether the bootstrap script runs: here when `running_locally`, or on
    /// the host when the process lookup printed anything. A lookup that failed
    /// (`None`) counts as not running.
    pub fn is_install_running(running_locally: bool, lookup_output: Option<&str>) -> (r: bool)
        ensures
            r == (running_locally || match lookup_output {
                Some(out) => trimmed(out@).len() > 0,
                None => false,
            }),
    {
        if running_locally {
            return true;
        }
        match lookup_output {
            Some(out) => trim(out).unicode_len() > 0,
            None => false,
        }
    }

    /// The command that starts the bootstrap script detached from the session,
    /// for chain `chain`, with its output in the install log.
    pub fn start_install_command(chain: &str) -> (r: String)
        ensures
            r@ == "ARGON_CHAIN="@ + chain@ + " nohup ~/scripts/install_server.sh > ~/install_server.log 2>&1 &"@,
    {
        let mut c = "ARGON_CHAIN=".to_owned();
        c.append(chain);
        c.append(" nohup ~/scripts/install_server.sh > ~/install_server.log 2>&1 &");
        c
    }

    /// The compose environment file for chain `chain`.
    pub fn get_env_file(chain: &str) -> (r: &'static str)
        ensures
            r@ == (if chain@ == "testnet"@ { ".env.testnet"@ } else { ".env"@ }),
    {
        if same_text(chain, "testnet") {
            ".env.testnet"
        } else {
            ".env"
        }
    }

    /// The command that starts the bot's container with `env_file`.
    pub fn start_bot_command(env_file: &str) -> (r: String)
        ensures
            r@ == "cd deploy && docker compose --env-file="@ + env_file@ + " up bot -d"@,
    {
        let mut c = "cd deploy && docker compose --env-file=".to_owned();
        c.append(env_file);
        c.append(" up bot -d");
        c
    }

    /// The bot's secrets file: the session mnemonic and an empty passphrase.
    pub fn env_security(session_mnemonic: &str) -> (r: String)
        ensures
            r@ == "SESSION_KEYS_MNEMONIC=\""@ + session_mnemonic@ + "\"\nKEYPAIR_PASSPHRASE="@,
    {
        let mut c = "SESSION_KEYS_MNEMONIC=\"".to_owned();
        c.append(session_mnemonic);
        c.append("\"\nKEYPAIR_PASSPHRASE=");
        c
    }

    /// The bot's state file: the oldest frame to sync, empty when unknown, and
    /// whether bidding may start.
    pub fn env_state(oldest_frame_id_to_sync: Option<u32>, is_ready_for_mining: bool) -> (r: String)
        ensures
            r@ == "OLDEST_FRAME_ID_TO_SYNC="@ + match oldest_frame_id_to_sync {
                Some(id) => decimal_chars(id as nat),
                None => Seq::<char>::empty(),
            } + "\nIS_READY_FOR_BIDDING="@ + (if is_ready_for_mining { "true"@ } else { "false"@ }) + "\n"@,
    {
        let mut c = "OLDEST_FRAME_ID_TO_SYNC=".to_owned();
        let ghost start = c@;
        match oldest_frame_id_to_sync {
            Some(id) => {
                let digits = decimal_string(id as u64);
                c.append(digits.as_str());
            },
            None => {
                assert(c@ =~= start + Seq::<char>::empty());
            },
        }
        c.append("\nIS_READY_FOR_BIDDING=");
        if is_ready_for_mining {
            c.append("true");
        } else {
            c.append("false");
        }
        c.append("\n");
        c
    }

    /// The local directories that are uploaded to the host and tracked by the
    /// checksum manifest, in manifest order.
    pub fn core_dirs() -> (r: Vec<String>)
        ensures
            views(r@) == seq!["deploy"@, "bot"@, "calculator"@, "scripts"@],
    {
        let mut r: Vec<String> = Vec::new();
        r.push("deploy".to_owned());
        r.push("bot".to_owned());
        r.push("calculator".to_owned());
        r.push("scripts".to_owned());
        assert(views(r@) =~= seq!["deploy"@, "bot"@, "calculator"@, "scripts"@]);
        r
    }

    /// The steps whose markers are cleared before an install is launched.
    pub fn launch_steps_to_clear() -> (r: Vec<String>)
        ensures
            views(r@) == seq!["FileCheck"@, "BitcoinInstall"@, "ArgonInstall"@, "DockerLaunch"@],
    {
        let mut r: Vec<String> = Vec::new();
        r.push(InstallStatusErrorType::FileCheck.name().to_owned());
        r.push(InstallStatusErrorType::BitcoinInstall.name().to_owned());
        r.push(InstallStatusErrorType::ArgonInstall.name().to_owned());
        r.push(InstallStatusErrorType::DockerLaunch.name().to_owned());
        assert(views(r@) =~= seq!["FileCheck"@, "BitcoinInstall"@, "ArgonInstall"@, "DockerLaunch"@]);
        r
    }
}

} // verus!
