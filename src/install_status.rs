//! Install progress of the remote host, as read from the marker files that the
//! bootstrap script leaves in its log directory.

use vstd::prelude::*;
use crate::config::ServerDetails;
use crate::text::{
    contains_str, decimal_value, digit_value, is_decimal, keep_non_empty, non_empty, parse_u64, pieces,
    split, strip_trailing, trim, trimmed, views,
};

verus! {

/// The step at which an install stopped, or `Unknown` when the status itself
/// could not be read.
#[derive(Clone, Copy, Debug, PartialEq, Eq, Structural)]
pub enum InstallStatusErrorType {
    UbuntuCheck,
    FileCheck,
    DockerInstall,
    BitcoinInstall,
    ArgonInstall,
    DockerLaunch,
    Unknown,
}

/// The name under which a step writes its marker files.
pub open spec fn error_type_name(e: InstallStatusErrorType) -> Seq<char> {
    match e {
        InstallStatusErrorType::UbuntuCheck => "UbuntuCheck"@,
        InstallStatusErrorType::FileCheck => "FileCheck"@,
        InstallStatusErrorType::DockerInstall => "DockerInstall"@,
        InstallStatusErrorType::BitcoinInstall => "BitcoinInstall"@,
        InstallStatusErrorType::ArgonInstall => "ArgonInstall"@,
        InstallStatusErrorType::DockerLaunch => "DockerLaunch"@,
        InstallStatusErrorType::Unknown => "Unknown"@,
    }
}

impl InstallStatusErrorType {
    /// The step's name, as used in marker files and step keys.
    pub fn name(&self) -> (r: &'static str)
        ensures
            r@ == error_type_name(*self),
    {
        match self {
            InstallStatusErrorType::UbuntuCheck => "UbuntuCheck",
            InstallStatusErrorType::FileCheck => "FileCheck",
            InstallStatusErrorType::DockerInstall => "DockerInstall",
            InstallStatusErrorType::BitcoinInstall => "BitcoinInstall",
            InstallStatusErrorType::ArgonInstall => "ArgonInstall",
            InstallStatusErrorType::DockerLaunch => "DockerLaunch",
            InstallStatusErrorType::Unknown => "Unknown",
        }
    }
}

/// Progress of each step as the server reports it. Steps other than the launch
/// are 0, 1 (started), 50 or 100 percent; `docker_launch` is in hundredths of a
/// percent (0 to 10000).
#[derive(Clone, Debug)]
pub struct InstallStatusServer {
    pub ubuntu_check: i32,
    pub file_check: i32,
    pub docker_install: i32,
    pub bitcoin_install: i32,
    pub argon_install: i32,
    pub docker_launch: u32,
    pub error_type: Option<InstallStatusErrorType>,
    pub error_message: Option<String>,
    pub is_running: bool,
}

/// Progress of each step as shown to the user, in hundredths of a percent.
#[derive(Clone, Copy, Debug, PartialEq, Eq, Structural)]
pub struct InstallStatusClient {
    pub server_connect: u32,
    pub ubuntu_check: u32,
    pub file_check: u32,
    pub docker_install: u32,
    pub bitcoin_install: u32,
    pub argon_install: u32,
    pub docker_launch: u32,
}

/// The persisted install status: what the server reported and what is shown.
#[derive(Clone, Debug)]
pub struct InstallStatus {
    pub server: InstallStatusServer,
    pub client: InstallStatusClient,
}

/// A status with no progress, no error and the given running flag.
pub open spec fn idle_server_status(is_running: bool) -> InstallStatusServer {
    InstallStatusServer {
        ubuntu_check: 0,
        file_check: 0,
        docker_install: 0,
        bitcoin_install: 0,
        argon_install: 0,
        docker_launch: 0,
        error_type: None,
        error_message: None,
        is_running,
    }
}

/// A client view with no progress.
pub open spec fn idle_client_status() -> InstallStatusClient {
    InstallStatusClient {
        server_connect: 0,
        ubuntu_check: 0,
        file_check: 0,
        docker_install: 0,
        bitcoin_install: 0,
        argon_install: 0,
        docker_launch: 0,
    }
}

impl Default for InstallStatusServer {
    fn default() -> (r: Self)
        ensures
            r == idle_server_status(false),
    {
        InstallStatusServer {
            ubuntu_check: 0,
            file_check: 0,
            docker_install: 0,
            bitcoin_install: 0,
            argon_install: 0,
            docker_launch: 0,
            error_type: None,
            error_message: None,
            is_running: false,
        }
    }
}

impl Default for InstallStatusClient {
    fn default() -> (r: Self)
        ensures
            r == idle_client_status(),
    {
        InstallStatusClient {
            server_connect: 0,
            ubuntu_check: 0,
            file_check: 0,
            docker_install: 0,
            bitcoin_install: 0,
            argon_install: 0,
            docker_launch: 0,
        }
    }
}

impl Default for InstallStatus {
    fn default() -> (r: Self)
        ensures
            r.server == idle_server_status(false),
            r.client == idle_client_status(),
    {
        InstallStatus { server: InstallStatusServer::default(), client: InstallStatusClient::default() }
    }
}

/// What the marker files of one step say about it.
#[derive(Clone, Copy, Debug, PartialEq, Eq, Structural)]
pub enum StepState {
    NotStarted,
    Started,
    Finished,
    Failed,
}

/// The marker file name for `step` in the state named by `suffix`.
pub open spec fn marker(step: Seq<char>, suffix: Seq<char>) -> Seq<char> {
    step + suffix
}

/// The state of `step` given the marker files in `names`: a `.finished` marker
/// wins over `.failed`, which wins over `.started`.
pub open spec fn step_state_of(names: Seq<Seq<char>>, step: Seq<char>) -> StepState {
    if names.contains(marker(step, ".finished"@)) {
        StepState::Finished
    } else if names.contains(marker(step, ".failed"@)) {
        StepState::Failed
    } else if names.contains(marker(step, ".started"@)) {
        StepState::Started
    } else {
        StepState::NotStarted
    }
}

/// Whether `names` holds the marker of `step` for the state named by `suffix`.
pub fn has_marker(names: &Vec<String>, step: &str, suffix: &str) -> (r: bool)
    ensures
        r == views(names@).contains(marker(step@, suffix@)),
{
    let mut m = step.to_owned();
    m.append(suffix);
    contains_str(names, m.as_str())
}

/// The state of `step` given the marker files in `names`.
pub fn step_state(names: &Vec<String>, step: &str) -> (r: StepState)
    ensures
        r == step_state_of(views(names@), step@),
{
    if has_marker(names, step, ".finished") {
        StepState::Finished
    } else if has_marker(names, step, ".failed") {
        StepState::Failed
    } else if has_marker(names, step, ".started") {
        StepState::Started
    } else {
        StepState::NotStarted
    }
}

/// `s` with `e` as its error.
pub open spec fn with_error(s: InstallStatusServer, e: InstallStatusErrorType) -> InstallStatusServer {
    InstallStatusServer { error_type: Some(e), ..s }
}

/// The server status that the marker files in `names` describe. Steps are read
/// in order; the first one that has started without finishing, or has failed,
/// ends the reading, so no later step is reported. `launch` is the launch
/// progress probed on the host, used only when the launch has started.
pub open spec fn status_from_markers(names: Seq<Seq<char>>, is_running: bool, launch: u32) -> InstallStatusServer {
    read_ubuntu_check(names, idle_server_status(is_running), launch)
}

/// Reads the UbuntuCheck markers into `s`, then the later steps unless this one
/// stops the reading.
pub open spec fn read_ubuntu_check(names: Seq<Seq<char>>, s: InstallStatusServer, launch: u32) -> InstallStatusServer {
    match step_state_of(names, "UbuntuCheck"@) {
        StepState::Failed => with_error(s, InstallStatusErrorType::UbuntuCheck),
        StepState::Started => InstallStatusServer { ubuntu_check: 1, ..s },
        StepState::Finished => read_file_check(names, InstallStatusServer { ubuntu_check: 100, ..s }, launch),
        StepState::NotStarted => read_file_check(names, s, launch),
    }
}

/// Reads the FileCheck markers into `s`, then the later steps unless this one
/// stops the reading.
pub open spec fn read_file_check(names: Seq<Seq<char>>, s: InstallStatusServer, launch: u32) -> InstallStatusServer {
    match step_state_of(names, "FileCheck"@) {
        StepState::Failed => with_error(s, InstallStatusErrorType::FileCheck),
        StepState::Started => InstallStatusServer { file_check: 1, ..s },
        StepState::Finished => read_docker_install(names, InstallStatusServer { file_check: 100, ..s }, launch),
        StepState::NotStarted => read_docker_install(names, s, launch),
    }
}

/// Reads the DockerInstall markers into `s`, then the later steps unless this one
/// stops the reading.
pub open spec fn read_docker_install(names: Seq<Seq<char>>, s: InstallStatusServer, launch: u32) -> InstallStatusServer {
    match step_state_of(names, "DockerInstall"@) {
        StepState::Failed => with_error(s, InstallStatusErrorType::DockerInstall),
        StepState::Started => InstallStatusServer { docker_install: 1, ..s },
        StepState::Finished => read_bitcoin_install(names, InstallStatusServer { docker_install: 100, ..s }, launch),
        StepState::NotStarted => read_bitcoin_install(names, s, launch),
    }
}

/// Reads the BitcoinInstall markers into `s`, then the later steps unless this one
/// stops the reading.
pub open spec fn read_bitcoin_install(names: Seq<Seq<char>>, s: InstallStatusServer, launch: u32) -> InstallStatusServer {
    match step_state_of(names, "BitcoinInstall"@) {
        StepState::Failed => with_error(s, InstallStatusErrorType::BitcoinInstall),
        StepState::Started => InstallStatusServer { bitcoin_install: 1, ..s },
        StepState::Finished => read_bitcoin_data(names, InstallStatusServer { bitcoin_install: 50, ..s }, launch),
        StepState::NotStarted => read_bitcoin_data(names, s, launch),
    }
}

/// The chain data download counts for the second half of the bitcoin step.
pub open spec fn read_bitcoin_data(names: Seq<Seq<char>>, s: InstallStatusServer, launch: u32) -> InstallStatusServer {
    match step_state_of(names, "BitcoinData"@) {
        StepState::Failed => with_error(s, InstallStatusErrorType::BitcoinInstall),
        StepState::Started => s,
        StepState::Finished => read_argon_install(
            names,
            InstallStatusServer { bitcoin_install: (s.bitcoin_install + 50) as i32, ..s },
            launch,
        ),
        StepState::NotStarted => read_argon_install(names, s, launch),
    }
}

/// Reads the ArgonInstall markers into `s`, then the later steps unless this one
/// stops the reading.
pub open spec fn read_argon_install(names: Seq<Seq<char>>, s: InstallStatusServer, launch: u32) -> InstallStatusServer {
    match step_state_of(names, "ArgonInstall"@) {
        StepState::Failed => with_error(s, InstallStatusErrorType::ArgonInstall),
        StepState::Started => InstallStatusServer { argon_install: 1, ..s },
        StepState::Finished => read_docker_launch(names, InstallStatusServer { argon_install: 100, ..s }, launch),
        StepState::NotStarted => read_docker_launch(names, s, launch),
    }
}

/// The launch step has no finished marker of its own: it is done when the
/// probed progress reaches 100 percent.
pub open spec fn read_docker_launch(names: Seq<Seq<char>>, s: InstallStatusServer, launch: u32) -> InstallStatusServer {
    if names.contains(marker("DockerLaunch"@, ".failed"@)) {
        with_error(s, InstallStatusErrorType::DockerLaunch)
    } else if names.contains(marker("DockerLaunch"@, ".started"@)) {
        InstallStatusServer { docker_launch: launch, ..s }
    } else {
        s
    }
}

/// Whether reading the markers in `names` reaches a started launch, the one
/// case in which the launch progress must be probed on the host.
pub open spec fn reaches_launch_probe(names: Seq<Seq<char>>) -> bool {
    let s = status_from_markers(names, false, 1);
    s.docker_launch == 1
}


/// Whether `s` is empty or a run of digits.
pub open spec fn digits_or_empty(s: Seq<char>) -> bool {
    s.len() == 0 || is_decimal(s)
}

/// Hundredths given by the first two digits of a fraction.
pub open spec fn fraction_hundredths(f: Seq<char>) -> nat {
    if f.len() == 0 {
        0
    } else if f.len() == 1 {
        digit_value(f[0]) * 10
    } else {
        digit_value(f[0]) * 10 + digit_value(f[1])
    }
}

/// The percentage a sync probe prints, such as `45.37%`, in hundredths of a
/// percent: digits, an optional fraction (of which two digits count) and
/// trailing percent signs, with whitespace around. Anything else reads as 0.
pub open spec fn percent_hundredths(s: Seq<char>) -> u64 {
    let p = pieces(strip_trailing(trimmed(s), '%'), '.');
    if p.len() == 1 && is_decimal(p[0]) && decimal_value(p[0]) * 100 <= u64::MAX {
        (decimal_value(p[0]) * 100) as u64
    } else if p.len() == 2 && digits_or_empty(p[0]) && digits_or_empty(p[1]) && p[0].len() + p[1].len() > 0
        && decimal_value(p[0]) * 100 + fraction_hundredths(p[1]) <= u64::MAX {
        (decimal_value(p[0]) * 100 + fraction_hundredths(p[1])) as u64
    } else {
        0
    }
}

/// The launch progress: the mean of the two nodes' sync percentages.
pub open spec fn launch_progress_of(argon: Seq<char>, bitcoin: Seq<char>) -> u32 {
    let m = (percent_hundredths(argon) + percent_hundredths(bitcoin)) / 2;
    if m > u32::MAX { u32::MAX } else { m as u32 }
}

fn digit_at(s: &str, i: usize) -> (r: u64)
    requires
        i < s@.len(),
        '0' <= s@[i as int] <= '9',
    ensures
        r == digit_value(s@[i as int]),
{
    let c = s.get_char(i);
    (c as u32 - '0' as u32) as u64
}

fn all_digits(s: &str) -> (r: bool)
    ensures
        r == (forall|k: int| 0 <= k < s@.len() ==> '0' <= #[trigger] s@[k] <= '9'),
{
    let n = s.unicode_len();
    let mut i: usize = 0;
    while i < n
        invariant
            n == s@.len(),
            i <= n,
            forall|k: int| 0 <= k < i ==> '0' <= #[trigger] s@[k] <= '9',
        decreases n - i,
    {
        let c = s.get_char(i);
        if !('0' <= c && c <= '9') {
            return false;
        }
        i = i + 1;
    }
    true
}

/// Reads a sync probe's percentage in hundredths of a percent; 0 when it is
/// not a plain decimal percentage.
pub fn parse_percent(s: &str) -> (r: u64)
    ensures
        r == percent_hundredths(s@),
{
    let t = trim(s);
    let n = t.unicode_len();
    let mut end: usize = n;
    proof {
        assert(t@.subrange(0, end as int) =~= t@);
    }
    while end > 0 && t.as_str().get_char(end - 1) == '%'
        invariant
            n == t@.len(),
            end <= n,
            strip_trailing(t@.subrange(0, end as int), '%') == strip_trailing(t@, '%'),
        decreases end,
    {
        proof {
            assert(t@.subrange(0, end as int).drop_last() =~= t@.subrange(0, end - 1));
        }
        end = end - 1;
    }
    proof {
        let u = t@.subrange(0, end as int);
        if u.len() > 0 {
            assert(u.last() == t@[end - 1]);
        }
    }
    let body = t.as_str().substring_char(0, end);
    let parts = split(body, '.');
    let ghost p = pieces(strip_trailing(trimmed(s@), '%'), '.');
    proof {
        assert(parts@.len() == p.len());
    }
    if parts.len() == 1 {
        proof {
            assert(parts@[0]@ == p[0]);
        }
        match parse_u64(parts[0].as_str()) {
            Some(v) => match v.checked_mul(100) {
                Some(x) => x,
                None => 0,
            },
            None => 0,
        }
    } else if parts.len() == 2 {
        proof {
            assert(parts@[0]@ == p[0]);
            assert(parts@[1]@ == p[1]);
        }
        let whole = parts[0].as_str();
        let frac = parts[1].as_str();
        let wn = whole.unicode_len();
        let fl = frac.unicode_len();
        if (wn == 0 && fl == 0) || !all_digits(whole) || !all_digits(frac) {
            return 0;
        }
        let w: u64 = if wn == 0 {
            0
        } else {
            match parse_u64(whole) {
                Some(v) => v,
                None => return 0,
            }
        };
        let f: u64 = if fl == 0 {
            0
        } else if fl == 1 {
            digit_at(frac, 0) * 10
        } else {
            digit_at(frac, 0) * 10 + digit_at(frac, 1)
        };
        match w.checked_mul(100) {
            Some(x) => match x.checked_add(f) {
                Some(y) => y,
                None => 0,
            },
            None => 0,
        }
    } else {
        0
    }
}

/// The launch progress from the outputs of the two nodes' sync probes.
pub fn launch_progress(argon_output: &str, bitcoin_output: &str) -> (r: u32)
    ensures
        r == launch_progress_of(argon_output@, bitcoin_output@),
{
    let a = parse_percent(argon_output) as u128;
    let b = parse_percent(bitcoin_output) as u128;
    let m = (a + b) / 2;
    if m > u32::MAX as u128 {
        u32::MAX
    } else {
        m as u32
    }
}

/// The decisions of the install status reader.
pub struct InstallerStatus;

/// Whether every step of `s` is complete.
pub open spec fn install_complete(s: InstallStatusServer) -> bool {
    s.ubuntu_check >= 100 && s.file_check >= 100 && s.docker_install >= 100 && s.bitcoin_install >= 100
        && s.argon_install >= 100 && s.docker_launch >= 10000
}

/// The client view of `status`: a step's shown progress is cleared while the
/// server has not begun the step before it.
pub open spec fn client_status_of(status: InstallStatus) -> InstallStatusClient {
    let s = status.server;
    let c = status.client;
    InstallStatusClient {
        file_check: if s.ubuntu_check == 0 { 0 } else { c.file_check },
        docker_install: if s.file_check == 0 { 0 } else { c.docker_install },
        bitcoin_install: if s.docker_install == 0 { 0 } else { c.bitcoin_install },
        argon_install: if s.bitcoin_install == 0 { 0 } else { c.argon_install },
        docker_launch: if s.argon_install == 0 { 0 } else { c.docker_launch },
        ..c
    }
}

/// The marker file names listed in the output of a directory listing: its
/// non-empty lines.
pub open spec fn listed_names(output: Seq<char>) -> Seq<Seq<char>> {
    non_empty(pieces(output, '\n'))
}

/// The progress of step `k` in `s`, for the five ordinary steps and the launch.
pub open spec fn step_progress(s: InstallStatusServer, k: int) -> int {
    if k == 0 {
        s.ubuntu_check as int
    } else if k == 1 {
        s.file_check as int
    } else if k == 2 {
        s.docker_install as int
    } else if k == 3 {
        s.bitcoin_install as int
    } else if k == 4 {
        s.argon_install as int
    } else {
        s.docker_launch as int
    }
}

/// The marker name of step `k`, for the five ordinary steps.
pub open spec fn step_key(k: int) -> Seq<char> {
    if k == 0 {
        "UbuntuCheck"@
    } else if k == 1 {
        "FileCheck"@
    } else if k == 2 {
        "DockerInstall"@
    } else if k == 3 {
        "BitcoinInstall"@
    } else {
        "ArgonInstall"@
    }
}

/// A step that has started without finishing, or has failed, hides every later
/// step: all of them read as zero, whatever markers they have.
pub proof fn lemma_no_progress_past_open_step(names: Seq<Seq<char>>, is_running: bool, launch: u32, k: int, j: int)
    requires
        0 <= k < j <= 5,
        step_state_of(names, step_key(k)) == StepState::Started
            || step_state_of(names, step_key(k)) == StepState::Failed,
    ensures
        step_progress(status_from_markers(names, is_running, launch), j) == 0,
{
}

impl InstallerStatus {
    /// The server status that the marker files in `filenames` describe, with
    /// `launch` as the probed launch progress.
    pub fn calculate_status_server(filenames: &Vec<String>, is_running: bool, launch: u32) -> (r: InstallStatusServer)
        ensures
            r == status_from_markers(views(filenames@), is_running, launch),
    {
        let mut status = InstallStatusServer::default();
        status.is_running = is_running;
        match step_state(filenames, "UbuntuCheck") {
            StepState::Failed => {
                status.error_type = Some(InstallStatusErrorType::UbuntuCheck);
                return status;
            },
            StepState::Started => {
                status.ubuntu_check = 1;
                return status;
            },
            StepState::Finished => {
                status.ubuntu_check = 100;
            },
            StepState::NotStarted => {},
        }
        match step_state(filenames, "FileCheck") {
            StepState::Failed => {
                status.error_type = Some(InstallStatusErrorType::FileCheck);
                return status;
            },
            StepState::Started => {
                status.file_check = 1;
                return status;
            },
            StepState::Finished => {
                status.file_check = 100;
            },
            StepState::NotStarted => {},
        }
        match step_state(filenames, "DockerInstall") {
            StepState::Failed => {
                status.error_type = Some(InstallStatusErrorType::DockerInstall);
                return status;
            },
            StepState::Started => {
                status.docker_install = 1;
                return status;
            },
            StepState::Finished => {
                status.docker_install = 100;
            },
            StepState::NotStarted => {},
        }
        match step_state(filenames, "BitcoinInstall") {
            StepState::Failed => {
                status.error_type = Some(InstallStatusErrorType::BitcoinInstall);
                return status;
            },
            StepState::Started => {
                status.bitcoin_install = 1;
                return status;
            },
            StepState::Finished => {
                status.bitcoin_install = 50;
            },
            StepState::NotStarted => {},
        }
        match step_state(filenames, "BitcoinData") {
            StepState::Failed => {
                status.error_type = Some(InstallStatusErrorType::BitcoinInstall);
                return status;
            },
            StepState::Started => {
                return status;
            },
            StepState::Finished => {
                status.bitcoin_install = status.bitcoin_install + 50;
            },
            StepState::NotStarted => {},
        }
        match step_state(filenames, "ArgonInstall") {
            StepState::Failed => {
                status.error_type = Some(InstallStatusErrorType::ArgonInstall);
                return status;
            },
            StepState::Started => {
                status.argon_install = 1;
                return status;
            },
            StepState::Finished => {
                status.argon_install = 100;
            },
            StepState::NotStarted => {},
        }
        if has_marker(filenames, "DockerLaunch", ".failed") {
            status.error_type = Some(InstallStatusErrorType::DockerLaunch);
        } else if has_marker(filenames, "DockerLaunch", ".started") {
            status.docker_launch = launch;
        }
        status
    }

    /// Whether the launch progress must be probed on the host before the
    /// status can be computed.
    pub fn launch_probe_needed(filenames: &Vec<String>) -> (r: bool)
        ensures
            r == reaches_launch_probe(views(filenames@)),
    {
        let s = Self::calculate_status_server(filenames, false, 1);
        s.docker_launch == 1
    }

    /// The marker file names in the output of a listing of the log directory.
    pub fn log_filenames(output: &str) -> (r: Vec<String>)
        ensures
            views(r@) == listed_names(output@),
    {
        keep_non_empty(split(output, '\n'))
    }

    /// Whether the status carries an error.
    pub fn has_error(status_server: &InstallStatusServer) -> (r: bool)
        ensures
            r == status_server.error_type is Some,
    {
        status_server.error_type.is_some()
    }

    /// Whether every step is complete, the launch included.
    pub fn is_server_install_complete(status_server: &InstallStatusServer) -> (r: bool)
        ensures
            r == install_complete(*status_server),
    {
        status_server.ubuntu_check >= 100 && status_server.file_check >= 100
            && status_server.docker_install >= 100 && status_server.bitcoin_install >= 100
            && status_server.argon_install >= 100 && status_server.docker_launch >= 10000
    }

    /// Whether the first step has begun.
    pub fn has_server_install_started(status_server: &InstallStatusServer) -> (r: bool)
        ensures
            r == (status_server.ubuntu_check > 0),
    {
        status_server.ubuntu_check > 0
    }

    /// Records a freshly read server status in `install_status`. When the
    /// status could not be read (`Err`, with the reason), the last status is
    /// kept and marked with an `Unknown` error, no step being marked failed.
    /// The client view is then derived from the result.
    pub fn fetch_latest_install_status(install_status: &mut InstallStatus, latest: Result<InstallStatusServer, String>)
        ensures
            final(install_status).server == match latest {
                Ok(s) => s,
                Err(m) => InstallStatusServer {
                    error_type: Some(InstallStatusErrorType::Unknown),
                    error_message: Some(m),
                    ..old(install_status).server
                },
            },
            final(install_status).client == client_status_of(
                InstallStatus { server: final(install_status).server, client: old(install_status).client },
            ),
    {
        match latest {
            Ok(s) => {
                install_status.server = s;
            },
            Err(m) => {
                install_status.server.error_type = Some(InstallStatusErrorType::Unknown);
                install_status.server.error_message = Some(m);
            },
        }
        install_status.client = Self::calculate_status_client(install_status);
    }

    /// Records that launching the install failed before the script could run:
    /// it is reported as a failed file check, with the reason.
    pub fn record_launch_failure(install_status: &mut InstallStatus, message: String)
        ensures
            final(install_status).server == (InstallStatusServer {
                error_type: Some(InstallStatusErrorType::FileCheck),
                error_message: Some(message),
                ..old(install_status).server
            }),
            final(install_status).client == old(install_status).client,
    {
        install_status.server.error_type = Some(InstallStatusErrorType::FileCheck);
        install_status.server.error_message = Some(message);
    }

    /// Once every step is complete, the host is no longer installing nor new;
    /// a status with an error changes nothing. Says whether it was complete.
    pub fn record_completion(details: &mut ServerDetails, status_server: &InstallStatusServer) -> (r: bool)
        ensures
            r == (status_server.error_type is None && install_complete(*status_server)),
            r ==> *final(details) == (ServerDetails { is_installing: false, is_new_server: false, ..*old(details) }),
            !r ==> *final(details) == *old(details),
    {
        if Self::has_error(status_server) {
            return false;
        }
        if Self::is_server_install_complete(status_server) {
            details.is_installing = false;
            details.is_new_server = false;
            return true;
        }
        false
    }

    /// The client view of `install_status`.
    pub fn calculate_status_client(install_status: &InstallStatus) -> (r: InstallStatusClient)
        ensures
            r == client_status_of(*install_status),
    {
        let s = &install_status.server;
        let mut c = install_status.client;
        if s.ubuntu_check == 0 {
            c.file_check = 0;
        }
        if s.file_check == 0 {
            c.docker_install = 0;
        }
        if s.docker_install == 0 {
            c.bitcoin_install = 0;
        }
        if s.bitcoin_install == 0 {
            c.argon_install = 0;
        }
        if s.argon_install == 0 {
            c.docker_launch = 0;
        }
        c
    }
}

} // verus!
