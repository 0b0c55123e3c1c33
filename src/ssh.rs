//! SSH targets, the registry of open sessions, and the handling of command
//! output on a session channel.

use vstd::prelude::*;
use crate::table::{index_where, lemma_index_where_at, lemma_index_where_bounds};
use crate::text::{chars_of, contains_str, decimal_chars, decimal_string, ends_with, has_suffix, views};

verus! {

/// Whether the text decodes as an SSH private key without a password.
pub uninterp spec fn decodes_as_private_key(key: Seq<char>) -> bool;

/// Relies on russh::keys::decode_secret_key, called without a password: it
/// returns `Ok` exactly for the texts that decode as a private key.
#[verifier::external_body]
fn private_key_decodes(key: &str) -> (r: bool)
    ensures
        r == decodes_as_private_key(key@),
{
    russh::keys::decode_secret_key(key, None).is_ok()
}

/// Why an SSH operation failed.
#[derive(Clone, Copy, Debug, PartialEq, Eq, Structural)]
pub enum SshError {
    /// The private key does not decode.
    InvalidPrivateKey,
    /// The remote side closed the channel without reporting an exit status.
    MissingExitStatus,
}

/// The identity of an SSH target: address, user and key.
#[derive(Debug)]
pub struct SSHConfig {
    pub host: String,
    pub port: u16,
    pub username: String,
    pub private_key: String,
}

/// Whether two configs are equal by value.
pub open spec fn same_config(a: SSHConfig, b: SSHConfig) -> bool {
    a.host@ == b.host@ && a.port == b.port && a.username@ == b.username@ && a.private_key@ == b.private_key@
}

/// Whether two configs name the same address.
pub open spec fn same_target(a: SSHConfig, b: SSHConfig) -> bool {
    a.host@ == b.host@ && a.port == b.port
}

impl Clone for SSHConfig {
    fn clone(&self) -> (r: Self)
        ensures
            r == *self,
    {
        SSHConfig {
            host: self.host.clone(),
            port: self.port,
            username: self.username.clone(),
            private_key: self.private_key.clone(),
        }
    }
}

impl PartialEq for SSHConfig {
    fn eq(&self, other: &SSHConfig) -> (r: bool) {
        self.host == other.host && self.port == other.port && self.username == other.username
            && self.private_key == other.private_key
    }
}

impl vstd::std_specs::cmp::PartialEqSpecImpl for SSHConfig {
    open spec fn obeys_eq_spec() -> bool {
        true
    }

    open spec fn eq_spec(&self, other: &SSHConfig) -> bool {
        same_config(*self, *other)
    }
}

impl SSHConfig {
    /// A config for `username` at `host`:`port`, when `private_key_str` decodes
    /// as a private key.
    pub fn new(host: &str, port: u16, username: String, private_key_str: String) -> (r: Result<SSHConfig, SshError>)
        ensures
            r is Ok <==> decodes_as_private_key(private_key_str@),
            r matches Ok(c) ==> c.host@ == host@ && c.port == port && c.username == username
                && c.private_key == private_key_str,
            r matches Err(e) ==> e == SshError::InvalidPrivateKey,
    {
        if !private_key_decodes(private_key_str.as_str()) {
            return Err(SshError::InvalidPrivateKey);
        }
        Ok(SSHConfig { host: host.to_owned(), port, username, private_key: private_key_str })
    }

    /// The address, written `host:port`.
    pub fn host(&self) -> (r: String)
        ensures
            r@ == self.host@ + ":"@ + decimal_chars(self.port as nat),
    {
        let mut s = self.host.clone();
        s.append(":");
        let p = decimal_string(self.port as u64);
        s.append(p.as_str());
        s
    }
}

/// A session open to a target, known by the id the registry gave it.
#[derive(Debug)]
pub struct Connection {
    pub config: SSHConfig,
    pub session: u64,
}

/// The sessions of a registry and the id that the next one gets.
pub struct RegistryView {
    pub entries: Seq<Connection>,
    pub next_session: u64,
}

/// What `get_or_open` did: the session to use, whether it is new (and must be
/// connected), and the session it replaced (which must be closed).
#[derive(Clone, Copy, Debug, PartialEq, Eq, Structural)]
pub struct OpenOutcome {
    pub session: u64,
    pub opened: bool,
    pub closed: Option<u64>,
}

/// Matches the entry for the address of `config`.
pub open spec fn entry_for(config: SSHConfig) -> spec_fn(Connection) -> bool {
    |c: Connection| same_target(c.config, config)
}

/// Every session id was given out before `next_session`, and no address has
/// two entries.
pub open spec fn registry_wf(v: RegistryView) -> bool {
    &&& forall|j: int| 0 <= j < v.entries.len() ==> #[trigger] v.entries[j].session < v.next_session
    &&& forall|j: int, k: int|
        0 <= j < v.entries.len() && 0 <= k < v.entries.len() && same_target(
            #[trigger] v.entries[j].config,
            #[trigger] v.entries[k].config,
        ) ==> j == k
}

/// The registry and the outcome after `config` is asked for: the cached
/// session when the config is unchanged; otherwise a new session, replacing
/// the one cached for the address, if any.
pub open spec fn open_step(v: RegistryView, config: SSHConfig) -> (RegistryView, OpenOutcome) {
    let i = index_where(v.entries, entry_for(config));
    if i >= 0 && same_config(v.entries[i].config, config) {
        (v, OpenOutcome { session: v.entries[i].session, opened: false, closed: None })
    } else {
        let kept = if i >= 0 { v.entries.remove(i) } else { v.entries };
        (
            RegistryView {
                entries: kept.push(Connection { config, session: v.next_session }),
                next_session: (v.next_session + 1) as u64,
            },
            OpenOutcome {
                session: v.next_session,
                opened: true,
                closed: if i >= 0 { Some(v.entries[i].session) } else { None },
            },
        )
    }
}

/// Sessions by address. A session is replaced, never duplicated, when the
/// config for its address changes.
pub struct ConnectionRegistry {
    entries: Vec<Connection>,
    next_session: u64,
}

impl View for ConnectionRegistry {
    type V = RegistryView;

    closed spec fn view(&self) -> RegistryView {
        RegistryView { entries: self.entries@, next_session: self.next_session }
    }
}

impl ConnectionRegistry {
    /// A registry with no session.
    pub fn new() -> (r: ConnectionRegistry)
        ensures
            r@.entries.len() == 0,
            r@.next_session == 0,
            registry_wf(r@),
    {
        ConnectionRegistry { entries: Vec::new(), next_session: 0 }
    }

    fn index_for(&self, config: &SSHConfig) -> (r: Option<usize>)
        ensures
            match r {
                Some(i) => i < self@.entries.len() && i as int == index_where(self@.entries, entry_for(*config)),
                None => index_where(self@.entries, entry_for(*config)) == -1,
            },
    {
        let ghost p = entry_for(*config);
        let mut i: usize = self.entries.len();
        while i > 0
            invariant
                i <= self.entries@.len(),
                p == entry_for(*config),
                forall|j: int| i <= j < self.entries@.len() ==> !p(#[trigger] self.entries@[j]),
            decreases i,
        {
            let c = &self.entries[i - 1].config;
            if c.host == config.host && c.port == config.port {
                proof {
                    lemma_index_where_at(self.entries@, p, i - 1);
                }
                return Some(i - 1);
            }
            i = i - 1;
        }
        proof {
            lemma_index_where_at(self.entries@, p, -1);
        }
        None
    }

    /// The session to use for `config`: the cached one when its config is
    /// equal by value, else a fresh id that replaces the cached one.
    pub fn get_or_open(&mut self, config: &SSHConfig) -> (r: OpenOutcome)
        requires
            registry_wf(old(self)@),
            old(self)@.next_session < u64::MAX,
        ensures
            (final(self)@, r) == open_step(old(self)@, *config),
            registry_wf(final(self)@),
    {
        let ghost v = self@;
        proof {
            lemma_index_where_bounds(v.entries, entry_for(*config));
        }
        let found = self.index_for(config);
        match found {
            Some(i) => {
                if self.entries[i].config == *config {
                    return OpenOutcome { session: self.entries[i].session, opened: false, closed: None };
                }
            },
            None => {},
        }
        let closed = match found {
            Some(i) => {
                let old_entry = self.entries.remove(i);
                Some(old_entry.session)
            },
            None => None,
        };
        let session = self.next_session;
        self.entries.push(Connection { config: config.clone(), session });
        self.next_session = self.next_session + 1;
        proof {
            let kept = if found is Some { v.entries.remove(found->Some_0 as int) } else { v.entries };
            assert(self.entries@ == kept.push(Connection { config: *config, session: v.next_session }));
            assert forall|j: int| 0 <= j < kept.len() implies !same_target(#[trigger] kept[j].config, *config) by {
                if found is Some {
                    let i = found->Some_0 as int;
                    if j < i {
                        assert(kept[j] == v.entries[j]);
                        if same_target(v.entries[j].config, *config) {
                            assert(same_target(v.entries[j].config, v.entries[i].config));
                        }
                    } else {
                        assert(kept[j] == v.entries[j + 1]);
                    }
                } else {
                    assert(!entry_for(*config)(v.entries[j]));
                }
            }
            assert forall|j: int| 0 <= j < kept.len() implies #[trigger] kept[j].session < v.next_session by {
                if found is Some {
                    let i = found->Some_0 as int;
                    if j < i {
                        assert(kept[j] == v.entries[j]);
                    } else {
                        assert(kept[j] == v.entries[j + 1]);
                    }
                }
            }
            let e = self.entries@;
            assert forall|j: int, k: int|
                0 <= j < e.len() && 0 <= k < e.len() && same_target(#[trigger] e[j].config, #[trigger] e[k].config)
                implies j == k by {
                if j < kept.len() && k < kept.len() {
                    if found is Some {
                        let i = found->Some_0 as int;
                        let jj = if j < i { j } else { j + 1 };
                        let kk = if k < i { k } else { k + 1 };
                        assert(kept[j] == v.entries[jj]);
                        assert(kept[k] == v.entries[kk]);
                    }
                } else if j < kept.len() {
                    assert(e[k].config == *config);
                } else if k < kept.len() {
                    assert(e[j].config == *config);
                }
            }
        }
        OpenOutcome { session, opened: true, closed }
    }
}

impl ConnectionRegistry {
    /// Whether a session id is left to give out.
    pub fn can_open(&self) -> (r: bool)
        ensures
            r == (self@.next_session < u64::MAX),
    {
        self.next_session < u64::MAX
    }

    /// Forgets the session of `host`:`port` and returns it, to be closed.
    pub fn close(&mut self, host: &str, port: u16) -> (r: Option<u64>)
        requires
            registry_wf(old(self)@),
        ensures
            registry_wf(final(self)@),
            final(self)@.next_session == old(self)@.next_session,
            ({
                let i = index_where(
                    old(self)@.entries,
                    |c: Connection| c.config.host@ == host@ && c.config.port == port,
                );
                if i >= 0 {
                    r == Some(old(self)@.entries[i].session) && final(self)@.entries == old(self)@.entries.remove(i)
                } else {
                    r is None && final(self)@.entries == old(self)@.entries
                }
            }),
    {
        let ghost p = |c: Connection| c.config.host@ == host@ && c.config.port == port;
        let ghost v = self@;
        let target = host.to_owned();
        let mut i: usize = self.entries.len();
        while i > 0
            invariant
                i <= self.entries@.len(),
                self@ == v,
                v == old(self)@,
                registry_wf(v),
                target@ == host@,
                p == (|c: Connection| c.config.host@ == host@ && c.config.port == port),
                forall|j: int| i <= j < self.entries@.len() ==> !p(#[trigger] self.entries@[j]),
            decreases i,
        {
            if self.entries[i - 1].config.host == target && self.entries[i - 1].config.port == port {
                proof {
                    lemma_index_where_at(self.entries@, p, i - 1);
                }
                let gone = self.entries.remove(i - 1);
                proof {
                    let e = self.entries@;
                    let k0 = (i - 1) as int;
                    assert forall|j: int| 0 <= j < e.len() implies #[trigger] e[j].session < v.next_session by {
                        if j < k0 {
                            assert(e[j] == v.entries[j]);
                        } else {
                            assert(e[j] == v.entries[j + 1]);
                        }
                    }
                    assert forall|j: int, k: int|
                        0 <= j < e.len() && 0 <= k < e.len() && same_target(#[trigger] e[j].config, #[trigger] e[k].config)
                        implies j == k by {
                        let jj = if j < k0 { j } else { j + 1 };
                        let kk = if k < k0 { k } else { k + 1 };
                        assert(e[j] == v.entries[jj]);
                        assert(e[k] == v.entries[kk]);
                    }
                }
                return Some(gone.session);
            }
            i = i - 1;
        }
        proof {
            lemma_index_where_at(self.entries@, p, -1);
        }
        None
    }
}

/// Asking twice for the same config gives the same session, opened once; asking
/// for another config of the same address then opens a new, distinct session
/// and closes the first.
pub proof fn lemma_registry_replaces_changed_config(v: RegistryView, a: SSHConfig, b: SSHConfig)
    requires
        registry_wf(v),
        v.next_session + 2 <= u64::MAX,
        same_target(a, b),
        !same_config(a, b),
    ensures
        ({
            let (v1, first) = open_step(v, a);
            let (v2, again) = open_step(v1, a);
            let (v3, other) = open_step(v1, b);
            &&& again.session == first.session
            &&& !again.opened
            &&& v2 == v1
            &&& other.opened
            &&& other.session != first.session
            &&& other.closed == Some(first.session)
        }),
{
    let (v1, first) = open_step(v, a);
    lemma_index_where_bounds(v.entries, entry_for(a));
    let i = index_where(v.entries, entry_for(a));
    if i >= 0 && same_config(v.entries[i].config, a) {
        assert(first.session < v.next_session);
    } else {
        let n = v1.entries.len() - 1;
        assert(entry_for(a)(v1.entries[n]));
        assert(entry_for(b)(v1.entries[n]));
        assert(index_where(v1.entries, entry_for(a)) == n);
        assert(index_where(v1.entries, entry_for(b)) == n);
    }
    let j = index_where(v1.entries, entry_for(a));
    assert(entry_for(a) == entry_for(b));
    lemma_index_where_bounds(v1.entries, entry_for(a));
    assert(v1.entries[j].session < v1.next_session);
}

/// A command as the remote shell receives it: wrapped in `bash -c` so that
/// several statements, `&&` and pipes behave as in an interactive shell.
pub open spec fn wrapped_command(command: Seq<char>) -> Seq<char> {
    "bash -c '"@ + command + "'"@
}

/// Wraps `command` for the remote shell.
pub fn shell_command(command: &str) -> (r: String)
    ensures
        r@ == wrapped_command(command@),
{
    let mut s = "bash -c '".to_owned();
    s.append(command);
    s.append("'");
    s
}

/// The command that writes what it reads to `remote_path`, replacing the file.
pub fn upload_command(remote_path: &str) -> (r: String)
    ensures
        r@ == "cat > "@ + remote_path@,
{
    let mut s = "cat > ".to_owned();
    s.append(remote_path);
    s
}

/// A message that arrives on a command's channel. Data is already decoded as
/// text; `ExtendedData` carries its stream number, 1 being stderr.
#[derive(Debug)]
pub enum ChannelMsg {
    Data(String),
    ExtendedData(String, u32),
    ExitStatus(u32),
    Other,
}

/// The output of a command so far: stdout and stderr merged in arrival order,
/// and the exit status once reported.
#[derive(Debug)]
pub struct CommandOutput {
    pub output: String,
    pub exit_status: Option<u32>,
}

impl CommandOutput {
    /// Nothing received yet.
    pub fn new() -> (r: CommandOutput)
        ensures
            r.output@.len() == 0,
            r.exit_status is None,
    {
        CommandOutput { output: String::new(), exit_status: None }
    }

    /// Takes in one channel message.
    pub fn absorb(&mut self, msg: &ChannelMsg)
        ensures
            match msg {
                ChannelMsg::Data(d) => final(self).output@ == old(self).output@ + d@
                    && final(self).exit_status == old(self).exit_status,
                ChannelMsg::ExtendedData(d, ext) => final(self).output@ == (if *ext == 1 {
                    old(self).output@ + d@
                } else {
                    old(self).output@
                }) && final(self).exit_status == old(self).exit_status,
                ChannelMsg::ExitStatus(code) => final(self).output@ == old(self).output@
                    && final(self).exit_status == Some(*code),
                ChannelMsg::Other => final(self).output@ == old(self).output@
                    && final(self).exit_status == old(self).exit_status,
            },
    {
        match msg {
            ChannelMsg::Data(d) => {
                self.output.append(d.as_str());
            },
            ChannelMsg::ExtendedData(d, ext) => {
                if *ext == 1 {
                    self.output.append(d.as_str());
                }
            },
            ChannelMsg::ExitStatus(code) => {
                self.exit_status = Some(*code);
            },
            ChannelMsg::Other => {},
        }
    }

    /// The merged output and the exit status, or an error when the channel
    /// closed without an exit status.
    pub fn finish(self) -> (r: Result<(String, u32), SshError>)
        ensures
            match self.exit_status {
                Some(code) => r matches Ok((out, c)) && out@ == self.output@ && c == code,
                None => r == Err::<(String, u32), SshError>(SshError::MissingExitStatus),
            },
    {
        match self.exit_status {
            Some(code) => Ok((self.output, code)),
            None => Err(SshError::MissingExitStatus),
        }
    }
}

/// A file found under a local directory that is to be uploaded.
#[derive(Debug)]
pub struct FileInfo {
    pub absolute_path: String,
    pub relative_path: String,
    pub is_executable: bool,
}

/// Whether a file is to be made executable after upload: its owner may execute
/// it, or it is a shell script.
pub fn is_executable(mode: u32, relative_path: &str) -> (r: bool)
    ensures
        r == ((mode & 0o100u32) != 0 || has_suffix(relative_path@, ".sh"@)),
{
    (mode & 0o100u32) != 0 || ends_with(relative_path, ".sh")
}

/// One step of a directory upload.
#[derive(Debug)]
pub enum UploadStep {
    /// Run this command on the host.
    Run(String),
    /// Upload the contents of file `file` of the list to `remote_path`.
    Upload { file: usize, remote_path: String },
}

/// The index of the last `/` in `s`, or -1.
pub open spec fn last_slash(s: Seq<char>) -> int {
    index_where(s, |c: char| c == '/')
}

/// Where a file lands under `base`.
pub open spec fn remote_file_path(base: Seq<char>, relative: Seq<char>) -> Seq<char> {
    if has_suffix(base, "/"@) {
        base + relative
    } else {
        base + "/"@ + relative
    }
}

/// The directory that holds `path`, when it has one.
pub open spec fn parent_dir(path: Seq<char>) -> Option<Seq<char>> {
    let i = last_slash(path);
    if i > 0 {
        Some(path.subrange(0, i))
    } else {
        None
    }
}

/// The steps that upload one file to `remote`: create its directory unless
/// `created` already holds it, write it, and make it executable if need be.
pub open spec fn file_steps(remote: Seq<char>, file: int, executable: bool, created: Seq<Seq<char>>) -> (Seq<Seq<char>>, Seq<(int, Seq<char>)>) {
    let mkdir: Seq<(int, Seq<char>)> = match parent_dir(remote) {
        Some(p) => if created.contains(p) { seq![] } else { seq![(-1int, "mkdir -p "@ + p)] },
        None => seq![],
    };
    let now_created = match parent_dir(remote) {
        Some(p) => if created.contains(p) { created } else { created.push(p) },
        None => created,
    };
    let chmod: Seq<(int, Seq<char>)> = if executable { seq![(-1int, "chmod u+x "@ + remote)] } else { seq![] };
    (now_created, mkdir + seq![(file, remote)] + chmod)
}

/// A step written as a pair: `(-1, command)` runs a command, `(i, path)`
/// uploads file `i` to `path`.
pub open spec fn step_view(s: UploadStep) -> (int, Seq<char>) {
    match s {
        UploadStep::Run(c) => (-1int, c@),
        UploadStep::Upload { file, remote_path } => (file as int, remote_path@),
    }
}

/// The steps that upload `files` under `base`, in order, each new directory
/// being created once.
pub open spec fn upload_plan(base: Seq<char>, files: Seq<FileInfo>) -> (Seq<Seq<char>>, Seq<(int, Seq<char>)>)
    decreases files.len(),
{
    if files.len() == 0 {
        (seq![], seq![])
    } else {
        let (created, steps) = upload_plan(base, files.drop_last());
        let f = files.last();
        let (created2, more) = file_steps(
            remote_file_path(base, f.relative_path@),
            files.len() - 1,
            f.is_executable,
            created,
        );
        (created2, steps + more)
    }
}

/// Where a file lands under `base`.
pub fn join_remote_path(base: &str, relative: &str) -> (r: String)
    ensures
        r@ == remote_file_path(base@, relative@),
{
    let mut s = base.to_owned();
    if !ends_with(base, "/") {
        s.append("/");
    }
    s.append(relative);
    s
}

/// The directory that holds `path`, when it has one.
pub fn parent_of(path: &str) -> (r: Option<String>)
    ensures
        match parent_dir(path@) {
            Some(p) => r matches Some(x) && x@ == p,
            None => r is None,
        },
{
    let cs = chars_of(path);
    let ghost p = |c: char| c == '/';
    let mut i: usize = cs.len();
    while i > 0
        invariant
            cs@ == path@,
            i <= cs@.len(),
            p == (|c: char| c == '/'),
            forall|j: int| i <= j < cs@.len() ==> !p(#[trigger] cs@[j]),
        decreases i,
    {
        if cs[i - 1] == '/' {
            proof {
                lemma_index_where_at(cs@, p, i - 1);
            }
            if i - 1 == 0 {
                return None;
            }
            return Some(path.substring_char(0, i - 1).to_owned());
        }
        i = i - 1;
    }
    proof {
        lemma_index_where_at(cs@, p, -1);
    }
    None
}

/// The views of a list of upload steps.
pub open spec fn step_views(steps: Seq<UploadStep>) -> Seq<(int, Seq<char>)> {
    steps.map_values(|s: UploadStep| step_view(s))
}

/// The steps that upload `files` under `remote_base`: each new directory is
/// created once, before its first file, and executable files are marked so.
pub fn plan_directory_upload(remote_base: &str, files: &Vec<FileInfo>) -> (r: Vec<UploadStep>)
    ensures
        step_views(r@) == upload_plan(remote_base@, files@).1,
{
    let mut created: Vec<String> = Vec::new();
    let mut steps: Vec<UploadStep> = Vec::new();
    let mut i: usize = 0;
    proof {
        assert(files@.subrange(0, 0) =~= Seq::<FileInfo>::empty());
        assert(views(created@) =~= Seq::<Seq<char>>::empty());
        assert(step_views(steps@) =~= Seq::<(int, Seq<char>)>::empty());
    }
    while i < files.len()
        invariant
            i <= files@.len(),
            views(created@) == upload_plan(remote_base@, files@.subrange(0, i as int)).0,
            step_views(steps@) == upload_plan(remote_base@, files@.subrange(0, i as int)).1,
        decreases files@.len() - i,
    {
        let ghost pre = files@.subrange(0, i as int);
        let ghost cur = files@.subrange(0, i + 1);
        let ghost before = step_views(steps@);
        let ghost made = views(created@);
        proof {
            assert(cur.drop_last() =~= pre);
            assert(cur.last() == files@[i as int]);
        }
        let f = &files[i];
        let remote = join_remote_path(remote_base, f.relative_path.as_str());
        let ghost fs = file_steps(remote@, i as int, f.is_executable, made);
        let ghost mut added: Seq<(int, Seq<char>)> = Seq::empty();
        match parent_of(remote.as_str()) {
            Some(parent) => {
                if !contains_str(&created, parent.as_str()) {
                    let mut c = "mkdir -p ".to_owned();
                    c.append(parent.as_str());
                    proof {
                        added = seq![(-1int, c@)];
                    }
                    steps.push(UploadStep::Run(c));
                    created.push(parent);
                    proof {
                        assert(views(created@) =~= made.push(parent@));
                    }
                }
            },
            None => {},
        }
        proof {
            assert(step_views(steps@) =~= before + added);
            assert(added == (match parent_dir(remote@) {
                Some(p) => if made.contains(p) { seq![] } else { seq![(-1int, "mkdir -p "@ + p)] },
                None => Seq::<(int, Seq<char>)>::empty(),
            }));
        }
        let ghost mid = step_views(steps@);
        steps.push(UploadStep::Upload { file: i, remote_path: remote.clone() });
        proof {
            assert(step_views(steps@) =~= mid.push((i as int, remote@)));
        }
        if f.is_executable {
            let ghost mid2 = step_views(steps@);
            let mut c = "chmod u+x ".to_owned();
            c.append(remote.as_str());
            steps.push(UploadStep::Run(c));
            proof {
                assert(step_views(steps@) =~= mid2.push((-1int, "chmod u+x "@ + remote@)));
            }
        }
        proof {
            assert(step_views(steps@) =~= before + fs.1);
            assert(views(created@) == fs.0);
        }
        i = i + 1;
    }
    proof {
        assert(files@.subrange(0, i as int) =~= files@);
    }
    steps
}

} // verus!
