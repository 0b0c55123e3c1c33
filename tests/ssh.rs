use argon_commander::ssh::{
    plan_directory_upload, shell_command, upload_command, is_executable, ChannelMsg, CommandOutput,
    ConnectionRegistry, FileInfo, SSHConfig, SshError, UploadStep,
};

fn config(host: &str, user: &str) -> SSHConfig {
    SSHConfig { host: host.to_string(), port: 22, username: user.to_string(), private_key: "k".to_string() }
}

#[test]
fn config_needs_decodable_key() {
    assert_eq!(config("10.0.0.1", "root").host(), "10.0.0.1:22");
    assert_eq!(SSHConfig::new("h", 22, "root".to_string(), String::new()).err(), Some(SshError::InvalidPrivateKey));
    assert_eq!(SSHConfig::new("h", 22, "root".to_string(), "not a key".to_string()).err(), Some(SshError::InvalidPrivateKey));
}

#[test]
fn registry_reuses_and_replaces() {
    let mut r = ConnectionRegistry::new();
    let a = config("h", "root");
    let b = config("h", "admin");
    let first = r.get_or_open(&a);
    assert!(first.opened);
    assert_eq!(first.closed, None);
    let again = r.get_or_open(&a.clone());
    assert_eq!(again.session, first.session);
    assert!(!again.opened);
    let other = r.get_or_open(&b);
    assert!(other.opened);
    assert_ne!(other.session, first.session);
    assert_eq!(other.closed, Some(first.session));
    let elsewhere = r.get_or_open(&config("g", "root"));
    assert_eq!(elsewhere.closed, None);
    assert_eq!(r.close("h", 22), Some(other.session));
    assert_eq!(r.close("h", 22), None);
}

#[test]
fn command_output_merges_streams() {
    let mut out = CommandOutput::new();
    out.absorb(&ChannelMsg::Data("a".to_string()));
    out.absorb(&ChannelMsg::ExtendedData("b".to_string(), 1));
    out.absorb(&ChannelMsg::ExtendedData("x".to_string(), 2));
    out.absorb(&ChannelMsg::Other);
    out.absorb(&ChannelMsg::Data("c".to_string()));
    out.absorb(&ChannelMsg::ExitStatus(3));
    assert_eq!(out.finish(), Ok(("abc".to_string(), 3)));
    let mut none = CommandOutput::new();
    none.absorb(&ChannelMsg::Data("x".to_string()));
    assert_eq!(none.finish(), Err(SshError::MissingExitStatus));
}

#[test]
fn command_wrapping() {
    assert_eq!(shell_command("ls ~/install-logs"), "bash -c 'ls ~/install-logs'");
    assert_eq!(upload_command("~/SHASUMS256"), "cat > ~/SHASUMS256");
}

#[test]
fn executable_bit() {
    assert!(is_executable(0o755, "bot/run"));
    assert!(is_executable(0o644, "scripts/install.sh"));
    assert!(!is_executable(0o644, "deploy/compose.yml"));
}

#[test]
fn upload_plan_creates_each_directory_once() {
    let f = |p: &str, x: bool| FileInfo { absolute_path: format!("/local/{}", p), relative_path: p.to_string(), is_executable: x };
    let files = vec![f("a.txt", false), f("b.sh", true), f("sub/c", false)];
    let steps = plan_directory_upload("~/scripts", &files);
    let want = vec![
        UploadStep::Run("mkdir -p ~/scripts".to_string()),
        UploadStep::Upload { file: 0, remote_path: "~/scripts/a.txt".to_string() },
        UploadStep::Upload { file: 1, remote_path: "~/scripts/b.sh".to_string() },
        UploadStep::Run("chmod u+x ~/scripts/b.sh".to_string()),
        UploadStep::Run("mkdir -p ~/scripts/sub".to_string()),
        UploadStep::Upload { file: 2, remote_path: "~/scripts/sub/c".to_string() },
    ];
    assert_eq!(format!("{:?}", steps), format!("{:?}", want));
    let trailing = plan_directory_upload("~/x/", &vec![f("y", false)]);
    assert_eq!(format!("{:?}", trailing), format!("{:?}", vec![
        UploadStep::Run("mkdir -p ~/x".to_string()),
        UploadStep::Upload { file: 0, remote_path: "~/x/y".to_string() },
    ]));
}

#[test]
fn channel_open_retries_are_bounded() {
    assert!(argon_commander::remote_commands::retry_channel_open(1));
    assert!(argon_commander::remote_commands::retry_channel_open(2));
    assert!(!argon_commander::remote_commands::retry_channel_open(3));
}
