//! The fixed commands, paths and ports through which the host is driven.

use vstd::prelude::*;

verus! {

/// Lists the marker files of the bootstrap script.
pub const LIST_INSTALL_LOGS: &'static str = "ls ~/install-logs";

/// Prints the process id of a running bootstrap script, if any.
pub const FIND_INSTALL_PROCESS: &'static str = "pgrep -f ~/scripts/install_server.sh";

/// Exits with 0 when the host has received a checksum manifest.
pub const HAS_MANIFEST: &'static str = "test -f ~/SHASUMS256";

/// Where the manifest of the files this client carries is uploaded.
pub const MANIFEST_PATH: &'static str = "~/SHASUMS256";

/// Prints the manifest of the files the host copied, or nothing.
pub const READ_COPIED_MANIFEST: &'static str = "cat ~/SHASUMS256.copied 2>/dev/null || true";

/// Forgets the manifest of the copied files before new files are sent.
pub const REMOVE_COPIED_MANIFEST: &'static str = "rm ~/SHASUMS256.copied";

/// Records the manifest of the files now on the host.
pub const UPDATE_COPIED_MANIFEST: &'static str = "~/scripts/update_shasums.sh SHASUMS256.copied";

/// Removes the log of the previous bootstrap run.
pub const REMOVE_INSTALL_LOG: &'static str = "rm -f ~/install_server.log";

/// Creates the directory of the bot's configuration.
pub const MAKE_CONFIG_DIR: &'static str = "mkdir -p config";

/// Print the sync percentage of each node.
pub const ARGON_SYNC_STATUS: &'static str = "docker exec deploy-argon-miner-1 syncstatus.sh";
pub const BITCOIN_SYNC_STATUS: &'static str = "docker exec deploy-bitcoin-1 syncstatus.sh";

/// Print `local-mainchain` block numbers of each node.
pub const ARGON_LATEST_BLOCKS: &'static str = "docker exec deploy-argon-miner-1 latestblocks.sh";
pub const BITCOIN_LATEST_BLOCKS: &'static str = "docker exec deploy-bitcoin-1 latestblocks.sh";

/// Stop the mining containers and the bot's container.
pub const STOP_MINERS: &'static str = "cd deploy && docker compose --profile miners down";
pub const STOP_BOT: &'static str = "cd deploy && docker compose down bot";

/// The bot's HTTP port on the host.
pub const BOT_PORT: u16 = 3000;

/// The first local port tried for the tunnel to the bot.
pub const FIRST_LOCAL_PORT: u16 = 3600;

/// How many times a tunnel connection tries to open its channel.
pub const CHANNEL_OPEN_ATTEMPTS: u32 = 3;

/// Whether a tunnel connection whose channel failed to open `attempts` times
/// tries again.
pub fn retry_channel_open(attempts: u32) -> (r: bool)
    ensures
        r == (attempts < CHANNEL_OPEN_ATTEMPTS),
{
    attempts < CHANNEL_OPEN_ATTEMPTS
}

} // verus!
