//! The persisted records that describe the host and the user's secrets.

use vstd::prelude::*;
use crate::ssh::{decodes_as_private_key, SSHConfig, SshError};

verus! {

/// The host and the lifecycle flags that the installer and the sync keep.
#[derive(Debug)]
pub struct ServerDetails {
    pub ip_address: String,
    pub ssh_public_key: String,
    pub ssh_private_key: String,
    pub ssh_user: String,
    pub is_new_server: bool,
    pub requires_upgrade: bool,
    pub is_installing: bool,
    pub is_installing_fresh: bool,
    pub is_connected: bool,
    pub is_ready_for_mining: bool,
    pub has_mining_seats: bool,
    pub oldest_frame_id_to_sync: Option<u32>,
    pub sync_error: Option<String>,
}

/// The SSH port of the host.
pub const SSH_PORT: u16 = 22;

impl ServerDetails {
    /// The SSH target of the host: its address on port 22, as its user, with
    /// its key; an error when the key does not decode.
    pub fn ssh_config(&self) -> (r: Result<SSHConfig, SshError>)
        ensures
            r is Ok <==> decodes_as_private_key(self.ssh_private_key@),
            r matches Ok(c) ==> c.host@ == self.ip_address@ && c.port == SSH_PORT && c.username == self.ssh_user
                && c.private_key == self.ssh_private_key,
            r matches Err(e) ==> e == SshError::InvalidPrivateKey,
    {
        SSHConfig::new(self.ip_address.as_str(), SSH_PORT, self.ssh_user.clone(), self.ssh_private_key.clone())
    }
}

/// Settings that apply to the whole application.
#[derive(Clone, Copy, Debug, PartialEq, Eq, Structural)]
pub struct Base {
    pub requires_password: bool,
}

/// The mnemonics of the wallet and of the session keys.
#[derive(Debug)]
pub struct Mnemonics {
    pub wallet: String,
    pub session: String,
}

impl Mnemonics {
    /// The record of the two mnemonics.
    pub fn create(wallet: String, session: String) -> (r: Mnemonics)
        ensures
            r.wallet == wallet,
            r.session == session,
    {
        Mnemonics { wallet, session }
    }
}

/// The secrets uploaded to the bot: mnemonics and the wallet file.
#[derive(Debug)]
pub struct Security {
    pub wallet_mnemonic: String,
    pub session_mnemonic: String,
    pub wallet_json: String,
}

impl Security {
    /// The record of the bot's secrets.
    pub fn create(wallet_mnemonic: String, session_mnemonic: String, wallet_json: String) -> (r: Security)
        ensures
            r.wallet_mnemonic == wallet_mnemonic,
            r.session_mnemonic == session_mnemonic,
            r.wallet_json == wallet_json,
    {
        Security { wallet_mnemonic, session_mnemonic, wallet_json }
    }
}

} // verus!
