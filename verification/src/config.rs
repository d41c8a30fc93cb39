use vstd::prelude::*;

use std::time::Duration;

verus! {

/// `rsa::errors::Error`, carried as it is.
#[verifier::external_type_specification]
#[verifier::external_body]
pub struct ExRsaError(rsa::errors::Error);

/// The configuration for a single login.
pub struct LoginConfig {
    /// The nickname to use.
    pub nick: Option<String>,
    /// The auth to use.
    pub auth: LoginAuth,
}

/// The login auth.
pub struct LoginAuth {
    /// The username.
    pub account_name: String,
    /// The password.
    pub password: String,
    /// The system ids to use.
    pub identification: Vec<String>,
}

/// A struct that contains the configuration for the NpcControlClient.
pub struct NpcControlConfig {
    /// The protocol version of the NC client.
    pub version: String,
}

/// A struct that contains the configuration for the RemoteControlClient.
pub struct RemoteControlConfig {
    /// The protocol version of the RC client.
    pub version: String,
    /// When the NpcControl is disconnected after a period of inactivity.
    pub nc_auto_disconnect: Duration,
    /// The NPC control configuration.
    pub npc_control: Option<NpcControlConfig>,
}

/// The default timeout for events that have a response, in seconds.
pub const DEFAULT_TIMEOUT_SECS: u64 = 5;

/// The default time after which an idle NpcControl is disconnected, in seconds.
pub const DEFAULT_NC_AUTO_DISCONNECT_SECS: u64 = 60;

/// The duration that `Duration::from_secs` gives for a number of whole seconds.
pub uninterp spec fn duration_of_secs(secs: u64) -> Duration;

/// `Duration::from_secs`: a duration of whole seconds. Trusted: the result is a
/// function of `secs` alone, named `duration_of_secs`; what is inside the
/// duration is opaque here.
#[verifier::external_body]
fn duration_from_secs(secs: u64) -> (d: Duration)
    ensures
        d == duration_of_secs(secs),
{
    Duration::from_secs(secs)
}

/// The default timeout for events that have a response: `DEFAULT_TIMEOUT_SECS` seconds.
pub fn default_timeout() -> (d: Duration)
    ensures
        d == duration_of_secs(DEFAULT_TIMEOUT_SECS),
{
    duration_from_secs(DEFAULT_TIMEOUT_SECS)
}

/// The default time after which an idle NpcControl is disconnected:
/// `DEFAULT_NC_AUTO_DISCONNECT_SECS` seconds.
pub fn default_nc_auto_disconnect() -> (d: Duration)
    ensures
        d == duration_of_secs(DEFAULT_NC_AUTO_DISCONNECT_SECS),
{
    duration_from_secs(DEFAULT_NC_AUTO_DISCONNECT_SECS)
}

/// Encryption keys provided by the caller.
pub struct EncryptionKeys {
    /// The RSA private key, as its PKCS#8 DER encoding.
    pub rsa_private_key: Vec<u8>,
}

} // verus!
