//! The secret-vault interface and the keyring-backed vault's configuration.
//! The operating-system keyring calls live with the embedding application.

use vstd::prelude::*;

verus! {

/// What a secret backend must offer. Implementations talk to an operating
/// system vault and live with the embedding application.
pub trait SecretVault {
    fn backend_name(&self) -> &'static str;

    fn set_secret(&self, profile_id: &str, key: &str, value: &str) -> Result<(), String>;

    fn get_secret(&self, profile_id: &str, key: &str) -> Result<Option<String>, String>;

    fn delete_secret(&self, profile_id: &str, key: &str) -> Result<(), String>;
}

/// Configuration of the keyring-backed vault: every secret of a service is
/// keyed by `profile_id:key` under one service name.
#[derive(Debug, Clone, PartialEq, Eq)]
pub struct KeyringSecretVault {
    pub service_name: String,
}

impl KeyringSecretVault {
    pub fn new(service_name: &str) -> (r: Self)
        ensures
            r.service_name@ == service_name@,
    {
        KeyringSecretVault { service_name: service_name.to_owned() }
    }

    /// The keyring username one profile's secret is stored under.
    pub fn entry_username(&self, profile_id: &str, key: &str) -> (r: String)
        ensures
            r@ == profile_id@ + ":"@ + key@,
    {
        let mut out = profile_id.to_owned();
        out.append(":");
        out.append(key);
        out
    }
}

} // verus!
