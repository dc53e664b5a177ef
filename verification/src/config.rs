//! Connection configuration and the predicates the authentication
//! decision procedure reads from it.

use vstd::prelude::*;
use vstd::string::*;
use crate::text::{is_blank, spec_is_blank, spec_dec, u16_to_dec};

verus! {

/// Parameters for one connection attempt. Credentials are optional;
/// whether any of them is usable is only decided at authentication
/// time, not at construction time.
pub struct SshConfig {
    pub host: String,
    pub port: u16,
    pub username: String,
    pub password: Option<String>,
    pub private_key: Option<String>,
    pub passphrase: Option<String>,
    pub connect_timeout: Option<u64>,
}

/// Key authentication is attempted exactly when a private key is
/// present and not blank after trimming whitespace.
pub open spec fn spec_key_usable(c: &SshConfig) -> bool {
    c.private_key matches Some(k) && !spec_is_blank(k@)
}

/// A password attempt is possible exactly when a password is present.
pub open spec fn spec_has_password(c: &SshConfig) -> bool {
    c.password is Some
}

/// The connection timeout in seconds, defaulting to ten when absent.
pub open spec fn spec_timeout(c: &SshConfig) -> u64 {
    match c.connect_timeout {
        Some(t) => t,
        None => 10u64,
    }
}

impl SshConfig {
    pub fn key_is_usable(&self) -> (r: bool)
        ensures
            r == spec_key_usable(self),
    {
        match &self.private_key {
            Some(k) => !is_blank(k.as_str()),
            None => false,
        }
    }

    pub fn effective_timeout(&self) -> (r: u64)
        ensures
            r == spec_timeout(self),
    {
        match self.connect_timeout {
            Some(t) => t,
            None => 10,
        }
    }

    /// The `host:port` endpoint string the transport dials.
    pub fn endpoint(&self) -> (r: String)
        ensures
            r@ == self.host@ + ":"@ + spec_dec(self.port as nat),
    {
        proof {
            reveal_strlit(":");
        }
        let mut s = self.host.clone();
        s.append(":");
        let p = u16_to_dec(self.port);
        s.append(p.as_str());
        s
    }
}

} // verus!
