//! Typed failures of session establishment and channel negotiation,
//! each carrying a human-readable cause where one exists.

use vstd::prelude::*;
use vstd::string::*;

verus! {

/// Why establishing an authenticated session failed.
#[derive(Debug)]
pub enum AuthError {
    /// The endpoint could not be reached; carries the transport's cause.
    Connection(String),
    /// The private key material did not parse (or its passphrase was
    /// wrong); carries the parser's cause. A malformed key is a
    /// configuration error and never falls through to password
    /// authentication.
    InvalidKey(String),
    /// Every usable credential was tried and rejected, or none was usable.
    AuthFailed,
}

/// Why negotiating an interactive channel failed; the three variants
/// distinguish the three negotiation steps.
#[derive(Debug)]
pub enum ChannelError {
    Open(String),
    Pty(String),
    Shell(String),
}

/// The rendered form of an `AuthError`: a fixed prefix naming the
/// failure, followed by the cause.
pub open spec fn spec_auth_message(e: &AuthError) -> Seq<char> {
    match e {
        AuthError::Connection(c) => "Connection Error: "@ + c@,
        AuthError::InvalidKey(c) => "Invalid Private Key: "@ + c@,
        AuthError::AuthFailed => "Auth failed: Invalid credentials"@,
    }
}

/// The rendered form of a `ChannelError`.
pub open spec fn spec_channel_message(e: &ChannelError) -> Seq<char> {
    match e {
        ChannelError::Open(c) => "Channel Open Error: "@ + c@,
        ChannelError::Pty(c) => "PTY Request Error: "@ + c@,
        ChannelError::Shell(c) => "Shell Request Error: "@ + c@,
    }
}

impl AuthError {
    pub fn message(&self) -> (r: String)
        ensures
            r@ == spec_auth_message(self),
    {
        match self {
            AuthError::Connection(c) => {
                let mut s = String::from_str("Connection Error: ");
                s.append(c.as_str());
                s
            },
            AuthError::InvalidKey(c) => {
                let mut s = String::from_str("Invalid Private Key: ");
                s.append(c.as_str());
                s
            },
            AuthError::AuthFailed => String::from_str("Auth failed: Invalid credentials"),
        }
    }
}

impl ChannelError {
    pub fn message(&self) -> (r: String)
        ensures
            r@ == spec_channel_message(self),
    {
        match self {
            ChannelError::Open(c) => {
                let mut s = String::from_str("Channel Open Error: ");
                s.append(c.as_str());
                s
            },
            ChannelError::Pty(c) => {
                let mut s = String::from_str("PTY Request Error: ");
                s.append(c.as_str());
                s
            },
            ChannelError::Shell(c) => {
                let mut s = String::from_str("Shell Request Error: ");
                s.append(c.as_str());
                s
            },
        }
    }
}

} // verus!
