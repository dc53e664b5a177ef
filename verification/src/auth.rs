//! The authentication decision procedure: an ordered fallback chain
//! that tries key authentication first (when a usable key is present)
//! and password authentication second, short-circuiting on the first
//! success. A key that fails to parse is a hard failure and never
//! falls through to the password.
//!
//! The network round-trips themselves (connecting, submitting a
//! credential, reading the server's answer) are performed by the
//! caller; this module decides which attempt comes next from the plan
//! and the answers received so far.

use vstd::prelude::*;
use vstd::string::*;
use crate::config::{SshConfig, spec_key_usable};
use crate::errors::AuthError;

verus! {

#[verifier::external_type_specification]
#[verifier::external_body]
pub struct ExPrivateKey(russh::keys::PrivateKey);

#[verifier::external_type_specification]
#[verifier::external_body]
pub struct ExKeysError(russh::keys::Error);

/// Whether the given key text parses (with the given passphrase) into
/// a private key. Parsing is a pure function of these two inputs.
pub uninterp spec fn key_parses(key: Seq<char>, passphrase: Option<Seq<char>>) -> bool;

pub open spec fn spec_opt_str_view(o: Option<&str>) -> Option<Seq<char>> {
    match o {
        Some(s) => Some(s@),
        None => None,
    }
}

pub open spec fn spec_opt_string_view(o: &Option<String>) -> Option<Seq<char>> {
    match o {
        Some(s) => Some(s@),
        None => None,
    }
}

/// The key text of a configuration, empty when no key is present.
pub open spec fn spec_key_text(c: &SshConfig) -> Seq<char> {
    match c.private_key {
        Some(k) => k@,
        None => Seq::empty(),
    }
}

/// Whether this configuration's key parses with its passphrase.
pub open spec fn spec_config_key_parses(c: &SshConfig) -> bool {
    key_parses(spec_key_text(c), spec_opt_string_view(&c.passphrase))
}

/// Relies on russh's `decode_secret_key`: it parses private-key text
/// (PEM / OpenSSH / PuTTY formats) in memory, deciphering it with the
/// optional passphrase, and returns an error on any malformed input.
#[verifier::external_body]
fn decode_key(key: &str, passphrase: Option<&str>) -> (r: Result<
    russh::keys::PrivateKey,
    russh::keys::Error,
>)
    ensures
        r is Ok <==> key_parses(key@, spec_opt_str_view(passphrase)),
{
    russh::keys::decode_secret_key(key, passphrase)
}

/// What the fallback chain will work with: the parsed key, if one was
/// present and parsed, and the password, if one was present.
pub struct AuthPlan {
    pub key: Option<russh::keys::PrivateKey>,
    pub password: Option<String>,
}

fn clone_opt_string(o: &Option<String>) -> (r: Option<String>)
    ensures
        spec_opt_string_view(&r) == spec_opt_string_view(o),
{
    match o {
        Some(s) => Some(s.clone()),
        None => None,
    }
}

/// Turns a configuration into an authentication plan.
///
/// When no usable key is present (absent or blank after trimming),
/// the plan carries no key and key authentication is skipped. When a
/// usable key is present it must parse: a parse failure is returned
/// as `InvalidKey` and is never softened into a password attempt,
/// whether or not a password was also supplied.
pub fn prepare_auth(config: &SshConfig) -> (r: Result<AuthPlan, AuthError>)
    ensures
        !spec_key_usable(config) ==> (r matches Ok(p) && p.key is None
            && spec_opt_string_view(&p.password) == spec_opt_string_view(&config.password)),
        spec_key_usable(config) && spec_config_key_parses(config) ==> (r matches Ok(p)
            && p.key is Some
            && spec_opt_string_view(&p.password) == spec_opt_string_view(&config.password)),
        spec_key_usable(config) && !spec_config_key_parses(config) ==> (r matches Err(e)
            && e is InvalidKey),
{
    if config.key_is_usable() {
        let key_text: &String = match &config.private_key {
            Some(k) => k,
            None => {
                // A usable key implies a key is present.
                proof {
                    assert(false);
                }
                return Err(AuthError::AuthFailed);
            },
        };
        let pass: Option<&str> = match &config.passphrase {
            Some(p) => Some(p.as_str()),
            None => None,
        };
        match decode_key(key_text.as_str(), pass) {
            Ok(pk) => Ok(AuthPlan { key: Some(pk), password: clone_opt_string(&config.password) }),
            Err(e) => Err(AuthError::InvalidKey(e.to_string())),
        }
    } else {
        Ok(AuthPlan { key: None, password: clone_opt_string(&config.password) })
    }
}

/// The next move of the fallback chain.
pub enum AuthStep {
    /// Submit the parsed key to the server.
    AttemptKey,
    /// Submit the password to the server.
    AttemptPassword,
    /// Authentication has succeeded; stop.
    Succeed,
    /// Every usable credential is exhausted; fail with `AuthFailed`.
    Fail,
}

pub open spec fn spec_first_step(has_key: bool, has_password: bool) -> AuthStep {
    if has_key {
        AuthStep::AttemptKey
    } else if has_password {
        AuthStep::AttemptPassword
    } else {
        AuthStep::Fail
    }
}

pub open spec fn spec_step_after_key(accepted: bool, has_password: bool) -> AuthStep {
    if accepted {
        AuthStep::Succeed
    } else if has_password {
        AuthStep::AttemptPassword
    } else {
        AuthStep::Fail
    }
}

pub open spec fn spec_step_after_password(accepted: bool) -> AuthStep {
    if accepted {
        AuthStep::Succeed
    } else {
        AuthStep::Fail
    }
}

impl AuthPlan {
    /// The first attempt of the chain: the key when the plan has one,
    /// else the password, else give up at once.
    pub fn first_step(&self) -> (s: AuthStep)
        ensures
            s == spec_first_step(self.key is Some, self.password is Some),
    {
        if self.key.is_some() {
            AuthStep::AttemptKey
        } else if self.password.is_some() {
            AuthStep::AttemptPassword
        } else {
            AuthStep::Fail
        }
    }

    /// The move after the server answered a key attempt: stop on
    /// acceptance; on an explicit rejection of a well-formed key, fall
    /// through to the password when one exists.
    pub fn step_after_key(&self, accepted: bool) -> (s: AuthStep)
        ensures
            s == spec_step_after_key(accepted, self.password is Some),
    {
        if accepted {
            AuthStep::Succeed
        } else if self.password.is_some() {
            AuthStep::AttemptPassword
        } else {
            AuthStep::Fail
        }
    }
}

/// The move after the server answered a password attempt: there is
/// nothing left to fall back to.
pub fn step_after_password(accepted: bool) -> (s: AuthStep)
    ensures
        s == spec_step_after_password(accepted),
{
    if accepted {
        AuthStep::Succeed
    } else {
        AuthStep::Fail
    }
}

/// How one establishment attempt ends when it gets past connecting.
pub enum AuthFailureKind {
    /// The key material was malformed: a configuration error.
    BadKey,
    /// All usable credentials were tried and rejected, or none existed.
    Exhausted,
}

/// The complete authentication decision as a function of the
/// configuration's credentials and of the outside answers: whether
/// the key parsed, and whether the server accepted each credential it
/// was offered.
pub open spec fn spec_auth_decision(
    key_usable: bool,
    key_parses_ok: bool,
    key_accepted: bool,
    has_password: bool,
    password_accepted: bool,
) -> Result<(), AuthFailureKind> {
    if key_usable && !key_parses_ok {
        Err(AuthFailureKind::BadKey)
    } else if key_usable && key_accepted {
        Ok(())
    } else if has_password && password_accepted {
        Ok(())
    } else {
        Err(AuthFailureKind::Exhausted)
    }
}

/// Whether the step chain, run on a plan with the given credentials
/// and server answers, ends in `Succeed`.
pub open spec fn spec_chain_grants(
    has_key: bool,
    key_accepted: bool,
    has_password: bool,
    password_accepted: bool,
) -> bool {
    match spec_first_step(has_key, has_password) {
        AuthStep::AttemptKey => match spec_step_after_key(key_accepted, has_password) {
            AuthStep::Succeed => true,
            AuthStep::AttemptPassword => spec_step_after_password(password_accepted)
                is Succeed,
            _ => false,
        },
        AuthStep::AttemptPassword => spec_step_after_password(password_accepted) is Succeed,
        _ => false,
    }
}

/// The step chain realizes the authentication decision: whenever the
/// plan was built (no local key-parse failure), the chain grants
/// access exactly when the decision says `Ok`.
pub proof fn lemma_chain_realizes_decision(
    key_usable: bool,
    key_parses_ok: bool,
    key_accepted: bool,
    has_password: bool,
    password_accepted: bool,
)
    requires
        key_usable ==> key_parses_ok,
    ensures
        spec_chain_grants(key_usable && key_parses_ok, key_accepted, has_password,
            password_accepted) == (spec_auth_decision(key_usable, key_parses_ok, key_accepted,
            has_password, password_accepted) is Ok),
{
}

/// A usable key that fails to parse is a hard failure, independent of
/// any password in the configuration and of every server answer: the
/// chain never falls through to a weaker credential.
pub proof fn lemma_bad_key_never_falls_through(
    key_accepted: bool,
    has_password: bool,
    password_accepted: bool,
)
    ensures
        spec_auth_decision(true, false, key_accepted, has_password, password_accepted) == Err::<
            (),
            AuthFailureKind,
        >(AuthFailureKind::BadKey),
{
}

/// With a usable, well-formed key and no password, authentication
/// succeeds exactly when the server accepts the key.
pub proof fn lemma_key_only_auth(key_accepted: bool, password_accepted: bool)
    ensures
        spec_auth_decision(true, true, key_accepted, false, password_accepted) == (if key_accepted {
            Ok::<(), AuthFailureKind>(())
        } else {
            Err::<(), AuthFailureKind>(AuthFailureKind::Exhausted)
        }),
{
}

/// With no usable key and a password present, authentication succeeds
/// exactly when the server accepts the password.
pub proof fn lemma_password_fallback(
    key_parses_ok: bool,
    key_accepted: bool,
    password_accepted: bool,
)
    ensures
        spec_auth_decision(false, key_parses_ok, key_accepted, true, password_accepted) == (
        if password_accepted {
            Ok::<(), AuthFailureKind>(())
        } else {
            Err::<(), AuthFailureKind>(AuthFailureKind::Exhausted)
        }),
{
}

/// With neither credential usable, authentication always fails with
/// the exhausted-credentials error.
pub proof fn lemma_no_credentials(
    key_parses_ok: bool,
    key_accepted: bool,
    password_accepted: bool,
)
    ensures
        spec_auth_decision(false, key_parses_ok, key_accepted, false, password_accepted) == Err::<
            (),
            AuthFailureKind,
        >(AuthFailureKind::Exhausted),
{
}

/// Converts an establishment result into the bare yes/no form the
/// auxiliary session constructors hand their callers.
pub fn session_if_ok<T>(r: Result<T, AuthError>) -> (o: Option<T>)
    ensures
        r matches Ok(v) ==> o matches Some(w) && w == v,
        r is Err ==> o is None,
{
    match r {
        Ok(v) => Some(v),
        Err(_) => None,
    }
}

} // verus!
