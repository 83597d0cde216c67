//! Credential providers.
//!
//! Every provider exposes the same capability shape — get a bearer token,
//! refresh it, report its kind — so the request pipeline never branches on
//! provider identity.  The providers here hold the decision logic; the
//! process around the library performs the environment read or the
//! credential-helper exec and hands the observed values in.

use vstd::prelude::*;

use crate::error::Error;
use crate::strutil::{trim_spec, trim_string};

verus! {

/// The kind of credential backend, stable per provider instance; used for
/// diagnostics and tests, never for dispatch.
#[derive(Debug, Clone, Copy, PartialEq, Eq, Structural)]
pub enum ProviderKind {
    GcloudOauth,
    EnvAccessToken,
    StaticToken,
    ServiceAccount,
    UserOauth,
}

/// The diagnostic label of each provider kind.
pub open spec fn kind_label_spec(k: ProviderKind) -> Seq<char> {
    match k {
        ProviderKind::GcloudOauth => "gcloud-oauth"@,
        ProviderKind::EnvAccessToken => "env-access-token"@,
        ProviderKind::StaticToken => "static-token"@,
        ProviderKind::ServiceAccount => "service-account"@,
        ProviderKind::UserOauth => "user-oauth"@,
    }
}

impl ProviderKind {
    /// The stable diagnostic label of this kind.
    pub fn as_str(&self) -> (r: &'static str)
        ensures
            r@ == kind_label_spec(*self),
    {
        match self {
            ProviderKind::GcloudOauth => "gcloud-oauth",
            ProviderKind::EnvAccessToken => "env-access-token",
            ProviderKind::StaticToken => "static-token",
            ProviderKind::ServiceAccount => "service-account",
            ProviderKind::UserOauth => "user-oauth",
        }
    }

    /// Only the user-OAuth backend is gated behind the experimental flag.
    pub fn is_experimental(&self) -> (r: bool)
        ensures
            r == (*self is UserOauth),
    {
        match self {
            ProviderKind::UserOauth => true,
            _ => false,
        }
    }
}

/// Returns a fixed token; never fails.
pub struct StaticTokenProvider {
    token: String,
}

impl StaticTokenProvider {
    /// The configured token.
    pub closed spec fn token_view(&self) -> Seq<char> {
        self.token@
    }

    pub fn new(token: String) -> (p: Self)
        ensures
            p.token_view() == token@,
    {
        StaticTokenProvider { token }
    }

    /// Always returns the configured value, unchanged, on every call.
    pub fn access_token(&self) -> (r: Result<String, Error>)
        ensures
            r matches Ok(t) && t@ == self.token_view(),
    {
        Ok(self.token.clone())
    }

    /// Refreshing a static token just returns it again.
    pub fn refresh_token(&self) -> (r: Result<String, Error>)
        ensures
            r matches Ok(t) && t@ == self.token_view(),
    {
        self.access_token()
    }

    pub fn kind(&self) -> (k: ProviderKind)
        ensures
            k == ProviderKind::StaticToken,
    {
        ProviderKind::StaticToken
    }
}

/// Reflects a named environment variable on every call; no caching.
pub struct EnvTokenProvider {
    key: String,
}

/// The error message when the variable named `key` is not set.
pub open spec fn env_missing_message(key: Seq<char>) -> Seq<char> {
    "environment variable "@ + key + " missing"@
}

impl EnvTokenProvider {
    /// The name of the environment variable this provider reads.
    pub closed spec fn key_view(&self) -> Seq<char> {
        self.key@
    }

    pub fn new(key: String) -> (p: Self)
        ensures
            p.key_view() == key@,
    {
        EnvTokenProvider { key }
    }

    /// The variable's name, for the caller that performs the lookup.
    pub fn key(&self) -> (r: &String)
        ensures
            r@ == self.key_view(),
    {
        &self.key
    }

    /// Decide the token from the current environment lookup: the value when
    /// the variable is set, otherwise an error naming that exact variable.
    pub fn token_from_lookup(&self, value: Option<String>) -> (r: Result<String, Error>)
        ensures
            value matches Some(v) ==> r == Ok::<String, Error>(v),
            value is None ==> (r matches Err(e) && e matches Error::TokenProvider(m) && m@
                == env_missing_message(self.key_view())),
    {
        match value {
            Some(v) => Ok(v),
            None => {
                let m = String::from_str("environment variable ").concat(self.key.as_str()).concat(
                    " missing",
                );
                proof {
                    assert(m@ =~= env_missing_message(self.key_view()));
                }
                Err(Error::TokenProvider(m))
            },
        }
    }

    pub fn kind(&self) -> (k: ProviderKind)
        ensures
            k == ProviderKind::EnvAccessToken,
    {
        ProviderKind::EnvAccessToken
    }
}

/// Delegates to an external credential helper (`<tool> auth
/// print-access-token`), whose captured output is handed back in.
pub struct GcloudTokenProvider {
    binary: String,
}

/// The error message when the helper process could not be executed at all.
pub open spec fn gcloud_exec_error_message(detail: Seq<char>) -> Seq<char> {
    "Failed to execute gcloud command. Make sure gcloud CLI is installed and in PATH.\nError: "@
        + detail
}

/// The error message when the helper ran but exited unsuccessfully.
pub open spec fn gcloud_exit_error_message(stderr: Seq<char>) -> Seq<char> {
    "Failed to get access token from gcloud. Please run 'gcloud auth login' to authenticate.\nError: "@
        + trim_spec(stderr)
}

impl GcloudTokenProvider {
    /// The helper binary this provider invokes.
    pub closed spec fn binary_view(&self) -> Seq<char> {
        self.binary@
    }

    pub fn new(binary: String) -> (p: Self)
        ensures
            p.binary_view() == binary@,
    {
        GcloudTokenProvider { binary }
    }

    /// The helper binary's path, for the caller that spawns it.
    pub fn binary(&self) -> (r: &String)
        ensures
            r@ == self.binary_view(),
    {
        &self.binary
    }

    /// Build the error for a helper that could not be spawned.
    pub fn exec_error(&self, detail: String) -> (e: Error)
        ensures
            e matches Error::TokenProvider(m) && m@ == gcloud_exec_error_message(detail@),
    {
        let m = String::from_str(
            "Failed to execute gcloud command. Make sure gcloud CLI is installed and in PATH.\nError: ",
        ).concat(detail.as_str());
        proof {
            assert(m@ =~= gcloud_exec_error_message(detail@));
        }
        Error::TokenProvider(m)
    }

    /// Decide the token from the helper's captured output: trimmed stdout on
    /// success, an error carrying trimmed stderr on a failing exit, and a
    /// decode error when stdout was not UTF-8 (`stdout` is `None`).
    pub fn token_from_output(&self, success: bool, stdout: Option<String>, stderr: &String) -> (r:
        Result<String, Error>)
        ensures
            !success ==> (r matches Err(e) && e matches Error::TokenProvider(m) && m@
                == gcloud_exit_error_message(stderr@)),
            success && stdout is None ==> (r matches Err(e) && e matches Error::TokenProvider(m)
                && m@ == "invalid UTF-8 token"@),
            (success && stdout is Some) ==> (r matches Ok(t) && t@ == trim_spec(
                stdout.unwrap()@,
            )),
    {
        if !success {
            let trimmed = trim_string(stderr.as_str());
            let m = String::from_str(
                "Failed to get access token from gcloud. Please run 'gcloud auth login' to authenticate.\nError: ",
            ).concat(trimmed.as_str());
            proof {
                assert(m@ =~= gcloud_exit_error_message(stderr@));
            }
            return Err(Error::TokenProvider(m));
        }
        match stdout {
            Some(out) => Ok(trim_string(out.as_str())),
            None => Err(Error::TokenProvider(String::from_str("invalid UTF-8 token"))),
        }
    }

    pub fn kind(&self) -> (k: ProviderKind)
        ensures
            k == ProviderKind::GcloudOauth,
    {
        ProviderKind::GcloudOauth
    }
}

} // verus!
