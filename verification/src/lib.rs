//! Credential and resilience layer beneath a cloud API client.
//!
//! The library supplies bearer tokens from several backends (static,
//! environment, CLI-delegated, service-account, user OAuth), persists OAuth
//! refresh tokens, drives the interactive authorization-code flow with a
//! loopback callback listener, and wraps outbound HTTP calls with a retry
//! engine and a one-shot 401 refresh policy.  Everything here is pure
//! decision logic over plain values; the surrounding process performs the
//! actual I/O and feeds the results back in.

pub mod args;
pub mod audio;
pub mod bootstrap;
pub mod callback;
pub mod doctor;
pub mod envcfg;
pub mod error;
pub mod provider;
pub mod models;
pub mod notebooks;
pub mod oauth;
pub mod pipeline;
pub mod retry;
pub mod sa;
pub mod share;
pub mod sources;
pub mod store;
pub mod urlbuild;
pub mod urlenc;
pub mod validate;
pub mod strutil;

pub use envcfg::{ApiProfile, EnvironmentConfig, ProfileParams, PROFILE_EXPERIMENT_FLAG};
pub use error::{Error, OAuthError};
pub use provider::{EnvTokenProvider, GcloudTokenProvider, ProviderKind, StaticTokenProvider};
pub use retry::{RetryConfig, Retryer};
pub use store::{SerializedTokens, TokenStore, TokenStoreKey};
