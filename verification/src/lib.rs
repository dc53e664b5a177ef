//! Remote-shell session management core.
//!
//! This crate holds the decision logic of an SSH session manager: which
//! credentials to try and in what order, how an interactive channel is
//! negotiated step by step, and how raw channel events are turned into
//! tagged notifications for a consumer. The network I/O itself is driven
//! by a thin asynchronous shell around this crate; everything here is
//! plain, verified computation.

pub mod auth;
pub mod config;
pub mod errors;
pub mod negotiate;
pub mod reader;
pub mod text;

pub use config::SshConfig;
pub use errors::AuthError;
pub use errors::ChannelError;
