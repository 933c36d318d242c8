//! Signed, expiring bearer tokens for remote agents, backed by a persisted
//! registry.
//!
//! The crate has three verified parts:
//! - a token codec that signs and verifies claims with a symmetric secret
//!   (`codec`, `tokens`, `tokenization`),
//! - a registry store over an embedded relational database (`tokens`,
//!   `tokenization`),
//! - the authorization decisions that gate the service's two protected
//!   endpoints (`auth`).
//!
//! Network handling, process configuration and logging output live outside the
//! library; the library hands them plain values and exact contracts.

pub mod apis;
pub mod auth;
pub mod codec;
pub mod config;
pub mod errors;
pub mod log;
pub mod tokenization;
pub mod tokens;
pub mod utils;
