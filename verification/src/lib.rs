//! Per-request policy enforcement for an HTTP middleware chain:
//! Cross-Origin header negotiation, an authenticated-encryption CSRF
//! token scheme, and a sliding-window rate-limit guard.

pub mod cors;
pub mod csrf;
pub mod rate;
