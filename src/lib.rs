//! Core logic of a small home-automation bridge: token redaction for logs,
//! the listen address built from the configuration, the outbound
//! notification request and the classification of its outcome, and the
//! order in which startup succeeds or aborts.
pub mod address;
pub mod config;
pub mod notify;
pub mod redact;
pub mod startup;
