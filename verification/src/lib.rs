//! Runtime helpers for VibeGuard hooks: config validation, policy exit codes
//! and the wrapper environment of a guarded CLI session.

pub mod text;
pub mod runtime_config;
pub mod runtime_policy;
pub mod wrapper_env;
