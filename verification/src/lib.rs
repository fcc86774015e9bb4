//! Verified core of the launcher library: branding strings, archive
//! extraction bookkeeping, install job state transitions and loader
//! selection rules.

pub mod text;
pub mod brand;
pub mod install_model;
pub mod install_jobs;
pub mod install_errors;
pub mod loader;
pub mod install_requests;
pub mod archive;
pub mod archive_journal;
pub mod route_health;
pub mod install_run;
pub mod install_prepare;
pub mod install_adjuncts;
