//! Decision logic of the Backup Sync desktop shell: error envelopes, session
//! locking, log shaping, version comparison, tray status and storage checks.
use vstd::prelude::*;

pub mod text;
pub mod lines;
pub mod error;
pub mod correlation;
pub mod auth;
pub mod security;
pub mod logs;
pub mod updates;
pub mod access;
pub mod tray;
pub mod config;
pub mod backup_run;
pub mod destination;
pub mod hardening;
pub mod diagnostics;
pub mod safety;
pub mod service;
pub mod status;
pub mod restore;
pub mod backups;
pub mod observability;
pub mod ui_actions;
pub mod single_instance;

verus! {
} // verus!
