//! Decision logic of a proxy-fleet health monitor.
//!
//! The crate holds the rules by which a fleet of credentialed proxy accounts is
//! watched: how long a worker waits after a failed fetch, when the fleet counts
//! as down, which alert is raised, and how the record of the last alert is kept
//! so that a repeated alert replaces its predecessor. Network traffic, timers
//! and task scheduling are left to the caller, which feeds outcomes in and
//! carries actions out.

pub mod alert;
pub mod announce;
pub mod backoff;
pub mod clock;
pub mod config;
pub mod fetch;
pub mod health;
pub mod ledger;
pub mod shutdown;
pub mod worker;

pub use crate::config::{get_proxy_credentials, AppConfig};
pub use crate::ledger::{HttpResponse, HttpResult, LastTelegramMessage};
