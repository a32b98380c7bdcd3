//! Webhook-driven redeployment trigger.
//!
//! A registry of projects, each identified by an opaque token, receives
//! package-publish notifications. For a matching project the notification is
//! filtered by package name, collapsed through a per-project debounce gate,
//! and turned into a two-step redeploy action (refresh artifacts, then
//! restart). This crate holds the verified core of that pipeline: the
//! registry, the filter, the debounce gates and the dispatch state machine. The HTTP
//! server, configuration loading and the external commands live outside it.

pub mod actuator;
pub mod config;
pub mod dispatch;
pub mod filter;
pub mod laws;
pub mod gate;
pub mod registry;
