//! Live-update fan-out for a chat server.
//!
//! The heart of the crate is the event dispatcher: it decodes raw change-feed
//! notifications (a channel name plus a JSON payload) into typed domain events
//! together with the set of affected user ids, and fans each event out to the
//! broadcast endpoints of the users that currently hold a live subscription.
//!
//! * [`domain`] — the domain data model: chats, messages, users.
//! * [`json`] — a verified parser for the JSON tokens the feed payloads use.
//! * [`decode`] — the change-feed decoder: from a raw notification to a typed
//!   event plus the affected user ids.
//! * [`notif`] — the subscriber registry and the per-notification dispatch
//!   step.
//! * [`service`] — plain data-transfer types consumed by the HTTP layer.
//! * [`config`] — the server configuration model.
//! * [`error`] — the crate's error type.

pub mod config;
pub mod decode;
pub mod domain;
pub mod error;
pub mod json;
pub mod notif;
pub mod service;
