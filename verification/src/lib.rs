//! Policy resolution and event-to-notification decisions for a watcher of
//! service-manager job results.

pub mod config;
pub mod document;
pub mod event;
pub mod filter;
pub mod notify;
pub mod pattern;
pub mod resolve;
pub mod text;
pub mod watch;
