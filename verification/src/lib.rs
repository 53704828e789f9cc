//! Startup and shutdown coordination for a network service.
//!
//! The crate holds the decisions of a service's life: which address to bind,
//! how the reachable address is composed and shown, what a bind outcome means,
//! and how termination signals, an optional shutdown hook and a drain delay
//! lead to completion. Sockets, signals and timers are the embedding
//! program's business: it performs the actions these functions ask for and
//! reports what happened as events.

pub mod address;
pub mod config;
pub mod decimal;
pub mod display;
pub mod server;
pub mod shutdown;
pub mod shutdown_runs;
pub mod lifecycle;
pub mod lifecycle_runs;

pub use crate::display::{default_handler, fallback_root, generate_default_html, generate_html};
pub use crate::lifecycle::server_start;
pub use crate::server::get_server_listener;
pub use crate::shutdown::graceful_shutdown;
