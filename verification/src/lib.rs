//! Dynamic DNS synchronisation: configuration, record bookkeeping, the sync
//! and scheduling decisions, and the Cloudflare request planning.
pub mod text;
pub mod http;
pub mod clock;
pub mod config;
pub mod models;
pub mod store;
pub mod metrics;
pub mod ip;
pub mod cloudflare;
pub mod sync;
pub mod scheduler;
pub mod limits;
pub mod api;
