//! Core of a service that tracks what is currently playing on a
//! music-streaming account and serves the latest known status with no
//! per-request external call.
//!
//! A background poller queries the external source once per interval,
//! formats the result ([`format_status`]), and publishes it to a
//! single-slot, last-write-wins cache ([`StatusCache`]); an independent
//! refresher keeps the credential usable ([`apply_refresh`]); a request
//! reads the cache and renders it as a JSON string ([`handle_query`]).
//! The outside work — the network calls, the timers, the tasks — is the
//! caller's; everything that decides or computes is here, with contracts.

mod cache;
mod cors;
mod credential;
mod handler;
mod poller;
mod status;

pub use cache::StatusCache;
pub use cache::lemma_last_write_wins;
pub use cache::lemma_publish_then_read;
pub use cache::spec_sentinel;
pub use cache::value_after;
pub use cors::CORS;
pub use credential::Config;
pub use credential::ConfigError;
pub use credential::Credential;
pub use credential::MAX_POLL_INTERVAL_SECS;
pub use credential::MIN_POLL_INTERVAL_SECS;
pub use credential::REFRESH_INTERVAL_SECS;
pub use credential::RefreshAction;
pub use credential::RefreshOutcome;
pub use credential::apply_refresh;
pub use handler::handle_query;
pub use handler::lemma_poll_then_query;
pub use handler::render_json_string;
pub use poller::poll_step;
pub use status::PlaybackQueryResult;
pub use status::format_status;
pub use status::join_with;
pub use status::spec_status;
