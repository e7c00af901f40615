//! A client for a music-listening record service: credential sessions and
//! the pointer to the current one, scrobble-log parsing, batch submission
//! and a "now playing" status.
pub mod auth;
pub mod display;
pub mod error;
pub mod parser;
pub mod record;
pub mod scrobble;
pub mod status;
pub mod store;
pub mod text;
