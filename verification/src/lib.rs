//! Event coordination core for a venue whereabouts kiosk.
//!
//! A keyboard-emulating tag scanner and a small set of physical buttons feed
//! raw key events into two decoders; the decoded events drive a session
//! coordinator that resolves identities and submits whereabouts updates
//! through a remote service, playing audible feedback on the way.  This crate
//! holds the decoders, the configuration rules and the coordinator state
//! machine; device handling, HTTP transport and audio output live with the
//! binary that embeds it.

pub mod api;
pub mod audio;
pub mod buttons;
pub mod client;
pub mod config;
pub mod events;
pub mod keys;
pub mod model;
pub mod random;
pub mod registration;
pub mod tagreader;
pub mod text;
pub mod userinput;
