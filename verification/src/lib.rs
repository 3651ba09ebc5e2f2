//! A "now playing" status widget for MPRIS media players.
//!
//! The crate holds the widget's logic: decoding the player's metadata, the
//! marquee that scrolls an over-long title, the update cycle that turns bus
//! replies into display state, and the mapping of clicks to player commands.
//! Talking to the bus and reading the clock is left to the embedding program,
//! which feeds the replies and the current time into the functions here.

pub mod bus;
pub mod config;
pub mod decoder;
pub mod error;
pub mod ident;
pub mod rotation;
pub mod session;
pub mod value;
pub mod widget;

pub use crate::config::MusicConfig;
pub use crate::session::Music;
