//! Verified core of the danmaku overlay: configuration parsing, the overlay's
//! line buffer, the mapping of live-room events into it, the connection
//! worker's decisions, log formatting and wide-string conversion.

pub mod config;
pub mod danmaku;
pub mod handle;
pub mod hook;
pub mod json;
pub mod logger;
pub mod state;
pub mod text;
pub mod wide;
