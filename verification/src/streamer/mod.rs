//! The streamer: one Moonlight stream, shown to one browser.
pub mod connection;
pub mod gamepads;
pub mod messages;
pub mod packet;
pub mod start;
