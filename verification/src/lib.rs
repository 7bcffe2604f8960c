//! Control logic of a browser front end for Moonlight game streaming.
//!
//! The crate holds the decisions of two programs. The web server keeps a list of
//! stream hosts, pairs with a local Sunshine instance and answers the local status
//! and bootstrap requests. The streamer owns one Moonlight stream and moves packets
//! between it and a browser transport. Network, file and timer work is done by the
//! callers, which hand plain values in and get plain values back.
pub mod api;
pub mod app;
pub mod config;
pub mod error;
pub mod host;
pub mod host_task;
pub mod json_storage;
pub mod local;
pub mod local_task;
pub mod pin;
pub mod storage;
pub mod streamer;
pub mod text;
