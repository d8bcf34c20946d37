//! Client-side synchronisation engine for a shared listening room.
//!
//! The crate holds the message vocabulary exchanged with the relay server,
//! its wire codec, the playback-readiness state machine, the operator command
//! parser and the dispatch of transport frames. Everything here is a function
//! from plain values to plain values; sockets, the media player and the
//! downloader live with the program that drives this library.

pub mod packet;
pub mod machine;
pub mod trace;
pub mod codec;
pub mod input;
pub mod session;
