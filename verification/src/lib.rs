//! Core logic of a P25 Phase-1 trunked-voice receiver.
//!
//! The crate holds the verified heart of the receiver: the sample-buffer
//! pool, the trunking policy state machine, the talkgroup selector, the
//! receiver event dispatcher, and the HTTP/SSE hub logic. Device I/O, the
//! protocol decoder, and the floating-point DSP chain live outside, behind
//! the plain-data types declared here.

pub mod consts;
pub mod demod;
pub mod fmt;
pub mod hub;
pub mod json;
pub mod lit;
pub mod policy;
pub mod pool;
pub mod recv;
pub mod sdr;
pub mod stats;
pub mod talkgroups;
pub mod tgmap;
