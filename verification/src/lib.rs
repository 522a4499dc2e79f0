//! What an audio agent decides and computes: the conversation with its server, the
//! players, the takes it records, and the messages to its mixer.

pub mod calibration;
pub mod config;
pub mod connection;
pub mod credentials;
pub mod device;
pub mod digest;
pub mod identity;
pub mod logging;
pub mod midi;
pub mod path;
pub mod playback;
pub mod player;
pub mod protocol;
pub mod recording;
pub mod sample;
pub mod session;
pub mod take;
pub mod text;
pub mod web;

use vstd::prelude::*;

verus! {

/// Version of the agent, as reported to the server.
pub const VERSION: &'static str = "0.0.0";

} // verus!
