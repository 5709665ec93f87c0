//! Countdown timers kept by a background daemon: the timer registry, the
//! decisions that drive each timer's countdown, the command dispatcher and
//! the per-connection session, with the duration parsing of the command
//! line.
use vstd::prelude::*;

pub mod audio;
pub mod cli;
pub mod client;
pub mod ctx;
pub mod dispatch;
pub mod duration;
pub mod laws;
pub mod message;
pub mod paths;
pub mod session;
pub mod table;
pub mod timer;
pub mod timers;

verus! {

/// The version line that `sand version` prints.
pub const VERSION: &'static str = "Sand v0.3.0";

} // verus!
