use vstd::prelude::*;

verus! {

/// Capacity of each of the two channels between the session task and the foreground loop.
pub const MPSC_BUFFER_SIZE: usize = 100;

/// Number of text messages the message log retains.
pub const MAX_MSG_RETENTION: usize = 128;

/// Milliseconds the session task sleeps between two polls of the radio.
pub const POLL_INTERVAL_MS: u64 = 250;

/// Name shown for a channel that still carries the factory settings: no name of its own
/// and the default key.
pub const DEFAULT_CHANNEL_NAME: &'static str = "LongFast (Default)";

} // verus!
