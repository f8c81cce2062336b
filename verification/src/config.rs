//! Shared configuration read on every reaction event and changed only by
//! administrator commands.

use vstd::prelude::*;

verus! {

/// Threshold a freshly started process runs with until an administrator
/// changes it.
pub const DEFAULT_THRESHOLD: u64 = 4;

/// Mutable configuration shared between the command handler and the
/// reconciler: the reaction-count threshold and the destination channel for
/// board posts (absent until an administrator designates one).
pub struct Config {
    pub threshold: u64,
    pub board_channel: Option<u64>,
}

impl Config {
    /// Configuration at process start: default threshold, no board channel.
    pub fn new() -> (c: Config)
        ensures
            c.threshold == DEFAULT_THRESHOLD,
            c.board_channel is None,
    {
        Config { threshold: DEFAULT_THRESHOLD, board_channel: None }
    }
}

} // verus!
