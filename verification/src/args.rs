//! The configuration a run is started with, and the poll policy it selects.

use vstd::prelude::*;

verus! {

/// Milliseconds between reads when none are given.
pub const DEFAULT_READ_INTERVAL: u64 = 500;

/// Bytes asked for per read when no size is given.
pub const DEFAULT_BUFFER_SIZE: usize = 32;

/// What a run is configured with. Fixed once the run has started.
#[derive(Clone, Debug, PartialEq, Eq)]
pub struct Args {
    /// Path of the bus device node.
    pub dev: String,
    /// Read once and end, instead of reading until interrupted.
    pub once: bool,
    /// Milliseconds between two reads. Only used when reading continuously.
    pub read_interval: u64,
    /// Bytes asked for per read.
    pub buffer_size: usize,
}

/// Whether a run reads once or keeps reading.
#[derive(Clone, Copy, Debug, PartialEq, Eq, Structural)]
pub enum PollPolicy {
    /// One read, then the run ends.
    SingleShot,
    /// Read after read, `interval_ms` milliseconds apart.
    Continuous { interval_ms: u64 },
}

/// The policy that the `once` flag and the interval select.
pub open spec fn policy_of(once: bool, read_interval: u64) -> PollPolicy {
    if once {
        PollPolicy::SingleShot
    } else {
        PollPolicy::Continuous { interval_ms: read_interval }
    }
}

impl Args {
    /// The configuration for `dev` with every other option at its default:
    /// continuous reads of 32 bytes, 500 ms apart.
    pub fn new(dev: String) -> (args: Args)
        ensures
            args.dev == dev,
            !args.once,
            args.read_interval == 500,
            args.buffer_size == 32,
    {
        Args {
            dev,
            once: false,
            read_interval: DEFAULT_READ_INTERVAL,
            buffer_size: DEFAULT_BUFFER_SIZE,
        }
    }

    /// The poll policy this configuration selects.
    pub fn policy(&self) -> (policy: PollPolicy)
        ensures
            policy == policy_of(self.once, self.read_interval),
    {
        if self.once {
            PollPolicy::SingleShot
        } else {
            PollPolicy::Continuous { interval_ms: self.read_interval }
        }
    }
}

} // verus!
