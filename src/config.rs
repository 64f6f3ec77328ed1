//! What a run is pointed at and how it paces itself.

use crate::random::random_secs_between;
use vstd::prelude::*;

verus! {

/// Port used when none is given.
pub const DEFAULT_PORT: u16 = 443;

/// Number of connection slots when none is given.
pub const DEFAULT_COUNT: usize = 200;

/// Shortest keep-alive interval, in seconds, when none is given.
pub const DEFAULT_MIN_INTERVAL_SECS: u64 = 10;

/// Longest keep-alive interval, in seconds, when none is given.
pub const DEFAULT_MAX_INTERVAL_SECS: u64 = 30;

/// Delay after a failed unit before its slot is filled again, in
/// milliseconds; it keeps an unreachable target from turning the respawns
/// into a hot loop.
pub const PACING_DELAY_MS: u64 = 10;

/// How often the live count is shown, in milliseconds.
pub const REPORT_INTERVAL_MS: u64 = 100;

/// Bound on opening a connection, in seconds, so that a peer that never
/// answers cannot hold a unit forever.
pub const CONNECT_TIMEOUT_SECS: u64 = 10;

/// The host and port that every unit connects to.
pub struct TargetSpec {
    host: String,
    port: u16,
}

impl TargetSpec {
    pub closed spec fn host_spec(&self) -> Seq<char> {
        self.host@
    }

    pub closed spec fn port_spec(&self) -> u16 {
        self.port
    }

    /// A target, where `port` is a port number, `1` to `65535`.
    pub fn new(host: String, port: u32) -> (r: Option<TargetSpec>)
        ensures
            r.is_some() <==> 1 <= port <= 65535,
            r matches Some(t) ==> t.host_spec() == host@ && t.port_spec() == port,
    {
        if 1 <= port && port <= 65535 {
            Some(TargetSpec { host, port: port as u16 })
        } else {
            None
        }
    }

    pub fn host(&self) -> (r: &str)
        ensures
            r@ == self.host_spec(),
    {
        self.host.as_str()
    }

    pub fn port(&self) -> (r: u16)
        ensures
            r == self.port_spec(),
    {
        self.port
    }
}

/// The bounds of the randomized wait between two keep-alive bytes, in seconds.
pub struct KeepAliveConfig {
    min_secs: u64,
    max_secs: u64,
}

impl KeepAliveConfig {
    pub closed spec fn min_spec(&self) -> u64 {
        self.min_secs
    }

    pub closed spec fn max_spec(&self) -> u64 {
        self.max_secs
    }

    /// The bounds are ordered, and the longest leaves room for one more second.
    pub open spec fn wf(&self) -> bool {
        self.min_spec() <= self.max_spec() < u64::MAX
    }

    /// Bounds `[min_secs, max_secs]`, refused unless they are ordered and
    /// `max_secs` is below `u64::MAX`.
    pub fn new(min_secs: u64, max_secs: u64) -> (r: Option<KeepAliveConfig>)
        ensures
            r.is_some() <==> min_secs <= max_secs < u64::MAX,
            r matches Some(c) ==> c.wf() && c.min_spec() == min_secs && c.max_spec() == max_secs,
    {
        if min_secs <= max_secs && max_secs < u64::MAX {
            Some(KeepAliveConfig { min_secs, max_secs })
        } else {
            None
        }
    }

    pub fn min_secs(&self) -> (r: u64)
        ensures
            r == self.min_spec(),
    {
        self.min_secs
    }

    pub fn max_secs(&self) -> (r: u64)
        ensures
            r == self.max_spec(),
    {
        self.max_secs
    }

    /// A wait drawn afresh, within the bounds, ends included.
    pub fn next_wait_secs(&self) -> (r: u64)
        requires
            self.wf(),
        ensures
            self.min_spec() <= r <= self.max_spec(),
    {
        random_secs_between(self.min_secs, self.max_secs)
    }
}

impl Default for KeepAliveConfig {
    fn default() -> (r: KeepAliveConfig)
        ensures
            r.wf(),
            r.min_spec() == DEFAULT_MIN_INTERVAL_SECS,
            r.max_spec() == DEFAULT_MAX_INTERVAL_SECS,
    {
        KeepAliveConfig { min_secs: DEFAULT_MIN_INTERVAL_SECS, max_secs: DEFAULT_MAX_INTERVAL_SECS }
    }
}

} // verus!
