//! How a client behaves.

use vstd::prelude::*;

verus! {

/// Default heartbeat interval, in nanoseconds.
pub const DEFAULT_HEARTBEAT_INTERVAL: u128 = 10_000_000_000;

/// Default heartbeat timeout, in nanoseconds.
pub const DEFAULT_HEARTBEAT_TIMEOUT: u128 = 30_000_000_000;

/// Default initial backoff for reconnections, in nanoseconds.
pub const DEFAULT_INITIAL_BACKOFF: u128 = 1_000_000_000;

/// Default maximum backoff for reconnections, in nanoseconds.
pub const DEFAULT_MAX_BACKOFF: u128 = 60_000_000_000;

/// Configuration for WebSocket client behavior. Durations are in nanoseconds.
#[derive(Debug, Clone, Copy, PartialEq, Eq, Structural)]
pub struct WebSocketConfig {
    /// Interval for sending PING messages to keep connection alive
    pub heartbeat_interval: u128,
    /// Maximum time to wait for PONG response before considering connection dead
    pub heartbeat_timeout: u128,
    /// Reconnection strategy configuration
    pub reconnect: ReconnectConfig,
}

impl WebSocketConfig {
    /// A PING every 10 seconds, each to be answered within 30 seconds, and
    /// reconnections as they are by default.
    pub open spec fn standard() -> WebSocketConfig {
        WebSocketConfig {
            heartbeat_interval: 10_000_000_000,
            heartbeat_timeout: 30_000_000_000,
            reconnect: ReconnectConfig::standard(),
        }
    }
}

impl Default for WebSocketConfig {
    fn default() -> (r: Self)
        ensures
            r == WebSocketConfig::standard(),
    {
        WebSocketConfig {
            heartbeat_interval: DEFAULT_HEARTBEAT_INTERVAL,
            heartbeat_timeout: DEFAULT_HEARTBEAT_TIMEOUT,
            reconnect: ReconnectConfig::default(),
        }
    }
}

/// Configuration for automatic reconnection behavior. Durations are in
/// nanoseconds.
#[derive(Debug, Clone, Copy, PartialEq, Eq, Structural)]
pub struct ReconnectConfig {
    /// Maximum number of reconnection attempts before giving up.
    /// `None` means infinite retries.
    pub max_attempts: Option<u32>,
    /// Initial backoff duration for first reconnection attempt
    pub initial_backoff: u128,
    /// Maximum backoff duration
    pub max_backoff: u128,
}

impl ReconnectConfig {
    /// Attempts without end, with waits between 1 second and 60 seconds.
    pub open spec fn standard() -> ReconnectConfig {
        ReconnectConfig {
            max_attempts: None,
            initial_backoff: 1_000_000_000,
            max_backoff: 60_000_000_000,
        }
    }
}

impl Default for ReconnectConfig {
    fn default() -> (r: Self)
        ensures
            r == ReconnectConfig::standard(),
    {
        ReconnectConfig {
            max_attempts: None,
            initial_backoff: DEFAULT_INITIAL_BACKOFF,
            max_backoff: DEFAULT_MAX_BACKOFF,
        }
    }
}

impl ReconnectConfig {
    /// Whether `attempt` failed connection attempts in a row are enough to give up.
    pub open spec fn spent(self, attempt: u32) -> bool {
        match self.max_attempts {
            Some(max) => attempt >= max,
            None => false,
        }
    }

    /// Whether `attempt` failed connection attempts in a row are enough to give up.
    pub fn is_spent(&self, attempt: u32) -> (r: bool)
        ensures
            r == self.spent(attempt),
    {
        match self.max_attempts {
            Some(max) => attempt >= max,
            None => false,
        }
    }

    /// The power that the backoff multiplier is raised to for an attempt: the
    /// number of the attempt, as far as the exponent's type holds it.
    pub fn backoff_exponent(attempt: u32) -> (r: i32)
        ensures
            attempt <= i32::MAX ==> r == attempt,
            attempt > i32::MAX ==> r == i32::MAX,
    {
        if attempt <= 0x7FFF_FFFF {
            attempt as i32
        } else {
            i32::MAX
        }
    }

    /// A backoff duration, cut off at the maximum.
    pub fn cap_backoff(&self, backoff: u128) -> (r: u128)
        ensures
            r <= self.max_backoff,
            backoff <= self.max_backoff ==> r == backoff,
            backoff > self.max_backoff ==> r == self.max_backoff,
    {
        if backoff <= self.max_backoff {
            backoff
        } else {
            self.max_backoff
        }
    }
}

} // verus!
