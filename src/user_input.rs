//! The settings of one run: the target, the per-attempt timeout, the probe
//! limit and the pacing interval.

use vstd::prelude::*;
use crate::time::{Duration, MICROS_PER_MILLI, MICROS_PER_SEC};

verus! {

/// The interval between the starts of two probes when nothing else is asked.
pub const DEFAULT_INTERVAL_SECS: u64 = 1;

pub struct UserInput {
    /// The host as given, a name or an address.
    pub url: String,
    pub port: u16,
    /// The bound on one connection attempt; `None` leaves it to the transport.
    pub timeout: Option<Duration>,
    /// How many probes to make; `None` probes until cancelled.
    pub probes_count: Option<u128>,
    pub interval_between_probes: Duration,
}

impl Clone for UserInput {
    fn clone(&self) -> (r: Self)
        ensures
            r == *self,
    {
        Self {
            url: self.url.clone(),
            port: self.port,
            timeout: self.timeout,
            probes_count: self.probes_count,
            interval_between_probes: self.interval_between_probes,
        }
    }
}

impl UserInput {
    /// The settings for a run from already validated values: a timeout of
    /// zero milliseconds means no timeout, a count of zero means no limit,
    /// and probes are paced one second apart.
    pub fn from_parts(url: String, port: u16, timeout_millis: u64, count: u128) -> (r: UserInput)
        requires
            timeout_millis * MICROS_PER_MILLI <= u64::MAX,
        ensures
            r.url == url,
            r.port == port,
            r.timeout == (if timeout_millis == 0 {
                None
            } else {
                Some(Duration { micros: (timeout_millis * MICROS_PER_MILLI) as u64 })
            }),
            r.probes_count == (if count == 0 { None } else { Some(count) }),
            r.interval_between_probes.micros == DEFAULT_INTERVAL_SECS * MICROS_PER_SEC,
    {
        let timeout = if timeout_millis == 0 {
            None
        } else {
            Some(Duration::milliseconds(timeout_millis))
        };
        let probes_count = if count == 0 { None } else { Some(count) };
        UserInput {
            url,
            port,
            timeout,
            probes_count,
            interval_between_probes: Duration::seconds(DEFAULT_INTERVAL_SECS),
        }
    }
}

} // verus!
