//! The probe scheduler: one connection attempt per cycle, paced to an
//! interval, stopped by a probe limit or by cancellation.
//!
//! The scheduler decides; its caller waits. A cycle is `begin` (or
//! `begin_at`), `connect` (or `connected_at`), a wait of `pending_wait`
//! that cancellation may cut short, and `finish` (or `finish_at`), which
//! hands out the cycle's probe.

use vstd::prelude::*;
use crate::pinger::Pinger;
use crate::time::{span, utc_now, Duration, Timestamp};
use crate::tracker::Probe;

verus! {

/// Where a scheduler stands in its cycle.
#[derive(Clone, Copy, Debug, PartialEq, Eq, Structural)]
pub enum Phase {
    /// Between cycles: the next one may begin.
    Running,
    /// An attempt is in flight.
    Connecting,
    /// The attempt is over; the rest of the interval is being waited out.
    Waiting,
    /// No further attempt will be made.
    Stopped,
}

pub struct Scheduler {
    /// The pacing interval: the shortest cycle that is not cut short.
    pub interval: Duration,
    /// How many probes may still be made; `None` for no limit.
    pub remaining: Option<u128>,
    /// Whether a cancellation has been observed.
    pub cancelled: bool,
    pub phase: Phase,
    /// When the current attempt began.
    pub start: Timestamp,
    /// How long the current attempt took.
    pub elapsed: Duration,
    /// The outcome of the current attempt.
    pub err: Option<std::io::Error>,
}

impl Scheduler {
    /// A cycle in flight has a probe left to make.
    pub open spec fn wf(&self) -> bool {
        (self.phase is Connecting || self.phase is Waiting) ==> self.remaining != Some(0u128)
    }

    /// Whether the next cycle is refused: cancellation was observed or the
    /// limit is used up.
    pub open spec fn stops_at_begin(&self) -> bool {
        self.cancelled || self.remaining == Some(0u128)
    }

    /// The state once a cancellation is observed.
    pub open spec fn with_cancel(self) -> Scheduler {
        Scheduler { cancelled: true, ..self }
    }

    /// The state after a cycle is asked to begin at `now`.
    pub open spec fn began(self, now: Timestamp) -> Scheduler {
        if self.stops_at_begin() {
            Scheduler { phase: Phase::Stopped, ..self }
        } else {
            Scheduler { phase: Phase::Connecting, start: now, ..self }
        }
    }

    /// The state once the attempt has ended at `now` with outcome `err`.
    pub open spec fn connected(self, now: Timestamp, err: Option<std::io::Error>) -> Scheduler {
        Scheduler {
            phase: Phase::Waiting,
            elapsed: Duration { micros: span(self.start, now) },
            err,
            ..self
        }
    }

    /// The wait after the attempt: the rest of the interval, none where the
    /// attempt took the whole interval or more, and none once cancelled.
    pub open spec fn wait(self) -> Duration {
        if self.cancelled || self.elapsed.micros >= self.interval.micros {
            Duration { micros: 0 }
        } else {
            Duration { micros: (self.interval.micros - self.elapsed.micros) as u64 }
        }
    }

    /// The probe that a cycle ending at `now` hands out: its cycle runs from
    /// the attempt's start to `now`, and is never shorter than the attempt.
    pub open spec fn probe_at(self, now: Timestamp) -> Probe {
        Probe {
            start: self.start,
            elapsed: self.elapsed,
            err: self.err,
            cycle_duration: Duration {
                micros: if span(self.start, now) >= self.elapsed.micros {
                    span(self.start, now)
                } else {
                    self.elapsed.micros
                },
            },
        }
    }

    /// The state once the cycle has ended: one probe fewer remains, and the
    /// scheduler stops where that was the last one or cancellation was observed.
    pub open spec fn finished(self) -> Scheduler {
        let remaining = match self.remaining {
            Some(k) => Some((k - 1) as u128),
            None => None,
        };
        Scheduler {
            remaining,
            phase: if self.cancelled || remaining == Some(0u128) {
                Phase::Stopped
            } else {
                Phase::Running
            },
            err: None,
            ..self
        }
    }

    /// A scheduler that paces cycles to `interval` and makes at most `limit`
    /// probes, or any number for `None`.
    pub fn new(interval: Duration, limit: Option<u128>) -> (r: Scheduler)
        ensures
            r.wf(),
            r.interval == interval,
            r.remaining == limit,
            !r.cancelled,
            r.phase == Phase::Running,
            r.err is None,
    {
        Scheduler {
            interval,
            remaining: limit,
            cancelled: false,
            phase: Phase::Running,
            start: Timestamp { micros: 0 },
            elapsed: Duration { micros: 0 },
            err: None,
        }
    }

    /// Records that cancellation was signalled.
    pub fn cancel(&mut self)
        ensures
            *final(self) == old(self).with_cancel(),
    {
        self.cancelled = true;
    }

    pub fn is_stopped(&self) -> (r: bool)
        ensures
            r == (self.phase == Phase::Stopped),
    {
        self.phase == Phase::Stopped
    }

    /// Begins a cycle at `now`, unless cancellation or the limit forbids it:
    /// then the scheduler stops and `false` comes back.
    pub fn begin_at(&mut self, now: Timestamp) -> (r: bool)
        requires
            old(self).wf(),
            old(self).phase == Phase::Running,
        ensures
            r == !old(self).stops_at_begin(),
            *final(self) == old(self).began(now),
            final(self).wf(),
    {
        if self.cancelled {
            self.phase = Phase::Stopped;
            return false;
        }
        match self.remaining {
            Some(k) => {
                if k == 0 {
                    self.phase = Phase::Stopped;
                    return false;
                }
            },
            None => {},
        }
        self.start = now;
        self.phase = Phase::Connecting;
        true
    }

    /// `begin_at` on the current time.
    pub fn begin(&mut self) -> (r: bool)
        requires
            old(self).wf(),
            old(self).phase == Phase::Running,
        ensures
            r == !old(self).stops_at_begin(),
            exists|now: Timestamp| now.micros >= 0 && *final(self) == old(self).began(now),
            final(self).wf(),
    {
        let now = utc_now();
        self.begin_at(now)
    }

    /// Ends the attempt in flight at `now` with outcome `err`, and returns
    /// the wait that is to follow.
    pub fn connected_at(&mut self, now: Timestamp, err: Option<std::io::Error>) -> (wait: Duration)
        requires
            old(self).wf(),
            old(self).phase == Phase::Connecting,
        ensures
            *final(self) == old(self).connected(now, err),
            wait == final(self).wait(),
            final(self).wf(),
    {
        self.elapsed = now.duration_since(self.start);
        self.err = err;
        self.phase = Phase::Waiting;
        self.pending_wait()
    }

    /// Makes the cycle's connection attempt, timed by the clock, and returns
    /// the wait that is to follow.
    pub fn connect<P: Pinger + ?Sized>(&mut self, pinger: &P) -> (wait: Duration)
        requires
            old(self).wf(),
            old(self).phase == Phase::Connecting,
        ensures
            exists|now: Timestamp, err: Option<std::io::Error>|
                now.micros >= 0 && *final(self) == old(self).connected(now, err),
            wait == final(self).wait(),
            final(self).wf(),
    {
        let err = pinger.ping();
        let now = utc_now();
        self.connected_at(now, err)
    }

    /// What is left to wait of the current cycle: none once cancelled.
    pub fn pending_wait(&self) -> (wait: Duration)
        requires
            self.phase == Phase::Waiting,
        ensures
            wait == self.wait(),
    {
        if self.cancelled {
            Duration::zero()
        } else {
            self.interval.saturating_sub(self.elapsed)
        }
    }

    /// Ends the cycle at `now` and hands out its probe.
    pub fn finish_at(&mut self, now: Timestamp) -> (p: Probe)
        requires
            old(self).wf(),
            old(self).phase == Phase::Waiting,
        ensures
            p == old(self).probe_at(now),
            p.cycle_duration.micros >= p.elapsed.micros,
            *final(self) == old(self).finished(),
            final(self).wf(),
    {
        let cycle = now.duration_since(self.start).max(self.elapsed);
        let err = self.err.take();
        match self.remaining {
            Some(k) => {
                self.remaining = Some(k - 1);
            },
            None => {},
        }
        let last = match self.remaining {
            Some(k) => k == 0,
            None => false,
        };
        if self.cancelled || last {
            self.phase = Phase::Stopped;
        } else {
            self.phase = Phase::Running;
        }
        Probe { start: self.start, elapsed: self.elapsed, err, cycle_duration: cycle }
    }

    /// `finish_at` on the current time.
    pub fn finish(&mut self) -> (p: Probe)
        requires
            old(self).wf(),
            old(self).phase == Phase::Waiting,
        ensures
            exists|now: Timestamp| now.micros >= 0 && p == old(self).probe_at(now),
            p.cycle_duration.micros >= p.elapsed.micros,
            *final(self) == old(self).finished(),
            final(self).wf(),
    {
        let now = utc_now();
        self.finish_at(now)
    }
}

/// Once cancellation is observed no new attempt begins: between cycles the
/// scheduler stops at once; a cycle in flight ends its attempt, waits no more,
/// and the scheduler stops as that cycle ends.
pub proof fn lemma_cancel_stops(
    s: Scheduler,
    now: Timestamp,
    err: Option<std::io::Error>,
)
    ensures
        ({
            let c = s.with_cancel();
            &&& c.phase == s.phase
            &&& c.stops_at_begin()
            &&& c.phase == Phase::Running ==> c.began(now).phase == Phase::Stopped
            &&& c.phase == Phase::Connecting ==> c.connected(now, err).wait().micros == 0
                && c.connected(now, err).finished().phase == Phase::Stopped
            &&& c.phase == Phase::Waiting ==> c.wait().micros == 0 && c.finished().phase
                == Phase::Stopped
        }),
{
}

/// Without cancellation, a scheduler with a limit refuses to begin once no
/// probe remains; otherwise a whole cycle uses up one probe, and the scheduler
/// stops after the last one and runs on before it.
pub proof fn lemma_limit_counts_down(
    s: Scheduler,
    begun: Timestamp,
    ended: Timestamp,
    err: Option<std::io::Error>,
)
    requires
        s.phase == Phase::Running,
        !s.cancelled,
        s.remaining is Some,
    ensures
        s.remaining == Some(0u128) ==> s.began(begun).phase == Phase::Stopped,
        s.remaining != Some(0u128) ==> ({
            let e = s.began(begun).connected(ended, err).finished();
            &&& e.remaining == Some((s.remaining->0 - 1) as u128)
            &&& e.phase == (if s.remaining->0 == 1 {
                Phase::Stopped
            } else {
                Phase::Running
            })
        }),
{
}

} // verus!
