//! The figures of the final report of a run, computed from its statistics.
//! Laying them out as text is left to the caller.

use vstd::prelude::*;
use crate::time::{span, Duration, MICROS_PER_SEC};
use crate::tracker::Info;

verus! {

/// A span split into whole hours, minutes and seconds.
#[derive(Clone, Copy, Debug, PartialEq, Eq, Structural)]
pub struct Hms {
    pub hours: u64,
    pub minutes: u64,
    pub seconds: u64,
}

/// The latency figures of the successful probes.
#[derive(Clone, Copy, Debug, PartialEq, Eq, Structural)]
pub struct Latency {
    pub min: Duration,
    pub max: Duration,
    pub sum: Duration,
}

#[derive(Clone, Copy, Debug, PartialEq, Eq, Structural)]
pub struct FinalStats {
    pub total_probes: u128,
    pub succ_probes: u128,
    pub fail_probes: u128,
    /// Whole seconds of uptime.
    pub uptime_secs: u64,
    /// Whole seconds of downtime.
    pub downtime_secs: u64,
    /// `None` while no probe has succeeded.
    pub latency: Option<Latency>,
    /// From the start of the first probe to the end of the last attempt;
    /// `None` before any probe.
    pub run_duration: Option<Hms>,
}

/// `secs` split into whole hours, minutes and seconds.
pub open spec fn split_secs(secs: u64) -> Hms {
    Hms { hours: secs / 60 / 60, minutes: (secs / 60) % 60, seconds: secs % 60 }
}

/// Splits `d` into whole hours, minutes and seconds, dropping the fraction
/// of a second; minutes and seconds stay under 60.
pub fn hms(d: Duration) -> (r: Hms)
    ensures
        r == split_secs(d.micros / MICROS_PER_SEC),
        r.minutes < 60,
        r.seconds < 60,
        r.hours * 3600 + r.minutes * 60 + r.seconds == d.micros / MICROS_PER_SEC,
{
    let secs = d.num_seconds();
    let hours = secs / 60 / 60;
    let minutes = (secs / 60) % 60;
    let seconds = secs % 60;
    assert(hours * 3600 + minutes * 60 + seconds == secs) by (nonlinear_arith)
        requires
            hours == secs / 60 / 60,
            minutes == (secs / 60) % 60,
            seconds == secs % 60,
    ;
    Hms { hours, minutes, seconds }
}

/// The figures of the final report.
pub fn final_stats(info: &Info) -> (r: FinalStats)
    requires
        info.succ_probes_counter + info.fail_probes_counter <= u128::MAX,
    ensures
        r.total_probes == info.succ_probes_counter + info.fail_probes_counter,
        r.succ_probes == info.succ_probes_counter,
        r.fail_probes == info.fail_probes_counter,
        r.uptime_secs == info.total_uptime.micros / MICROS_PER_SEC,
        r.downtime_secs == info.total_downtime.micros / MICROS_PER_SEC,
        r.latency == (if info.succ_probes_counter > 0 {
            Some(Latency { min: info.min_rtt, max: info.max_rtt, sum: info.sum_rtt })
        } else {
            None
        }),
        r.run_duration is Some <==> (info.start_time is Some && info.end_time is Some),
        r.run_duration matches Some(h) ==> h == split_secs(
            span(info.start_time->0, info.end_time->0) / MICROS_PER_SEC,
        ),
{
    let latency = if info.succ_probes_counter > 0 {
        Some(Latency { min: info.min_rtt, max: info.max_rtt, sum: info.sum_rtt })
    } else {
        None
    };
    let run_duration = match (info.start_time, info.end_time) {
        (Some(start), Some(end)) => Some(hms(end.duration_since(start))),
        _ => None,
    };
    FinalStats {
        total_probes: info.succ_probes_counter + info.fail_probes_counter,
        succ_probes: info.succ_probes_counter,
        fail_probes: info.fail_probes_counter,
        uptime_secs: info.total_uptime.num_seconds(),
        downtime_secs: info.total_downtime.num_seconds(),
        latency,
        run_duration,
    }
}

} // verus!
