//! The aggregator: folds probe records, one at a time and in arrival order,
//! into the running statistics of a run.

use vstd::prelude::*;
use crate::time::{Duration, Timestamp};
use crate::user_input::UserInput;

verus! {

/// One connection attempt and its timings.
pub struct Probe {
    /// When the attempt began.
    pub start: Timestamp,
    /// How long the attempt itself took.
    pub elapsed: Duration,
    /// `None` for a success, the connection error for a failure.
    pub err: Option<std::io::Error>,
    /// The whole cycle that the probe stands for: the attempt and the wait after it.
    pub cycle_duration: Duration,
}

/// What the statistics keep of a probe, in microseconds.
pub struct ProbeRecord {
    pub start: int,
    pub elapsed: int,
    pub ok: bool,
    pub cycle: int,
}

impl ProbeRecord {
    /// The ranges that the fields of a `Probe` allow.
    pub open spec fn valid(self) -> bool {
        &&& i64::MIN <= self.start <= i64::MAX
        &&& 0 <= self.elapsed <= u64::MAX
        &&& 0 <= self.cycle <= u64::MAX
    }
}

impl View for Probe {
    type V = ProbeRecord;

    open spec fn view(&self) -> ProbeRecord {
        ProbeRecord {
            start: self.start.micros as int,
            elapsed: self.elapsed.micros as int,
            ok: self.err is None,
            cycle: self.cycle_duration.micros as int,
        }
    }
}

impl Probe {
    pub fn is_success(&self) -> (r: bool)
        ensures
            r == self@.ok,
    {
        self.err.is_none()
    }
}

/// The address that the target resolved to.
#[derive(Clone, Copy, Debug)]
pub enum IpAddress {
    V4([u8; 4]),
    V6([u16; 8]),
}

/// The statistics of a run, as mathematical values.
pub struct Stats {
    pub succ_streak: int,
    pub fail_streak: int,
    pub succ_total: int,
    pub fail_total: int,
    pub last_success: Option<int>,
    pub last_failure: Option<int>,
    pub uptime: int,
    pub downtime: int,
    pub min_latency: int,
    pub max_latency: int,
    pub sum_latency: int,
    pub run_start: Option<int>,
    pub run_end: Option<int>,
}

pub open spec fn min_int(a: int, b: int) -> int {
    if a <= b { a } else { b }
}

pub open spec fn max_int(a: int, b: int) -> int {
    if a >= b { a } else { b }
}

impl Stats {
    /// The statistics before any probe: zero counters, no timestamps, and the
    /// latency bounds at the ends of their range, which no probe has moved.
    pub open spec fn initial() -> Stats {
        Stats {
            succ_streak: 0,
            fail_streak: 0,
            succ_total: 0,
            fail_total: 0,
            last_success: None,
            last_failure: None,
            uptime: 0,
            downtime: 0,
            min_latency: u64::MAX as int,
            max_latency: 0,
            sum_latency: 0,
            run_start: None,
            run_end: None,
        }
    }

    /// The statistics after one more probe.
    pub open spec fn step(self, p: ProbeRecord) -> Stats {
        let s = if p.ok {
            Stats {
                succ_streak: self.succ_streak + 1,
                fail_streak: 0,
                succ_total: self.succ_total + 1,
                last_success: Some(p.start),
                uptime: self.uptime + p.cycle,
                min_latency: min_int(self.min_latency, p.elapsed),
                max_latency: max_int(self.max_latency, p.elapsed),
                sum_latency: self.sum_latency + p.elapsed,
                ..self
            }
        } else {
            Stats {
                succ_streak: 0,
                fail_streak: self.fail_streak + 1,
                fail_total: self.fail_total + 1,
                last_failure: Some(p.start),
                downtime: self.downtime + p.cycle,
                ..self
            }
        };
        Stats {
            run_start: if self.run_start is None { Some(p.start) } else { self.run_start },
            run_end: Some(p.start + p.elapsed),
            ..s
        }
    }

    /// The statistics after the probes `ps`, taken in order.
    pub open spec fn after_all(self, ps: Seq<ProbeRecord>) -> Stats
        decreases ps.len(),
    {
        if ps.len() == 0 {
            self
        } else {
            self.after_all(ps.drop_last()).step(ps.last())
        }
    }

    /// Every value that `step` computes for `p` fits the fields of an `Info`.
    pub open spec fn fits(self, p: ProbeRecord) -> bool {
        &&& p.start + p.elapsed <= i64::MAX
        &&& p.ok ==> {
            &&& self.succ_streak < u128::MAX
            &&& self.succ_total < u128::MAX
            &&& self.uptime + p.cycle <= u64::MAX
            &&& self.sum_latency + p.elapsed <= u64::MAX
        }
        &&& !p.ok ==> {
            &&& self.fail_streak < u128::MAX
            &&& self.fail_total < u128::MAX
            &&& self.downtime + p.cycle <= u64::MAX
        }
    }
}

/// The running statistics of a run, and what it probes.
pub struct Info {
    pub user_input: UserInput,
    pub succ_probes_streak: u128,
    pub fail_probes_streak: u128,
    pub succ_probes_counter: u128,
    pub fail_probes_counter: u128,
    pub ip_addr: IpAddress,
    pub last_succ_probe: Option<Timestamp>,
    pub last_fail_probe: Option<Timestamp>,
    pub total_uptime: Duration,
    pub total_downtime: Duration,
    /// The shortest successful attempt; meaningless while nothing succeeded.
    pub min_rtt: Duration,
    /// The longest successful attempt; meaningless while nothing succeeded.
    pub max_rtt: Duration,
    pub sum_rtt: Duration,
    pub start_time: Option<Timestamp>,
    pub end_time: Option<Timestamp>,
}

pub open spec fn opt_micros(t: Option<Timestamp>) -> Option<int> {
    match t {
        Some(t) => Some(t.micros as int),
        None => None,
    }
}

impl View for Info {
    type V = Stats;

    open spec fn view(&self) -> Stats {
        Stats {
            succ_streak: self.succ_probes_streak as int,
            fail_streak: self.fail_probes_streak as int,
            succ_total: self.succ_probes_counter as int,
            fail_total: self.fail_probes_counter as int,
            last_success: opt_micros(self.last_succ_probe),
            last_failure: opt_micros(self.last_fail_probe),
            uptime: self.total_uptime.micros as int,
            downtime: self.total_downtime.micros as int,
            min_latency: self.min_rtt.micros as int,
            max_latency: self.max_rtt.micros as int,
            sum_latency: self.sum_rtt.micros as int,
            run_start: opt_micros(self.start_time),
            run_end: opt_micros(self.end_time),
        }
    }
}

impl Info {
    /// Fresh statistics for a run against `ip_addr`.
    pub fn new(user_input: UserInput, ip_addr: IpAddress) -> (r: Info)
        ensures
            r@ == Stats::initial(),
            r.user_input == user_input,
            r.ip_addr == ip_addr,
    {
        Info {
            user_input,
            ip_addr,
            succ_probes_streak: 0,
            fail_probes_streak: 0,
            succ_probes_counter: 0,
            fail_probes_counter: 0,
            last_succ_probe: None,
            last_fail_probe: None,
            total_uptime: Duration::zero(),
            total_downtime: Duration::zero(),
            min_rtt: Duration { micros: u64::MAX },
            max_rtt: Duration::zero(),
            sum_rtt: Duration::zero(),
            start_time: None,
            end_time: None,
        }
    }

    /// Whether `track` can take `probe`: no counter or sum would leave its range.
    pub fn can_track(&self, probe: &Probe) -> (r: bool)
        ensures
            r == self@.fits(probe@),
    {
        if probe.start.checked_add(probe.elapsed).is_none() {
            return false;
        }
        if probe.is_success() {
            self.succ_probes_streak < u128::MAX
                && self.succ_probes_counter < u128::MAX
                && self.total_uptime.checked_add(probe.cycle_duration).is_some()
                && self.sum_rtt.checked_add(probe.elapsed).is_some()
        } else {
            self.fail_probes_streak < u128::MAX
                && self.fail_probes_counter < u128::MAX
                && self.total_downtime.checked_add(probe.cycle_duration).is_some()
        }
    }

    /// Takes one probe into the statistics.
    pub fn track(&mut self, probe: &Probe)
        requires
            old(self)@.fits(probe@),
        ensures
            final(self)@ == old(self)@.step(probe@),
            final(self).user_input == old(self).user_input,
            final(self).ip_addr == old(self).ip_addr,
    {
        if probe.is_success() {
            self.succ_probes_streak = self.succ_probes_streak + 1;
            self.fail_probes_streak = 0;
            self.succ_probes_counter = self.succ_probes_counter + 1;
            self.last_succ_probe = Some(probe.start);
            self.total_uptime = Duration { micros: self.total_uptime.micros + probe.cycle_duration.micros };
            self.min_rtt = self.min_rtt.min(probe.elapsed);
            self.max_rtt = self.max_rtt.max(probe.elapsed);
            self.sum_rtt = Duration { micros: self.sum_rtt.micros + probe.elapsed.micros };
        } else {
            self.succ_probes_streak = 0;
            self.fail_probes_streak = self.fail_probes_streak + 1;
            self.fail_probes_counter = self.fail_probes_counter + 1;
            self.last_fail_probe = Some(probe.start);
            self.total_downtime = Duration { micros: self.total_downtime.micros + probe.cycle_duration.micros };
        }
        if self.start_time.is_none() {
            self.start_time = Some(probe.start);
        }
        let end: i128 = probe.start.micros as i128 + probe.elapsed.micros as i128;
        self.end_time = Some(Timestamp { micros: end as i64 });
    }
}

/// How many of the probes `ps` had outcome `ok`.
pub open spec fn count_where(ps: Seq<ProbeRecord>, ok: bool) -> int
    decreases ps.len(),
{
    if ps.len() == 0 {
        0
    } else {
        count_where(ps.drop_last(), ok) + if ps.last().ok == ok { 1int } else { 0int }
    }
}

/// The number of probes at the end of `ps` that all had outcome `ok`.
pub open spec fn trailing_run(ps: Seq<ProbeRecord>, ok: bool) -> int
    decreases ps.len(),
{
    if ps.len() == 0 {
        0
    } else if ps.last().ok == ok {
        trailing_run(ps.drop_last(), ok) + 1
    } else {
        0
    }
}

/// The sum of the cycle durations of the probes in `ps` with outcome `ok`.
pub open spec fn cycle_sum(ps: Seq<ProbeRecord>, ok: bool) -> int
    decreases ps.len(),
{
    if ps.len() == 0 {
        0
    } else {
        cycle_sum(ps.drop_last(), ok) + if ps.last().ok == ok { ps.last().cycle } else { 0 }
    }
}

/// The sum of the cycle durations of all the probes in `ps`.
pub open spec fn total_cycle(ps: Seq<ProbeRecord>) -> int
    decreases ps.len(),
{
    if ps.len() == 0 {
        0
    } else {
        total_cycle(ps.drop_last()) + ps.last().cycle
    }
}

/// The sum of the attempt durations of the successful probes in `ps`.
pub open spec fn latency_sum(ps: Seq<ProbeRecord>) -> int
    decreases ps.len(),
{
    if ps.len() == 0 {
        0
    } else {
        latency_sum(ps.drop_last()) + if ps.last().ok { ps.last().elapsed } else { 0 }
    }
}

/// The start of the last probe in `ps` with outcome `ok`, if there is one.
pub open spec fn last_start_where(ps: Seq<ProbeRecord>, ok: bool) -> Option<int>
    decreases ps.len(),
{
    if ps.len() == 0 {
        None
    } else if ps.last().ok == ok {
        Some(ps.last().start)
    } else {
        last_start_where(ps.drop_last(), ok)
    }
}

/// After any sequence of probes, the two counters add up to the number of
/// probes taken.
pub proof fn lemma_probe_count(ps: Seq<ProbeRecord>)
    ensures
        Stats::initial().after_all(ps).succ_total + Stats::initial().after_all(ps).fail_total
            == ps.len(),
        Stats::initial().after_all(ps).succ_total == count_where(ps, true),
        Stats::initial().after_all(ps).fail_total == count_where(ps, false),
        Stats::initial().after_all(ps).succ_total >= 0,
        Stats::initial().after_all(ps).fail_total >= 0,
    decreases ps.len(),
{
    if ps.len() > 0 {
        lemma_probe_count(ps.drop_last());
    }
}

/// A success lengthens the success streak by one and ends the failure streak;
/// a failure does the reverse.
pub proof fn lemma_streak_step(s: Stats, p: ProbeRecord)
    ensures
        p.ok ==> s.step(p).succ_streak == s.succ_streak + 1 && s.step(p).fail_streak == 0,
        !p.ok ==> s.step(p).fail_streak == s.fail_streak + 1 && s.step(p).succ_streak == 0,
{
}

/// Each streak counts the probes at the end of the sequence that share its outcome.
pub proof fn lemma_streaks(ps: Seq<ProbeRecord>)
    ensures
        Stats::initial().after_all(ps).succ_streak == trailing_run(ps, true),
        Stats::initial().after_all(ps).fail_streak == trailing_run(ps, false),
    decreases ps.len(),
{
    if ps.len() > 0 {
        lemma_streaks(ps.drop_last());
    }
}

proof fn lemma_cycle_partition(ps: Seq<ProbeRecord>)
    ensures
        cycle_sum(ps, true) + cycle_sum(ps, false) == total_cycle(ps),
    decreases ps.len(),
{
    if ps.len() > 0 {
        lemma_cycle_partition(ps.drop_last());
    }
}

/// Uptime is the sum of the cycles of the successes, downtime that of the
/// failures, and together they are the sum of all cycles.
pub proof fn lemma_uptime_downtime(ps: Seq<ProbeRecord>)
    ensures
        Stats::initial().after_all(ps).uptime == cycle_sum(ps, true),
        Stats::initial().after_all(ps).downtime == cycle_sum(ps, false),
        Stats::initial().after_all(ps).uptime + Stats::initial().after_all(ps).downtime
            == total_cycle(ps),
    decreases ps.len(),
{
    lemma_cycle_partition(ps);
    if ps.len() > 0 {
        lemma_uptime_downtime(ps.drop_last());
    }
}

/// Every successful attempt lies between the minimum and the maximum latency,
/// both are attained by a success once there is one, and the latency sum is
/// the sum over the successes.
pub proof fn lemma_latency(ps: Seq<ProbeRecord>)
    requires
        forall|i: int| 0 <= i < ps.len() ==> (#[trigger] ps[i]).valid(),
    ensures
        ({
            let s = Stats::initial().after_all(ps);
            &&& forall|i: int|
                0 <= i < ps.len() && (#[trigger] ps[i]).ok
                    ==> s.min_latency <= ps[i].elapsed <= s.max_latency
            &&& s.sum_latency == latency_sum(ps)
            &&& s.succ_total > 0 ==> exists|i: int|
                0 <= i < ps.len() && (#[trigger] ps[i]).ok && ps[i].elapsed == s.min_latency
            &&& s.succ_total > 0 ==> exists|i: int|
                0 <= i < ps.len() && (#[trigger] ps[i]).ok && ps[i].elapsed == s.max_latency
            &&& s.succ_total == 0 ==> s.min_latency == u64::MAX && s.max_latency == 0
        }),
    decreases ps.len(),
{
    lemma_probe_count(ps);
    if ps.len() > 0 {
        let q = ps.drop_last();
        assert forall|i: int| 0 <= i < q.len() implies (#[trigger] q[i]).valid() by {
            assert(q[i] == ps[i]);
        }
        lemma_latency(q);
        lemma_probe_count(q);
        let s0 = Stats::initial().after_all(q);
        let s = Stats::initial().after_all(ps);
        let n = ps.len() - 1;
        assert(ps[n] == ps.last());
        assert(ps[n].valid());
        assert forall|i: int| 0 <= i < ps.len() && (#[trigger] ps[i]).ok
            implies s.min_latency <= ps[i].elapsed <= s.max_latency by {
            if i < n {
                assert(ps[i] == q[i]);
            }
        }
        if ps.last().ok {
            if s.min_latency != ps[n].elapsed {
                let j = choose|j: int| 0 <= j < q.len() && (#[trigger] q[j]).ok && q[j].elapsed == s0.min_latency;
                assert(ps[j] == q[j]);
            }
            if s.max_latency != ps[n].elapsed {
                let j = choose|j: int| 0 <= j < q.len() && (#[trigger] q[j]).ok && q[j].elapsed == s0.max_latency;
                assert(ps[j] == q[j]);
            }
        } else if s.succ_total > 0 {
            let j = choose|j: int| 0 <= j < q.len() && (#[trigger] q[j]).ok && q[j].elapsed == s0.min_latency;
            assert(ps[j] == q[j]);
            let k = choose|k: int| 0 <= k < q.len() && (#[trigger] q[k]).ok && q[k].elapsed == s0.max_latency;
            assert(ps[k] == q[k]);
        }
    }
}

/// The run starts at the start of the first probe and ends where the last
/// attempt ended; before any probe it has neither.
pub proof fn lemma_run_times(ps: Seq<ProbeRecord>)
    ensures
        ps.len() == 0 ==> Stats::initial().after_all(ps).run_start is None
            && Stats::initial().after_all(ps).run_end is None,
        ps.len() > 0 ==> Stats::initial().after_all(ps).run_start == Some(ps[0].start),
        ps.len() > 0 ==> Stats::initial().after_all(ps).run_end
            == Some(ps.last().start + ps.last().elapsed),
    decreases ps.len(),
{
    if ps.len() > 0 {
        lemma_run_times(ps.drop_last());
        if ps.len() > 1 {
            assert(ps.drop_last()[0] == ps[0]);
        }
    }
}

/// The last success and last failure times are the starts of the latest
/// probe with that outcome, whatever came after it.
pub proof fn lemma_last_times(ps: Seq<ProbeRecord>)
    ensures
        Stats::initial().after_all(ps).last_success == last_start_where(ps, true),
        Stats::initial().after_all(ps).last_failure == last_start_where(ps, false),
    decreases ps.len(),
{
    if ps.len() > 0 {
        lemma_last_times(ps.drop_last());
    }
}

} // verus!
