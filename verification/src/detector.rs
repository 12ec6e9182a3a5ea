//! Anomaly detection: turns a stream of process snapshots into alerts that
//! are gated by how long a condition has lasted.

use crate::clock::{seconds_or_zero, unix_seconds};
use crate::collector::{ProcessInfo, ProcessView, BYTES_PER_MB, MILLIPERCENT_PER_PERCENT};
use crate::config::{
    CpuDetectionConfig, DetectionConfig, HangDetectionConfig, MemoryDetectionConfig,
};
use crate::purge::retain_pids;
use crate::text::{chars_of, contains_chars, is_substring, same_text};
use std::collections::HashMap;
use vstd::prelude::*;

pub mod laws;

verus! {

broadcast use vstd::std_specs::hash::group_hash_axioms;

/// How many memory samples are kept for one process.
pub const HISTORY_CAPACITY: usize = 60;

/// Why an alert was raised.
#[derive(Debug, Clone, Copy, PartialEq, Eq)]
pub enum AlertReason {
    CpuHigh,
    Hang,
    MemoryLeak,
    Timeout,
}

/// How serious an alert is.
#[derive(Debug, Clone, Copy, PartialEq, Eq)]
pub enum Severity {
    Warning,
    Critical,
}

impl AlertReason {
    /// The name of the reason on the wire and in the store.
    pub open spec fn label(self) -> Seq<char> {
        match self {
            AlertReason::CpuHigh => "cpu_high"@,
            AlertReason::Hang => "hang"@,
            AlertReason::MemoryLeak => "memory_leak"@,
            AlertReason::Timeout => "timeout"@,
        }
    }

    /// The name of the reason on the wire and in the store.
    pub fn as_str(self) -> (name: &'static str)
        ensures
            name@ == self.label(),
    {
        match self {
            AlertReason::CpuHigh => "cpu_high",
            AlertReason::Hang => "hang",
            AlertReason::MemoryLeak => "memory_leak",
            AlertReason::Timeout => "timeout",
        }
    }
}

impl Severity {
    /// The name of the severity on the wire and in the store.
    pub open spec fn label(self) -> Seq<char> {
        match self {
            Severity::Warning => "warning"@,
            Severity::Critical => "critical"@,
        }
    }

    /// The name of the severity on the wire and in the store.
    pub fn as_str(self) -> (name: &'static str)
        ensures
            name@ == self.label(),
    {
        match self {
            Severity::Warning => "warning",
            Severity::Critical => "critical",
        }
    }
}

/// One finding about one process.
#[derive(Debug, Clone)]
pub struct Alert {
    pub pid: u32,
    pub name: String,
    pub cmdline: String,
    pub reason: AlertReason,
    pub severity: Severity,
    pub timestamp: u64,
}

/// What an `Alert` holds, as plain values.
pub struct AlertView {
    pub pid: u32,
    pub name: Seq<char>,
    pub cmdline: Seq<char>,
    pub reason: AlertReason,
    pub severity: Severity,
    pub timestamp: u64,
}

impl View for Alert {
    type V = AlertView;

    open spec fn view(&self) -> AlertView {
        AlertView {
            pid: self.pid,
            name: self.name@,
            cmdline: self.cmdline@,
            reason: self.reason,
            severity: self.severity,
            timestamp: self.timestamp,
        }
    }
}

/// The view of an optional alert.
pub open spec fn alert_view(alert: Option<Alert>) -> Option<AlertView> {
    match alert {
        Some(a) => Some(a@),
        None => None,
    }
}

/// The metrics of one poll of one process that detection reads, and the time
/// of the poll in seconds.
pub struct Reading {
    pub cpu_millipercent: u64,
    pub memory_bytes: u64,
    pub state: char,
    pub now: u64,
}

/// The reading that a snapshot taken at `now` gives.
pub open spec fn reading_of(process: ProcessView, now: u64) -> Reading {
    Reading {
        cpu_millipercent: process.cpu_millipercent,
        memory_bytes: process.memory_bytes,
        state: process.state,
        now,
    }
}

/// What the detector remembers of one process between polls.
pub struct HistoryView {
    pub first_seen: u64,
    pub last_state: char,
    pub state_unchanged_since: u64,
    /// `(time, memory in bytes)`, oldest first.
    pub memory_samples: Seq<(u64, u64)>,
    pub cpu_high_since: Option<u64>,
}

/// The history of a process on its first sighting.
pub open spec fn first_sighting(state: char, now: u64) -> HistoryView {
    HistoryView {
        first_seen: now,
        last_state: state,
        state_unchanged_since: now,
        memory_samples: Seq::empty(),
        cpu_high_since: None,
    }
}

/// Appends a sample to the ring and evicts the oldest one on overflow.
pub open spec fn ring_push(samples: Seq<(u64, u64)>, sample: (u64, u64)) -> Seq<(u64, u64)> {
    let grown = samples.push(sample);
    if grown.len() > HISTORY_CAPACITY {
        grown.remove(0)
    } else {
        grown
    }
}

/// The history after a reading was taken in and before any check ran: a
/// change of state restarts the unchanged-timer, and the memory sample joins
/// the ring.
pub open spec fn observed(prior: Option<HistoryView>, reading: Reading) -> HistoryView {
    let base = match prior {
        Some(h) => h,
        None => first_sighting(reading.state, reading.now),
    };
    let changed = base.last_state != reading.state;
    HistoryView {
        first_seen: base.first_seen,
        last_state: reading.state,
        state_unchanged_since: if changed {
            reading.now
        } else {
            base.state_unchanged_since
        },
        memory_samples: ring_push(base.memory_samples, (reading.now, reading.memory_bytes)),
        cpu_high_since: base.cpu_high_since,
    }
}

/// No alert below `base`, a warning from `base` on, critical from twice
/// `base` on.
pub open spec fn severity_for(amount: int, base: int) -> Option<Severity> {
    if amount >= base {
        Some(
            if amount >= 2 * base {
                Severity::Critical
            } else {
                Severity::Warning
            },
        )
    } else {
        None
    }
}

/// Whether a CPU reading is at or above the configured threshold.
pub open spec fn cpu_is_high(config: CpuDetectionConfig, cpu_millipercent: u64) -> bool {
    cpu_millipercent >= config.threshold_percent * MILLIPERCENT_PER_PERCENT
}

/// The start of the high-CPU streak after a reading: kept while the reading
/// is high, set to `now` when a streak begins, cleared by any reading below
/// the threshold. Untouched while the check is disabled.
pub open spec fn cpu_streak(
    config: CpuDetectionConfig,
    since: Option<u64>,
    cpu_millipercent: u64,
    now: u64,
) -> Option<u64> {
    if !config.enabled {
        since
    } else if cpu_is_high(config, cpu_millipercent) {
        match since {
            Some(start) => Some(start),
            None => Some(now),
        }
    } else {
        None
    }
}

/// The CPU check: alerts once the streak has lasted `duration_seconds`.
pub open spec fn cpu_verdict(
    config: CpuDetectionConfig,
    since: Option<u64>,
    cpu_millipercent: u64,
    now: u64,
) -> Option<Severity> {
    if config.enabled && cpu_is_high(config, cpu_millipercent) {
        let start = cpu_streak(config, since, cpu_millipercent, now).unwrap();
        severity_for(now - start, config.duration_seconds as int)
    } else {
        None
    }
}

/// Whether a state code means blocked (`D`) or stopped (`T`).
pub open spec fn is_hang_state(state: char) -> bool {
    state == 'D' || state == 'T'
}

/// The hang check: alerts once a blocked or stopped state has been held
/// unchanged for `duration_seconds`.
pub open spec fn hang_verdict(
    config: HangDetectionConfig,
    state: char,
    unchanged_since: u64,
    now: u64,
) -> Option<Severity> {
    if config.enabled && is_hang_state(state) {
        severity_for(now - unchanged_since, config.duration_seconds as int)
    } else {
        None
    }
}

/// The earliest time that still lies in the trailing memory window.
pub open spec fn window_cutoff(config: MemoryDetectionConfig, now: u64) -> int {
    if now >= config.window_minutes * 60 {
        now - config.window_minutes * 60
    } else {
        0
    }
}

/// The samples taken at or after `cutoff`, oldest first.
pub open spec fn in_window(samples: Seq<(u64, u64)>, cutoff: int) -> Seq<(u64, u64)> {
    samples.filter(|s: (u64, u64)| s.0 >= cutoff)
}

/// The memory check: with at least two samples in the window, alerts when
/// the current memory exceeds the oldest in-window sample by `growth_mb`.
pub open spec fn memory_verdict(
    config: MemoryDetectionConfig,
    samples: Seq<(u64, u64)>,
    memory_bytes: u64,
    now: u64,
) -> Option<Severity> {
    let window = in_window(samples, window_cutoff(config, now));
    if config.enabled && window.len() >= 2 {
        severity_for(memory_bytes - window[0].1, config.growth_mb * BYTES_PER_MB)
    } else {
        None
    }
}

/// The finding of one check: its reason with the severity it gave, if any.
pub open spec fn tagged(reason: AlertReason, severity: Option<Severity>) -> Option<
    (AlertReason, Severity),
> {
    match severity {
        Some(found) => Some((reason, found)),
        None => None,
    }
}

/// The first finding in the fixed order CPU, hang, memory. `history` is the
/// history as `observed`: the hang and memory checks never see what the CPU
/// check of the same poll changes.
pub open spec fn verdict(config: DetectionConfig, history: HistoryView, reading: Reading) -> Option<
    (AlertReason, Severity),
> {
    let cpu = cpu_verdict(
        config.cpu,
        history.cpu_high_since,
        reading.cpu_millipercent,
        reading.now,
    );
    let hang = hang_verdict(
        config.hang,
        reading.state,
        history.state_unchanged_since,
        reading.now,
    );
    let memory = memory_verdict(
        config.memory,
        history.memory_samples,
        reading.memory_bytes,
        reading.now,
    );
    if cpu is Some {
        Some((AlertReason::CpuHigh, cpu.unwrap()))
    } else if hang is Some {
        Some((AlertReason::Hang, hang.unwrap()))
    } else if memory is Some {
        Some((AlertReason::MemoryLeak, memory.unwrap()))
    } else {
        None
    }
}

/// The history that one poll leaves behind.
pub open spec fn next_history(
    config: DetectionConfig,
    prior: Option<HistoryView>,
    reading: Reading,
) -> HistoryView {
    let seen = observed(prior, reading);
    HistoryView {
        cpu_high_since: cpu_streak(
            config.cpu,
            seen.cpu_high_since,
            reading.cpu_millipercent,
            reading.now,
        ),
        ..seen
    }
}

/// The finding of one poll.
pub open spec fn finding(config: DetectionConfig, prior: Option<HistoryView>, reading: Reading) -> Option<
    (AlertReason, Severity),
> {
    verdict(config, observed(prior, reading), reading)
}

/// The alert that a check returns for the finding `found`.
pub open spec fn alert_with(
    process: ProcessView,
    now: u64,
    found: Option<(AlertReason, Severity)>,
) -> Option<AlertView> {
    match found {
        Some((reason, severity)) => Some(
            AlertView {
                pid: process.pid,
                name: process.name,
                cmdline: process.cmdline,
                reason,
                severity,
                timestamp: now,
            },
        ),
        None => None,
    }
}

/// Whether some pattern of the whitelist is a substring of `name`.
pub open spec fn whitelisted(whitelist: Seq<Seq<char>>, name: Seq<char>) -> bool {
    exists|i: int| 0 <= i < whitelist.len() && is_substring(#[trigger] whitelist[i], name)
}

/// The state of a detector: its settings, the history of every process it
/// follows, and the whitelisted name patterns.
pub struct DetectorView {
    pub config: DetectionConfig,
    pub history: Map<u32, HistoryView>,
    pub whitelist: Seq<Seq<char>>,
}

impl DetectorView {
    /// No ring holds more than `HISTORY_CAPACITY` samples.
    pub open spec fn valid(self) -> bool {
        forall|pid: u32| #[trigger]
            self.history.contains_key(pid) ==> self.history[pid].memory_samples.len()
                <= HISTORY_CAPACITY
    }

    /// The history kept for `pid`, if any.
    pub open spec fn prior(self, pid: u32) -> Option<HistoryView> {
        if self.history.contains_key(pid) {
            Some(self.history[pid])
        } else {
            None
        }
    }

    /// The state after `check` was given `process` at time `now`. A
    /// whitelisted process leaves the state as it was.
    pub open spec fn after_check(self, process: ProcessView, now: u64) -> DetectorView {
        if whitelisted(self.whitelist, process.name) {
            self
        } else {
            DetectorView {
                history: self.history.insert(
                    process.pid,
                    next_history(self.config, self.prior(process.pid), reading_of(process, now)),
                ),
                ..self
            }
        }
    }

    /// The alert that `check` returns for `process` at time `now`.
    pub open spec fn alert_for(self, process: ProcessView, now: u64) -> Option<AlertView> {
        if whitelisted(self.whitelist, process.name) {
            None
        } else {
            alert_with(
                process,
                now,
                finding(self.config, self.prior(process.pid), reading_of(process, now)),
            )
        }
    }

    /// The state after the histories of all pids outside `active` were purged.
    pub open spec fn after_cleanup(self, active: Set<u32>) -> DetectorView {
        DetectorView { history: self.history.restrict(active), ..self }
    }

    /// The state after `pattern` was whitelisted: a pattern that is already
    /// listed is not listed twice.
    pub open spec fn with_pattern(self, pattern: Seq<char>) -> DetectorView {
        if self.whitelist.contains(pattern) {
            self
        } else {
            DetectorView { whitelist: self.whitelist.push(pattern), ..self }
        }
    }
}

/// The state that the detector keeps of one process between polls.
pub struct ProcessHistory {
    first_seen: u64,
    last_state: char,
    state_unchanged_since: u64,
    memory_samples: Vec<(u64, u64)>,
    cpu_high_since: Option<u64>,
}

impl View for ProcessHistory {
    type V = HistoryView;

    closed spec fn view(&self) -> HistoryView {
        HistoryView {
            first_seen: self.first_seen,
            last_state: self.last_state,
            state_unchanged_since: self.state_unchanged_since,
            memory_samples: self.memory_samples@,
            cpu_high_since: self.cpu_high_since,
        }
    }
}

impl ProcessHistory {
    /// The history of a process that is seen for the first time, in the
    /// state `state` at the time `now`.
    pub fn new(state: char, now: u64) -> (history: ProcessHistory)
        ensures
            history@ == first_sighting(state, now),
    {
        ProcessHistory {
            first_seen: now,
            last_state: state,
            state_unchanged_since: now,
            memory_samples: Vec::new(),
            cpu_high_since: None,
        }
    }

    /// Takes in the snapshot of one poll, before any check runs: a change
    /// of state restarts the unchanged-timer, and the memory sample joins
    /// the ring, from which it evicts the oldest sample on overflow.
    pub fn observe(&mut self, process: &ProcessInfo, now: u64)
        ensures
            final(self)@ == observed(Some(old(self)@), reading_of(process@, now)),
    {
        if self.last_state != process.state {
            self.last_state = process.state;
            self.state_unchanged_since = now;
        }
        self.memory_samples.push((now, process.memory_bytes));
        if self.memory_samples.len() > HISTORY_CAPACITY {
            self.memory_samples.remove(0);
        }
    }

    /// A copy of the history, as the hang and memory checks are given it:
    /// taken before the CPU check touches the live history.
    pub fn snapshot(&self) -> (copy: ProcessHistory)
        ensures
            copy@ == self@,
    {
        let mut samples: Vec<(u64, u64)> = Vec::new();
        let mut i: usize = 0;
        while i < self.memory_samples.len()
            invariant
                i <= self.memory_samples@.len(),
                samples@ == self.memory_samples@.take(i as int),
            decreases self.memory_samples@.len() - i,
        {
            samples.push(self.memory_samples[i]);
            i += 1;
        }
        assert(samples@ =~= self.memory_samples@);
        ProcessHistory {
            first_seen: self.first_seen,
            last_state: self.last_state,
            state_unchanged_since: self.state_unchanged_since,
            memory_samples: samples,
            cpu_high_since: self.cpu_high_since,
        }
    }
}

/// The alert that tells of `process` at the time `now`.
fn alert_of(process: &ProcessInfo, now: u64, reason: AlertReason, severity: Severity) -> (alert:
    Alert)
    ensures
        Some(alert@) == alert_with(process@, now, Some((reason, severity))),
{
    Alert {
        pid: process.pid,
        name: process.name.clone(),
        cmdline: process.cmdline.clone(),
        reason,
        severity,
        timestamp: now,
    }
}

/// The severity of a measured `amount` against the threshold `base`.
fn grade(amount: u64, base: u64) -> (severity: Option<Severity>)
    ensures
        severity == severity_for(amount as int, base as int),
{
    if amount >= base {
        if amount - base >= base {
            Some(Severity::Critical)
        } else {
            Some(Severity::Warning)
        }
    } else {
        None
    }
}

/// The anomaly detector: combines the CPU, hang and memory checks.
pub struct AnomalyDetector {
    config: DetectionConfig,
    history: HashMap<u32, ProcessHistory>,
    whitelisted_names: Vec<String>,
}

impl View for AnomalyDetector {
    type V = DetectorView;

    closed spec fn view(&self) -> DetectorView {
        DetectorView {
            config: self.config,
            history: self.history@.map_values(|h: ProcessHistory| h@),
            whitelist: self.whitelisted_names@.map_values(|s: String| s@),
        }
    }
}

impl AnomalyDetector {
    /// A detector with the given settings, no history and an empty whitelist.
    pub fn new(config: DetectionConfig) -> (detector: AnomalyDetector)
        ensures
            detector@.config == config,
            detector@.history == Map::<u32, HistoryView>::empty(),
            detector@.whitelist == Seq::<Seq<char>>::empty(),
            detector@.valid(),
    {
        let detector = AnomalyDetector {
            config,
            history: HashMap::new(),
            whitelisted_names: Vec::new(),
        };
        detector
    }

    /// Whitelists every process whose name contains `name`.
    pub fn add_whitelist(&mut self, name: String)
        ensures
            final(self)@ == old(self)@.with_pattern(name@),
            old(self)@.valid() ==> final(self)@.valid(),
    {
        let mut i: usize = 0;
        while i < self.whitelisted_names.len()
            invariant
                i <= self.whitelisted_names@.len(),
                *self == *old(self),
                forall|j: int| 0 <= j < i ==> self@.whitelist[j] != name@,
            decreases self.whitelisted_names@.len() - i,
        {
            if same_text(self.whitelisted_names[i].as_str(), name.as_str()) {
                assert(self@.whitelist[i as int] == name@);
                return ;
            }
            i += 1;
        }
        self.whitelisted_names.push(name);
        assert(final(self)@.whitelist =~= old(self)@.whitelist.push(name@));
    }

    /// Whether a process of this name is exempt from detection.
    pub fn is_whitelisted(&self, name: &str) -> (exempt: bool)
        ensures
            exempt == whitelisted(self@.whitelist, name@),
    {
        let hay = chars_of(name);
        let mut i: usize = 0;
        while i < self.whitelisted_names.len()
            invariant
                i <= self.whitelisted_names@.len(),
                hay@ == name@,
                forall|j: int| 0 <= j < i ==> !is_substring(#[trigger] self@.whitelist[j], name@),
            decreases self.whitelisted_names@.len() - i,
        {
            let pattern = chars_of(self.whitelisted_names[i].as_str());
            if contains_chars(&hay, &pattern) {
                assert(is_substring(self@.whitelist[i as int], name@));
                return true;
            }
            i += 1;
        }
        false
    }

    /// The current time in seconds since the Unix epoch, 0 where the clock
    /// cannot be read.
    fn now() -> u64 {
        seconds_or_zero(unix_seconds())
    }

    /// The CPU check at the time `now`. It alone changes the live history:
    /// a reading at or above the threshold starts the high-CPU streak or
    /// keeps it, a reading below clears it. It alerts once the streak has
    /// lasted `duration_seconds`, critically from twice that on.
    pub fn check_cpu(&self, process: &ProcessInfo, history: &mut ProcessHistory, now: u64) -> (alert:
        Option<Alert>)
        ensures
            final(history)@ == (HistoryView {
                cpu_high_since: cpu_streak(
                    self@.config.cpu,
                    old(history)@.cpu_high_since,
                    process.cpu_millipercent,
                    now,
                ),
                ..old(history)@
            }),
            alert_view(alert) == alert_with(
                process@,
                now,
                tagged(
                    AlertReason::CpuHigh,
                    cpu_verdict(
                        self@.config.cpu,
                        old(history)@.cpu_high_since,
                        process.cpu_millipercent,
                        now,
                    ),
                ),
            ),
    {
        if !self.config.cpu.enabled {
            return None;
        }
        let threshold: u64 = self.config.cpu.threshold_percent as u64 * MILLIPERCENT_PER_PERCENT;
        if process.cpu_millipercent >= threshold {
            let start: u64 = match history.cpu_high_since {
                Some(since) => since,
                None => now,
            };
            history.cpu_high_since = Some(start);
            if now >= start {
                match grade(now - start, self.config.cpu.duration_seconds) {
                    Some(severity) => Some(alert_of(process, now, AlertReason::CpuHigh, severity)),
                    None => None,
                }
            } else {
                None
            }
        } else {
            history.cpu_high_since = None;
            None
        }
    }

    /// The hang check at the time `now`: it alerts once a blocked or
    /// stopped state has been held unchanged for `duration_seconds`,
    /// critically from twice that on.
    pub fn check_hang(&self, process: &ProcessInfo, history: &ProcessHistory, now: u64) -> (alert:
        Option<Alert>)
        ensures
            alert_view(alert) == alert_with(
                process@,
                now,
                tagged(
                    AlertReason::Hang,
                    hang_verdict(
                        self@.config.hang,
                        process.state,
                        history@.state_unchanged_since,
                        now,
                    ),
                ),
            ),
    {
        if !self.config.hang.enabled {
            return None;
        }
        if process.state == 'D' || process.state == 'T' {
            if now >= history.state_unchanged_since {
                match grade(now - history.state_unchanged_since, self.config.hang.duration_seconds) {
                    Some(severity) => Some(alert_of(process, now, AlertReason::Hang, severity)),
                    None => None,
                }
            } else {
                None
            }
        } else {
            None
        }
    }

    /// The memory check at the time `now`: with at least two samples in the
    /// trailing window, it alerts when the memory of `process` exceeds the
    /// oldest sample in the window by `growth_mb` mebibytes, critically
    /// from twice that growth on.
    pub fn check_memory_leak(&self, process: &ProcessInfo, history: &ProcessHistory, now: u64) -> (alert:
        Option<Alert>)
        ensures
            alert_view(alert) == alert_with(
                process@,
                now,
                tagged(
                    AlertReason::MemoryLeak,
                    memory_verdict(
                        self@.config.memory,
                        history@.memory_samples,
                        process.memory_bytes,
                        now,
                    ),
                ),
            ),
    {
        if !self.config.memory.enabled {
            return None;
        }
        let cutoff: u64 = if self.config.memory.window_minutes <= u64::MAX / 60 {
            let window: u64 = self.config.memory.window_minutes * 60;
            if now >= window {
                now - window
            } else {
                0
            }
        } else {
            0
        };
        let samples = &history.memory_samples;
        let mut seen: usize = 0;
        let mut oldest: u64 = 0;
        let mut i: usize = 0;
        while i < samples.len()
            invariant
                i <= samples@.len(),
                seen <= i,
                seen == in_window(samples@.take(i as int), cutoff as int).len(),
                seen > 0 ==> oldest == in_window(samples@.take(i as int), cutoff as int)[0].1,
            decreases samples@.len() - i,
        {
            proof {
                let grown = samples@.take(i + 1);
                assert(grown.drop_last() =~= samples@.take(i as int));
                reveal(Seq::filter);
            }
            if samples[i].0 >= cutoff {
                if seen == 0 {
                    oldest = samples[i].1;
                }
                seen += 1;
            }
            i += 1;
        }
        assert(samples@.take(i as int) =~= samples@);
        if seen < 2 {
            return None;
        }
        if process.memory_bytes < oldest {
            return None;
        }
        if self.config.memory.growth_mb > u64::MAX / BYTES_PER_MB {
            return None;
        }
        match grade(process.memory_bytes - oldest, self.config.memory.growth_mb * BYTES_PER_MB) {
            Some(severity) => Some(alert_of(process, now, AlertReason::MemoryLeak, severity)),
            None => None,
        }
    }

    /// Purges the history of every process that is not in `active_pids`.
    pub fn cleanup(&mut self, active_pids: &[u32])
        ensures
            final(self)@ == old(self)@.after_cleanup(active_pids@.to_set()),
            old(self)@.valid() ==> final(self)@.valid(),
    {
        retain_pids(&mut self.history, active_pids);
        proof {
            assert(final(self)@.history =~= old(self)@.history.restrict(active_pids@.to_set()));
        }
    }

    /// `check` at a given time: the whitelist filter, the history update and
    /// the three checks in their fixed order, as `DetectorView::after_check`
    /// and `DetectorView::alert_for` say.
    pub fn check_at(&mut self, process: &ProcessInfo, now: u64) -> (alert: Option<Alert>)
        ensures
            final(self)@ == old(self)@.after_check(process@, now),
            alert_view(alert) == old(self)@.alert_for(process@, now),
            old(self)@.valid() ==> final(self)@.valid(),
    {
        if self.is_whitelisted(process.name.as_str()) {
            return None;
        }
        let mut history = match self.history.remove(&process.pid) {
            Some(found) => found,
            None => ProcessHistory::new(process.state, now),
        };
        history.observe(process, now);
        let seen = history.snapshot();
        let alert = match self.check_cpu(process, &mut history, now) {
            Some(found) => Some(found),
            None => match self.check_hang(process, &seen, now) {
                Some(found) => Some(found),
                None => self.check_memory_leak(process, &seen, now),
            },
        };
        self.history.insert(process.pid, history);
        proof {
            assert(final(self)@.history =~= old(self)@.after_check(process@, now).history);
        }
        alert
    }
}

/// Anything that can judge a process snapshot.
pub trait Detector: Send + Sync {
    /// Takes in one snapshot of one process and reports at most one alert.
    fn check(&mut self, process: &ProcessInfo) -> Option<Alert>;
}

impl Detector for AnomalyDetector {
    /// `check_at` at the time the system clock gives: whatever that time is,
    /// the new state and the alert are those of `check_at` for it.
    fn check(&mut self, process: &ProcessInfo) -> (alert: Option<Alert>)
        ensures
            exists|now: u64|
                final(self)@ == #[trigger] old(self)@.after_check(process@, now) && alert_view(
                    alert,
                ) == old(self)@.alert_for(process@, now),
            old(self)@.valid() ==> final(self)@.valid(),
    {
        let now: u64 = AnomalyDetector::now();
        self.check_at(process, now)
    }
}

} // verus!
