//! The polling loop's decisions: working through one batch of snapshots,
//! and what ends a tick. Taking the batch, waiting for the next tick and
//! delivering alerts are left to the caller.

use crate::collector::linux::{pids_of, process_views};
use crate::collector::{pid_list, pids_in, ProcessInfo, ProcessView};
use crate::config::GeneralConfig;
use crate::detector::laws::law_rings_stay_bounded;
use crate::detector::{alert_view, Alert, AlertView, AnomalyDetector, Detector, DetectorView};
use crate::protocol::StatusData;
use vstd::prelude::*;

verus! {

/// The detector after the first `times.len()` processes of
/// `processes[from..]` were checked in order, each at its time.
pub open spec fn checked(
    detector: DetectorView,
    processes: Seq<ProcessView>,
    from: int,
    times: Seq<u64>,
) -> DetectorView
    decreases times.len(),
{
    if times.len() == 0 {
        detector
    } else {
        checked(detector, processes, from, times.drop_last()).after_check(
            processes[from + times.len() - 1],
            times.last(),
        )
    }
}

/// The alert that check number `k` of such a run gives.
pub open spec fn alert_of(
    detector: DetectorView,
    processes: Seq<ProcessView>,
    from: int,
    times: Seq<u64>,
    k: int,
) -> Option<AlertView> {
    checked(detector, processes, from, times.take(k)).alert_for(processes[from + k], times[k])
}

/// One tick's batch and how far it has been worked through.
pub struct TickView {
    pub processes: Seq<ProcessView>,
    /// The number of processes checked so far.
    pub cursor: nat,
    /// Whether any check of this tick gave an alert.
    pub had_alert: bool,
}

/// Whether one call of `next_alert` that checked at the times `times` leads
/// from the tick `before` and the detector `detector` to the tick `after`,
/// the detector `left` and the result `alert`. The processes are checked in
/// batch order from the cursor on. The run stops behind the first check that
/// gives an alert, and returns that alert. A run that reaches the end of the
/// batch without one purges the histories of all pids that are not in the
/// batch and returns none.
pub open spec fn swept(
    before: TickView,
    detector: DetectorView,
    times: Seq<u64>,
    after: TickView,
    left: DetectorView,
    alert: Option<AlertView>,
) -> bool {
    let from = before.cursor as int;
    let run = checked(detector, before.processes, from, times);
    &&& after.processes == before.processes
    &&& after.cursor == from + times.len()
    &&& after.cursor <= before.processes.len()
    &&& after.had_alert == (before.had_alert || alert is Some)
    &&& forall|k: int|
        0 <= k < times.len() - 1 ==> alert_of(detector, before.processes, from, times, k) is None
    &&& match alert {
        Some(found) => {
            &&& times.len() > 0
            &&& alert_of(detector, before.processes, from, times, times.len() - 1) == Some(found)
            &&& left == run
        },
        None => {
            &&& after.cursor == before.processes.len()
            &&& times.len() > 0 ==> alert_of(
                detector,
                before.processes,
                from,
                times,
                times.len() - 1,
            ) is None
            &&& left == run.after_cleanup(pids_of(before.processes))
        },
    }
}

/// A pid that the batch of a tick does not hold has no history once the
/// tick has run to its end, whatever was known of it before.
pub proof fn law_tick_purges_absent_pids(
    before: TickView,
    detector: DetectorView,
    times: Seq<u64>,
    after: TickView,
    left: DetectorView,
    pid: u32,
)
    requires
        swept(before, detector, times, after, left, None),
        !pids_of(before.processes).contains(pid),
    ensures
        left.prior(pid) is None,
{
}

/// A run of checks changes neither the settings nor the whitelist, and
/// keeps every ring within its capacity.
pub proof fn law_run_keeps_settings(
    detector: DetectorView,
    processes: Seq<ProcessView>,
    from: int,
    times: Seq<u64>,
)
    ensures
        checked(detector, processes, from, times).config == detector.config,
        checked(detector, processes, from, times).whitelist == detector.whitelist,
        detector.valid() ==> checked(detector, processes, from, times).valid(),
    decreases times.len(),
{
    if times.len() > 0 {
        let earlier = checked(detector, processes, from, times.drop_last());
        law_run_keeps_settings(detector, processes, from, times.drop_last());
        if detector.valid() {
            law_rings_stay_bounded(
                earlier,
                processes[from + times.len() - 1],
                times.last(),
                Set::empty(),
                Seq::empty(),
            );
        }
    }
}

/// One tick's batch of snapshots, worked through from front to back.
pub struct Tick {
    processes: Vec<ProcessInfo>,
    cursor: usize,
    had_alert: bool,
}

impl View for Tick {
    type V = TickView;

    closed spec fn view(&self) -> TickView {
        TickView {
            processes: process_views(self.processes@),
            cursor: self.cursor as nat,
            had_alert: self.had_alert,
        }
    }
}

impl Tick {
    #[verifier::type_invariant]
    spec fn cursor_in_batch(&self) -> bool {
        self.cursor <= self.processes@.len()
    }

    /// The tick that is to work through `processes`.
    pub fn new(processes: Vec<ProcessInfo>) -> (tick: Tick)
        ensures
            tick@ == (TickView {
                processes: process_views(processes@),
                cursor: 0,
                had_alert: false,
            }),
    {
        Tick { processes, cursor: 0, had_alert: false }
    }

    /// The number of processes in the batch.
    pub fn monitored(&self) -> (count: usize)
        ensures
            count == self@.processes.len(),
    {
        self.processes.len()
    }

    /// Whether any check of this tick gave an alert so far.
    pub fn had_alert(&self) -> (had: bool)
        ensures
            had == self@.had_alert,
    {
        self.had_alert
    }

    /// Checks on from the cursor, at `fixed` where a time is given and at
    /// the time of the system clock, read anew for each check, where not.
    fn sweep(&mut self, detector: &mut AnomalyDetector, fixed: Option<u64>) -> (out: (
        Option<Alert>,
        Ghost<Seq<u64>>,
    ))
        ensures
            swept(
                old(self)@,
                old(detector)@,
                out.1@,
                final(self)@,
                final(detector)@,
                alert_view(out.0),
            ),
            fixed matches Some(now) ==> out.1@ == Seq::new(out.1@.len(), |i: int| now),
            old(detector)@.valid() ==> final(detector)@.valid(),
    {
        proof {
            use_type_invariant(&*self);
        }
        let ghost start = self.cursor as int;
        let ghost batch = process_views(self.processes@);
        let ghost mut times: Seq<u64> = Seq::empty();
        while self.cursor < self.processes.len()
            invariant
                self.processes == old(self).processes,
                self.had_alert == old(self).had_alert,
                batch == process_views(self.processes@),
                start == old(self).cursor,
                self.cursor == start + times.len(),
                self.cursor <= self.processes@.len(),
                detector@ == checked(old(detector)@, batch, start, times),
                forall|k: int|
                    0 <= k < times.len() ==> alert_of(old(detector)@, batch, start, times, k)
                        is None,
                fixed matches Some(now) ==> times == Seq::new(times.len(), |i: int| now),
                old(detector)@.valid() ==> detector@.valid(),
            decreases self.processes@.len() - self.cursor,
        {
            let ghost before = detector@;
            let ghost process = self.processes@[self.cursor as int]@;
            let ghost now: u64;
            let alert = match fixed {
                Some(time) => {
                    proof {
                        now = time;
                    }
                    detector.check_at(&self.processes[self.cursor], time)
                },
                None => {
                    let found = detector.check(&self.processes[self.cursor]);
                    proof {
                        now = choose|now: u64|
                            detector@ == #[trigger] before.after_check(process, now) && alert_view(
                                found,
                            ) == before.alert_for(process, now);
                    }
                    found
                },
            };
            proof {
                let grown = times.push(now);
                assert forall|k: int| 0 <= k < times.len() implies alert_of(
                    old(detector)@,
                    batch,
                    start,
                    grown,
                    k,
                ) is None by {
                    assert(grown.take(k) =~= times.take(k));
                    assert(alert_of(old(detector)@, batch, start, times, k) is None);
                }
                assert(grown.take(times.len() as int) =~= times);
                times = grown;
            }
            self.cursor = self.cursor + 1;
            match alert {
                Some(found) => {
                    self.had_alert = true;
                    return (Some(found), Ghost(times));
                },
                None => {},
            }
        }
        let pids = pids_in(&self.processes);
        proof {
            assert(pid_list(self.processes@) =~= batch.map_values(|p: ProcessView| p.pid));
        }
        detector.cleanup(pids.as_slice());
        (None, Ghost(times))
    }

    /// Checks on from the cursor, every process at the time `now`, up to
    /// and with the first process that gets an alert, and returns that
    /// alert. At the end of the batch the histories of the pids that the
    /// batch does not hold are purged, and `None` is returned.
    pub fn next_alert_at(&mut self, detector: &mut AnomalyDetector, now: u64) -> (alert: Option<
        Alert,
    >)
        ensures
            swept(
                old(self)@,
                old(detector)@,
                Seq::new((final(self)@.cursor - old(self)@.cursor) as nat, |i: int| now),
                final(self)@,
                final(detector)@,
                alert_view(alert),
            ),
            old(detector)@.valid() ==> final(detector)@.valid(),
    {
        let out = self.sweep(detector, Some(now));
        out.0
    }

    /// `next_alert_at` with the time of the system clock, read anew for
    /// each check: whatever the clock gave, the outcome is that of a run at
    /// those times.
    pub fn next_alert(&mut self, detector: &mut AnomalyDetector) -> (alert: Option<Alert>)
        ensures
            exists|times: Seq<u64>| #[trigger]
                swept(
                    old(self)@,
                    old(detector)@,
                    times,
                    final(self)@,
                    final(detector)@,
                    alert_view(alert),
                ),
            old(detector)@.valid() ==> final(detector)@.valid(),
    {
        let out = self.sweep(detector, None);
        out.0
    }
}

/// The configured interval between ticks, in seconds, of a mode: the alert
/// cadence in alert mode, the normal cadence otherwise.
pub open spec fn cadence(in_alert_mode: bool, general: GeneralConfig) -> u64 {
    if in_alert_mode {
        general.sample_interval_alert
    } else {
        general.sample_interval_normal
    }
}

/// The new interval between ticks, in seconds, where the cadence changes
/// at the end of a tick: the alert cadence when a tick with an alert follows
/// one without, the normal cadence when a tick without an alert follows one
/// with. No change otherwise.
pub open spec fn cadence_change(
    in_alert_mode: bool,
    had_alert: bool,
    general: GeneralConfig,
) -> Option<u64> {
    if had_alert && !in_alert_mode {
        Some(general.sample_interval_alert)
    } else if !had_alert && in_alert_mode {
        Some(general.sample_interval_normal)
    } else {
        None
    }
}

/// The interval in force once the end of a tick has been applied to the
/// interval `interval` in force before it.
pub open spec fn interval_after(interval: u64, new_interval: Option<u64>) -> u64 {
    match new_interval {
        Some(seconds) => seconds,
        None => interval,
    }
}

/// Ticks are spaced by the configured cadence of the mode the loop is in:
/// where that holds before a tick ends, it holds after it, for the same
/// settings. A change of mode and a change of interval come together.
pub proof fn law_interval_follows_mode(
    in_alert_mode: bool,
    had_alert: bool,
    general: GeneralConfig,
    interval: u64,
)
    requires
        interval == cadence(in_alert_mode, general),
    ensures
        interval_after(interval, cadence_change(in_alert_mode, had_alert, general)) == cadence(
            had_alert,
            general,
        ),
        cadence_change(in_alert_mode, had_alert, general) is Some <==> in_alert_mode != had_alert,
{
}

/// The number of processes as the status reports it: the low 32 bits.
pub open spec fn reported_count(count: nat) -> u32 {
    (count % 0x1_0000_0000) as u32
}

/// What ends a tick: the status to publish, and the new interval between
/// ticks where the cadence changes.
#[derive(Debug, Clone, Copy, PartialEq, Eq)]
pub struct TickEnd {
    pub status: StatusData,
    pub new_interval: Option<u64>,
}

/// The state of the polling loop that outlives a tick.
#[derive(Debug)]
pub struct Monitor {
    in_alert_mode: bool,
    alert_count: u32,
}

impl Monitor {
    /// Whether the last tick gave an alert.
    pub closed spec fn alert_mode(&self) -> bool {
        self.in_alert_mode
    }

    /// The number of alerts delivered so far.
    pub closed spec fn alerts(&self) -> u32 {
        self.alert_count
    }

    /// The state before the first tick: no alert yet, normal cadence.
    pub fn new() -> (monitor: Monitor)
        ensures
            !monitor.alert_mode(),
            monitor.alerts() == 0,
    {
        Monitor { in_alert_mode: false, alert_count: 0 }
    }

    /// The interval between ticks, in seconds, with which the loop starts:
    /// the configured normal cadence.
    pub fn first_interval(general: &GeneralConfig) -> (seconds: u64)
        ensures
            seconds == general.sample_interval_normal,
    {
        general.sample_interval_normal
    }

    /// Whether the last tick gave an alert.
    pub fn in_alert_mode(&self) -> (mode: bool)
        ensures
            mode == self.alert_mode(),
    {
        self.in_alert_mode
    }

    /// The number of alerts delivered so far.
    pub fn alert_count(&self) -> (count: u32)
        ensures
            count == self.alerts(),
    {
        self.alert_count
    }

    /// Counts one delivered alert. The count stops at the largest number it
    /// can hold.
    pub fn record_alert(&mut self)
        ensures
            final(self).alert_mode() == old(self).alert_mode(),
            final(self).alerts() == if old(self).alerts() < u32::MAX {
                (old(self).alerts() + 1) as u32
            } else {
                u32::MAX
            },
    {
        if self.alert_count < u32::MAX {
            self.alert_count = self.alert_count + 1;
        }
    }

    /// Ends the tick `tick`: the loop is in alert mode from now on exactly
    /// if the tick gave an alert, the cadence changes as `cadence_change`
    /// says, and the status tells the size of the batch and the alerts
    /// delivered so far.
    pub fn finish(&mut self, tick: &Tick, general: &GeneralConfig) -> (end: TickEnd)
        ensures
            final(self).alert_mode() == tick@.had_alert,
            final(self).alerts() == old(self).alerts(),
            end.new_interval == cadence_change(old(self).alert_mode(), tick@.had_alert, *general),
            end.status == (StatusData {
                monitored_count: reported_count(tick@.processes.len()),
                alert_count: old(self).alerts(),
            }),
    {
        let had_alert: bool = tick.had_alert();
        let new_interval: Option<u64> = if had_alert && !self.in_alert_mode {
            Some(general.sample_interval_alert)
        } else if !had_alert && self.in_alert_mode {
            Some(general.sample_interval_normal)
        } else {
            None
        };
        self.in_alert_mode = had_alert;
        let count: u64 = tick.monitored() as u64;
        TickEnd {
            status: StatusData {
                monitored_count: (count % 0x1_0000_0000) as u32,
                alert_count: self.alert_count,
            },
            new_interval,
        }
    }
}

} // verus!
