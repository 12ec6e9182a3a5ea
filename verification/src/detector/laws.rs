//! What holds of the detector over whole runs of polls.

use crate::collector::{ProcessView, BYTES_PER_MB};
use crate::config::{
    CpuDetectionConfig, DetectionConfig, HangDetectionConfig, MemoryDetectionConfig,
};
use crate::detector::{
    alert_with, cpu_is_high, cpu_streak, cpu_verdict, finding, hang_verdict, in_window,
    is_hang_state, memory_verdict, next_history, observed, reading_of, ring_push, severity_for,
    whitelisted, window_cutoff, AlertReason, DetectorView, HistoryView, Reading, Severity,
    HISTORY_CAPACITY,
};
use crate::text::is_substring;
use vstd::prelude::*;

verus! {

/// The history of one process after the polls `readings`, oldest first,
/// the first of them being its first sighting. `None` before any poll.
pub open spec fn history_after(config: DetectionConfig, readings: Seq<Reading>) -> Option<
    HistoryView,
>
    decreases readings.len(),
{
    if readings.len() == 0 {
        None
    } else {
        Some(
            next_history(config, history_after(config, readings.drop_last()), readings.last()),
        )
    }
}

/// The finding of the last poll of `readings`.
pub open spec fn last_finding(config: DetectionConfig, readings: Seq<Reading>) -> Option<
    (AlertReason, Severity),
>
    recommends
        readings.len() > 0,
{
    finding(config, history_after(config, readings.drop_last()), readings.last())
}

/// The index at which the unbroken run of high-CPU polls that ends with the
/// last poll began; `readings.len()` where the last poll is not high.
pub open spec fn streak_start(config: CpuDetectionConfig, readings: Seq<Reading>) -> int
    decreases readings.len(),
{
    if readings.len() == 0 {
        0
    } else if !cpu_is_high(config, readings.last().cpu_millipercent) {
        readings.len() as int
    } else {
        streak_start(config, readings.drop_last())
    }
}

/// The index of the poll at which the process entered the state that the
/// last poll reports and has held since.
pub open spec fn state_run_start(readings: Seq<Reading>) -> int
    decreases readings.len(),
{
    if readings.len() <= 1 {
        0
    } else if readings[readings.len() - 2].state != readings.last().state {
        readings.len() - 1
    } else {
        state_run_start(readings.drop_last())
    }
}

/// The memory sample that a poll contributes.
pub open spec fn sample_of(reading: Reading) -> (u64, u64) {
    (reading.now, reading.memory_bytes)
}

/// The samples of the newest `HISTORY_CAPACITY` polls, oldest first.
pub open spec fn newest_samples(readings: Seq<Reading>) -> Seq<(u64, u64)> {
    let first = if readings.len() > HISTORY_CAPACITY {
        readings.len() - HISTORY_CAPACITY
    } else {
        0
    };
    Seq::new((readings.len() - first) as nat, |i: int| sample_of(readings[first + i]))
}

/// `streak_start` picks the start of the last unbroken high run: every poll
/// from it on is high, and the poll before it, if any, is not.
pub proof fn lemma_streak_start(config: CpuDetectionConfig, readings: Seq<Reading>)
    ensures
        0 <= streak_start(config, readings) <= readings.len(),
        forall|i: int|
            streak_start(config, readings) <= i < readings.len() ==> cpu_is_high(
                config,
                #[trigger] readings[i].cpu_millipercent,
            ),
        0 < streak_start(config, readings) ==> !cpu_is_high(
            config,
            readings[streak_start(config, readings) - 1].cpu_millipercent,
        ),
        readings.len() > 0 && cpu_is_high(config, readings.last().cpu_millipercent)
            ==> streak_start(config, readings) < readings.len(),
    decreases readings.len(),
{
    if readings.len() > 0 && cpu_is_high(config, readings.last().cpu_millipercent) {
        let earlier = readings.drop_last();
        lemma_streak_start(config, earlier);
        assert forall|i: int| streak_start(config, readings) <= i < readings.len() implies cpu_is_high(
            config,
            #[trigger] readings[i].cpu_millipercent,
        ) by {
            if i < earlier.len() {
                assert(earlier[i] == readings[i]);
            }
        }
    }
}

/// `state_run_start` picks the start of the last run of one state: every
/// poll from it on reports the state of the last poll, and the poll before
/// it, if any, reports another.
pub proof fn lemma_state_run_start(readings: Seq<Reading>)
    requires
        readings.len() > 0,
    ensures
        0 <= state_run_start(readings) < readings.len(),
        forall|i: int|
            state_run_start(readings) <= i < readings.len() ==> (#[trigger] readings[i]).state
                == readings.last().state,
        0 < state_run_start(readings) ==> readings[state_run_start(readings) - 1].state
            != readings.last().state,
    decreases readings.len(),
{
    if readings.len() > 1 && readings[readings.len() - 2].state == readings.last().state {
        let earlier = readings.drop_last();
        lemma_state_run_start(earlier);
        assert forall|i: int| state_run_start(readings) <= i < readings.len() implies (
        #[trigger] readings[i]).state == readings.last().state by {
            if i < earlier.len() {
                assert(earlier[i] == readings[i]);
            }
        }
    }
}

/// What the history holds after a run of polls: the state of the last poll,
/// the time at which that state was entered, the samples of the newest
/// polls, and, while the CPU check is enabled, the time at which the current
/// high-CPU streak began.
pub proof fn lemma_history_after(config: DetectionConfig, readings: Seq<Reading>)
    requires
        readings.len() > 0,
    ensures
        history_after(config, readings) is Some,
        history_after(config, readings).unwrap().first_seen == readings[0].now,
        history_after(config, readings).unwrap().last_state == readings.last().state,
        history_after(config, readings).unwrap().state_unchanged_since
            == readings[state_run_start(readings)].now,
        history_after(config, readings).unwrap().memory_samples == newest_samples(readings),
        config.cpu.enabled ==> history_after(config, readings).unwrap().cpu_high_since == (if cpu_is_high(
            config.cpu,
            readings.last().cpu_millipercent,
        ) {
            Some(readings[streak_start(config.cpu, readings)].now)
        } else {
            None
        }),
        !config.cpu.enabled ==> history_after(config, readings).unwrap().cpu_high_since is None,
    decreases readings.len(),
{
    let earlier = readings.drop_last();
    lemma_streak_start(config.cpu, readings);
    lemma_state_run_start(readings);
    if earlier.len() > 0 {
        lemma_history_after(config, earlier);
        lemma_streak_start(config.cpu, earlier);
        lemma_state_run_start(earlier);
    }
}

/// CPU hysteresis. While the CPU check is enabled, the last poll of a run
/// gives a CPU alert exactly when its reading is at or above the threshold
/// and the unbroken run of such readings that it ends has lasted
/// `duration_seconds`; the alert is critical exactly when that run has
/// lasted twice as long. A reading below the threshold clears the streak,
/// so that the next high reading starts a new one at its own time.
pub proof fn law_cpu_hysteresis(config: DetectionConfig, readings: Seq<Reading>)
    requires
        config.cpu.enabled,
        readings.len() > 0,
    ensures
        0 <= streak_start(config.cpu, readings) <= readings.len(),
        forall|severity: Severity|
            last_finding(config, readings) == Some((AlertReason::CpuHigh, severity)) <==> (cpu_is_high(
                config.cpu,
                readings.last().cpu_millipercent,
            ) && severity_for(
                readings.last().now - readings[streak_start(config.cpu, readings)].now,
                config.cpu.duration_seconds as int,
            ) == Some(severity)),
        !cpu_is_high(config.cpu, readings.last().cpu_millipercent) ==> history_after(
            config,
            readings,
        ).unwrap().cpu_high_since is None,
{
    let earlier = readings.drop_last();
    lemma_streak_start(config.cpu, readings);
    lemma_history_after(config, readings);
    if earlier.len() > 0 {
        lemma_history_after(config, earlier);
        lemma_streak_start(config.cpu, earlier);
    }
}

/// Hang detection. While the hang check is enabled and the CPU check gives
/// no alert, the last poll of a run gives a hang alert exactly when it
/// reports a blocked or stopped state that has been held unchanged for
/// `duration_seconds`, critical from twice that on. A poll that reports a
/// change of state restarts the timer: with a positive duration it gives no
/// hang alert.
pub proof fn law_hang(config: DetectionConfig, readings: Seq<Reading>)
    requires
        config.hang.enabled,
        readings.len() > 0,
    ensures
        0 <= state_run_start(readings) < readings.len(),
        forall|severity: Severity|
            last_finding(config, readings) == Some((AlertReason::Hang, severity)) <==> (cpu_verdict(
                config.cpu,
                observed(history_after(config, readings.drop_last()), readings.last()).cpu_high_since,
                readings.last().cpu_millipercent,
                readings.last().now,
            ) is None && is_hang_state(readings.last().state) && severity_for(
                readings.last().now - readings[state_run_start(readings)].now,
                config.hang.duration_seconds as int,
            ) == Some(severity)),
        readings.len() > 1 && readings[readings.len() - 2].state != readings.last().state
            && config.hang.duration_seconds > 0 ==> !(last_finding(config, readings) matches Some(
            (AlertReason::Hang, _),
        )),
{
    let earlier = readings.drop_last();
    lemma_state_run_start(readings);
    lemma_history_after(config, readings);
    if earlier.len() > 0 {
        lemma_history_after(config, earlier);
        lemma_state_run_start(earlier);
    }
}

/// The CPU check of one poll. While it is enabled, with the streak taken to
/// start at `since`, or at `now` where none is running: the check alerts
/// exactly when the reading is at or above the threshold and the streak has
/// lasted `duration_seconds`, critically exactly when it has lasted twice
/// that. A reading at or above the threshold keeps the start of the streak;
/// a reading below it gives no alert and clears the streak, so that the next
/// high reading starts one of length zero at its own time.
pub proof fn law_cpu_check(
    config: CpuDetectionConfig,
    since: Option<u64>,
    cpu_millipercent: u64,
    now: u64,
)
    requires
        config.enabled,
    ensures
        ({
            let start = match since {
                Some(begun) => begun,
                None => now,
            };
            let high = cpu_is_high(config, cpu_millipercent);
            let found = cpu_verdict(config, since, cpu_millipercent, now);
            let after = cpu_streak(config, since, cpu_millipercent, now);
            &&& found is Some <==> high && now - start >= config.duration_seconds
            &&& found == Some(Severity::Critical) <==> high && now - start >= 2
                * config.duration_seconds
            &&& high ==> after == Some(start)
            &&& !high ==> found is None && after is None
            &&& !high ==> cpu_streak(config, after, cpu_millipercent, now) is None
            &&& since is None && found is Some ==> config.duration_seconds == 0
        }),
{
}

/// The hang check of one poll. While it is enabled, the check alerts
/// exactly when the state is blocked or stopped and has been held unchanged
/// for `duration_seconds`, critically exactly when it has been held twice
/// as long. A poll that reports a change of state measures from its own
/// time.
pub proof fn law_hang_check(
    config: HangDetectionConfig,
    prior: HistoryView,
    reading: Reading,
)
    requires
        config.enabled,
    ensures
        ({
            let since = observed(Some(prior), reading).state_unchanged_since;
            let held = reading.now - since;
            let found = hang_verdict(config, reading.state, since, reading.now);
            &&& found is Some <==> is_hang_state(reading.state) && held >= config.duration_seconds
            &&& found == Some(Severity::Critical) <==> is_hang_state(reading.state) && held >= 2
                * config.duration_seconds
            &&& prior.last_state != reading.state ==> since == reading.now
            &&& prior.last_state == reading.state ==> since == prior.state_unchanged_since
            &&& prior.last_state != reading.state && config.duration_seconds > 0 ==> found is None
        }),
{
}

/// The oldest sample in the window is the first sample, in ring order, that
/// was taken at or after the cutoff.
pub proof fn lemma_oldest_in_window(samples: Seq<(u64, u64)>, cutoff: int)
    requires
        in_window(samples, cutoff).len() > 0,
    ensures
        exists|j: int|
            0 <= j < samples.len() && (#[trigger] samples[j]).0 >= cutoff && in_window(
                samples,
                cutoff,
            )[0] == samples[j] && (forall|i: int| 0 <= i < j ==> (#[trigger] samples[i]).0 < cutoff)
                && (in_window(samples, cutoff).len() >= 2 ==> j < samples.len() - 1),
    decreases samples.len(),
{
    reveal(Seq::filter);
    let keep = |s: (u64, u64)| s.0 >= cutoff;
    let earlier = samples.drop_last();
    if in_window(earlier, cutoff).len() > 0 {
        lemma_oldest_in_window(earlier, cutoff);
        let j = choose|j: int|
            0 <= j < earlier.len() && (#[trigger] earlier[j]).0 >= cutoff && in_window(
                earlier,
                cutoff,
            )[0] == earlier[j] && (forall|i: int| 0 <= i < j ==> (#[trigger] earlier[i]).0 < cutoff);
        assert forall|i: int| 0 <= i < j implies (#[trigger] samples[i]).0 < cutoff by {
            assert(samples[i] == earlier[i]);
        }
    } else {
        let j = samples.len() - 1;
        assert forall|i: int| 0 <= i < j implies (#[trigger] samples[i]).0 < cutoff by {
            if samples[i].0 >= cutoff {
                earlier.lemma_filter_contains(keep, i);
            }
        }
    }
}

/// The memory check. With fewer than two samples in the window there is no
/// alert. With two or more, there is one exactly when the current memory
/// exceeds the oldest in-window sample by `growth_mb` mebibytes, critical
/// exactly from twice that growth on.
pub proof fn law_memory_leak(
    config: MemoryDetectionConfig,
    samples: Seq<(u64, u64)>,
    memory_bytes: u64,
    now: u64,
)
    ensures
        ({
            let window = in_window(samples, window_cutoff(config, now));
            let found = memory_verdict(config, samples, memory_bytes, now);
            &&& window.len() < 2 ==> found is None
            &&& !config.enabled ==> found is None
            &&& config.enabled && window.len() >= 2 ==> {
                let growth = memory_bytes - window[0].1;
                &&& found is Some <==> growth >= config.growth_mb * BYTES_PER_MB
                &&& found == Some(Severity::Critical) <==> growth >= 2 * (config.growth_mb
                    * BYTES_PER_MB)
            }
        }),
{
}

/// The first poll of a process gives no memory alert, whatever its memory:
/// its ring holds one sample.
pub proof fn law_first_poll_has_no_memory_alert(config: MemoryDetectionConfig, reading: Reading)
    ensures
        observed(None, reading).memory_samples == seq![(reading.now, reading.memory_bytes)],
        memory_verdict(
            config,
            observed(None, reading).memory_samples,
            reading.memory_bytes,
            reading.now,
        ) is None,
{
    let samples = observed(None, reading).memory_samples;
    samples.lemma_filter_len(|s: (u64, u64)| s.0 >= window_cutoff(config, reading.now));
}

/// The sample ring never exceeds its capacity: below capacity a new sample
/// is appended, and on a full ring it evicts exactly the oldest one.
pub proof fn law_ring_bounded(samples: Seq<(u64, u64)>, sample: (u64, u64))
    requires
        samples.len() <= HISTORY_CAPACITY,
    ensures
        ring_push(samples, sample).len() <= HISTORY_CAPACITY,
        ring_push(samples, sample).last() == sample,
        samples.len() < HISTORY_CAPACITY ==> ring_push(samples, sample) == samples.push(sample),
        samples.len() == HISTORY_CAPACITY ==> ring_push(samples, sample) == samples.skip(1).push(
            sample,
        ),
{
}

/// Every operation of the detector keeps every ring within its capacity.
pub proof fn law_rings_stay_bounded(
    detector: DetectorView,
    process: ProcessView,
    now: u64,
    active: Set<u32>,
    pattern: Seq<char>,
)
    requires
        detector.valid(),
    ensures
        detector.after_check(process, now).valid(),
        detector.after_cleanup(active).valid(),
        detector.with_pattern(pattern).valid(),
{
}

/// Whitelisting. Once `pattern` is whitelisted, a process whose name
/// contains it never gets an alert, whatever its metrics, and `check`
/// leaves the detector as it was. The whitelist outlives checks and purges.
pub proof fn law_whitelist_exempts(
    detector: DetectorView,
    pattern: Seq<char>,
    process: ProcessView,
    now: u64,
    active: Set<u32>,
    other: ProcessView,
)
    requires
        is_substring(pattern, process.name),
    ensures
        detector.with_pattern(pattern).whitelist.contains(pattern),
        detector.whitelist.contains(pattern) ==> {
            &&& detector.alert_for(process, now) is None
            &&& detector.after_check(process, now) == detector
            &&& detector.after_check(other, now).whitelist.contains(pattern)
            &&& detector.after_cleanup(active).whitelist.contains(pattern)
        },
{
    let listed = detector.with_pattern(pattern);
    if !detector.whitelist.contains(pattern) {
        assert(listed.whitelist[detector.whitelist.len() as int] == pattern);
    }
}

/// Purge. After a purge, a pid outside the active set has no history; its
/// next observation is treated as a first sighting, whatever was known of
/// that pid before. The histories of active pids are untouched.
pub proof fn law_purge_forgets(
    detector: DetectorView,
    active: Set<u32>,
    process: ProcessView,
    now: u64,
)
    ensures
        !active.contains(process.pid) ==> {
            let purged = detector.after_cleanup(active);
            &&& purged.prior(process.pid) is None
            &&& !whitelisted(detector.whitelist, process.name) ==> purged.after_check(
                process,
                now,
            ).prior(process.pid) == Some(
                next_history(detector.config, None, reading_of(process, now)),
            )
            &&& !whitelisted(detector.whitelist, process.name) ==> (purged.alert_for(process, now)
                is Some <==> finding(detector.config, None, reading_of(process, now)) is Some)
        },
        active.contains(process.pid) ==> detector.after_cleanup(active).prior(process.pid)
            == detector.prior(process.pid),
        forall|pid: u32|
            detector.after_cleanup(active).history.contains_key(pid) <==> detector.history.contains_key(
                pid,
            ) && active.contains(pid),
{
}

/// Whether the poll at index `k` stays under every enabled threshold: its
/// CPU reading is below the threshold, it has not held a blocked or stopped
/// state for `duration_seconds`, and its memory has grown by less than
/// `growth_mb` mebibytes over every earlier poll in the window.
pub open spec fn quiet_at(config: DetectionConfig, readings: Seq<Reading>, k: int) -> bool {
    let reading = readings[k];
    &&& config.cpu.enabled ==> !cpu_is_high(config.cpu, reading.cpu_millipercent)
    &&& config.hang.enabled ==> (!is_hang_state(reading.state) || reading.now
        - readings[state_run_start(readings.take(k + 1))].now < config.hang.duration_seconds)
    &&& config.memory.enabled ==> forall|i: int|
        0 <= i < k && (#[trigger] readings[i]).now >= window_cutoff(config.memory, reading.now)
            ==> reading.memory_bytes - readings[i].memory_bytes < config.memory.growth_mb
            * BYTES_PER_MB
}

/// No false alarms. A process that stays under every enabled threshold at
/// every poll never gets an alert, however often it is checked.
pub proof fn law_quiet_process_never_alerts(config: DetectionConfig, readings: Seq<Reading>)
    requires
        forall|k: int| 0 <= k < readings.len() ==> quiet_at(config, readings, k),
    ensures
        forall|k: int|
            0 <= k < readings.len() ==> last_finding(config, #[trigger] readings.take(k + 1))
                is None,
{
    assert forall|k: int| 0 <= k < readings.len() implies last_finding(
        config,
        #[trigger] readings.take(k + 1),
    ) is None by {
        let run = readings.take(k + 1);
        assert(quiet_at(config, readings, k));
        lemma_history_after(config, run);
        lemma_state_run_start(run);
        let samples = newest_samples(run);
        let cutoff = window_cutoff(config.memory, readings[k].now);
        if config.memory.enabled && in_window(samples, cutoff).len() >= 2 {
            lemma_oldest_in_window(samples, cutoff);
        }
    }
}

/// One operation on a detector.
pub enum Op {
    /// A check of a snapshot at a time.
    Check { process: ProcessView, now: u64 },
    /// A purge that keeps the pids in `active`.
    Cleanup { active: Set<u32> },
}

/// The detector after the operation `op`.
pub open spec fn after_op(detector: DetectorView, op: Op) -> DetectorView {
    match op {
        Op::Check { process, now } => detector.after_check(process, now),
        Op::Cleanup { active } => detector.after_cleanup(active),
    }
}

/// The detector after the operations `ops`, in order.
pub open spec fn after_ops(detector: DetectorView, ops: Seq<Op>) -> DetectorView
    decreases ops.len(),
{
    if ops.len() == 0 {
        detector
    } else {
        after_op(after_ops(detector, ops.drop_last()), ops.last())
    }
}

/// Whether `op` is a check of the process `pid`.
pub open spec fn checks(op: Op, pid: u32) -> bool {
    op matches Op::Check { process, .. } && process.pid == pid
}

/// The readings that the checks of `pid` among `ops` give, in order.
pub open spec fn readings_for(ops: Seq<Op>, pid: u32) -> Seq<Reading>
    decreases ops.len(),
{
    if ops.len() == 0 {
        Seq::empty()
    } else {
        let earlier = readings_for(ops.drop_last(), pid);
        match ops.last() {
            Op::Check { process, now } => if process.pid == pid {
                earlier.push(reading_of(process, now))
            } else {
                earlier
            },
            Op::Cleanup { active } => earlier,
        }
    }
}

/// Whether the process `pid` is followed without a break through `ops`: no
/// check of it meets a whitelisted name, and no purge drops it.
pub open spec fn followed(detector: DetectorView, ops: Seq<Op>, pid: u32) -> bool {
    forall|i: int|
        0 <= i < ops.len() ==> match #[trigger] ops[i] {
            Op::Check { process, now } => process.pid == pid ==> !whitelisted(
                detector.whitelist,
                process.name,
            ),
            Op::Cleanup { active } => active.contains(pid),
        }
}

/// Processes are judged apart. However the checks of other processes and
/// the purges are interleaved, a process that is followed from its first
/// sighting on has the history that its own readings give, and each check of
/// it returns the alert that its own readings up to that check give.
pub proof fn lemma_followed_process(detector: DetectorView, ops: Seq<Op>, pid: u32)
    requires
        !detector.history.contains_key(pid),
        followed(detector, ops, pid),
    ensures
        after_ops(detector, ops).config == detector.config,
        after_ops(detector, ops).whitelist == detector.whitelist,
        after_ops(detector, ops).prior(pid) == history_after(
            detector.config,
            readings_for(ops, pid),
        ),
        ops.len() > 0 ==> (ops.last() matches Op::Check { process, now } ==> process.pid == pid
            ==> after_ops(detector, ops.drop_last()).alert_for(process, now) == alert_with(
            process,
            now,
            last_finding(detector.config, readings_for(ops, pid)),
        )),
    decreases ops.len(),
{
    if ops.len() > 0 {
        let earlier = ops.drop_last();
        assert forall|i: int| 0 <= i < earlier.len() implies match #[trigger] earlier[i] {
            Op::Check { process, now } => process.pid == pid ==> !whitelisted(
                detector.whitelist,
                process.name,
            ),
            Op::Cleanup { active } => active.contains(pid),
        } by {
            assert(earlier[i] == ops[i]);
        }
        lemma_followed_process(detector, earlier, pid);
        if checks(ops.last(), pid) {
            assert(readings_for(ops, pid).drop_last() =~= readings_for(earlier, pid));
        }
    }
}

/// The readings of a process up to any point of a run are the first of its
/// readings over the whole run.
pub proof fn lemma_readings_grow(ops: Seq<Op>, pid: u32, upto: int)
    requires
        0 <= upto <= ops.len(),
    ensures
        readings_for(ops.take(upto), pid).len() <= readings_for(ops, pid).len(),
        readings_for(ops.take(upto), pid) == readings_for(ops, pid).take(
            readings_for(ops.take(upto), pid).len() as int,
        ),
    decreases ops.len() - upto,
{
    if upto == ops.len() {
        assert(ops.take(upto) =~= ops);
    } else {
        lemma_readings_grow(ops, pid, upto + 1);
        assert(ops.take(upto + 1).drop_last() =~= ops.take(upto));
    }
}

/// No false alarms. A process that is followed from its first sighting on,
/// matches no whitelist pattern and stays under every enabled threshold at
/// every poll never gets an alert, however often it is checked.
pub proof fn law_no_false_alarms(detector: DetectorView, ops: Seq<Op>, pid: u32)
    requires
        !detector.history.contains_key(pid),
        followed(detector, ops, pid),
        forall|k: int|
            0 <= k < readings_for(ops, pid).len() ==> quiet_at(
                detector.config,
                readings_for(ops, pid),
                k,
            ),
    ensures
        forall|i: int|
            0 <= i < ops.len() ==> ((#[trigger] ops[i]) matches Op::Check { process, now }
                ==> process.pid == pid ==> after_ops(detector, ops.take(i)).alert_for(process, now)
                is None),
{
    law_quiet_process_never_alerts(detector.config, readings_for(ops, pid));
    assert forall|i: int| 0 <= i < ops.len() implies ((#[trigger] ops[i]) matches Op::Check {
        process,
        now,
    } ==> process.pid == pid ==> after_ops(detector, ops.take(i)).alert_for(process, now)
        is None) by {
        if checks(ops[i], pid) {
            let run = ops.take(i + 1);
            assert(run.drop_last() =~= ops.take(i));
            assert forall|j: int| 0 <= j < run.len() implies match #[trigger] run[j] {
                Op::Check { process, now } => process.pid == pid ==> !whitelisted(
                    detector.whitelist,
                    process.name,
                ),
                Op::Cleanup { active } => active.contains(pid),
            } by {
                assert(run[j] == ops[j]);
            }
            lemma_followed_process(detector, run, pid);
            lemma_readings_grow(ops, pid, i + 1);
        }
    }
}

} // verus!
