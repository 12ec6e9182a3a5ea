//! Snapshot source for Linux. It is handed the text of `/proc` entries and
//! the clock readings taken with them, and owns the state from which CPU
//! usage is derived.

use crate::collector::{pid_list, pids_in, ProcessCollector, ProcessInfo, ProcessView};
use crate::purge::retain_pids;
use crate::text::{
    chars_of, parse_decimal, parse_u32, parse_u64, split_words, strip, strip_range, text_of, trim,
    words, Strip,
};
use std::collections::HashMap;
use vstd::prelude::*;

verus! {

broadcast use vstd::std_specs::hash::group_hash_axioms;

/// Nanoseconds in one second.
pub const NANOS_PER_SECOND: u64 = 1_000_000_000;

/// CPU usage is in thousandths of a percent: used seconds per elapsed second,
/// times this.
pub const MILLIPERCENT_PER_UNIT: u64 = 100_000;

/// The number of fields that a `stat` record must at least have.
pub const STAT_FIELDS: usize = 24;

/// The cumulative CPU time of a process, in clock ticks, and the reading of
/// the monotonic clock, in nanoseconds, at which it was taken.
#[derive(Debug, Clone, Copy)]
pub struct CpuSample {
    pub total_ticks: u64,
    pub timestamp: u64,
}

/// What was read of one process: the text of its `stat` file, `None` where
/// the process had vanished or the file could not be read; the text of its
/// `cmdline` file, empty where it could not be read; and the readings of the
/// monotonic clock, in nanoseconds, and of the wall clock, in seconds since
/// the Unix epoch, taken with them.
#[derive(Debug, Clone)]
pub struct RawProcess {
    pub stat: Option<String>,
    pub cmdline: String,
    pub monotonic_nanos: u64,
    pub unix_seconds: u64,
}

/// What a `RawProcess` holds, as plain values.
pub struct RawView {
    pub stat: Option<Seq<char>>,
    pub cmdline: Seq<char>,
    pub monotonic_nanos: u64,
    pub unix_seconds: u64,
}

impl View for RawProcess {
    type V = RawView;

    open spec fn view(&self) -> RawView {
        RawView {
            stat: match self.stat {
                Some(text) => Some(text@),
                None => None,
            },
            cmdline: self.cmdline@,
            monotonic_nanos: self.monotonic_nanos,
            unix_seconds: self.unix_seconds,
        }
    }
}

/// One entry of the `/proc` directory: its name and what was read under it.
#[derive(Debug, Clone)]
pub struct ProcEntry {
    pub name: String,
    pub raw: RawProcess,
}

/// What a `ProcEntry` holds, as plain values.
pub struct EntryView {
    pub name: Seq<char>,
    pub raw: RawView,
}

impl View for ProcEntry {
    type V = EntryView;

    open spec fn view(&self) -> EntryView {
        EntryView { name: self.name@, raw: self.raw@ }
    }
}

/// The views of a batch of entries.
pub open spec fn entry_views(entries: Seq<ProcEntry>) -> Seq<EntryView> {
    entries.map_values(|e: ProcEntry| e@)
}

/// The views of a batch of snapshots.
pub open spec fn process_views(processes: Seq<ProcessInfo>) -> Seq<ProcessView> {
    processes.map_values(|p: ProcessInfo| p@)
}

/// The pids of a batch of snapshots.
pub open spec fn pids_of(processes: Seq<ProcessView>) -> Set<u32> {
    processes.map_values(|p: ProcessView| p.pid).to_set()
}

/// The state after a whole batch: the entries are read in order, then the
/// sample of every pid that the batch did not list is purged.
pub open spec fn after_batch(collector: CollectorView, entries: Seq<EntryView>) -> CollectorView {
    scan(collector, entries).0.after_cleanup(pids_of(scan(collector, entries).1))
}

/// `x`, or the largest 64-bit number where `x` is beyond it.
pub open spec fn saturated(x: int) -> u64 {
    if x > u64::MAX {
        u64::MAX
    } else if x < 0 {
        0
    } else {
        x as u64
    }
}

/// The number that `s` writes in decimal, or zero where it writes none that
/// fits in 64 bits.
pub open spec fn number_or_zero(s: Seq<char>) -> u64 {
    match parse_decimal(s, u64::MAX as nat) {
        Some(n) => n as u64,
        None => 0,
    }
}

/// The index of the first line feed at or after `from`, or the length of `s`
/// where there is none.
pub open spec fn line_end(s: Seq<char>, from: int) -> int
    decreases s.len() - from,
{
    if 0 <= from < s.len() && s[from] != '\n' {
        line_end(s, from + 1)
    } else {
        from
    }
}

/// Whether a line begins at index `at`.
pub open spec fn is_line_start(s: Seq<char>, at: int) -> bool {
    0 <= at < s.len() && (at == 0 || s[at - 1] == '\n')
}

/// The label of the boot time line in `/proc/stat`.
pub open spec fn boot_time_label() -> Seq<char> {
    seq!['b', 't', 'i', 'm', 'e', ' ']
}

/// Whether a line with the boot time label begins at index `at`.
pub open spec fn is_boot_time_line(s: Seq<char>, at: int) -> bool {
    &&& is_line_start(s, at)
    &&& at + 6 <= line_end(s, at)
    &&& s.subrange(at, at + 6) == boot_time_label()
}

/// The boot time that the first labelled line at or after `from` gives.
pub open spec fn boot_time_from(s: Seq<char>, from: int) -> u64
    decreases s.len() - from,
{
    if from < 0 || from >= s.len() {
        0
    } else if is_boot_time_line(s, from) {
        number_or_zero(trim(s.subrange(from + 6, line_end(s, from))))
    } else {
        boot_time_from(s, from + 1)
    }
}

/// The boot time, in seconds since the Unix epoch, that the text of
/// `/proc/stat` gives: the number on the first line that begins with
/// `btime `, trimmed; zero where there is no such line or no number on it.
pub open spec fn boot_time_of(s: Seq<char>) -> u64 {
    boot_time_from(s, 0)
}

proof fn lemma_no_line_starts(s: Seq<char>, from: int, to: int)
    requires
        0 <= from <= to,
        forall|j: int| from <= j < to ==> !is_line_start(s, j),
    ensures
        boot_time_from(s, from) == boot_time_from(s, to),
    decreases to - from,
{
    if from < to {
        lemma_no_line_starts(s, from + 1, to);
    }
}

fn number_at(chars: &Vec<char>, from: usize, to: usize) -> (value: u64)
    requires
        from <= to <= chars@.len(),
    ensures
        value == number_or_zero(chars@.subrange(from as int, to as int)),
{
    match parse_u64(chars, from, to) {
        Some(number) => number,
        None => 0,
    }
}

/// Reads the boot time out of the text of `/proc/stat`.
pub fn parse_boot_time(stat: &str) -> (boot_time: u64)
    ensures
        boot_time == boot_time_of(stat@),
{
    let chars = chars_of(stat);
    let size: usize = chars.len();
    let mut at: usize = 0;
    while at < size
        invariant
            at <= size == chars@.len(),
            at == 0 || at == size || chars@[at - 1] == '\n',
            boot_time_of(chars@) == boot_time_from(chars@, at as int),
            chars@ == stat@,
        decreases size - at,
    {
        let mut end: usize = at;
        while end < size && chars[end] != '\n'
            invariant
                at <= end <= size == chars@.len(),
                line_end(chars@, at as int) == line_end(chars@, end as int),
                forall|j: int| at <= j < end ==> chars@[j] != '\n',
            decreases size - end,
        {
            end += 1;
        }
        if end - at >= 6 && chars[at] == 'b' && chars[at + 1] == 't' && chars[at + 2] == 'i'
            && chars[at + 3] == 'm' && chars[at + 4] == 'e' && chars[at + 5] == ' ' {
            assert(chars@.subrange(at as int, at + 6) =~= boot_time_label());
            let bounds = strip_range(&chars, at + 6, end, Strip::Whitespace);
            return number_at(&chars, bounds.0, bounds.1);
        }
        if end == size {
            proof {
                lemma_no_line_starts(chars@, at + 1, size as int);
            }
            at = size;
        } else {
            proof {
                lemma_no_line_starts(chars@, at + 1, end + 1);
            }
            at = end + 1;
        }
    }
    0
}

/// The fields of a `stat` record that a snapshot is made of.
pub struct StatFields {
    pub name: Seq<char>,
    pub state: char,
    pub utime: u64,
    pub stime: u64,
    pub start_ticks: u64,
    pub rss_pages: u64,
}

/// The fields that the text of a `stat` file gives. The text is split at
/// whitespace; a record of fewer than `STAT_FIELDS` fields is unusable. The
/// name is the second field without the brackets around it, the state the
/// first character of the third; each number that cannot be read counts as
/// zero.
pub open spec fn stat_fields(stat: Seq<char>) -> Option<StatFields> {
    let fields = words(stat);
    if fields.len() < STAT_FIELDS {
        None
    } else {
        Some(
            StatFields {
                name: strip(fields[1], Strip::Parentheses),
                state: fields[2][0],
                utime: number_or_zero(fields[13]),
                stime: number_or_zero(fields[14]),
                start_ticks: number_or_zero(fields[21]),
                rss_pages: number_or_zero(fields[23]),
            },
        )
    }
}

/// The command line that the text of a `cmdline` file gives: the NUL
/// separators become spaces, and whitespace at both ends is dropped.
pub open spec fn command_line(raw: Seq<char>) -> Seq<char> {
    trim(raw.map_values(|c: char| if c == '\0' { ' ' } else { c }))
}

/// CPU usage over the interval since the prior sample, in thousandths of a
/// percent of one core: the CPU seconds used per second elapsed, times
/// 100 000, rounded down. Zero on a first sighting and where no time has
/// elapsed; a counter that ran backwards counts as no use.
pub open spec fn cpu_usage(
    prior: Option<CpuSample>,
    total_ticks: u64,
    monotonic_nanos: u64,
    clock_ticks: u64,
) -> u64 {
    match prior {
        None => 0,
        Some(sample) => if monotonic_nanos > sample.timestamp {
            let used = if total_ticks >= sample.total_ticks {
                total_ticks - sample.total_ticks
            } else {
                0
            };
            saturated(
                (used * MILLIPERCENT_PER_UNIT * NANOS_PER_SECOND) / (clock_ticks * (monotonic_nanos
                    - sample.timestamp)),
            )
        } else {
            0
        },
    }
}

fn cpu_usage_of(
    prior: Option<CpuSample>,
    total_ticks: u64,
    monotonic_nanos: u64,
    clock_ticks: u64,
) -> (usage: u64)
    requires
        clock_ticks > 0,
    ensures
        usage == cpu_usage(prior, total_ticks, monotonic_nanos, clock_ticks),
{
    match prior {
        None => 0,
        Some(sample) => {
            if monotonic_nanos > sample.timestamp {
                let used: u64 = if total_ticks >= sample.total_ticks {
                    total_ticks - sample.total_ticks
                } else {
                    0
                };
                let elapsed: u64 = monotonic_nanos - sample.timestamp;
                let scale: u128 = MILLIPERCENT_PER_UNIT as u128 * NANOS_PER_SECOND as u128;
                assert(used * scale <= u64::MAX * 100_000_000_000_000) by (nonlinear_arith)
                    requires
                        used <= u64::MAX,
                        scale == 100_000_000_000_000,
                ;
                assert(0 < clock_ticks * elapsed <= u64::MAX * u64::MAX) by (nonlinear_arith)
                    requires
                        0 < clock_ticks <= u64::MAX,
                        0 < elapsed <= u64::MAX,
                ;
                let work: u128 = used as u128 * scale;
                let span: u128 = clock_ticks as u128 * elapsed as u128;
                let ratio: u128 = work / span;
                assert(used * MILLIPERCENT_PER_UNIT * NANOS_PER_SECOND == used * scale)
                    by (nonlinear_arith)
                    requires
                        scale == MILLIPERCENT_PER_UNIT * NANOS_PER_SECOND,
                ;
                if ratio > u64::MAX as u128 {
                    u64::MAX
                } else {
                    ratio as u64
                }
            } else {
                0
            }
        },
    }
}

/// The state of a collector: what it knows of the machine, and the CPU
/// sample of every pid of the last batch.
pub struct CollectorView {
    pub page_size: u64,
    pub clock_ticks: u64,
    pub boot_time: u64,
    pub num_cpus: u64,
    pub samples: Map<u32, CpuSample>,
}

impl CollectorView {
    /// The CPU sample kept for `pid`, if any.
    pub open spec fn prior(self, pid: u32) -> Option<CpuSample> {
        if self.samples.contains_key(pid) {
            Some(self.samples[pid])
        } else {
            None
        }
    }

    /// The snapshot that `raw` gives of the process `pid`: none where the
    /// `stat` text is missing or unusable.
    pub open spec fn snapshot_of(self, pid: u32, raw: RawView) -> Option<ProcessView> {
        match raw.stat {
            None => None,
            Some(stat) => match stat_fields(stat) {
                None => None,
                Some(fields) => {
                    let start_time = saturated(
                        self.boot_time + fields.start_ticks / self.clock_ticks,
                    );
                    Some(
                        ProcessView {
                            pid,
                            name: fields.name,
                            cmdline: command_line(raw.cmdline),
                            cpu_millipercent: cpu_usage(
                                self.prior(pid),
                                saturated(fields.utime + fields.stime),
                                raw.monotonic_nanos,
                                self.clock_ticks,
                            ),
                            memory_bytes: saturated(fields.rss_pages * self.page_size),
                            runtime_seconds: saturated(raw.unix_seconds - start_time),
                            state: fields.state,
                            start_time,
                        },
                    )
                },
            },
        }
    }

    /// The state after `raw` was read for `pid`: where it gives a snapshot,
    /// the sample of `pid` is overwritten with the new counter and time.
    pub open spec fn after_snapshot(self, pid: u32, raw: RawView) -> CollectorView {
        match raw.stat {
            None => self,
            Some(stat) => match stat_fields(stat) {
                None => self,
                Some(fields) => CollectorView {
                    samples: self.samples.insert(
                        pid,
                        CpuSample {
                            total_ticks: saturated(fields.utime + fields.stime),
                            timestamp: raw.monotonic_nanos,
                        },
                    ),
                    ..self
                },
            },
        }
    }

    /// The state after the samples of all pids outside `active` were purged.
    pub open spec fn after_cleanup(self, active: Set<u32>) -> CollectorView {
        CollectorView { samples: self.samples.restrict(active), ..self }
    }
}

/// The pid that a directory name writes, if it writes one.
pub open spec fn pid_of(name: Seq<char>) -> Option<u32> {
    match parse_decimal(name, u32::MAX as nat) {
        Some(n) => Some(n as u32),
        None => None,
    }
}

/// Reads the name of a `/proc` entry as a pid.
pub fn parse_pid(name: &str) -> (pid: Option<u32>)
    ensures
        pid == pid_of(name@),
{
    let chars = chars_of(name);
    assert(chars@.subrange(0, chars@.len() as int) =~= chars@);
    parse_u32(&chars, 0, chars.len())
}

/// The state and the snapshots after the entries of one batch were read in
/// order, before the purge that ends the batch. An entry whose name is no
/// pid, or that gives no snapshot, is skipped.
pub open spec fn scan(collector: CollectorView, entries: Seq<EntryView>) -> (
    CollectorView,
    Seq<ProcessView>,
)
    decreases entries.len(),
{
    if entries.len() == 0 {
        (collector, Seq::empty())
    } else {
        let (before, found) = scan(collector, entries.drop_last());
        let entry = entries.last();
        match pid_of(entry.name) {
            None => (before, found),
            Some(pid) => match before.snapshot_of(pid, entry.raw) {
                None => (before, found),
                Some(process) => (before.after_snapshot(pid, entry.raw), found.push(process)),
            },
        }
    }
}

/// A number of clock ticks per second. It is never zero.
struct TickRate {
    per_second: u64,
}

impl TickRate {
    #[verifier::type_invariant]
    spec fn positive(self) -> bool {
        self.per_second > 0
    }

    fn new(per_second: u64) -> (rate: TickRate)
        requires
            per_second > 0,
        ensures
            rate.per_second == per_second,
    {
        TickRate { per_second }
    }

    fn get(&self) -> (per_second: u64)
        ensures
            per_second == self.per_second,
            per_second > 0,
    {
        proof {
            use_type_invariant(self);
        }
        self.per_second
    }
}

/// The snapshot source for Linux.
pub struct LinuxProcessCollector {
    page_size: u64,
    clock_ticks: TickRate,
    boot_time: u64,
    num_cpus: u64,
    cpu_samples: HashMap<u32, CpuSample>,
}

impl View for LinuxProcessCollector {
    type V = CollectorView;

    closed spec fn view(&self) -> CollectorView {
        CollectorView {
            page_size: self.page_size,
            clock_ticks: self.clock_ticks.per_second,
            boot_time: self.boot_time,
            num_cpus: self.num_cpus,
            samples: self.cpu_samples@,
        }
    }
}

impl LinuxProcessCollector {
    /// A collector for a machine with the given page size in bytes, clock
    /// ticks per second, number of processors and boot time in seconds since
    /// the Unix epoch. A machine counts as having at least one processor.
    pub fn new(page_size: u64, clock_ticks: u64, num_cpus: u64, boot_time: u64) -> (collector:
        LinuxProcessCollector)
        requires
            clock_ticks > 0,
        ensures
            collector@ == (CollectorView {
                page_size,
                clock_ticks,
                boot_time,
                num_cpus: if num_cpus >= 1 {
                    num_cpus
                } else {
                    1
                },
                samples: Map::empty(),
            }),
    {
        LinuxProcessCollector {
            page_size,
            clock_ticks: TickRate::new(clock_ticks),
            boot_time,
            num_cpus: if num_cpus >= 1 {
                num_cpus
            } else {
                1
            },
            cpu_samples: HashMap::new(),
        }
    }

    /// The number of processors, at least one.
    pub fn num_cpus(&self) -> (count: u64)
        ensures
            count == self@.num_cpus,
    {
        self.num_cpus
    }

    fn parse_process(&mut self, pid: u32, raw: &RawProcess) -> (process: Option<ProcessInfo>)
        ensures
            final(self)@ == old(self)@.after_snapshot(pid, raw@),
            match process {
                Some(p) => old(self)@.snapshot_of(pid, raw@) == Some(p@),
                None => old(self)@.snapshot_of(pid, raw@) is None,
            },
    {
        let clock_ticks: u64 = self.clock_ticks.get();
        let stat = match &raw.stat {
            Some(text) => text,
            None => {
                return None;
            },
        };
        let chars = chars_of(stat.as_str());
        let parts = split_words(&chars);
        if parts.len() < STAT_FIELDS {
            return None;
        }
        let name_bounds = strip_range(&chars, parts[1].0, parts[1].1, Strip::Parentheses);
        let name = text_of(&chars, name_bounds.0, name_bounds.1);
        let state: char = chars[parts[2].0];
        assert(state == words(chars@)[2][0]);
        let utime: u64 = number_at(&chars, parts[13].0, parts[13].1);
        let stime: u64 = number_at(&chars, parts[14].0, parts[14].1);
        let start_ticks: u64 = number_at(&chars, parts[21].0, parts[21].1);
        let rss_pages: u64 = number_at(&chars, parts[23].0, parts[23].1);
        let total_ticks: u64 = utime.saturating_add(stime);
        let prior: Option<CpuSample> = match self.cpu_samples.get(&pid) {
            Some(sample) => Some(*sample),
            None => None,
        };
        let cpu_millipercent: u64 = cpu_usage_of(
            prior,
            total_ticks,
            raw.monotonic_nanos,
            clock_ticks,
        );
        self.cpu_samples.insert(pid, CpuSample { total_ticks, timestamp: raw.monotonic_nanos });
        let memory_bytes: u64 = match rss_pages.checked_mul(self.page_size) {
            Some(bytes) => bytes,
            None => u64::MAX,
        };
        let start_time: u64 = self.boot_time.saturating_add(start_ticks / clock_ticks);
        let runtime_seconds: u64 = raw.unix_seconds.saturating_sub(start_time);
        let cmdline = command_line_of(raw.cmdline.as_str());
        Some(
            ProcessInfo {
                pid,
                name,
                cmdline,
                cpu_millipercent,
                memory_bytes,
                runtime_seconds,
                state,
                start_time,
            },
        )
    }

    /// Purges the CPU samples of every process that is not in `active_pids`.
    pub fn cleanup_stale(&mut self, active_pids: &[u32])
        ensures
            final(self)@ == old(self)@.after_cleanup(active_pids@.to_set()),
    {
        retain_pids(&mut self.cpu_samples, active_pids);
    }
}

impl ProcessCollector for LinuxProcessCollector {
    /// One full batch: every entry whose name is a pid and whose record is
    /// usable gives a snapshot, in the order of `entries`; then the samples
    /// of all pids that the batch did not list are purged.
    fn list_processes(&mut self, entries: &Vec<ProcEntry>) -> (processes: Vec<ProcessInfo>)
        ensures
            process_views(processes@) == scan(old(self)@, entry_views(entries@)).1,
            final(self)@ == after_batch(old(self)@, entry_views(entries@)),
    {
        let mut processes: Vec<ProcessInfo> = Vec::new();
        let mut i: usize = 0;
        while i < entries.len()
            invariant
                i <= entries@.len(),
                (self@, process_views(processes@)) == scan(
                    old(self)@,
                    entry_views(entries@).take(i as int),
                ),
            decreases entries@.len() - i,
        {
            let entry = &entries[i];
            proof {
                let grown = entry_views(entries@).take(i + 1);
                assert(grown.drop_last() =~= entry_views(entries@).take(i as int));
            }
            match parse_pid(entry.name.as_str()) {
                Some(pid) => match self.parse_process(pid, &entry.raw) {
                    Some(process) => {
                        processes.push(process);
                    },
                    None => {},
                },
                None => {},
            }
            i += 1;
        }
        proof {
            assert(entry_views(entries@).take(i as int) =~= entry_views(entries@));
        }
        let pids = pids_in(&processes);
        proof {
            assert(pid_list(processes@) =~= process_views(processes@).map_values(
                |p: ProcessView| p.pid,
            ));
        }
        self.cleanup_stale(pids.as_slice());
        processes
    }

    /// The snapshot of the one process `pid`, if `raw` gives one. The sample
    /// of `pid` is then overwritten; no other sample is touched.
    fn get_process(&mut self, pid: u32, raw: &RawProcess) -> (process: Option<ProcessInfo>)
        ensures
            final(self)@ == old(self)@.after_snapshot(pid, raw@),
            match process {
                Some(p) => old(self)@.snapshot_of(pid, raw@) == Some(p@),
                None => old(self)@.snapshot_of(pid, raw@) is None,
            },
    {
        self.parse_process(pid, raw)
    }
}

fn command_line_of(raw: &str) -> (text: String)
    ensures
        text@ == command_line(raw@),
{
    let chars = chars_of(raw);
    let mut spaced: Vec<char> = Vec::new();
    let mut i: usize = 0;
    while i < chars.len()
        invariant
            i <= chars@.len(),
            spaced@ == chars@.take(i as int).map_values(
                |c: char|
                    if c == '\0' {
                        ' '
                    } else {
                        c
                    },
            ),
        decreases chars@.len() - i,
    {
        let c: char = chars[i];
        spaced.push(
            if c == '\0' {
                ' '
            } else {
                c
            },
        );
        i += 1;
    }
    proof {
        assert(chars@.take(i as int) =~= chars@);
        assert(spaced@.subrange(0, spaced@.len() as int) =~= spaced@);
    }
    let bounds = strip_range(&spaced, 0, spaced.len(), Strip::Whitespace);
    text_of(&spaced, bounds.0, bounds.1)
}

/// A first sighting reports no CPU usage, however busy the process is.
pub proof fn law_first_sighting_reports_zero(
    collector: CollectorView,
    pid: u32,
    raw: RawView,
)
    requires
        collector.prior(pid) is None,
    ensures
        collector.snapshot_of(pid, raw) matches Some(process) ==> process.cpu_millipercent == 0,
{
}

/// CPU usage is a one-interval derivative: it depends on the prior sample
/// and the new reading alone, and reading a process overwrites its sample
/// with the new counter and time whether or not a prior sample existed.
pub proof fn law_sample_overwritten(collector: CollectorView, pid: u32, raw: RawView)
    requires
        collector.snapshot_of(pid, raw) is Some,
    ensures
        collector.after_snapshot(pid, raw).prior(pid) == Some(
            CpuSample {
                total_ticks: saturated(
                    stat_fields(raw.stat.unwrap()).unwrap().utime + stat_fields(
                        raw.stat.unwrap(),
                    ).unwrap().stime,
                ),
                timestamp: raw.monotonic_nanos,
            },
        ),
        forall|other: u32|
            other != pid ==> collector.after_snapshot(pid, raw).prior(other) == collector.prior(
                other,
            ),
{
}

/// Usage in thousandths of a percent decides every whole-percent threshold
/// exactly: it is at or above `percent` exactly when the CPU time used
/// since the prior sample is at least `percent` hundredths of the time
/// elapsed.
pub proof fn law_usage_decides_thresholds(
    sample: CpuSample,
    total_ticks: u64,
    monotonic_nanos: u64,
    clock_ticks: u64,
    percent: u8,
)
    requires
        clock_ticks > 0,
        monotonic_nanos > sample.timestamp,
        total_ticks >= sample.total_ticks,
    ensures
        cpu_usage(Some(sample), total_ticks, monotonic_nanos, clock_ticks) >= percent * 1000 <==> (
        total_ticks - sample.total_ticks) * 100 * NANOS_PER_SECOND >= percent * (clock_ticks * (
        monotonic_nanos - sample.timestamp)),
{
    let used = total_ticks - sample.total_ticks;
    let span = clock_ticks * (monotonic_nanos - sample.timestamp);
    let work = used * MILLIPERCENT_PER_UNIT * NANOS_PER_SECOND;
    let bar = percent * 1000;
    assert(span > 0) by (nonlinear_arith)
        requires
            span == clock_ticks * (monotonic_nanos - sample.timestamp),
            clock_ticks > 0,
            monotonic_nanos - sample.timestamp > 0,
    ;
    assert(work / span >= bar <==> work >= bar * span) by (nonlinear_arith)
        requires
            span > 0,
            work >= 0,
            bar >= 0,
    ;
    assert(work >= bar * span <==> used * 100 * NANOS_PER_SECOND >= percent * span)
        by (nonlinear_arith)
        requires
            work == used * 100_000 * NANOS_PER_SECOND,
            bar == percent * 1000,
    ;
}

/// Every pid that a scan lists has a sample afterwards.
pub proof fn lemma_listed_pids_sampled(collector: CollectorView, entries: Seq<EntryView>)
    ensures
        forall|pid: u32|
            pids_of(scan(collector, entries).1).contains(pid) ==> #[trigger] scan(
                collector,
                entries,
            ).0.samples.contains_key(pid),
        scan(collector, entries).0.clock_ticks == collector.clock_ticks,
        scan(collector, entries).0.page_size == collector.page_size,
        scan(collector, entries).0.boot_time == collector.boot_time,
    decreases entries.len(),
{
    if entries.len() > 0 {
        let earlier = entries.drop_last();
        lemma_listed_pids_sampled(collector, earlier);
        let (before, found) = scan(collector, earlier);
        let (after, listed) = scan(collector, entries);
        let pid_at = |p: ProcessView| p.pid;
        assert forall|pid: u32| pids_of(listed).contains(pid) implies #[trigger] after.samples.contains_key(
            pid,
        ) by {
            let k = choose|k: int|
                0 <= k < listed.map_values(pid_at).len() && listed.map_values(pid_at)[k] == pid;
            if k < found.len() {
                assert(found.map_values(pid_at)[k] == pid);
            }
        }
    }
}

/// Purge of CPU state. After a batch the collector keeps the samples of
/// exactly the pids that the batch listed. A pid that is purged, by a batch
/// or by `cleanup_stale`, has no sample left: its next reading is a first
/// sighting and reports no CPU usage, even where the pid is reused.
pub proof fn law_purge_forgets_samples(
    collector: CollectorView,
    entries: Seq<EntryView>,
    active: Set<u32>,
    pid: u32,
    raw: RawView,
)
    ensures
        after_batch(collector, entries).samples.dom() == pids_of(scan(collector, entries).1),
        !pids_of(scan(collector, entries).1).contains(pid) ==> after_batch(
            collector,
            entries,
        ).prior(pid) is None,
        !active.contains(pid) ==> collector.after_cleanup(active).prior(pid) is None,
        !active.contains(pid) ==> (collector.after_cleanup(active).snapshot_of(pid, raw) matches Some(
            process,
        ) ==> process.cpu_millipercent == 0),
        active.contains(pid) ==> collector.after_cleanup(active).prior(pid) == collector.prior(pid),
{
    lemma_listed_pids_sampled(collector, entries);
}

} // verus!
