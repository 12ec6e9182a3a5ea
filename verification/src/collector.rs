//! Process snapshots and the sources that produce them.

use vstd::prelude::*;

pub mod linux;

verus! {

/// Thousandths of a percent in one percent: CPU usage is kept in this unit.
pub const MILLIPERCENT_PER_PERCENT: u64 = 1000;

/// Bytes in one mebibyte.
pub const BYTES_PER_MB: u64 = 1_048_576;

/// One poll's point-in-time reading of a process.
///
/// CPU usage is in thousandths of a percent of one core and memory in bytes,
/// so that thresholds given in whole percent and whole mebibytes compare
/// exactly.
#[derive(Debug, Clone)]
pub struct ProcessInfo {
    pub pid: u32,
    pub name: String,
    pub cmdline: String,
    pub cpu_millipercent: u64,
    pub memory_bytes: u64,
    pub runtime_seconds: u64,
    /// The kernel's state code: `R` running, `S` sleeping, `D` blocked,
    /// `T` stopped, or another letter.
    pub state: char,
    pub start_time: u64,
}

/// What a `ProcessInfo` holds, as plain values.
pub struct ProcessView {
    pub pid: u32,
    pub name: Seq<char>,
    pub cmdline: Seq<char>,
    pub cpu_millipercent: u64,
    pub memory_bytes: u64,
    pub runtime_seconds: u64,
    pub state: char,
    pub start_time: u64,
}

impl View for ProcessInfo {
    type V = ProcessView;

    open spec fn view(&self) -> ProcessView {
        ProcessView {
            pid: self.pid,
            name: self.name@,
            cmdline: self.cmdline@,
            cpu_millipercent: self.cpu_millipercent,
            memory_bytes: self.memory_bytes,
            runtime_seconds: self.runtime_seconds,
            state: self.state,
            start_time: self.start_time,
        }
    }
}

/// The pids of a batch of snapshots, in order.
pub open spec fn pid_list(processes: Seq<ProcessInfo>) -> Seq<u32> {
    processes.map_values(|p: ProcessInfo| p.pid)
}

/// The pids of a batch of snapshots, in order.
pub fn pids_in(processes: &Vec<ProcessInfo>) -> (pids: Vec<u32>)
    ensures
        pids@ == pid_list(processes@),
{
    let mut pids: Vec<u32> = Vec::new();
    let mut i: usize = 0;
    while i < processes.len()
        invariant
            i <= processes@.len(),
            pids@ == pid_list(processes@.take(i as int)),
        decreases processes@.len() - i,
    {
        pids.push(processes[i].pid);
        i += 1;
    }
    pids
}

/// A source of process snapshots. Reading the system is left to the caller:
/// a source is handed what was read and turns it into snapshots.
pub trait ProcessCollector: Send + Sync {
    /// The snapshots of one full batch, in the order of `entries`.
    fn list_processes(&mut self, entries: &Vec<linux::ProcEntry>) -> Vec<ProcessInfo>;

    /// The snapshot of the one process `pid`, if `raw` gives one.
    fn get_process(&mut self, pid: u32, raw: &linux::RawProcess) -> Option<ProcessInfo>;
}

} // verus!
