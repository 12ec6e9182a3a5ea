//! Records of the persistent store, and the retention rule.

use vstd::prelude::*;

verus! {

/// Seconds in one day.
pub const SECONDS_PER_DAY: i64 = 86_400;

/// A stored alert.
#[derive(Debug, Clone)]
pub struct AlertRecord {
    pub id: i64,
    pub timestamp: i64,
    pub pid: u32,
    pub name: String,
    pub cmdline: String,
    pub reason: String,
    pub severity: String,
    pub resolved: bool,
    pub action_taken: Option<String>,
}

/// A stored whitelist entry.
#[derive(Debug, Clone)]
pub struct WhitelistEntry {
    pub id: i64,
    pub pattern: String,
    pub match_type: String,
    pub reason: Option<String>,
}

/// What a `WhitelistEntry` holds, as plain values.
pub struct WhitelistEntryView {
    pub id: i64,
    pub pattern: Seq<char>,
    pub match_type: Seq<char>,
    pub reason: Option<Seq<char>>,
}

impl View for WhitelistEntry {
    type V = WhitelistEntryView;

    open spec fn view(&self) -> WhitelistEntryView {
        WhitelistEntryView {
            id: self.id,
            pattern: self.pattern@,
            match_type: self.match_type@,
            reason: match self.reason {
                Some(text) => Some(text@),
                None => None,
            },
        }
    }
}

/// The time before which data kept for `days` days is old, for the current
/// time `now`; the earliest time that can be written where that lies
/// further back.
pub open spec fn cutoff(now: i64, days: u32) -> i64 {
    if now - days * SECONDS_PER_DAY < i64::MIN {
        i64::MIN
    } else {
        (now - days * SECONDS_PER_DAY) as i64
    }
}

/// The time before which data kept for `days` days is old.
pub fn retention_cutoff(now: i64, days: u32) -> (limit: i64)
    ensures
        limit == cutoff(now, days),
{
    let span: i64 = days as i64 * SECONDS_PER_DAY;
    if now < i64::MIN + span {
        i64::MIN
    } else {
        now - span
    }
}

} // verus!
