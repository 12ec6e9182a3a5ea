//! Purging of state that is kept per process id.

use std::collections::HashMap;
use vstd::prelude::*;

verus! {

broadcast use vstd::std_specs::hash::group_hash_axioms;

/// Whether `pid` is among the first `count` of `pids`.
spec fn among(pids: Seq<u32>, count: int, pid: u32) -> bool {
    exists|k: int| 0 <= k < count && pids[k] == pid
}

/// Drops from `map` every entry whose pid is not in `active_pids` and keeps
/// the others as they are.
pub fn retain_pids<V>(map: &mut HashMap<u32, V>, active_pids: &[u32])
    ensures
        final(map)@ == old(map)@.restrict(active_pids@.to_set()),
{
    let mut kept: HashMap<u32, V> = HashMap::new();
    let mut i: usize = 0;
    while i < active_pids.len()
        invariant
            i <= active_pids@.len(),
            forall|pid: u32|
                #[trigger] kept@.contains_key(pid) <==> old(map)@.contains_key(pid) && among(
                    active_pids@,
                    i as int,
                    pid,
                ),
            forall|pid: u32| #[trigger] kept@.contains_key(pid) ==> kept@[pid] == old(map)@[pid],
            forall|pid: u32|
                #[trigger] map@.contains_key(pid) <==> old(map)@.contains_key(pid) && !among(
                    active_pids@,
                    i as int,
                    pid,
                ),
            forall|pid: u32| #[trigger] map@.contains_key(pid) ==> map@[pid] == old(map)@[pid],
        decreases active_pids@.len() - i,
    {
        let pid: u32 = active_pids[i];
        assert(forall|p: u32|
            among(active_pids@, i + 1, p) <==> (among(active_pids@, i as int, p) || p == pid));
        match map.remove(&pid) {
            Some(value) => {
                kept.insert(pid, value);
            },
            None => {},
        }
        i += 1;
    }
    *map = kept;
    assert(forall|pid: u32|
        among(active_pids@, i as int, pid) <==> active_pids@.to_set().contains(pid));
}

} // verus!
