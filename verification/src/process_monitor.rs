//! The set of game processes whose lifetime the launcher is watching, so
//! that no process gets two watchers.
use vstd::prelude::*;
use std::collections::HashSet;

verus! {

broadcast use vstd::std_specs::hash::group_hash_axioms;

/// The ids of the processes that are being watched.
pub struct MonitoredProcesses {
    ids: HashSet<u32>,
}

impl View for MonitoredProcesses {
    type V = Set<u32>;

    closed spec fn view(&self) -> Set<u32> {
        self.ids@
    }
}

/// The watched set after asking to watch `pid`, and whether the request
/// was granted (it is refused for a process already watched).
pub open spec fn spec_try_register(watched: Set<u32>, pid: u32) -> (Set<u32>, bool) {
    (watched.insert(pid), !watched.contains(pid))
}

impl MonitoredProcesses {
    /// No process is watched yet.
    pub fn new() -> (r: Self)
        ensures
            r@ == Set::<u32>::empty(),
    {
        MonitoredProcesses { ids: HashSet::new() }
    }

    /// Starts watching `pid` unless it is watched already; says whether the
    /// caller is the one to watch it.
    pub fn try_register(&mut self, pid: u32) -> (r: bool)
        ensures
            (final(self)@, r) == spec_try_register(old(self)@, pid),
    {
        self.ids.insert(pid)
    }

    /// Stops watching `pid`.
    pub fn unregister(&mut self, pid: u32)
        ensures
            final(self)@ == old(self)@.remove(pid),
    {
        self.ids.remove(&pid);
    }

    /// Whether `pid` is being watched.
    pub fn is_monitored(&self, pid: u32) -> (r: bool)
        ensures
            r == self@.contains(pid),
    {
        self.ids.contains(&pid)
    }
}

/// A process gets at most one watcher: once a request to watch it was
/// granted, every further request is refused until it is released, and
/// after the release the next request is granted again.
pub proof fn lemma_one_watcher_per_process(watched: Set<u32>, pid: u32)
    ensures
        !spec_try_register(spec_try_register(watched, pid).0, pid).1,
        spec_try_register(spec_try_register(watched, pid).0.remove(pid), pid).1,
{
}

} // verus!
