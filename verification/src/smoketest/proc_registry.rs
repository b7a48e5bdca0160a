//! The helper processes that still have to be cleaned up.

use vstd::prelude::*;

verus! {

/// Identifiers of live helper processes, each at most once.
#[derive(Debug)]
pub struct ProcRegistry {
    pids: Vec<i32>,
}

impl View for ProcRegistry {
    type V = Set<i32>;

    closed spec fn view(&self) -> Set<i32> {
        self.pids@.to_set()
    }
}

impl ProcRegistry {
    /// Whether no identifier is held twice.
    pub closed spec fn well_formed(&self) -> bool {
        self.pids@.no_duplicates()
    }

    /// An empty registry.
    pub fn new() -> (r: Self)
        ensures
            r.well_formed(),
            r@ == Set::<i32>::empty(),
    {
        let r = ProcRegistry { pids: Vec::new() };
        assert(r@ =~= Set::empty());
        r
    }

    fn position(&self, pid: i32) -> (r: Option<usize>)
        ensures
            match r {
                Some(i) => i < self.pids@.len() && self.pids@[i as int] == pid,
                None => !self.pids@.contains(pid),
            },
    {
        let mut i: usize = 0;
        while i < self.pids.len()
            invariant
                i <= self.pids@.len(),
                forall|j: int| 0 <= j < i ==> self.pids@[j] != pid,
            decreases self.pids@.len() - i,
        {
            if self.pids[i] == pid {
                return Some(i);
            }
            i = i + 1;
        }
        None
    }
}

/// Note a process that has to be cleaned up.
pub fn register(registry: &mut ProcRegistry, pid: i32)
    requires
        old(registry).well_formed(),
    ensures
        final(registry).well_formed(),
        final(registry)@ == old(registry)@.insert(pid),
{
    if registry.position(pid).is_none() {
        registry.pids.push(pid);
    }
    proof {
        let before = old(registry).pids@;
        let after = registry.pids@;
        assert forall|x: i32| after.contains(x) <==> before.contains(x) || x == pid by {
            if before.contains(x) {
                let i = choose|i: int| 0 <= i < before.len() && before[i] == x;
                assert(after[i] == x);
            }
            if x == pid && !before.contains(pid) {
                assert(after[before.len() as int] == pid);
            }
        }
        assert(registry@ =~= old(registry)@.insert(pid));
    }
}

/// Forget a process that has ended.
pub fn unregister(registry: &mut ProcRegistry, pid: i32)
    requires
        old(registry).well_formed(),
    ensures
        final(registry).well_formed(),
        final(registry)@ == old(registry)@.remove(pid),
{
    let ghost before = registry.pids@;
    match registry.position(pid) {
        Some(i) => {
            let _ = registry.pids.remove(i);
            proof {
                let after = registry.pids@;
                assert(after =~= before.remove(i as int));
                assert forall|x: i32| after.contains(x) <==> before.contains(x) && x != pid by {
                    if before.contains(x) && x != pid {
                        let k = choose|k: int| 0 <= k < before.len() && before[k] == x;
                        let at = if k < i {
                            k
                        } else {
                            k - 1
                        };
                        assert(after[at] == x);
                    }
                    if after.contains(x) {
                        let k = choose|k: int| 0 <= k < after.len() && after[k] == x;
                        let at = if k < i {
                            k
                        } else {
                            k + 1
                        };
                        assert(before[at] == x);
                        assert(at != i);
                    }
                }
            }
        },
        None => {},
    }
    assert(registry@ =~= old(registry)@.remove(pid));
}

/// The processes that have to be cleaned up, each once.
pub fn snapshot(registry: &ProcRegistry) -> (r: Vec<i32>)
    requires
        registry.well_formed(),
    ensures
        r@.to_set() == registry@,
        r@.no_duplicates(),
{
    let mut out: Vec<i32> = Vec::new();
    let mut i: usize = 0;
    while i < registry.pids.len()
        invariant
            i <= registry.pids@.len(),
            out@ == registry.pids@.take(i as int),
        decreases registry.pids@.len() - i,
    {
        out.push(registry.pids[i]);
        i = i + 1;
    }
    assert(out@ =~= registry.pids@);
    out
}

} // verus!
