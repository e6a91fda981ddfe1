//! Round-robin placement of new controllers on the cores that run a poller.
//!
//! The policy owns its cursor: the core that was assigned last. It is not
//! shared state; a caller that places from several threads wraps the policy
//! in a lock of its own.

use vstd::prelude::*;

verus! {

/// Whether `core` is the lowest of `cores` that is not below `bound`.
pub open spec fn is_least_from(cores: Seq<u32>, bound: int, core: u32) -> bool {
    &&& cores.contains(core)
    &&& core >= bound
    &&& forall|i: int| 0 <= i < cores.len() && cores[i] >= bound ==> core <= #[trigger] cores[i]
}

/// The lowest of `cores` that is not below `bound`, if there is one. Neither
/// the order in which the cores are listed nor a core listed twice matters.
pub open spec fn spec_least_from(cores: Seq<u32>, bound: int) -> Option<u32> {
    if exists|core: u32| is_least_from(cores, bound, core) {
        Some(choose|core: u32| is_least_from(cores, bound, core))
    } else {
        None
    }
}

/// The core that is assigned next, given the core that was assigned last:
/// the lowest core for a start; then the core that follows, in ascending
/// order, the first core that is not below the last one; and the lowest core
/// again where nothing follows. `None` where there is no core at all.
pub open spec fn spec_next_core(last: Option<u32>, cores: Seq<u32>) -> Option<u32> {
    match last {
        None => spec_least_from(cores, 0),
        Some(last) => match spec_least_from(cores, last as int) {
            Some(found) => match spec_least_from(cores, found + 1) {
                Some(next) => Some(next),
                None => spec_least_from(cores, 0),
            },
            None => spec_least_from(cores, 0),
        },
    }
}

/// There is at most one lowest core from a bound on.
pub proof fn lemma_least_from(cores: Seq<u32>, bound: int, core: u32)
    requires
        is_least_from(cores, bound, core),
    ensures
        spec_least_from(cores, bound) == Some(core),
{
    let chosen = choose|c: u32| is_least_from(cores, bound, c);
    let i = choose|i: int| 0 <= i < cores.len() && cores[i] == core;
    let j = choose|j: int| 0 <= j < cores.len() && cores[j] == chosen;
    assert(chosen <= cores[i]);
    assert(core <= cores[j]);
}

/// The lowest of `cores` that is not below `bound`.
pub fn least_from(cores: &[u32], bound: u64) -> (least: Option<u32>)
    ensures
        least == spec_least_from(cores@, bound as int),
        least is None <==> forall|i: int| 0 <= i < cores@.len() ==> cores@[i] < bound,
{
    let mut least: Option<u32> = None;
    let mut i: usize = 0;
    while i < cores.len()
        invariant
            i <= cores.len(),
            least is None <==> forall|j: int| 0 <= j < i ==> cores@[j] < bound,
            least matches Some(core) ==> is_least_from(cores@.take(i as int), bound as int, core),
        decreases cores.len() - i,
    {
        let core = cores[i];
        let ghost seen = cores@.take(i as int);
        let ghost more = cores@.take(i + 1);
        assert(forall|j: int| 0 <= j < i ==> seen[j] == more[j]);
        assert(more[i as int] == core);
        if core as u64 >= bound {
            let lower = match least {
                Some(held) => core < held,
                None => true,
            };
            if lower {
                least = Some(core);
            } else {
                let ghost held = least->0;
                let ghost at = choose|j: int| 0 <= j < seen.len() && seen[j] == held;
                assert(more[at] == held);
            }
        } else if least.is_some() {
            let ghost held = least->0;
            let ghost at = choose|j: int| 0 <= j < seen.len() && seen[j] == held;
            assert(more[at] == held);
        }
        i = i + 1;
    }
    proof {
        assert(cores@.take(i as int) =~= cores@);
        match least {
            Some(core) => {
                lemma_least_from(cores@, bound as int, core);
                let at = choose|j: int| 0 <= j < cores@.len() && cores@[j] == core;
                assert(cores@[at] >= bound);
            },
            None => {
                assert forall|core: u32| !is_least_from(cores@, bound as int, core) by {
                    if is_least_from(cores@, bound as int, core) {
                        let at = choose|j: int| 0 <= j < cores@.len() && cores@[j] == core;
                        assert(cores@[at] < bound);
                    }
                }
            },
        }
    }
    least
}

/// The round-robin core selector.
#[derive(Debug)]
pub struct PlacementPolicy {
    last: Option<u32>,
}

impl PlacementPolicy {
    /// The core that was assigned last, `None` before the first assignment.
    pub closed spec fn cursor(&self) -> Option<u32> {
        self.last
    }

    /// A policy that has assigned nothing yet.
    pub fn new() -> (policy: Self)
        ensures
            policy.cursor() is None,
    {
        PlacementPolicy { last: None }
    }

    pub fn last_core(&self) -> (last: Option<u32>)
        ensures
            last == self.cursor(),
    {
        self.last
    }

    /// Assigns the next core of `cores`, the cores that are available now,
    /// and moves the cursor to it. Without a core to assign the cursor
    /// stays.
    pub fn next_core(&mut self, cores: &[u32]) -> (core: Option<u32>)
        ensures
            core == spec_next_core(old(self).cursor(), cores@),
            core is None <==> cores@.len() == 0,
            core matches Some(assigned) ==> cores@.contains(assigned),
            final(self).cursor() == if core is Some {
                core
            } else {
                old(self).cursor()
            },
    {
        let lowest = least_from(cores, 0);
        proof {
            if cores@.len() > 0 {
                assert(cores@[0] >= 0);
            }
            if lowest is Some {
                assert(is_least_from(cores@, 0, lowest->0));
            }
        }
        let core = match self.last {
            None => lowest,
            Some(last) => match least_from(cores, last as u64) {
                Some(found) => {
                    assert(is_least_from(cores@, last as int, found));
                    match least_from(cores, found as u64 + 1) {
                        Some(next) => {
                            assert(is_least_from(cores@, found + 1, next));
                            Some(next)
                        },
                        None => lowest,
                    }
                },
                None => lowest,
            },
        };
        if core.is_some() {
            self.last = core;
        }
        core
    }
}

/// The cursor after a number of assignments from one list of cores, the
/// first of them made by a fresh policy.
pub open spec fn spec_cursor_after(cores: Seq<u32>, calls: nat) -> Option<u32>
    decreases calls,
{
    if calls == 0 {
        None
    } else {
        spec_next_core(spec_cursor_after(cores, (calls - 1) as nat), cores)
    }
}

/// The cores of a list that are lower than `core`.
pub open spec fn cores_below(cores: Seq<u32>, core: u32) -> Set<u32> {
    cores.to_set().filter(|other: u32| other < core)
}

/// The lowest core has no core below it, and a core with none below it is
/// the lowest.
proof fn lemma_lowest(cores: Seq<u32>, core: u32)
    requires
        cores.contains(core),
    ensures
        is_least_from(cores, 0, core) <==> cores_below(cores, core).len() == 0,
        cores_below(cores, core).finite(),
        cores_below(cores, core).len() < cores.to_set().len(),
{
    broadcast use vstd::seq_lib::seq_to_set_is_finite;

    let all = cores.to_set();
    let below = cores_below(cores, core);
    assert(below.subset_of(all.remove(core)));
    vstd::set_lib::lemma_len_subset(below, all.remove(core));
    if is_least_from(cores, 0, core) {
        assert forall|other: u32| !below.contains(other) by {
            if below.contains(other) {
                let at = choose|i: int| 0 <= i < cores.len() && cores[i] == other;
                assert(core <= cores[at]);
            }
        }
        assert(below =~= Set::empty());
    }
    if below.len() == 0 {
        assert forall|i: int| 0 <= i < cores.len() && cores[i] >= 0 implies core
            <= #[trigger] cores[i] by {
            if cores[i] < core {
                assert(cores.contains(cores[i]));
                assert(below.contains(cores[i]));
            }
        }
    }
}

/// From an assigned core the cursor moves to the core with one more core
/// below it, and from the highest core to the lowest.
proof fn lemma_step(cores: Seq<u32>, core: u32)
    requires
        cores.contains(core),
    ensures
        spec_next_core(Some(core), cores) matches Some(next) && cores.contains(next) && (
        if cores_below(cores, core).len() + 1 < cores.to_set().len() {
            cores_below(cores, next).len() == cores_below(cores, core).len() + 1
        } else {
            is_least_from(cores, 0, next)
        }),
{
    broadcast use vstd::seq_lib::seq_to_set_is_finite;

    let all = cores.to_set();
    let below = cores_below(cores, core);
    lemma_lowest(cores, core);
    assert(is_least_from(cores, core as int, core));
    lemma_least_from(cores, core as int, core);
    let above: int = core + 1;
    if exists|next: u32| is_least_from(cores, above, next) {
        let next = choose|next: u32| is_least_from(cores, above, next);
        lemma_least_from(cores, above, next);
        lemma_lowest(cores, next);
        assert forall|other: u32| cores_below(cores, next).contains(other) <==> below.insert(
            core,
        ).contains(other) by {
            if all.contains(other) && core < other && other < next {
                let at = choose|i: int| 0 <= i < cores.len() && cores[i] == other;
                assert(next <= cores[at]);
            }
        }
        assert(cores_below(cores, next) =~= below.insert(core));
    } else {
        assert forall|other: u32| all.remove(core).contains(other) implies below.contains(
            other,
        ) by {
            if other > core {
                lemma_some_least_from(cores, above, other);
            }
        }
        assert(below =~= all.remove(core));
        lemma_some_least_from(cores, 0, core);
        let lowest = choose|lowest: u32| is_least_from(cores, 0, lowest);
        lemma_least_from(cores, 0, lowest);
    }
}

/// Where a core of the list is not below a bound, there is a lowest such
/// core.
proof fn lemma_some_least_from(cores: Seq<u32>, bound: int, core: u32)
    requires
        cores.contains(core),
        core >= bound,
    ensures
        exists|least: u32| is_least_from(cores, bound, least),
    decreases core - bound,
{
    if exists|i: int| 0 <= i < cores.len() && bound <= #[trigger] cores[i] && cores[i] < core {
        let at = choose|i: int|
            0 <= i < cores.len() && bound <= #[trigger] cores[i] && cores[i] < core;
        assert(cores.contains(cores[at]));
        lemma_some_least_from(cores, bound, cores[at]);
    } else {
        assert(is_least_from(cores, bound, core));
    }
}

/// The assignments of a fresh policy go up through the cores one by one:
/// the assignment numbered `calls` is a core with `calls - 1` cores below
/// it, as long as there are that many cores. So the first round assigns
/// every core once, in ascending order.
pub proof fn law_ascending(cores: Seq<u32>, calls: nat)
    requires
        1 <= calls <= cores.to_set().len(),
    ensures
        spec_cursor_after(cores, calls) matches Some(core) && cores.contains(core) && cores_below(
            cores,
            core,
        ).len() == calls - 1,
    decreases calls,
{
    broadcast use vstd::seq_lib::seq_to_set_is_finite;

    let first = cores.to_set().choose();
    assert(cores.to_set().len() > 0);
    assert(cores.to_set().contains(first));
    if calls == 1 {
        assert(spec_cursor_after(cores, 0) is None);
        lemma_some_least_from(cores, 0, first);
        let lowest = choose|lowest: u32| is_least_from(cores, 0, lowest);
        lemma_least_from(cores, 0, lowest);
        lemma_lowest(cores, lowest);
    } else {
        law_ascending(cores, (calls - 1) as nat);
        lemma_step(cores, spec_cursor_after(cores, (calls - 1) as nat)->0);
    }
}

/// The wrap-around law: with as many assignments as there are cores, a fresh
/// policy has assigned every core once, and the assignment after those is
/// the first core again. The cores are those of the list, however often and
/// in whatever order it names them.
pub proof fn law_wrap_around(cores: Seq<u32>)
    requires
        cores.len() > 0,
    ensures
        spec_cursor_after(cores, 1) == spec_least_from(cores, 0),
        spec_cursor_after(cores, 1) is Some,
        spec_cursor_after(cores, cores.to_set().len() + 1) == spec_cursor_after(cores, 1),
{
    broadcast use vstd::seq_lib::seq_to_set_is_finite;

    let count = cores.to_set().len();
    assert(cores.to_set().contains(cores[0]));
    assert(count > 0);
    law_ascending(cores, 1);
    law_ascending(cores, count);
    let last = spec_cursor_after(cores, count)->0;
    lemma_step(cores, last);
    let next = spec_next_core(Some(last), cores)->0;
    lemma_least_from(cores, 0, next);
    assert(spec_cursor_after(cores, count + 1) == spec_next_core(
        spec_cursor_after(cores, count),
        cores,
    ));
    assert(spec_cursor_after(cores, 0) is None);
}

/// Every round is like the first: an assignment is repeated once there have
/// been as many more as there are cores.
pub proof fn law_rounds_repeat(cores: Seq<u32>, calls: nat)
    requires
        cores.len() > 0,
        calls >= 1,
    ensures
        spec_cursor_after(cores, calls + cores.to_set().len()) == spec_cursor_after(cores, calls),
    decreases calls,
{
    let count = cores.to_set().len();
    if calls == 1 {
        law_wrap_around(cores);
    } else {
        law_rounds_repeat(cores, (calls - 1) as nat);
        assert(spec_cursor_after(cores, calls + count) == spec_next_core(
            spec_cursor_after(cores, (calls - 1 + count) as nat),
            cores,
        ));
    }
}

} // verus!
