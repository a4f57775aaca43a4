//! The recovery loader's plan: after the store's healing reset, every pending
//! task is scheduled again, with the time left until its deadline, floored to
//! the minimum delay.

use vstd::prelude::*;
use crate::task::Task;
use crate::timing::{read_deadline, recovery_delay, recovery_delay_ms, rfc3339_instant};

verus! {

/// Why the pending tasks cannot be scheduled again.
#[derive(Clone, Copy, Debug, PartialEq, Eq, Structural)]
pub enum RecoveryError {
    /// A stored execution time is not RFC 3339.
    UnreadableDeadline,
}

/// Whether the stored execution time of every task can be read.
pub open spec fn all_readable(tasks: Seq<Task>) -> bool {
    forall|i: int| 0 <= i < tasks.len() ==> (rfc3339_instant(#[trigger] tasks[i].execution_time_spec()) is Some)
}

/// The instant of a task whose execution time can be read.
pub open spec fn instant_of(t: Task) -> int {
    rfc3339_instant(t.execution_time_spec())->Some_0.0
}

/// The delay at `now_ms` of a task whose execution time can be read.
pub open spec fn delay_of(t: Task, now_ms: int) -> int {
    recovery_delay(instant_of(t), now_ms)
}

/// Whether `perm` lists each index below `n` exactly once.
pub open spec fn is_permutation(perm: Seq<int>, n: nat) -> bool {
    &&& perm.len() == n
    &&& forall|k: int| 0 <= k < n ==> 0 <= #[trigger] perm[k] < n
    &&& forall|a: int, b: int| 0 <= a < n && 0 <= b < n && a != b ==> perm[a] != perm[b]
}

/// Whether the keys never decrease.
pub open spec fn keys_ordered(keys: Seq<i64>) -> bool {
    forall|a: int, b: int| 0 <= a < b < keys.len() ==> keys[a] <= keys[b]
}

/// Where a key goes among ordered keys: after every key not above it.
fn insertion_point(keys: &Vec<i64>, m: i64) -> (j: usize)
    requires
        keys_ordered(keys@),
    ensures
        j <= keys@.len(),
        forall|k: int| 0 <= k < j ==> keys@[k] <= m,
        forall|k: int| j <= k < keys@.len() ==> keys@[k] > m,
{
    let mut j: usize = 0;
    while j < keys.len() && keys[j] <= m
        invariant
            j <= keys@.len(),
            forall|k: int| 0 <= k < j ==> keys@[k] <= m,
        decreases keys@.len() - j,
    {
        j = j + 1;
    }
    proof {
        assert forall|k: int| j <= k < keys@.len() implies keys@[k] > m by {
            if k > j {
                assert(keys@[j as int] <= keys@[k]);
            }
        }
    }
    j
}

/// Schedules the pending tasks at `now_ms`, each with its delay, in the order
/// of their instants, tasks with equal instants in their given order. Fails
/// where any stored execution time cannot be read: the scheduler then does
/// not start.
pub fn recovery_plan(tasks: Vec<Task>, now_ms: i64) -> (r: Result<Vec<(u64, Task)>, RecoveryError>)
    ensures
        all_readable(tasks@) == (r is Ok),
        r matches Err(e) ==> e == RecoveryError::UnreadableDeadline,
        r matches Ok(plan) ==> plan@.len() == tasks@.len() && exists|perm: Seq<int>|
            {
                &&& is_permutation(perm, tasks@.len())
                &&& forall|i: int|
                    0 <= i < plan@.len() ==> #[trigger] plan@[i].1 == tasks@[perm[i]]
                        && plan@[i].0 as int == delay_of(tasks@[perm[i]], now_ms as int)
                &&& forall|a: int, b: int|
                    0 <= a < b < plan@.len() ==> instant_of(plan@[a].1) < instant_of(plan@[b].1)
                        || (instant_of(plan@[a].1) == instant_of(plan@[b].1) && perm[a] < perm[b])
            },
{
    let ghost all = tasks@;
    let n = tasks.len();
    let mut rest = tasks;
    let mut plan: Vec<(u64, Task)> = Vec::new();
    let mut keys: Vec<i64> = Vec::new();
    let ghost mut perm: Seq<int> = Seq::empty();
    let mut i: usize = 0;
    while i < n
        invariant
            0 <= i <= n,
            n == all.len(),
            all == tasks@,
            rest@ == all.subrange(i as int, n as int),
            plan@.len() == i,
            keys@.len() == i,
            is_permutation(perm, i as nat),
            keys_ordered(keys@),
            forall|k: int| 0 <= k < i ==> (rfc3339_instant(#[trigger] all[k].execution_time_spec()) is Some),
            forall|k: int|
                0 <= k < i ==> #[trigger] plan@[k].1 == all[perm[k]] && plan@[k].0 as int == delay_of(
                    all[perm[k]],
                    now_ms as int,
                ) && keys@[k] as int == instant_of(all[perm[k]]),
            forall|a: int, b: int|
                0 <= a < b < i && keys@[a] == keys@[b] ==> perm[a] < perm[b],
        decreases n - i,
    {
        let t = rest.remove(0);
        assert(t == all[i as int]);
        let deadline = match read_deadline(t.execution_time().as_str()) {
            Ok(d) => d,
            Err(_) => {
                assert(rfc3339_instant(all[i as int].execution_time_spec()) is None);
                assert(!all_readable(all));
                return Err(RecoveryError::UnreadableDeadline);
            },
        };
        let delay = recovery_delay_ms(deadline.millis, now_ms);
        let j = insertion_point(&keys, deadline.millis);
        let ghost old_plan = plan@;
        let ghost old_keys = keys@;
        let ghost old_perm = perm;
        plan.insert(j, (delay, t));
        keys.insert(j, deadline.millis);
        proof {
            perm = perm.insert(j as int, i as int);
            assert forall|k: int| 0 <= k < i + 1 implies 0 <= #[trigger] perm[k] < i + 1 by {
                if k > j {
                    assert(perm[k] == old_perm[k - 1]);
                }
            }
            assert forall|a: int, b: int|
                0 <= a < i + 1 && 0 <= b < i + 1 && a != b implies perm[a] != perm[b] by {
                if a != j && b != j {
                    let oa = if a < j { a } else { a - 1 };
                    let ob = if b < j { b } else { b - 1 };
                    assert(perm[a] == old_perm[oa]);
                    assert(perm[b] == old_perm[ob]);
                } else if a == j {
                    let ob = if b < j { b } else { b - 1 };
                    assert(perm[b] == old_perm[ob]);
                } else {
                    let oa = if a < j { a } else { a - 1 };
                    assert(perm[a] == old_perm[oa]);
                }
            }
            assert forall|a: int, b: int| 0 <= a < b < keys@.len() implies keys@[a] <= keys@[b] by {
                if a < j && b > j {
                    assert(keys@[b] == old_keys[b - 1]);
                } else if a > j {
                    assert(keys@[a] == old_keys[a - 1]);
                    assert(keys@[b] == old_keys[b - 1]);
                }
            }
            assert forall|k: int|
                0 <= k < i + 1 implies #[trigger] plan@[k].1 == all[perm[k]] && plan@[k].0 as int
                == delay_of(all[perm[k]], now_ms as int) && keys@[k] as int == instant_of(
                all[perm[k]],
            ) by {
                if k < j {
                    assert(plan@[k] == old_plan[k]);
                } else if k > j {
                    assert(plan@[k] == old_plan[k - 1]);
                    assert(keys@[k] == old_keys[k - 1]);
                    assert(perm[k] == old_perm[k - 1]);
                }
            }
            assert forall|a: int, b: int|
                0 <= a < b < i + 1 && keys@[a] == keys@[b] implies perm[a] < perm[b] by {
                if b == j {
                } else if a == j {
                    assert(keys@[b] == old_keys[b - 1]);
                } else {
                    let oa = if a < j { a } else { a - 1 };
                    let ob = if b < j { b } else { b - 1 };
                    assert(perm[a] == old_perm[oa]);
                    assert(perm[b] == old_perm[ob]);
                    assert(keys@[a] == old_keys[oa]);
                    assert(keys@[b] == old_keys[ob]);
                }
            }
            assert(rest@ =~= all.subrange(i + 1, n as int));
        }
        i = i + 1;
    }
    proof {
        assert forall|a: int, b: int| 0 <= a < b < plan@.len() implies instant_of(plan@[a].1)
            < instant_of(plan@[b].1) || (instant_of(plan@[a].1) == instant_of(plan@[b].1) && perm[a]
            < perm[b]) by {
            assert(keys@[a] as int == instant_of(plan@[a].1));
            assert(keys@[b] as int == instant_of(plan@[b].1));
        }
    }
    Ok(plan)
}

} // verus!
