//! Preemptive round-robin scheduler.
//!
//! The scheduler is driven by the timer IRQ (IRQ0 at 100 Hz).  On each tick
//! it decrements the current task's time-slice counter.  When it reaches zero
//! the task is moved to the back of the ready queue and the next task is
//! selected.
//!
//! Context switching is performed via an inline-assembly stub that saves all
//! callee-saved registers onto the current task's kernel stack and restores
//! those of the next task.
pub mod task;

use std::collections::VecDeque;
use task::{Task, TaskId, TaskState, DEFAULT_TIMESLICE};
use vstd::prelude::*;

verus! {

// ── Model ────────────────────────────────────────────────────────────────────

/// `t` with its state replaced by `s`.
pub open spec fn with_state(t: Task, s: TaskState) -> Task {
    Task { state: s, ..t }
}

/// `t` with one tick less of its time slice.
pub open spec fn with_tick_used(t: Task) -> Task {
    Task { ticks_remaining: (t.ticks_remaining - 1) as u32, ..t }
}

/// `t` at the end of its time slice: it gets a fresh slice, and a running
/// task goes back to `Ready`.  A task in any other state keeps it: a blocked
/// task stays blocked until it is unblocked.
pub open spec fn with_slice_expired(t: Task) -> Task {
    Task {
        state: if t.state == TaskState::Running { TaskState::Ready } else { t.state },
        ticks_remaining: DEFAULT_TIMESLICE,
        ..t
    }
}

/// The queue with the task at `idx`, as `t`, moved to the back.
pub open spec fn moved_to_back(q: Seq<Task>, idx: int, t: Task) -> Seq<Task> {
    q.remove(idx).push(t)
}

/// The index of the first `Ready` task of `q` at or after `from`, or the
/// length of `q` when there is none.
pub open spec fn first_ready(q: Seq<Task>, from: int) -> int
    decreases q.len() - from,
{
    if from >= q.len() {
        q.len() as int
    } else if q[from].state == TaskState::Ready {
        from
    } else {
        first_ready(q, from + 1)
    }
}

/// The index of the first task of `q` at or after `from` that has the
/// identifier `id` and is `Blocked`, or the length of `q` when there is none.
pub open spec fn first_blocked_with_id(q: Seq<Task>, id: TaskId, from: int) -> int
    decreases q.len() - from,
{
    if from >= q.len() {
        q.len() as int
    } else if q[from].id == id && q[from].state == TaskState::Blocked {
        from
    } else {
        first_blocked_with_id(q, id, from + 1)
    }
}

/// Selecting the next task: the first `Ready` task of the queue becomes
/// `Running` and current, or, when no task is ready, there is no current
/// task.  The result holds the new queue, the new current index and whether
/// a context switch is needed: a task was selected, and it is not the one
/// that was running, which stands at `previous` if there was one.
pub open spec fn select_next_outcome(q: Seq<Task>, previous: Option<usize>) -> (
    Seq<Task>,
    Option<usize>,
    bool,
) {
    let i = first_ready(q, 0);
    if 0 <= i < q.len() {
        (q.update(i, with_state(q[i], TaskState::Running)), Some(i as usize), previous != Some(i as usize))
    } else {
        (q, None, false)
    }
}

/// One timer tick: the current task uses up one tick of its slice.  When its
/// slice runs out, it is moved to the back of the queue with a fresh slice
/// (a running task becomes `Ready`; a blocked one stays blocked), and the
/// next task is selected.  Without a current task, the next task is selected
/// straight away, and no task moves: only a task whose slice ran out goes to
/// the back, so the queue is served in the order the tasks were spawned.
///
/// What a tick keeps holds of this outcome on every state, whatever the
/// switch counter: see `lemma_tick_keeps_tasks`, `lemma_tick_keeps_blocked`,
/// `lemma_expired_task_to_back` and `lemma_tick_running_only`.
pub open spec fn tick_outcome(q: Seq<Task>, cur: Option<usize>) -> (Seq<Task>, Option<usize>, bool) {
    match cur {
        Some(idx) => if idx < q.len() {
            if q[idx as int].ticks_remaining > 1 {
                (q.update(idx as int, with_tick_used(q[idx as int])), cur, false)
            } else {
                select_next_outcome(
                    moved_to_back(q, idx as int, with_slice_expired(q[idx as int])),
                    Some((q.len() - 1) as usize),
                )
            }
        } else {
            select_next_outcome(q, None)
        },
        None => select_next_outcome(q, None),
    }
}

/// Every task that is `Running` sits at the current index.
pub open spec fn running_only_at(q: Seq<Task>, cur: Option<usize>) -> bool {
    forall|i: int| 0 <= i < q.len() && #[trigger] q[i].state == TaskState::Running ==> cur == Some(i as usize)
}

/// No task of `q` is `Running`.
pub open spec fn none_running(q: Seq<Task>) -> bool {
    forall|i: int| 0 <= i < q.len() ==> #[trigger] q[i].state != TaskState::Running
}

/// The first ready task is found at or after where the search starts, and
/// it is ready unless the search ran off the end.
proof fn lemma_first_ready_bounds(q: Seq<Task>, from: int)
    requires
        0 <= from <= q.len(),
    ensures
        from <= first_ready(q, from) <= q.len(),
        first_ready(q, from) < q.len() ==> q[first_ready(q, from)].state == TaskState::Ready,
    decreases q.len() - from,
{
    if from < q.len() && q[from].state != TaskState::Ready {
        lemma_first_ready_bounds(q, from + 1);
    }
}

/// The first ready task comes no later than any ready task at or after
/// where the search starts.
proof fn lemma_first_ready_le(q: Seq<Task>, from: int, p: int)
    requires
        0 <= from <= p < q.len(),
        q[p].state == TaskState::Ready,
    ensures
        first_ready(q, from) <= p,
    decreases p - from,
{
    if from < p && q[from].state != TaskState::Ready {
        lemma_first_ready_le(q, from + 1, p);
    }
}

/// The first ready task comes no sooner than `p` when none is ready from
/// where the search starts up to `p`.
proof fn lemma_first_ready_ge(q: Seq<Task>, from: int, p: int)
    requires
        0 <= from <= p <= q.len(),
        forall|k: int| from <= k < p ==> #[trigger] q[k].state != TaskState::Ready,
    ensures
        first_ready(q, from) >= p,
    decreases p - from,
{
    if from < p {
        assert(q[from].state != TaskState::Ready);
        lemma_first_ready_ge(q, from + 1, p);
    } else {
        lemma_first_ready_bounds(q, from);
    }
}

/// Selecting from a queue where nothing runs leaves at most the selected task
/// running, at the new current index.
proof fn lemma_select_next_running_only(q: Seq<Task>, previous: Option<usize>)
    requires
        none_running(q),
    ensures
        running_only_at(select_next_outcome(q, previous).0, select_next_outcome(q, previous).1),
{
    lemma_first_ready_bounds(q, 0);
    let i = first_ready(q, 0);
    if i < q.len() {
        let u = q.update(i, with_state(q[i], TaskState::Running));
        assert forall|k: int| 0 <= k < u.len() && #[trigger] u[k].state == TaskState::Running implies Some(
            k as usize,
        ) == Some(i as usize) by {
            if k != i {
                assert(u[k] == q[k]);
            }
        }
    }
}

/// The identifiers of the tasks of `q`, in queue order.
pub open spec fn task_ids(q: Seq<Task>) -> Seq<TaskId> {
    q.map_values(|t: Task| t.id)
}

/// Replacing a task by one with the same identifier keeps the identifiers.
proof fn lemma_task_ids_update(q: Seq<Task>, i: int, t: Task)
    requires
        0 <= i < q.len(),
        t.id == q[i].id,
    ensures
        task_ids(q.update(i, t)) == task_ids(q),
{
    assert(task_ids(q.update(i, t)) =~= task_ids(q));
}

/// Moving a task to the back, under the same identifier, keeps every task.
proof fn lemma_moved_to_back_task_ids(q: Seq<Task>, idx: int, t: Task)
    requires
        0 <= idx < q.len(),
        t.id == q[idx].id,
    ensures
        task_ids(moved_to_back(q, idx, t)).to_multiset() == task_ids(q).to_multiset(),
{
    broadcast use vstd::multiset::group_multiset_axioms;

    let ids = task_ids(q);
    assert(task_ids(moved_to_back(q, idx, t)) =~= ids.remove(idx).push(ids[idx]));
    vstd::seq_lib::to_multiset_build(ids.remove(idx), ids[idx]);
    vstd::seq_lib::to_multiset_remove(ids, idx);
    ids.to_multiset_ensures();
    assert(ids.contains(ids[idx]));
    assert(ids.remove(idx).push(ids[idx]).to_multiset() =~= ids.to_multiset());
}

/// A timer tick neither loses nor duplicates a task: the run queue holds the
/// same tasks, by identifier, before and after.
pub proof fn lemma_tick_keeps_tasks(q: Seq<Task>, cur: Option<usize>)
    ensures
        task_ids(tick_outcome(q, cur).0).to_multiset() == task_ids(q).to_multiset(),
{
    let mut q1 = q;
    if let Some(idx) = cur {
        if idx < q.len() {
            if q[idx as int].ticks_remaining > 1 {
                lemma_task_ids_update(q, idx as int, with_tick_used(q[idx as int]));
                return;
            }
            lemma_moved_to_back_task_ids(q, idx as int, with_slice_expired(q[idx as int]));
            q1 = moved_to_back(q, idx as int, with_slice_expired(q[idx as int]));
        }
    }
    lemma_first_ready_bounds(q1, 0);
    let i = first_ready(q1, 0);
    if i < q1.len() {
        lemma_task_ids_update(q1, i, with_state(q1[i], TaskState::Running));
    }
}

/// Where the task at position `j` of the queue after a tick stood before
/// it: a task whose slice ran out leaves its place for the back, and the
/// tasks behind it move up by one.
pub open spec fn tick_source(q: Seq<Task>, cur: Option<usize>, j: int) -> int {
    match cur {
        Some(idx) => if idx < q.len() && q[idx as int].ticks_remaining <= 1 {
            if j < idx {
                j
            } else if j < q.len() - 1 {
                j + 1
            } else {
                idx as int
            }
        } else {
            j
        },
        None => j,
    }
}

/// Selecting the next task changes no task but the selected one, which was
/// `Ready` and becomes `Running`.
proof fn lemma_select_changes_one(q: Seq<Task>, previous: Option<usize>)
    ensures
        select_next_outcome(q, previous).0.len() == q.len(),
        forall|j: int|
            0 <= j < q.len() ==> {
                let r = #[trigger] select_next_outcome(q, previous).0[j];
                &&& r.id == q[j].id
                &&& r.name == q[j].name
                &&& r.stack == q[j].stack
                &&& r.context == q[j].context
                &&& r.ticks_remaining == q[j].ticks_remaining
                &&& (r.state == q[j].state || (q[j].state == TaskState::Ready && r.state
                    == TaskState::Running))
            },
{
    lemma_first_ready_bounds(q, 0);
}

/// Selecting runs the first ready task of the queue: the selected task was
/// `Ready`, no task before it is, and it alone changes, to `Running`; with
/// no ready task nothing is selected and nothing changes.
pub proof fn lemma_select_runs_first_ready(q: Seq<Task>, previous: Option<usize>)
    requires
        q.len() <= usize::MAX,
    ensures
        ({
            let (r, sel, _) = select_next_outcome(q, previous);
            match sel {
                Some(i) => {
                    &&& i < q.len()
                    &&& q[i as int].state == TaskState::Ready
                    &&& forall|k: int| 0 <= k < i ==> #[trigger] q[k].state != TaskState::Ready
                    &&& r == q.update(i as int, with_state(q[i as int], TaskState::Running))
                },
                None => {
                    &&& forall|k: int| 0 <= k < q.len() ==> #[trigger] q[k].state != TaskState::Ready
                    &&& r == q
                },
            }
        }),
{
    lemma_first_ready_bounds(q, 0);
    let i = first_ready(q, 0);
    assert forall|k: int| 0 <= k < i implies #[trigger] q[k].state != TaskState::Ready by {
        if q[k].state == TaskState::Ready {
            lemma_first_ready_le(q, 0, k);
        }
    }
}

/// A tick that selects (the current task's slice ran out, or there was no
/// current task) runs the first ready task of the resulting queue: no
/// `Ready` task stands before the new current index, which holds the
/// `Running` task; when nothing is selected no task is left `Ready`.  So
/// the ready tasks take their turns in queue order.
pub proof fn lemma_tick_runs_first_ready(q: Seq<Task>, cur: Option<usize>)
    requires
        q.len() <= usize::MAX,
        !(cur matches Some(idx) && idx < q.len() && q[idx as int].ticks_remaining > 1),
    ensures
        ({
            let (r, sel, _) = tick_outcome(q, cur);
            &&& r.len() == q.len()
            &&& match sel {
                Some(i) => {
                    &&& i < r.len()
                    &&& r[i as int].state == TaskState::Running
                    &&& forall|k: int| 0 <= k < i ==> #[trigger] r[k].state != TaskState::Ready
                },
                None => forall|k: int| 0 <= k < r.len() ==> #[trigger] r[k].state != TaskState::Ready,
            }
        }),
{
    let m = match cur {
        Some(idx) => if idx < q.len() {
            moved_to_back(q, idx as int, with_slice_expired(q[idx as int]))
        } else {
            q
        },
        None => q,
    };
    let prev = match cur {
        Some(idx) => if idx < q.len() {
            Some((q.len() - 1) as usize)
        } else {
            None
        },
        None => None,
    };
    assert(tick_outcome(q, cur) == select_next_outcome(m, prev));
    lemma_select_runs_first_ready(m, prev);
    let (r, sel, _) = select_next_outcome(m, prev);
    match sel {
        Some(i) => {
            assert forall|k: int| 0 <= k < i implies #[trigger] r[k].state != TaskState::Ready by {
                assert(r[k] == m[k]);
            }
        },
        None => {},
    }
}

/// A timer tick loses, adds and duplicates no task, puts each one where the
/// round robin says with its identifier, name, stack and saved context, and
/// moves no task into or out of `Blocked`: a blocked task stays blocked
/// until it is unblocked, and is never the one selected to run.
pub proof fn lemma_tick_keeps_blocked(q: Seq<Task>, cur: Option<usize>)
    ensures
        tick_outcome(q, cur).0.len() == q.len(),
        forall|j: int|
            0 <= j < q.len() ==> {
                let s = tick_source(q, cur, j);
                let r = #[trigger] tick_outcome(q, cur).0[j];
                &&& 0 <= s < q.len()
                &&& r.id == q[s].id
                &&& r.name == q[s].name
                &&& r.stack == q[s].stack
                &&& r.context == q[s].context
                &&& (r.state == TaskState::Blocked <==> q[s].state == TaskState::Blocked)
            },
{
    match cur {
        Some(idx) => {
            if idx < q.len() {
                if q[idx as int].ticks_remaining > 1 {
                    return;
                }
                let m = moved_to_back(q, idx as int, with_slice_expired(q[idx as int]));
                lemma_select_changes_one(m, Some((q.len() - 1) as usize));
                assert forall|j: int| 0 <= j < q.len() implies #[trigger] m[j].id == q[tick_source(
                    q,
                    cur,
                    j,
                )].id && m[j].name == q[tick_source(q, cur, j)].name && m[j].stack == q[tick_source(
                    q,
                    cur,
                    j,
                )].stack && m[j].context == q[tick_source(q, cur, j)].context && (m[j].state
                    == TaskState::Blocked <==> q[tick_source(q, cur, j)].state == TaskState::Blocked) by {
                    if j < idx {
                        assert(m[j] == q[j]);
                    } else if j < q.len() - 1 {
                        assert(m[j] == q[j + 1]);
                    }
                }
            } else {
                lemma_select_changes_one(q, None);
            }
        },
        None => {
            lemma_select_changes_one(q, None);
        },
    }
}

/// When the current task's slice runs out, it goes to the back of the queue
/// with a fresh slice, behind the other tasks in their old order; a blocked
/// task goes there still blocked.
pub proof fn lemma_expired_task_to_back(q: Seq<Task>, idx: usize)
    requires
        idx < q.len(),
        q[idx as int].ticks_remaining <= 1,
    ensures
        ({
            let r = tick_outcome(q, Some(idx)).0;
            &&& r.len() == q.len()
            &&& r.last().id == q[idx as int].id
            &&& r.last().ticks_remaining == DEFAULT_TIMESLICE
            &&& task_ids(r) == task_ids(q.remove(idx as int)).push(q[idx as int].id)
            &&& (q[idx as int].state == TaskState::Blocked ==> r.last().state == TaskState::Blocked)
        }),
{
    let m = moved_to_back(q, idx as int, with_slice_expired(q[idx as int]));
    lemma_select_changes_one(m, Some((q.len() - 1) as usize));
    let r = tick_outcome(q, Some(idx)).0;
    assert(r[r.len() - 1] == r.last());
    assert(task_ids(r) =~= task_ids(q.remove(idx as int)).push(q[idx as int].id)) by {
        assert forall|j: int| 0 <= j < r.len() implies #[trigger] task_ids(r)[j] == task_ids(
            q.remove(idx as int),
        ).push(q[idx as int].id)[j] by {
            assert(r[j].id == m[j].id);
        }
    }
}

/// A timer tick keeps "only the current task runs": whatever the switch
/// counter, at most the task at the new current index is `Running`.  (The
/// queue's length fits in `usize`, as that of any run queue does.)
pub proof fn lemma_tick_running_only(q: Seq<Task>, cur: Option<usize>)
    requires
        q.len() <= usize::MAX,
        running_only_at(q, cur),
    ensures
        running_only_at(tick_outcome(q, cur).0, tick_outcome(q, cur).1),
{
    match cur {
        Some(idx) => {
            if idx < q.len() {
                if q[idx as int].ticks_remaining > 1 {
                    let u = q.update(idx as int, with_tick_used(q[idx as int]));
                    assert forall|i: int| 0 <= i < u.len() && #[trigger] u[i].state == TaskState::Running implies cur
                        == Some(i as usize) by {
                        if i != idx {
                            assert(u[i] == q[i]);
                        }
                    }
                    return;
                }
                let m = moved_to_back(q, idx as int, with_slice_expired(q[idx as int]));
                assert forall|i: int| 0 <= i < m.len() implies #[trigger] m[i].state != TaskState::Running by {
                    if i < idx {
                        assert(m[i] == q[i]);
                        if q[i].state == TaskState::Running {
                            assert(cur == Some(i as usize));
                        }
                    } else if i < m.len() - 1 {
                        assert(m[i] == q[i + 1]);
                        if q[i + 1].state == TaskState::Running {
                            assert(cur == Some((i + 1) as usize));
                        }
                    } else {
                        assert(m[i] == with_slice_expired(q[idx as int]));
                    }
                }
                lemma_select_next_running_only(m, Some((q.len() - 1) as usize));
                return;
            }
        },
        None => {},
    }
    assert forall|i: int| 0 <= i < q.len() implies #[trigger] q[i].state != TaskState::Running by {
        if q[i].state == TaskState::Running {
            assert(cur == Some(i as usize));
        }
    }
    lemma_select_next_running_only(q, None);
}

/// Every task of `q` has its own identifier.
pub open spec fn unique_ids(q: Seq<Task>) -> bool {
    forall|i: int, j: int|
        0 <= i < q.len() && 0 <= j < q.len() && i != j ==> #[trigger] q[i].id != #[trigger] q[j].id
}

/// The queue after `block_current`.
pub open spec fn block_outcome(q: Seq<Task>, cur: Option<usize>) -> Seq<Task> {
    match cur {
        Some(idx) => if idx < q.len() {
            q.update(idx as int, with_state(q[idx as int], TaskState::Blocked))
        } else {
            q
        },
        None => q,
    }
}

/// The queue after `unblock(id)`.
pub open spec fn unblock_outcome(q: Seq<Task>, id: TaskId) -> Seq<Task> {
    let i = first_blocked_with_id(q, id, 0);
    if i < q.len() {
        q.update(i, with_state(q[i], TaskState::Ready))
    } else {
        q
    }
}

/// The search for a blocked task with `q[idx]`'s identifier stops at `idx`
/// when no other task has that identifier.
proof fn lemma_first_blocked_is_unique(q: Seq<Task>, idx: int, from: int)
    requires
        0 <= from <= idx < q.len(),
        unique_ids(q),
        q[idx].state == TaskState::Blocked,
    ensures
        first_blocked_with_id(q, q[idx].id, from) == idx,
    decreases idx - from,
{
    if from < idx {
        assert(q[from].id != q[idx].id);
        lemma_first_blocked_is_unique(q, idx, from + 1);
    }
}

/// Unblocking the task that `block_current` just blocked makes it ready
/// again and leaves every other task as it was, when identifiers are
/// unique.
pub proof fn lemma_unblock_after_block(q: Seq<Task>, idx: usize)
    requires
        idx < q.len(),
        unique_ids(q),
    ensures
        unblock_outcome(block_outcome(q, Some(idx)), q[idx as int].id) == q.update(
            idx as int,
            with_state(q[idx as int], TaskState::Ready),
        ),
{
    let b = block_outcome(q, Some(idx));
    assert(unique_ids(b)) by {
        assert forall|i: int, j: int| 0 <= i < b.len() && 0 <= j < b.len() && i != j implies #[trigger] b[i].id
            != #[trigger] b[j].id by {
            assert(b[i].id == q[i].id && b[j].id == q[j].id);
        }
    }
    lemma_first_blocked_is_unique(b, idx as int, 0);
    assert(unblock_outcome(b, q[idx as int].id) =~= q.update(
        idx as int,
        with_state(q[idx as int], TaskState::Ready),
    ));
}

// ── Scheduler ────────────────────────────────────────────────────────────────

/// Round-robin run queue.
pub struct Scheduler {
    /// Tasks ready to run, ordered front-to-back by priority/FIFO.
    ready_queue: VecDeque<Task>,
    /// Index into `ready_queue` of the currently-running task, if any.
    current: Option<usize>,
    /// Total number of context switches performed (for diagnostics).
    pub switch_count: u64,
}

impl Scheduler {
    /// The run queue, front first.
    pub closed spec fn tasks(&self) -> Seq<Task> {
        self.ready_queue@
    }

    /// The index of the current task, if any.
    pub closed spec fn current(&self) -> Option<usize> {
        self.current
    }

    /// The number of context switches performed so far.
    pub closed spec fn switches(&self) -> u64 {
        self.switch_count
    }

    /// Only the current task may be `Running`.
    pub open spec fn running_only_at_current(&self) -> bool {
        running_only_at(self.tasks(), self.current())
    }

    /// An empty scheduler.
    pub fn new() -> (s: Self)
        ensures
            s.tasks() == Seq::<Task>::empty(),
            s.current() == None::<usize>,
            s.switches() == 0,
            s.running_only_at_current(),
    {
        Scheduler { ready_queue: VecDeque::new(), current: None, switch_count: 0 }
    }

    /// Enqueue a new task.
    pub fn spawn(&mut self, task: Task)
        ensures
            final(self).tasks() == old(self).tasks().push(task),
            final(self).current() == old(self).current(),
            final(self).switches() == old(self).switches(),
            old(self).running_only_at_current() && task.state != TaskState::Running
                ==> final(self).running_only_at_current(),
    {
        self.ready_queue.push_back(task);
    }

    /// Called on every timer tick.  Returns `true` if a context switch should
    /// be performed (the assembly stub in the IRQ handler acts on this).
    pub fn tick(&mut self) -> (switched: bool)
        requires
            tick_outcome(old(self).tasks(), old(self).current()).2 ==> old(self).switches()
                < u64::MAX,
        ensures
            final(self).tasks() == tick_outcome(old(self).tasks(), old(self).current()).0,
            final(self).current() == tick_outcome(old(self).tasks(), old(self).current()).1,
            switched == tick_outcome(old(self).tasks(), old(self).current()).2,
            final(self).switches() == old(self).switches() + if switched { 1int } else { 0int },
            old(self).running_only_at_current() ==> final(self).running_only_at_current(),
    {
        proof {
            if old(self).running_only_at_current() {
                assert(old(self).ready_queue@.len() == old(self).ready_queue.len());
                lemma_tick_running_only(old(self).tasks(), old(self).current());
            }
        }
        // Decrement the running task's timeslice.
        if let Some(idx) = self.current {
            if idx < self.ready_queue.len() {
                if self.ready_queue[idx].ticks_remaining > 1 {
                    let mut task = self.ready_queue.remove(idx).unwrap();
                    task.ticks_remaining = task.ticks_remaining - 1;
                    self.ready_queue.insert(idx, task);
                    return false;  // No preemption yet.
                }
                // Time-slice expired — reset it and move the task to the back.
                let mut task = self.ready_queue.remove(idx).unwrap();
                task.ticks_remaining = DEFAULT_TIMESLICE;
                if task.state == TaskState::Running {
                    task.state = TaskState::Ready;
                }
                self.ready_queue.push_back(task);
                let back = self.ready_queue.len() - 1;
                proof {
                    let ghost q = old(self).ready_queue@;
                    assert(self.ready_queue@ =~= moved_to_back(q, idx as int, with_slice_expired(q[idx as int])));
                }
                return self.select_next(Some(back));
            }
        }
        self.select_next(None)
    }

    /// Whether the next `tick` switches to another task, and so counts a
    /// context switch: the current task's slice runs out and another task
    /// is ready, or there is no current task and some task is ready.
    pub fn tick_switches(&self) -> (b: bool)
        ensures
            b == tick_outcome(self.tasks(), self.current()).2,
    {
        let ghost q = self.ready_queue@;
        let n = self.ready_queue.len();
        let mut skip: Option<usize> = None;
        if let Some(idx) = self.current {
            if idx < n {
                if self.ready_queue[idx].ticks_remaining > 1 {
                    return false;
                }
                skip = Some(idx);
            }
        }
        let mut j: usize = 0;
        while j < n
            invariant
                n == q.len(),
                q == self.ready_queue@,
                j <= n,
                skip matches Some(idx) ==> idx < n && self.current == Some(idx)
                    && q[idx as int].ticks_remaining <= 1,
                skip is None ==> match self.current {
                    Some(c) => c >= n,
                    None => true,
                },
                forall|k: int|
                    0 <= k < j && skip != Some(k as usize) ==> #[trigger] q[k].state != TaskState::Ready,
            decreases n - j,
        {
            let skipped = match skip {
                Some(s) => s == j,
                None => false,
            };
            if !skipped && self.ready_queue[j].state == TaskState::Ready {
                proof {
                    match skip {
                        Some(idx) => {
                            let m = moved_to_back(q, idx as int, with_slice_expired(q[idx as int]));
                            let p = if j < idx { j as int } else { j - 1 };
                            assert(m[p] == q[j as int]);
                            lemma_first_ready_le(m, 0, p);
                            lemma_first_ready_bounds(m, 0);
                            let i = first_ready(m, 0);
                            assert(i < q.len() - 1);
                            assert(i as usize != (q.len() - 1) as usize);
                            assert(select_next_outcome(m, Some((q.len() - 1) as usize)).2);
                            assert(tick_outcome(q, self.current) == select_next_outcome(
                                m,
                                Some((q.len() - 1) as usize),
                            ));
                        },
                        None => {
                            lemma_first_ready_le(q, 0, j as int);
                            lemma_first_ready_bounds(q, 0);
                            assert(select_next_outcome(q, None).2);
                            assert(tick_outcome(q, self.current) == select_next_outcome(q, None));
                        },
                    }
                }
                return true;
            }
            j += 1;
        }
        proof {
            match skip {
                Some(idx) => {
                    let m = moved_to_back(q, idx as int, with_slice_expired(q[idx as int]));
                    assert forall|k: int| 0 <= k < m.len() - 1 implies #[trigger] m[k].state != TaskState::Ready by {
                        if k < idx {
                            assert(m[k] == q[k]);
                            assert(skip != Some(k as usize));
                        } else {
                            assert(m[k] == q[k + 1]);
                            assert(skip != Some((k + 1) as usize));
                        }
                    }
                    lemma_first_ready_ge(m, 0, m.len() - 1);
                    lemma_first_ready_bounds(m, 0);
                },
                None => {
                    lemma_first_ready_ge(q, 0, q.len() as int);
                },
            }
        }
        false
    }

    /// Select the first `Ready` task and record it as the current task; with
    /// no ready task there is no current task.  `previous` is where the task
    /// that was running stands, if there was one.  Returns `true` if a
    /// different task was selected (context switch needed).
    fn select_next(&mut self, previous: Option<usize>) -> (switched: bool)
        requires
            select_next_outcome(old(self).tasks(), previous).2 ==> old(self).switches() < u64::MAX,
        ensures
            final(self).tasks() == select_next_outcome(old(self).tasks(), previous).0,
            final(self).current() == select_next_outcome(old(self).tasks(), previous).1,
            switched == select_next_outcome(old(self).tasks(), previous).2,
            final(self).switches() == old(self).switches() + if switched { 1int } else { 0int },
    {
        // Find the first Ready task.
        let n = self.ready_queue.len();
        let mut i: usize = 0;
        while i < n
            invariant
                n == self.ready_queue@.len(),
                i <= n,
                self.ready_queue@ == old(self).ready_queue@,
                first_ready(self.ready_queue@, 0) == first_ready(self.ready_queue@, i as int),
                self.switch_count == old(self).switches(),
                select_next_outcome(old(self).ready_queue@, previous).2 ==> old(self).switches()
                    < u64::MAX,
            decreases n - i,
        {
            if self.ready_queue[i].state == TaskState::Ready {
                let mut task = self.ready_queue.remove(i).unwrap();
                task.state = TaskState::Running;
                self.ready_queue.insert(i, task);
                // A different task than the one that was running runs now.
                let switched = match previous {
                    Some(p) => p != i,
                    None => true,
                };
                self.current = Some(i);
                if switched {
                    self.switch_count = self.switch_count + 1;
                }
                return switched;
            }
            i += 1;
        }
        self.current = None;
        false
    }

    /// Move the current task, if there is one, to the `Blocked` state.
    pub fn block_current(&mut self)
        ensures
            final(self).tasks() == block_outcome(old(self).tasks(), old(self).current()),
            final(self).current() == old(self).current(),
            final(self).switches() == old(self).switches(),
            old(self).running_only_at_current() ==> final(self).running_only_at_current(),
    {
        if let Some(idx) = self.current {
            if idx < self.ready_queue.len() {
                let mut task = self.ready_queue.remove(idx).unwrap();
                task.state = TaskState::Blocked;
                self.ready_queue.insert(idx, task);
            }
        }
    }

    /// Unblock a task by its task ID: the first `Blocked` task with that
    /// identifier becomes `Ready`.
    pub fn unblock(&mut self, id: TaskId)
        ensures
            final(self).tasks() == unblock_outcome(old(self).tasks(), id),
            final(self).current() == old(self).current(),
            final(self).switches() == old(self).switches(),
            old(self).running_only_at_current() ==> final(self).running_only_at_current(),
    {
        let n = self.ready_queue.len();
        let mut i: usize = 0;
        while i < n
            invariant
                n == self.ready_queue@.len(),
                i <= n,
                self.ready_queue@ == old(self).ready_queue@,
                self.current == old(self).current,
                self.switch_count == old(self).switches(),
                first_blocked_with_id(self.ready_queue@, id, 0) == first_blocked_with_id(
                    self.ready_queue@,
                    id,
                    i as int,
                ),
            decreases n - i,
        {
            if self.ready_queue[i].id == id && self.ready_queue[i].state == TaskState::Blocked {
                let mut task = self.ready_queue.remove(i).unwrap();
                task.state = TaskState::Ready;
                self.ready_queue.insert(i, task);
                return;
            }
            i += 1;
        }
    }
}

} // verus!
