//! The harvester's scheduler: one state per submitted collection, a fixed
//! concurrency budget, and no fail-fast.
//!
//! The scheduler is pure decisions: it says which collection to start next
//! and records what each task came to. The surrounding runtime performs the
//! work and reports back; whatever it does, the well-formedness invariant
//! keeps the number of running tasks within the budget, and recording one
//! task's outcome touches no other task's state.
use vstd::prelude::*;

verus! {

/// The lifecycle of one submitted collection: started at most once, and
/// terminal once completed or failed — there are no retries.
#[derive(Debug, PartialEq)]
pub enum TaskState {
    Pending,
    Running,
    Completed,
    Failed,
}

/// How many of the states are `Running`.
pub open spec fn running_count(states: Seq<TaskState>) -> int
    decreases states.len(),
{
    if states.len() == 0 {
        0
    } else {
        running_count(states.drop_last()) + (if states.last() is Running {
            1int
        } else {
            0int
        })
    }
}

/// The count is never negative and never above the length.
pub proof fn lemma_running_count_bounds(states: Seq<TaskState>)
    ensures
        0 <= running_count(states) <= states.len(),
    decreases states.len(),
{
    if states.len() > 0 {
        lemma_running_count_bounds(states.drop_last());
    }
}

/// Replacing one state changes the count by that entry's contribution.
proof fn lemma_running_count_update(states: Seq<TaskState>, i: int, t: TaskState)
    requires
        0 <= i < states.len(),
    ensures
        running_count(states.update(i, t)) == running_count(states) - (if states[i] is Running {
            1int
        } else {
            0int
        }) + (if t is Running {
            1int
        } else {
            0int
        }),
    decreases states.len(),
{
    if i == states.len() - 1 {
        assert(states.update(i, t).drop_last() =~= states.drop_last());
        assert(states.update(i, t).last() == t);
    } else {
        assert(states.update(i, t).drop_last() =~= states.drop_last().update(i, t));
        assert(states.update(i, t).last() == states.last());
        lemma_running_count_update(states.drop_last(), i, t);
    }
}

/// Appending a state adds its contribution.
proof fn lemma_running_count_push(states: Seq<TaskState>, t: TaskState)
    ensures
        running_count(states.push(t)) == running_count(states) + (if t is Running {
            1int
        } else {
            0int
        }),
{
    assert(states.push(t).drop_last() =~= states);
    assert(states.push(t).last() == t);
}

/// The scheduler of one run: a state per collection and the budget.
pub struct Harvester {
    pub states: Vec<TaskState>,
    pub cap: usize,
    pub running: usize,
}

impl Harvester {
    /// The scheduler's invariant: the budget is positive, the counter is
    /// the number of `Running` entries, and it never exceeds the budget —
    /// however many collections there are and in whatever order tasks start
    /// and settle.
    pub open spec fn wf(self) -> bool {
        &&& self.cap >= 1
        &&& self.running == running_count(self.states@)
        &&& self.running <= self.cap
    }

    /// A fresh run: every one of the `n` collections pending, none running.
    pub fn new(n: usize, cap: usize) -> (r: Self)
        requires
            cap >= 1,
        ensures
            r.wf(),
            r.cap == cap,
            r.running == 0,
            r.states@.len() == n,
            forall|k: int| 0 <= k < n ==> r.states@[k] is Pending,
    {
        let mut states: Vec<TaskState> = Vec::new();
        let mut i: usize = 0;
        assert(running_count(states@) == 0);
        while i < n
            invariant
                0 <= i <= n,
                states@.len() == i,
                running_count(states@) == 0,
                forall|k: int| 0 <= k < i ==> states@[k] is Pending,
            decreases n - i,
        {
            proof {
                lemma_running_count_push(states@, TaskState::Pending);
            }
            states.push(TaskState::Pending);
            i += 1;
        }
        Harvester { states, cap, running: 0 }
    }

    /// The collection to submit next: the first pending one, and only while
    /// the running tasks are below the budget. `None` says to wait for a
    /// task to settle, or that nothing is pending.
    pub fn next_to_start(&self) -> (r: Option<usize>)
        requires
            self.wf(),
        ensures
            r matches Some(i) ==> i < self.states@.len() && self.states@[i as int] is Pending
                && running_count(self.states@) < self.cap && (forall|k: int|
                0 <= k < i ==> !(self.states@[k] is Pending)),
            r is None ==> running_count(self.states@) >= self.cap || (forall|k: int|
                0 <= k < self.states@.len() ==> !(self.states@[k] is Pending)),
    {
        if self.running >= self.cap {
            return None;
        }
        let mut i: usize = 0;
        while i < self.states.len()
            invariant
                0 <= i <= self.states@.len(),
                running_count(self.states@) < self.cap,
                forall|k: int| 0 <= k < i ==> !(self.states@[k] is Pending),
            decreases self.states@.len() - i,
        {
            match self.states[i] {
                TaskState::Pending => {
                    return Some(i);
                },
                _ => {},
            }
            i += 1;
        }
        None
    }

    /// Marks a pending collection running. The budget holds: the new count
    /// is still within the cap.
    pub fn start(&mut self, i: usize)
        requires
            old(self).wf(),
            i < old(self).states@.len(),
            old(self).states@[i as int] is Pending,
            old(self).running < old(self).cap,
        ensures
            final(self).wf(),
            final(self).cap == old(self).cap,
            final(self).states@ == old(self).states@.update(i as int, TaskState::Running),
            final(self).running == old(self).running + 1,
            running_count(final(self).states@) <= final(self).cap,
    {
        proof {
            lemma_running_count_update(self.states@, i as int, TaskState::Running);
        }
        self.states.set(i, TaskState::Running);
        self.running = self.running + 1;
    }

    /// Records what a running task came to: `Completed` on success,
    /// `Failed` otherwise, terminally. Every other task's state is exactly
    /// what it was — one collection's failure is never visible in
    /// another's outcome — and the freed budget slot lets the next pending
    /// collection start.
    pub fn settle(&mut self, i: usize, success: bool)
        requires
            old(self).wf(),
            i < old(self).states@.len(),
            old(self).states@[i as int] is Running,
        ensures
            final(self).wf(),
            final(self).cap == old(self).cap,
            final(self).states@ == old(self).states@.update(
                i as int,
                if success {
                    TaskState::Completed
                } else {
                    TaskState::Failed
                },
            ),
            forall|k: int|
                0 <= k < old(self).states@.len() && k != i ==> final(self).states@[k] == old(
                    self,
                ).states@[k],
            final(self).running == old(self).running - 1,
    {
        let t = if success {
            TaskState::Completed
        } else {
            TaskState::Failed
        };
        proof {
            lemma_running_count_update(self.states@, i as int, t);
            lemma_running_count_bounds(self.states@.update(i as int, t));
        }
        self.states.set(i, t);
        self.running = self.running - 1;
    }

    /// Whether every submitted collection has settled, one way or the
    /// other: the run waits for all of them before reporting.
    pub fn all_settled(&self) -> (r: bool)
        ensures
            r == (forall|k: int|
                0 <= k < self.states@.len() ==> self.states@[k] is Completed
                    || self.states@[k] is Failed),
    {
        let mut i: usize = 0;
        while i < self.states.len()
            invariant
                0 <= i <= self.states@.len(),
                forall|k: int|
                    0 <= k < i ==> self.states@[k] is Completed || self.states@[k] is Failed,
            decreases self.states@.len() - i,
        {
            match self.states[i] {
                TaskState::Completed => {},
                TaskState::Failed => {},
                _ => {
                    return false;
                },
            }
            i += 1;
        }
        true
    }
}

/// The concurrency bound: in every well-formed scheduler state — and the
/// operations above take every reachable state from one well-formed state
/// to another — the number of running tasks is at most the budget.
pub proof fn lemma_concurrency_bounded(h: Harvester)
    requires
        h.wf(),
    ensures
        running_count(h.states@) <= h.cap,
{
}

} // verus!
