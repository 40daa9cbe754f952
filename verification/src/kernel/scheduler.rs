//! Round-robin scheduler.
//!
//! Runnable tasks wait in a queue; the task at its front is taken to run
//! next, and a running task whose time slice runs out goes back to the end.
use vstd::prelude::*;
use std::collections::VecDeque;
use crate::kernel::id_allocator::{alloc_outcome, free_bits, IdAllocator, MAX_TASK_IDS};
use crate::kernel::task::{with_state, Task, TaskId, TaskState};

verus! {

/// The round-robin scheduler: the queue of tasks waiting to run, the task
/// that runs now, and the task identifiers in use.
pub struct Scheduler {
    run_queue: VecDeque<Task>,
    current: Option<Task>,
    initialized: bool,
    ids: IdAllocator,
}

/// The number of tasks held: those queued plus the running one.
pub open spec fn task_count(q: Seq<Task>, cur: Option<Task>) -> int {
    q.len() + if cur is Some { 1int } else { 0int }
}

/// A task whose time slice ran out: the slice is refilled and one more
/// completed slice is counted.
pub open spec fn refilled(t: Task) -> Task {
    Task { time_slice: t.time_slice_max, ticks_run: (t.ticks_run + 1) as u64, ..t }
}

/// Whether a timer tick takes `t` off the processor: its slice has run out
/// while it runs.
pub open spec fn slice_expires(t: Task) -> bool {
    t.time_slice == 0 && t.state == TaskState::Running
}

/// Queue and running task after one timer tick (without picking a new task).
pub open spec fn tick_step(q: Seq<Task>, cur: Option<Task>) -> (Seq<Task>, Option<Task>) {
    match cur {
        None => (q, None),
        Some(t) => if t.time_slice > 0 {
            (q, Some(Task { time_slice: (t.time_slice - 1) as usize, ..t }))
        } else if t.state == TaskState::Running {
            (q.push(with_state(refilled(t), TaskState::Ready)), None)
        } else {
            (q, Some(refilled(t)))
        },
    }
}

/// Queue and running task after taking the front of the queue to run; a
/// ready task becomes running. With an empty queue nothing changes.
pub open spec fn schedule_step(q: Seq<Task>, cur: Option<Task>) -> (Seq<Task>, Option<Task>) {
    if q.len() == 0 {
        (q, cur)
    } else {
        let t = q[0];
        let t2 = if t.state == TaskState::Ready { with_state(t, TaskState::Running) } else { t };
        (q.drop_first(), Some(t2))
    }
}

/// Queue and running task after a preemptive timer tick: a tick, and when it
/// left the processor idle, the next task is taken.
pub open spec fn preempt_step(q: Seq<Task>, cur: Option<Task>) -> (Seq<Task>, Option<Task>) {
    let (q1, c1) = tick_step(q, cur);
    if c1 is None {
        schedule_step(q1, c1)
    } else {
        (q1, c1)
    }
}

/// The queue without the tasks numbered `id`, in order.
pub open spec fn without_id(q: Seq<Task>, id: TaskId) -> Seq<Task>
    decreases q.len(),
{
    if q.len() == 0 {
        q
    } else {
        let rest = without_id(q.drop_last(), id);
        if q.last().id != id {
            rest.push(q.last())
        } else {
            rest
        }
    }
}

impl Scheduler {
    /// The tasks waiting to run, front first.
    pub closed spec fn queue_view(&self) -> Seq<Task> {
        self.run_queue@
    }

    /// The running task.
    pub closed spec fn current_view(&self) -> Option<Task> {
        self.current
    }

    /// Whether `init` has run since the scheduler was made or reset.
    pub closed spec fn initialized_view(&self) -> bool {
        self.initialized
    }

    /// The bitmap of task identifiers in use: bit `i` stands for identifier `i + 1`.
    pub closed spec fn ids_view(&self) -> Seq<bool> {
        self.ids.bits()
    }

    /// The scheduler holds no more tasks than can be counted.
    pub open spec fn wf(&self) -> bool {
        task_count(self.queue_view(), self.current_view()) <= usize::MAX
    }

    /// A scheduler with no tasks, not yet initialized.
    pub fn new() -> (r: Self)
        ensures
            r.queue_view() == Seq::<Task>::empty(),
            r.current_view() is None,
            !r.initialized_view(),
            r.ids_view() == Seq::new(MAX_TASK_IDS as nat, |i: int| false),
            r.wf(),
    {
        Scheduler { run_queue: VecDeque::new(), current: None, initialized: false, ids: IdAllocator::new() }
    }

    /// Marks the scheduler initialized; returns whether this call did so
    /// (false when it already was).
    pub fn init(&mut self) -> (r: bool)
        ensures
            r == !old(self).initialized_view(),
            final(self).initialized_view(),
            final(self).queue_view() == old(self).queue_view(),
            final(self).current_view() == old(self).current_view(),
            final(self).ids_view() == old(self).ids_view(),
    {
        if self.initialized {
            return false;
        }
        self.initialized = true;
        true
    }

    /// Marks `task` ready and puts it at the end of the queue.
    pub fn add_task(&mut self, task: Task)
        requires
            old(self).wf(),
            task_count(old(self).queue_view(), old(self).current_view()) < usize::MAX,
        ensures
            final(self).wf(),
            final(self).queue_view() == old(self).queue_view().push(with_state(task, TaskState::Ready)),
            final(self).current_view() == old(self).current_view(),
            final(self).initialized_view() == old(self).initialized_view(),
            final(self).ids_view() == old(self).ids_view(),
    {
        let mut t = task;
        t.set_ready();
        self.run_queue.push_back(t);
    }

    /// Takes the task at the front of the queue to run and returns its id;
    /// `None` when the queue is empty.
    pub fn schedule(&mut self) -> (r: Option<TaskId>)
        requires
            old(self).wf(),
        ensures
            final(self).wf(),
            (final(self).queue_view(), final(self).current_view()) == schedule_step(old(self).queue_view(), old(self).current_view()),
            r == (if old(self).queue_view().len() == 0 { None } else { Some(old(self).queue_view()[0].id) }),
            final(self).initialized_view() == old(self).initialized_view(),
            final(self).ids_view() == old(self).ids_view(),
    {
        self.schedule_internal()
    }

    /// The body of `schedule`.
    fn schedule_internal(&mut self) -> (r: Option<TaskId>)
        requires
            old(self).wf(),
        ensures
            final(self).wf(),
            (final(self).queue_view(), final(self).current_view()) == schedule_step(old(self).queue_view(), old(self).current_view()),
            r == (if old(self).queue_view().len() == 0 { None } else { Some(old(self).queue_view()[0].id) }),
            final(self).initialized_view() == old(self).initialized_view(),
            final(self).ids_view() == old(self).ids_view(),
    {
        if self.run_queue.len() == 0 {
            return None;
        }
        let mut task = match self.run_queue.pop_front() {
            Some(t) => t,
            None => return None,
        };
        if task.state == TaskState::Ready {
            task.set_running();
        }
        let id = task.id;
        self.current = Some(task);
        proof {
            assert(self.run_queue@ =~= old(self).run_queue@.drop_first());
        }
        Some(id)
    }

    /// One timer tick: the running task uses up one tick of its slice; when
    /// the slice has run out it is refilled, and a running task goes back to
    /// the end of the queue, leaving the processor idle.
    pub fn tick(&mut self)
        requires
            old(self).wf(),
            old(self).current_view() matches Some(t) ==> t.ticks_run < u64::MAX,
        ensures
            final(self).wf(),
            (final(self).queue_view(), final(self).current_view()) == tick_step(old(self).queue_view(), old(self).current_view()),
            final(self).initialized_view() == old(self).initialized_view(),
            final(self).ids_view() == old(self).ids_view(),
    {
        let _ = self.tick_current();
    }

    /// Applies a tick to the running task; returns whether it left the processor.
    fn tick_current(&mut self) -> (r: bool)
        requires
            old(self).wf(),
            old(self).current_view() matches Some(t) ==> t.ticks_run < u64::MAX,
        ensures
            final(self).wf(),
            (final(self).queue_view(), final(self).current_view()) == tick_step(old(self).queue_view(), old(self).current_view()),
            r == (old(self).current_view() matches Some(t) && slice_expires(t)),
            final(self).initialized_view() == old(self).initialized_view(),
            final(self).ids_view() == old(self).ids_view(),
    {
        let mut current = match self.current.take() {
            Some(t) => t,
            None => return false,
        };
        if current.time_slice > 0 {
            current.time_slice = current.time_slice - 1;
            self.current = Some(current);
            false
        } else {
            current.time_slice = current.time_slice_max;
            current.ticks_run = current.ticks_run + 1;
            if current.state == TaskState::Running {
                current.set_ready();
                self.run_queue.push_back(current);
                true
            } else {
                self.current = Some(current);
                false
            }
        }
    }

    /// A timer tick that preempts: after the tick, if the processor is idle
    /// the next task is taken to run, and the kernel stack pointer to switch
    /// to is returned.
    pub fn preemptive_tick(&mut self) -> (r: Option<usize>)
        requires
            old(self).wf(),
            old(self).current_view() matches Some(t) ==> t.ticks_run < u64::MAX,
        ensures
            final(self).wf(),
            (final(self).queue_view(), final(self).current_view()) == preempt_step(old(self).queue_view(), old(self).current_view()),
            ({
                let (q1, c1) = tick_step(old(self).queue_view(), old(self).current_view());
                r == (if c1 is None && q1.len() > 0 { Some(q1[0].kernel_stack) } else { None })
            }),
            final(self).initialized_view() == old(self).initialized_view(),
            final(self).ids_view() == old(self).ids_view(),
    {
        let had_current = self.current.is_some();
        let left = self.tick_current();
        if had_current && !left {
            return None;
        }
        if self.run_queue.len() == 0 {
            return None;
        }
        let rsp = self.run_queue[0].kernel_stack;
        let _ = self.schedule();
        Some(rsp)
    }

    /// Returns the running task.
    pub fn current_task(&self) -> (r: Option<&Task>)
        ensures
            r == (match self.current_view() {
                Some(t) => Some(&t),
                None => None,
            }),
    {
        match &self.current {
            Some(t) => Some(t),
            None => None,
        }
    }

    /// Drops every task numbered `task_id`, queued or running.
    pub fn remove_task(&mut self, task_id: TaskId)
        requires
            old(self).wf(),
        ensures
            final(self).wf(),
            final(self).queue_view() == without_id(old(self).queue_view(), task_id),
            final(self).current_view() == (match old(self).current_view() {
                Some(t) => if t.id == task_id { None } else { Some(t) },
                None => None,
            }),
            final(self).initialized_view() == old(self).initialized_view(),
            final(self).ids_view() == free_bits(old(self).ids_view(), task_id),
    {
        let ghost q0 = self.run_queue@;
        let mut kept: VecDeque<Task> = VecDeque::new();
        let mut k: usize = 0;
        let n = self.run_queue.len();
        while k < n
            invariant
                n == q0.len(),
                k <= n,
                self.run_queue@ == q0.subrange(k as int, n as int),
                kept@ == without_id(q0.subrange(0, k as int), task_id),
                kept@.len() <= k,
                self.current == old(self).current,
                self.initialized == old(self).initialized,
                self.ids == old(self).ids,
            decreases n - k,
        {
            let t = self.run_queue.pop_front().unwrap();
            proof {
                assert(q0.subrange(0, k + 1).drop_last() =~= q0.subrange(0, k as int));
                assert(q0.subrange(0, k + 1).last() == t);
                assert(self.run_queue@ =~= q0.subrange(k + 1, n as int));
            }
            if t.id != task_id {
                kept.push_back(t);
            }
            k = k + 1;
        }
        proof {
            assert(q0.subrange(0, n as int) =~= q0);
        }
        self.run_queue = kept;
        let drop_current = match &self.current {
            Some(c) => c.id == task_id,
            None => false,
        };
        if drop_current {
            self.current = None;
        }
        self.ids.free(task_id);
    }

    /// Returns the number of tasks held: those queued plus the running one.
    pub fn runnable_count(&self) -> (r: usize)
        requires
            self.wf(),
        ensures
            r == task_count(self.queue_view(), self.current_view()),
    {
        let queue_len = self.run_queue.len();
        let current_running: usize = if self.current.is_some() { 1 } else { 0 };
        queue_len + current_running
    }

    /// Drops every task and the initialized mark.
    pub fn reset(&mut self)
        ensures
            final(self).queue_view() == Seq::<Task>::empty(),
            final(self).current_view() is None,
            !final(self).initialized_view(),
            final(self).wf(),
            final(self).ids_view() == Seq::new(old(self).ids_view().len(), |i: int| false),
    {
        self.run_queue.clear();
        self.current = None;
        self.initialized = false;
        self.ids.reset();
    }

    /// Takes the lowest free task identifier for a new task; `None` when
    /// every identifier is in use.
    pub fn alloc_task_id(&mut self) -> (r: Option<TaskId>)
        ensures
            alloc_outcome(old(self).ids_view(), final(self).ids_view(), r),
            final(self).queue_view() == old(self).queue_view(),
            final(self).current_view() == old(self).current_view(),
            final(self).initialized_view() == old(self).initialized_view(),
    {
        self.ids.allocate()
    }

    /// Starts `task` as a new task: it gets the lowest free identifier and is
    /// added, ready, at the end of the queue; returns the identifier, or
    /// `None` (adding nothing) when every identifier is in use.
    pub fn spawn(&mut self, task: Task) -> (r: Option<TaskId>)
        requires
            old(self).wf(),
            task_count(old(self).queue_view(), old(self).current_view()) < usize::MAX,
        ensures
            final(self).wf(),
            alloc_outcome(old(self).ids_view(), final(self).ids_view(), r),
            final(self).queue_view() == match r {
                Some(id) => old(self).queue_view().push(with_state(Task { id, ..task }, TaskState::Ready)),
                None => old(self).queue_view(),
            },
            final(self).current_view() == old(self).current_view(),
            final(self).initialized_view() == old(self).initialized_view(),
    {
        let id = match self.ids.allocate() {
            Some(id) => id,
            None => return None,
        };
        let mut t = task;
        t.id = id;
        self.add_task(t);
        Some(id)
    }

    /// Frees task identifier `id` of a task that was never added.
    pub fn free_task_id(&mut self, id: TaskId)
        ensures
            final(self).ids_view() == free_bits(old(self).ids_view(), id),
            final(self).queue_view() == old(self).queue_view(),
            final(self).current_view() == old(self).current_view(),
            final(self).initialized_view() == old(self).initialized_view(),
    {
        self.ids.free(id);
    }
}

/// A tick neither loses nor duplicates a task: the number of tasks held is
/// the same before and after.
pub proof fn lemma_tick_keeps_tasks(q: Seq<Task>, cur: Option<Task>)
    ensures
        task_count(tick_step(q, cur).0, tick_step(q, cur).1) == task_count(q, cur),
        task_count(preempt_step(q, cur).0, preempt_step(q, cur).1) == task_count(q, cur),
{
}

/// Round robin: when the running task's slice runs out, a preemptive tick
/// runs the task at the front of the queue next and puts the preempted task,
/// ready and with a full slice, at the end of the queue behind the others.
pub proof fn lemma_round_robin(q: Seq<Task>, t: Task)
    requires
        slice_expires(t),
        q.len() > 0,
    ensures
        ({
            let (q2, c2) = preempt_step(q, Some(t));
            &&& c2 is Some
            &&& c2->Some_0.id == q[0].id
            &&& q2 == q.drop_first().push(with_state(refilled(t), TaskState::Ready))
        }),
{
    let (q2, c2) = preempt_step(q, Some(t));
    assert(q2 =~= q.drop_first().push(with_state(refilled(t), TaskState::Ready)));
}

/// A task that still has ticks left keeps the processor through a tick.
pub proof fn lemma_slice_left_keeps_running(q: Seq<Task>, t: Task)
    requires
        t.time_slice > 0,
    ensures
        preempt_step(q, Some(t)) == (q, Some(Task { time_slice: (t.time_slice - 1) as usize, ..t })),
{
}

/// After `remove_task(id)` no queued task is numbered `id`, and every other
/// task stays, in order.
pub proof fn lemma_removed_task_gone(q: Seq<Task>, id: TaskId)
    ensures
        forall|i: int| 0 <= i < without_id(q, id).len() ==> (#[trigger] without_id(q, id)[i]).id != id,
        forall|i: int| 0 <= i < q.len() && q[i].id != id ==> without_id(q, id).contains(#[trigger] q[i]),
    decreases q.len(),
{
    if q.len() > 0 {
        lemma_removed_task_gone(q.drop_last(), id);
        let rest = without_id(q.drop_last(), id);
        assert forall|i: int| 0 <= i < q.len() && q[i].id != id implies without_id(q, id).contains(#[trigger] q[i]) by {
            if i < q.len() - 1 {
                assert(q.drop_last()[i] == q[i]);
                let k = choose|k: int| 0 <= k < rest.len() && rest[k] == q[i];
                if q.last().id != id {
                    assert(rest.push(q.last())[k] == q[i]);
                }
            } else {
                assert(without_id(q, id)[without_id(q, id).len() - 1] == q[i]);
            }
        }
    }
}

/// Removing the number of a task that was just added undoes the addition,
/// when no queued task had that number: the queue is as it was.
pub proof fn lemma_remove_undoes_add(q: Seq<Task>, t: Task)
    requires
        forall|i: int| 0 <= i < q.len() ==> (#[trigger] q[i]).id != t.id,
    ensures
        without_id(q.push(with_state(t, TaskState::Ready)), t.id) == q,
{
    let q2 = q.push(with_state(t, TaskState::Ready));
    assert(q2.drop_last() =~= q);
    lemma_without_absent_id(q, t.id);
}

/// Dropping a number that no task carries keeps the whole queue.
proof fn lemma_without_absent_id(q: Seq<Task>, id: TaskId)
    requires
        forall|i: int| 0 <= i < q.len() ==> (#[trigger] q[i]).id != id,
    ensures
        without_id(q, id) == q,
    decreases q.len(),
{
    if q.len() > 0 {
        let p = q.drop_last();
        assert forall|i: int| 0 <= i < p.len() implies (#[trigger] p[i]).id != id by {
            assert(p[i] == q[i]);
        }
        lemma_without_absent_id(p, id);
        assert(q.last() == q[q.len() - 1]);
        assert(p.push(q.last()) =~= q);
    }
}

/// Removing a task frees its identifier: after `remove_task(id)` the bit of
/// `id` is clear, so `alloc_task_id` can hand `id` out again.
pub proof fn lemma_removed_id_is_free(ids: Seq<bool>, id: TaskId)
    requires
        1 <= id <= ids.len(),
    ensures
        !free_bits(ids, id)[id - 1],
{
}

/// One timer tick, case by case: with no running task nothing changes; a
/// running task with ticks left loses one tick and keeps the processor; a
/// running task whose slice is used up is set ready with a full slice and
/// one more completed slice, and goes to the end of the queue, whatever the
/// queue holds, leaving no task current; a task in another state whose
/// slice is used up gets a full slice and one more completed slice and stays
/// current.
pub proof fn lemma_tick_cases(q: Seq<Task>, cur: Option<Task>)
    ensures
        match cur {
            None => tick_step(q, cur) == (q, None::<Task>),
            Some(t) => {
                &&& t.time_slice > 0 ==> tick_step(q, cur) == (
                    q,
                    Some(Task { time_slice: (t.time_slice - 1) as usize, ..t }),
                )
                &&& t.time_slice == 0 && t.state == TaskState::Running ==> tick_step(q, cur) == (
                    q.push(
                        Task {
                            state: TaskState::Ready,
                            time_slice: t.time_slice_max,
                            ticks_run: (t.ticks_run + 1) as u64,
                            ..t
                        },
                    ),
                    None::<Task>,
                )
                &&& t.time_slice == 0 && t.state == TaskState::Running ==> {
                    &&& tick_step(q, cur).1 is None
                    &&& tick_step(q, cur).0.len() == q.len() + 1
                    &&& tick_step(q, cur).0.last().id == t.id
                    &&& tick_step(q, cur).0.last().state == TaskState::Ready
                }
                &&& t.time_slice == 0 && t.state != TaskState::Running ==> tick_step(q, cur) == (
                    q,
                    Some(Task { time_slice: t.time_slice_max, ticks_run: (t.ticks_run + 1) as u64, ..t }),
                )
            },
        },
{
}

/// Taking the next task: with an empty queue nothing changes; otherwise
/// the task at the front leaves the queue and becomes current, running if it
/// was ready, and the rest of the queue keeps its order.
pub proof fn lemma_schedule_cases(q: Seq<Task>, cur: Option<Task>)
    ensures
        q.len() == 0 ==> schedule_step(q, cur) == (q, cur),
        q.len() > 0 ==> {
            &&& schedule_step(q, cur).0 == q.subrange(1, q.len() as int)
            &&& schedule_step(q, cur).1 == Some(
                if q[0].state == TaskState::Ready {
                    Task { state: TaskState::Running, ..q[0] }
                } else {
                    q[0]
                },
            )
        },
{
    if q.len() > 0 {
        assert(q.drop_first() =~= q.subrange(1, q.len() as int));
    }
}

} // verus!
