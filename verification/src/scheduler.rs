use vstd::prelude::*;
use crate::hal::{Hal, Timer};

verus! {

/// A scheduled task with frequency control. The task body itself lives with
/// the firmware loop; the schedule decides when it is due.
#[derive(Clone, Copy, Debug)]
pub struct Task {
    /// Interval between runs, in microseconds (0 = every pass).
    pub frequency: u64,
    /// Earliest time of the next run.
    pub next_run: u64,
}

impl Task {
    /// A task with the given interval, due immediately.
    pub fn new(frequency: u64) -> (t: Self)
        ensures
            t.frequency == frequency,
            t.next_run == 0,
    {
        Task { frequency, next_run: 0 }
    }
}

/// The schedule's decision at time `now`: whether the task runs, and its
/// schedule afterwards.
pub open spec fn task_step(task: Task, now: u64) -> (Task, bool) {
    if now < task.next_run {
        (task, false)
    } else {
        (Task { frequency: task.frequency, next_run: (now + task.frequency) as u64 }, true)
    }
}

/// Whether the schedule can be advanced at `now` without overflowing.
pub open spec fn task_step_defined(task: Task, now: u64) -> bool {
    now < task.next_run || now + task.frequency <= u64::MAX
}

/// Decide whether a task runs at `current_time` and reschedule it if so.
/// Returns true if the task is due (the caller then runs it).
pub fn run_task_at(task: &mut Task, current_time: u64) -> (r: bool)
    requires
        task_step_defined(*old(task), current_time),
    ensures
        (*final(task), r) == task_step(*old(task), current_time),
{
    if current_time < task.next_run {
        return false;
    }
    task.next_run = current_time + task.frequency;
    true
}

/// Decide whether a task is due using the boundary's clock.
pub fn run_task(task: &mut Task, timer: &Hal) -> (r: bool)
    requires
        task_step_defined(*old(task), timer@.time_us),
    ensures
        (*final(task), r) == task_step(*old(task), timer@.time_us),
{
    let current_time = timer.now_us_64();
    run_task_at(task, current_time)
}

/// Decide which tasks of a list are due, rescheduling each that is.
pub fn run_all_tasks(tasks: &mut Vec<Task>, timer: &Hal) -> (due: Vec<bool>)
    requires
        forall|i: int| 0 <= i < old(tasks)@.len() ==> task_step_defined(old(tasks)@[i], timer@.time_us),
    ensures
        final(tasks)@.len() == old(tasks)@.len(),
        due@.len() == old(tasks)@.len(),
        forall|i: int| 0 <= i < old(tasks)@.len() ==> (final(tasks)@[i], due@[i]) == task_step(
            old(tasks)@[i], timer@.time_us),
{
    let mut due: Vec<bool> = Vec::new();
    let mut i: usize = 0;
    while i < tasks.len()
        invariant
            i <= tasks@.len(),
            tasks@.len() == old(tasks)@.len(),
            due@.len() == i,
            forall|j: int| 0 <= j < i ==> (tasks@[j], due@[j]) == task_step(old(tasks)@[j], timer@.time_us),
            forall|j: int| i <= j < tasks@.len() ==> tasks@[j] == old(tasks)@[j],
            forall|j: int| 0 <= j < old(tasks)@.len() ==> task_step_defined(old(tasks)@[j], timer@.time_us),
        decreases tasks@.len() - i,
    {
        let mut t = tasks[i];
        let r = run_task(&mut t, timer);
        tasks.set(i, t);
        due.push(r);
        i = i + 1;
    }
    due
}

/// Interval in microseconds of a task running `freq` times a second
/// (0 Hz maps to 0, i.e. every pass).
pub fn hz(freq: u64) -> (r: u64)
    ensures
        r == (if freq == 0 { 0u64 } else { 1_000_000u64 / freq }),
{
    if freq == 0 {
        return 0;
    }
    1_000_000 / freq
}

/// Interval of a task that runs as often as possible.
pub fn top() -> (r: u64)
    ensures
        r == 0,
{
    0
}

/// A task that ran at `t1` does not run again before `t1 + frequency`, and
/// does run at any time from then on.
pub proof fn lemma_task_runs_once_per_interval(task: Task, t1: u64, t2: u64)
    requires
        task_step_defined(task, t1),
        task_step(task, t1).1,
    ensures
        task_step(task_step(task, t1).0, t2).1 <==> t2 >= t1 + task.frequency,
{
}

} // verus!
