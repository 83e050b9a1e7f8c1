use lib::hal::Hal;
use lib::scheduler::{hz, run_all_tasks, run_task, run_task_at, top, Task};

#[test]
fn test_hz() {
    assert_eq!(hz(1), 1_000_000);
    assert_eq!(hz(1000), 1_000);
    assert_eq!(hz(30), 33_333);
}

#[test]
fn test_top() {
    assert_eq!(top(), 0);
}

#[test]
fn test_task_new() {
    let task = Task::new(hz(30));
    assert_eq!(task.frequency, 33_333);
    assert_eq!(task.next_run, 0);
}

#[test]
fn test_run_task_at_first_call() {
    let mut task = Task::new(hz(30));
    assert!(run_task_at(&mut task, 0));
    assert_eq!(task.next_run, 33_333);
}

#[test]
fn test_run_task_at_too_early() {
    let mut task = Task::new(hz(30));
    let mut count = 0;
    if run_task_at(&mut task, 1000) {
        count += 1;
    }
    let count_after_first = count;
    assert!(!run_task_at(&mut task, 2000));
    assert_eq!(count, count_after_first);
}

#[test]
fn test_run_task_at_on_schedule() {
    let mut task = Task::new(hz(30));
    let mut count = 0;
    if run_task_at(&mut task, 0) {
        count += 1;
    }
    assert!(run_task_at(&mut task, 33_333));
    count += 1;
    assert_eq!(count, 2);
}

#[test]
fn test_run_task_top_frequency() {
    let mut task = Task::new(top());
    let mut count = 0;
    for t in [100u64, 101, 102] {
        if run_task_at(&mut task, t) {
            count += 1;
        }
    }
    assert_eq!(count, 3);
}

#[test]
fn run_task_uses_boundary_clock() {
    let mut hal = Hal::new();
    hal.set_time(500);
    let mut task = Task::new(hz(1000));
    assert!(run_task(&mut task, &hal));
    assert_eq!(task.next_run, 1500);
    assert!(!run_task(&mut task, &hal));
}

#[test]
fn run_all_tasks_reports_each_due_task() {
    let mut hal = Hal::new();
    hal.set_time(10);
    let mut tasks = vec![Task::new(top()), Task::new(hz(1)), Task { frequency: 5, next_run: 20 }];
    let due = run_all_tasks(&mut tasks, &hal);
    assert_eq!(due, vec![true, true, false]);
    assert_eq!(tasks[1].next_run, 1_000_010);
    assert_eq!(tasks[2].next_run, 20);
}
