use pamplemouche::scheduler::task::{initial_rsp, Task, TaskState, DEFAULT_TIMESLICE, STACK_SIZE};
use pamplemouche::scheduler::Scheduler;
use std::sync::atomic::AtomicU64;

fn task(name: &'static str, counter: &AtomicU64) -> Task {
    Task::new(name, 0x1122_3344_5566_7788, counter)
}

#[test]
fn task_new_primes_stack() {
    let counter = AtomicU64::new(1);
    let t = task("init", &counter);
    assert_eq!(t.state, TaskState::Ready);
    assert_eq!(t.ticks_remaining, DEFAULT_TIMESLICE);
    assert_eq!(t.name, "init");
    assert_eq!(t.stack.len(), STACK_SIZE);
    assert_eq!(&t.stack[STACK_SIZE - 8..], &[0x88, 0x77, 0x66, 0x55, 0x44, 0x33, 0x22, 0x11]);
    assert!(t.stack[..STACK_SIZE - 8].iter().all(|&b| b == 0));
    let top = t.stack.as_ptr() as u64 + STACK_SIZE as u64;
    assert_eq!(t.context.rsp, top - 8);
    assert_eq!(t.context.rsp, initial_rsp(t.stack.as_ptr() as usize));
    assert_eq!(t.context.rip, 0);
    let t2 = task("other", &counter);
    assert!(t.id < t2.id);
}

fn run_slice(s: &mut Scheduler) {
    for _ in 0..(DEFAULT_TIMESLICE - 1) {
        assert!(!s.tick());
    }
}

#[test]
fn round_robin_switches_each_slice() {
    let counter = AtomicU64::new(1);
    let mut s = Scheduler::new();
    s.spawn(task("a", &counter));
    s.spawn(task("b", &counter));
    // No current task: a, the first ready task, runs.
    assert!(s.tick());
    assert_eq!(s.switch_count, 1);
    run_slice(&mut s);
    // a's slice runs out: [a, b] -> [b, a], b runs.
    assert!(s.tick());
    run_slice(&mut s);
    // b's slice runs out: [b, a] -> [a, b], a runs.
    assert!(s.tick());
    assert_eq!(s.switch_count, 3);
}

#[test]
fn empty_scheduler_never_switches() {
    let mut s = Scheduler::new();
    assert!(!s.tick());
    assert!(!s.tick());
    assert_eq!(s.switch_count, 0);
    s.block_current();
}

#[test]
fn blocked_tasks_stay_blocked() {
    let counter = AtomicU64::new(1);
    let mut s = Scheduler::new();
    let a = task("a", &counter);
    let ida = a.id;
    s.spawn(a);
    s.spawn(task("b", &counter));
    assert!(s.tick()); // a runs
    s.block_current(); // a blocked
    run_slice(&mut s);
    // a's slice runs out: it stays blocked and goes to the back; b runs.
    assert!(s.tick()); // [b, a]
    run_slice(&mut s);
    // b's slice runs out: [a, b]; a is still blocked, so b runs again.
    assert!(!s.tick());
    assert_eq!(s.switch_count, 2);
    s.unblock(ida);
    run_slice(&mut s);
    // Now a is ready: [b, a] after b's slice, and a runs.
    assert!(s.tick());
    assert_eq!(s.switch_count, 3);
}

#[test]
fn expired_task_goes_behind_the_others() {
    let counter = AtomicU64::new(1);
    let mut s = Scheduler::new();
    s.spawn(task("a", &counter));
    s.spawn(task("b", &counter));
    s.spawn(task("c", &counter));
    assert!(s.tick()); // a runs
    s.block_current(); // a blocked
    run_slice(&mut s);
    // [b, c, a]: b runs.
    assert!(s.tick());
    assert_eq!(s.switch_count, 2);
}

#[test]
fn expired_task_moves_past_a_blocked_front() {
    let counter = AtomicU64::new(1);
    let mut s = Scheduler::new();
    let mut x = task("x", &counter);
    x.state = TaskState::Blocked;
    s.spawn(x);
    s.spawn(task("r", &counter));
    s.spawn(task("t", &counter));
    // [x, r, t]: r runs.
    assert!(s.tick());
    run_slice(&mut s);
    // r's slice runs out: [x, t, r], t runs.
    assert!(s.tick());
    run_slice(&mut s);
    // t's slice runs out: [x, r, t], r runs.
    assert!(s.tick());
    assert_eq!(s.switch_count, 3);
}

#[test]
fn same_task_reselected_is_no_switch() {
    let counter = AtomicU64::new(1);
    let mut s = Scheduler::new();
    let mut x = task("x", &counter);
    x.state = TaskState::Blocked;
    s.spawn(x);
    s.spawn(task("r", &counter));
    // [x, r]: r runs.
    assert!(s.tick());
    run_slice(&mut s);
    // r's slice runs out; it goes to the back, [x, r], and, x being blocked,
    // runs again: the same task, so no switch.
    assert!(!s.tick());
    assert_eq!(s.switch_count, 1);
}

#[test]
fn single_task_never_switches_again() {
    let counter = AtomicU64::new(1);
    let mut s = Scheduler::new();
    s.spawn(task("only", &counter));
    assert!(s.tick());
    for _ in 0..(3 * DEFAULT_TIMESLICE) {
        assert!(!s.tick());
    }
    assert_eq!(s.switch_count, 1);
}

#[test]
fn nothing_ready_leaves_no_current_task() {
    let counter = AtomicU64::new(1);
    let mut s = Scheduler::new();
    let only = task("only", &counter);
    let id = only.id;
    s.spawn(only);
    assert!(s.tick());
    s.block_current();
    run_slice(&mut s);
    // Its slice runs out and it stays blocked: nothing runs.
    assert!(!s.tick());
    assert!(!s.tick());
    s.unblock(id);
    // Ready again: selected on the next tick.
    assert!(s.tick());
    assert_eq!(s.switch_count, 2);
}

#[test]
fn unblock_after_block_makes_ready() {
    let counter = AtomicU64::new(1);
    let mut s = Scheduler::new();
    let only = task("only", &counter);
    let id = only.id;
    s.spawn(only);
    assert!(s.tick());
    s.block_current();
    s.unblock(id);
    // Ready again and still current: its slice runs out as usual, and it is
    // selected again without a switch.
    run_slice(&mut s);
    assert!(!s.tick());
    assert_eq!(s.switch_count, 1);
}

#[test]
fn cpu_context_default_is_zeroed() {
    let c = pamplemouche::scheduler::task::CpuContext::default();
    assert_eq!((c.rsp, c.rbp, c.rbx, c.r12, c.r13, c.r14, c.r15, c.rip), (0, 0, 0, 0, 0, 0, 0, 0));
}

#[test]
fn tick_switches_predicts_tick() {
    let counter = AtomicU64::new(1);
    let mut s = Scheduler::new();
    assert!(!s.tick_switches());
    s.spawn(task("a", &counter));
    assert!(s.tick_switches());
    assert!(s.tick());
    for _ in 0..(DEFAULT_TIMESLICE - 1) {
        assert!(!s.tick_switches());
        assert!(!s.tick());
    }
    // a alone: its slice runs out and it is selected again, no switch.
    assert!(!s.tick_switches());
    assert!(!s.tick());
    s.spawn(task("b", &counter));
    run_slice(&mut s);
    assert!(s.tick_switches());
    assert!(s.tick());
}

#[test]
fn initial_rsp_points_at_top_eight_bytes() {
    assert_eq!(initial_rsp(0x10_0000), 0x10_0000 + 0x4000 - 8);
    assert_eq!(initial_rsp(0), (STACK_SIZE - 8) as u64);
}
