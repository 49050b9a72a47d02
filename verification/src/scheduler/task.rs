//! Task descriptor — represents a schedulable unit of work.
use std::sync::atomic::{AtomicU64, Ordering};
use vstd::prelude::*;

verus! {

/// Unique task identifier.
#[derive(Debug, Clone, Copy, PartialEq, Eq, Structural, PartialOrd, Ord)]
pub struct TaskId(u64);

impl TaskId {
    /// Draw the next identifier from the monotonically-increasing task-ID
    /// generator `counter`.
    fn next(counter: &AtomicU64) -> TaskId {
        TaskId(counter.fetch_add(1, Ordering::Relaxed))
    }
}

/// Lifecycle state of a task.
#[derive(Debug, Clone, Copy, PartialEq, Eq, Structural)]
pub enum TaskState {
    /// Eligible to run.
    Ready,
    /// Currently executing on the CPU.
    Running,
    /// Blocked waiting for an IPC message or I/O.
    Blocked,
    /// Terminated; resources can be reclaimed.
    Zombie,
}

/// Saved integer register state used for context switching.
///
/// Layout must match the push order in the assembly context-switch stub.
#[derive(Debug, Clone)]
pub struct CpuContext {
    pub rsp: u64,
    pub rbp: u64,
    pub rbx: u64,
    pub r12: u64,
    pub r13: u64,
    pub r14: u64,
    pub r15: u64,
    pub rip: u64,
}

/// All registers zero.
pub open spec fn is_zeroed(c: CpuContext) -> bool {
    c.rsp == 0 && c.rbp == 0 && c.rbx == 0 && c.r12 == 0 && c.r13 == 0 && c.r14 == 0 && c.r15 == 0
        && c.rip == 0
}

impl Default for CpuContext {
    fn default() -> (c: Self)
        ensures
            is_zeroed(c),
    {
        CpuContext { rsp: 0, rbp: 0, rbx: 0, r12: 0, r13: 0, r14: 0, r15: 0, rip: 0 }
    }
}

/// Represents a single task (kernel thread or user process).
pub struct Task {
    pub id: TaskId,
    pub state: TaskState,
    pub context: CpuContext,
    /// Kernel stack allocation — kept alive for the task's lifetime.
    pub stack: Vec<u8>,
    /// Human-readable name for debugging.
    pub name: &'static str,
    /// Remaining time-slice ticks before preemption.
    pub ticks_remaining: u32,
}

/// Kernel stack size per task: 16 KiB.
pub const STACK_SIZE: usize = 4096 * 4;
/// Default time-slice length in timer ticks (~10 ms at 100 Hz).
pub const DEFAULT_TIMESLICE: u32 = 10;

/// Byte `k` (least significant first) of `x`.
pub open spec fn le_byte(x: u64, k: int) -> u8 {
    ((x >> (8 * k) as u64) & 0xff) as u8
}

/// `stack` holds `entry` in its top eight bytes, least significant byte
/// first, and zeros below.
pub open spec fn stack_primed_with(stack: Seq<u8>, entry: u64) -> bool {
    &&& stack.len() == STACK_SIZE
    &&& forall|i: int| 0 <= i < STACK_SIZE - 8 ==> #[trigger] stack[i] == 0
    &&& forall|k: int| 0 <= k < 8 ==> #[trigger] stack[STACK_SIZE - 8 + k] == le_byte(entry, k)
}

/// The trusted bridge to `Vec::as_ptr`: the address of the stack's buffer.
/// Nothing is claimed of the address but that the buffer does not wrap
/// around the end of the address space, which Rust guarantees of every
/// allocation (`vec.as_ptr().add(vec.len())` is always in bounds).
#[verifier::external_body]
fn stack_address(stack: &Vec<u8>) -> (addr: usize)
    ensures
        addr + stack@.len() <= usize::MAX,
{
    stack.as_ptr() as usize
}

/// The saved stack pointer of a task whose stack buffer starts at
/// `stack_base`: the top eight bytes of the buffer, where the entry address
/// lies, so that the context-switch stub's `ret` jumps to the entry.
pub fn initial_rsp(stack_base: usize) -> (rsp: u64)
    requires
        stack_base + STACK_SIZE <= usize::MAX,
    ensures
        rsp == stack_base + STACK_SIZE - 8,
{
    (stack_base + STACK_SIZE - 8) as u64
}

impl Task {
    /// Allocate a new kernel task that will begin executing at the address
    /// `entry`, drawing its identifier from `next_tid`.
    ///
    /// The entry-point address is placed at the top of the stack, and the
    /// saved stack pointer points at it, so that when the context-switch stub
    /// executes `ret` it jumps to `entry`: it is `initial_rsp` of the stack
    /// buffer's address.  That address is the allocator's choice and has no
    /// name here, so the contract bounds the saved stack pointer only.
    pub fn new(name: &'static str, entry: u64, next_tid: &AtomicU64) -> (t: Self)
        ensures
            t.state == TaskState::Ready,
            t.name == name,
            t.ticks_remaining == DEFAULT_TIMESLICE,
            stack_primed_with(t.stack@, entry),
            t.context.rsp >= STACK_SIZE - 8,
            t.context.rsp + 8 <= usize::MAX,
            t.context.rbp == 0 && t.context.rbx == 0 && t.context.r12 == 0 && t.context.r13 == 0
                && t.context.r14 == 0 && t.context.r15 == 0 && t.context.rip == 0,
    {
        let mut stack: Vec<u8> = vec![0u8; STACK_SIZE];
        let mut k: usize = 0;
        while k < 8
            invariant
                k <= 8,
                stack@.len() == STACK_SIZE,
                forall|i: int| 0 <= i < STACK_SIZE - 8 ==> #[trigger] stack@[i] == 0,
                forall|j: int| 0 <= j < k ==> #[trigger] stack@[STACK_SIZE - 8 + j] == le_byte(entry, j),
            decreases 8 - k,
        {
            stack[STACK_SIZE - 8 + k] = ((entry >> (8 * k) as u64) & 0xff) as u8;
            k += 1;
        }

        let rsp = initial_rsp(stack_address(&stack));

        Task {
            id: TaskId::next(next_tid),
            state: TaskState::Ready,
            context: CpuContext { rsp, rbp: 0, rbx: 0, r12: 0, r13: 0, r14: 0, r15: 0, rip: 0 },
            stack,
            name,
            ticks_remaining: DEFAULT_TIMESLICE,
        }
    }
}

} // verus!
