//! Tock core scheduler: the kernel's table of processes and its count of
//! pending work.

use vstd::prelude::*;
use crate::callback::{AppId, Callback, CallbackId};
use crate::capabilities;
use crate::driver::Driver;
use crate::mem::{AppSlice, Shared};
use crate::grant::Grant;
use crate::ipc::IPC;
use crate::memop;
use crate::platform::mpu::MPU;
use crate::platform::systick::SysTick;
use crate::platform::{Chip, Platform};
use crate::syscall::{ContextSwitchReason, Syscall};
use crate::process::{self, ProcessType, State, Task, pending_work_of};
use crate::returncode::ReturnCode;

verus! {

/// The work one slot of the process table holds.
pub open spec fn slot_pending<P: ProcessType>(slot: Option<P>) -> nat {
    match slot {
        Some(p) => pending_work_of(p.spec_tasks().len(), p.spec_state()),
        None => 0,
    }
}

/// The work the processes of a table hold: their queued tasks, and one
/// for each running process.
pub open spec fn total_pending<P: ProcessType>(s: Seq<Option<P>>) -> nat
    decreases s.len(),
{
    if s.len() == 0 {
        0
    } else {
        total_pending(s.drop_last()) + slot_pending(s.last())
    }
}

/// The time a process may run before the kernel takes over, in
/// microseconds.
pub const KERNEL_TICK_DURATION_US: u32 = 10000;

/// Skip re-scheduling a process if its quanta is nearly exhausted.
pub const MIN_QUANTA_THRESHOLD_US: u32 = 500;

/// What the scheduler does after one step of running a process.
#[derive(Clone, Copy, Debug, PartialEq, Eq, Structural)]
pub enum ProcessStep {
    /// Keep running the process.
    Continue,
    /// Move on to the next process.
    Break,
    /// The process faulted and its fault response is to panic the kernel.
    Panic,
}

/// The addresses of every writeable flash region a process declares lie
/// within the address space.
pub open spec fn flash_regions_addressable<P: ProcessType>(p: P) -> bool {
    forall|i: int| 0 <= i < p.spec_writeable_flash_regions().len() ==>
        p.spec_memory().flash_start + (#[trigger] p.spec_writeable_flash_regions()[i]).0
            + p.spec_writeable_flash_regions()[i].1 <= usize::MAX
}

/// A step of the scheduler may run process `p`, leaving `q`: it keeps its
/// identity and is well formed, and the work count changes at least as
/// much as the work the process holds.
pub open spec fn step_keeps<P: ProcessType>(p: P, q: P, work: usize, new_work: usize) -> bool {
    &&& q.wf()
    &&& process::same_identity(&p, &q)
    &&& q.spec_grant_slots().len() == p.spec_grant_slots().len()
    &&& new_work + slot_pending(Some(p)) >= work + slot_pending(Some(q))
    &&& new_work <= work + 1
    &&& q.spec_counters().dropped_callback_count <= p.spec_counters().dropped_callback_count
}

/// The chip reports a pending interrupt.
pub open spec fn interrupt_reported<C: Chip>(chip: &C) -> bool {
    call_ensures(<C as Chip>::has_pending_interrupts, (chip,), true)
}

/// The chip's system tick timer reports that the timeslice is over: it has
/// expired, or less than the minimum quantum is left.
pub open spec fn timeslice_over<C: Chip>(chip: &C) -> bool {
    exists|st: &C::SysTick| {
        &&& #[trigger] call_ensures(<C as Chip>::systick, (chip,), st)
        &&& call_ensures(<C::SysTick as SysTick>::overflowed, (st,), true)
            || call_ensures(<C::SysTick as SysTick>::greater_than, (st, MIN_QUANTA_THRESHOLD_US), false)
    }
}

/// The chip lets a process run: it reports no pending interrupt, and its
/// system tick timer has not expired and has more than the minimum quantum
/// left.
pub open spec fn chip_lets_run<C: Chip>(chip: &C) -> bool {
    &&& call_ensures(<C as Chip>::has_pending_interrupts, (chip,), false)
    &&& exists|st: &C::SysTick| {
        &&& #[trigger] call_ensures(<C as Chip>::systick, (chip,), st)
        &&& call_ensures(<C::SysTick as SysTick>::overflowed, (st,), false)
        &&& call_ensures(<C::SysTick as SysTick>::greater_than, (st, MIN_QUANTA_THRESHOLD_US), true)
    }
}

/// Process `p` with one more expired timeslice counted, and nothing else
/// changed, is `q`.
pub open spec fn timeslice_counted<P: ProcessType>(p: P, q: P) -> bool {
    &&& q.wf()
    &&& process::same_identity(&p, &q)
    &&& q.spec_state() == p.spec_state()
    &&& q.spec_tasks() == p.spec_tasks()
    &&& q.spec_memory() == p.spec_memory()
    &&& q.spec_grant_slots() == p.spec_grant_slots()
    &&& q.spec_writeable_flash_regions() == p.spec_writeable_flash_regions()
    &&& q.spec_counters() == (process::ProcessCounters {
        timeslice_expiration_count: (p.spec_counters().timeslice_expiration_count + 1) as usize,
        ..p.spec_counters()
    })
}

/// The chip made the scheduler move on before process `p` ran, leaving
/// `q`: on an interrupt the process is untouched; at the end of the
/// timeslice it has one more expired timeslice counted.
pub open spec fn preempted<P: ProcessType, C: Chip>(chip: &C, p: P, q: P) -> bool {
    ||| interrupt_reported(chip) && q == p
    ||| timeslice_over(chip) && timeslice_counted(p, q)
}

/// What running the first queued task, a function call, can leave of
/// process `p`: it runs with the rest of its tasks, or it faulted for lack
/// of stack and was restarted or stopped.
pub open spec fn function_call_started<P: ProcessType>(p: P, q: P) -> bool {
    ||| q.spec_state() == State::Running && q.spec_tasks() == p.spec_tasks().drop_first()
    ||| q.spec_state() == State::Unstarted && p.spec_fault_response() == process::FaultResponse::Restart
        && q.spec_tasks().len() == 1
    ||| q.spec_state() == State::StoppedFaulted && p.spec_fault_response() == process::FaultResponse::Stop
        && q.spec_tasks().len() == 0
}

/// What a COMMAND syscall returns: the answer of driver `d` to the command,
/// or `ENODEVICE` if there is no such driver.
pub open spec fn command_result<D: Driver>(d: Option<&D>, minor: usize, r2: usize, r3: usize, app: AppId, rc: ReturnCode) -> bool {
    match d {
        Some(d) => call_ensures(<D as Driver>::command, (d, minor, r2, r3, app), rc),
        None => rc == ReturnCode::ENODEVICE,
    }
}

/// What a SUBSCRIBE syscall returns: the answer of driver `d` to the
/// subscription, or `ENODEVICE` if there is no such driver.
pub open spec fn subscribe_result<D: Driver>(d: Option<&D>, minor: usize, callback: Option<Callback>, app: AppId, rc: ReturnCode) -> bool {
    match d {
        Some(d) => call_ensures(<D as Driver>::subscribe, (d, minor, callback, app), rc),
        None => rc == ReturnCode::ENODEVICE,
    }
}

/// What an ALLOW syscall returns once the buffer is accepted: the answer of
/// driver `d` to the buffer, or `ENODEVICE` if there is no such driver.
pub open spec fn allow_result<D: Driver>(d: Option<&D>, app: AppId, minor: usize, slice: Option<AppSlice<Shared, u8>>, rc: ReturnCode) -> bool {
    match d {
        Some(d) => call_ensures(<D as Driver>::allow, (d, app, minor, slice), rc),
        None => rc == ReturnCode::ENODEVICE,
    }
}

/// The callback a SUBSCRIBE syscall registers: none for a null function
/// pointer, else a call of `fn_ptr` with `appdata` for the process `app`.
pub open spec fn subscribed_callback(c: Option<Callback>, app: AppId, id: CallbackId, fn_ptr: usize, appdata: usize) -> bool {
    if fn_ptr == 0 {
        c is None
    } else {
        &&& c is Some
        &&& c->Some_0.spec_app_id() == app
        &&& c->Some_0.spec_callback_id() == id
        &&& c->Some_0.spec_appdata() == appdata
        &&& c->Some_0.spec_fn_ptr() == fn_ptr
    }
}

/// What handling the system call `syscall` of running process `p` does:
/// it leaves `q`, and the kernel's work count goes from `w` to `w2`.
pub open spec fn syscall_outcome<P: ProcessType, PL: Platform>(p: P, q: P, w: usize, w2: usize, syscall: Syscall) -> bool {
    &&& q.wf()
    &&& process::same_identity(&p, &q)
    &&& q.spec_grant_slots() == p.spec_grant_slots()
    &&& q.spec_counters() == p.spec_counters()
    &&& match syscall {
        Syscall::YIELD => {
            &&& q.spec_state() == State::Yielded
            &&& w2 == w - 1
            &&& q.spec_tasks() == p.spec_tasks()
            &&& q.spec_memory() == p.spec_memory()
        },
        Syscall::SUBSCRIBE { driver_number, subdriver_number, callback_ptr, appdata } => {
            let callback_id = CallbackId { driver_num: driver_number, subscribe_num: subdriver_number };
            &&& q.spec_state() == State::Running
            &&& w2 == w
            &&& q.spec_tasks().len() <= p.spec_tasks().len()
            &&& q.spec_tasks() == crate::common::queue::filter_by(
                p.spec_tasks(),
                Seq::new(p.spec_tasks().len(), |i: int| process::task_survives(p.spec_tasks()[i], callback_id)),
            )
            &&& q.spec_memory() == p.spec_memory()
            &&& exists|d: Option<&PL::Driver>, a: AppId, c: Option<Callback>, rc: ReturnCode| {
                &&& a.spec_idx() == p.spec_app_idx()
                &&& subscribed_callback(c, a, callback_id, callback_ptr, appdata)
                &&& #[trigger] subscribe_result(d, subdriver_number, c, a, rc)
                &&& q.spec_syscall_return_value() == crate::returncode::return_code_value(rc)
            }
        },
        Syscall::COMMAND { subdriver_number, arg0, arg1, .. } => {
            &&& q.spec_state() == State::Running
            &&& w2 == w
            &&& q.spec_tasks() == p.spec_tasks()
            &&& q.spec_memory() == p.spec_memory()
            &&& exists|d: Option<&PL::Driver>, a: AppId, rc: ReturnCode| {
                &&& a.spec_idx() == p.spec_app_idx()
                &&& #[trigger] command_result(d, subdriver_number, arg0, arg1, a, rc)
                &&& q.spec_syscall_return_value() == crate::returncode::return_code_value(rc)
            }
        },
        Syscall::ALLOW { subdriver_number, allow_address, allow_size, .. } => {
            let m = p.spec_memory();
            let accepted = allow_address == 0 || process::in_app_owned_memory(m, allow_address as int, allow_size as int);
            &&& q.spec_state() == State::Running
            &&& w2 == w
            &&& q.spec_tasks() == p.spec_tasks()
            &&& exists|rc: ReturnCode| {
                &&& q.spec_syscall_return_value() == crate::returncode::return_code_value(rc)
                &&& {
                    ||| rc == ReturnCode::ENODEVICE && q.spec_memory() == m
                    ||| !accepted && rc == ReturnCode::EINVAL && q.spec_memory() == m
                    ||| accepted && exists|d: Option<&PL::Driver>, a: AppId, s: Option<AppSlice<Shared, u8>>| {
                        &&& a.spec_idx() == p.spec_app_idx()
                        &&& allow_address == 0 ==> s is None && q.spec_memory() == m
                        &&& allow_address != 0 ==> {
                            &&& s is Some
                            &&& s->Some_0.spec_ptr() == allow_address
                            &&& s->Some_0.spec_len() == allow_size
                            &&& s->Some_0.spec_owner().spec_idx() == a.spec_idx()
                            &&& q.spec_memory() == process::shared_memory_after(m, allow_address, allow_size)
                        }
                        &&& #[trigger] allow_result(d, a, subdriver_number, s, rc)
                    }
                }
            }
        },
        Syscall::MEMOP { operand, arg0 } => {
            &&& w2 == w
            &&& exists|rc: ReturnCode| {
                &&& #[trigger] memop::memop_outcome(p, q, operand, arg0, rc)
                &&& q.spec_syscall_return_value() == crate::returncode::return_code_value(rc)
            }
        },
    }
}

/// What running process `p` until it next enters the kernel leaves of it:
/// the same process, with the stack pointer it came back with, and its
/// counters and lowest stack pointer updated for the run.
pub open spec fn switched<P: ProcessType>(p: P, q: P) -> bool {
    &&& q.wf()
    &&& process::same_identity(&p, &q)
    &&& q.spec_state() == p.spec_state()
    &&& q.spec_tasks() == p.spec_tasks()
    &&& q.spec_grant_slots() == p.spec_grant_slots()
    &&& q.spec_writeable_flash_regions() == p.spec_writeable_flash_regions()
    &&& q.spec_counters().dropped_callback_count == p.spec_counters().dropped_callback_count
    &&& q.spec_counters().restart_count == p.spec_counters().restart_count
    &&& q.spec_memory() == (process::MemoryModel {
        current_stack_pointer: q.spec_memory().current_stack_pointer,
        ..p.spec_memory()
    })
}

/// What the kernel's response to a fault of process `p` leaves, when the
/// response is not to panic: the process `q` in the fault state, with the
/// work count going from `w` to `w2`.
pub open spec fn fault_handled<P: ProcessType>(p: P, q: P, w: usize, w2: usize) -> bool {
    &&& process::faulted(p, q)
    &&& w2 == w + process::fault_work_change(p)
}

/// What the kernel does when a run of a process ends for `reason`, the
/// process having come back as `mid`: it handles a system call and keeps
/// running the process; at the end of the timeslice or on an interrupt it
/// moves on; on a fault, or when the chip could not run the process, it
/// panics if that is the process's fault response, and otherwise puts the
/// process in the fault state and keeps going. `q` is what is left of the
/// process, `step` what the scheduler does next, and the work count goes
/// from `w` to `w2`.
pub open spec fn run_ended<P: ProcessType, PL: Platform>(
    mid: P,
    q: P,
    w: usize,
    w2: usize,
    reason: Option<ContextSwitchReason>,
    step: ProcessStep,
) -> bool {
    match reason {
        Some(ContextSwitchReason::SyscallFired { syscall }) => step == ProcessStep::Continue
            && syscall_outcome::<P, PL>(mid, q, w, w2, syscall),
        Some(ContextSwitchReason::TimesliceExpired) => step == ProcessStep::Break && q == mid && w2 == w,
        Some(ContextSwitchReason::Interrupted) => step == ProcessStep::Break && q == mid && w2 == w,
        _ => if mid.spec_fault_response() == process::FaultResponse::Panic {
            step == ProcessStep::Panic && q == mid && w2 == w
        } else {
            step == ProcessStep::Continue && fault_handled(mid, q, w, w2)
        },
    }
}

/// The change that putting every process of a table in the fault state
/// makes to the kernel's work count.
pub open spec fn faults_work_change<P: ProcessType>(s: Seq<Option<P>>) -> int
    decreases s.len(),
{
    if s.len() == 0 {
        0
    } else {
        faults_work_change(s.drop_last()) + match s.last() {
            Some(p) => process::fault_work_change(p),
            None => 0,
        }
    }
}

/// Slot `i` of a table, or `None` past its end.
pub open spec fn slot_at<P>(s: Seq<Option<P>>, i: usize) -> Option<P> {
    if i < s.len() { s[i as int] } else { None }
}

/// Every process in a table can count one more dropped callback.
pub open spec fn dropped_bounded<P: ProcessType>(procs: Seq<Option<P>>) -> bool {
    forall|i: int| 0 <= i < procs.len() ==> (#[trigger] procs[i] matches Some(p)
        ==> p.spec_counters().dropped_callback_count < usize::MAX)
}

/// Two tables hold the same processes in the same slots, with the same
/// identity, state, tasks and counters: only memory and MPU bookkeeping
/// may differ.
pub open spec fn same_schedule<P: ProcessType>(a: Seq<Option<P>>, b: Seq<Option<P>>) -> bool {
    &&& a.len() == b.len()
    &&& forall|i: int| 0 <= i < a.len() ==> match (#[trigger] a[i], b[i]) {
        (Some(p), Some(q)) => {
            &&& process::same_identity(&p, &q)
            &&& q.spec_state() == p.spec_state()
            &&& q.spec_tasks() == p.spec_tasks()
            &&& q.spec_counters() == p.spec_counters()
        },
        (None, None) => true,
        _ => false,
    }
}

/// Two tables hold processes in the same slots, with the same identities.
pub open spec fn same_identities<P: ProcessType>(a: Seq<Option<P>>, b: Seq<Option<P>>) -> bool {
    &&& a.len() == b.len()
    &&& forall|i: int| 0 <= i < a.len() ==> match (#[trigger] a[i], b[i]) {
        (Some(p), Some(q)) => process::same_identity(&p, &q),
        (None, None) => true,
        _ => false,
    }
}

/// Keeping the schedule keeps the identities, and keeping identities is
/// transitive.
pub proof fn lemma_same_identities_chain<P: ProcessType>(a: Seq<Option<P>>, b: Seq<Option<P>>, c: Seq<Option<P>>)
    requires
        same_schedule(a, b) || same_identities(a, b),
        same_schedule(b, c) || same_identities(b, c),
    ensures
        same_identities(a, b),
        same_identities(a, c),
{
    assert forall|i: int| 0 <= i < a.len() implies match (#[trigger] a[i], b[i]) {
        (Some(p), Some(q)) => process::same_identity(&p, &q),
        (None, None) => true,
        _ => false,
    } by {
        assert(match (a[i], b[i]) {
            (Some(p), Some(q)) => process::same_identity(&p, &q),
            (None, None) => true,
            _ => false,
        });
    }
    assert forall|i: int| 0 <= i < a.len() implies match (#[trigger] a[i], c[i]) {
        (Some(p), Some(q)) => process::same_identity(&p, &q),
        (None, None) => true,
        _ => false,
    } by {
        assert(match (a[i], b[i]) {
            (Some(p), Some(q)) => process::same_identity(&p, &q),
            (None, None) => true,
            _ => false,
        });
        assert(match (b[i], c[i]) {
            (Some(p), Some(q)) => process::same_identity(&p, &q),
            (None, None) => true,
            _ => false,
        });
    }
}

/// Replacing a process by one with the same identity, state, tasks and
/// counters keeps the schedule.
pub proof fn lemma_same_schedule_update<P: ProcessType>(procs: Seq<Option<P>>, i: int, q: P)
    requires
        0 <= i < procs.len(),
        procs[i] matches Some(p) && process::same_identity(&p, &q) && q.spec_state() == p.spec_state()
            && q.spec_tasks() == p.spec_tasks() && q.spec_counters() == p.spec_counters(),
    ensures
        same_schedule(procs, procs.update(i, Some(q))),
{
}

/// Keeping the schedule is transitive.
pub proof fn lemma_same_schedule_trans<P: ProcessType>(a: Seq<Option<P>>, b: Seq<Option<P>>, c: Seq<Option<P>>)
    requires
        same_schedule(a, b),
        same_schedule(b, c),
    ensures
        same_schedule(a, c),
{
    assert forall|i: int| 0 <= i < a.len() implies match (#[trigger] a[i], c[i]) {
        (Some(p), Some(q)) => {
            &&& process::same_identity(&p, &q)
            &&& q.spec_state() == p.spec_state()
            &&& q.spec_tasks() == p.spec_tasks()
            &&& q.spec_counters() == p.spec_counters()
        },
        (None, None) => true,
        _ => false,
    } by {
        assert(match (a[i], b[i]) {
            (Some(p), Some(q)) => {
                &&& process::same_identity(&p, &q)
                &&& q.spec_state() == p.spec_state()
                &&& q.spec_tasks() == p.spec_tasks()
                &&& q.spec_counters() == p.spec_counters()
            },
            (None, None) => true,
            _ => false,
        });
        assert(match (b[i], c[i]) {
            (Some(p), Some(q)) => {
                &&& process::same_identity(&p, &q)
                &&& q.spec_state() == p.spec_state()
                &&& q.spec_tasks() == p.spec_tasks()
                &&& q.spec_counters() == p.spec_counters()
            },
            (None, None) => true,
            _ => false,
        });
    }
}

/// A table with the same schedule as a bounded one is bounded.
pub proof fn lemma_same_schedule_dropped<P: ProcessType>(a: Seq<Option<P>>, b: Seq<Option<P>>)
    requires
        same_schedule(a, b),
        dropped_bounded(a),
    ensures
        dropped_bounded(b),
{
    assert forall|i: int| 0 <= i < b.len() implies (#[trigger] b[i] matches Some(q)
        ==> q.spec_counters().dropped_callback_count < usize::MAX) by {
        assert(match (a[i], b[i]) {
            (Some(p), Some(q)) => q.spec_counters() == p.spec_counters(),
            (None, None) => true,
            _ => false,
        });
    }
}

/// A slot of the table is well formed: the process in it is, and it
/// knows its own slot.
pub open spec fn slot_wf<P: ProcessType>(slot: Option<P>, i: int) -> bool {
    match slot {
        Some(p) => p.wf() && p.spec_app_idx() == i,
        None => true,
    }
}

/// Replacing one slot changes the table's work by the difference between
/// the old and the new slot's work.
pub proof fn lemma_total_pending_update<P: ProcessType>(s: Seq<Option<P>>, i: int, x: Option<P>)
    requires
        0 <= i < s.len(),
    ensures
        slot_pending(s[i]) <= total_pending(s),
        total_pending(s.update(i, x)) == total_pending(s) - slot_pending(s[i]) + slot_pending(x),
    decreases s.len(),
{
    let t = s.update(i, x);
    if i == s.len() - 1 {
        assert(t.drop_last() =~= s.drop_last());
    } else {
        assert(t.drop_last() =~= s.drop_last().update(i, x));
        lemma_total_pending_update(s.drop_last(), i, x);
    }
}

/// A table of empty slots holds no work.
pub proof fn lemma_total_pending_empty<P: ProcessType>(s: Seq<Option<P>>)
    requires
        forall|i: int| 0 <= i < s.len() ==> s[i] is None,
    ensures
        total_pending(s) == 0,
    decreases s.len(),
{
    if s.len() > 0 {
        lemma_total_pending_empty(s.drop_last());
    }
}

/// What queueing `task` did to a process `p`, leaving `q`, with result
/// `r`: a faulted process takes nothing; otherwise the task is queued if it
/// fits and counted as dropped if not.
pub open spec fn enqueue_outcome<P: ProcessType>(p: P, q: P, task: Task, r: bool) -> bool {
    &&& q.wf()
    &&& process::same_identity(&p, &q)
    &&& q.spec_state() == p.spec_state()
    &&& q.spec_memory() == p.spec_memory()
    &&& q.spec_grant_slots() == p.spec_grant_slots()
    &&& if p.spec_state() == State::Fault {
        &&& !r
        &&& q.spec_tasks() == p.spec_tasks()
        &&& q.spec_counters() == p.spec_counters()
    } else {
        &&& r == (p.spec_tasks().len() + 1 < p.spec_task_capacity())
        &&& r ==> q.spec_tasks() == p.spec_tasks().push(task) && q.spec_counters() == p.spec_counters()
        &&& !r ==> q.spec_tasks() == p.spec_tasks() && q.spec_counters() == (process::ProcessCounters {
            dropped_callback_count: (p.spec_counters().dropped_callback_count + 1) as usize,
            ..p.spec_counters()
        })
    }
}

/// A process that has not faulted takes a task exactly when its queue has
/// room for it (one slot of the queue always stays free) and puts it at
/// the back; otherwise the task is dropped and counted. A faulted process
/// takes nothing. Nothing else about the process changes.
pub proof fn law_enqueue_takes_a_task_while_there_is_room<P: ProcessType>(p: P, q: P, task: Task, r: bool)
    requires
        enqueue_outcome(p, q, task, r),
    ensures
        p.spec_state() == State::Fault ==> !r && q.spec_tasks() == p.spec_tasks(),
        p.spec_state() != State::Fault ==> (r <==> p.spec_tasks().len() + 2 <= p.spec_task_capacity()),
        r ==> q.spec_tasks().len() == p.spec_tasks().len() + 1 && q.spec_tasks().last() == task
            && q.spec_tasks().drop_last() == p.spec_tasks(),
        !r ==> q.spec_tasks() == p.spec_tasks(),
        p.spec_state() != State::Fault && !r ==> q.spec_counters().dropped_callback_count
            == (p.spec_counters().dropped_callback_count + 1) as usize,
        q.spec_state() == p.spec_state(),
        q.spec_memory() == p.spec_memory(),
{
    if r {
        assert(q.spec_tasks().drop_last() =~= p.spec_tasks());
    }
}

/// Memory the kernel takes from a process for itself is carved from the
/// top of the process's free memory: on success the address is a multiple
/// of the alignment (a power of two: its low bits are clear), the `size` bytes from it end at or
/// below the old kernel memory break, they start at or above the process's
/// break, and the kernel memory break moves down to that address. On
/// failure nothing changes.
pub proof fn law_allocation_is_aligned_and_below_the_break<P: ProcessType>(
    p: P,
    q: P,
    size: usize,
    align: usize,
    r: Result<usize, process::Error>,
)
    requires
        allocate_outcome(p, q, size, align, r),
        align > 0,
        align & ((align - 1) as usize) == 0,
    ensures
        r matches Ok(addr) ==> {
            &&& addr & ((align - 1) as usize) == 0
            &&& addr + size <= p.spec_memory().kernel_memory_break
            &&& p.spec_memory().app_break <= addr
            &&& q.spec_memory().kernel_memory_break == addr
            &&& q.spec_memory().app_break == p.spec_memory().app_break
            &&& q.spec_memory().mem_start == p.spec_memory().mem_start
            &&& q.spec_memory().mem_end == p.spec_memory().mem_end
        },
        r is Err ==> q.spec_memory() == p.spec_memory(),
{
    if let Ok(addr) = r {
        let kb = p.spec_memory().kernel_memory_break;
        let x: usize = (kb - size) as usize;
        let m: usize = (align - 1) as usize;
        assert(addr == x & !m);
        assert((x & !m) <= x) by (bit_vector);
        assert((x & !m) & m == 0) by (bit_vector);
    }
}

/// The kernel's invariant over its table, work count and grant count:
/// every process is well formed, sits in its own slot and has a pointer
/// slot for each grant; the work count covers the work the processes hold;
/// and there are no processes before the grants are finalized.
pub open spec fn table_wf<P: ProcessType>(procs: Seq<Option<P>>, work: usize, grant_counter: usize, grants_finalized: bool) -> bool {
    &&& forall|i: int| 0 <= i < procs.len() ==> #[trigger] slot_wf(procs[i], i)
    &&& work >= total_pending(procs)
    &&& forall|i: int| 0 <= i < procs.len() ==> (#[trigger] procs[i] matches Some(p)
        ==> p.spec_grant_slots().len() == grant_counter)
    &&& !grants_finalized ==> forall|i: int| 0 <= i < procs.len() ==> #[trigger] procs[i] is None
}

/// Putting a well-formed process in a slot keeps the table well formed, if
/// the work count still covers the work.
pub proof fn lemma_table_wf_update<P: ProcessType>(
    procs: Seq<Option<P>>,
    work: usize,
    new_work: usize,
    grant_counter: usize,
    grants_finalized: bool,
    i: int,
    q: P,
)
    requires
        table_wf(procs, work, grant_counter, grants_finalized),
        0 <= i < procs.len(),
        grants_finalized,
        slot_wf(Some(q), i),
        q.spec_grant_slots().len() == grant_counter,
        new_work + slot_pending(procs[i]) >= total_pending(procs) + slot_pending(Some(q)),
    ensures
        table_wf(procs.update(i, Some(q)), new_work, grant_counter, grants_finalized),
        slot_pending(procs[i]) <= total_pending(procs),
{
    lemma_total_pending_update(procs, i, Some(q));
    let t = procs.update(i, Some(q));
    assert forall|k: int| 0 <= k < t.len() implies #[trigger] slot_wf(t[k], k) by {
        if k != i {
            assert(slot_wf(procs[k], k));
        }
    }
    assert forall|k: int| 0 <= k < t.len() implies (#[trigger] t[k] matches Some(p)
        ==> p.spec_grant_slots().len() == grant_counter) by {
        if k != i {
            assert(procs[k] == t[k]);
        }
    }
}

/// What allocating `size` bytes aligned to `align` did to a process `p`,
/// leaving `q`, with result `r`: only the kernel memory break moves, to the
/// address returned.
pub open spec fn allocate_outcome<P: ProcessType>(p: P, q: P, size: usize, align: usize, r: Result<usize, process::Error>) -> bool {
    &&& q.wf()
    &&& process::same_identity(&p, &q)
    &&& q.spec_state() == p.spec_state()
    &&& q.spec_tasks() == p.spec_tasks()
    &&& q.spec_counters() == p.spec_counters()
    &&& q.spec_grant_slots() == p.spec_grant_slots()
    &&& match r {
        Ok(addr) => {
            &&& addr == process::aligned_break(p.spec_memory().kernel_memory_break, size, align)
            &&& size <= p.spec_memory().kernel_memory_break
            &&& p.spec_memory().app_break <= addr
            &&& q.spec_memory() == (process::MemoryModel { kernel_memory_break: addr, ..p.spec_memory() })
        },
        Err(e) => e == process::Error::OutOfMemory && q.spec_memory() == p.spec_memory(),
    }
}

/// What giving grant region `grant_num` of a process `p` fresh memory did,
/// leaving `q`, with result `r`.
pub open spec fn grant_allocate_outcome<P: ProcessType>(p: P, q: P, grant_num: usize, size: usize, align: usize, r: Result<(usize, bool), process::Error>) -> bool {
    &&& q.wf()
    &&& process::same_identity(&p, &q)
    &&& q.spec_state() == p.spec_state()
    &&& q.spec_tasks() == p.spec_tasks()
    &&& q.spec_counters() == p.spec_counters()
    &&& match r {
        Ok((addr, fresh)) => {
            &&& fresh
            &&& addr == process::aligned_break(p.spec_memory().kernel_memory_break, size, align)
            &&& size <= p.spec_memory().kernel_memory_break
            &&& p.spec_memory().app_break <= addr
            &&& q.spec_memory() == (process::MemoryModel { kernel_memory_break: addr, ..p.spec_memory() })
            &&& q.spec_grant_slots() == p.spec_grant_slots().update(grant_num as int, addr)
        },
        Err(e) => {
            &&& e == process::Error::OutOfMemory
            &&& q.spec_memory() == p.spec_memory()
            &&& q.spec_grant_slots() == p.spec_grant_slots()
        },
    }
}

/// Main object for the kernel. Each board will need to create one.
pub struct Kernel<P: ProcessType> {
    /// How many "to-do" items exist at any given time. These include
    /// outstanding callbacks and processes in the Running state.
    work: usize,
    /// This holds the processes that this kernel manages.
    processes: Vec<Option<P>>,
    /// How many grant regions have been setup. This is incremented on
    /// every call to `create_grant()`.
    grant_counter: usize,
    /// Flag to mark that grants have been finalized. This means that the
    /// kernel cannot support creating new grants because processes have
    /// already been created and the data structures for grants have already
    /// been established.
    grants_finalized: bool,
}

impl<P: ProcessType> Kernel<P> {
    /// The kernel's invariant: every process is well formed and sits in
    /// its own slot, and the work count covers the work the processes hold.
    pub closed spec fn wf(&self) -> bool {
        table_wf(self.processes@, self.work, self.grant_counter, self.grants_finalized)
    }

    pub closed spec fn spec_work(&self) -> usize {
        self.work
    }

    pub closed spec fn spec_processes(&self) -> Seq<Option<P>> {
        self.processes@
    }

    pub closed spec fn spec_grant_counter(&self) -> usize {
        self.grant_counter
    }

    pub closed spec fn spec_grants_finalized(&self) -> bool {
        self.grants_finalized
    }

    /// The kernel sleeps only when there is nothing to do: when no work is
    /// counted, no process has a queued task and none is running.
    pub proof fn law_blocked_means_idle(&self)
        requires
            self.wf(),
            self.spec_work() == 0,
        ensures
            forall|i: int| 0 <= i < self.spec_processes().len() ==> (#[trigger] self.spec_processes()[i] matches Some(p) ==> {
                &&& p.spec_tasks().len() == 0
                &&& p.spec_state() != State::Running
                &&& p.spec_state() != State::StoppedRunning
            }),
    {
        assert forall|i: int| 0 <= i < self.spec_processes().len() implies (#[trigger] self.spec_processes()[i] matches Some(p) ==> {
            &&& p.spec_tasks().len() == 0
            &&& p.spec_state() != State::Running
            &&& p.spec_state() != State::StoppedRunning
        }) by {
            self.lemma_slot_facts(i);
        }
    }

    /// The work count covers the work the processes hold.
    pub proof fn lemma_work_covers(&self)
        requires
            self.wf(),
        ensures
            self.spec_work() >= total_pending(self.spec_processes()),
    {
    }

    /// What the invariant says of slot `i`.
    pub proof fn lemma_slot_facts(&self, i: int)
        requires
            self.wf(),
            0 <= i < self.spec_processes().len(),
        ensures
            slot_wf(self.spec_processes()[i], i),
            self.spec_processes()[i] matches Some(p) ==> p.spec_grant_slots().len() == self.spec_grant_counter()
                && self.spec_grants_finalized(),
            slot_pending(self.spec_processes()[i]) <= self.spec_work(),
            self.spec_processes().len() <= usize::MAX,
    {
        assert(self.processes.len() == self.processes@.len());
        assert(slot_wf(self.processes@[i], i));
        lemma_total_pending_update(self.processes@, i, self.processes@[i]);
    }

    /// A kernel over the given process table, with no pending work and no
    /// grants.
    pub fn new(processes: Vec<Option<P>>) -> (r: Kernel<P>)
        ensures
            r.spec_processes() == processes@,
            r.spec_work() == 0,
            r.spec_grant_counter() == 0,
            !r.spec_grants_finalized(),
            (forall|i: int| 0 <= i < processes@.len() ==> processes@[i] is None) ==> r.wf(),
    {
        let r = Kernel { work: 0, processes: processes, grant_counter: 0, grants_finalized: false };
        proof {
            if forall|i: int| 0 <= i < processes@.len() ==> processes@[i] is None {
                lemma_total_pending_empty(processes@);
            }
        }
        r
    }

    /// Something was scheduled for a process, so there is more work to do.
    pub fn increment_work(&mut self)
        requires
            old(self).spec_work() < usize::MAX,
        ensures
            final(self).spec_work() == old(self).spec_work() + 1,
            final(self).spec_processes() == old(self).spec_processes(),
            final(self).spec_grant_counter() == old(self).spec_grant_counter(),
            final(self).spec_grants_finalized() == old(self).spec_grants_finalized(),
            old(self).wf() ==> final(self).wf(),
    {
        self.work = self.work + 1;
    }

    /// Something finished for a process, so we decrement how much work
    /// there is to do.
    pub fn decrement_work(&mut self)
        requires
            old(self).spec_work() > 0,
        ensures
            final(self).spec_work() == old(self).spec_work() - 1,
            final(self).spec_processes() == old(self).spec_processes(),
            final(self).spec_grant_counter() == old(self).spec_grant_counter(),
            final(self).spec_grants_finalized() == old(self).spec_grants_finalized(),
    {
        self.work = self.work - 1;
    }

    /// Whether there is no work to do.
    pub fn processes_blocked(&self) -> (r: bool)
        ensures
            r == (self.spec_work() == 0),
    {
        self.work == 0
    }

    /// Whether the main loop may put the chip to sleep: no interrupt and no
    /// deferred call is pending, and no process has work to do.
    pub fn may_sleep(&self, interrupts_pending: bool, deferred_calls_pending: bool) -> (r: bool)
        ensures
            r == (!interrupts_pending && !deferred_calls_pending && self.spec_work() == 0),
    {
        !interrupts_pending && !deferred_calls_pending && self.processes_blocked()
    }

    /// Whether the main loop must stop running processes and go back to
    /// servicing the chip: an interrupt or a deferred call is pending.
    pub fn must_service_chip(&self, interrupts_pending: bool, deferred_calls_pending: bool) -> (r: bool)
        ensures
            r == (interrupts_pending || deferred_calls_pending),
    {
        interrupts_pending || deferred_calls_pending
    }

    /// The chip sleeps only when nothing is waiting: no interrupt, no
    /// deferred call and no work of any process; and the scheduler goes
    /// back to the chip exactly when an interrupt or a deferred call is
    /// pending. The processes count as blocked exactly when no work is
    /// counted.
    pub proof fn law_sleep_only_when_idle(&self, interrupts_pending: bool, deferred_calls_pending: bool, r: bool)
        ensures
            call_ensures(Kernel::<P>::may_sleep, (self, interrupts_pending, deferred_calls_pending), r)
                ==> (r <==> !interrupts_pending && !deferred_calls_pending && self.spec_work() == 0),
            call_ensures(Kernel::<P>::must_service_chip, (self, interrupts_pending, deferred_calls_pending), r)
                ==> (r <==> interrupts_pending || deferred_calls_pending),
            call_ensures(Kernel::<P>::processes_blocked, (self,), r) ==> (r <==> self.spec_work() == 0),
    {
    }

    /// Runs `closure` on the process in slot `process_index` and returns
    /// what it returns, or `default` if the slot is past the end of the
    /// table or empty.
    pub fn process_map_or<F, R>(&self, default: R, process_index: usize, closure: F) -> (r: R)
        where
            F: FnOnce(&P) -> R,
        requires
            process_index < self.spec_processes().len() ==> (self.spec_processes()[process_index as int] matches Some(p)
                ==> closure.requires((&p,))),
        ensures
            process_index >= self.spec_processes().len() ==> r == default,
            process_index < self.spec_processes().len() ==> match self.spec_processes()[process_index as int] {
                Some(p) => closure.ensures((&p,), r),
                None => r == default,
            },
    {
        if process_index >= self.processes.len() {
            return default;
        }
        match &self.processes[process_index] {
            Some(process) => closure(process),
            None => default,
        }
    }

    /// The process in slot `process_index`, if there is one.
    pub fn process_at(&self, process_index: usize) -> (r: Option<&P>)
        ensures
            r is Some <==> slot_at(self.spec_processes(), process_index) is Some,
            r matches Some(p) ==> *p == slot_at(self.spec_processes(), process_index)->Some_0,
    {
        if process_index >= self.processes.len() {
            return None;
        }
        match &self.processes[process_index] {
            Some(p) => Some(p),
            None => None,
        }
    }

    /// Queues `task` for the process in slot `process_index`, as the
    /// process's own `enqueue_task` does; false if the slot is past the end
    /// of the table or empty.
    pub fn enqueue_task(&mut self, process_index: usize, task: Task) -> (r: bool)
        requires
            old(self).wf(),
            old(self).spec_work() < usize::MAX,
            process_index < old(self).spec_processes().len() ==> (old(self).spec_processes()[process_index as int] matches Some(p)
                ==> p.spec_counters().dropped_callback_count < usize::MAX),
        ensures
            final(self).wf(),
            final(self).spec_grant_counter() == old(self).spec_grant_counter(),
            final(self).spec_grants_finalized() == old(self).spec_grants_finalized(),
            same_identities(old(self).spec_processes(), final(self).spec_processes()),
            process_index >= old(self).spec_processes().len() || old(self).spec_processes()[process_index as int] is None ==> {
                &&& !r
                &&& final(self).spec_processes() == old(self).spec_processes()
                &&& final(self).spec_work() == old(self).spec_work()
            },
            process_index < old(self).spec_processes().len() ==> (old(self).spec_processes()[process_index as int] matches Some(p)
                ==> exists|q: P| {
                    &&& final(self).spec_processes() == old(self).spec_processes().update(process_index as int, Some(q))
                    &&& enqueue_outcome(p, q, task, r)
                    &&& final(self).spec_work() == if p.spec_state() == State::Fault {
                        old(self).spec_work() as int
                    } else {
                        old(self).spec_work() + 1
                    }
                }),
    {
        if process_index >= self.processes.len() {
            return false;
        }
        let ghost old_procs = self.processes@;
        proof {
            assert(slot_wf(old_procs[process_index as int], process_index as int));
            if old_procs[process_index as int] is Some {
                assert(self.grants_finalized);
            }
        }
        let r = match &mut self.processes[process_index] {
            Some(p) => p.enqueue_task(&mut self.work, task),
            None => false,
        };
        proof {
            let i = process_index as int;
            assert(self.processes@ == old_procs.update(i, self.processes@[i]));
            if old_procs[i] is Some {
                let q = self.processes@[i]->Some_0;
                lemma_table_wf_update(old_procs, old(self).work, self.work, self.grant_counter, self.grants_finalized, i, q);
                assert(enqueue_outcome(old_procs[i]->Some_0, q, task, r));
                assert(self.processes@ == old_procs.update(i, Some(q)));
            } else {
                assert(self.processes@ == old_procs);
            }
            assert(table_wf(self.processes@, self.work, self.grant_counter, self.grants_finalized));
        }
        r
    }

    /// Puts every process in the fault state, as its fault response says.
    /// A process whose response is to panic the kernel is not an input: the
    /// kernel panics instead.
    pub fn hardfault_all_apps<C: capabilities::ProcessManagementCapability>(&mut self, _c: &C)
        requires
            old(self).wf(),
            old(self).spec_work() + old(self).spec_processes().len() <= usize::MAX,
            forall|i: int| 0 <= i < old(self).spec_processes().len() ==> (#[trigger] old(self).spec_processes()[i] matches Some(p)
                ==> p.spec_counters().restart_count < usize::MAX
                && p.spec_fault_response() != process::FaultResponse::Panic),
        ensures
            final(self).wf(),
            final(self).spec_grant_counter() == old(self).spec_grant_counter(),
            final(self).spec_grants_finalized() == old(self).spec_grants_finalized(),
            final(self).spec_processes().len() == old(self).spec_processes().len(),
            final(self).spec_work() == old(self).spec_work() + faults_work_change(old(self).spec_processes()),
            forall|i: int| 0 <= i < old(self).spec_processes().len() ==> match (#[trigger] old(self).spec_processes()[i], final(self).spec_processes()[i]) {
                (Some(p), Some(q)) => process::faulted(p, q),
                (None, None) => true,
                _ => false,
            },
    {
        let n = self.processes.len();
        let mut i: usize = 0;
        while i < n
            invariant
                n == self.processes@.len(),
                n == old(self).processes@.len(),
                i <= n,
                self.wf(),
                self.grant_counter == old(self).grant_counter,
                self.grants_finalized == old(self).grants_finalized,
                self.work + (n - i) <= usize::MAX,
                self.work == old(self).work + faults_work_change(old(self).processes@.take(i as int)),
                forall|k: int| i <= k < n ==> #[trigger] self.processes@[k] == old(self).processes@[k],
                forall|k: int| 0 <= k < n ==> (#[trigger] old(self).spec_processes()[k] matches Some(p)
                    ==> p.spec_counters().restart_count < usize::MAX
                    && p.spec_fault_response() != process::FaultResponse::Panic),
                forall|k: int| 0 <= k < i ==> match (#[trigger] old(self).processes@[k], self.processes@[k]) {
                    (Some(p), Some(q)) => process::faulted(p, q),
                    (None, None) => true,
                    _ => false,
                },
            decreases n - i,
        {
            let ghost procs = self.processes@;
            let ghost w = self.work;
            proof {
                let o = old(self).processes@;
                assert(o.take(i + 1).drop_last() =~= o.take(i as int));
                assert(slot_wf(procs[i as int], i as int));
                assert(old(self).spec_processes()[i as int] == procs[i as int]);
                if procs[i as int] is Some {
                    lemma_total_pending_update(procs, i as int, procs[i as int]);
                    assert(self.grants_finalized);
                }
            }
            match &mut self.processes[i] {
                Some(p) => p.set_fault_state(&mut self.work),
                None => {},
            };
            proof {
                let k = i as int;
                if procs[k] is Some {
                    let q = self.processes@[k]->Some_0;
                    assert(self.processes@ == procs.update(k, Some(q)));
                    lemma_table_wf_update(procs, w, self.work, self.grant_counter, self.grants_finalized, k, q);
                } else {
                    assert(self.processes@ == procs);
                }
            }
            i += 1;
        }
        proof {
            assert(old(self).processes@.take(n as int) =~= old(self).processes@);
        }
    }

    /// Puts `process` in the empty slot `index` of the table; the work count
    /// must already cover what the process holds.
    pub fn install_process(&mut self, index: usize, process: P)
        requires
            old(self).wf(),
            index < old(self).spec_processes().len(),
            old(self).spec_processes()[index as int] is None,
            old(self).spec_grants_finalized(),
            process.wf(),
            process.spec_app_idx() == index,
            process.spec_grant_slots().len() == old(self).spec_grant_counter(),
            old(self).spec_work() >= total_pending(old(self).spec_processes()) + slot_pending(Some(process)),
        ensures
            final(self).wf(),
            final(self).spec_processes() == old(self).spec_processes().update(index as int, Some(process)),
            final(self).spec_work() == old(self).spec_work(),
            final(self).spec_grant_counter() == old(self).spec_grant_counter(),
            final(self).spec_grants_finalized() == old(self).spec_grants_finalized(),
    {
        proof {
            lemma_table_wf_update(self.processes@, self.work, self.work, self.grant_counter, self.grants_finalized, index as int, process);
        }
        self.processes.set(index, Some(process));
    }

    /// Creates a new grant: a region of memory in every process, holding a
    /// `T`. Grants can only be created before the grants are finalized,
    /// when processes are loaded; creating one later is not a valid input.
    pub fn create_grant<T: Default, C: capabilities::MemoryAllocationCapability>(&mut self, _capability: &C) -> (r: Grant<T>)
        requires
            !old(self).spec_grants_finalized(),
            old(self).spec_grant_counter() < usize::MAX,
        ensures
            r.spec_grant_num() == old(self).spec_grant_counter(),
            r.spec_values() == Seq::<T>::empty(),
            final(self).spec_grant_counter() == old(self).spec_grant_counter() + 1,
            !final(self).spec_grants_finalized(),
            final(self).spec_work() == old(self).spec_work(),
            final(self).spec_processes() == old(self).spec_processes(),
            old(self).wf() ==> final(self).wf(),
    {
        let grant_index = self.grant_counter;
        self.grant_counter = self.grant_counter + 1;
        Grant::new(grant_index)
    }

    /// Allocates `size` bytes aligned to `align` in the memory of the
    /// process in slot `process_index`, as the process's own `allocate`
    /// does.
    pub fn process_allocate(&mut self, process_index: usize, size: usize, align: usize) -> (r: Result<usize, process::Error>)
        requires
            old(self).wf(),
            align >= 1,
        ensures
            final(self).wf(),
            final(self).spec_work() == old(self).spec_work(),
            final(self).spec_grant_counter() == old(self).spec_grant_counter(),
            final(self).spec_grants_finalized() == old(self).spec_grants_finalized(),
            final(self).spec_processes().len() == old(self).spec_processes().len(),
            same_schedule(old(self).spec_processes(), final(self).spec_processes()),
            process_index >= old(self).spec_processes().len() || old(self).spec_processes()[process_index as int] is None ==> {
                &&& r == Err::<usize, process::Error>(process::Error::NoSuchApp)
                &&& final(self).spec_processes() == old(self).spec_processes()
            },
            process_index < old(self).spec_processes().len() ==> (old(self).spec_processes()[process_index as int] matches Some(p)
                ==> exists|q: P| {
                    &&& final(self).spec_processes() == old(self).spec_processes().update(process_index as int, Some(q))
                    &&& allocate_outcome(p, q, size, align, r)
                }),
    {
        if process_index >= self.processes.len() {
            return Err(process::Error::NoSuchApp);
        }
        let ghost old_procs = self.processes@;
        proof {
            assert(slot_wf(old_procs[process_index as int], process_index as int));
            if old_procs[process_index as int] is Some {
                assert(self.grants_finalized);
                assert(old_procs[process_index as int]->Some_0.spec_grant_slots().len() == self.grant_counter);
            }
        }
        let r = match &mut self.processes[process_index] {
            Some(p) => match p.allocate(size, align) {
                Some(addr) => Ok(addr),
                None => Err(process::Error::OutOfMemory),
            },
            None => Err(process::Error::NoSuchApp),
        };
        proof {
            let i = process_index as int;
            if old_procs[i] is Some {
                let q = self.processes@[i]->Some_0;
                assert(self.processes@ == old_procs.update(i, Some(q)));
                lemma_table_wf_update(old_procs, self.work, self.work, self.grant_counter, self.grants_finalized, i, q);
                lemma_same_schedule_update(old_procs, i, q);
                assert(allocate_outcome(old_procs[i]->Some_0, q, size, align, r));
            } else {
                assert(self.processes@ == old_procs);
            }
        }
        r
    }

    /// Finds grant region `grant_num` of the process in slot
    /// `process_index`, allocating `size` bytes aligned to `align` for it if
    /// the process has none yet; returns its address and whether it was
    /// just allocated.
    pub fn enter_grant_region(&mut self, process_index: usize, grant_num: usize, size: usize, align: usize) -> (r: Result<(usize, bool), process::Error>)
        requires
            old(self).wf(),
            grant_num < old(self).spec_grant_counter(),
            align >= 1,
        ensures
            final(self).wf(),
            final(self).spec_work() == old(self).spec_work(),
            final(self).spec_grant_counter() == old(self).spec_grant_counter(),
            final(self).spec_grants_finalized() == old(self).spec_grants_finalized(),
            final(self).spec_processes().len() == old(self).spec_processes().len(),
            same_schedule(old(self).spec_processes(), final(self).spec_processes()),
            process_index >= old(self).spec_processes().len() || old(self).spec_processes()[process_index as int] is None ==> {
                &&& r == Err::<(usize, bool), process::Error>(process::Error::NoSuchApp)
                &&& final(self).spec_processes() == old(self).spec_processes()
            },
            process_index < old(self).spec_processes().len() ==> (old(self).spec_processes()[process_index as int] matches Some(p)
                ==> {
                    ||| {
                        &&& p.spec_grant_slots()[grant_num as int] != 0
                        &&& r == Ok::<(usize, bool), process::Error>((p.spec_grant_slots()[grant_num as int], false))
                        &&& final(self).spec_processes() == old(self).spec_processes()
                    }
                    ||| exists|q: P| {
                        &&& p.spec_grant_slots()[grant_num as int] == 0
                        &&& final(self).spec_processes() == old(self).spec_processes().update(process_index as int, Some(q))
                        &&& grant_allocate_outcome(p, q, grant_num, size, align, r)
                    }
                }),
    {
        if process_index >= self.processes.len() {
            return Err(process::Error::NoSuchApp);
        }
        let ghost old_procs = self.processes@;
        proof {
            assert(slot_wf(old_procs[process_index as int], process_index as int));
            if old_procs[process_index as int] is Some {
                assert(self.grants_finalized);
                assert(old_procs[process_index as int]->Some_0.spec_grant_slots().len() == self.grant_counter);
            }
        }
        let r = match &mut self.processes[process_index] {
            Some(p) => {
                let current = p.grant_slot(grant_num);
                if current != 0 {
                    Ok((current, false))
                } else {
                    match p.allocate(size, align) {
                        Some(addr) => {
                            p.set_grant_slot(grant_num, addr);
                            Ok((addr, true))
                        },
                        None => Err(process::Error::OutOfMemory),
                    }
                }
            },
            None => Err(process::Error::NoSuchApp),
        };
        proof {
            let i = process_index as int;
            if old_procs[i] is Some {
                let q = self.processes@[i]->Some_0;
                assert(self.processes@ == old_procs.update(i, Some(q)));
                lemma_table_wf_update(old_procs, self.work, self.work, self.grant_counter, self.grants_finalized, i, q);
                lemma_same_schedule_update(old_procs, i, q);
                if old_procs[i]->Some_0.spec_grant_slots()[grant_num as int] == 0 {
                    assert(grant_allocate_outcome(old_procs[i]->Some_0, q, grant_num, size, align, r));
                }
            } else {
                assert(self.processes@ == old_procs);
            }
        }
        r
    }

    /// Asks the MPU for a new region for the process in slot
    /// `process_index`, as the process's own `add_mpu_region` does; `None`
    /// if there is no such process.
    pub fn process_add_mpu_region(
        &mut self,
        process_index: usize,
        unallocated_memory_start: usize,
        unallocated_memory_size: usize,
        min_region_size: usize,
    ) -> (r: Option<crate::platform::mpu::Region>)
        requires
            old(self).wf(),
        ensures
            final(self).wf(),
            final(self).spec_work() == old(self).spec_work(),
            final(self).spec_grant_counter() == old(self).spec_grant_counter(),
            final(self).spec_grants_finalized() == old(self).spec_grants_finalized(),
            final(self).spec_processes().len() == old(self).spec_processes().len(),
            same_schedule(old(self).spec_processes(), final(self).spec_processes()),
            slot_at(old(self).spec_processes(), process_index) is None ==> r is None
                && final(self).spec_processes() == old(self).spec_processes(),
            slot_at(old(self).spec_processes(), process_index) matches Some(p) ==> exists|q: P| {
                &&& final(self).spec_processes() == old(self).spec_processes().update(process_index as int, Some(q))
                &&& q.wf()
                &&& process::same_identity(&p, &q)
                &&& q.spec_state() == p.spec_state()
                &&& q.spec_tasks() == p.spec_tasks()
                &&& q.spec_counters() == p.spec_counters()
                &&& q.spec_memory() == p.spec_memory()
                &&& q.spec_grant_slots() == p.spec_grant_slots()
            },
    {
        if process_index >= self.processes.len() {
            return None;
        }
        let ghost old_procs = self.processes@;
        proof {
            assert(slot_wf(old_procs[process_index as int], process_index as int));
            if old_procs[process_index as int] is Some {
                assert(self.grants_finalized);
                assert(old_procs[process_index as int]->Some_0.spec_grant_slots().len() == self.grant_counter);
            }
        }
        let r = match &mut self.processes[process_index] {
            Some(p) => p.add_mpu_region(unallocated_memory_start, unallocated_memory_size, min_region_size),
            None => None,
        };
        proof {
            let i = process_index as int;
            if old_procs[i] is Some {
                let q = self.processes@[i]->Some_0;
                assert(self.processes@ == old_procs.update(i, Some(q)));
                lemma_table_wf_update(old_procs, self.work, self.work, self.grant_counter, self.grants_finalized, i, q);
                lemma_same_schedule_update(old_procs, i, q);
            } else {
                assert(self.processes@ == old_procs);
            }
        }
        r
    }

    /// Starts the timeslice of a process: the system tick timer is reset
    /// and set to the timeslice, without an interrupt.
    pub fn begin_timeslice<C: Chip>(&self, chip: &C) {
        let systick = chip.systick();
        systick.reset();
        systick.set_timer(KERNEL_TICK_DURATION_US);
        systick.enable(false);
    }

    /// Handles the system call `syscall` that `process` made: the process
    /// yields, has the memory operation done, or has its request passed to
    /// the driver that `platform` names, and gets the result as its
    /// syscall return value. A subscription first drops the calls still
    /// queued from the subscription it replaces; a buffer is shared only
    /// with a driver that exists.
    pub fn handle_syscall<PL: Platform>(process: &mut P, work: &mut usize, platform: &PL, syscall: Syscall)
        requires
            old(process).wf(),
            old(process).spec_state() == State::Running,
            *old(work) >= 1,
            flash_regions_addressable(*old(process)),
        ensures
            syscall_outcome::<P, PL>(*old(process), *final(process), *old(work), *final(work), syscall),
    {
        let appid = process.appid();
        match syscall {
            Syscall::MEMOP { operand, arg0 } => {
                let res = memop::memop(process, operand, arg0);
                process.set_syscall_return_value(isize::from(res));
                assert(memop::memop_outcome(*old(process), *process, operand, arg0, res));
            },
            Syscall::YIELD => {
                process.set_yielded_state(work);
            },
            Syscall::SUBSCRIBE { driver_number, subdriver_number, callback_ptr, appdata } => {
                // Remove any pending callbacks of the
                // previous subscription.
                let callback_id = CallbackId { driver_num: driver_number, subscribe_num: subdriver_number };
                let ghost before = process.spec_tasks();
                process.remove_pending_callbacks(callback_id);
                proof {
                    crate::common::queue::lemma_filter_by_len(
                        before,
                        Seq::new(before.len(), |i: int| process::task_survives(before[i], callback_id)),
                    );
                }
                let callback = if callback_ptr == 0 {
                    None
                } else {
                    Some(Callback::new(appid, callback_id, appdata, callback_ptr))
                };
                let f = |driver: Option<&PL::Driver>| -> (rc: ReturnCode)
                    ensures
                        subscribe_result(driver, subdriver_number, callback, appid, rc),
                    {
                        match driver {
                            Some(d) => d.subscribe(subdriver_number, callback, appid),
                            None => ReturnCode::ENODEVICE,
                        }
                    };
                let res = platform.with_driver(driver_number, f);
                proof {
                    let d = choose|d: Option<&PL::Driver>| f.ensures((d,), res);
                    assert(subscribe_result(d, subdriver_number, callback, appid, res));
                    assert(subscribed_callback(callback, appid, callback_id, callback_ptr, appdata));
                }
                process.set_syscall_return_value(isize::from(res));
            },
            Syscall::COMMAND { driver_number, subdriver_number, arg0, arg1 } => {
                let f = |driver: Option<&PL::Driver>| -> (rc: ReturnCode)
                    ensures
                        command_result(driver, subdriver_number, arg0, arg1, appid, rc),
                    {
                        match driver {
                            Some(d) => d.command(subdriver_number, arg0, arg1, appid),
                            None => ReturnCode::ENODEVICE,
                        }
                    };
                let res = platform.with_driver(driver_number, f);
                proof {
                    let d = choose|d: Option<&PL::Driver>| f.ensures((d,), res);
                    assert(command_result(d, subdriver_number, arg0, arg1, appid, res));
                }
                process.set_syscall_return_value(isize::from(res));
            },
            Syscall::ALLOW { driver_number, subdriver_number, allow_address, allow_size } => {
                // The buffer is shared only with a driver
                // that exists.
                let exists = |driver: Option<&PL::Driver>| -> (b: bool) { driver.is_some() };
                let res = if platform.with_driver(driver_number, exists) {
                    match process.allow(allow_address, allow_size) {
                        Ok(oslice) => {
                            let f = |driver: Option<&PL::Driver>| -> (rc: ReturnCode)
                                ensures
                                    allow_result(driver, appid, subdriver_number, oslice, rc),
                                {
                                    match driver {
                                        Some(d) => d.allow(appid, subdriver_number, oslice),
                                        None => ReturnCode::ENODEVICE,
                                    }
                                };
                            let rc = platform.with_driver(driver_number, f);
                            proof {
                                let d = choose|d: Option<&PL::Driver>| f.ensures((d,), rc);
                                assert(allow_result(d, appid, subdriver_number, oslice, rc));
                            }
                            rc
                        },
                        Err(err) => err,
                    }
                } else {
                    ReturnCode::ENODEVICE
                };
                process.set_syscall_return_value(isize::from(res));
            },
        }
    }

    /// Runs one step of process `process`: checks for interrupts and the
    /// end of the timeslice, then runs the process until it next enters
    /// the kernel and handles why it did, or hands it its next task.
    fn step_process<PL: Platform, C: Chip>(process: &mut P, work: &mut usize, platform: &PL, chip: &C) -> (r: (
        ProcessStep,
        Option<(AppId, process::IPCType)>,
    ))
        requires
            old(process).wf(),
            *old(work) >= slot_pending(Some(*old(process))),
            *old(work) < usize::MAX,
            old(process).spec_state() != State::Fault,
            old(process).spec_counters().timeslice_expiration_count < usize::MAX,
            old(process).spec_counters().restart_count < usize::MAX,
            flash_regions_addressable(*old(process)),
        ensures
            step_keeps(*old(process), *final(process), *old(work), *final(work)),
            r.1 matches Some(x) ==> {
                &&& r.0 == ProcessStep::Continue
                &&& old(process).spec_tasks().len() > 0
                &&& old(process).spec_tasks()[0] == Task::IPC(x)
                &&& final(process).spec_tasks() == old(process).spec_tasks().drop_first()
                &&& final(process).spec_state() == old(process).spec_state()
                &&& final(process).spec_counters() == old(process).spec_counters()
                &&& final(process).spec_memory() == old(process).spec_memory()
                &&& final(process).spec_grant_slots() == old(process).spec_grant_slots()
                &&& *final(work) == *old(work) - 1
            },
            r.0 == ProcessStep::Panic ==> old(process).spec_fault_response() == process::FaultResponse::Panic,
            (old(process).spec_state() == State::StoppedRunning || old(process).spec_state() == State::StoppedYielded
                || old(process).spec_state() == State::StoppedFaulted
                || (old(process).spec_state() == State::Yielded || old(process).spec_state() == State::Unstarted)
                && old(process).spec_tasks().len() == 0) ==> {
                &&& r == (ProcessStep::Break, None::<(AppId, process::IPCType)>)
                &&& *final(work) == *old(work)
                &&& *final(process) == *old(process) || preempted(chip, *old(process), *final(process))
            },
            (old(process).spec_state() == State::Yielded || old(process).spec_state() == State::Unstarted)
                && old(process).spec_tasks().len() > 0 ==> {
                ||| r == (ProcessStep::Break, None::<(AppId, process::IPCType)>) && *final(work) == *old(work)
                    && preempted(chip, *old(process), *final(process))
                ||| r.0 == ProcessStep::Continue && old(process).spec_tasks()[0] is IPC && r.1 is Some
                    && chip_lets_run(chip)
                ||| r == (ProcessStep::Continue, None::<(AppId, process::IPCType)>)
                    && old(process).spec_tasks()[0] is FunctionCall
                    && function_call_started(*old(process), *final(process)) && chip_lets_run(chip)
                ||| r == (ProcessStep::Panic, None::<(AppId, process::IPCType)>)
                    && old(process).spec_tasks()[0] is FunctionCall
                    && final(process).spec_state() == State::Fault && chip_lets_run(chip)
            },
            old(process).spec_state() == State::Running ==> {
                ||| r == (ProcessStep::Break, None::<(AppId, process::IPCType)>) && *final(work) == *old(work)
                    && preempted(chip, *old(process), *final(process))
                ||| r.1 is None && chip_lets_run(chip) && exists|m: &mut P, reason: Option<ContextSwitchReason>| {
                    &&& *m == *old(process)
                    &&& #[trigger] call_ensures(<P as ProcessType>::switch_to, (m,), reason)
                    &&& run_ended::<P, PL>(*final(m), *final(process), *old(work), *final(work), reason, r.0)
                }
            },
    {
        let appid = process.appid();
        let systick = chip.systick();
        // If the process has run out of time, or an interrupt is pending,
        // the kernel moves on.
        if chip.has_pending_interrupts() {
            return (ProcessStep::Break, None);
        }
        if systick.overflowed() || !systick.greater_than(MIN_QUANTA_THRESHOLD_US) {
            process.debug_timeslice_expired();
            return (ProcessStep::Break, None);
        }
        match process.get_state() {
            State::Running => {
                // Running means that this process expects to be running,
                // so go ahead and set things up and switch to executing
                // the process.
                process.setup_mpu();
                chip.mpu().enable_mpu();
                systick.enable(true);
                let ghost before = *process;
                let context_switch_reason = process.switch_to();
                let ghost mid = *process;
                assert(switched(before, mid));
                systick.enable(false);
                chip.mpu().disable_mpu();
                // Now the process has returned back to the kernel. Check
                // why and handle the process as appropriate.
                match context_switch_reason {
                    Some(ContextSwitchReason::SyscallFired { syscall }) => {
                        Self::handle_syscall(process, work, platform, syscall);
                        (ProcessStep::Continue, None)
                    },
                    Some(ContextSwitchReason::TimesliceExpired) => {
                        // Process was interrupted by the timer.
                        (ProcessStep::Break, None)
                    },
                    Some(ContextSwitchReason::Interrupted) => {
                        // Process was interrupted by a hardware event.
                        (ProcessStep::Break, None)
                    },
                    _ => {
                        // The process faulted (or the chip could not run
                        // it): respond as its fault response says.
                        if process.get_fault_response() == process::FaultResponse::Panic {
                            return (ProcessStep::Panic, None);
                        }
                        process.set_fault_state(work);
                        (ProcessStep::Continue, None)
                    },
                }
            },
            State::Yielded | State::Unstarted => match process.dequeue_task(work) {
                // If the process is yielded it might be waiting for a
                // callback. If there is a task scheduled for this process
                // go ahead and set the process to execute it.
                None => (ProcessStep::Break, None),
                Some(cb) => match cb {
                    Task::FunctionCall(ccb) => {
                        if process.set_process_function(work, ccb) {
                            return (ProcessStep::Panic, None);
                        }
                        (ProcessStep::Continue, None)
                    },
                    Task::IPC((otherapp, ipc_type)) => (ProcessStep::Continue, Some((otherapp, ipc_type))),
                },
            },
            State::Fault => (ProcessStep::Break, None),
            State::StoppedRunning | State::StoppedYielded | State::StoppedFaulted => {
                // Do nothing
                (ProcessStep::Break, None)
            },
        }
    }

    /// Runs one step of the process in slot `process_index`: checks for
    /// interrupts and the end of the timeslice, then runs the process until
    /// it next enters the kernel and handles why it did, or hands it its
    /// next task (an IPC task goes to `ipc`). The result says whether to
    /// keep running the process, move on, or panic the kernel for a fault.
    pub fn do_process_step<PL: Platform, C: Chip>(
        &mut self,
        platform: &PL,
        chip: &C,
        process_index: usize,
        ipc: &mut Option<IPC>,
    ) -> (r: ProcessStep)
        requires
            old(self).wf(),
            process_index < old(self).spec_processes().len(),
            old(self).spec_work() + 1 < usize::MAX,
            dropped_bounded(old(self).spec_processes()),
            old(self).spec_processes()[process_index as int] matches Some(p) ==> {
                &&& p.spec_state() != State::Fault
                &&& p.spec_counters().timeslice_expiration_count < usize::MAX
                &&& p.spec_counters().restart_count < usize::MAX
                &&& flash_regions_addressable(p)
                &&& p.spec_tasks().len() > 0 ==> (p.spec_tasks()[0] matches Task::IPC((other, _)) ==> {
                    &&& *old(ipc) is Some
                    &&& other.spec_idx() < usize::MAX
                })
            },
            *old(ipc) matches Some(i) ==> i.spec_grant_num() < old(self).spec_grant_counter(),
        ensures
            final(self).wf(),
            final(self).spec_grant_counter() == old(self).spec_grant_counter(),
            final(self).spec_grants_finalized() == old(self).spec_grants_finalized(),
            final(self).spec_processes().len() == old(self).spec_processes().len(),
            old(self).spec_processes()[process_index as int] is None ==> {
                &&& r == ProcessStep::Break
                &&& final(self).spec_processes() == old(self).spec_processes()
                &&& final(self).spec_work() == old(self).spec_work()
            },
            old(self).spec_processes()[process_index as int] matches Some(p) ==> {
                let k = process_index as int;
                let q = final(self).spec_processes()[k]->Some_0;
                let w = old(self).spec_work();
                let w2 = final(self).spec_work();
                &&& final(self).spec_processes()[k] is Some
                &&& process::same_identity(&p, &q)
                &&& r == ProcessStep::Panic ==> p.spec_fault_response() == process::FaultResponse::Panic
                &&& (forall|j: int| 0 <= j < old(self).spec_processes().len() && j != k
                    ==> #[trigger] final(self).spec_processes()[j] == old(self).spec_processes()[j])
                    || (p.spec_tasks().len() > 0 && p.spec_tasks()[0] is IPC)
                &&& (p.spec_state() == State::StoppedRunning || p.spec_state() == State::StoppedYielded
                    || p.spec_state() == State::StoppedFaulted
                    || (p.spec_state() == State::Yielded || p.spec_state() == State::Unstarted)
                    && p.spec_tasks().len() == 0) ==> {
                    &&& r == ProcessStep::Break
                    &&& w2 == w
                    &&& q == p || preempted(chip, p, q)
                }
                &&& (p.spec_state() == State::Yielded || p.spec_state() == State::Unstarted) && p.spec_tasks().len() > 0 ==> {
                    ||| r == ProcessStep::Break && w2 == w && preempted(chip, p, q)
                    ||| r == ProcessStep::Continue && p.spec_tasks()[0] is IPC && chip_lets_run(chip)
                    ||| r == ProcessStep::Continue && p.spec_tasks()[0] is FunctionCall && function_call_started(p, q)
                        && chip_lets_run(chip)
                    ||| r == ProcessStep::Panic && p.spec_tasks()[0] is FunctionCall && q.spec_state() == State::Fault
                        && chip_lets_run(chip)
                }
                &&& p.spec_state() == State::Running ==> {
                    ||| r == ProcessStep::Break && w2 == w && preempted(chip, p, q)
                    ||| chip_lets_run(chip) && exists|m: &mut P, reason: Option<ContextSwitchReason>| {
                        &&& *m == p
                        &&& #[trigger] call_ensures(<P as ProcessType>::switch_to, (m,), reason)
                        &&& run_ended::<P, PL>(*final(m), q, w, w2, reason, r)
                    }
                }
            },
    {
        let ghost procs = self.processes@;
        let ghost w = self.work;
        proof {
            self.lemma_slot_facts(process_index as int);
            lemma_total_pending_update(procs, process_index as int, procs[process_index as int]);
        }
        let (step, ipc_task) = match &mut self.processes[process_index] {
            Some(p) => Self::step_process(p, &mut self.work, platform, chip),
            None => (ProcessStep::Break, None),
        };
        proof {
            let k = process_index as int;
            if procs[k] is Some {
                let q = self.processes@[k]->Some_0;
                assert(self.processes@ == procs.update(k, Some(q)));
                lemma_table_wf_update(procs, w, self.work, self.grant_counter, self.grants_finalized, k, q);
                assert forall|j: int| 0 <= j < self.processes@.len() implies (#[trigger] self.processes@[j] matches Some(x)
                    ==> x.spec_counters().dropped_callback_count < usize::MAX) by {
                    if j != k {
                        assert(self.processes@[j] == procs[j]);
                    }
                }
                let p0 = procs[k]->Some_0;
                if p0.spec_state() == State::Running {
                    assert(ipc_task is None);
                }
            } else {
                assert(self.processes@ == procs);
            }
        }
        let ghost after_step = self.processes@;
        let ghost work_after_step = self.work;
        match ipc_task {
            Some((otherapp, ipc_type)) => match ipc {
                Some(i) => {
                    i.schedule_callback(self, AppId::new(process_index), otherapp, ipc_type);
                },
                None => {},
            },
            None => {},
        }
        proof {
            if ipc_task is None {
                assert(self.processes@ == after_step);
                assert(self.work == work_after_step);
            }
            let k = process_index as int;
            if procs[k] is Some && !(procs[k]->Some_0.spec_tasks().len() > 0 && procs[k]->Some_0.spec_tasks()[0] is IPC) {
                assert(ipc_task is None);
                assert forall|j: int| 0 <= j < procs.len() && j != k implies #[trigger] self.processes@[j] == procs[j] by {
                    assert(self.processes@ == after_step);
                }
            }
        }
        step
    }

    /// Runs `closure` on each process in the table.
    pub fn process_each<F>(&self, closure: F)
        where
            F: Fn(&P),
        requires
            forall|i: int| 0 <= i < self.spec_processes().len() ==> (#[trigger] self.spec_processes()[i] matches Some(p)
                ==> closure.requires((&p,))),
    {
        let n = self.processes.len();
        let mut i: usize = 0;
        while i < n
            invariant
                n == self.processes@.len(),
                i <= n,
                forall|k: int| 0 <= k < self.spec_processes().len() ==> (#[trigger] self.spec_processes()[k] matches Some(p)
                    ==> closure.requires((&p,))),
            decreases n - i,
        {
            assert(self.spec_processes()[i as int] == self.processes@[i as int]);
            match &self.processes[i] {
                Some(p) => {
                    closure(p);
                },
                None => {},
            }
            i += 1;
        }
    }

    /// Runs `closure` on each process in the table, with its slot.
    pub fn process_each_capability<F, C: capabilities::ProcessManagementCapability>(&self, _capability: &C, closure: F)
        where
            F: Fn(usize, &P),
        requires
            forall|i: int| 0 <= i < self.spec_processes().len() ==> (#[trigger] self.spec_processes()[i] matches Some(p)
                ==> closure.requires((#[verifier::truncate] (i as usize), &p))),
    {
        let n = self.processes.len();
        let mut i: usize = 0;
        while i < n
            invariant
                n == self.processes@.len(),
                i <= n,
                forall|k: int| 0 <= k < self.spec_processes().len() ==> (#[trigger] self.spec_processes()[k] matches Some(p)
                    ==> closure.requires((#[verifier::truncate] (k as usize), &p))),
            decreases n - i,
        {
            assert(self.spec_processes()[i as int] == self.processes@[i as int]);
            match &self.processes[i] {
                Some(p) => {
                    closure(i, p);
                },
                None => {},
            }
            i += 1;
        }
    }

    /// Runs `closure` on the processes in slot order until it returns
    /// something other than `FAIL`, and returns that; `FAIL` if it never
    /// does.
    pub fn process_until<F>(&self, closure: F) -> (r: ReturnCode)
        where
            F: Fn(&P) -> ReturnCode,
        requires
            forall|i: int| 0 <= i < self.spec_processes().len() ==> (#[trigger] self.spec_processes()[i] matches Some(p)
                ==> closure.requires((&p,))),
        ensures
            r != ReturnCode::FAIL ==> exists|i: int| 0 <= i < self.spec_processes().len() && {
                &&& #[trigger] self.spec_processes()[i] matches Some(p)
                &&& closure.ensures((&p,), r)
                &&& forall|k: int| 0 <= k < i ==> (#[trigger] self.spec_processes()[k] matches Some(q)
                    ==> closure.ensures((&q,), ReturnCode::FAIL))
            },
            r == ReturnCode::FAIL ==> forall|k: int| 0 <= k < self.spec_processes().len()
                ==> (#[trigger] self.spec_processes()[k] matches Some(q) ==> closure.ensures((&q,), ReturnCode::FAIL)),
    {
        let n = self.processes.len();
        let mut i: usize = 0;
        while i < n
            invariant
                n == self.processes@.len(),
                i <= n,
                forall|k: int| 0 <= k < self.spec_processes().len() ==> (#[trigger] self.spec_processes()[k] matches Some(p)
                    ==> closure.requires((&p,))),
                forall|k: int| 0 <= k < i ==> (#[trigger] self.spec_processes()[k] matches Some(q)
                    ==> closure.ensures((&q,), ReturnCode::FAIL)),
            decreases n - i,
        {
            match &self.processes[i] {
                Some(p) => {
                    let ret = closure(p);
                    if ret != ReturnCode::FAIL {
                        return ret;
                    }
                },
                None => {},
            }
            i += 1;
        }
        ReturnCode::FAIL
    }

    /// The number of slots in the process table.
    pub fn number_of_process_slots(&self) -> (r: usize)
        ensures
            r == self.spec_processes().len(),
    {
        self.processes.len()
    }

    /// Marks grants as finalized, so that no new grants can be made, and
    /// returns how many there are.
    pub fn get_grant_count_and_finalize(&mut self) -> (r: usize)
        ensures
            r == old(self).spec_grant_counter(),
            final(self).spec_grants_finalized(),
            final(self).spec_grant_counter() == old(self).spec_grant_counter(),
            final(self).spec_work() == old(self).spec_work(),
            final(self).spec_processes() == old(self).spec_processes(),
            old(self).wf() ==> final(self).wf(),
    {
        self.grants_finalized = true;
        self.grant_counter
    }
}

} // verus!
