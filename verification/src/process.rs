//! Support for creating and running userspace applications.
//!
//! A process's memory and flash are described by their addresses as
//! `usize` values; the process's state, task queue, memory breaks and
//! debugging counters are kept in the process value itself.

use vstd::prelude::*;
use crate::callback::{AppId, CallbackId};
use crate::common::queue::{Queue, filter_by};
use crate::common::ring_buffer::RingBuffer;
use crate::mem::{AppSlice, Shared};
use crate::platform::mpu::{self, MPU};
use crate::platform::Chip;
use crate::returncode::ReturnCode;
use crate::syscall::{self, Syscall, UserspaceKernelBoundary};
use crate::tbfheader;
use crate::sched::Kernel;

verus! {

/// Errors that the process memory operations report.
#[derive(Clone, Copy, Debug, PartialEq, Eq, Structural)]
pub enum Error {
    NoSuchApp,
    OutOfMemory,
    AddressOutOfBounds,
    KernelError,
}

/// The return code a process sees for an error.
pub open spec fn error_return_code(err: Error) -> ReturnCode {
    match err {
        Error::OutOfMemory => ReturnCode::ENOMEM,
        Error::AddressOutOfBounds => ReturnCode::EINVAL,
        Error::NoSuchApp => ReturnCode::EINVAL,
        Error::KernelError => ReturnCode::FAIL,
    }
}

/// A process sees running out of memory as `ENOMEM`, an address out of
/// bounds or a missing app as `EINVAL`, and an error of the kernel as
/// `FAIL`; every error is reported as an error code, never as success.
pub proof fn law_error_return_codes(err: Error)
    ensures
        err == Error::OutOfMemory ==> error_return_code(err) == ReturnCode::ENOMEM,
        err == Error::AddressOutOfBounds || err == Error::NoSuchApp ==> error_return_code(err) == ReturnCode::EINVAL,
        err == Error::KernelError ==> error_return_code(err) == ReturnCode::FAIL,
        crate::returncode::is_error(error_return_code(err)),
{
}

impl From<Error> for ReturnCode {
    fn from(err: Error) -> (r: ReturnCode)
        ensures
            r == error_return_code(err),
    {
        match err {
            Error::OutOfMemory => ReturnCode::ENOMEM,
            Error::AddressOutOfBounds => ReturnCode::EINVAL,
            Error::NoSuchApp => ReturnCode::EINVAL,
            Error::KernelError => ReturnCode::FAIL,
        }
    }
}

impl vstd::std_specs::convert::FromSpecImpl<Error> for ReturnCode {
    open spec fn obeys_from_spec() -> bool {
        true
    }

    open spec fn from_spec(v: Error) -> ReturnCode {
        error_return_code(v)
    }
}

/// The state a process is in.
#[derive(Clone, Copy, Debug, PartialEq, Eq, Structural)]
pub enum State {
    /// The process is running or ready to run.
    Running,
    /// The process has called yield and is waiting for a callback.
    Yielded,
    /// The process was stopped while running.
    StoppedRunning,
    /// The process was stopped while yielded.
    StoppedYielded,
    /// The process faulted and is stopped.
    StoppedFaulted,
    /// The process faulted.
    Fault,
    /// The process has not started yet.
    Unstarted,
}

/// How the kernel responds when a process faults.
#[derive(Clone, Copy, Debug, PartialEq, Eq, Structural)]
pub enum FaultResponse {
    /// Panic the kernel.
    Panic,
    /// Restart the process.
    Restart,
    /// Stop the process.
    Stop,
}

/// Which side of an IPC exchange a callback goes to.
#[derive(Clone, Copy, Debug, PartialEq, Eq, Structural)]
pub enum IPCType {
    Service,
    Client,
}

/// Work queued for a process.
#[derive(Clone, Copy, Debug)]
pub enum Task {
    FunctionCall(FunctionCall),
    IPC((AppId, IPCType)),
}

/// Who a function call into a process comes from.
#[derive(Clone, Copy, Debug, PartialEq, Eq, Structural)]
pub enum FunctionCallSource {
    Kernel,
    Driver(CallbackId),
}

/// Struct that defines a upcall that can be passed to a process.
#[derive(Clone, Copy, Debug, PartialEq, Eq, Structural)]
pub struct FunctionCall {
    pub source: FunctionCallSource,
    pub argument0: usize,
    pub argument1: usize,
    pub argument2: usize,
    pub argument3: usize,
    pub pc: usize,
}

/// Replacing a subscription drops only the calls queued from that very
/// subscription: calls from the kernel, calls from any other subscription
/// (another driver, or another subscribe number of the same driver) and
/// IPC tasks all stay.
pub proof fn law_only_the_replaced_subscription_is_dropped(task: Task, callback_id: CallbackId)
    ensures
        task matches Task::FunctionCall(fc) ==> (!task_survives(task, callback_id)
            <==> fc.source == FunctionCallSource::Driver(callback_id)),
        task is IPC ==> task_survives(task, callback_id),
{
}

/// Whether a queued task survives the removal of the callbacks of
/// `callback_id`: only function calls from that subscription go.
pub open spec fn task_survives(task: Task, callback_id: CallbackId) -> bool {
    match task {
        Task::FunctionCall(function_call) => match function_call.source {
            FunctionCallSource::Kernel => true,
            FunctionCallSource::Driver(id) => id != callback_id,
        },
        _ => true,
    }
}

/// The debugging counters of a process.
#[derive(Clone, Copy, Debug, PartialEq, Eq, Structural)]
pub struct ProcessCounters {
    pub syscall_count: usize,
    pub dropped_callback_count: usize,
    pub restart_count: usize,
    pub timeslice_expiration_count: usize,
}

/// Debugging information about a process.
#[derive(Clone, Copy)]
pub struct ProcessDebug {
    pub app_heap_start_pointer: Option<usize>,
    pub app_stack_start_pointer: Option<usize>,
    pub min_stack_pointer: usize,
    pub syscall_count: usize,
    pub last_syscall: Option<Syscall>,
    pub dropped_callback_count: usize,
    pub restart_count: usize,
    pub timeslice_expiration_count: usize,
}

impl ProcessDebug {
    pub open spec fn counters(self) -> ProcessCounters {
        ProcessCounters {
            syscall_count: self.syscall_count,
            dropped_callback_count: self.dropped_callback_count,
            restart_count: self.restart_count,
            timeslice_expiration_count: self.timeslice_expiration_count,
        }
    }
}

/// The addresses that describe a process's memory and flash.
pub struct MemoryModel {
    pub mem_start: usize,
    pub mem_end: usize,
    pub flash_start: usize,
    pub flash_end: usize,
    pub app_break: usize,
    pub kernel_memory_break: usize,
    pub allow_high_water_mark: usize,
    pub original_app_break: usize,
    pub original_kernel_memory_break: usize,
    pub current_stack_pointer: usize,
    pub original_stack_pointer: usize,
}

/// The size of one grant pointer slot at the top of a process's memory,
/// in bytes.
pub const GRANT_POINTER_SIZE: usize = 4;

/// Whether the buffer of `size` bytes at `start` lies within the memory
/// the process owns (from the start of its memory to its break), without
/// wrapping around the address space.
pub open spec fn in_app_owned_memory(m: MemoryModel, start: int, size: int) -> bool {
    &&& start + size <= usize::MAX
    &&& start >= m.mem_start
    &&& start + size <= m.app_break
}

/// The new kernel memory break after allocating `size` bytes aligned to
/// `align` below the break `kernel_memory_break`.
pub open spec fn aligned_break(kernel_memory_break: usize, size: usize, align: usize) -> usize {
    ((kernel_memory_break - size) as usize) & (!((align - 1) as usize))
}

/// The state a process is in after it is stopped: a running or yielded
/// process is stopped in that state; any other state stays.
pub open spec fn stopped_state(s: State) -> State {
    match s {
        State::Running => State::StoppedRunning,
        State::Yielded => State::StoppedYielded,
        other => other,
    }
}

/// The state a process is in after it is resumed: a stopped process goes
/// back to the state it was stopped in; any other state stays.
pub open spec fn resumed_state(s: State) -> State {
    match s {
        State::StoppedRunning => State::Running,
        State::StoppedYielded => State::Yielded,
        other => other,
    }
}

/// Resuming a stopped process undoes the stop, and stopping a resumed
/// process undoes the resume: the process is back in the state it was in.
/// (A process that is already stopped is not changed by `stop`, so resuming
/// it afterwards runs it.)
pub proof fn law_stop_resume(s: State)
    ensures
        s != State::StoppedRunning && s != State::StoppedYielded ==> resumed_state(stopped_state(s)) == s,
        s != State::Running && s != State::Yielded ==> stopped_state(resumed_state(s)) == s,
        stopped_state(stopped_state(s)) == stopped_state(s),
        resumed_state(resumed_state(s)) == resumed_state(s),
        stopped_state(State::Running) == State::StoppedRunning,
        stopped_state(State::Yielded) == State::StoppedYielded,
        resumed_state(State::StoppedRunning) == State::Running,
        resumed_state(State::StoppedYielded) == State::Yielded,
        s != State::Running && s != State::Yielded ==> stopped_state(s) == s,
        s != State::StoppedRunning && s != State::StoppedYielded ==> resumed_state(s) == s,
{
}

/// A buffer the process shared with the kernel stays in the memory the
/// process owns: once `allow` has accepted the buffer of `size` bytes at
/// `buf`, no later successful `brk` or `sbrk` moves the break below its end,
/// since the break may not drop below the highest address shared so far.
pub proof fn law_shared_buffer_stays_owned(m: MemoryModel, buf: usize, size: usize, new_break: int)
    requires
        buf != 0,
        in_app_owned_memory(m, buf as int, size as int),
        ({
            let shared = shared_memory_after(m, buf, size);
            !(new_break < shared.allow_high_water_mark || new_break >= shared.mem_end)
        }),
    ensures
        buf + size <= new_break,
{
}

/// The memory model after `allow` accepts the buffer of `size` bytes at
/// `buf`: the highest address shared so far covers its end.
pub open spec fn shared_memory_after(m: MemoryModel, buf: usize, size: usize) -> MemoryModel {
    MemoryModel {
        allow_high_water_mark: if m.allow_high_water_mark >= buf + size {
            m.allow_high_water_mark
        } else {
            (buf + size) as usize
        },
        ..m
    }
}

/// The work a process contributes to the kernel's count of pending work:
/// its queued tasks, and one more while it runs (or is stopped while
/// running).
pub open spec fn pending_work_of(tasks_len: nat, state: State) -> nat {
    tasks_len + if state == State::Running || state == State::StoppedRunning { 1nat } else { 0nat }
}

/// A process holds one unit of pending work for each queued task, and one
/// more exactly while it is running (or stopped while running).
pub proof fn law_pending_work_counts_tasks_and_running(n: nat, s: State)
    ensures
        pending_work_of(n, s) == n + 1 <==> (s == State::Running || s == State::StoppedRunning),
        pending_work_of(n, s) == n <==> !(s == State::Running || s == State::StoppedRunning),
{
}

/// The parts of a process that only `create` sets: its slot, fault
/// response, queue capacity and name.
pub open spec fn same_identity<P: ProcessType + ?Sized>(a: &P, b: &P) -> bool {
    &&& a.spec_app_idx() == b.spec_app_idx()
    &&& a.spec_fault_response() == b.spec_fault_response()
    &&& a.spec_task_capacity() == b.spec_task_capacity()
    &&& a.spec_process_name() == b.spec_process_name()
}

/// The interface the kernel uses to manage a process. Operations that
/// change the kernel's count of pending work take that count as `work`.
pub trait ProcessType: Sized {
    /// The process's internal invariant.
    spec fn wf(&self) -> bool;

    spec fn spec_app_idx(&self) -> usize;

    spec fn spec_state(&self) -> State;

    spec fn spec_tasks(&self) -> Seq<Task>;

    spec fn spec_task_capacity(&self) -> nat;

    spec fn spec_fault_response(&self) -> FaultResponse;

    spec fn spec_process_name(&self) -> Seq<char>;

    spec fn spec_counters(&self) -> ProcessCounters;

    spec fn spec_memory(&self) -> MemoryModel;

    /// The process's identifier.
    fn appid(&self) -> (r: AppId)
        ensures
            r.spec_idx() == self.spec_app_idx(),
    ;

    /// Queues a function for the process to run. A faulted process takes
    /// no tasks; otherwise the kernel's work count goes up by one whether or
    /// not the queue had room, and a task that does not fit is counted as a
    /// dropped callback.
    fn enqueue_task(&mut self, work: &mut usize, task: Task) -> (r: bool)
        requires
            old(self).wf(),
            *old(work) < usize::MAX,
            old(self).spec_counters().dropped_callback_count < usize::MAX,
        ensures
            final(self).wf(),
            final(self).spec_app_idx() == old(self).spec_app_idx(),
            final(self).spec_state() == old(self).spec_state(),
            final(self).spec_fault_response() == old(self).spec_fault_response(),
            final(self).spec_task_capacity() == old(self).spec_task_capacity(),
            final(self).spec_memory() == old(self).spec_memory(),
            final(self).spec_process_name() == old(self).spec_process_name(),
            final(self).spec_grant_slots() == old(self).spec_grant_slots(),
            old(self).spec_state() == State::Fault ==> {
                &&& !r
                &&& *final(work) == *old(work)
                &&& final(self).spec_tasks() == old(self).spec_tasks()
                &&& final(self).spec_counters() == old(self).spec_counters()
            },
            old(self).spec_state() != State::Fault ==> {
                &&& *final(work) == *old(work) + 1
                &&& r == (old(self).spec_tasks().len() + 1 < old(self).spec_task_capacity())
                &&& r ==> final(self).spec_tasks() == old(self).spec_tasks().push(task)
                    && final(self).spec_counters() == old(self).spec_counters()
                &&& !r ==> final(self).spec_tasks() == old(self).spec_tasks()
                    && final(self).spec_counters() == (ProcessCounters {
                        dropped_callback_count: (old(self).spec_counters().dropped_callback_count + 1) as usize,
                        ..old(self).spec_counters()
                    })
            },
    ;

    /// Removes the next queued task, if any; the kernel's work count goes
    /// down by one for it.
    fn dequeue_task(&mut self, work: &mut usize) -> (r: Option<Task>)
        requires
            old(self).wf(),
            old(self).spec_tasks().len() > 0 ==> *old(work) >= 1,
        ensures
            final(self).wf(),
            final(self).spec_app_idx() == old(self).spec_app_idx(),
            final(self).spec_fault_response() == old(self).spec_fault_response(),
            final(self).spec_task_capacity() == old(self).spec_task_capacity(),
            final(self).spec_process_name() == old(self).spec_process_name(),
            final(self).spec_grant_slots() == old(self).spec_grant_slots(),
            final(self).spec_state() == old(self).spec_state(),
            final(self).spec_counters() == old(self).spec_counters(),
            final(self).spec_memory() == old(self).spec_memory(),
            old(self).spec_tasks().len() == 0 ==> r.is_none() && *final(work) == *old(work)
                && *final(self) == *old(self),
            old(self).spec_tasks().len() > 0 ==> r == Some(old(self).spec_tasks()[0])
                && *final(work) == *old(work) - 1
                && final(self).spec_tasks() == old(self).spec_tasks().drop_first(),
    ;

    /// Removes the queued function calls of the subscription
    /// `callback_id`, keeping every other task in order.
    fn remove_pending_callbacks(&mut self, callback_id: CallbackId)
        requires
            old(self).wf(),
        ensures
            final(self).wf(),
            final(self).spec_app_idx() == old(self).spec_app_idx(),
            final(self).spec_fault_response() == old(self).spec_fault_response(),
            final(self).spec_task_capacity() == old(self).spec_task_capacity(),
            final(self).spec_process_name() == old(self).spec_process_name(),
            final(self).spec_grant_slots() == old(self).spec_grant_slots(),
            final(self).spec_state() == old(self).spec_state(),
            final(self).spec_counters() == old(self).spec_counters(),
            final(self).spec_memory() == old(self).spec_memory(),
            final(self).spec_tasks() == filter_by(
                old(self).spec_tasks(),
                Seq::new(old(self).spec_tasks().len(), |i: int| task_survives(old(self).spec_tasks()[i], callback_id)),
            ),
    ;

    /// The state the process is in.
    fn get_state(&self) -> (r: State)
        ensures
            r == self.spec_state(),
    ;

    /// Moves a running process to the yielded state; the kernel's work
    /// count goes down by one for it. Any other state is left alone.
    fn set_yielded_state(&mut self, work: &mut usize)
        requires
            old(self).wf(),
            old(self).spec_state() == State::Running ==> *old(work) >= 1,
        ensures
            final(self).wf(),
            final(self).spec_app_idx() == old(self).spec_app_idx(),
            final(self).spec_fault_response() == old(self).spec_fault_response(),
            final(self).spec_task_capacity() == old(self).spec_task_capacity(),
            final(self).spec_process_name() == old(self).spec_process_name(),
            final(self).spec_grant_slots() == old(self).spec_grant_slots(),
            final(self).spec_tasks() == old(self).spec_tasks(),
            final(self).spec_counters() == old(self).spec_counters(),
            final(self).spec_memory() == old(self).spec_memory(),
            old(self).spec_state() == State::Running ==> final(self).spec_state() == State::Yielded
                && *final(work) == *old(work) - 1,
            old(self).spec_state() != State::Running ==> final(self).spec_state() == old(self).spec_state()
                && *final(work) == *old(work),
    ;

    /// Stops a running or yielded process.
    fn stop(&mut self)
        requires
            old(self).wf(),
        ensures
            final(self).wf(),
            final(self).spec_app_idx() == old(self).spec_app_idx(),
            final(self).spec_fault_response() == old(self).spec_fault_response(),
            final(self).spec_task_capacity() == old(self).spec_task_capacity(),
            final(self).spec_process_name() == old(self).spec_process_name(),
            final(self).spec_grant_slots() == old(self).spec_grant_slots(),
            final(self).spec_tasks() == old(self).spec_tasks(),
            final(self).spec_counters() == old(self).spec_counters(),
            final(self).spec_memory() == old(self).spec_memory(),
            final(self).spec_state() == stopped_state(old(self).spec_state()),
    ;

    /// Resumes a stopped process in the state it was stopped in.
    fn resume(&mut self)
        requires
            old(self).wf(),
        ensures
            final(self).wf(),
            final(self).spec_app_idx() == old(self).spec_app_idx(),
            final(self).spec_fault_response() == old(self).spec_fault_response(),
            final(self).spec_task_capacity() == old(self).spec_task_capacity(),
            final(self).spec_process_name() == old(self).spec_process_name(),
            final(self).spec_grant_slots() == old(self).spec_grant_slots(),
            final(self).spec_tasks() == old(self).spec_tasks(),
            final(self).spec_counters() == old(self).spec_counters(),
            final(self).spec_memory() == old(self).spec_memory(),
            final(self).spec_state() == resumed_state(old(self).spec_state()),
    ;

    /// How the kernel responds when the process faults.
    fn get_fault_response(&self) -> (r: FaultResponse)
        ensures
            r == self.spec_fault_response(),
    ;

    /// Puts the process in the fault state and responds as its fault
    /// response says: a process to restart gets its memory breaks back and
    /// one queued call to its entry point; a process to stop loses its
    /// queued tasks. The kernel's work count loses the dropped tasks and, on
    /// a restart, gains the new call. A process whose response is to panic
    /// the kernel is not an input: the kernel panics instead.
    fn set_fault_state(&mut self, work: &mut usize)
        requires
            old(self).wf(),
            old(self).spec_fault_response() != FaultResponse::Panic,
            *old(work) >= old(self).spec_tasks().len(),
            *old(work) - old(self).spec_tasks().len() < usize::MAX,
            old(self).spec_counters().restart_count < usize::MAX,
        ensures
            final(self).wf(),
            final(self).spec_app_idx() == old(self).spec_app_idx(),
            final(self).spec_fault_response() == old(self).spec_fault_response(),
            final(self).spec_task_capacity() == old(self).spec_task_capacity(),
            final(self).spec_process_name() == old(self).spec_process_name(),
            final(self).spec_grant_slots() == Seq::new(old(self).spec_grant_slots().len(), |i: int| 0usize),
            old(self).spec_fault_response() == FaultResponse::Restart ==> {
                &&& final(self).spec_state() == State::Unstarted
                &&& final(self).spec_tasks() == seq![Task::FunctionCall(
                    (FunctionCall {
                        source: FunctionCallSource::Kernel,
                        pc: old(self).spec_entry_point(),
                        argument0: old(self).spec_flash_non_protected_start(),
                        argument1: old(self).spec_memory().mem_start,
                        argument2: (old(self).spec_memory().mem_end - old(self).spec_memory().mem_start) as usize,
                        argument3: old(self).spec_memory().original_app_break,
                    }),
                )]
                &&& *final(work) == *old(work) - old(self).spec_tasks().len() + 1
                &&& final(self).spec_counters() == (ProcessCounters {
                    syscall_count: 0,
                    dropped_callback_count: 0,
                    restart_count: (old(self).spec_counters().restart_count + 1) as usize,
                    timeslice_expiration_count: old(self).spec_counters().timeslice_expiration_count,
                })
                &&& final(self).spec_memory().app_break == old(self).spec_memory().original_app_break
                &&& final(self).spec_memory().kernel_memory_break
                    == old(self).spec_memory().original_kernel_memory_break
                &&& final(self).spec_memory().current_stack_pointer
                    == old(self).spec_memory().original_stack_pointer
            },
            old(self).spec_fault_response() == FaultResponse::Stop ==> {
                &&& final(self).spec_state() == State::StoppedFaulted
                &&& final(self).spec_tasks() == Seq::<Task>::empty()
                &&& *final(work) == *old(work) - old(self).spec_tasks().len()
                &&& final(self).spec_counters() == old(self).spec_counters()
                &&& final(self).spec_memory() == old(self).spec_memory()
            },
    ;

    /// The process's name.
    fn get_process_name(&self) -> (r: &str)
        ensures
            r@ == self.spec_process_name(),
    ;

    /// Change the location of the program break and reallocate the MPU
    /// region covering program memory; returns the previous break.
    fn brk(&mut self, new_break: usize) -> (r: Result<usize, Error>)
        requires
            old(self).wf(),
        ensures
            final(self).wf(),
            final(self).spec_app_idx() == old(self).spec_app_idx(),
            final(self).spec_fault_response() == old(self).spec_fault_response(),
            final(self).spec_task_capacity() == old(self).spec_task_capacity(),
            final(self).spec_process_name() == old(self).spec_process_name(),
            final(self).spec_state() == old(self).spec_state(),
            final(self).spec_tasks() == old(self).spec_tasks(),
            final(self).spec_counters() == old(self).spec_counters(),
            final(self).spec_grant_slots() == old(self).spec_grant_slots(),
            final(self).spec_stack_start() == old(self).spec_stack_start(),
            final(self).spec_heap_start() == old(self).spec_heap_start(),
            final(self).spec_min_stack_pointer() == old(self).spec_min_stack_pointer(),
            new_break < old(self).spec_memory().allow_high_water_mark || new_break >= old(self).spec_memory().mem_end
                ==> r == Err::<usize, Error>(Error::AddressOutOfBounds) && final(self).spec_memory() == old(self).spec_memory(),
            !(new_break < old(self).spec_memory().allow_high_water_mark || new_break >= old(self).spec_memory().mem_end)
                && new_break > old(self).spec_memory().kernel_memory_break
                ==> r == Err::<usize, Error>(Error::OutOfMemory) && final(self).spec_memory() == old(self).spec_memory(),
            r is Err ==> r == Err::<usize, Error>(Error::AddressOutOfBounds) || r == Err::<usize, Error>(Error::OutOfMemory),
            r is Err ==> final(self).spec_memory() == old(self).spec_memory(),
            r is Ok ==> {
                &&& old(self).spec_memory().allow_high_water_mark <= new_break
                &&& new_break < old(self).spec_memory().mem_end
                &&& new_break <= old(self).spec_memory().kernel_memory_break
                &&& r == Ok::<usize, Error>(old(self).spec_memory().app_break)
                &&& final(self).spec_memory() == (MemoryModel { app_break: new_break, ..old(self).spec_memory() })
            },
    ;

    /// Change the location of the program break by `increment` bytes;
    /// returns the previous break. A break that would leave the address
    /// space is out of bounds.
    fn sbrk(&mut self, increment: isize) -> (r: Result<usize, Error>)
        requires
            old(self).wf(),
        ensures
            final(self).wf(),
            final(self).spec_app_idx() == old(self).spec_app_idx(),
            final(self).spec_fault_response() == old(self).spec_fault_response(),
            final(self).spec_task_capacity() == old(self).spec_task_capacity(),
            final(self).spec_process_name() == old(self).spec_process_name(),
            final(self).spec_state() == old(self).spec_state(),
            final(self).spec_tasks() == old(self).spec_tasks(),
            final(self).spec_counters() == old(self).spec_counters(),
            final(self).spec_grant_slots() == old(self).spec_grant_slots(),
            final(self).spec_stack_start() == old(self).spec_stack_start(),
            final(self).spec_heap_start() == old(self).spec_heap_start(),
            final(self).spec_min_stack_pointer() == old(self).spec_min_stack_pointer(),
            r is Err ==> final(self).spec_memory() == old(self).spec_memory(),
            ({
                let new_break = old(self).spec_memory().app_break + increment;
                &&& new_break < old(self).spec_memory().allow_high_water_mark || new_break >= old(self).spec_memory().mem_end
                    ==> r == Err::<usize, Error>(Error::AddressOutOfBounds)
                &&& !(new_break < old(self).spec_memory().allow_high_water_mark || new_break >= old(self).spec_memory().mem_end)
                    && new_break > old(self).spec_memory().kernel_memory_break
                    ==> r == Err::<usize, Error>(Error::OutOfMemory)
                &&& r is Err ==> r == Err::<usize, Error>(Error::AddressOutOfBounds) || r == Err::<usize, Error>(Error::OutOfMemory)
                &&& r is Ok ==> r == Ok::<usize, Error>(old(self).spec_memory().app_break)
                    && final(self).spec_memory() == (MemoryModel { app_break: new_break as usize, ..old(self).spec_memory() })
            }),
    ;

    /// Where the process's memory starts.
    fn mem_start(&self) -> (r: usize)
        ensures
            r == self.spec_memory().mem_start,
    ;

    /// Where the process's memory ends.
    fn mem_end(&self) -> (r: usize)
        requires
            self.wf(),
        ensures
            r == self.spec_memory().mem_end,
    ;

    /// Where the process's flash starts.
    fn flash_start(&self) -> (r: usize)
        ensures
            r == self.spec_memory().flash_start,
    ;

    /// Where the process's flash ends.
    fn flash_end(&self) -> (r: usize)
        requires
            self.wf(),
        ensures
            r == self.spec_memory().flash_end,
    ;

    /// The lowest address of the kernel-owned memory at the top of the
    /// process's memory.
    fn kernel_memory_break(&self) -> (r: usize)
        ensures
            r == self.spec_memory().kernel_memory_break,
    ;

    /// Where the part of the process's flash that the process may change
    /// starts: after the header and the protected region.
    fn flash_non_protected_start(&self) -> (r: usize)
        requires
            self.wf(),
        ensures
            r == self.spec_flash_non_protected_start(),
    ;

    /// The first address of flash after the header and protected region.
    spec fn spec_flash_non_protected_start(&self) -> usize;

    /// The address of the process's entry function in flash.
    spec fn spec_entry_point(&self) -> usize;

    /// The writeable flash regions the process's header declares, as
    /// (offset, size) pairs.
    spec fn spec_writeable_flash_regions(&self) -> Seq<(u32, u32)>;

    /// How many writeable flash regions the header declares.
    fn number_writeable_flash_regions(&self) -> (r: usize)
        ensures
            r == self.spec_writeable_flash_regions().len(),
    ;

    /// The offset and size of writeable flash region `region_index`, or
    /// (0, 0) if there is none.
    fn get_writeable_flash_region(&self, region_index: usize) -> (r: (u32, u32))
        ensures
            r == if region_index < self.spec_writeable_flash_regions().len() {
                self.spec_writeable_flash_regions()[region_index as int]
            } else {
                (0u32, 0u32)
            },
    ;

    /// The start of the stack, as the process reports it.
    spec fn spec_stack_start(&self) -> Option<usize>;

    /// The start of the heap, as the process reports it.
    spec fn spec_heap_start(&self) -> Option<usize>;

    /// The lowest stack pointer seen.
    spec fn spec_min_stack_pointer(&self) -> usize;

    /// Records where the process's stack starts, if it is inside its memory.
    fn update_stack_start_pointer(&mut self, stack_pointer: usize)
        requires
            old(self).wf(),
        ensures
            final(self).wf(),
            final(self).spec_app_idx() == old(self).spec_app_idx(),
            final(self).spec_fault_response() == old(self).spec_fault_response(),
            final(self).spec_task_capacity() == old(self).spec_task_capacity(),
            final(self).spec_process_name() == old(self).spec_process_name(),
            final(self).spec_state() == old(self).spec_state(),
            final(self).spec_tasks() == old(self).spec_tasks(),
            final(self).spec_counters() == old(self).spec_counters(),
            final(self).spec_grant_slots() == old(self).spec_grant_slots(),
            final(self).spec_memory() == old(self).spec_memory(),
            final(self).spec_heap_start() == old(self).spec_heap_start(),
            old(self).spec_memory().mem_start <= stack_pointer < old(self).spec_memory().mem_end ==> {
                &&& final(self).spec_stack_start() == Some(stack_pointer)
                &&& final(self).spec_min_stack_pointer() == stack_pointer
            },
            !(old(self).spec_memory().mem_start <= stack_pointer < old(self).spec_memory().mem_end) ==> {
                &&& final(self).spec_stack_start() == old(self).spec_stack_start()
                &&& final(self).spec_min_stack_pointer() == old(self).spec_min_stack_pointer()
            },
    ;

    /// Records where the process's heap starts, if it is inside its memory.
    fn update_heap_start_pointer(&mut self, heap_pointer: usize)
        requires
            old(self).wf(),
        ensures
            final(self).wf(),
            final(self).spec_app_idx() == old(self).spec_app_idx(),
            final(self).spec_fault_response() == old(self).spec_fault_response(),
            final(self).spec_task_capacity() == old(self).spec_task_capacity(),
            final(self).spec_process_name() == old(self).spec_process_name(),
            final(self).spec_state() == old(self).spec_state(),
            final(self).spec_tasks() == old(self).spec_tasks(),
            final(self).spec_counters() == old(self).spec_counters(),
            final(self).spec_grant_slots() == old(self).spec_grant_slots(),
            final(self).spec_memory() == old(self).spec_memory(),
            final(self).spec_stack_start() == old(self).spec_stack_start(),
            final(self).spec_min_stack_pointer() == old(self).spec_min_stack_pointer(),
            old(self).spec_memory().mem_start <= heap_pointer < old(self).spec_memory().mem_end
                ==> final(self).spec_heap_start() == Some(heap_pointer),
            !(old(self).spec_memory().mem_start <= heap_pointer < old(self).spec_memory().mem_end)
                ==> final(self).spec_heap_start() == old(self).spec_heap_start(),
    ;

    /// Shares the buffer of `size` bytes at `buf_start_addr` with the
    /// kernel: a null address shares nothing, and a buffer must lie within
    /// the memory the process owns. The highest address shared so far is
    /// remembered, and the break may never drop below it.
    fn allow(&mut self, buf_start_addr: usize, size: usize) -> (r: Result<Option<AppSlice<Shared, u8>>, ReturnCode>)
        requires
            old(self).wf(),
        ensures
            final(self).wf(),
            final(self).spec_app_idx() == old(self).spec_app_idx(),
            final(self).spec_fault_response() == old(self).spec_fault_response(),
            final(self).spec_task_capacity() == old(self).spec_task_capacity(),
            final(self).spec_process_name() == old(self).spec_process_name(),
            final(self).spec_state() == old(self).spec_state(),
            final(self).spec_tasks() == old(self).spec_tasks(),
            final(self).spec_counters() == old(self).spec_counters(),
            final(self).spec_grant_slots() == old(self).spec_grant_slots(),
            buf_start_addr == 0 ==> (r matches Ok(None)) && final(self).spec_memory() == old(self).spec_memory(),
            buf_start_addr != 0 && !in_app_owned_memory(old(self).spec_memory(), buf_start_addr as int, size as int)
                ==> r == Err::<Option<AppSlice<Shared, u8>>, ReturnCode>(ReturnCode::EINVAL)
                && final(self).spec_memory() == old(self).spec_memory(),
            buf_start_addr != 0 && in_app_owned_memory(old(self).spec_memory(), buf_start_addr as int, size as int) ==> {
                &&& r matches Ok(Some(slice))
                &&& r->Ok_0->Some_0.spec_ptr() == buf_start_addr
                &&& r->Ok_0->Some_0.spec_len() == size
                &&& r->Ok_0->Some_0.spec_owner().spec_idx() == old(self).spec_app_idx()
                &&& final(self).spec_memory() == shared_memory_after(old(self).spec_memory(), buf_start_addr, size)
            },
    ;

    /// Configures the MPU for this process.
    fn setup_mpu(&self);

    /// The MPU regions the kernel has opened for this process.
    spec fn spec_mpu_regions(&self) -> Seq<Option<mpu::Region>>;

    /// Asks the MPU for a new region for this process and records it in the
    /// first free slot; `None` if the MPU has none or no slot is free.
    fn add_mpu_region(&mut self, unallocated_memory_start: usize, unallocated_memory_size: usize, min_region_size: usize) -> (r: Option<mpu::Region>)
        requires
            old(self).wf(),
        ensures
            final(self).wf(),
            final(self).spec_app_idx() == old(self).spec_app_idx(),
            final(self).spec_fault_response() == old(self).spec_fault_response(),
            final(self).spec_task_capacity() == old(self).spec_task_capacity(),
            final(self).spec_process_name() == old(self).spec_process_name(),
            final(self).spec_state() == old(self).spec_state(),
            final(self).spec_tasks() == old(self).spec_tasks(),
            final(self).spec_counters() == old(self).spec_counters(),
            final(self).spec_grant_slots() == old(self).spec_grant_slots(),
            final(self).spec_memory() == old(self).spec_memory(),
            final(self).spec_mpu_regions().len() == old(self).spec_mpu_regions().len(),
            r is None ==> final(self).spec_mpu_regions() == old(self).spec_mpu_regions(),
            r is Some ==> exists|i: int| 0 <= i < old(self).spec_mpu_regions().len()
                && old(self).spec_mpu_regions()[i] is None
                && (forall|j: int| 0 <= j < i ==> old(self).spec_mpu_regions()[j] is Some)
                && final(self).spec_mpu_regions() == old(self).spec_mpu_regions().update(i, r),
    ;

    /// The values held in the process's grant pointer slots (0 for none).
    spec fn spec_grant_slots(&self) -> Seq<usize>;

    /// Allocates `size` bytes, aligned to `align`, from the top of the
    /// process's memory, below the kernel memory break; returns the address
    /// of the new memory, which becomes the new kernel memory break.
    fn allocate(&mut self, size: usize, align: usize) -> (r: Option<usize>)
        requires
            old(self).wf(),
            align >= 1,
        ensures
            final(self).wf(),
            final(self).spec_app_idx() == old(self).spec_app_idx(),
            final(self).spec_fault_response() == old(self).spec_fault_response(),
            final(self).spec_task_capacity() == old(self).spec_task_capacity(),
            final(self).spec_process_name() == old(self).spec_process_name(),
            final(self).spec_state() == old(self).spec_state(),
            final(self).spec_tasks() == old(self).spec_tasks(),
            final(self).spec_counters() == old(self).spec_counters(),
            final(self).spec_grant_slots() == old(self).spec_grant_slots(),
            r is None ==> final(self).spec_memory() == old(self).spec_memory(),
            r matches Some(addr) ==> {
                &&& size <= old(self).spec_memory().kernel_memory_break
                &&& addr == aligned_break(old(self).spec_memory().kernel_memory_break, size, align)
                &&& old(self).spec_memory().app_break <= addr
                &&& final(self).spec_memory() == (MemoryModel { kernel_memory_break: addr, ..old(self).spec_memory() })
            },
            size > old(self).spec_memory().kernel_memory_break ==> r is None,
            size <= old(self).spec_memory().kernel_memory_break
                && aligned_break(old(self).spec_memory().kernel_memory_break, size, align) < old(self).spec_memory().app_break
                ==> r is None,
    ;

    /// Frees memory allocated with `allocate`; the kernel never frees process
    /// memory, so this does nothing.
    fn free(&mut self, addr: usize)
        ensures
            *final(self) == *old(self),
    ;

    /// The number of grant pointer slots at the top of the process's memory.
    fn grant_slot_count(&self) -> (r: usize)
        ensures
            r == self.spec_grant_slots().len(),
    ;

    /// The address of grant pointer slot `grant_num`: the slots sit at the
    /// very top of the process's memory, slot 0 highest.
    fn grant_ptr(&self, grant_num: usize) -> (r: usize)
        requires
            self.wf(),
            grant_num < self.spec_grant_slots().len(),
        ensures
            r == self.spec_memory().mem_end - (grant_num + 1) * GRANT_POINTER_SIZE,
    ;

    /// The value held in grant pointer slot `grant_num`.
    fn grant_slot(&self, grant_num: usize) -> (r: usize)
        requires
            grant_num < self.spec_grant_slots().len(),
        ensures
            r == self.spec_grant_slots()[grant_num as int],
    ;

    /// Stores `value` in grant pointer slot `grant_num`.
    fn set_grant_slot(&mut self, grant_num: usize, value: usize)
        requires
            old(self).wf(),
            grant_num < old(self).spec_grant_slots().len(),
        ensures
            final(self).wf(),
            final(self).spec_app_idx() == old(self).spec_app_idx(),
            final(self).spec_fault_response() == old(self).spec_fault_response(),
            final(self).spec_task_capacity() == old(self).spec_task_capacity(),
            final(self).spec_process_name() == old(self).spec_process_name(),
            final(self).spec_state() == old(self).spec_state(),
            final(self).spec_tasks() == old(self).spec_tasks(),
            final(self).spec_counters() == old(self).spec_counters(),
            final(self).spec_memory() == old(self).spec_memory(),
            final(self).spec_grant_slots() == old(self).spec_grant_slots().update(grant_num as int, value),
    ;

    /// The value the process sees as the result of its last syscall.
    spec fn spec_syscall_return_value(&self) -> isize;

    /// Sets the value the process sees as the result of its syscall.
    fn set_syscall_return_value(&mut self, return_value: isize)
        requires
            old(self).wf(),
        ensures
            final(self).wf(),
            final(self).spec_syscall_return_value() == return_value,
            final(self).spec_stack_start() == old(self).spec_stack_start(),
            final(self).spec_heap_start() == old(self).spec_heap_start(),
            final(self).spec_min_stack_pointer() == old(self).spec_min_stack_pointer(),
            final(self).spec_app_idx() == old(self).spec_app_idx(),
            final(self).spec_fault_response() == old(self).spec_fault_response(),
            final(self).spec_task_capacity() == old(self).spec_task_capacity(),
            final(self).spec_process_name() == old(self).spec_process_name(),
            final(self).spec_state() == old(self).spec_state(),
            final(self).spec_tasks() == old(self).spec_tasks(),
            final(self).spec_counters() == old(self).spec_counters(),
            final(self).spec_grant_slots() == old(self).spec_grant_slots(),
            final(self).spec_memory() == old(self).spec_memory(),
    ;

    /// Sets up the process to run `callback` when it next runs; on success
    /// the process is running and the kernel's work count goes up by one,
    /// on failure (no room on the stack) the process faults, and the result
    /// says whether the kernel must panic for it. The room on
    /// the stack is what lies between the start of the process's memory and
    /// its stack pointer (none if the pointer is below the memory).
    fn set_process_function(&mut self, work: &mut usize, callback: FunctionCall) -> (r: bool)
        requires
            old(self).wf(),
            *old(work) < usize::MAX,
            *old(work) >= old(self).spec_tasks().len(),
            *old(work) - old(self).spec_tasks().len() < usize::MAX,
            old(self).spec_counters().restart_count < usize::MAX,
        ensures
            final(self).wf(),
            final(self).spec_app_idx() == old(self).spec_app_idx(),
            final(self).spec_fault_response() == old(self).spec_fault_response(),
            final(self).spec_task_capacity() == old(self).spec_task_capacity(),
            final(self).spec_process_name() == old(self).spec_process_name(),
            final(self).spec_grant_slots().len() == old(self).spec_grant_slots().len(),
            final(self).spec_state() == State::Running ==> {
                &&& *final(work) == *old(work) + 1
                &&& final(self).spec_tasks() == old(self).spec_tasks()
                &&& final(self).spec_counters() == old(self).spec_counters()
                &&& final(self).spec_grant_slots() == old(self).spec_grant_slots()
                &&& final(self).spec_memory() == (MemoryModel {
                    current_stack_pointer: final(self).spec_memory().current_stack_pointer,
                    ..old(self).spec_memory()
                })
            },
            r ==> final(self).spec_state() == State::Fault && old(self).spec_fault_response() == FaultResponse::Panic
                && final(self).spec_tasks() == old(self).spec_tasks() && *final(work) == *old(work),
            final(self).spec_counters().dropped_callback_count <= old(self).spec_counters().dropped_callback_count,
            final(self).spec_state() != State::Running && !r ==> {
                ||| {
                    &&& final(self).spec_state() == State::Unstarted
                    &&& old(self).spec_fault_response() == FaultResponse::Restart
                    &&& final(self).spec_tasks() == seq![Task::FunctionCall(
                        (FunctionCall {
                            source: FunctionCallSource::Kernel,
                            pc: old(self).spec_entry_point(),
                            argument0: old(self).spec_flash_non_protected_start(),
                            argument1: old(self).spec_memory().mem_start,
                            argument2: (old(self).spec_memory().mem_end - old(self).spec_memory().mem_start) as usize,
                            argument3: old(self).spec_memory().original_app_break,
                        }),
                    )]
                    &&& *final(work) == *old(work) - old(self).spec_tasks().len() + 1
                }
                ||| {
                    &&& final(self).spec_state() == State::StoppedFaulted
                    &&& old(self).spec_fault_response() == FaultResponse::Stop
                    &&& final(self).spec_tasks().len() == 0
                    &&& *final(work) == *old(work) - old(self).spec_tasks().len()
                }
            },
    ;

    /// Runs the process until it next enters the kernel, and reports why;
    /// an expired timeslice is counted, and the lowest stack pointer seen
    /// takes in the stack pointer the process comes back with.
    fn switch_to(&mut self) -> (r: Option<syscall::ContextSwitchReason>)
        requires
            old(self).wf(),
            old(self).spec_counters().timeslice_expiration_count < usize::MAX,
        ensures
            final(self).wf(),
            final(self).spec_app_idx() == old(self).spec_app_idx(),
            final(self).spec_fault_response() == old(self).spec_fault_response(),
            final(self).spec_task_capacity() == old(self).spec_task_capacity(),
            final(self).spec_process_name() == old(self).spec_process_name(),
            final(self).spec_writeable_flash_regions() == old(self).spec_writeable_flash_regions(),
            final(self).spec_state() == old(self).spec_state(),
            final(self).spec_tasks() == old(self).spec_tasks(),
            final(self).spec_grant_slots() == old(self).spec_grant_slots(),
            r is Some,
            final(self).spec_counters() == (ProcessCounters {
                timeslice_expiration_count: if r == Some(syscall::ContextSwitchReason::TimesliceExpired) {
                    (old(self).spec_counters().timeslice_expiration_count + 1) as usize
                } else {
                    old(self).spec_counters().timeslice_expiration_count
                },
                ..old(self).spec_counters()
            }),
            final(self).spec_memory() == (MemoryModel {
                current_stack_pointer: final(self).spec_memory().current_stack_pointer,
                ..old(self).spec_memory()
            }),
            final(self).spec_stack_start() == old(self).spec_stack_start(),
            final(self).spec_heap_start() == old(self).spec_heap_start(),
            final(self).spec_min_stack_pointer() == if final(self).spec_memory().current_stack_pointer
                < old(self).spec_min_stack_pointer() {
                final(self).spec_memory().current_stack_pointer
            } else {
                old(self).spec_min_stack_pointer()
            },
    ;

    /// The number of syscalls the process has made.
    fn debug_syscall_count(&self) -> (r: usize)
        ensures
            r == self.spec_counters().syscall_count,
    ;

    /// The number of callbacks dropped because the queue was full.
    fn debug_dropped_callback_count(&self) -> (r: usize)
        ensures
            r == self.spec_counters().dropped_callback_count,
    ;

    /// The number of times the process has been restarted.
    fn debug_restart_count(&self) -> (r: usize)
        ensures
            r == self.spec_counters().restart_count,
    ;

    /// The number of times the process has exceeded its timeslice.
    fn debug_timeslice_expiration_count(&self) -> (r: usize)
        ensures
            r == self.spec_counters().timeslice_expiration_count,
    ;

    /// Counts one more expired timeslice.
    fn debug_timeslice_expired(&mut self)
        requires
            old(self).wf(),
            old(self).spec_counters().timeslice_expiration_count < usize::MAX,
        ensures
            final(self).wf(),
            final(self).spec_app_idx() == old(self).spec_app_idx(),
            final(self).spec_fault_response() == old(self).spec_fault_response(),
            final(self).spec_task_capacity() == old(self).spec_task_capacity(),
            final(self).spec_process_name() == old(self).spec_process_name(),
            final(self).spec_state() == old(self).spec_state(),
            final(self).spec_tasks() == old(self).spec_tasks(),
            final(self).spec_memory() == old(self).spec_memory(),
            final(self).spec_grant_slots() == old(self).spec_grant_slots(),
            final(self).spec_writeable_flash_regions() == old(self).spec_writeable_flash_regions(),
            final(self).spec_counters() == (ProcessCounters {
                timeslice_expiration_count: (old(self).spec_counters().timeslice_expiration_count + 1) as usize,
                ..old(self).spec_counters()
            }),
    ;
}

/// What putting process `p` in the fault state leaves, `q`: a process to
/// restart is unstarted with one queued call to its entry point, its memory
/// breaks and stack pointer back where they started, its syscall and
/// dropped-callback counts cleared and one more restart counted; a process
/// to stop is stopped with no queued tasks and otherwise as it was. Either
/// way every grant region is forgotten. (A process whose response is to
/// panic the kernel is never put there.)
pub open spec fn faulted<P: ProcessType>(p: P, q: P) -> bool {
    &&& q.wf()
    &&& same_identity(&p, &q)
    &&& q.spec_grant_slots().len() == p.spec_grant_slots().len()
    &&& forall|i: int| 0 <= i < q.spec_grant_slots().len() ==> #[trigger] q.spec_grant_slots()[i] == 0
    &&& match p.spec_fault_response() {
        FaultResponse::Restart => {
            &&& q.spec_state() == State::Unstarted
            &&& q.spec_tasks() == seq![Task::FunctionCall(
                (FunctionCall {
                    source: FunctionCallSource::Kernel,
                    pc: p.spec_entry_point(),
                    argument0: p.spec_flash_non_protected_start(),
                    argument1: p.spec_memory().mem_start,
                    argument2: (p.spec_memory().mem_end - p.spec_memory().mem_start) as usize,
                    argument3: p.spec_memory().original_app_break,
                }),
            )]
            &&& q.spec_counters() == (ProcessCounters {
                syscall_count: 0,
                dropped_callback_count: 0,
                restart_count: (p.spec_counters().restart_count + 1) as usize,
                timeslice_expiration_count: p.spec_counters().timeslice_expiration_count,
            })
            &&& q.spec_memory().app_break == p.spec_memory().original_app_break
            &&& q.spec_memory().kernel_memory_break == p.spec_memory().original_kernel_memory_break
            &&& q.spec_memory().current_stack_pointer == p.spec_memory().original_stack_pointer
        },
        FaultResponse::Stop => {
            &&& q.spec_state() == State::StoppedFaulted
            &&& q.spec_tasks() == Seq::<Task>::empty()
            &&& q.spec_counters() == p.spec_counters()
            &&& q.spec_memory() == p.spec_memory()
        },
        FaultResponse::Panic => false,
    }
}

/// The change that putting process `p` in the fault state makes to the
/// kernel's work count: its queued tasks go, and a restarted process gains
/// its call to the entry point.
pub open spec fn fault_work_change<P: ProcessType>(p: P) -> int {
    (if p.spec_fault_response() == FaultResponse::Restart { 1int } else { 0int }) - p.spec_tasks().len()
}

} // verus!

verus! {

/// A process stored in flash: its place in the process table, the chip it
/// runs on, its memory and flash, its header, its state and its queue of
/// tasks.
pub struct Process<'a, C: Chip> {
    app_idx: usize,
    chip: &'a C,
    memory_start: usize,
    memory_len: usize,
    kernel_memory_break: usize,
    original_kernel_memory_break: usize,
    app_break: usize,
    original_app_break: usize,
    allow_high_water_mark: usize,
    current_stack_pointer: usize,
    original_stack_pointer: usize,
    flash_start: usize,
    flash_len: usize,
    header: tbfheader::TbfHeader,
    stored_state: <C::UserspaceKernelBoundary as UserspaceKernelBoundary>::StoredState,
    state: State,
    fault_response: FaultResponse,
    mpu_config: <C::MPU as MPU>::MpuConfig,
    mpu_regions: Vec<Option<mpu::Region>>,
    tasks: RingBuffer<Task>,
    process_name: String,
    debug: ProcessDebug,
    grant_slots: Vec<usize>,
}

/// The number of MPU regions a process can be given.
pub const NUM_MPU_REGIONS: usize = 6;

impl<'a, C: Chip> ProcessType for Process<'a, C> {
    closed spec fn wf(&self) -> bool {
        &&& self.memory_start + self.memory_len <= usize::MAX
        &&& self.flash_start + self.flash_len <= usize::MAX
        &&& self.tasks.wf()
        &&& self.tasks.capacity() >= 2
        &&& self.header@.protected_size() <= u32::MAX
        &&& self.header@.init_function_offset() <= u32::MAX
        &&& self.flash_start + self.header@.protected_size() <= usize::MAX
        &&& self.flash_start + self.header@.init_function_offset() <= usize::MAX
        &&& self.grant_slots@.len() * GRANT_POINTER_SIZE <= self.memory_len
    }

    closed spec fn spec_app_idx(&self) -> usize {
        self.app_idx
    }

    closed spec fn spec_state(&self) -> State {
        self.state
    }

    closed spec fn spec_tasks(&self) -> Seq<Task> {
        self.tasks@
    }

    closed spec fn spec_task_capacity(&self) -> nat {
        self.tasks.capacity()
    }

    closed spec fn spec_fault_response(&self) -> FaultResponse {
        self.fault_response
    }

    closed spec fn spec_process_name(&self) -> Seq<char> {
        self.process_name@
    }

    closed spec fn spec_counters(&self) -> ProcessCounters {
        self.debug.counters()
    }

    closed spec fn spec_memory(&self) -> MemoryModel {
        MemoryModel {
            mem_start: self.memory_start,
            mem_end: (self.memory_start + self.memory_len) as usize,
            flash_start: self.flash_start,
            flash_end: (self.flash_start + self.flash_len) as usize,
            app_break: self.app_break,
            kernel_memory_break: self.kernel_memory_break,
            allow_high_water_mark: self.allow_high_water_mark,
            original_app_break: self.original_app_break,
            original_kernel_memory_break: self.original_kernel_memory_break,
            current_stack_pointer: self.current_stack_pointer,
            original_stack_pointer: self.original_stack_pointer,
        }
    }

    closed spec fn spec_flash_non_protected_start(&self) -> usize {
        (self.flash_start + self.header@.protected_size()) as usize
    }

    closed spec fn spec_entry_point(&self) -> usize {
        (self.flash_start + self.header@.init_function_offset()) as usize
    }

    closed spec fn spec_writeable_flash_regions(&self) -> Seq<(u32, u32)> {
        self.header@.writeable_regions().map_values(
            |r: tbfheader::TbfHeaderV2WriteableFlashRegion| (r.writeable_flash_region_offset, r.writeable_flash_region_size),
        )
    }

    closed spec fn spec_stack_start(&self) -> Option<usize> {
        self.debug.app_stack_start_pointer
    }

    closed spec fn spec_heap_start(&self) -> Option<usize> {
        self.debug.app_heap_start_pointer
    }

    closed spec fn spec_min_stack_pointer(&self) -> usize {
        self.debug.min_stack_pointer
    }

    closed spec fn spec_syscall_return_value(&self) -> isize {
        <C::UserspaceKernelBoundary as UserspaceKernelBoundary>::stored_return_value(self.stored_state)
    }

    closed spec fn spec_mpu_regions(&self) -> Seq<Option<mpu::Region>> {
        self.mpu_regions@
    }

    closed spec fn spec_grant_slots(&self) -> Seq<usize> {
        self.grant_slots@
    }

    fn appid(&self) -> (r: AppId) {
        AppId::new(self.app_idx)
    }

    fn enqueue_task(&mut self, work: &mut usize, task: Task) -> (r: bool) {
        // If this app is in the `Fault` state then we shouldn't schedule
        // any work for it.
        if self.state == State::Fault {
            return false;
        }
        *work = *work + 1;
        let ret = self.tasks.enqueue(task);
        // Make a note that we lost this callback if the enqueue function
        // fails.
        if ret == false {
            self.debug.dropped_callback_count = self.debug.dropped_callback_count + 1;
        }
        ret
    }

    fn dequeue_task(&mut self, work: &mut usize) -> (r: Option<Task>) {
        match self.tasks.dequeue() {
            Some(cb) => {
                *work = *work - 1;
                Some(cb)
            },
            None => None,
        }
    }

    fn remove_pending_callbacks(&mut self, callback_id: CallbackId) {
        let ghost old_tasks = self.tasks@;
        let survives = |task: &Task| -> (b: bool)
            ensures
                b == task_survives(*task, callback_id),
            {
                match task {
                    Task::FunctionCall(function_call) => match function_call.source {
                        FunctionCallSource::Kernel => true,
                        FunctionCallSource::Driver(id) => id != callback_id,
                    },
                    _ => true,
                }
            };
        self.tasks.retain(survives);
        proof {
            let keep = choose|keep: Seq<bool>| {
                &&& keep.len() == old_tasks.len()
                &&& forall|i: int| 0 <= i < keep.len() ==> survives.ensures((&old_tasks[i],), #[trigger] keep[i])
                &&& self.tasks@ == filter_by(old_tasks, keep)
            };
            assert(keep =~= Seq::new(old_tasks.len(), |i: int| task_survives(old_tasks[i], callback_id)));
        }
    }

    fn get_state(&self) -> (r: State) {
        self.state
    }

    fn set_yielded_state(&mut self, work: &mut usize) {
        if self.state == State::Running {
            self.state = State::Yielded;
            *work = *work - 1;
        }
    }

    fn stop(&mut self) {
        match self.state {
            State::Running => self.state = State::StoppedRunning,
            State::Yielded => self.state = State::StoppedYielded,
            _ => {},
        }
    }

    fn resume(&mut self) {
        match self.state {
            State::StoppedRunning => self.state = State::Running,
            State::StoppedYielded => self.state = State::Yielded,
            _ => {},
        }
    }

    fn get_fault_response(&self) -> (r: FaultResponse) {
        self.fault_response
    }

    fn set_fault_state(&mut self, work: &mut usize) {
        self.state = State::Fault;
        match self.fault_response {
            FaultResponse::Panic => {},
            FaultResponse::Restart => {
                // Remove the tasks that were scheduled for the app from the
                // amount of work queue.
                let tasks_len = self.tasks.len();
                *work = *work - tasks_len;
                // And remove those tasks.
                self.tasks.empty();
                // Update debug information.
                self.debug.restart_count = self.debug.restart_count + 1;
                self.debug.syscall_count = 0;
                self.debug.last_syscall = None;
                self.debug.dropped_callback_count = 0;
                // Re-queue the process's entry point.
                let app_flash_address = self.flash_start;
                let init_fn = app_flash_address + self.header.get_init_function_offset() as usize;
                self.state = State::Unstarted;
                // Mark all grants as uninitialized.
                self.grant_ptrs_reset();
                // Reset the memory pointers.
                self.kernel_memory_break = self.original_kernel_memory_break;
                self.app_break = self.original_app_break;
                self.current_stack_pointer = self.original_stack_pointer;
                let flash_protected_size = self.header.get_protected_size() as usize;
                let flash_app_start = app_flash_address + flash_protected_size;
                self.tasks.empty();
                let queued = self.tasks.enqueue(
                    Task::FunctionCall(
                        FunctionCall {
                            source: FunctionCallSource::Kernel,
                            pc: init_fn,
                            argument0: flash_app_start,
                            argument1: self.memory_start,
                            argument2: self.memory_len,
                            argument3: self.app_break,
                        },
                    ),
                );
                *work = *work + 1;
            },
            FaultResponse::Stop => {
                // Remove the tasks that were scheduled for the app from the
                // amount of work queue, and remove those tasks.
                let tasks_len = self.tasks.len();
                *work = *work - tasks_len;
                self.tasks.empty();
                self.grant_ptrs_reset();
                self.state = State::StoppedFaulted;
            },
        }
    }

    fn get_process_name(&self) -> (r: &str) {
        self.process_name.as_str()
    }

    fn brk(&mut self, new_break: usize) -> (r: Result<usize, Error>)
        ensures
            final(self).spec_chip() == old(self).spec_chip(),
            !(new_break < old(self).spec_memory().allow_high_water_mark || new_break >= old(self).spec_memory().mem_end)
                && new_break <= old(self).spec_memory().kernel_memory_break ==> exists|m: &C::MPU, c: &mut <C::MPU as MPU>::MpuConfig, u: Result<(), ()>| {
                &&& call_ensures(<C as Chip>::mpu, (old(self).spec_chip(),), m)
                &&& *c == old(self).spec_mpu_config()
                &&& *final(c) == final(self).spec_mpu_config()
                &&& #[trigger] call_ensures(<C::MPU as MPU>::update_app_memory_region,
                    (m, new_break, old(self).spec_memory().kernel_memory_break, mpu::Permissions::ReadWriteOnly, c), u)
                &&& (u is Ok <==> r is Ok)
            },
    {
        if new_break < self.allow_high_water_mark || new_break >= self.memory_start + self.memory_len {
            Err(Error::AddressOutOfBounds)
        } else if new_break > self.kernel_memory_break {
            Err(Error::OutOfMemory)
        } else {
            let chip = self.chip;
            let updated = chip.mpu().update_app_memory_region(
                new_break,
                self.kernel_memory_break,
                mpu::Permissions::ReadWriteOnly,
                &mut self.mpu_config,
            );
            match updated {
                Err(_) => Err(Error::OutOfMemory),
                Ok(_) => {
                    let old_break = self.app_break;
                    self.app_break = new_break;
                    chip.mpu().configure_mpu(&self.mpu_config);
                    Ok(old_break)
                },
            }
        }
    }

    fn sbrk(&mut self, increment: isize) -> (r: Result<usize, Error>)
        ensures
            final(self).spec_chip() == old(self).spec_chip(),
            ({
                let new_break = old(self).spec_memory().app_break + increment;
                0 <= new_break && !(new_break < old(self).spec_memory().allow_high_water_mark
                    || new_break >= old(self).spec_memory().mem_end)
                    && new_break <= old(self).spec_memory().kernel_memory_break
                    ==> exists|m: &C::MPU, c: &mut <C::MPU as MPU>::MpuConfig, u: Result<(), ()>| {
                    &&& call_ensures(<C as Chip>::mpu, (old(self).spec_chip(),), m)
                    &&& *c == old(self).spec_mpu_config()
                    &&& *final(c) == final(self).spec_mpu_config()
                    &&& #[trigger] call_ensures(<C::MPU as MPU>::update_app_memory_region,
                        (m, new_break as usize, old(self).spec_memory().kernel_memory_break, mpu::Permissions::ReadWriteOnly, c), u)
                    &&& (u is Ok <==> r is Ok)
                }
            }),
    {
        let new_break: i128 = self.app_break as i128 + increment as i128;
        if new_break < 0 || new_break > usize::MAX as i128 {
            return Err(Error::AddressOutOfBounds);
        }
        self.brk(new_break as usize)
    }

    fn mem_start(&self) -> (r: usize) {
        self.memory_start
    }

    fn mem_end(&self) -> (r: usize) {
        self.memory_start + self.memory_len
    }

    fn flash_start(&self) -> (r: usize) {
        self.flash_start
    }

    fn flash_end(&self) -> (r: usize) {
        self.flash_start + self.flash_len
    }

    fn kernel_memory_break(&self) -> (r: usize) {
        self.kernel_memory_break
    }

    fn flash_non_protected_start(&self) -> (r: usize) {
        self.flash_start + self.header.get_protected_size() as usize
    }

    fn number_writeable_flash_regions(&self) -> (r: usize) {
        self.header.number_writeable_flash_regions()
    }

    fn get_writeable_flash_region(&self, region_index: usize) -> (r: (u32, u32)) {
        self.header.get_writeable_flash_region(region_index)
    }

    fn update_stack_start_pointer(&mut self, stack_pointer: usize) {
        if stack_pointer >= self.memory_start && stack_pointer < self.memory_start + self.memory_len {
            self.debug.app_stack_start_pointer = Some(stack_pointer);
            // We also reset the minimum stack pointer because whatever value
            // we had could be entirely wrong by now.
            self.debug.min_stack_pointer = stack_pointer;
        }
    }

    fn update_heap_start_pointer(&mut self, heap_pointer: usize) {
        if heap_pointer >= self.memory_start && heap_pointer < self.memory_start + self.memory_len {
            self.debug.app_heap_start_pointer = Some(heap_pointer);
        }
    }

    fn allow(&mut self, buf_start_addr: usize, size: usize) -> (r: Result<Option<AppSlice<Shared, u8>>, ReturnCode>) {
        if buf_start_addr == 0 {
            // A null buffer means pass in `None` to the capsule.
            Ok(None)
        } else if self.in_app_owned_memory(buf_start_addr, size) {
            // Save the end of the buffer so the process cannot move the
            // break below it.
            let buf_end_addr = buf_start_addr.wrapping_add(size);
            let new_water_mark = if self.allow_high_water_mark >= buf_end_addr {
                self.allow_high_water_mark
            } else {
                buf_end_addr
            };
            self.allow_high_water_mark = new_water_mark;
            Ok(Some(AppSlice::new(buf_start_addr, size, self.appid())))
        } else {
            Err(ReturnCode::EINVAL)
        }
    }

    fn setup_mpu(&self) {
        self.chip.mpu().configure_mpu(&self.mpu_config);
    }

    fn add_mpu_region(&mut self, unallocated_memory_start: usize, unallocated_memory_size: usize, min_region_size: usize) -> (r: Option<mpu::Region>)
        ensures
            final(self).spec_chip() == old(self).spec_chip(),
            exists|m: &C::MPU, c: &mut <C::MPU as MPU>::MpuConfig, a: Option<mpu::Region>| {
                &&& call_ensures(<C as Chip>::mpu, (old(self).spec_chip(),), m)
                &&& *c == old(self).spec_mpu_config()
                &&& *final(c) == final(self).spec_mpu_config()
                &&& #[trigger] call_ensures(<C::MPU as MPU>::allocate_region,
                    (m, unallocated_memory_start, unallocated_memory_size, min_region_size, mpu::Permissions::ReadWriteOnly, c), a)
                &&& a is None ==> r is None
                &&& a is Some && (exists|i: int| 0 <= i < old(self).spec_mpu_regions().len()
                    && #[trigger] old(self).spec_mpu_regions()[i] is None) ==> r == a
            },
    {
        let chip = self.chip;
        let new_region = chip.mpu().allocate_region(
            unallocated_memory_start,
            unallocated_memory_size,
            min_region_size,
            mpu::Permissions::ReadWriteOnly,
            &mut self.mpu_config,
        );
        if new_region.is_none() {
            return None;
        }
        let n = self.mpu_regions.len();
        let mut i: usize = 0;
        while i < n
            invariant
                n == self.mpu_regions@.len(),
                self.mpu_regions@ == old(self).mpu_regions@,
                i <= n,
                forall|j: int| 0 <= j < i ==> self.mpu_regions@[j] is Some,
            ensures
                i <= n,
                forall|j: int| 0 <= j < i ==> self.mpu_regions@[j] is Some,
                i < n ==> self.mpu_regions@[i as int] is None,
            decreases n - i,
        {
            if self.mpu_regions[i].is_none() {
                break;
            }
            i += 1;
        }
        if i < n {
            self.mpu_regions.set(i, new_region);
            assert(old(self).spec_mpu_regions()[i as int] is None);
            new_region
        } else {
            None
        }
    }

    fn allocate(&mut self, size: usize, align: usize) -> (r: Option<usize>)
        ensures
            final(self).spec_chip() == old(self).spec_chip(),
            size <= old(self).spec_memory().kernel_memory_break
                && aligned_break(old(self).spec_memory().kernel_memory_break, size, align) >= old(self).spec_memory().app_break
                ==> exists|m: &C::MPU, c: &mut <C::MPU as MPU>::MpuConfig, u: Result<(), ()>| {
                &&& call_ensures(<C as Chip>::mpu, (old(self).spec_chip(),), m)
                &&& *c == old(self).spec_mpu_config()
                &&& *final(c) == final(self).spec_mpu_config()
                &&& #[trigger] call_ensures(<C::MPU as MPU>::update_app_memory_region,
                    (m, old(self).spec_memory().app_break, aligned_break(old(self).spec_memory().kernel_memory_break, size, align),
                    mpu::Permissions::ReadWriteOnly, c), u)
                &&& (u is Ok <==> r is Some)
            },
    {
        // The memory below address zero does not exist.
        if size > self.kernel_memory_break {
            return None;
        }
        let new_break_unaligned = self.kernel_memory_break - size;
        // Our minimum alignment requirement is two bytes, so that the
        // lowest bit of the address will always be zero and we can use it
        // as a flag.
        let alignment_mask = !(align - 1);
        let new_break = new_break_unaligned & alignment_mask;
        if new_break < self.app_break {
            None
        } else {
            let chip = self.chip;
            let updated = chip.mpu().update_app_memory_region(
                self.app_break,
                new_break,
                mpu::Permissions::ReadWriteOnly,
                &mut self.mpu_config,
            );
            match updated {
                Err(_) => None,
                Ok(_) => {
                    self.kernel_memory_break = new_break;
                    Some(new_break)
                },
            }
        }
    }

    fn free(&mut self, addr: usize) {
    }

    fn grant_slot_count(&self) -> (r: usize) {
        self.grant_slots.len()
    }

    fn grant_ptr(&self, grant_num: usize) -> (r: usize) {
        (self.memory_start + self.memory_len) - (grant_num + 1) * GRANT_POINTER_SIZE
    }

    fn grant_slot(&self, grant_num: usize) -> (r: usize) {
        self.grant_slots[grant_num]
    }

    fn set_grant_slot(&mut self, grant_num: usize, value: usize) {
        self.grant_slots.set(grant_num, value);
    }

    fn set_syscall_return_value(&mut self, return_value: isize) {
        let chip = self.chip;
        chip.userspace_kernel_boundary().set_syscall_return_value(
            self.current_stack_pointer,
            &mut self.stored_state,
            return_value,
        );
    }

    fn set_process_function(&mut self, work: &mut usize, callback: FunctionCall) -> (r: bool) {
        // First we need to get how much memory is available for this app's
        // stack. Since the stack is at the bottom of the process's memory
        // region, this is straightforward.
        // A stack pointer below the process's memory leaves no room.
        let remaining_stack_bytes = self.current_stack_pointer.saturating_sub(self.memory_start);
        let chip = self.chip;
        let result = chip.userspace_kernel_boundary().set_process_function(
            self.current_stack_pointer,
            remaining_stack_bytes,
            &mut self.stored_state,
            callback,
        );
        match result {
            Ok(stack_bottom) => {
                *work = *work + 1;
                self.state = State::Running;
                self.current_stack_pointer = stack_bottom;
                self.debug_set_max_stack_depth();
                false
            },
            Err(bad_stack_bottom) => {
                // Note that `set_process_function` failed and the process
                // faulted.
                if bad_stack_bottom < self.debug.min_stack_pointer {
                    self.debug.min_stack_pointer = bad_stack_bottom;
                }
                if self.fault_response == FaultResponse::Panic {
                    // The kernel must panic for this fault.
                    self.state = State::Fault;
                    true
                } else {
                    self.set_fault_state(work);
                    false
                }
            },
        }
    }

    fn switch_to(&mut self) -> (r: Option<syscall::ContextSwitchReason>) {
        let chip = self.chip;
        let (stack_pointer, switch_reason) = chip.userspace_kernel_boundary().switch_to_process(
            self.current_stack_pointer,
            &mut self.stored_state,
        );
        // Update the stack pointer in case the process grew its stack.
        self.current_stack_pointer = stack_pointer;
        // Update debug state as needed after running this process.
        if self.current_stack_pointer < self.debug.min_stack_pointer {
            self.debug.min_stack_pointer = self.current_stack_pointer;
        }
        // Record if this process ran out of time.
        if switch_reason == syscall::ContextSwitchReason::TimesliceExpired {
            self.debug.timeslice_expiration_count = self.debug.timeslice_expiration_count + 1;
        }
        Some(switch_reason)
    }

    fn debug_syscall_count(&self) -> (r: usize) {
        self.debug.syscall_count
    }

    fn debug_dropped_callback_count(&self) -> (r: usize) {
        self.debug.dropped_callback_count
    }

    fn debug_restart_count(&self) -> (r: usize) {
        self.debug.restart_count
    }

    fn debug_timeslice_expiration_count(&self) -> (r: usize) {
        self.debug.timeslice_expiration_count
    }

    fn debug_timeslice_expired(&mut self) {
        self.debug.timeslice_expiration_count = self.debug.timeslice_expiration_count + 1;
    }
}

/// The offset in `flash` of the `i`-th app, walking from its start over
/// each valid header's total size; `None` once a header is not valid or an
/// app's flash reaches past the end of `flash`.
pub open spec fn app_offset(flash: Seq<u8>, i: nat) -> Option<int>
    decreases i,
{
    if i == 0 {
        Some(0)
    } else {
        match app_offset(flash, (i - 1) as nat) {
            Some(o) => if 0 <= o <= flash.len() {
                match tbfheader::spec_parse_tbf_header(flash.subrange(o, flash.len() as int)) {
                    Some(h) => if h.total_size() <= flash.len() - o { Some(o + h.total_size()) } else { None },
                    None => None,
                }
            } else {
                None
            },
            None => None,
        }
    }
}

/// Apps lie back to back in flash: the first starts at the start of the
/// flash, and each app with a valid header that fits in the flash is
/// followed by the next one right after its total size; the walk ends at
/// the first place without a valid header.
pub proof fn law_apps_lie_back_to_back(flash: Seq<u8>, i: nat)
    ensures
        app_offset(flash, 0) == Some(0int),
        app_header(flash, i) matches Some((o, h)) ==> {
            &&& app_offset(flash, i) == Some(o)
            &&& h.total_size() <= flash.len() - o ==> app_offset(flash, i + 1) == Some(o + h.total_size())
            &&& h.total_size() > flash.len() - o ==> app_offset(flash, i + 1) is None
        },
        app_offset(flash, i) is Some && app_header(flash, i) is None ==> app_offset(flash, i + 1) is None,
{
}

/// The offset and header of the `i`-th app in `flash`, if loading reaches
/// a valid header there.
pub open spec fn app_header(flash: Seq<u8>, i: nat) -> Option<(int, tbfheader::TbfHeaderModel)> {
    match app_offset(flash, i) {
        Some(o) => if 0 <= o <= flash.len() {
            match tbfheader::spec_parse_tbf_header(flash.subrange(o, flash.len() as int)) {
                Some(h) => Some((o, h)),
                None => None,
            }
        } else {
            None
        },
        None => None,
    }
}

/// Once loading stops, no later app is reached.
pub proof fn lemma_app_offset_stays_none(flash: Seq<u8>, j: nat, k: nat)
    requires
        j <= k,
        app_offset(flash, j) is None,
    ensures
        app_offset(flash, k) is None,
    decreases k - j,
{
    if j < k {
        lemma_app_offset_stays_none(flash, j, (k - 1) as nat);
    }
}

/// What slot `i` of the table holds after loading the apps of `flash` at
/// `start_of_flash`: the process built from the `i`-th app's header, if it
/// is an enabled app that the chip accepted; none otherwise.
#[verifier::opaque]
pub open spec fn loaded_slot<C: Chip>(
    chip: &C,
    flash: Seq<u8>,
    start_of_flash: usize,
    fault_response: FaultResponse,
    grant_count: usize,
    slot: Option<Process<'_, C>>,
    i: int,
) -> bool {
    let found = app_header(flash, i as nat);
    &&& slot matches Some(p) ==> {
        &&& found is Some
        &&& found->Some_0.1.is_app() && found->Some_0.1.enabled()
        &&& exists|rem: usize, rem_size: usize| #[trigger] created_process(p, found->Some_0.1,
            (start_of_flash + found->Some_0.0) as usize, rem, rem_size, fault_response, i as usize, grant_count)
    }
    &&& slot is None && found is Some && found->Some_0.1.is_app() && found->Some_0.1.enabled()
        ==> exists|rem: usize, rem_size: usize| #[trigger] create_refused(chip, found->Some_0.1,
            (start_of_flash + found->Some_0.0) as usize, rem, rem_size, grant_count)
}

/// Load the processes from flash into the kernel's process table.
///
/// The apps sit one after the other in `flash`, which starts at address
/// `start_of_flash`; their memory is taken in turn from the `app_memory_size`
/// bytes at `app_memory_start`. Slot `i` of the table gets the process
/// built from the `i`-th app in flash order, and stays empty when that app
/// is padding, disabled, or refused by the chip; loading stops at the first
/// flash without a valid header, or when an app's flash would reach past
/// `flash`. Every process starts with its entry point queued.
pub fn load_processes<'a, C: Chip, CAP: crate::capabilities::ProcessManagementCapability>(
    kernel: &mut Kernel<Process<'a, C>>,
    chip: &'a C,
    flash: &[u8],
    start_of_flash: usize,
    app_memory_start: usize,
    app_memory_size: usize,
    fault_response: FaultResponse,
    _capability: &CAP,
)
    requires
        old(kernel).wf(),
        forall|i: int| 0 <= i < old(kernel).spec_processes().len() ==> #[trigger] old(kernel).spec_processes()[i] is None,
        old(kernel).spec_work() + old(kernel).spec_processes().len() < usize::MAX,
        start_of_flash + flash@.len() <= usize::MAX,
        app_memory_start + app_memory_size <= usize::MAX,
    ensures
        final(kernel).wf(),
        final(kernel).spec_processes().len() == old(kernel).spec_processes().len(),
        final(kernel).spec_grant_counter() == old(kernel).spec_grant_counter(),
        final(kernel).spec_work() == old(kernel).spec_work() + crate::introspection::sum_over(
            final(kernel).spec_processes(), crate::introspection::loaded::<Process<'a, C>>()),
        forall|i: int| 0 <= i < final(kernel).spec_processes().len() ==> (#[trigger] final(kernel).spec_processes()[i] matches Some(p) ==> {
            &&& p.wf()
            &&& p.spec_app_idx() == i
            &&& p.spec_state() == State::Unstarted
            &&& p.spec_fault_response() == fault_response
            &&& p.spec_tasks().len() == 1
            &&& start_of_flash <= p.spec_memory().flash_start < start_of_flash + flash@.len()
            &&& app_memory_start <= p.spec_memory().mem_start
            &&& p.spec_memory().mem_end <= app_memory_start + app_memory_size
        }),
        forall|i: int| 0 <= i < final(kernel).spec_processes().len() ==> loaded_slot(chip, flash@, start_of_flash,
            fault_response, old(kernel).spec_grant_counter(), #[trigger] final(kernel).spec_processes()[i], i),
{
    let n = kernel.number_of_process_slots();
    let mut flash_offset_total: usize = 0;
    let mut app_memory_ptr = app_memory_start;
    let mut mem_left = app_memory_size;
    let mut i: usize = 0;
    while i < n
        invariant_except_break
            app_offset(flash@, i as nat) == Some(flash_offset_total as int),
        invariant
            forall|k: int| 0 <= k < i ==> loaded_slot(chip, flash@, start_of_flash,
                fault_response, old(kernel).spec_grant_counter(), #[trigger] kernel.spec_processes()[k], k),
            n == kernel.spec_processes().len(),
            n == old(kernel).spec_processes().len(),
            i <= n,
            kernel.wf(),
            kernel.spec_grant_counter() == old(kernel).spec_grant_counter(),
            flash_offset_total <= flash@.len(),
            start_of_flash + flash@.len() <= usize::MAX,
            app_memory_start <= app_memory_ptr,
            app_memory_ptr + mem_left <= app_memory_start + app_memory_size,
            app_memory_start + app_memory_size <= usize::MAX,
            kernel.spec_work() == old(kernel).spec_work() + crate::introspection::sum_over(
                kernel.spec_processes().take(i as int), crate::introspection::loaded::<Process<'a, C>>()),
            kernel.spec_work() <= old(kernel).spec_work() + i,
            old(kernel).spec_work() + n < usize::MAX,
            forall|k: int| i <= k < n ==> #[trigger] kernel.spec_processes()[k] is None,
            forall|k: int| 0 <= k < n ==> (#[trigger] kernel.spec_processes()[k] matches Some(p) ==> {
                &&& p.wf()
                &&& p.spec_app_idx() == k
                &&& p.spec_state() == State::Unstarted
                &&& p.spec_fault_response() == fault_response
                &&& p.spec_tasks().len() == 1
                &&& start_of_flash <= p.spec_memory().flash_start < start_of_flash + flash@.len()
                &&& app_memory_start <= p.spec_memory().mem_start
                &&& p.spec_memory().mem_end <= app_memory_ptr
            }),
        ensures
            i < n ==> forall|k: int| i <= k ==> #[trigger] app_header(flash@, k as nat) is None,
        decreases n - i,
    {
        let ghost procs = kernel.spec_processes();
        proof {
            kernel.lemma_work_covers();
        }
        let apps_in_flash_ptr = start_of_flash + flash_offset_total;
        let (process, flash_offset, memory_offset) = Process::create(
            kernel,
            chip,
            &flash[flash_offset_total..flash.len()],
            apps_in_flash_ptr,
            app_memory_ptr,
            mem_left,
            fault_response,
            i,
        );
        let ghost installed = process is Some;
        let ghost o = flash_offset_total as int;
        let ghost parsed = tbfheader::spec_parse_tbf_header(flash@.subrange(o, flash@.len() as int));
        proof {
            assert(flash@.subrange(o, flash@.len() as int) == flash@.subrange(flash_offset_total as int, flash@.len() as int));
            if parsed is Some {
                lemma_parsed_total_size_positive(flash@.subrange(o, flash@.len() as int));
            }
        }
        match process {
            None => {
                if flash_offset == 0 && memory_offset == 0 {
                    // We hit the end of the list of apps.
                    proof {
                        crate::introspection::lemma_sum_over_rest_empty(kernel.spec_processes(), crate::introspection::loaded::<Process<'a, C>>(), i as int);
                        assert(parsed is None);
                        assert(app_header(flash@, i as nat) is None);
                        assert(app_offset(flash@, (i + 1) as nat) is None);
                        assert forall|k: int| i <= k implies #[trigger] app_header(flash@, k as nat) is None by {
                            if k > i {
                                lemma_app_offset_stays_none(flash@, (i + 1) as nat, k as nat);
                            }
                        }
                    }
                    break;
                }
            },
            Some(p) => {
                proof {
                    assert(procs[i as int] is None);
                }
                kernel.install_process(i, p);
            },
        }
        proof {
            crate::introspection::lemma_sum_over_step(kernel.spec_processes(), crate::introspection::loaded::<Process<'a, C>>(), i as int);
            assert(kernel.spec_processes().take(i as int) =~= procs.take(i as int));
            lemma_loaded_slot(chip, flash@, start_of_flash, fault_response, old(kernel).spec_grant_counter(),
                o, i as int, kernel.spec_processes()[i as int], app_memory_ptr, mem_left);
            assert forall|k: int| 0 <= k < i + 1 implies loaded_slot(chip, flash@, start_of_flash,
                fault_response, old(kernel).spec_grant_counter(), #[trigger] kernel.spec_processes()[k], k) by {
                if k < i {
                    assert(kernel.spec_processes()[k] == procs[k]);
                }
            }
        }
        app_memory_ptr = app_memory_ptr + memory_offset;
        mem_left = mem_left - memory_offset;
        i += 1;
        if flash_offset > flash.len() - flash_offset_total {
            // The app's flash reaches past the end of the flash.
            proof {
                assert(app_offset(flash@, i as nat) is None);
                assert forall|k: int| i <= k implies #[trigger] app_header(flash@, k as nat) is None by {
                    lemma_app_offset_stays_none(flash@, i as nat, k as nat);
                }
            }
            break;
        }
        flash_offset_total = flash_offset_total + flash_offset;
    }
    proof {
        crate::introspection::lemma_sum_over_rest_empty(kernel.spec_processes(), crate::introspection::loaded::<Process<'a, C>>(), i as int);
        assert forall|k: int| 0 <= k < n implies loaded_slot(chip, flash@, start_of_flash,
            fault_response, old(kernel).spec_grant_counter(), #[trigger] kernel.spec_processes()[k], k) by {
            if k >= i {
                reveal(loaded_slot);
                assert(kernel.spec_processes()[k] is None);
                assert(app_header(flash@, k as nat) is None);
            }
        }
    }
}

/// Slot `i` holds what `create` made of the app at offset `o` of `flash`,
/// given the memory left at that point: it is the slot that loading
/// describes.
proof fn lemma_loaded_slot<C: Chip>(
    chip: &C,
    flash: Seq<u8>,
    start_of_flash: usize,
    fault_response: FaultResponse,
    grant_count: usize,
    o: int,
    i: int,
    slot: Option<Process<'_, C>>,
    rem: usize,
    rem_size: usize,
)
    requires
        0 <= o <= flash.len(),
        0 <= i,
        app_offset(flash, i as nat) == Some(o),
        start_of_flash + o <= usize::MAX,
        tbfheader::spec_parse_tbf_header(flash.subrange(o, flash.len() as int)) is None ==> slot is None,
        tbfheader::spec_parse_tbf_header(flash.subrange(o, flash.len() as int)) matches Some(h) ==> {
            &&& !(h.is_app() && h.enabled()) ==> slot is None
            &&& h.is_app() && h.enabled() && slot is None ==> create_refused(chip, h, (start_of_flash + o) as usize,
                rem, rem_size, grant_count)
            &&& slot matches Some(p) ==> h.is_app() && h.enabled() && created_process(p, h,
                (start_of_flash + o) as usize, rem, rem_size, fault_response, i as usize, grant_count)
        },
    ensures
        loaded_slot(chip, flash, start_of_flash, fault_response, grant_count, slot, i),
{
    reveal(loaded_slot);
    let parsed = tbfheader::spec_parse_tbf_header(flash.subrange(o, flash.len() as int));
    if parsed is Some {
        let h = parsed->Some_0;
        let found = app_header(flash, i as nat);
        assert(found == Some((o, h)));
        if slot is Some {
            assert(created_process(slot->Some_0, found->Some_0.1, (start_of_flash + found->Some_0.0) as usize, rem,
                rem_size, fault_response, i as usize, grant_count));
        } else if h.is_app() && h.enabled() {
            assert(create_refused(chip, found->Some_0.1, (start_of_flash + found->Some_0.0) as usize, rem, rem_size,
                grant_count));
        }
    } else {
        assert(app_header(flash, i as nat) is None);
    }
}

/// A valid header counts some bytes of flash.
pub proof fn lemma_parsed_total_size_positive(b: Seq<u8>)
    requires
        tbfheader::spec_parse_tbf_header(b) is Some,
    ensures
        tbfheader::spec_parse_tbf_header(b)->Some_0.total_size() > 0,
{
}

/// The marker the memory map prints after a region that outgrew its
/// allocation, or blanks of the same width.
pub fn exceeded_check(size: usize, allocated: usize) -> (r: &'static str)
    ensures
        size > allocated ==> r@ == " EXCEEDED!"@,
        size <= allocated ==> r@ == "          "@,
{
    if size > allocated {
        " EXCEEDED!"
    } else {
        "          "
    }
}

/// The numbers a process's memory map shows: its state and counters, the
/// boundaries and sizes of its grant, heap, data and stack regions, and of
/// its flash. Differences of pointers the process reported itself wrap
/// around when those pointers are out of order.
#[derive(Clone, Copy)]
pub struct ProcessDetail {
    pub state: State,
    pub events_queued: usize,
    pub syscall_count: usize,
    pub last_syscall: Option<Syscall>,
    pub dropped_callback_count: usize,
    pub restart_count: usize,
    pub sram_start: usize,
    pub sram_end: usize,
    pub sram_grant_start: usize,
    pub sram_grant_size: usize,
    pub sram_grant_allocated: usize,
    pub sram_heap_end: usize,
    pub sram_heap_start: Option<usize>,
    pub sram_heap_size: Option<usize>,
    pub sram_heap_allocated: Option<usize>,
    pub sram_data_size: Option<usize>,
    pub sram_stack_start: Option<usize>,
    pub sram_stack_size: Option<usize>,
    pub sram_stack_allocated: Option<usize>,
    pub sram_stack_bottom: usize,
    pub flash_start: usize,
    pub flash_end: usize,
    pub flash_protected_size: usize,
    pub flash_app_start: usize,
    pub flash_app_size: usize,
    pub flash_init_fn: usize,
}

/// `a - b` as a `usize` computes it, wrapping around below zero.
pub open spec fn wrapped_diff(a: usize, b: usize) -> usize {
    if a >= b { (a - b) as usize } else { (a - b + usize::MAX + 1) as usize }
}

/// The difference the memory map shows is the distance from `b` up to
/// `a`: adding it to `b` gives `a` back, around the end of the address
/// space if `a` is below `b`.
pub proof fn law_wrapped_diff_adds_back(a: usize, b: usize)
    ensures
        a >= b ==> wrapped_diff(a, b) == a - b,
        a < b ==> wrapped_diff(a, b) + b == a + usize::MAX + 1,
{
}

/// The number of tasks a process's queue has room for (one slot of the
/// ring stays free).
pub const TASK_QUEUE_SLOTS: usize = 10;

/// The memory an app gets for its stack and heap at first.
pub const INITIAL_APP_MEMORY_SIZE: usize = 3 * 1024;

/// The kernel-owned memory at the top of a new process's memory: the grant
/// pointer slots, the task queue and the process structure.
pub open spec fn initial_kernel_memory_size<C: Chip>(grant_count: usize) -> int {
    grant_count * GRANT_POINTER_SIZE + TASK_QUEUE_SLOTS * vstd::layout::size_of::<Task>()
        + vstd::layout::size_of::<Process<'static, C>>()
}

/// Whether a memory region at `start` of `size` bytes, as the MPU offered
/// it, lies within the `remaining_size` bytes at `remaining` and holds at
/// least `min_size` bytes.
pub open spec fn memory_fits(remaining: usize, remaining_size: usize, min_size: int, start: usize, size: usize) -> bool {
    &&& remaining <= start
    &&& min_size <= size
    &&& size <= remaining_size
    &&& start - remaining <= remaining_size - size
}

/// The minimum memory a process of header `h` needs on a chip `C`, with
/// `grant_count` grants: its app memory (at least the initial amount) and
/// the kernel's memory for it.
pub open spec fn minimum_memory_size<C: Chip>(h: tbfheader::TbfHeaderModel, grant_count: usize) -> int {
    let min_app_ram = if h.minimum_app_ram_size() < INITIAL_APP_MEMORY_SIZE {
        INITIAL_APP_MEMORY_SIZE as int
    } else {
        h.minimum_app_ram_size() as int
    };
    min_app_ram + initial_kernel_memory_size::<C>(grant_count)
}

/// A process needs the larger of its header's minimum RAM and the initial
/// 3 KiB for itself, plus the kernel's memory for it: a pointer of four
/// bytes per grant, room for ten tasks, and the process structure.
pub proof fn law_minimum_memory_size<C: Chip>(h: tbfheader::TbfHeaderModel, grant_count: usize)
    ensures
        minimum_memory_size::<C>(h, grant_count) >= 3072 + initial_kernel_memory_size::<C>(grant_count),
        minimum_memory_size::<C>(h, grant_count) >= h.minimum_app_ram_size() + initial_kernel_memory_size::<C>(grant_count),
        minimum_memory_size::<C>(h, grant_count) == 3072 + initial_kernel_memory_size::<C>(grant_count)
            || minimum_memory_size::<C>(h, grant_count) == h.minimum_app_ram_size() + initial_kernel_memory_size::<C>(grant_count),
        initial_kernel_memory_size::<C>(grant_count) == 4 * grant_count + 10 * vstd::layout::size_of::<Task>()
            + vstd::layout::size_of::<Process<'static, C>>(),
{
}

/// Why `create` builds no process for the enabled app of header `h` at
/// `flash_start`: its addresses or sizes leave the address space, or the
/// chip refuses it: its MPU gives no region for the app's flash, offers
/// memory that does not fit in what is left, or its userspace boundary
/// cannot set up the stack.
#[verifier::opaque]
pub open spec fn create_refused<C: Chip>(
    chip: &C,
    h: tbfheader::TbfHeaderModel,
    flash_start: usize,
    remaining_app_memory: usize,
    remaining_app_memory_size: usize,
    grant_count: usize,
) -> bool {
    let size = h.total_size();
    let min_size = minimum_memory_size::<C>(h, grant_count);
    let kernel_size = initial_kernel_memory_size::<C>(grant_count);
    ||| h.protected_size() > u32::MAX || h.init_function_offset() > u32::MAX
    ||| flash_start + size > usize::MAX || flash_start + h.init_function_offset() > usize::MAX
        || flash_start + h.protected_size() > usize::MAX
    ||| kernel_size > usize::MAX || min_size > usize::MAX
    ||| exists|m: &C::MPU, c: &mut <C::MPU as MPU>::MpuConfig| {
        &&& call_ensures(<C as Chip>::mpu, (chip,), m)
        &&& #[trigger] call_ensures(<C::MPU as MPU>::allocate_region,
            (m, flash_start, size as usize, size as usize, mpu::Permissions::ReadExecuteOnly, c), None::<mpu::Region>)
    }
    ||| exists|m: &C::MPU, c: &mut <C::MPU as MPU>::MpuConfig, a: Option<(usize, usize)>| {
        &&& call_ensures(<C as Chip>::mpu, (chip,), m)
        &&& #[trigger] call_ensures(<C::MPU as MPU>::allocate_app_memory_region,
            (m, remaining_app_memory, remaining_app_memory_size, min_size as usize, INITIAL_APP_MEMORY_SIZE,
            kernel_size as usize, mpu::Permissions::ReadWriteOnly, c), a)
        &&& !(a matches Some((start, len)) && memory_fits(remaining_app_memory, remaining_app_memory_size, min_size, start, len))
    }
    ||| exists|u: &C::UserspaceKernelBoundary, sp: usize,
        st: &mut <C::UserspaceKernelBoundary as UserspaceKernelBoundary>::StoredState, res: Result<usize, ()>| {
        &&& call_ensures(<C as Chip>::userspace_kernel_boundary, (chip,), u)
        &&& #[trigger] call_ensures(<C::UserspaceKernelBoundary as UserspaceKernelBoundary>::initialize_new_process,
            (u, sp, INITIAL_APP_MEMORY_SIZE, st), res)
        &&& res is Err
    }
}

/// The call that starts an app: its entry point, with the start of its
/// flash after the protected region, its memory, and its break.
pub open spec fn init_call(header: tbfheader::TbfHeaderModel, flash_start: usize, m: MemoryModel) -> Task {
    Task::FunctionCall(FunctionCall {
        source: FunctionCallSource::Kernel,
        pc: (flash_start + header.init_function_offset()) as usize,
        argument0: (flash_start + header.protected_size()) as usize,
        argument1: m.mem_start,
        argument2: (m.mem_end - m.mem_start) as usize,
        argument3: m.app_break,
    })
}

/// What `create` builds from the header `h` of an app at `flash_start`,
/// for slot `index`, in memory found after `remaining_app_memory`, with
/// `grant_count` grants.
pub open spec fn created_process<C: Chip>(
    p: Process<'_, C>,
    h: tbfheader::TbfHeaderModel,
    flash_start: usize,
    remaining_app_memory: usize,
    remaining_app_memory_size: usize,
    fault_response: FaultResponse,
    index: usize,
    grant_count: usize,
) -> bool {
    let m = p.spec_memory();
    let kernel_size = initial_kernel_memory_size::<C>(grant_count);
    let min_app_ram = if h.minimum_app_ram_size() < INITIAL_APP_MEMORY_SIZE {
        INITIAL_APP_MEMORY_SIZE as int
    } else {
        h.minimum_app_ram_size() as int
    };
    &&& p.wf()
    &&& p.spec_app_idx() == index
    &&& p.spec_state() == State::Unstarted
    &&& p.spec_fault_response() == fault_response
    &&& p.spec_process_name() == h.package_name()
    &&& p.spec_task_capacity() == TASK_QUEUE_SLOTS
    &&& p.spec_tasks() == seq![init_call(h, flash_start, m)]
    &&& p.spec_counters() == (ProcessCounters {
        syscall_count: 0,
        dropped_callback_count: 0,
        restart_count: 0,
        timeslice_expiration_count: 0,
    })
    &&& p.spec_grant_slots() == Seq::new(grant_count as nat, |i: int| 0usize)
    &&& p.spec_mpu_regions() == Seq::new(NUM_MPU_REGIONS as nat, |i: int| None::<mpu::Region>)
    &&& p.spec_heap_start() is None
    &&& p.spec_stack_start() is None
    &&& m.flash_start == flash_start
    &&& m.flash_end == flash_start + h.total_size()
    &&& remaining_app_memory <= m.mem_start
    &&& m.mem_end <= remaining_app_memory + remaining_app_memory_size
    &&& m.mem_end - m.mem_start >= min_app_ram + kernel_size
    &&& m.app_break == m.mem_start + INITIAL_APP_MEMORY_SIZE
    &&& m.original_app_break == m.app_break
    &&& m.original_stack_pointer == m.app_break
    &&& m.kernel_memory_break == m.mem_end - kernel_size
    &&& m.original_kernel_memory_break == m.kernel_memory_break
    &&& m.allow_high_water_mark == remaining_app_memory
}

/// A new process has not started and has exactly one queued task: a call
/// from the kernel to its entry point, which lies at the start of its flash
/// plus the header's size plus the main element's init offset; the call
/// gets the address after the protected region (the start of the flash plus
/// the header's size plus the protected size), the start of its memory, the
/// size of its memory, and its break, which lies 3 KiB above the start of
/// its memory. Its kernel memory takes the top of its memory.
pub proof fn law_new_process_starts_at_its_entry_point<'a, C: Chip>(
    p: Process<'a, C>,
    hd: tbfheader::TbfHeaderV2Model,
    main: tbfheader::TbfHeaderV2Main,
    flash_start: usize,
    remaining_app_memory: usize,
    remaining_app_memory_size: usize,
    fault_response: FaultResponse,
    index: usize,
    grant_count: usize,
)
    requires
        hd.main == Some(main),
        created_process(p, tbfheader::TbfHeaderModel::TbfHeaderV2(hd), flash_start, remaining_app_memory,
            remaining_app_memory_size, fault_response, index, grant_count),
        flash_start + hd.base.header_size + main.init_fn_offset <= usize::MAX,
        flash_start + hd.base.header_size + main.protected_size <= usize::MAX,
    ensures
        p.spec_state() == State::Unstarted,
        p.spec_tasks().len() == 1,
        p.spec_tasks()[0] == Task::FunctionCall(
            (FunctionCall {
                source: FunctionCallSource::Kernel,
                pc: (flash_start + hd.base.header_size + main.init_fn_offset) as usize,
                argument0: (flash_start + hd.base.header_size + main.protected_size) as usize,
                argument1: p.spec_memory().mem_start,
                argument2: (p.spec_memory().mem_end - p.spec_memory().mem_start) as usize,
                argument3: (p.spec_memory().mem_start + 3072) as usize,
            }),
        ),
        p.spec_memory().app_break == p.spec_memory().mem_start + 3072,
        p.spec_memory().kernel_memory_break == p.spec_memory().mem_end - initial_kernel_memory_size::<C>(grant_count),
        p.spec_memory().flash_start == flash_start,
        p.spec_memory().flash_end == flash_start + hd.base.total_size,
        p.spec_counters().restart_count == 0 && p.spec_counters().syscall_count == 0,
{
}

impl<'a, C: Chip> Process<'a, C> {
    /// Creates the process for the app whose flash starts at
    /// `app_flash_address` (`app_flash` holds the flash from there on), in
    /// the memory of `remaining_app_memory_size` bytes at
    /// `remaining_app_memory`, for slot `index`.
    ///
    /// Returns the process, if one was made; how much flash the app takes
    /// (0 if there is no valid header); and how much memory the process
    /// took, including padding before it. A header that does not describe
    /// an enabled app gives no process. The chip decides on the MPU regions
    /// and the process's initial state, and can refuse them; memory it
    /// offers outside the given memory, smaller than asked for, or sizes
    /// that leave the address space also give no process, as does a header
    /// whose protected size or entry point offset overflows 32 bits.
    pub fn create<P: ProcessType>(
        kernel: &mut Kernel<P>,
        chip: &'a C,
        app_flash: &[u8],
        app_flash_address: usize,
        remaining_app_memory: usize,
        remaining_app_memory_size: usize,
        fault_response: FaultResponse,
        index: usize,
    ) -> (r: (Option<Process<'a, C>>, usize, usize))
        requires
            old(kernel).spec_work() < usize::MAX,
            remaining_app_memory + remaining_app_memory_size <= usize::MAX,
        ensures
            final(kernel).spec_processes() == old(kernel).spec_processes(),
            final(kernel).spec_grant_counter() == old(kernel).spec_grant_counter(),
            old(kernel).wf() ==> final(kernel).wf(),
            tbfheader::spec_parse_tbf_header(app_flash@) is None ==> {
                &&& r.0 is None && r.1 == 0 && r.2 == 0
                &&& final(kernel).spec_grants_finalized() == old(kernel).spec_grants_finalized()
                &&& final(kernel).spec_work() == old(kernel).spec_work()
            },
            tbfheader::spec_parse_tbf_header(app_flash@) matches Some(h) ==> {
                &&& r.1 == h.total_size()
                &&& !(h.is_app() && h.enabled()) ==> r.0 is None
                    && final(kernel).spec_grants_finalized() == old(kernel).spec_grants_finalized()
                &&& h.is_app() && h.enabled() && r.0 is None ==> create_refused(chip, h, app_flash_address,
                    remaining_app_memory, remaining_app_memory_size, old(kernel).spec_grant_counter())
                &&& r.0 is None ==> r.2 == 0 && final(kernel).spec_work() == old(kernel).spec_work()
                &&& r.0 matches Some(p) ==> {
                    &&& h.is_app() && h.enabled()
                    &&& final(kernel).spec_grants_finalized()
                    &&& final(kernel).spec_work() == old(kernel).spec_work() + 1
                    &&& created_process(p, h, app_flash_address, remaining_app_memory, remaining_app_memory_size,
                        fault_response, index, old(kernel).spec_grant_counter())
                    &&& r.2 == p.spec_memory().mem_end - remaining_app_memory
                }
            },
    {
        proof {
            reveal(create_refused);
        }
        let tbf_header = match tbfheader::parse_and_validate_tbf_header(app_flash) {
            Some(h) => h,
            None => return (None, 0, 0),
        };
        let app_flash_size = tbf_header.get_total_size() as usize;
        // If this isn't an app (i.e. it is padding) or it is an app but it
        // isn't enabled, then we can skip it but increment past its flash.
        if !tbf_header.is_app() || !tbf_header.enabled() {
            return (None, app_flash_size, 0);
        }
        // Otherwise, actually load the app.
        if !tbf_header.offsets_fit() {
            return (None, app_flash_size, 0);
        }
        let mut min_app_ram_size = tbf_header.get_minimum_app_ram_size() as usize;
        let process_name = tbf_header.get_package_name().to_owned();
        let init_offset = tbf_header.get_init_function_offset() as usize;
        let protected_size = tbf_header.get_protected_size() as usize;
        if app_flash_address > usize::MAX - app_flash_size || app_flash_address > usize::MAX - init_offset
            || app_flash_address > usize::MAX - protected_size {
            return (None, app_flash_size, 0);
        }
        // Set up MPU region for this process.
        let mut mpu_config: <C::MPU as MPU>::MpuConfig = Default::default();
        // Allocate MPU region for flash.
        if chip.mpu().allocate_region(
            app_flash_address,
            app_flash_size,
            app_flash_size,
            mpu::Permissions::ReadExecuteOnly,
            &mut mpu_config,
        ).is_none() {
            return (None, app_flash_size, 0);
        }
        // Determine how much space we need in the application's memory
        // space just for kernel and grant state. We need to make sure we
        // allocate enough memory just for that.
        //
        // Make room for grant pointers.
        let grant_ptr_size = GRANT_POINTER_SIZE;
        let grant_ptrs_num = kernel.get_grant_count_and_finalize();
        vstd::layout::layout_for_type_is_valid::<Task>();
        vstd::layout::layout_for_type_is_valid::<Process<'a, C>>();
        let callback_size = core::mem::size_of::<Task>();
        let process_struct_offset = core::mem::size_of::<Process<'a, C>>();
        // Make room to store this process's metadata.
        let grant_ptrs_offset = match grant_ptrs_num.checked_mul(grant_ptr_size) {
            Some(v) => v,
            None => return (None, app_flash_size, 0),
        };
        // Allocate memory for callback ring buffer.
        let callback_len = TASK_QUEUE_SLOTS;
        let callbacks_offset = match callback_size.checked_mul(callback_len) {
            Some(v) => v,
            None => return (None, app_flash_size, 0),
        };
        // Initial sizes of the app-owned and kernel-owned parts of process
        // memory.
        let initial_kernel_memory_size = match grant_ptrs_offset.checked_add(callbacks_offset) {
            Some(v) => match v.checked_add(process_struct_offset) {
                Some(w) => w,
                None => return (None, app_flash_size, 0),
            },
            None => return (None, app_flash_size, 0),
        };
        let initial_app_memory_size = INITIAL_APP_MEMORY_SIZE;
        if min_app_ram_size < initial_app_memory_size {
            min_app_ram_size = initial_app_memory_size;
        }
        // Minimum memory size for the process.
        let min_total_memory_size = match min_app_ram_size.checked_add(initial_kernel_memory_size) {
            Some(v) => v,
            None => return (None, app_flash_size, 0),
        };
        // Determine where process memory will go and allocate MPU region
        // for app-owned memory.
        let (memory_start, memory_size) = match chip.mpu().allocate_app_memory_region(
            remaining_app_memory,
            remaining_app_memory_size,
            min_total_memory_size,
            initial_app_memory_size,
            initial_kernel_memory_size,
            mpu::Permissions::ReadWriteOnly,
            &mut mpu_config,
        ) {
            Some((memory_start, memory_size)) => (memory_start, memory_size),
            None => {
                // Failed to load process. Insufficient memory.
                return (None, app_flash_size, 0);
            },
        };
        if memory_start < remaining_app_memory || memory_size < min_total_memory_size
            || memory_size > remaining_app_memory_size || memory_start - remaining_app_memory > remaining_app_memory_size - memory_size {
            return (None, app_flash_size, 0);
        }
        // Compute how much padding before start of process memory.
        let memory_padding_size = memory_start - remaining_app_memory;
        let memory_end = memory_start + memory_size;
        // Set up initial grant region.
        let initial_stack_pointer = memory_start + initial_app_memory_size;
        let initial_sbrk_pointer = memory_start + initial_app_memory_size;
        // Set the initial process stack and memory to 3072 bytes.
        let kernel_memory_break = memory_end - initial_kernel_memory_size;
        // Clear the grant pointers.
        let mut grant_slots: Vec<usize> = Vec::new();
        let mut g: usize = 0;
        while g < grant_ptrs_num
            invariant
                g <= grant_ptrs_num,
                grant_slots@ == Seq::new(g as nat, |i: int| 0usize),
            decreases grant_ptrs_num - g,
        {
            grant_slots.push(0);
            g += 1;
        }
        // Set up the ring buffer for the process's tasks.
        let empty_call = Task::FunctionCall(FunctionCall {
            source: FunctionCallSource::Kernel,
            pc: 0,
            argument0: 0,
            argument1: 0,
            argument2: 0,
            argument3: 0,
        });
        let mut ring: Vec<Task> = Vec::new();
        let mut t: usize = 0;
        while t < callback_len
            invariant
                t <= callback_len,
                callback_len == TASK_QUEUE_SLOTS,
                ring@.len() == t,
            decreases callback_len - t,
        {
            ring.push(empty_call);
            t += 1;
        }
        let mut tasks = RingBuffer::new(ring);
        let mut process = Process {
            app_idx: index,
            chip: chip,
            memory_start: memory_start,
            memory_len: memory_size,
            kernel_memory_break: kernel_memory_break,
            original_kernel_memory_break: kernel_memory_break,
            app_break: initial_sbrk_pointer,
            original_app_break: initial_sbrk_pointer,
            allow_high_water_mark: remaining_app_memory,
            current_stack_pointer: initial_stack_pointer,
            original_stack_pointer: initial_stack_pointer,
            flash_start: app_flash_address,
            flash_len: app_flash_size,
            header: tbf_header,
            stored_state: Default::default(),
            state: State::Unstarted,
            fault_response: fault_response,
            mpu_config: mpu_config,
            mpu_regions: vec![None, None, None, None, None, None],
            tasks: tasks,
            process_name: process_name,
            debug: ProcessDebug {
                app_heap_start_pointer: None,
                app_stack_start_pointer: None,
                min_stack_pointer: initial_stack_pointer,
                syscall_count: 0,
                last_syscall: None,
                dropped_callback_count: 0,
                restart_count: 0,
                timeslice_expiration_count: 0,
            },
            grant_slots: grant_slots,
        };
        // Handle any architecture-specific requirements for a new process.
        let flash_app_start = app_flash_address + protected_size;
        process.tasks.enqueue(
            Task::FunctionCall(
                FunctionCall {
                    source: FunctionCallSource::Kernel,
                    pc: app_flash_address + init_offset,
                    argument0: flash_app_start,
                    argument1: memory_start,
                    argument2: memory_size,
                    argument3: initial_sbrk_pointer,
                },
            ),
        );
        let stack_pointer = process.current_stack_pointer;
        let stack_size = stack_pointer - memory_start;
        assert(stack_size == INITIAL_APP_MEMORY_SIZE);
        let boundary = chip.userspace_kernel_boundary();
        let initialized = boundary.initialize_new_process(
            stack_pointer,
            stack_size,
            &mut process.stored_state,
        );
        match initialized {
            Ok(new_stack_pointer) => {
                process.current_stack_pointer = new_stack_pointer;
                process.debug_set_max_stack_depth();
            },
            Err(_) => {
                // We couldn't initialize the architecture-specific state
                // for this process. This shouldn't happen since the app was
                // able to be started before, but at this point the app is
                // no longer valid. The best thing we can do now is to
                // disable this app.
                return (None, app_flash_size, 0);
            },
        }
        kernel.increment_work();
        proof {
            let h = tbf_header@;
            let m = process.spec_memory();
            assert(process.wf());
            assert(m.mem_end == memory_end);
            assert(process.spec_tasks() == seq![init_call(h, app_flash_address, m)]);
            assert(process.spec_grant_slots() == Seq::new(grant_ptrs_num as nat, |i: int| 0usize));
            assert(process.spec_mpu_regions() == Seq::new(NUM_MPU_REGIONS as nat, |i: int| None::<mpu::Region>));
            assert(created_process(process, h, app_flash_address, remaining_app_memory, remaining_app_memory_size,
                fault_response, index, grant_ptrs_num));
        }
        (Some(process), app_flash_size, memory_padding_size + memory_size)
    }

    /// The chip the process runs on.
    pub closed spec fn spec_chip(&self) -> &'a C {
        self.chip
    }

    /// The MPU configuration of the process.
    pub closed spec fn spec_mpu_config(&self) -> <C::MPU as MPU>::MpuConfig {
        self.mpu_config
    }

    /// The process's header.
    pub closed spec fn spec_header(&self) -> tbfheader::TbfHeaderModel {
        self.header@
    }

    /// The syscall the process made last, if any.
    pub closed spec fn spec_last_syscall(&self) -> Option<Syscall> {
        self.debug.last_syscall
    }

    /// The numbers of the process's memory map.
    pub fn process_detail(&self) -> (r: ProcessDetail)
        requires
            self.wf(),
        ensures
            ({
                let m = self.spec_memory();
                let c = self.spec_counters();
                let protected = self.spec_flash_non_protected_start() - m.flash_start;
                &&& r.state == self.spec_state()
                &&& r.events_queued == self.spec_tasks().len()
                &&& r.syscall_count == c.syscall_count
                &&& r.last_syscall == self.spec_last_syscall()
                &&& r.dropped_callback_count == c.dropped_callback_count
                &&& r.restart_count == c.restart_count
                &&& r.sram_start == m.mem_start
                &&& r.sram_end == m.mem_end
                &&& r.sram_grant_start == m.kernel_memory_break
                &&& r.sram_grant_size == wrapped_diff(m.mem_end, m.kernel_memory_break)
                &&& r.sram_grant_allocated == r.sram_grant_size
                &&& r.sram_heap_end == m.app_break
                &&& r.sram_heap_start == self.spec_heap_start()
                &&& r.sram_stack_start == self.spec_stack_start()
                &&& r.sram_stack_bottom == self.spec_min_stack_pointer()
                &&& r.sram_heap_size == match self.spec_heap_start() {
                    Some(h) => Some(wrapped_diff(m.app_break, h)),
                    None => None,
                }
                &&& r.sram_heap_allocated == match self.spec_heap_start() {
                    Some(h) => Some(wrapped_diff(m.kernel_memory_break, h)),
                    None => None,
                }
                &&& r.sram_data_size == match (self.spec_heap_start(), self.spec_stack_start()) {
                    (Some(h), Some(st)) => Some(wrapped_diff(h, st)),
                    _ => None,
                }
                &&& r.sram_stack_size == match self.spec_stack_start() {
                    Some(st) => Some(wrapped_diff(st, self.spec_min_stack_pointer())),
                    None => None,
                }
                &&& r.sram_stack_allocated == match self.spec_stack_start() {
                    Some(st) => Some(wrapped_diff(st, m.mem_start)),
                    None => None,
                }
                &&& r.flash_start == m.flash_start
                &&& r.flash_end == m.flash_end
                &&& r.flash_protected_size == protected
                &&& r.flash_app_start == self.spec_flash_non_protected_start()
                &&& r.flash_app_size == wrapped_diff(m.flash_end, self.spec_flash_non_protected_start())
                &&& r.flash_init_fn == m.flash_start + self.spec_header().init_function_offset()
            }),
    {
        let flash_end = self.flash_start + self.flash_len;
        let flash_start = self.flash_start;
        let flash_protected_size = self.header.get_protected_size() as usize;
        let flash_app_start = flash_start + flash_protected_size;
        let flash_app_size = flash_end.wrapping_sub(flash_app_start);
        let flash_init_fn = flash_start + self.header.get_init_function_offset() as usize;
        let sram_end = self.memory_start + self.memory_len;
        let sram_grant_start = self.kernel_memory_break;
        let sram_heap_end = self.app_break;
        let sram_heap_start = self.debug.app_heap_start_pointer;
        let sram_stack_start = self.debug.app_stack_start_pointer;
        let sram_stack_bottom = self.debug.min_stack_pointer;
        let sram_start = self.memory_start;
        let sram_grant_size = sram_end.wrapping_sub(sram_grant_start);
        let sram_grant_allocated = sram_end.wrapping_sub(sram_grant_start);
        let (sram_heap_size, sram_heap_allocated) = match sram_heap_start {
            Some(h) => (Some(sram_heap_end.wrapping_sub(h)), Some(sram_grant_start.wrapping_sub(h))),
            None => (None, None),
        };
        let sram_data_size = match (sram_heap_start, sram_stack_start) {
            (Some(h), Some(st)) => Some(h.wrapping_sub(st)),
            _ => None,
        };
        let (sram_stack_size, sram_stack_allocated) = match sram_stack_start {
            Some(st) => (Some(st.wrapping_sub(sram_stack_bottom)), Some(st.wrapping_sub(sram_start))),
            None => (None, None),
        };
        ProcessDetail {
            state: self.state,
            events_queued: self.tasks.len(),
            syscall_count: self.debug.syscall_count,
            last_syscall: self.debug.last_syscall,
            dropped_callback_count: self.debug.dropped_callback_count,
            restart_count: self.debug.restart_count,
            sram_start,
            sram_end,
            sram_grant_start,
            sram_grant_size,
            sram_grant_allocated,
            sram_heap_end,
            sram_heap_start,
            sram_heap_size,
            sram_heap_allocated,
            sram_data_size,
            sram_stack_start,
            sram_stack_size,
            sram_stack_allocated,
            sram_stack_bottom,
            flash_start,
            flash_end,
            flash_protected_size,
            flash_app_start,
            flash_app_size,
            flash_init_fn,
        }
    }

    /// The current stack pointer.
    pub fn sp(&self) -> (r: usize)
        ensures
            r == self.spec_memory().current_stack_pointer,
    {
        self.current_stack_pointer
    }

    /// Whether the buffer lies within the memory the process owns.
    pub fn in_app_owned_memory(&self, buf_start_addr: usize, size: usize) -> (r: bool)
        requires
            self.wf(),
        ensures
            r == in_app_owned_memory(self.spec_memory(), buf_start_addr as int, size as int),
    {
        let buf_end_addr = buf_start_addr.wrapping_add(size);
        buf_end_addr >= buf_start_addr && buf_start_addr >= self.memory_start && buf_end_addr <= self.app_break
    }

    /// Marks every grant as not yet allocated for this process.
    fn grant_ptrs_reset(&mut self)
        ensures
            final(self).grant_slots@ == Seq::new(old(self).grant_slots@.len(), |i: int| 0usize),
            *final(self) == (Process { grant_slots: final(self).grant_slots, ..*old(self) }),
    {
        let n = self.grant_slots.len();
        let mut grant_num: usize = 0;
        while grant_num < n
            invariant
                grant_num <= n,
                n == self.grant_slots@.len(),
                forall|i: int| 0 <= i < grant_num ==> self.grant_slots@[i] == 0usize,
                *self == (Process { grant_slots: self.grant_slots, ..*old(self) }),
            decreases n - grant_num,
        {
            self.grant_slots.set(grant_num, 0);
            grant_num += 1;
        }
        assert(self.grant_slots@ =~= Seq::new(old(self).grant_slots@.len(), |i: int| 0usize));
    }

    /// Lowers the recorded minimum stack pointer to the current one.
    fn debug_set_max_stack_depth(&mut self)
        ensures
            final(self).debug.min_stack_pointer == if old(self).current_stack_pointer < old(self).debug.min_stack_pointer {
                old(self).current_stack_pointer
            } else {
                old(self).debug.min_stack_pointer
            },
            *final(self) == (Process {
                debug: ProcessDebug { min_stack_pointer: final(self).debug.min_stack_pointer, ..old(self).debug },
                ..*old(self)
            }),
    {
        if self.current_stack_pointer < self.debug.min_stack_pointer {
            self.debug.min_stack_pointer = self.current_stack_pointer;
        }
    }
}

} // verus!
