//! Data structures for passing application callbacks to the kernel.

use vstd::prelude::*;
use crate::process::{self, ProcessType};
use crate::sched::Kernel;

verus! {

/// Userspace app identifier: the index of the app's slot in the kernel's
/// process table.
#[derive(Clone, Copy, Debug, PartialEq, Eq, Structural)]
pub struct AppId {
    idx: usize,
}

impl AppId {
    pub closed spec fn spec_idx(self) -> usize {
        self.idx
    }

    /// The identifier of the app in slot `idx`.
    pub fn new(idx: usize) -> (r: AppId)
        ensures
            r.spec_idx() == idx,
    {
        AppId { idx: idx }
    }

    /// The index of the app's slot in the kernel's process table.
    pub fn idx(&self) -> (r: usize)
        ensures
            r == self.spec_idx(),
    {
        self.idx
    }

    /// Returns the full address of the start and end of the flash region
    /// that the app owns and can write to. This includes the app's code
    /// and data and any padding at the end of the app. It does not include
    /// the TBF header, or any space that the kernel is using for any
    /// potential bookkeeping. (0, 0) if there is no such app.
    pub fn get_editable_flash_range<P: ProcessType>(&self, kernel: &Kernel<P>) -> (r: (usize, usize))
        requires
            kernel.wf(),
        ensures
            r == if self.spec_idx() < kernel.spec_processes().len() && kernel.spec_processes()[self.spec_idx() as int] is Some {
                let p = kernel.spec_processes()[self.spec_idx() as int]->Some_0;
                (p.spec_flash_non_protected_start(), p.spec_memory().flash_end)
            } else {
                (0usize, 0usize)
            },
    {
        proof {
            if self.idx < kernel.spec_processes().len() {
                kernel.lemma_slot_facts(self.idx as int);
            }
        }
        kernel.process_map_or((0, 0), self.idx, |process: &P| -> (v: (usize, usize))
            requires
                process.wf(),
            ensures
                v == (process.spec_flash_non_protected_start(), process.spec_memory().flash_end),
            {
                let start = process.flash_non_protected_start();
                let end = process.flash_end();
                (start, end)
            })
    }
}

/// Type for specifying an individual callback: the driver and the
/// subscription number within it.
#[derive(Clone, Copy, Debug, PartialEq, Eq, Structural)]
pub struct CallbackId {
    pub driver_num: usize,
    pub subscribe_num: usize,
}

/// A callback function that a process registered with a driver: the
/// process, the subscription it belongs to, the value to pass back, and the
/// address of the function in the process's memory.
#[derive(Clone, Copy, Debug, PartialEq, Eq, Structural)]
pub struct Callback {
    app_id: AppId,
    callback_id: CallbackId,
    appdata: usize,
    fn_ptr: usize,
}

/// The table `after` is `before` with the call of `cb` with arguments
/// `r0`, `r1`, `r2` queued for the callback's process, as that process
/// queues a task; a table without that process is left alone.
pub open spec fn callback_queued<P: ProcessType>(before: Seq<Option<P>>, after: Seq<Option<P>>, cb: Callback, r0: usize, r1: usize, r2: usize) -> bool {
    let idx = cb.spec_app_id().spec_idx();
    let task = process::Task::FunctionCall(cb.spec_function_call(r0, r1, r2));
    &&& (idx >= before.len() || before[idx as int] is None) ==> after == before
    &&& idx < before.len() ==> (before[idx as int] matches Some(p) ==> exists|q: P, ok: bool| {
        &&& after == before.update(idx as int, Some(q))
        &&& crate::sched::enqueue_outcome(p, q, task, ok)
    })
}

/// Scheduling callback `cb` with arguments `r0`, `r1`, `r2`, when the
/// callback's process `p` takes the task (leaving `q`), appends to its
/// queue one call of the callback's function pointer, from the driver
/// subscription the callback belongs to, whose first three arguments are
/// `r0`, `r1`, `r2` in that order and whose fourth is the callback's own
/// value; the tasks already queued stay as they were.
pub proof fn law_scheduled_call_carries_its_arguments<P: ProcessType>(
    cb: Callback,
    r0: usize,
    r1: usize,
    r2: usize,
    p: P,
    q: P,
)
    requires
        crate::sched::enqueue_outcome(p, q, process::Task::FunctionCall(cb.spec_function_call(r0, r1, r2)), true),
    ensures
        q.spec_tasks().len() == p.spec_tasks().len() + 1,
        q.spec_tasks().drop_last() == p.spec_tasks(),
        q.spec_tasks().last() matches process::Task::FunctionCall(fc) && {
            &&& fc.argument0 == r0
            &&& fc.argument1 == r1
            &&& fc.argument2 == r2
            &&& fc.argument3 == cb.spec_appdata()
            &&& fc.pc == cb.spec_fn_ptr()
            &&& fc.source == process::FunctionCallSource::Driver(cb.spec_callback_id())
        },
{
    assert(q.spec_tasks().drop_last() =~= p.spec_tasks());
}

impl Callback {
    pub closed spec fn spec_app_id(self) -> AppId {
        self.app_id
    }

    pub closed spec fn spec_callback_id(self) -> CallbackId {
        self.callback_id
    }

    pub closed spec fn spec_appdata(self) -> usize {
        self.appdata
    }

    pub closed spec fn spec_fn_ptr(self) -> usize {
        self.fn_ptr
    }

    /// The callback at `fn_ptr` in the memory of `app_id`.
    pub fn new(app_id: AppId, callback_id: CallbackId, appdata: usize, fn_ptr: usize) -> (r: Callback)
        ensures
            r.spec_app_id() == app_id,
            r.spec_callback_id() == callback_id,
            r.spec_appdata() == appdata,
            r.spec_fn_ptr() == fn_ptr,
    {
        Callback { app_id, callback_id, appdata, fn_ptr }
    }

    /// The function call that scheduling this callback with the given
    /// arguments queues.
    pub open spec fn spec_function_call(self, r0: usize, r1: usize, r2: usize) -> process::FunctionCall {
        process::FunctionCall {
            source: process::FunctionCallSource::Driver(self.spec_callback_id()),
            argument0: r0,
            argument1: r1,
            argument2: r2,
            argument3: self.spec_appdata(),
            pc: self.spec_fn_ptr(),
        }
    }

    /// The process the callback belongs to.
    pub fn app_id(&self) -> (r: AppId)
        ensures
            r == self.spec_app_id(),
    {
        self.app_id
    }

    /// Queues a call of the callback with arguments `r0`, `r1`, `r2` (and
    /// the callback's own value) for its process; false if there is no
    /// such process, it has faulted or its queue is full.
    pub fn schedule<P: ProcessType>(&mut self, kernel: &mut Kernel<P>, r0: usize, r1: usize, r2: usize) -> (r: bool)
        requires
            old(kernel).wf(),
            old(kernel).spec_work() < usize::MAX,
            ({
                let idx = old(self).spec_app_id().spec_idx();
                idx < old(kernel).spec_processes().len() ==> (old(kernel).spec_processes()[idx as int] matches Some(p)
                    ==> p.spec_counters().dropped_callback_count < usize::MAX)
            }),
        ensures
            *final(self) == *old(self),
            final(kernel).wf(),
            final(kernel).spec_grant_counter() == old(kernel).spec_grant_counter(),
            final(kernel).spec_grants_finalized() == old(kernel).spec_grants_finalized(),
            crate::sched::same_identities(old(kernel).spec_processes(), final(kernel).spec_processes()),
            ({
                let idx = old(self).spec_app_id().spec_idx();
                let task = process::Task::FunctionCall(old(self).spec_function_call(r0, r1, r2));
                &&& idx >= old(kernel).spec_processes().len() || old(kernel).spec_processes()[idx as int] is None ==> {
                    &&& !r
                    &&& final(kernel).spec_processes() == old(kernel).spec_processes()
                    &&& final(kernel).spec_work() == old(kernel).spec_work()
                }
                &&& idx < old(kernel).spec_processes().len() ==> (old(kernel).spec_processes()[idx as int] matches Some(p)
                    ==> exists|q: P| {
                        &&& final(kernel).spec_processes() == old(kernel).spec_processes().update(idx as int, Some(q))
                        &&& crate::sched::enqueue_outcome(p, q, task, r)
                        &&& final(kernel).spec_work() == if p.spec_state() == process::State::Fault {
                            old(kernel).spec_work() as int
                        } else {
                            old(kernel).spec_work() + 1
                        }
                    })
            }),
    {
        kernel.enqueue_task(
            self.app_id.idx(),
            process::Task::FunctionCall(
                process::FunctionCall {
                    source: process::FunctionCallSource::Driver(self.callback_id),
                    argument0: r0,
                    argument1: r1,
                    argument2: r2,
                    argument3: self.appdata,
                    pc: self.fn_ptr,
                },
            ),
        )
    }
}

} // verus!
