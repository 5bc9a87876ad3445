//! Data structure for passing application memory to the kernel.
//!
//! Process memory is identified by its address and length; the kernel's
//! drivers reach its content through the chip's memory, outside this
//! library.

use vstd::prelude::*;
use crate::callback::AppId;
use crate::process::ProcessType;
use crate::sched::{Kernel, slot_at};
use core::marker::PhantomData;

verus! {

/// Type for specifying an AppSlice is hidden from the kernel.
#[derive(Debug)]
pub struct Private;

/// Type for specifying an AppSlice is shared with the kernel.
#[derive(Debug)]
pub struct Shared;

/// A pointer into a process's memory, with the process that owns it.
pub struct AppPtr<L, T> {
    ptr: usize,
    process: AppId,
    _phantom: PhantomData<(L, T)>,
}

impl<L, T> AppPtr<L, T> {
    pub closed spec fn spec_ptr(&self) -> usize {
        self.ptr
    }

    pub closed spec fn spec_process(&self) -> AppId {
        self.process
    }

    fn new(ptr: usize, appid: AppId) -> (r: AppPtr<L, T>)
        ensures
            r.spec_ptr() == ptr,
            r.spec_process() == appid,
    {
        AppPtr { ptr: ptr, process: appid, _phantom: PhantomData }
    }
}

/// Buffer of memory shared from an app to the kernel: its start address,
/// its length and the app that owns it.
pub struct AppSlice<L, T> {
    ptr: AppPtr<L, T>,
    len: usize,
}

impl<L, T> AppSlice<L, T> {
    pub closed spec fn spec_len(&self) -> usize {
        self.len
    }

    pub closed spec fn spec_ptr(&self) -> usize {
        self.ptr.spec_ptr()
    }

    pub closed spec fn spec_owner(&self) -> AppId {
        self.ptr.spec_process()
    }

    /// The slice of `len` elements at `ptr` in the memory of `appid`.
    pub fn new(ptr: usize, len: usize, appid: AppId) -> (r: AppSlice<L, T>)
        ensures
            r.spec_ptr() == ptr,
            r.spec_len() == len,
            r.spec_owner() == appid,
    {
        AppSlice { ptr: AppPtr::new(ptr, appid), len: len }
    }

    /// Number of elements in slice.
    pub fn len(&self) -> (r: usize)
        ensures
            r == self.spec_len(),
    {
        self.len
    }

    /// Get the raw pointer to the buffer, as an address.
    pub fn ptr(&self) -> (r: usize)
        ensures
            r == self.spec_ptr(),
    {
        self.ptr.ptr
    }

    /// The app that owns the buffer.
    pub fn owner(&self) -> (r: AppId)
        ensures
            r == self.spec_owner(),
    {
        self.ptr.process
    }

    /// Gives process `appid` access to the buffer through a new MPU region
    /// covering it; false if `appid` owns the buffer, does not exist, or
    /// gets no region.
    pub fn expose_to<P: ProcessType>(&self, kernel: &mut Kernel<P>, appid: AppId) -> (r: bool)
        requires
            old(kernel).wf(),
        ensures
            final(kernel).wf(),
            final(kernel).spec_work() == old(kernel).spec_work(),
            final(kernel).spec_grant_counter() == old(kernel).spec_grant_counter(),
            final(kernel).spec_grants_finalized() == old(kernel).spec_grants_finalized(),
            final(kernel).spec_processes().len() == old(kernel).spec_processes().len(),
            crate::sched::same_schedule(old(kernel).spec_processes(), final(kernel).spec_processes()),
            appid.spec_idx() == self.spec_owner().spec_idx() ==> !r && final(kernel).spec_processes() == old(kernel).spec_processes(),
            slot_at(old(kernel).spec_processes(), appid.spec_idx()) is None ==> !r
                && final(kernel).spec_processes() == old(kernel).spec_processes(),
            slot_at(old(kernel).spec_processes(), appid.spec_idx()) matches Some(p) ==> exists|q: P| {
                &&& final(kernel).spec_processes() == old(kernel).spec_processes().update(appid.spec_idx() as int, Some(q))
                &&& q.wf()
                &&& crate::process::same_identity(&p, &q)
                &&& q.spec_state() == p.spec_state()
                &&& q.spec_tasks() == p.spec_tasks()
                &&& q.spec_counters() == p.spec_counters()
                &&& q.spec_memory() == p.spec_memory()
                &&& q.spec_grant_slots() == p.spec_grant_slots()
            },
    {
        if appid.idx() != self.ptr.process.idx() {
            kernel.process_add_mpu_region(appid.idx(), self.ptr(), self.len(), self.len()).is_some()
        } else {
            proof {
                if slot_at(kernel.spec_processes(), appid.spec_idx()) is Some {
                    let p = slot_at(kernel.spec_processes(), appid.spec_idx())->Some_0;
                    kernel.lemma_slot_facts(appid.spec_idx() as int);
                    assert(kernel.spec_processes() == kernel.spec_processes().update(appid.spec_idx() as int, Some(p)));
                    assert(p.wf());
                }
            }
            false
        }
    }
}

} // verus!
