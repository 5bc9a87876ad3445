//! Data structure to store references to grants in process memory.
//!
//! A grant is a region of kernel-owned memory in every process, holding a
//! value of type `T` for that process. Each process records the address of
//! its region in a grant pointer slot; the value itself is kept by the
//! `Grant`, one for each process slot.

use vstd::prelude::*;
use core::marker::PhantomData;
use crate::callback::AppId;
use crate::process::{Error, ProcessType};
use crate::sched::Kernel;

verus! {

/// Region of process memory reserved for the kernel.
pub struct Grant<T: Default> {
    grant_num: usize,
    values: Vec<T>,
}

/// A grant region of one process: the process and the region's address.
pub struct AppliedGrant<T> {
    appid: AppId,
    grant: usize,
    _phantom: PhantomData<T>,
}

impl<T> AppliedGrant<T> {
    pub closed spec fn spec_appid(&self) -> AppId {
        self.appid
    }

    pub closed spec fn spec_address(&self) -> usize {
        self.grant
    }

    /// The process the region belongs to.
    pub fn appid(&self) -> (r: AppId)
        ensures
            r == self.spec_appid(),
    {
        self.appid
    }

    /// The address of the region.
    pub fn address(&self) -> (r: usize)
        ensures
            r == self.spec_address(),
    {
        self.grant
    }
}

/// A grant value lent out for one process, together with that process.
pub struct Borrowed<'a, T: 'a> {
    data: &'a mut T,
    appid: AppId,
}

impl<'a, T> Borrowed<'a, T> {
    pub closed spec fn spec_data(&self) -> T {
        *self.data
    }

    pub closed spec fn spec_appid(&self) -> AppId {
        self.appid
    }

    /// Lends `data` out for process `appid`.
    pub fn new(data: &'a mut T, appid: AppId) -> (r: Borrowed<'a, T>)
        ensures
            r.spec_data() == *old(data),
            r.spec_appid() == appid,
    {
        Borrowed { data: data, appid: appid }
    }

    /// The process the value is lent out for.
    pub fn appid(&self) -> (r: AppId)
        ensures
            r == self.spec_appid(),
    {
        self.appid
    }

    /// The value.
    pub fn get(&self) -> (r: &T)
        ensures
            *r == self.spec_data(),
    {
        &*self.data
    }

    /// The value, for writing.
    pub fn get_mut(&mut self) -> (r: &mut T)
        ensures
            *r == old(self).spec_data(),
            final(self).spec_data() == *final(r),
            final(self).spec_appid() == old(self).spec_appid(),
    {
        &mut *self.data
    }
}

/// Allocates further memory for a process from its grant region.
pub struct Allocator {
    appid: AppId,
}

/// A value the kernel allocated in a process's memory: the value, its
/// address, and the process.
pub struct Owned<T> {
    data: T,
    address: usize,
    appid: AppId,
}

impl<T> Owned<T> {
    pub closed spec fn spec_data(&self) -> T {
        self.data
    }

    pub closed spec fn spec_address(&self) -> usize {
        self.address
    }

    pub closed spec fn spec_appid(&self) -> AppId {
        self.appid
    }

    /// The process the value belongs to.
    pub fn appid(&self) -> (r: AppId)
        ensures
            r == self.spec_appid(),
    {
        self.appid
    }

    /// The address of the value in the process's memory.
    pub fn address(&self) -> (r: usize)
        ensures
            r == self.spec_address(),
    {
        self.address
    }
}

impl Allocator {
    pub closed spec fn spec_appid(&self) -> AppId {
        self.appid
    }

    /// An allocator for the process `appid`.
    pub fn new(appid: AppId) -> (r: Allocator)
        ensures
            r.spec_appid() == appid,
    {
        Allocator { appid }
    }

    /// Allocates room for `data` in the memory of the allocator's process
    /// and keeps `data` there.
    pub fn allocate<T, P: ProcessType>(&mut self, kernel: &mut Kernel<P>, data: T) -> (r: Result<Owned<T>, Error>)
        requires
            old(kernel).wf(),
        ensures
            final(kernel).wf(),
            *final(self) == *old(self),
            final(kernel).spec_work() == old(kernel).spec_work(),
            final(kernel).spec_grant_counter() == old(kernel).spec_grant_counter(),
            final(kernel).spec_grants_finalized() == old(kernel).spec_grants_finalized(),
            final(kernel).spec_processes().len() == old(kernel).spec_processes().len(),
            crate::sched::same_schedule(old(kernel).spec_processes(), final(kernel).spec_processes()),
            r matches Ok(owned) ==> {
                &&& owned.spec_data() == data
                &&& owned.spec_appid() == old(self).spec_appid()
            },
            ({
                let idx = old(self).spec_appid().spec_idx();
                &&& idx >= old(kernel).spec_processes().len() || old(kernel).spec_processes()[idx as int] is None
                    ==> r == Err::<Owned<T>, Error>(Error::NoSuchApp)
                    && final(kernel).spec_processes() == old(kernel).spec_processes()
                &&& idx < old(kernel).spec_processes().len() ==> (old(kernel).spec_processes()[idx as int] matches Some(p)
                    ==> exists|q: P| {
                        &&& final(kernel).spec_processes() == old(kernel).spec_processes().update(idx as int, Some(q))
                        &&& crate::sched::allocate_outcome(p, q,
                            vstd::layout::size_of::<T>() as usize, vstd::layout::align_of::<T>() as usize,
                            match r { Ok(owned) => Ok(owned.spec_address()), Err(e) => Err(e) })
                    })
            }),
    {
        vstd::layout::layout_for_type_is_valid::<T>();
        let size = core::mem::size_of::<T>();
        let align = core::mem::align_of::<T>();
        match kernel.process_allocate(self.appid.idx(), size, align) {
            Ok(address) => Ok(Owned { data, address, appid: self.appid }),
            Err(e) => Err(e),
        }
    }
}

impl<T: Default> Grant<T> {
    pub closed spec fn spec_grant_num(&self) -> usize {
        self.grant_num
    }

    /// The grant's value for each process slot, for the slots that have
    /// had one.
    pub closed spec fn spec_values(&self) -> Seq<T> {
        self.values@
    }

    /// The grant with the given index, with no values yet.
    pub fn new(grant_index: usize) -> (r: Grant<T>)
        ensures
            r.spec_grant_num() == grant_index,
            r.spec_values() == Seq::<T>::empty(),
    {
        Grant { grant_num: grant_index, values: Vec::new() }
    }

    /// The grant region of process `appid`, if the process has one.
    pub fn grant<P: ProcessType>(&self, kernel: &Kernel<P>, appid: AppId) -> (r: Option<AppliedGrant<T>>)
        requires
            kernel.wf(),
            self.spec_grant_num() < kernel.spec_grant_counter(),
        ensures
            ({
                let idx = appid.spec_idx();
                if idx < kernel.spec_processes().len() && kernel.spec_processes()[idx as int] is Some
                    && kernel.spec_processes()[idx as int]->Some_0.spec_grant_slots()[self.spec_grant_num() as int] != 0 {
                    &&& r matches Some(g)
                    &&& r->Some_0.spec_appid() == appid
                    &&& r->Some_0.spec_address() == kernel.spec_processes()[idx as int]->Some_0.spec_grant_slots()[self.spec_grant_num() as int]
                } else {
                    r is None
                }
            }),
    {
        let grant_num = self.grant_num;
        proof {
            if appid.spec_idx() < kernel.spec_processes().len() {
                kernel.lemma_slot_facts(appid.spec_idx() as int);
            }
        }
        let slot = kernel.process_map_or(0, appid.idx(), |p: &P| -> (v: usize)
            requires
                p.wf(),
                grant_num < p.spec_grant_slots().len(),
            ensures
                v == p.spec_grant_slots()[grant_num as int],
            { p.grant_slot(grant_num) });
        if slot == 0 {
            None
        } else {
            Some(AppliedGrant { appid: appid, grant: slot, _phantom: PhantomData })
        }
    }

    /// Gives access to the grant's value for process `appid`. If the
    /// process has no region for this grant yet, one is allocated in its
    /// memory and holds a fresh default value.
    pub fn enter<P: ProcessType>(&mut self, kernel: &mut Kernel<P>, appid: AppId) -> (r: Result<&mut T, Error>)
        requires
            old(kernel).wf(),
            old(self).spec_grant_num() < old(kernel).spec_grant_counter(),
        ensures
            final(kernel).wf(),
            final(self).spec_grant_num() == old(self).spec_grant_num(),
            final(kernel).spec_work() == old(kernel).spec_work(),
            final(kernel).spec_grant_counter() == old(kernel).spec_grant_counter(),
            final(kernel).spec_grants_finalized() == old(kernel).spec_grants_finalized(),
            final(kernel).spec_processes().len() == old(kernel).spec_processes().len(),
            crate::sched::same_schedule(old(kernel).spec_processes(), final(kernel).spec_processes()),
            ({
                let idx = appid.spec_idx();
                &&& idx >= old(kernel).spec_processes().len() || old(kernel).spec_processes()[idx as int] is None
                    ==> r == Err::<&mut T, Error>(Error::NoSuchApp)
                    && final(kernel).spec_processes() == old(kernel).spec_processes()
                    && final(self).spec_values() == old(self).spec_values()
                &&& r is Err ==> final(self).spec_values() == old(self).spec_values()
                &&& r is Err ==> r == Err::<&mut T, Error>(Error::NoSuchApp) || r == Err::<&mut T, Error>(Error::OutOfMemory)
                &&& r is Ok ==> {
                    &&& idx < final(self).spec_values().len()
                    &&& final(self).spec_values().len() == if idx < old(self).spec_values().len() {
                        old(self).spec_values().len() as int
                    } else {
                        idx + 1
                    }
                    &&& *final(r->Ok_0) == final(self).spec_values()[idx as int]
                    &&& forall|k: int| 0 <= k < old(self).spec_values().len() && k != idx
                        ==> final(self).spec_values()[k] == old(self).spec_values()[k]
                }
                &&& idx < old(kernel).spec_processes().len() ==> (old(kernel).spec_processes()[idx as int] matches Some(p) ==> {
                    &&& p.spec_grant_slots()[old(self).spec_grant_num() as int] != 0 ==> {
                        &&& r is Ok
                        &&& final(kernel).spec_processes() == old(kernel).spec_processes()
                        &&& idx < old(self).spec_values().len() ==> *r->Ok_0 == old(self).spec_values()[idx as int]
                    }
                    &&& (p.spec_grant_slots()[old(self).spec_grant_num() as int] == 0 || idx >= old(self).spec_values().len())
                        && r is Ok ==> call_ensures(<T as Default>::default, (), *r->Ok_0)
                    &&& p.spec_grant_slots()[old(self).spec_grant_num() as int] == 0 ==> exists|q: P| {
                        &&& final(kernel).spec_processes() == old(kernel).spec_processes().update(idx as int, Some(q))
                        &&& crate::sched::grant_allocate_outcome(p, q, old(self).spec_grant_num(),
                            vstd::layout::size_of::<T>() as usize, vstd::layout::align_of::<T>() as usize,
                            match r {
                                Ok(_) => Ok((q.spec_grant_slots()[old(self).spec_grant_num() as int], true)),
                                Err(e) => Err(e),
                            })
                    }
                })
            }),
    {
        vstd::layout::layout_for_type_is_valid::<T>();
        let size = core::mem::size_of::<T>();
        let align = core::mem::align_of::<T>();
        let idx = appid.idx();
        let ghost old_procs = kernel.spec_processes();
        proof {
            if idx < old_procs.len() {
                kernel.lemma_slot_facts(idx as int);
            }
        }
        let region = kernel.enter_grant_region(idx, self.grant_num, size, align);
        match region {
            Err(e) => Err(e),
            Ok((_address, fresh)) => {
                while self.values.len() <= idx
                    invariant
                        self.grant_num == old(self).grant_num,
                        old(self).values@.len() <= self.values@.len(),
                        self.values@.len() <= if idx < old(self).values@.len() {
                            old(self).values@.len() as int
                        } else {
                            idx + 1
                        },
                        forall|k: int| 0 <= k < old(self).values@.len() ==> self.values@[k] == old(self).values@[k],
                        forall|k: int| old(self).values@.len() <= k < self.values@.len()
                            ==> call_ensures(<T as Default>::default, (), #[trigger] self.values@[k]),
                    decreases idx + 1 - self.values@.len(),
                {
                    let d = T::default();
                    self.values.push(d);
                }
                if fresh {
                    let d = T::default();
                    self.values.set(idx, d);
                }
                proof {
                    if idx < old_procs.len() && old_procs[idx as int] is Some {
                        let p = old_procs[idx as int]->Some_0;
                        if p.spec_grant_slots()[self.grant_num as int] == 0 {
                            let q = choose|q: P| {
                                &&& kernel.spec_processes() == old_procs.update(idx as int, Some(q))
                                &&& crate::sched::grant_allocate_outcome(p, q, self.grant_num, size, align, region)
                            };
                            assert(region == Ok::<(usize, bool), Error>((q.spec_grant_slots()[self.grant_num as int], true)));
                        }
                    }
                }
                Ok(&mut self.values[idx])
            },
        }
    }

    /// Runs `fun` on the value of every process that has a region for this
    /// grant, with the process's identifier, in slot order.
    pub fn each<P: ProcessType, F: Fn(AppId, &mut T)>(&mut self, kernel: &Kernel<P>, fun: F)
        requires
            kernel.wf(),
            old(self).spec_grant_num() < kernel.spec_grant_counter(),
            forall|a: AppId, x: &mut T| fun.requires((a, x)),
        ensures
            final(self).spec_grant_num() == old(self).spec_grant_num(),
            final(self).spec_values().len() == old(self).spec_values().len(),
            forall|i: int| 0 <= i < old(self).spec_values().len() && !(#[trigger] kernel.spec_processes()[i] matches Some(p)
                && p.spec_grant_slots()[old(self).spec_grant_num() as int] != 0)
                ==> final(self).spec_values()[i] == old(self).spec_values()[i],
            forall|i: int| 0 <= i < old(self).spec_values().len() && i < kernel.spec_processes().len()
                && (#[trigger] kernel.spec_processes()[i] matches Some(p)
                && p.spec_grant_slots()[old(self).spec_grant_num() as int] != 0)
                ==> exists|a: AppId, x: &mut T| {
                    &&& a.spec_idx() == i
                    &&& *x == old(self).spec_values()[i]
                    &&& *final(x) == final(self).spec_values()[i]
                    &&& fun.ensures((a, x), ())
                },
    {
        let n = kernel.number_of_process_slots();
        let mut i: usize = 0;
        while i < n
            invariant
                n == kernel.spec_processes().len(),
                i <= n,
                kernel.wf(),
                self.grant_num == old(self).grant_num,
                self.grant_num < kernel.spec_grant_counter(),
                self.values@.len() == old(self).values@.len(),
                forall|a: AppId, x: &mut T| fun.requires((a, x)),
                forall|k: int| 0 <= k < old(self).values@.len() && !(#[trigger] kernel.spec_processes()[k] matches Some(p)
                    && p.spec_grant_slots()[old(self).grant_num as int] != 0)
                    ==> self.values@[k] == old(self).values@[k],
                forall|k: int| i <= k < old(self).values@.len() ==> self.values@[k] == old(self).values@[k],
                forall|k: int| 0 <= k < old(self).values@.len() && k < i
                    && (#[trigger] kernel.spec_processes()[k] matches Some(p)
                    && p.spec_grant_slots()[old(self).grant_num as int] != 0)
                    ==> exists|a: AppId, x: &mut T| {
                        &&& a.spec_idx() == k
                        &&& *x == old(self).values@[k]
                        &&& *final(x) == self.values@[k]
                        &&& fun.ensures((a, x), ())
                    },
            decreases n - i,
        {
            let present = self.grant(kernel, AppId::new(i)).is_some();
            if present && i < self.values.len() {
                fun(AppId::new(i), &mut self.values[i]);
            }
            i += 1;
        }
    }

    /// Iterates over the processes that have a region for this grant.
    pub fn iter<'a, P: ProcessType>(&'a self, kernel: &Kernel<P>) -> (r: Iter<'a, T>)
        ensures
            r.spec_index() == 0,
            r.spec_len() == kernel.spec_processes().len(),
            r.spec_grant() == self,
    {
        Iter { grant: self, index: 0, len: kernel.number_of_process_slots() }
    }
}

/// Iterator over the grant regions of the processes.
pub struct Iter<'a, T: Default> {
    grant: &'a Grant<T>,
    index: usize,
    len: usize,
}

impl<'a, T: Default> Iter<'a, T> {
    pub closed spec fn spec_index(&self) -> usize {
        self.index
    }

    pub closed spec fn spec_len(&self) -> usize {
        self.len
    }

    pub closed spec fn spec_grant(&self) -> &'a Grant<T> {
        self.grant
    }

    /// The grant region of the next process slot that has one, if any.
    pub fn next<P: ProcessType>(&mut self, kernel: &Kernel<P>) -> (r: Option<AppliedGrant<T>>)
        requires
            kernel.wf(),
            old(self).spec_len() == kernel.spec_processes().len(),
            old(self).spec_grant().spec_grant_num() < kernel.spec_grant_counter(),
        ensures
            final(self).spec_len() == old(self).spec_len(),
            final(self).spec_grant() == old(self).spec_grant(),
            final(self).spec_index() == old(self).spec_index()
                || old(self).spec_index() <= final(self).spec_index() <= final(self).spec_len(),
            r matches Some(g) ==> {
                let idx = g.spec_appid().spec_idx();
                &&& old(self).spec_index() <= idx < final(self).spec_index()
                &&& idx + 1 == final(self).spec_index()
                &&& kernel.spec_processes()[idx as int] is Some
                &&& g.spec_address() == kernel.spec_processes()[idx as int]->Some_0.spec_grant_slots()[old(self).spec_grant().spec_grant_num() as int]
                &&& g.spec_address() != 0
                &&& forall|k: int| old(self).spec_index() <= k < idx ==> !(#[trigger] kernel.spec_processes()[k] matches Some(p)
                    && p.spec_grant_slots()[old(self).spec_grant().spec_grant_num() as int] != 0)
            },
            r is None ==> forall|k: int| old(self).spec_index() <= k < old(self).spec_len() ==> !(#[trigger] kernel.spec_processes()[k] matches Some(p)
                && p.spec_grant_slots()[old(self).spec_grant().spec_grant_num() as int] != 0),
    {
        while self.index < self.len
            invariant
                self.len == old(self).len,
                self.grant == old(self).grant,
                self.len == kernel.spec_processes().len(),
                kernel.wf(),
                self.grant.spec_grant_num() < kernel.spec_grant_counter(),
                old(self).index <= self.index,
                self.index == old(self).index || self.index <= self.len,
                forall|k: int| old(self).index <= k < self.index ==> !(#[trigger] kernel.spec_processes()[k] matches Some(p)
                    && p.spec_grant_slots()[self.grant.spec_grant_num() as int] != 0),
            decreases self.len - self.index,
        {
            let idx = self.index;
            self.index = self.index + 1;
            let res = self.grant.grant(kernel, AppId::new(idx));
            if res.is_some() {
                return res;
            }
        }
        None
    }
}

} // verus!
