//! Inter-process communication mechanism for Tock.
//!
//! This is a special syscall driver that allows userspace applications to
//! share memory. Since each operation needs the kernel's process table, the
//! driver's operations take the kernel as an argument.

use vstd::prelude::*;
use vstd::array::*;
use crate::callback::{AppId, Callback};
use crate::capabilities::MemoryAllocationCapability;
use crate::grant::Grant;
use crate::mem::{AppSlice, Shared};
use crate::process::{self, ProcessType};
use crate::returncode::ReturnCode;
use crate::sched::{Kernel, slot_at};

verus! {

/// Syscall driver number.
pub const DRIVER_NUM: usize = 0x10000;

/// The number of other apps an app can share memory with or be a client
/// of.
pub const NUM_SERVICE_SLOTS: usize = 8;

/// Enforces ordering on callbacks and on the slices an app shared.
pub struct IPCData {
    shared_memory: [Option<AppSlice<Shared, u8>>; 8],
    client_callbacks: [Option<Callback>; 8],
    callback: Option<Callback>,
}

impl Default for IPCData {
    fn default() -> (r: IPCData)
        ensures
            r.spec_callback() is None,
            forall|i: int| 0 <= i < 8 ==> #[trigger] r.spec_client_callback(i) is None,
            forall|i: int| 0 <= i < 8 ==> #[trigger] r.spec_shared(i) is None,
    {
        IPCData {
            shared_memory: [None, None, None, None, None, None, None, None],
            client_callbacks: [None, None, None, None, None, None, None, None],
            callback: None,
        }
    }
}

impl IPCData {
    /// The callback the app registered as a service.
    pub closed spec fn spec_callback(&self) -> Option<Callback> {
        self.callback
    }

    /// The callback the app registered as a client of service `i`.
    pub closed spec fn spec_client_callback(&self, i: int) -> Option<Callback> {
        self.client_callbacks@[i]
    }

    /// The buffer the app shared with app `i`, as (address, length, owner).
    pub closed spec fn spec_shared(&self, i: int) -> Option<(usize, usize, AppId)> {
        shared_view(self.shared_memory@[i])
    }
}

/// A shared buffer as (address, length, owner).
pub open spec fn shared_view(slice: Option<AppSlice<Shared, u8>>) -> Option<(usize, usize, AppId)> {
    match slice {
        Some(s) => Some((s.spec_ptr(), s.spec_len(), s.spec_owner())),
        None => None,
    }
}

/// The callback that IPC data `d` of an app names for an IPC callback of
/// type `cb_type` from `otherapp`: its service callback, or its client
/// callback for `otherapp`.
pub open spec fn ipc_callback_for(d: IPCData, cb_type: process::IPCType, otherapp: AppId) -> Option<Callback> {
    match cb_type {
        process::IPCType::Service => d.spec_callback(),
        process::IPCType::Client => if otherapp.spec_idx() < NUM_SERVICE_SLOTS {
            d.spec_client_callback(otherapp.spec_idx() as int)
        } else {
            None
        },
    }
}

/// The length and address of the buffer that IPC data `d` shares with app
/// `idx`, or (0, 0) if it shares none.
pub open spec fn ipc_shared_for(d: IPCData, idx: usize) -> (usize, usize) {
    match d.spec_shared(idx as int) {
        Some((ptr, len, _owner)) => (len, ptr),
        None => (0, 0),
    }
}

/// When an IPC callback `cb` about app `other` is queued for app `idx`
/// (the table going from `before` to `after`, as `schedule_callback`
/// states it) and its process `p` takes the task, the call appended to its
/// queue has as its first argument the number of `other` (its slot plus
/// one), as its second the length of the buffer that `other` (with IPC
/// data `d`) shares with `idx`, and as its third that buffer's address;
/// both are 0 when `other` shares no buffer with `idx`.
pub proof fn law_ipc_call_carries_the_shared_buffer<P: ProcessType>(
    before: Seq<Option<P>>,
    after: Seq<Option<P>>,
    cb: Callback,
    other: usize,
    d: IPCData,
    idx: usize,
)
    requires
        other < usize::MAX,
        crate::callback::callback_queued(before, after, cb, (other + 1) as usize, ipc_shared_for(d, idx).0,
            ipc_shared_for(d, idx).1),
        cb.spec_app_id().spec_idx() < before.len(),
        before[cb.spec_app_id().spec_idx() as int] matches Some(p) && p.spec_state() != process::State::Fault
            && p.spec_tasks().len() + 1 < p.spec_task_capacity(),
    ensures
        after[cb.spec_app_id().spec_idx() as int] matches Some(q) && q.spec_tasks().last() matches process::Task::FunctionCall(fc) && {
            &&& fc.argument0 == other + 1
            &&& d.spec_shared(idx as int) is Some ==> fc.argument1 == d.spec_shared(idx as int)->Some_0.1
                && fc.argument2 == d.spec_shared(idx as int)->Some_0.0
            &&& d.spec_shared(idx as int) is None ==> fc.argument1 == 0 && fc.argument2 == 0
            &&& fc.argument3 == cb.spec_appdata()
            &&& fc.pc == cb.spec_fn_ptr()
        },
{
}

/// A buffer that `allow` records is remembered by its address, its length
/// and its owner, in that order; the second argument of an IPC call is
/// therefore the buffer's length and the third its address.
pub proof fn law_shared_buffer_is_remembered(slice: AppSlice<Shared, u8>, d: IPCData, idx: usize)
    ensures
        shared_view(Some(slice)) == Some((slice.spec_ptr(), slice.spec_len(), slice.spec_owner())),
        shared_view(None) is None,
        d.spec_shared(idx as int) == shared_view(Some(slice))
            ==> ipc_shared_for(d, idx) == (slice.spec_len(), slice.spec_ptr()),
        d.spec_shared(idx as int) is None ==> ipc_shared_for(d, idx) == (0usize, 0usize),
{
}

/// The callback an IPC notification goes to: a service is notified
/// through the callback it subscribed as a service; a client is notified
/// through the callback it subscribed for the service that notifies it,
/// and not at all when that service's slot is past the service slots.
pub proof fn law_ipc_callback_is_the_subscribed_one(d: IPCData, otherapp: AppId)
    ensures
        ipc_callback_for(d, process::IPCType::Service, otherapp) == d.spec_callback(),
        otherapp.spec_idx() < NUM_SERVICE_SLOTS ==> ipc_callback_for(d, process::IPCType::Client, otherapp)
            == d.spec_client_callback(otherapp.spec_idx() as int),
        otherapp.spec_idx() >= NUM_SERVICE_SLOTS ==> ipc_callback_for(d, process::IPCType::Client, otherapp) is None,
{
}

/// Whether process slot `idx` of `procs` holds a process whose region for
/// grant `grant_num` exists already.
pub open spec fn ipc_region_exists<P: ProcessType>(procs: Seq<Option<P>>, grant_num: usize, idx: usize) -> bool {
    slot_at(procs, idx) matches Some(p) && grant_num < p.spec_grant_slots().len()
        && p.spec_grant_slots()[grant_num as int] != 0
}

/// Whether `a` and `b` hold the same bytes.
fn bytes_equal(a: &[u8], b: &[u8]) -> (r: bool)
    ensures
        r == (a@ == b@),
{
    if a.len() != b.len() {
        return false;
    }
    let mut i: usize = 0;
    while i < a.len()
        invariant
            a@.len() == b@.len(),
            i <= a@.len(),
            forall|k: int| 0 <= k < i ==> a@[k] == b@[k],
        decreases a@.len() - i,
    {
        if a[i] != b[i] {
            return false;
        }
        i += 1;
    }
    assert(a@ =~= b@);
    true
}

/// The IPC mechanism struct.
pub struct IPC {
    /// The grant regions for each process that holds the per-process IPC
    /// data.
    data: Grant<IPCData>,
}

impl IPC {
    pub closed spec fn spec_grant_num(&self) -> usize {
        self.data.spec_grant_num()
    }

    /// The IPC data of each process slot that has had some.
    pub closed spec fn spec_data(&self) -> Seq<IPCData> {
        self.data.spec_values()
    }

    /// The IPC mechanism, with its grant created in `kernel`.
    pub fn new<P: ProcessType, C: MemoryAllocationCapability>(kernel: &mut Kernel<P>, capability: &C) -> (r: IPC)
        requires
            !old(kernel).spec_grants_finalized(),
            old(kernel).spec_grant_counter() < usize::MAX,
        ensures
            r.spec_grant_num() == old(kernel).spec_grant_counter(),
            r.spec_data() == Seq::<IPCData>::empty(),
            final(kernel).spec_grant_counter() == old(kernel).spec_grant_counter() + 1,
            !final(kernel).spec_grants_finalized(),
            final(kernel).spec_work() == old(kernel).spec_work(),
            final(kernel).spec_processes() == old(kernel).spec_processes(),
            old(kernel).wf() ==> final(kernel).wf(),
    {
        IPC { data: kernel.create_grant(capability) }
    }

    /// Schedules an IPC callback for a process: the callback that app
    /// `appid` registered (as a service, or as a client of `otherapp`) is
    /// queued for it, with the number of `otherapp` and the buffer
    /// `otherapp` shared with it, which `appid` is given access to. Nothing
    /// happens if either app has no IPC data and none can be made, if
    /// there is no such callback, or if the callback belongs to no process
    /// in the table.
    pub fn schedule_callback<P: ProcessType>(&mut self, kernel: &mut Kernel<P>, appid: AppId, otherapp: AppId, cb_type: process::IPCType)
        requires
            old(kernel).wf(),
            old(self).spec_grant_num() < old(kernel).spec_grant_counter(),
            otherapp.spec_idx() < usize::MAX,
            old(kernel).spec_work() < usize::MAX,
            crate::sched::dropped_bounded(old(kernel).spec_processes()),
        ensures
            final(kernel).wf(),
            final(self).spec_grant_num() == old(self).spec_grant_num(),
            final(kernel).spec_grant_counter() == old(kernel).spec_grant_counter(),
            final(kernel).spec_grants_finalized() == old(kernel).spec_grants_finalized(),
            final(kernel).spec_processes().len() == old(kernel).spec_processes().len(),
            final(kernel).spec_work() <= old(kernel).spec_work() + 1,
            crate::sched::same_identities(old(kernel).spec_processes(), final(kernel).spec_processes()),
            ({
                let idx = appid.spec_idx();
                let other = otherapp.spec_idx();
                let procs = old(kernel).spec_processes();
                let gn = old(self).spec_grant_num();
                ipc_region_exists(procs, gn, idx) && ipc_region_exists(procs, gn, other)
                    && idx < old(self).spec_data().len() && other < old(self).spec_data().len() ==> {
                    let cb = ipc_callback_for(old(self).spec_data()[idx as int], cb_type, otherapp);
                    let (len, ptr) = ipc_shared_for(old(self).spec_data()[other as int], idx);
                    &&& final(self).spec_data() == old(self).spec_data()
                    &&& (cb is None || idx >= NUM_SERVICE_SLOTS) ==> final(kernel).spec_processes() == procs
                    &&& (cb is Some && idx < NUM_SERVICE_SLOTS)
                        ==> exists|mid: Seq<Option<P>>| {
                            &&& crate::sched::same_schedule(procs, mid)
                            &&& crate::callback::callback_queued(mid, final(kernel).spec_processes(), cb->Some_0,
                                (other + 1) as usize, len, ptr)
                        }
                }
            }),
            ({
                let idx = appid.spec_idx();
                let other = otherapp.spec_idx();
                let procs = old(kernel).spec_processes();
                let gn = old(self).spec_grant_num();
                let d = old(self).spec_data();
                &&& !(ipc_region_exists(procs, gn, idx) && idx < d.len())
                    ==> crate::sched::same_schedule(procs, final(kernel).spec_processes())
                &&& ipc_region_exists(procs, gn, idx) && idx < d.len() && other != idx
                    && !(ipc_region_exists(procs, gn, other) && other < d.len()) ==> {
                    let cb = ipc_callback_for(d[idx as int], cb_type, otherapp);
                    &&& (cb is None || idx >= NUM_SERVICE_SLOTS)
                        ==> crate::sched::same_schedule(procs, final(kernel).spec_processes())
                    &&& (cb is Some && idx < NUM_SERVICE_SLOTS) ==> exists|mid: Seq<Option<P>>| {
                        &&& crate::sched::same_schedule(procs, mid)
                        &&& mid == final(kernel).spec_processes()
                            || crate::callback::callback_queued(mid, final(kernel).spec_processes(), cb->Some_0,
                                (other + 1) as usize, 0, 0)
                    }
                }
            }),
    {
        let ghost procs0 = kernel.spec_processes();
        proof {
            crate::sched::lemma_same_identities_chain(procs0, procs0, procs0);
        }
        let mydata = match self.data.enter(kernel, appid) {
            Ok(d) => d,
            Err(_) => {
                proof {
                    crate::sched::lemma_same_identities_chain(procs0, kernel.spec_processes(), kernel.spec_processes());
                }
                return;
            },
        };
        proof {
            crate::sched::lemma_same_identities_chain(procs0, kernel.spec_processes(), kernel.spec_processes());
            let idx = appid.spec_idx();
            if !(ipc_region_exists(procs0, old(self).spec_grant_num(), idx) && idx < old(self).spec_data().len())
                && idx < procs0.len() {
                old(kernel).lemma_slot_facts(idx as int);
                assert(call_ensures(<IPCData as Default>::default, (), *mydata));
                assert(mydata.spec_callback() is None);
            }
        }
        let callback = match cb_type {
            process::IPCType::Service => mydata.callback,
            process::IPCType::Client => {
                if otherapp.idx() < 8 {
                    mydata.client_callbacks[otherapp.idx()]
                } else {
                    None
                }
            },
        };
        proof {
            assert(callback == ipc_callback_for(*mydata, cb_type, otherapp));
        }
        let mut callback = match callback {
            Some(cb) => cb,
            None => return,
        };
        let ghost procs1 = kernel.spec_processes();
        proof {
            crate::sched::lemma_same_schedule_dropped(procs0, procs1);
        }
        let otherdata = match self.data.enter(kernel, otherapp) {
            Ok(d) => d,
            Err(_) => {
                proof {
                    crate::sched::lemma_same_identities_chain(procs0, procs1, kernel.spec_processes());
                    crate::sched::lemma_same_schedule_trans(procs0, procs1, kernel.spec_processes());
                }
                return;
            },
        };
        proof {
            crate::sched::lemma_same_identities_chain(procs0, procs1, kernel.spec_processes());
            crate::sched::lemma_same_schedule_trans(procs0, procs1, kernel.spec_processes());
            let other = otherapp.spec_idx();
            if !(ipc_region_exists(procs0, old(self).spec_grant_num(), other) && other < old(self).spec_data().len())
                && other < procs0.len() && appid.spec_idx() < NUM_SERVICE_SLOTS {
                old(kernel).lemma_slot_facts(other as int);
                assert(call_ensures(<IPCData as Default>::default, (), *otherdata));
                assert(otherdata.spec_shared(appid.spec_idx() as int) is None);
            }
        }
        if appid.idx() >= 8 {
            return;
        }
        let ghost procs2 = kernel.spec_processes();
        proof {
            crate::sched::lemma_same_schedule_dropped(procs1, procs2);
        }
        match &otherdata.shared_memory[appid.idx()] {
            Some(slice) => {
                let len = slice.len();
                let ptr = slice.ptr();
                slice.expose_to(kernel, appid);
                let ghost procs3 = kernel.spec_processes();
                proof {
                    crate::sched::lemma_same_schedule_dropped(procs2, procs3);
                    crate::sched::lemma_same_identities_chain(procs0, procs2, procs3);
                }
                callback.schedule(kernel, otherapp.idx() + 1, len, ptr);
                proof {
                    crate::sched::lemma_same_identities_chain(procs0, procs3, kernel.spec_processes());
                }
            },
            None => {
                callback.schedule(kernel, otherapp.idx() + 1, 0, 0);
                proof {
                    crate::sched::lemma_same_identities_chain(procs0, procs2, kernel.spec_processes());
                }
            },
        }
    }

    /// Registers `callback` for app `app_id`: as its service callback for
    /// `subscribe_num` 0, or as its client callback for service
    /// `subscribe_num - 1`. `EINVAL` for a service number past the slots,
    /// `EBUSY` if the app has no IPC data and none can be made.
    pub fn subscribe<P: ProcessType>(&mut self, kernel: &mut Kernel<P>, subscribe_num: usize, callback: Option<Callback>, app_id: AppId) -> (r: ReturnCode)
        requires
            old(kernel).wf(),
            old(self).spec_grant_num() < old(kernel).spec_grant_counter(),
        ensures
            final(kernel).wf(),
            final(self).spec_grant_num() == old(self).spec_grant_num(),
            final(kernel).spec_work() == old(kernel).spec_work(),
            final(kernel).spec_grant_counter() == old(kernel).spec_grant_counter(),
            final(kernel).spec_grants_finalized() == old(kernel).spec_grants_finalized(),
            final(kernel).spec_processes().len() == old(kernel).spec_processes().len(),
            r == ReturnCode::SUCCESS || r == ReturnCode::EINVAL || r == ReturnCode::EBUSY,
            subscribe_num > 8 ==> r == ReturnCode::EINVAL && final(kernel).spec_processes() == old(kernel).spec_processes(),
            subscribe_num <= 8 && slot_at(old(kernel).spec_processes(), app_id.spec_idx()) is None ==> r == ReturnCode::EBUSY,
            r == ReturnCode::EBUSY ==> !ipc_region_exists(old(kernel).spec_processes(), old(self).spec_grant_num(), app_id.spec_idx()),
            r == ReturnCode::SUCCESS ==> {
                &&& app_id.spec_idx() < final(self).spec_data().len()
                &&& subscribe_num == 0 ==> final(self).spec_data()[app_id.spec_idx() as int].spec_callback() == callback
                &&& subscribe_num > 0 ==> final(self).spec_data()[app_id.spec_idx() as int].spec_client_callback(subscribe_num - 1) == callback
            },
            ({
                let idx = app_id.spec_idx();
                let d = old(self).spec_data();
                subscribe_num <= NUM_SERVICE_SLOTS && ipc_region_exists(old(kernel).spec_processes(), old(self).spec_grant_num(), idx)
                    && idx < d.len() ==> {
                    &&& r == ReturnCode::SUCCESS
                    &&& final(kernel).spec_processes() == old(kernel).spec_processes()
                    &&& final(self).spec_data().len() == d.len()
                    &&& forall|k: int| 0 <= k < d.len() && k != idx ==> final(self).spec_data()[k] == d[k]
                    &&& forall|i: int| 0 <= i < NUM_SERVICE_SLOTS ==> #[trigger] final(self).spec_data()[idx as int].spec_shared(i)
                        == d[idx as int].spec_shared(i)
                    &&& subscribe_num > 0 ==> final(self).spec_data()[idx as int].spec_callback() == d[idx as int].spec_callback()
                    &&& forall|i: int| 0 <= i < NUM_SERVICE_SLOTS && i != subscribe_num - 1
                        ==> #[trigger] final(self).spec_data()[idx as int].spec_client_callback(i) == d[idx as int].spec_client_callback(i)
                }
            }),
    {
        if subscribe_num == 0 {
            match self.data.enter(kernel, app_id) {
                Ok(data) => {
                    data.callback = callback;
                    ReturnCode::SUCCESS
                },
                Err(_) => ReturnCode::EBUSY,
            }
        } else {
            let svc_id = subscribe_num;
            if svc_id - 1 >= 8 {
                ReturnCode::EINVAL
            } else {
                match self.data.enter(kernel, app_id) {
                    Ok(data) => {
                        data.client_callbacks.set(svc_id - 1, callback);
                        ReturnCode::SUCCESS
                    },
                    Err(_) => ReturnCode::EBUSY,
                }
            }
        }
    }

    /// Queues an IPC task for the app with number `target_id` (its slot
    /// plus one): a service task if `client_or_svc` is 0, a client task
    /// otherwise. `EINVAL` if there is no such app, `FAIL` if its queue
    /// takes no more tasks.
    pub fn command<P: ProcessType>(&mut self, kernel: &mut Kernel<P>, target_id: usize, client_or_svc: usize, appid: AppId) -> (r: ReturnCode)
        requires
            old(kernel).wf(),
            target_id >= 1,
            old(kernel).spec_work() < usize::MAX,
            slot_at(old(kernel).spec_processes(), (target_id - 1) as usize) matches Some(p)
                ==> p.spec_counters().dropped_callback_count < usize::MAX,
        ensures
            final(kernel).wf(),
            *final(self) == *old(self),
            final(kernel).spec_grant_counter() == old(kernel).spec_grant_counter(),
            final(kernel).spec_grants_finalized() == old(kernel).spec_grants_finalized(),
            ({
                let idx = (target_id - 1) as usize;
                let cb_type = if client_or_svc == 0 { process::IPCType::Service } else { process::IPCType::Client };
                let task = process::Task::IPC((appid, cb_type));
                &&& slot_at(old(kernel).spec_processes(), idx) is None ==> {
                    &&& r == ReturnCode::EINVAL
                    &&& final(kernel).spec_processes() == old(kernel).spec_processes()
                    &&& final(kernel).spec_work() == old(kernel).spec_work()
                }
                &&& slot_at(old(kernel).spec_processes(), idx) matches Some(p) ==> {
                    &&& r == ReturnCode::SUCCESS || r == ReturnCode::FAIL
                    &&& exists|q: P| {
                        &&& final(kernel).spec_processes() == old(kernel).spec_processes().update(idx as int, Some(q))
                        &&& crate::sched::enqueue_outcome(p, q, task, r == ReturnCode::SUCCESS)
                    }
                }
            }),
    {
        let cb_type = if client_or_svc == 0 {
            process::IPCType::Service
        } else {
            process::IPCType::Client
        };
        let idx = target_id - 1;
        if kernel.process_at(idx).is_none() {
            return ReturnCode::EINVAL;
        }
        let ghost old_procs = kernel.spec_processes();
        let ret = kernel.enqueue_task(idx, process::Task::IPC((appid, cb_type)));
        proof {
            let task = process::Task::IPC((appid, cb_type));
            let p = old_procs[idx as int]->Some_0;
            let q = choose|q: P| {
                &&& kernel.spec_processes() == old_procs.update(idx as int, Some(q))
                &&& crate::sched::enqueue_outcome(p, q, task, ret)
                &&& kernel.spec_work() == if p.spec_state() == process::State::Fault {
                    old(kernel).spec_work() as int
                } else {
                    old(kernel).spec_work() + 1
                }
            };
            assert(crate::sched::enqueue_outcome(p, q, task, ret));
        }
        if ret {
            ReturnCode::SUCCESS
        } else {
            ReturnCode::FAIL
        }
    }

    /// With `target_id` 0, finds the app whose name is the text the app
    /// shared in `slice` (whose bytes are `contents`) and returns its
    /// number (its slot plus one), or `EINVAL`. Otherwise records `slice`
    /// as the buffer app `appid` shares with app `target_id - 1`; `EINVAL`
    /// for a number past the slots, `EBUSY` if the app has no IPC data and
    /// none can be made.
    pub fn allow<P: ProcessType>(
        &mut self,
        kernel: &mut Kernel<P>,
        appid: AppId,
        target_id: usize,
        slice: Option<AppSlice<Shared, u8>>,
        contents: &[u8],
    ) -> (r: ReturnCode)
        requires
            old(kernel).wf(),
            old(self).spec_grant_num() < old(kernel).spec_grant_counter(),
        ensures
            final(kernel).wf(),
            final(self).spec_grant_num() == old(self).spec_grant_num(),
            final(kernel).spec_work() == old(kernel).spec_work(),
            final(kernel).spec_grant_counter() == old(kernel).spec_grant_counter(),
            final(kernel).spec_grants_finalized() == old(kernel).spec_grants_finalized(),
            final(kernel).spec_processes().len() == old(kernel).spec_processes().len(),
            target_id == 0 ==> {
                &&& final(kernel).spec_processes() == old(kernel).spec_processes()
                &&& *final(self) == *old(self)
                &&& slice is None ==> r == ReturnCode::EINVAL
                &&& slice is Some ==> match r {
                    ReturnCode::SuccessWithValue { value } => {
                        &&& 1 <= value <= old(kernel).spec_processes().len()
                        &&& old(kernel).spec_processes()[value - 1] matches Some(p)
                        &&& vstd::utf8::encode_utf8(p.spec_process_name()) == contents@
                        &&& forall|k: int| 0 <= k < value - 1 ==> !(#[trigger] old(kernel).spec_processes()[k] matches Some(q)
                            && vstd::utf8::encode_utf8(q.spec_process_name()) == contents@)
                    },
                    ReturnCode::EINVAL => forall|k: int| 0 <= k < old(kernel).spec_processes().len() ==> !(#[trigger] old(kernel).spec_processes()[k] matches Some(q)
                        && vstd::utf8::encode_utf8(q.spec_process_name()) == contents@),
                    _ => false,
                }
            },
            target_id > 8 ==> r == ReturnCode::EINVAL || r == ReturnCode::EBUSY,
            1 <= target_id <= 8 ==> r == ReturnCode::SUCCESS || r == ReturnCode::EBUSY,
            target_id >= 1 && slot_at(old(kernel).spec_processes(), appid.spec_idx()) is None ==> r == ReturnCode::EBUSY,
            r == ReturnCode::EBUSY ==> target_id >= 1
                && !ipc_region_exists(old(kernel).spec_processes(), old(self).spec_grant_num(), appid.spec_idx()),
            r == ReturnCode::SUCCESS ==> {
                let idx = appid.spec_idx();
                &&& idx < final(self).spec_data().len()
                &&& final(self).spec_data()[idx as int].spec_shared(target_id - 1) == shared_view(slice)
            },
            ({
                let idx = appid.spec_idx();
                let d = old(self).spec_data();
                target_id >= 1 && ipc_region_exists(old(kernel).spec_processes(), old(self).spec_grant_num(), idx)
                    && idx < d.len() ==> {
                    &&& final(kernel).spec_processes() == old(kernel).spec_processes()
                    &&& target_id <= NUM_SERVICE_SLOTS ==> r == ReturnCode::SUCCESS
                    &&& target_id > NUM_SERVICE_SLOTS ==> r == ReturnCode::EINVAL && final(self).spec_data() == d
                    &&& final(self).spec_data().len() == d.len()
                    &&& forall|k: int| 0 <= k < d.len() && k != idx ==> final(self).spec_data()[k] == d[k]
                    &&& final(self).spec_data()[idx as int].spec_callback() == d[idx as int].spec_callback()
                    &&& forall|i: int| 0 <= i < NUM_SERVICE_SLOTS ==> #[trigger] final(self).spec_data()[idx as int].spec_client_callback(i)
                        == d[idx as int].spec_client_callback(i)
                    &&& forall|i: int| 0 <= i < NUM_SERVICE_SLOTS && i != target_id - 1
                        ==> #[trigger] final(self).spec_data()[idx as int].spec_shared(i) == d[idx as int].spec_shared(i)
                }
            }),
    {
        if target_id == 0 {
            match slice {
                Some(_) => {
                    let f = |p: &P| -> (rc: ReturnCode)
                        requires
                            p.wf(),
                            p.spec_app_idx() + 1 <= usize::MAX,
                        ensures
                            rc == if vstd::utf8::encode_utf8(p.spec_process_name()) == contents@ {
                                ReturnCode::SuccessWithValue { value: (p.spec_app_idx() + 1) as usize }
                            } else {
                                ReturnCode::FAIL
                            },
                        {
                            let s = p.get_process_name().as_bytes();
                            if bytes_equal(s, contents) {
                                ReturnCode::SuccessWithValue { value: p.appid().idx() + 1 }
                            } else {
                                ReturnCode::FAIL
                            }
                        };
                    proof {
                        assert forall|i: int| 0 <= i < kernel.spec_processes().len() implies (#[trigger] kernel.spec_processes()[i] matches Some(p)
                            ==> f.requires((&p,))) by {
                            kernel.lemma_slot_facts(i);
                        }
                    }
                    let ret = kernel.process_until(f);
                    if ret != ReturnCode::FAIL {
                        proof {
                            let procs = kernel.spec_processes();
                            let i = choose|i: int| 0 <= i < procs.len() && {
                                &&& #[trigger] procs[i] matches Some(p)
                                &&& f.ensures((&p,), ret)
                                &&& forall|k: int| 0 <= k < i ==> (#[trigger] procs[k] matches Some(q)
                                    ==> f.ensures((&q,), ReturnCode::FAIL))
                            };
                            kernel.lemma_slot_facts(i);
                            assert forall|k: int| 0 <= k < i implies !(#[trigger] procs[k] matches Some(q)
                                && vstd::utf8::encode_utf8(q.spec_process_name()) == contents@) by {
                                kernel.lemma_slot_facts(k);
                            }
                        }
                        return ret;
                    }
                    proof {
                        let procs = kernel.spec_processes();
                        assert forall|k: int| 0 <= k < procs.len() implies !(#[trigger] procs[k] matches Some(q)
                            && vstd::utf8::encode_utf8(q.spec_process_name()) == contents@) by {
                            kernel.lemma_slot_facts(k);
                        }
                    }
                },
                None => {},
            }
            return ReturnCode::EINVAL;
        }
        match self.data.enter(kernel, appid) {
            Ok(data) => {
                if target_id - 1 < 8 {
                    data.shared_memory.set(target_id - 1, slice);
                    ReturnCode::SUCCESS
                } else {
                    ReturnCode::EINVAL
                }
            },
            Err(_) => ReturnCode::EBUSY,
        }
    }
}

} // verus!
