//! Mechanism for inspecting the status of the kernel.
//!
//! In particular this provides functions for getting information about
//! which processes are running and the state of the kernel; the numbers
//! are taken over the kernel's process table.

use vstd::prelude::*;
use crate::callback::AppId;
use crate::capabilities::ProcessManagementCapability;
use crate::process::{ProcessType, State};
use crate::sched::{Kernel, slot_at};

verus! {

/// The sum of `f` over the processes in a table.
pub open spec fn sum_over<P: ProcessType>(s: Seq<Option<P>>, f: spec_fn(P) -> nat) -> nat
    decreases s.len(),
{
    if s.len() == 0 {
        0
    } else {
        sum_over(s.drop_last(), f) + match s.last() {
            Some(p) => f(p),
            None => 0,
        }
    }
}

/// One for every process.
pub open spec fn loaded<P: ProcessType>() -> spec_fn(P) -> nat {
    |p: P| 1nat
}

/// One for every process that is running or yielded.
pub open spec fn active<P: ProcessType>() -> spec_fn(P) -> nat {
    |p: P| if p.spec_state() == State::Running || p.spec_state() == State::Yielded { 1nat } else { 0nat }
}

/// One for every process that is neither running nor yielded.
pub open spec fn inactive<P: ProcessType>() -> spec_fn(P) -> nat {
    |p: P| if p.spec_state() == State::Running || p.spec_state() == State::Yielded { 0nat } else { 1nat }
}

/// The number of times a process has exceeded its timeslice.
pub open spec fn timeslices<P: ProcessType>() -> spec_fn(P) -> nat {
    |p: P| p.spec_counters().timeslice_expiration_count as nat
}

pub proof fn lemma_sum_over_step<P: ProcessType>(s: Seq<Option<P>>, f: spec_fn(P) -> nat, i: int)
    requires
        0 <= i < s.len(),
    ensures
        sum_over(s.take(i + 1), f) == sum_over(s.take(i), f) + match s[i] {
            Some(p) => f(p),
            None => 0,
        },
{
    assert(s.take(i + 1).drop_last() =~= s.take(i));
}

/// Every loaded process is either active or inactive: the numbers of
/// active and inactive processes add up to the number of loaded ones.
pub proof fn law_active_and_inactive_are_loaded<P: ProcessType>(s: Seq<Option<P>>)
    ensures
        sum_over(s, active::<P>()) + sum_over(s, inactive::<P>()) == sum_over(s, loaded::<P>()),
    decreases s.len(),
{
    if s.len() > 0 {
        law_active_and_inactive_are_loaded(s.drop_last());
    }
}

/// A process counts as active exactly when it is running or yielded, and
/// as inactive otherwise: adding process `p` to a table adds one to the
/// number of active processes if `p` is running or yielded, and one to the
/// number of inactive processes if it is in any other state.
pub proof fn law_active_means_running_or_yielded<P: ProcessType>(s: Seq<Option<P>>, p: P)
    ensures
        sum_over(s.push(Some(p)), active::<P>()) == sum_over(s, active::<P>())
            + if p.spec_state() == State::Running || p.spec_state() == State::Yielded { 1int } else { 0int },
        sum_over(s.push(Some(p)), inactive::<P>()) == sum_over(s, inactive::<P>())
            + if p.spec_state() == State::Running || p.spec_state() == State::Yielded { 0int } else { 1int },
        sum_over(s.push(None), active::<P>()) == sum_over(s, active::<P>()),
        sum_over(s.push(None), inactive::<P>()) == sum_over(s, inactive::<P>()),
{
    assert(s.push(Some(p)).drop_last() =~= s);
    assert(s.push(None::<P>).drop_last() =~= s);
}

/// The number of expired timeslices of a table grows, with each process
/// added, by the number of timeslices that process has exceeded.
pub proof fn law_timeslices_add_up<P: ProcessType>(s: Seq<Option<P>>, p: P)
    ensures
        sum_over(s.push(Some(p)), timeslices::<P>()) == sum_over(s, timeslices::<P>())
            + p.spec_counters().timeslice_expiration_count,
        sum_over(s.push(None), timeslices::<P>()) == sum_over(s, timeslices::<P>()),
        sum_over(s.push(Some(p)), loaded::<P>()) == sum_over(s, loaded::<P>()) + 1,
        sum_over(s.push(None), loaded::<P>()) == sum_over(s, loaded::<P>()),
{
    assert(s.push(Some(p)).drop_last() =~= s);
    assert(s.push(None::<P>).drop_last() =~= s);
}

/// A table whose processes are all running or yielded has all of them
/// active and none inactive.
pub proof fn law_running_and_yielded_are_all_active<P: ProcessType>(s: Seq<Option<P>>)
    requires
        forall|i: int| 0 <= i < s.len() ==> (#[trigger] s[i] matches Some(p)
            ==> p.spec_state() == State::Running || p.spec_state() == State::Yielded),
    ensures
        sum_over(s, active::<P>()) == sum_over(s, loaded::<P>()),
        sum_over(s, inactive::<P>()) == 0,
    decreases s.len(),
{
    if s.len() > 0 {
        let t = s.drop_last();
        assert forall|i: int| 0 <= i < t.len() implies (#[trigger] t[i] matches Some(p)
            ==> p.spec_state() == State::Running || p.spec_state() == State::Yielded) by {
            assert(t[i] == s[i]);
        }
        law_running_and_yielded_are_all_active(t);
        assert(s.last() == s[s.len() - 1]);
    }
}

/// This struct provides the inspection functions.
pub struct KernelInfo<'a, P: ProcessType> {
    kernel: &'a Kernel<P>,
}

impl<'a, P: ProcessType> KernelInfo<'a, P> {
    pub closed spec fn spec_kernel(&self) -> &'a Kernel<P> {
        self.kernel
    }

    /// Inspection of the given kernel.
    pub fn new(kernel: &'a Kernel<P>) -> (r: KernelInfo<'a, P>)
        ensures
            r.spec_kernel() == kernel,
    {
        KernelInfo { kernel: kernel }
    }

    /// Adds up `f` over the processes of the table; `f` must be a one
    /// or zero for each process.
    fn count<F>(&self, f: F, Ghost(g): Ghost<spec_fn(P) -> nat>) -> (r: usize)
        where
            F: Fn(&P) -> bool,
        requires
            forall|p: P| #[trigger] g(p) <= 1,
            forall|p: &P| f.requires((p,)),
            forall|p: &P, b: bool| f.ensures((p,), b) ==> (b <==> g(*p) == 1),
        ensures
            r == sum_over(self.spec_kernel().spec_processes(), g),
    {
        let n = self.kernel.number_of_process_slots();
        let ghost s = self.kernel.spec_processes();
        let mut count: usize = 0;
        let mut i: usize = 0;
        while i < n
            invariant
                n == s.len(),
                s == self.kernel.spec_processes(),
                i <= n,
                count == sum_over(s.take(i as int), g),
                count <= i,
                forall|p: P| #[trigger] g(p) <= 1,
                forall|p: &P| f.requires((p,)),
                forall|p: &P, b: bool| f.ensures((p,), b) ==> (b <==> g(*p) == 1),
            decreases n - i,
        {
            proof {
                lemma_sum_over_step(s, g, i as int);
            }
            let hit = match self.kernel.process_at(i) {
                Some(p) => f(p),
                None => false,
            };
            if hit {
                count = count + 1;
            }
            i += 1;
        }
        proof {
            assert(s.take(n as int) =~= s);
        }
        count
    }

    /// Returns how many processes have been loaded on this platform. This
    /// is functionally equivalent to how many of the process slots have
    /// been filled.
    pub fn number_loaded_processes<C: ProcessManagementCapability>(&self, _capability: &C) -> (r: usize)
        ensures
            r == sum_over(self.spec_kernel().spec_processes(), loaded::<P>()),
    {
        let ghost g = loaded::<P>();
        let f = |p: &P| -> (b: bool)
            ensures
                b,
            { true };
        self.count(f, Ghost(g))
    }

    /// Returns how many processes are considered to be active. This
    /// includes processes in the `Running` and `Yielded` states. This does
    /// not include processes which have faulted, or processes which the
    /// kernel is no longer scheduling because they have faulted too
    /// frequently or for some other reason.
    pub fn number_active_processes<C: ProcessManagementCapability>(&self, _capability: &C) -> (r: usize)
        ensures
            r == sum_over(self.spec_kernel().spec_processes(), active::<P>()),
    {
        let ghost g = active::<P>();
        let f = |p: &P| -> (b: bool)
            ensures
                b == (p.spec_state() == State::Running || p.spec_state() == State::Yielded),
            {
                match p.get_state() {
                    State::Running => true,
                    State::Yielded => true,
                    _ => false,
                }
            };
        self.count(f, Ghost(g))
    }

    /// Returns how many processes are considered to be inactive. This
    /// includes processes in the `Fault` state and processes which the
    /// kernel is not scheduling for any reason.
    pub fn number_inactive_processes<C: ProcessManagementCapability>(&self, _capability: &C) -> (r: usize)
        ensures
            r == sum_over(self.spec_kernel().spec_processes(), inactive::<P>()),
    {
        let ghost g = inactive::<P>();
        let f = |p: &P| -> (b: bool)
            ensures
                b == !(p.spec_state() == State::Running || p.spec_state() == State::Yielded),
            {
                match p.get_state() {
                    State::Running => false,
                    State::Yielded => false,
                    _ => true,
                }
            };
        self.count(f, Ghost(g))
    }

    /// Get the name of the process, or "unknown" if there is no such
    /// process.
    pub fn process_name<C: ProcessManagementCapability>(&self, app: AppId, _capability: &C) -> (r: &'a str)
        requires
        ensures
            app.spec_idx() < self.spec_kernel().spec_processes().len()
                && self.spec_kernel().spec_processes()[app.spec_idx() as int] is Some
                ==> r@ == self.spec_kernel().spec_processes()[app.spec_idx() as int]->Some_0.spec_process_name(),
            !(app.spec_idx() < self.spec_kernel().spec_processes().len()
                && self.spec_kernel().spec_processes()[app.spec_idx() as int] is Some) ==> r@ == "unknown"@,
    {
        let kernel: &'a Kernel<P> = self.kernel;
        match kernel.process_at(app.idx()) {
            Some(process) => process.get_process_name(),
            None => "unknown",
        }
    }

    /// A counter of the process in slot `app`, or 0 if there is none.
    fn app_counter(&self, app: AppId, which: usize) -> (r: usize)
        requires
            which < 4,
        ensures
            r == match slot_at(self.spec_kernel().spec_processes(), app.spec_idx()) {
                Some(p) => counter_of(p, which),
                None => 0usize,
            },
    {
        match self.kernel.process_at(app.idx()) {
            Some(process) => if which == 0 {
                process.debug_syscall_count()
            } else if which == 1 {
                process.debug_dropped_callback_count()
            } else if which == 2 {
                process.debug_restart_count()
            } else {
                process.debug_timeslice_expiration_count()
            },
            None => 0,
        }
    }

    /// The counts of processes agree: every loaded process is either
    /// active or inactive, and the active ones are those running or
    /// yielded, as `law_active_means_running_or_yielded` counts them.
    pub proof fn law_process_counts_agree<C: ProcessManagementCapability>(&self, cap: &C, a: usize, i: usize, l: usize)
        requires
            call_ensures(KernelInfo::<'a, P>::number_active_processes::<C>, (self, cap), a),
            call_ensures(KernelInfo::<'a, P>::number_inactive_processes::<C>, (self, cap), i),
            call_ensures(KernelInfo::<'a, P>::number_loaded_processes::<C>, (self, cap), l),
        ensures
            a + i == l,
            a == sum_over(self.spec_kernel().spec_processes(), active::<P>()),
    {
        law_active_and_inactive_are_loaded(self.spec_kernel().spec_processes());
    }

    /// Returns the number of syscalls the app has called.
    pub fn number_app_syscalls<C: ProcessManagementCapability>(&self, app: AppId, _capability: &C) -> (r: usize)
        requires
        ensures
            r == match slot_at(self.spec_kernel().spec_processes(), app.spec_idx()) {
                Some(p) => p.spec_counters().syscall_count,
                None => 0usize,
            },
    {
        self.app_counter(app, 0)
    }

    /// Returns the number of dropped callbacks the app has experienced.
    /// Callbacks can be dropped if the queue for the app is full when a
    /// capsule tries to schedule a callback.
    pub fn number_app_dropped_callbacks<C: ProcessManagementCapability>(&self, app: AppId, _capability: &C) -> (r: usize)
        requires
        ensures
            r == match slot_at(self.spec_kernel().spec_processes(), app.spec_idx()) {
                Some(p) => p.spec_counters().dropped_callback_count,
                None => 0usize,
            },
    {
        self.app_counter(app, 1)
    }

    /// Returns the number of time this app has been restarted.
    pub fn number_app_restarts<C: ProcessManagementCapability>(&self, app: AppId, _capability: &C) -> (r: usize)
        requires
        ensures
            r == match slot_at(self.spec_kernel().spec_processes(), app.spec_idx()) {
                Some(p) => p.spec_counters().restart_count,
                None => 0usize,
            },
    {
        self.app_counter(app, 2)
    }

    /// Returns the number of time this app has exceeded its timeslice.
    pub fn number_app_timeslice_expirations<C: ProcessManagementCapability>(&self, app: AppId, _capability: &C) -> (r: usize)
        requires
        ensures
            r == match slot_at(self.spec_kernel().spec_processes(), app.spec_idx()) {
                Some(p) => p.spec_counters().timeslice_expiration_count,
                None => 0usize,
            },
    {
        self.app_counter(app, 3)
    }

    /// Returns the total number of times all processes have exceeded their
    /// timeslices; the total must fit in a `usize`.
    pub fn timeslice_expirations<C: ProcessManagementCapability>(&self, _capability: &C) -> (r: usize)
        requires
            sum_over(self.spec_kernel().spec_processes(), timeslices::<P>()) <= usize::MAX,
        ensures
            r == sum_over(self.spec_kernel().spec_processes(), timeslices::<P>()),
    {
        let n = self.kernel.number_of_process_slots();
        let ghost s = self.kernel.spec_processes();
        let mut count: usize = 0;
        let mut i: usize = 0;
        while i < n
            invariant
                n == s.len(),
                s == self.kernel.spec_processes(),
                i <= n,
                count == sum_over(s.take(i as int), timeslices::<P>()),
                sum_over(s, timeslices::<P>()) <= usize::MAX,
            decreases n - i,
        {
            proof {
                lemma_sum_over_step(s, timeslices::<P>(), i as int);
                lemma_sum_over_prefix(s, timeslices::<P>(), i as int + 1);
            }
            match self.kernel.process_at(i) {
                Some(p) => {
                    count = count + p.debug_timeslice_expiration_count();
                },
                None => {},
            }
            i += 1;
        }
        proof {
            assert(s.take(n as int) =~= s);
        }
        count
    }
}

/// A debugging counter of a process: the syscall, dropped callback,
/// restart or timeslice expiration count.
pub open spec fn counter_of<P: ProcessType>(p: P, which: usize) -> usize {
    if which == 0 {
        p.spec_counters().syscall_count
    } else if which == 1 {
        p.spec_counters().dropped_callback_count
    } else if which == 2 {
        p.spec_counters().restart_count
    } else {
        p.spec_counters().timeslice_expiration_count
    }
}

/// A sum over a table whose slots from `i` on are empty is the sum over
/// its first `i` slots.
pub proof fn lemma_sum_over_rest_empty<P: ProcessType>(s: Seq<Option<P>>, f: spec_fn(P) -> nat, i: int)
    requires
        0 <= i <= s.len(),
        forall|k: int| i <= k < s.len() ==> #[trigger] s[k] is None,
    ensures
        sum_over(s, f) == sum_over(s.take(i), f),
    decreases s.len() - i,
{
    if i < s.len() {
        lemma_sum_over_step(s, f, i);
        lemma_sum_over_rest_empty(s, f, i + 1);
    } else {
        assert(s.take(i) =~= s);
    }
}

/// A sum over a prefix of a table is at most the sum over the table.
proof fn lemma_sum_over_prefix<P: ProcessType>(s: Seq<Option<P>>, f: spec_fn(P) -> nat, i: int)
    requires
        0 <= i <= s.len(),
    ensures
        sum_over(s.take(i), f) <= sum_over(s, f),
    decreases s.len() - i,
{
    if i < s.len() {
        lemma_sum_over_step(s, f, i);
        lemma_sum_over_prefix(s, f, i + 1);
    } else {
        assert(s.take(i) =~= s);
    }
}

} // verus!
