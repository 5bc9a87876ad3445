//! Dynamic Deferred Calls: capsules can register to be called back later,
//! and schedule such calls; the kernel runs the scheduled calls in order of
//! registration.

use vstd::prelude::*;

verus! {

/// Kernel-internal state for `DynamicDeferredCall` clients: whether a call
/// is scheduled, and the client.
pub struct DynamicDeferredCallClientState<'a, C: DynamicDeferredCallClient> {
    pub scheduled: bool,
    pub client: Option<&'a C>,
}

impl<'a, C: DynamicDeferredCallClient> Default for DynamicDeferredCallClientState<'a, C> {
    fn default() -> (r: DynamicDeferredCallClientState<'a, C>)
        ensures
            !r.scheduled,
            r.client is None,
    {
        DynamicDeferredCallClientState { scheduled: false, client: None }
    }
}

/// Dynamic deferred call: a slot for each client that can register, in
/// order of registration.
pub struct DynamicDeferredCall<'a, C: DynamicDeferredCallClient> {
    client_states: Vec<DynamicDeferredCallClientState<'a, C>>,
    handle_counter: usize,
    call_pending: bool,
}

/// Client for the `DynamicDeferredCall` infrastructure.
pub trait DynamicDeferredCallClient {
    fn call(&self, handle: DeferredCallHandle);
}

/// Unique identifier for a deferred call registered with a
/// `DynamicDeferredCall`.
#[derive(Clone, Copy, Debug, PartialEq, Eq, Structural)]
pub struct DeferredCallHandle(pub usize);

impl<'a, C: DynamicDeferredCallClient> DynamicDeferredCall<'a, C> {
    /// For each client slot: whether a call is scheduled and whether a
    /// client is registered.
    pub closed spec fn spec_slots(&self) -> Seq<(bool, bool)> {
        self.client_states@.map_values(|s: DynamicDeferredCallClientState<'a, C>| (s.scheduled, s.client is Some))
    }

    /// For each client slot: the client registered there, if any.
    pub closed spec fn spec_clients(&self) -> Seq<Option<&'a C>> {
        self.client_states@.map_values(|s: DynamicDeferredCallClientState<'a, C>| s.client)
    }

    pub closed spec fn spec_handle_counter(&self) -> usize {
        self.handle_counter
    }

    pub closed spec fn spec_call_pending(&self) -> bool {
        self.call_pending
    }

    /// Construct a new dynamic deferred call implementation over the given
    /// client slots.
    pub fn new(client_states: Vec<DynamicDeferredCallClientState<'a, C>>) -> (r: DynamicDeferredCall<'a, C>)
        ensures
            r.spec_slots() == client_states@.map_values(|s: DynamicDeferredCallClientState<'a, C>| (s.scheduled, s.client is Some)),
            r.spec_clients() == client_states@.map_values(|s: DynamicDeferredCallClientState<'a, C>| s.client),
            r.spec_handle_counter() == 0,
            !r.spec_call_pending(),
    {
        DynamicDeferredCall { client_states, handle_counter: 0, call_pending: false }
    }

    /// Schedule a deferred callback on the client associated with the
    /// passed handle. Returns `None` if no client is registered there,
    /// `Some(false)` if a call was already scheduled, `Some(true)` if it is
    /// scheduled now.
    pub fn set(&mut self, handle: DeferredCallHandle) -> (r: Option<bool>)
        requires
            handle.0 < old(self).spec_slots().len(),
        ensures
            final(self).spec_handle_counter() == old(self).spec_handle_counter(),
            final(self).spec_clients() == old(self).spec_clients(),
            !old(self).spec_slots()[handle.0 as int].1 ==> r is None && final(self).spec_slots() == old(self).spec_slots()
                && final(self).spec_call_pending() == old(self).spec_call_pending(),
            old(self).spec_slots()[handle.0 as int].1 && old(self).spec_slots()[handle.0 as int].0 ==> r == Some(false)
                && final(self).spec_slots() == old(self).spec_slots()
                && final(self).spec_call_pending() == old(self).spec_call_pending(),
            old(self).spec_slots()[handle.0 as int].1 && !old(self).spec_slots()[handle.0 as int].0 ==> r == Some(true)
                && final(self).spec_slots() == old(self).spec_slots().update(handle.0 as int, (true, true))
                && final(self).spec_call_pending(),
    {
        let DeferredCallHandle(client_pos) = handle;
        if self.client_states[client_pos].client.is_some() {
            if self.client_states[client_pos].scheduled {
                // Already scheduled
                Some(false)
            } else {
                self.client_states[client_pos].scheduled = true;
                self.call_pending = true;
                proof {
                    assert(self.spec_slots() =~= old(self).spec_slots().update(handle.0 as int, (true, true)));
                    assert(self.spec_clients() =~= old(self).spec_clients());
                }
                Some(true)
            }
        } else {
            None
        }
    }

    /// Register a new client. On success, a `Some(handle)` will be returned,
    /// naming the next free slot, which now holds `ddc_client` with no call
    /// scheduled; `None` if all slots are taken.
    pub fn register(&mut self, ddc_client: &'a C) -> (r: Option<DeferredCallHandle>)
        ensures
            final(self).spec_call_pending() == old(self).spec_call_pending(),
            old(self).spec_handle_counter() < old(self).spec_slots().len() ==> {
                &&& r == Some(DeferredCallHandle(old(self).spec_handle_counter()))
                &&& final(self).spec_handle_counter() == old(self).spec_handle_counter() + 1
                &&& final(self).spec_slots() == old(self).spec_slots().update(old(self).spec_handle_counter() as int, (false, true))
                &&& final(self).spec_clients() == old(self).spec_clients().update(old(self).spec_handle_counter() as int, Some(ddc_client))
            },
            old(self).spec_handle_counter() >= old(self).spec_slots().len() ==> {
                &&& r is None
                &&& final(self).spec_handle_counter() == old(self).spec_handle_counter()
                &&& final(self).spec_slots() == old(self).spec_slots()
                &&& final(self).spec_clients() == old(self).spec_clients()
            },
    {
        let current_counter = self.handle_counter;
        if current_counter < self.client_states.len() {
            self.client_states[current_counter].scheduled = false;
            self.client_states[current_counter].client = Some(ddc_client);
            self.handle_counter = current_counter + 1;
            proof {
                assert(self.spec_slots() =~= old(self).spec_slots().update(current_counter as int, (false, true)));
                assert(self.spec_clients() =~= old(self).spec_clients().update(current_counter as int, Some(ddc_client)));
            }
            Some(DeferredCallHandle(current_counter))
        } else {
            None
        }
    }

    /// Check if one or more dynamic deferred calls are pending.
    pub fn has_pending(&self) -> (r: bool)
        ensures
            r == self.spec_call_pending(),
    {
        self.call_pending
    }

    /// Call the registered callbacks that are scheduled, each with its own
    /// handle.
    pub fn call(&mut self)
        ensures
            final(self).spec_handle_counter() == old(self).spec_handle_counter(),
            final(self).spec_clients() == old(self).spec_clients(),
            !final(self).spec_call_pending(),
            old(self).spec_call_pending() ==> forall|i: int| 0 <= i < old(self).spec_slots().len()
                && (#[trigger] old(self).spec_slots()[i]).0 && old(self).spec_slots()[i].1
                ==> client_called(old(self).spec_clients()[i], i),
            old(self).spec_call_pending() ==> final(self).spec_slots() == old(self).spec_slots().map_values(
                |s: (bool, bool)| if s.1 { (false, true) } else { s }),
            !old(self).spec_call_pending() ==> final(self).spec_slots() == old(self).spec_slots(),
    {
        let always = || -> (b: bool)
            ensures
                b,
            { true };
        self.call_while(always);
        proof {
            if old(self).spec_call_pending() {
                let k = choose|k: int| {
                    &&& 0 <= k <= old(self).spec_slots().len()
                    &&& #[trigger] final_slots_after(old(self).spec_slots(), k, final(self).spec_slots())
                    &&& clients_called(always, old(self).spec_slots(), old(self).spec_clients(), k)
                    &&& (k < old(self).spec_slots().len() ==> always.ensures((), false))
                };
                if k < old(self).spec_slots().len() {
                    assert(always.ensures((), false));
                    assert(false);
                }
                assert(final(self).spec_slots() =~= old(self).spec_slots().map_values(
                    |s: (bool, bool)| if s.1 { (false, true) } else { s }));
            }
        }
    }

    /// Call the registered callbacks that are scheduled, in order, while
    /// `f` returns true (it is asked before each call). A called client's
    /// call is no longer scheduled, and it is called with its own handle.
    /// Nothing happens when no call is pending.
    pub fn call_while<F: Fn() -> bool>(&mut self, f: F)
        requires
            f.requires(()),
        ensures
            final(self).spec_handle_counter() == old(self).spec_handle_counter(),
            final(self).spec_clients() == old(self).spec_clients(),
            !final(self).spec_call_pending(),
            !old(self).spec_call_pending() ==> final(self).spec_slots() == old(self).spec_slots(),
            old(self).spec_call_pending() ==> exists|k: int| {
                &&& 0 <= k <= old(self).spec_slots().len()
                &&& #[trigger] final_slots_after(old(self).spec_slots(), k, final(self).spec_slots())
                &&& clients_called(f, old(self).spec_slots(), old(self).spec_clients(), k)
                &&& (k < old(self).spec_slots().len() ==> f.ensures((), false)
                    && old(self).spec_slots()[k] == (true, true))
            },
    {
        if self.call_pending {
            self.call_pending = false;
            let n = self.client_states.len();
            let mut i: usize = 0;
            while i < n
                invariant
                    n == self.client_states@.len(),
                    n == old(self).client_states@.len(),
                    i <= n,
                    f.requires(()),
                    self.handle_counter == old(self).handle_counter,
                    !self.call_pending,
                    old(self).call_pending,
                    final_slots_after(old(self).spec_slots(), i as int, self.spec_slots()),
                    self.spec_clients() == old(self).spec_clients(),
                    clients_called(f, old(self).spec_slots(), old(self).spec_clients(), i as int),
                decreases n - i,
            {
                let ghost before = self.client_states@;
                let ghost slots_before = self.spec_slots();
                if self.client_states[i].scheduled {
                    match self.client_states[i].client {
                        Some(c) => {
                            if !f() {
                                proof {
                                    assert(final_slots_after(old(self).spec_slots(), i as int, self.spec_slots()));
                                    assert(old(self).spec_slots()[i as int] == slots_before[i as int]);
                                    assert(slots_before[i as int] == (before[i as int].scheduled, before[i as int].client is Some));
                                    assert(old(self).spec_slots()[i as int] == (true, true));
                                }
                                return;
                            }
                            self.client_states[i].scheduled = false;
                            c.call(DeferredCallHandle(i));
                            proof {
                                assert(client_called(Some(c), i as int));
                            }
                        },
                        None => {},
                    }
                }
                proof {
                    let o = old(self).spec_slots();
                    let t = self.spec_slots();
                    assert(slots_before[i as int] == o[i as int]);
                    assert(slots_before[i as int] == (before[i as int].scheduled, before[i as int].client is Some));
                    assert(self.client_states@.len() == before.len());
                    assert(forall|j: int| 0 <= j < n && j != i ==> self.client_states@[j] == before[j]);
                    assert(t[i as int] == (self.client_states@[i as int].scheduled, self.client_states@[i as int].client is Some));
                    assert(forall|j: int| 0 <= j < n && j != i ==> #[trigger] t[j] == slots_before[j]);
                    assert(t[i as int] == if o[i as int].1 { (false, true) } else { o[i as int] });
                    assert forall|j: int| 0 <= j < i + 1 implies #[trigger] t[j] == if o[j].1 { (false, true) } else { o[j] } by {
                    }
                    assert(self.spec_clients() =~= old(self).spec_clients());
                }
                i += 1;
            }
            proof {
                assert(final_slots_after(old(self).spec_slots(), n as int, self.spec_slots()));
            }
        }
    }
}

/// The handle counter of a `DynamicDeferredCall` with `slots` client slots
/// after `k` registrations from a fresh one (whose counter is 0).
pub open spec fn handle_counter_after(slots: nat, k: nat) -> nat {
    if k < slots { k } else { slots }
}

/// Registration hands out the client slots in order: the counter after
/// `k + 1` registrations is what `register` makes of the counter after `k`
/// (one more while a slot is free, else the same), so the `k`-th
/// registration gets handle `k` exactly when `k` is below the number of
/// slots, and none after all slots are taken.
pub proof fn law_register_in_order(slots: nat, k: nat)
    ensures
        handle_counter_after(slots, 0) == 0,
        handle_counter_after(slots, k + 1) == if handle_counter_after(slots, k) < slots {
            handle_counter_after(slots, k) + 1
        } else {
            handle_counter_after(slots, k)
        },
        handle_counter_after(slots, k) < slots <==> k < slots,
        k < slots ==> handle_counter_after(slots, k) == k,
{
}

/// Client `client` of slot `i` was called with the handle of its slot.
pub open spec fn client_called<'a, C: DynamicDeferredCallClient>(client: Option<&'a C>, i: int) -> bool {
    &&& client is Some
    &&& call_ensures(<C as DynamicDeferredCallClient>::call, (client->Some_0, DeferredCallHandle(i as usize)), ())
}

/// Of the first `k` client slots, each with a scheduled call and a client
/// had `f` asked first, answering true, and then its client called.
pub open spec fn clients_called<'a, C: DynamicDeferredCallClient, F: Fn() -> bool>(
    f: F,
    slots: Seq<(bool, bool)>,
    clients: Seq<Option<&'a C>>,
    k: int,
) -> bool {
    forall|i: int| 0 <= i < k && (#[trigger] slots[i]).0 && slots[i].1 ==> {
        &&& f.ensures((), true)
        &&& client_called(clients[i], i)
    }
}

/// The client slots after the calls of the first `k` slots: each of those
/// with a client is no longer scheduled; the rest are as they were.
pub open spec fn final_slots_after(old_slots: Seq<(bool, bool)>, k: int, new_slots: Seq<(bool, bool)>) -> bool {
    &&& new_slots.len() == old_slots.len()
    &&& forall|i: int| 0 <= i < k ==> #[trigger] new_slots[i] == if old_slots[i].1 { (false, true) } else { old_slots[i] }
    &&& forall|i: int| k <= i < old_slots.len() ==> #[trigger] new_slots[i] == old_slots[i]
}

} // verus!
