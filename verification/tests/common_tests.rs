use kernel::common::cells::MapCell;
use kernel::common::deferred_call::{has_tasks, DeferredCall, DeferredCallState};
use kernel::common::dynamic_deferred_call::{
    DeferredCallHandle, DynamicDeferredCall, DynamicDeferredCallClient, DynamicDeferredCallClientState,
};
use kernel::common::list::{List, ListLink};
use kernel::common::math::{closest_power_of_two, log_base_two, log_base_two_u64, PowerOfTwo};
use kernel::common::queue::Queue;
use kernel::common::ring_buffer::RingBuffer;
use kernel::common::static_ref::StaticRef;
use std::cell::RefCell;
use std::convert::TryFrom;

#[test]
fn ring_buffer_is_first_in_first_out() {
    let mut rb = RingBuffer::new(vec![0u8; 4]);
    assert!(!rb.has_elements());
    assert!(rb.enqueue(1));
    assert!(rb.enqueue(2));
    assert!(rb.enqueue(3));
    assert_eq!(rb.dequeue(), Some(1));
    assert!(rb.enqueue(4));
    assert_eq!(rb.dequeue(), Some(2));
    assert_eq!(rb.dequeue(), Some(3));
    assert_eq!(rb.dequeue(), Some(4));
    assert_eq!(rb.dequeue(), None);
}

#[test]
fn ring_buffer_keeps_one_slot_free() {
    let mut rb = RingBuffer::new(vec![0u32; 3]);
    assert!(rb.enqueue(10));
    assert!(rb.enqueue(20));
    assert!(rb.is_full());
    assert!(!rb.enqueue(30));
    assert_eq!(rb.len(), 2);
    assert_eq!(rb.available_len(), 0);
}

#[test]
fn ring_buffer_len_and_available_fill_the_ring() {
    let mut rb = RingBuffer::new(vec![0u8; 8]);
    for i in 0..5u8 {
        rb.enqueue(i);
        assert_eq!(rb.len() + rb.available_len() + 1, 8);
    }
    rb.dequeue();
    assert_eq!(rb.len(), 4);
    assert_eq!(rb.available_len(), 3);
}

#[test]
fn ring_buffer_as_slices_wraps_around() {
    let mut rb = RingBuffer::new(vec![0u8; 4]);
    assert_eq!(rb.as_slices(), (None, None));
    rb.enqueue(1);
    rb.enqueue(2);
    rb.enqueue(3);
    rb.dequeue();
    rb.dequeue();
    rb.enqueue(4);
    rb.enqueue(5);
    let (a, b) = rb.as_slices();
    assert_eq!(a, Some(&[3u8, 4][..]));
    assert_eq!(b, Some(&[5u8][..]));
}

#[test]
fn ring_buffer_retain_keeps_order() {
    let mut rb = RingBuffer::new(vec![0u32; 8]);
    for i in 1..7u32 {
        rb.enqueue(i);
    }
    rb.retain(|x| x % 2 == 0);
    assert_eq!(rb.len(), 3);
    assert_eq!(rb.dequeue(), Some(2));
    assert_eq!(rb.dequeue(), Some(4));
    assert_eq!(rb.dequeue(), Some(6));
    assert_eq!(rb.dequeue(), None);
}

#[test]
fn ring_buffer_empty_drops_everything() {
    let mut rb = RingBuffer::new(vec![0u8; 4]);
    rb.enqueue(1);
    rb.enqueue(2);
    rb.empty();
    assert_eq!(rb.len(), 0);
    assert!(!rb.has_elements());
    assert!(rb.enqueue(7));
    assert_eq!(rb.dequeue(), Some(7));
}

#[test]
fn closest_power_of_two_rounds_up() {
    assert_eq!(closest_power_of_two(1), 1);
    assert_eq!(closest_power_of_two(2), 2);
    assert_eq!(closest_power_of_two(3), 4);
    assert_eq!(closest_power_of_two(5), 8);
    assert_eq!(closest_power_of_two(1024), 1024);
    assert_eq!(closest_power_of_two(1025), 2048);
    assert_eq!(closest_power_of_two(0x8000_0000), 0x8000_0000);
}

#[test]
fn log_base_two_rounds_down() {
    assert_eq!(log_base_two(0), 0);
    assert_eq!(log_base_two(1), 0);
    assert_eq!(log_base_two(8), 3);
    assert_eq!(log_base_two(9), 3);
    assert_eq!(log_base_two(u32::MAX), 31);
    assert_eq!(log_base_two_u64(0), 0);
    assert_eq!(log_base_two_u64(1 << 40), 40);
    assert_eq!(log_base_two_u64(u64::MAX), 63);
}

#[test]
fn power_of_two_floor_and_ceiling() {
    let f = PowerOfTwo::floor(100u32);
    assert_eq!(f.exp::<u32>(), 6);
    assert_eq!(f.as_num::<u32>(), 64);
    let c = PowerOfTwo::ceiling(100u32);
    assert_eq!(c.exp::<u32>(), 7);
    assert_eq!(c.as_num::<u32>(), 128);
    assert_eq!(PowerOfTwo::zero().as_num::<u32>(), 1);
    assert_eq!(PowerOfTwo::ceiling(64u32), PowerOfTwo::floor(64u32));
}

#[test]
fn powers_of_two_round_trip() {
    for k in 0..32u32 {
        let v = 1u32 << k;
        assert_eq!(PowerOfTwo::floor(v).as_num::<u32>(), v);
        assert_eq!(PowerOfTwo::ceiling(v).as_num::<u32>(), v);
        assert_eq!(PowerOfTwo::floor(v).exp::<u32>(), k);
    }
}

#[test]
fn map_cell_take_put_replace() {
    let mut c: MapCell<u32> = MapCell::empty();
    assert!(c.is_none());
    assert_eq!(c.take(), None);
    c.put(5);
    assert!(c.is_some());
    assert_eq!(c.replace(6), Some(5));
    assert_eq!(c.take(), Some(6));
    assert!(c.is_none());
    assert_eq!(c.replace(7), None);
    assert_eq!(MapCell::new(3u8).take(), Some(3));
}

#[test]
fn map_cell_lends_its_value() {
    let mut c = MapCell::new(10u32);
    assert_eq!(c.map(|v| {
        *v += 1;
        *v * 2
    }), Some(22));
    assert_eq!(c.map_or(0, |v| *v), 11);
    assert_eq!(c.and_then(|v| if *v > 5 { Some(*v) } else { None }), Some(11));
    let mut e: MapCell<u32> = MapCell::empty();
    assert_eq!(e.map(|v| *v), None);
    assert_eq!(e.map_or(9, |v| *v), 9);
    e.modify_or_replace(|v| *v += 1, || 100);
    assert_eq!(e.take(), Some(100));
    c.modify_or_replace(|v| *v += 1, || 100);
    assert_eq!(c.take(), Some(12));
}

#[derive(Clone, Copy, Debug, PartialEq)]
enum Task {
    Radio,
    Timer,
    Usb,
}

impl From<Task> for usize {
    fn from(t: Task) -> usize {
        match t {
            Task::Radio => 0,
            Task::Timer => 3,
            Task::Usb => 5,
        }
    }
}

impl TryFrom<usize> for Task {
    type Error = ();
    fn try_from(v: usize) -> Result<Task, ()> {
        match v {
            0 => Ok(Task::Radio),
            3 => Ok(Task::Timer),
            5 => Ok(Task::Usb),
            _ => Err(()),
        }
    }
}

#[test]
fn deferred_calls_come_out_lowest_first() {
    let mut state = DeferredCallState::new();
    assert!(!has_tasks(&state));
    DeferredCall::new(Task::Usb).set(&mut state);
    DeferredCall::new(Task::Timer).set(&mut state);
    assert!(has_tasks(&state));
    assert_eq!(DeferredCall::<Task>::next_pending(&mut state), Some(Task::Timer));
    assert_eq!(DeferredCall::<Task>::next_pending(&mut state), Some(Task::Usb));
    assert_eq!(DeferredCall::<Task>::next_pending(&mut state), None);
    assert!(!has_tasks(&state));
}

#[test]
fn deferred_call_set_twice_is_pending_once() {
    let mut state = DeferredCallState::new();
    let call = DeferredCall::new(Task::Radio);
    call.set(&mut state);
    call.set(&mut state);
    assert_eq!(DeferredCall::<Task>::next_pending(&mut state), Some(Task::Radio));
    assert!(!has_tasks(&state));
}

struct Recorder {
    calls: RefCell<Vec<usize>>,
}

impl DynamicDeferredCallClient for Recorder {
    fn call(&self, handle: DeferredCallHandle) {
        self.calls.borrow_mut().push(handle.0);
    }
}

#[test]
fn dynamic_deferred_calls_run_scheduled_clients_in_order() {
    let rec = Recorder { calls: RefCell::new(Vec::new()) };
    let states = vec![
        DynamicDeferredCallClientState::default(),
        DynamicDeferredCallClientState::default(),
        DynamicDeferredCallClientState::default(),
    ];
    let mut ddc = DynamicDeferredCall::new(states);
    let h0 = ddc.register(&rec).unwrap();
    let h1 = ddc.register(&rec).unwrap();
    let h2 = ddc.register(&rec).unwrap();
    assert!(ddc.register(&rec).is_none());
    assert!(!ddc.has_pending());
    assert_eq!(ddc.set(h2), Some(true));
    assert_eq!(ddc.set(h0), Some(true));
    assert_eq!(ddc.set(h0), Some(false));
    assert!(ddc.has_pending());
    ddc.call();
    assert!(!ddc.has_pending());
    assert_eq!(*rec.calls.borrow(), vec![0, 2]);
    assert_eq!(ddc.set(h1), Some(true));
    ddc.call_while(|| false);
    assert_eq!(*rec.calls.borrow(), vec![0, 2]);
    assert_eq!(ddc.set(h1), Some(false));
}

#[test]
fn dynamic_deferred_calls_reach_their_own_clients() {
    let first = Recorder { calls: RefCell::new(Vec::new()) };
    let second = Recorder { calls: RefCell::new(Vec::new()) };
    let states = vec![DynamicDeferredCallClientState::default(), DynamicDeferredCallClientState::default()];
    let mut ddc = DynamicDeferredCall::new(states);
    let h_first = ddc.register(&first).unwrap();
    let h_second = ddc.register(&second).unwrap();
    assert_eq!(h_first, DeferredCallHandle(0));
    assert_eq!(h_second, DeferredCallHandle(1));
    assert_eq!(ddc.set(h_second), Some(true));
    assert_eq!(ddc.set(h_first), Some(true));
    ddc.call();
    assert_eq!(*first.calls.borrow(), vec![0]);
    assert_eq!(*second.calls.borrow(), vec![1]);
}

#[test]
fn dynamic_deferred_call_without_client_is_not_set() {
    let states: Vec<DynamicDeferredCallClientState<Recorder>> = vec![DynamicDeferredCallClientState::default()];
    let mut ddc = DynamicDeferredCall::new(states);
    assert_eq!(ddc.set(DeferredCallHandle(0)), None);
    assert!(!ddc.has_pending());
}

#[test]
fn list_keeps_nodes_in_order() {
    let (a, b, c) = (1u32, 2u32, 3u32);
    let mut list = List::new();
    assert_eq!(list.head(), None);
    list.push_tail(&b);
    list.push_head(&a);
    list.push_tail(&c);
    assert_eq!(list.head(), Some(&1));
    let mut it = list.iter();
    assert_eq!(it.next(), Some(&1));
    assert_eq!(it.next(), Some(&2));
    assert_eq!(it.next(), Some(&3));
    assert_eq!(it.next(), None);
    assert_eq!(list.pop_head(), Some(&1));
    assert_eq!(list.pop_head(), Some(&2));
    assert_eq!(list.pop_head(), Some(&3));
    assert_eq!(list.pop_head(), None);
    let link: ListLink<u32> = ListLink::empty();
    assert!(link.0.is_none());
}

#[test]
fn static_ref_keeps_its_address() {
    let r: StaticRef<u32> = StaticRef::new(0x4000_1000);
    let s = r;
    assert_eq!(s.address(), 0x4000_1000);
    assert_eq!(r.clone().address(), 0x4000_1000);
}
