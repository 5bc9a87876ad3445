//! Data structures and helpers shared by the whole kernel.

pub mod cells;
pub mod deferred_call;
pub mod dynamic_deferred_call;
pub mod list;
pub mod math;
pub mod peripherals;
pub mod queue;
pub mod ring_buffer;
pub mod static_ref;

pub use self::queue::Queue;
pub use self::ring_buffer::RingBuffer;
pub use self::list::{List, ListLink, ListNode};
pub use self::static_ref::StaticRef;
