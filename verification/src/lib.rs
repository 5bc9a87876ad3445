//! The Tock kernel's core logic: its queues, lists, cells, deferred calls
//! and arithmetic helpers; the process model with its memory accounting;
//! the Tock Binary Format header parser; system-call decoding and dispatch;
//! grants and inter-process communication; the kernel's process table and
//! scheduler; the debug writer; and the hardware interface traits.

pub mod callback;
pub mod capabilities;
pub mod common;
pub mod component;
pub mod components;
pub mod debug;
pub mod driver;
pub mod grant;
pub mod hil;
pub mod introspection;
pub mod ipc;
pub mod mem;
pub mod memop;
pub mod platform;
pub mod process;
pub mod returncode;
pub mod sched;
pub mod syscall;
pub mod tbfheader;

pub use crate::callback::{AppId, Callback, CallbackId};
pub use crate::driver::Driver;
pub use crate::mem::{AppPtr, AppSlice, Private, Shared};
pub use crate::platform::mpu;
pub use crate::platform::systick::SysTick;
pub use crate::platform::{Chip, ClockInterface, NoClockControl, Platform};
pub use crate::returncode::ReturnCode;
