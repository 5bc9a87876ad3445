use kernel::callback::{AppId, Callback, CallbackId};
use kernel::capabilities::{MemoryAllocationCapability, ProcessManagementCapability};
use kernel::driver::Driver;
use kernel::grant::{Borrowed, Grant};
use kernel::introspection::KernelInfo;
use kernel::ipc::IPC;
use kernel::memop::memop;
use kernel::platform::{Chip, Platform};
use kernel::process::{
    exceeded_check, load_processes, Error, FaultResponse, FunctionCall, FunctionCallSource, Process, ProcessType, State,
    Task,
};
use kernel::returncode::ReturnCode;
use kernel::sched::{Kernel, ProcessStep};
use kernel::syscall::{ContextSwitchReason, Syscall, UserspaceKernelBoundary};
use std::cell::{Cell, RefCell};

struct Cap;
impl ProcessManagementCapability for Cap {}
impl MemoryAllocationCapability for Cap {}

struct Boundary {
    reasons: RefCell<Vec<ContextSwitchReason>>,
    stack_needed: usize,
}

impl UserspaceKernelBoundary for Boundary {
    type StoredState = isize;

    fn stored_return_value(state: isize) -> isize {
        state
    }

    fn initialize_new_process(&self, stack_pointer: usize, _stack_size: usize, _state: &mut isize) -> Result<usize, ()> {
        Ok(stack_pointer)
    }

    fn set_syscall_return_value(&self, _stack_pointer: usize, state: &mut isize, return_value: isize) {
        *state = return_value;
    }

    fn set_process_function(
        &self,
        stack_pointer: usize,
        remaining_stack_memory: usize,
        _state: &mut isize,
        _callback: FunctionCall,
    ) -> Result<usize, usize> {
        if remaining_stack_memory >= self.stack_needed {
            Ok(stack_pointer - self.stack_needed)
        } else {
            Err(stack_pointer.wrapping_sub(self.stack_needed))
        }
    }

    fn switch_to_process(&self, stack_pointer: usize, _state: &mut isize) -> (usize, ContextSwitchReason) {
        let r = self.reasons.borrow_mut().pop().unwrap_or(ContextSwitchReason::Interrupted);
        (stack_pointer, r)
    }
}

struct TestChip {
    boundary: Boundary,
    interrupts: Cell<bool>,
}

impl Chip for TestChip {
    type MPU = ();
    type UserspaceKernelBoundary = Boundary;
    type SysTick = ();

    fn service_pending_interrupts(&self) {}

    fn has_pending_interrupts(&self) -> bool {
        self.interrupts.get()
    }

    fn mpu(&self) -> &() {
        &()
    }

    fn systick(&self) -> &() {
        &()
    }

    fn userspace_kernel_boundary(&self) -> &Boundary {
        &self.boundary
    }

    fn sleep(&self) {}

    fn atomic<F, R>(&self, f: F) -> R
    where
        F: FnOnce() -> R,
    {
        f()
    }
}

fn chip(stack_needed: usize) -> TestChip {
    TestChip { boundary: Boundary { reasons: RefCell::new(Vec::new()), stack_needed }, interrupts: Cell::new(false) }
}

struct TestDriver {
    commands: RefCell<Vec<(usize, usize, usize, usize)>>,
}

impl Driver for TestDriver {
    fn command(&self, minor_num: usize, r2: usize, r3: usize, caller_id: AppId) -> ReturnCode {
        self.commands.borrow_mut().push((minor_num, r2, r3, caller_id.idx()));
        ReturnCode::SuccessWithValue { value: minor_num + r2 }
    }
}

struct TestPlatform {
    driver: TestDriver,
}

impl Platform for TestPlatform {
    type Driver = TestDriver;

    fn with_driver<F, R>(&self, driver_num: usize, f: F) -> R
    where
        F: FnOnce(Option<&TestDriver>) -> R,
    {
        if driver_num == 7 {
            f(Some(&self.driver))
        } else {
            f(None)
        }
    }
}

fn put_u16(v: &mut Vec<u8>, x: u16) {
    v.extend_from_slice(&x.to_le_bytes());
}

fn put_u32(v: &mut Vec<u8>, x: u32) {
    v.extend_from_slice(&x.to_le_bytes());
}

/// The flash of an enabled app named `name`, `total` bytes long.
fn app(name: &[u8], total: u32, init: u32, protected: u32, min_ram: u32, regions: &[(u32, u32)]) -> Vec<u8> {
    let mut tlvs = Vec::new();
    put_u16(&mut tlvs, 1);
    put_u16(&mut tlvs, 12);
    put_u32(&mut tlvs, init);
    put_u32(&mut tlvs, protected);
    put_u32(&mut tlvs, min_ram);
    put_u16(&mut tlvs, 3);
    put_u16(&mut tlvs, name.len() as u16);
    tlvs.extend_from_slice(name);
    while tlvs.len() % 4 != 0 {
        tlvs.push(0);
    }
    if !regions.is_empty() {
        put_u16(&mut tlvs, 2);
        put_u16(&mut tlvs, (regions.len() * 8) as u16);
        for (o, s) in regions {
            put_u32(&mut tlvs, *o);
            put_u32(&mut tlvs, *s);
        }
    }
    let header_size = 16 + tlvs.len();
    let mut h = Vec::new();
    put_u16(&mut h, 2);
    put_u16(&mut h, header_size as u16);
    put_u32(&mut h, total);
    put_u32(&mut h, 1);
    put_u32(&mut h, 0);
    h.extend_from_slice(&tlvs);
    let mut checksum = 0u32;
    for (i, w) in h.chunks(4).enumerate() {
        if i != 3 {
            checksum ^= u32::from_le_bytes([w[0], w[1], w[2], w[3]]);
        }
    }
    h[12..16].copy_from_slice(&checksum.to_le_bytes());
    h.resize(total as usize, 0);
    h
}

const FLASH: usize = 0x1_0000;
const RAM: usize = 0x2000_0000;
const RAM_SIZE: usize = 0x4_0000;

fn flash_two_apps() -> Vec<u8> {
    let mut flash = app(b"one", 1024, 0x40, 0x10, 4096, &[(0x200, 0x80)]);
    flash.extend(app(b"two", 2048, 0x20, 0, 8192, &[]));
    flash.extend(vec![0u8; 64]);
    flash
}

fn kernel_size<'a>(grants: usize) -> usize {
    grants * 4 + 10 * std::mem::size_of::<Task>() + std::mem::size_of::<Process<'a, TestChip>>()
}

fn new_process<'a>(chip: &'a TestChip, kernel: &mut Kernel<Process<'a, TestChip>>, fault_response: FaultResponse) -> Process<'a, TestChip> {
    let flash = app(b"solo", 1024, 0x40, 0x10, 4096, &[(0x200, 0x80)]);
    let (p, flash_size, mem_size) = Process::create(kernel, chip, &flash, FLASH, RAM, RAM_SIZE, fault_response, 0);
    assert_eq!(flash_size, 1024);
    assert!(mem_size > 0);
    p.unwrap()
}

#[test]
fn exceeded_check_marks_overflow() {
    assert_eq!(exceeded_check(10, 5), " EXCEEDED!");
    assert_eq!(exceeded_check(5, 5), "          ");
    assert_eq!(exceeded_check(0, 5).len(), 10);
}

#[test]
fn create_lays_out_process_memory() {
    let c = chip(32);
    let mut kernel: Kernel<Process<TestChip>> = Kernel::new(vec![None]);
    let mut p = new_process(&c, &mut kernel, FaultResponse::Stop);
    let hs = 16 + 16 + 8 + 12;
    assert_eq!(p.mem_start(), RAM);
    assert_eq!(p.mem_end(), RAM + 4096 + kernel_size(0));
    assert_eq!(p.flash_start(), FLASH);
    assert_eq!(p.flash_end(), FLASH + 1024);
    assert_eq!(p.kernel_memory_break(), p.mem_end() - kernel_size(0));
    assert_eq!(p.flash_non_protected_start(), FLASH + hs + 0x10);
    assert_eq!(p.get_state(), State::Unstarted);
    assert_eq!(p.get_process_name(), "solo");
    assert_eq!(p.appid().idx(), 0);
    assert_eq!(p.sp(), RAM + 3072);
    let mut work = 1usize;
    match p.dequeue_task(&mut work) {
        Some(Task::FunctionCall(fc)) => {
            assert_eq!(fc.source, FunctionCallSource::Kernel);
            assert_eq!(fc.pc, FLASH + hs + 0x40);
            assert_eq!(fc.argument0, FLASH + hs + 0x10);
            assert_eq!(fc.argument1, RAM);
            assert_eq!(fc.argument2, 4096 + kernel_size(0));
            assert_eq!(fc.argument3, RAM + 3072);
        }
        _ => panic!("no entry call"),
    }
    assert_eq!(work, 0);
    assert!(p.dequeue_task(&mut work).is_none());
}

#[test]
fn create_refuses_disabled_apps_and_garbage() {
    let c = chip(32);
    let mut kernel: Kernel<Process<TestChip>> = Kernel::new(vec![None]);
    let mut flash = app(b"off", 512, 0, 0, 0, &[]);
    // Clear the enable flag and fix the checksum word.
    flash[8] = 0;
    flash[12] ^= 1;
    let (p, f, m) = Process::create(&mut kernel, &c, &flash, FLASH, RAM, RAM_SIZE, FaultResponse::Stop, 0);
    assert!(p.is_none());
    assert_eq!((f, m), (512, 0));
    let (p, f, m) = Process::create(&mut kernel, &c, &[0u8; 32], FLASH, RAM, RAM_SIZE, FaultResponse::Stop, 0);
    assert!(p.is_none());
    assert_eq!((f, m), (0, 0));
}

#[test]
fn create_refuses_too_little_memory() {
    let c = chip(32);
    let mut kernel: Kernel<Process<TestChip>> = Kernel::new(vec![None]);
    let flash = app(b"big", 1024, 0, 0, 0x10_0000, &[]);
    let (p, f, m) = Process::create(&mut kernel, &c, &flash, FLASH, RAM, RAM_SIZE, FaultResponse::Stop, 0);
    assert!(p.is_none());
    assert_eq!((f, m), (1024, 0));
}

#[test]
fn load_processes_fills_the_table() {
    let c = chip(32);
    let flash = flash_two_apps();
    let mut kernel: Kernel<Process<TestChip>> = Kernel::new(vec![None, None, None]);
    load_processes(&mut kernel, &c, &flash, FLASH, RAM, RAM_SIZE, FaultResponse::Stop, &Cap);
    let info = KernelInfo::new(&kernel);
    assert_eq!(info.number_loaded_processes(&Cap), 2);
    assert_eq!(info.number_active_processes(&Cap), 0);
    assert_eq!(info.number_inactive_processes(&Cap), 2);
    assert_eq!(info.process_name(AppId::new(0), &Cap), "one");
    assert_eq!(info.process_name(AppId::new(1), &Cap), "two");
    assert_eq!(info.process_name(AppId::new(2), &Cap), "unknown");
    let p0 = kernel.process_at(0).unwrap();
    let p1 = kernel.process_at(1).unwrap();
    assert_eq!(p0.flash_start(), FLASH);
    assert_eq!(p1.flash_start(), FLASH + 1024);
    assert_eq!(p0.mem_start(), RAM);
    assert_eq!(p1.mem_start(), p0.mem_end());
    assert_eq!(p1.mem_end() - p1.mem_start(), 8192 + kernel_size(0));
    assert!(!kernel.processes_blocked());
    assert_eq!(kernel.number_of_process_slots(), 3);
    assert!(kernel.process_at(2).is_none());
}

#[test]
fn memop_reports_memory_and_flash() {
    let c = chip(32);
    let mut kernel: Kernel<Process<TestChip>> = Kernel::new(vec![None]);
    let mut p = new_process(&c, &mut kernel, FaultResponse::Stop);
    let end = p.mem_end();
    let grant_start = p.kernel_memory_break();
    assert_eq!(memop(&mut p, 2, 0), ReturnCode::SuccessWithValue { value: RAM });
    assert_eq!(memop(&mut p, 3, 0), ReturnCode::SuccessWithValue { value: end });
    assert_eq!(memop(&mut p, 4, 0), ReturnCode::SuccessWithValue { value: FLASH });
    assert_eq!(memop(&mut p, 5, 0), ReturnCode::SuccessWithValue { value: FLASH + 1024 });
    assert_eq!(memop(&mut p, 6, 0), ReturnCode::SuccessWithValue { value: grant_start });
    assert_eq!(memop(&mut p, 7, 0), ReturnCode::SuccessWithValue { value: 1 });
    assert_eq!(memop(&mut p, 8, 0), ReturnCode::SuccessWithValue { value: FLASH + 0x200 });
    assert_eq!(memop(&mut p, 9, 0), ReturnCode::SuccessWithValue { value: FLASH + 0x280 });
    assert_eq!(memop(&mut p, 8, 1), ReturnCode::FAIL);
    assert_eq!(memop(&mut p, 9, 5), ReturnCode::FAIL);
    assert_eq!(memop(&mut p, 12, 0), ReturnCode::ENOSUPPORT);
}

#[test]
fn memop_brk_and_sbrk_move_the_break() {
    let c = chip(32);
    let mut kernel: Kernel<Process<TestChip>> = Kernel::new(vec![None]);
    let mut p = new_process(&c, &mut kernel, FaultResponse::Stop);
    let start_break = RAM + 3072;
    assert_eq!(memop(&mut p, 1, 0), ReturnCode::SuccessWithValue { value: start_break });
    assert_eq!(memop(&mut p, 1, 100), ReturnCode::SuccessWithValue { value: start_break });
    assert_eq!(memop(&mut p, 1, 0), ReturnCode::SuccessWithValue { value: start_break + 100 });
    assert_eq!(memop(&mut p, 1, (-50isize) as usize), ReturnCode::SuccessWithValue { value: start_break + 100 });
    assert_eq!(memop(&mut p, 0, start_break + 500), ReturnCode::SUCCESS);
    assert_eq!(p.sbrk(0), Ok(start_break + 500));
    // Past the kernel's memory, and outside the process's memory.
    let past_kernel = p.kernel_memory_break() + 1;
    assert_eq!(memop(&mut p, 0, past_kernel), ReturnCode::ENOMEM);
    assert_eq!(p.brk(p.kernel_memory_break() + 1), Err(Error::OutOfMemory));
    assert_eq!(p.brk(p.mem_end()), Err(Error::AddressOutOfBounds));
    assert_eq!(p.sbrk(isize::MIN), Err(Error::AddressOutOfBounds));
    assert_eq!(p.sbrk(0), Ok(start_break + 500));
}

#[test]
fn memop_records_stack_and_heap() {
    let c = chip(32);
    let mut kernel: Kernel<Process<TestChip>> = Kernel::new(vec![None]);
    let mut p = new_process(&c, &mut kernel, FaultResponse::Stop);
    assert_eq!(memop(&mut p, 10, RAM + 2048), ReturnCode::SUCCESS);
    assert_eq!(memop(&mut p, 11, RAM + 2500), ReturnCode::SUCCESS);
    assert_eq!(memop(&mut p, 11, 5), ReturnCode::SUCCESS);
    let d = p.process_detail();
    assert_eq!(d.sram_stack_start, Some(RAM + 2048));
    assert_eq!(d.sram_heap_start, Some(RAM + 2500));
    assert_eq!(d.sram_stack_bottom, RAM + 2048);
    assert_eq!(d.sram_data_size, Some(452));
    assert_eq!(d.sram_heap_size, Some(3072 - 2500));
    assert_eq!(d.sram_stack_allocated, Some(2048));
    assert_eq!(d.events_queued, 1);
    assert_eq!(d.flash_start, FLASH);
    assert_eq!(d.flash_end, FLASH + 1024);
    assert_eq!(d.state, State::Unstarted);
}

#[test]
fn allow_checks_the_buffer_and_pins_the_break() {
    let c = chip(32);
    let mut kernel: Kernel<Process<TestChip>> = Kernel::new(vec![None]);
    let mut p = new_process(&c, &mut kernel, FaultResponse::Stop);
    assert!(matches!(p.allow(0, 10), Ok(None)));
    assert_eq!(p.allow(RAM + 4000, 10).err(), Some(ReturnCode::EINVAL));
    assert_eq!(p.allow(RAM - 1, 10).err(), Some(ReturnCode::EINVAL));
    let slice = p.allow(RAM + 1000, 200).unwrap().unwrap();
    assert_eq!(slice.ptr(), RAM + 1000);
    assert_eq!(slice.len(), 200);
    assert_eq!(slice.owner().idx(), 0);
    // The break can no longer drop below the end of the shared buffer.
    assert_eq!(p.brk(RAM + 1100), Err(Error::AddressOutOfBounds));
    assert_eq!(p.brk(RAM + 1200), Ok(RAM + 3072));
    assert!(p.in_app_owned_memory(RAM + 1000, 200));
    assert!(!p.in_app_owned_memory(RAM + 1000, 300));
}

#[test]
fn a_full_queue_drops_and_counts() {
    let c = chip(32);
    let mut kernel: Kernel<Process<TestChip>> = Kernel::new(vec![None]);
    let mut p = new_process(&c, &mut kernel, FaultResponse::Stop);
    let mut work = 1usize;
    let call = FunctionCall { source: FunctionCallSource::Kernel, argument0: 0, argument1: 0, argument2: 0, argument3: 0, pc: 0 };
    for _ in 0..8 {
        assert!(p.enqueue_task(&mut work, Task::FunctionCall(call)));
    }
    assert_eq!(work, 9);
    assert!(!p.enqueue_task(&mut work, Task::FunctionCall(call)));
    assert_eq!(work, 10);
    assert_eq!(p.debug_dropped_callback_count(), 1);
}

#[test]
fn removing_callbacks_keeps_other_tasks() {
    let c = chip(32);
    let mut kernel: Kernel<Process<TestChip>> = Kernel::new(vec![None]);
    let mut p = new_process(&c, &mut kernel, FaultResponse::Stop);
    let mut work = 1usize;
    let id = CallbackId { driver_num: 3, subscribe_num: 1 };
    let other = CallbackId { driver_num: 3, subscribe_num: 2 };
    let call = |source, pc| FunctionCall { source, argument0: 0, argument1: 0, argument2: 0, argument3: 0, pc };
    p.enqueue_task(&mut work, Task::FunctionCall(call(FunctionCallSource::Driver(id), 1)));
    p.enqueue_task(&mut work, Task::FunctionCall(call(FunctionCallSource::Driver(other), 2)));
    p.enqueue_task(&mut work, Task::FunctionCall(call(FunctionCallSource::Driver(id), 3)));
    p.remove_pending_callbacks(id);
    let mut pcs = Vec::new();
    while let Some(Task::FunctionCall(fc)) = p.dequeue_task(&mut work) {
        pcs.push(fc.pc);
    }
    assert_eq!(pcs.len(), 2);
    assert_eq!(pcs[1], 2);
}

#[test]
fn stop_then_resume_restores_state() {
    let c = chip(32);
    let mut kernel: Kernel<Process<TestChip>> = Kernel::new(vec![None]);
    let mut p = new_process(&c, &mut kernel, FaultResponse::Stop);
    let mut work = 1usize;
    p.stop();
    assert_eq!(p.get_state(), State::Unstarted);
    // Run it, then stop and resume.
    let fc = match p.dequeue_task(&mut work) {
        Some(Task::FunctionCall(fc)) => fc,
        _ => panic!(),
    };
    assert!(!p.set_process_function(&mut work, fc));
    assert_eq!(p.get_state(), State::Running);
    p.stop();
    assert_eq!(p.get_state(), State::StoppedRunning);
    p.stop();
    assert_eq!(p.get_state(), State::StoppedRunning);
    p.resume();
    assert_eq!(p.get_state(), State::Running);
    p.set_yielded_state(&mut work);
    assert_eq!(p.get_state(), State::Yielded);
    p.stop();
    assert_eq!(p.get_state(), State::StoppedYielded);
    p.resume();
    assert_eq!(p.get_state(), State::Yielded);
}

#[test]
fn fault_with_restart_requeues_entry_point() {
    let c = chip(32);
    let mut kernel: Kernel<Process<TestChip>> = Kernel::new(vec![None]);
    let mut p = new_process(&c, &mut kernel, FaultResponse::Restart);
    let mut work = 1usize;
    let call = FunctionCall { source: FunctionCallSource::Kernel, argument0: 0, argument1: 0, argument2: 0, argument3: 0, pc: 9 };
    p.enqueue_task(&mut work, Task::FunctionCall(call));
    assert_eq!(p.brk(RAM + 3500), Ok(RAM + 3072));
    p.set_fault_state(&mut work);
    assert_eq!(p.get_state(), State::Unstarted);
    assert_eq!(work, 1);
    assert_eq!(p.debug_restart_count(), 1);
    assert_eq!(p.sbrk(0), Ok(RAM + 3072));
    assert_eq!(p.process_detail().events_queued, 1);
    let hs = 16 + 16 + 8 + 12;
    match p.dequeue_task(&mut work) {
        Some(Task::FunctionCall(fc)) => {
            assert_eq!(fc.source, FunctionCallSource::Kernel);
            assert_eq!(fc.pc, FLASH + hs + 0x40);
            assert_eq!(fc.argument0, FLASH + hs + 0x10);
            assert_eq!(fc.argument1, RAM);
            assert_eq!(fc.argument2, 4096 + kernel_size(0));
            assert_eq!(fc.argument3, RAM + 3072);
        }
        _ => panic!("no entry call"),
    }
}

#[test]
fn fault_with_stop_drops_tasks() {
    let c = chip(32);
    let mut kernel: Kernel<Process<TestChip>> = Kernel::new(vec![None]);
    let mut p = new_process(&c, &mut kernel, FaultResponse::Stop);
    let mut work = 1usize;
    p.set_fault_state(&mut work);
    assert_eq!(p.get_state(), State::StoppedFaulted);
    assert_eq!(work, 0);
    assert_eq!(p.process_detail().events_queued, 0);
}

#[test]
fn fault_with_panic_asks_for_a_panic() {
    let c = chip(100_000);
    let mut kernel: Kernel<Process<TestChip>> = Kernel::new(vec![None]);
    let mut p = new_process(&c, &mut kernel, FaultResponse::Panic);
    assert_eq!(p.get_fault_response(), FaultResponse::Panic);
    let mut work = 1usize;
    match p.dequeue_task(&mut work) {
        Some(Task::FunctionCall(fc)) => assert!(p.set_process_function(&mut work, fc)),
        _ => panic!("no entry call"),
    }
    assert_eq!(p.get_state(), State::Fault);
    assert_eq!(work, 0);
}

#[test]
fn no_room_on_the_stack_faults_the_process() {
    let c = chip(100_000);
    let mut kernel: Kernel<Process<TestChip>> = Kernel::new(vec![None]);
    let mut p = new_process(&c, &mut kernel, FaultResponse::Stop);
    let mut work = 1usize;
    let fc = match p.dequeue_task(&mut work) {
        Some(Task::FunctionCall(fc)) => fc,
        _ => panic!(),
    };
    assert!(!p.set_process_function(&mut work, fc));
    assert_eq!(p.get_state(), State::StoppedFaulted);
    assert_eq!(work, 0);
}

#[test]
fn scheduler_runs_a_process_until_it_yields() {
    let c = chip(32);
    let flash = flash_two_apps();
    let mut kernel: Kernel<Process<TestChip>> = Kernel::new(vec![None, None]);
    load_processes(&mut kernel, &c, &flash, FLASH, RAM, RAM_SIZE, FaultResponse::Stop, &Cap);
    let platform = TestPlatform { driver: TestDriver { commands: RefCell::new(Vec::new()) } };
    let mut ipc: Option<IPC> = None;
    kernel.begin_timeslice(&c);
    // The entry call is handed to the process.
    assert_eq!(kernel.do_process_step(&platform, &c, 0, &mut ipc), ProcessStep::Continue);
    assert_eq!(kernel.process_at(0).unwrap().get_state(), State::Running);
    // It runs, makes a command, then yields.
    c.boundary.reasons.borrow_mut().push(ContextSwitchReason::SyscallFired { syscall: Syscall::YIELD });
    c.boundary.reasons.borrow_mut().push(ContextSwitchReason::SyscallFired {
        syscall: Syscall::COMMAND { driver_number: 7, subdriver_number: 2, arg0: 40, arg1: 0 },
    });
    assert_eq!(kernel.do_process_step(&platform, &c, 0, &mut ipc), ProcessStep::Continue);
    assert_eq!(*platform.driver.commands.borrow(), vec![(2, 40, 0, 0)]);
    assert_eq!(kernel.do_process_step(&platform, &c, 0, &mut ipc), ProcessStep::Continue);
    assert_eq!(kernel.process_at(0).unwrap().get_state(), State::Yielded);
    // Nothing left to do for it.
    assert_eq!(kernel.do_process_step(&platform, &c, 0, &mut ipc), ProcessStep::Break);
    assert!(!kernel.processes_blocked());
    // Run the second app to its yield too; then the kernel may sleep.
    assert_eq!(kernel.do_process_step(&platform, &c, 1, &mut ipc), ProcessStep::Continue);
    c.boundary.reasons.borrow_mut().push(ContextSwitchReason::SyscallFired { syscall: Syscall::YIELD });
    assert_eq!(kernel.do_process_step(&platform, &c, 1, &mut ipc), ProcessStep::Continue);
    assert!(kernel.processes_blocked());
}

#[test]
fn scheduler_breaks_on_interrupts_and_timeslices() {
    let c = chip(32);
    let flash = flash_two_apps();
    let mut kernel: Kernel<Process<TestChip>> = Kernel::new(vec![None, None]);
    load_processes(&mut kernel, &c, &flash, FLASH, RAM, RAM_SIZE, FaultResponse::Stop, &Cap);
    let platform = TestPlatform { driver: TestDriver { commands: RefCell::new(Vec::new()) } };
    let mut ipc: Option<IPC> = None;
    c.interrupts.set(true);
    assert_eq!(kernel.do_process_step(&platform, &c, 0, &mut ipc), ProcessStep::Break);
    assert_eq!(kernel.process_at(0).unwrap().get_state(), State::Unstarted);
    c.interrupts.set(false);
    assert_eq!(kernel.do_process_step(&platform, &c, 0, &mut ipc), ProcessStep::Continue);
    c.boundary.reasons.borrow_mut().push(ContextSwitchReason::TimesliceExpired);
    assert_eq!(kernel.do_process_step(&platform, &c, 0, &mut ipc), ProcessStep::Break);
    let info = KernelInfo::new(&kernel);
    assert_eq!(info.number_app_timeslice_expirations(AppId::new(0), &Cap), 1);
    assert_eq!(info.timeslice_expirations(&Cap), 1);
}

#[test]
fn scheduler_faults_and_skips_a_crashed_process() {
    let c = chip(32);
    let flash = flash_two_apps();
    let mut kernel: Kernel<Process<TestChip>> = Kernel::new(vec![None, None]);
    load_processes(&mut kernel, &c, &flash, FLASH, RAM, RAM_SIZE, FaultResponse::Stop, &Cap);
    let platform = TestPlatform { driver: TestDriver { commands: RefCell::new(Vec::new()) } };
    let mut ipc: Option<IPC> = None;
    assert_eq!(kernel.do_process_step(&platform, &c, 0, &mut ipc), ProcessStep::Continue);
    c.boundary.reasons.borrow_mut().push(ContextSwitchReason::Fault);
    assert_eq!(kernel.do_process_step(&platform, &c, 0, &mut ipc), ProcessStep::Continue);
    assert_eq!(kernel.process_at(0).unwrap().get_state(), State::StoppedFaulted);
    assert_eq!(kernel.do_process_step(&platform, &c, 0, &mut ipc), ProcessStep::Break);
    let info = KernelInfo::new(&kernel);
    assert_eq!(info.number_inactive_processes(&Cap), 2);
}

#[test]
fn scheduler_leaves_a_stopped_process_as_it_was() {
    let c = chip(32);
    let flash = flash_two_apps();
    let mut kernel: Kernel<Process<TestChip>> = Kernel::new(vec![None, None]);
    load_processes(&mut kernel, &c, &flash, FLASH, RAM, RAM_SIZE, FaultResponse::Stop, &Cap);
    let platform = TestPlatform { driver: TestDriver { commands: RefCell::new(Vec::new()) } };
    let mut ipc: Option<IPC> = None;
    assert_eq!(kernel.do_process_step(&platform, &c, 0, &mut ipc), ProcessStep::Continue);
    c.boundary.reasons.borrow_mut().push(ContextSwitchReason::Fault);
    assert_eq!(kernel.do_process_step(&platform, &c, 0, &mut ipc), ProcessStep::Continue);
    let before = kernel.process_at(0).unwrap().debug_syscall_count();
    // The process is not run again: the next reason stays unused.
    c.boundary.reasons.borrow_mut().push(ContextSwitchReason::SyscallFired { syscall: Syscall::YIELD });
    for _ in 0..3 {
        assert_eq!(kernel.do_process_step(&platform, &c, 0, &mut ipc), ProcessStep::Break);
    }
    let p = kernel.process_at(0).unwrap();
    assert_eq!(p.get_state(), State::StoppedFaulted);
    assert_eq!(p.debug_syscall_count(), before);
    assert_eq!(p.debug_timeslice_expiration_count(), 0);
    assert_eq!(c.boundary.reasons.borrow().len(), 1);
}

#[test]
fn unknown_driver_and_memop_syscalls() {
    let c = chip(32);
    let flash = flash_two_apps();
    let mut kernel: Kernel<Process<TestChip>> = Kernel::new(vec![None, None]);
    load_processes(&mut kernel, &c, &flash, FLASH, RAM, RAM_SIZE, FaultResponse::Stop, &Cap);
    let platform = TestPlatform { driver: TestDriver { commands: RefCell::new(Vec::new()) } };
    let mut ipc: Option<IPC> = None;
    kernel.do_process_step(&platform, &c, 0, &mut ipc);
    c.boundary.reasons.borrow_mut().push(ContextSwitchReason::SyscallFired { syscall: Syscall::MEMOP { operand: 1, arg0: 64 } });
    c.boundary.reasons.borrow_mut().push(ContextSwitchReason::SyscallFired {
        syscall: Syscall::COMMAND { driver_number: 99, subdriver_number: 0, arg0: 0, arg1: 0 },
    });
    c.boundary.reasons.borrow_mut().push(ContextSwitchReason::SyscallFired {
        syscall: Syscall::ALLOW { driver_number: 99, subdriver_number: 0, allow_address: RAM, allow_size: 4 },
    });
    for _ in 0..3 {
        assert_eq!(kernel.do_process_step(&platform, &c, 0, &mut ipc), ProcessStep::Continue);
    }
    assert!(platform.driver.commands.borrow().is_empty());
    let p = kernel.process_at(0).unwrap();
    assert_eq!(p.process_detail().sram_heap_end, RAM + 3072 + 64);
}

#[test]
fn hardfault_all_apps_restarts_them() {
    let c = chip(32);
    let flash = flash_two_apps();
    let mut kernel: Kernel<Process<TestChip>> = Kernel::new(vec![None, None, None]);
    load_processes(&mut kernel, &c, &flash, FLASH, RAM, RAM_SIZE, FaultResponse::Restart, &Cap);
    kernel.hardfault_all_apps(&Cap);
    let info = KernelInfo::new(&kernel);
    assert_eq!(info.number_app_restarts(AppId::new(0), &Cap), 1);
    assert_eq!(info.number_app_restarts(AppId::new(1), &Cap), 1);
    assert_eq!(info.number_app_restarts(AppId::new(2), &Cap), 0);
    assert_eq!(info.number_app_syscalls(AppId::new(0), &Cap), 0);
    assert_eq!(kernel.process_at(1).unwrap().get_state(), State::Unstarted);
}

#[test]
fn callbacks_are_queued_for_their_process() {
    let c = chip(32);
    let flash = flash_two_apps();
    let mut kernel: Kernel<Process<TestChip>> = Kernel::new(vec![None, None, None]);
    load_processes(&mut kernel, &c, &flash, FLASH, RAM, RAM_SIZE, FaultResponse::Stop, &Cap);
    let id = CallbackId { driver_num: 4, subscribe_num: 0 };
    let mut cb = Callback::new(AppId::new(1), id, 77, 0x1234);
    assert!(cb.schedule(&mut kernel, 1, 2, 3));
    assert_eq!(kernel.process_at(1).unwrap().process_detail().events_queued, 2);
    let mut nobody = Callback::new(AppId::new(2), id, 0, 0);
    assert!(!nobody.schedule(&mut kernel, 0, 0, 0));
    let info = KernelInfo::new(&kernel);
    assert_eq!(info.number_app_dropped_callbacks(AppId::new(1), &Cap), 0);
}

#[test]
fn editable_flash_range_skips_the_header() {
    let c = chip(32);
    let flash = flash_two_apps();
    let mut kernel: Kernel<Process<TestChip>> = Kernel::new(vec![None, None, None]);
    load_processes(&mut kernel, &c, &flash, FLASH, RAM, RAM_SIZE, FaultResponse::Stop, &Cap);
    let hs = 16 + 16 + 8 + 12;
    assert_eq!(AppId::new(0).get_editable_flash_range(&kernel), (FLASH + hs + 0x10, FLASH + 1024));
    assert_eq!(AppId::new(2).get_editable_flash_range(&kernel), (0, 0));
}

#[test]
fn grants_are_allocated_once_per_process() {
    let c = chip(32);
    let flash = flash_two_apps();
    let mut kernel: Kernel<Process<TestChip>> = Kernel::new(vec![None, None, None]);
    let mut grant: Grant<u64> = kernel.create_grant(&Cap);
    load_processes(&mut kernel, &c, &flash, FLASH, RAM, RAM_SIZE, FaultResponse::Stop, &Cap);
    let before = kernel.process_at(0).unwrap().kernel_memory_break();
    assert!(grant.grant(&kernel, AppId::new(0)).is_none());
    {
        let v = grant.enter(&mut kernel, AppId::new(0)).unwrap();
        assert_eq!(*v, 0);
        *v = 5;
    }
    let after = kernel.process_at(0).unwrap().kernel_memory_break();
    assert_eq!(after, (before - 8) & !7);
    assert_eq!(*grant.enter(&mut kernel, AppId::new(0)).unwrap(), 5);
    assert_eq!(kernel.process_at(0).unwrap().kernel_memory_break(), after);
    let applied = grant.grant(&kernel, AppId::new(0)).unwrap();
    assert_eq!(applied.address(), after);
    assert_eq!(applied.appid().idx(), 0);
    assert_eq!(grant.enter(&mut kernel, AppId::new(2)).err(), Some(Error::NoSuchApp));
    let mut it = grant.iter(&kernel);
    assert_eq!(it.next(&kernel).unwrap().appid().idx(), 0);
    assert!(it.next(&kernel).is_none());
    grant.each(&kernel, |_app, v| *v += 1);
    assert_eq!(*grant.enter(&mut kernel, AppId::new(0)).unwrap(), 6);
    {
        let mut b = Borrowed::new(grant.enter(&mut kernel, AppId::new(0)).unwrap(), AppId::new(0));
        assert_eq!(b.appid().idx(), 0);
        assert_eq!(*b.get(), 6);
        *b.get_mut() = 9;
        assert_eq!(*b.get(), 9);
    }
    assert_eq!(*grant.enter(&mut kernel, AppId::new(0)).unwrap(), 9);
}

#[test]
fn ipc_finds_services_by_name_and_queues_tasks() {
    let c = chip(32);
    let flash = flash_two_apps();
    let mut kernel: Kernel<Process<TestChip>> = Kernel::new(vec![None, None, None]);
    let mut ipc = IPC::new(&mut kernel, &Cap);
    load_processes(&mut kernel, &c, &flash, FLASH, RAM, RAM_SIZE, FaultResponse::Stop, &Cap);
    let slice = kernel::mem::AppSlice::new(RAM + 100, 3, AppId::new(0));
    assert_eq!(ipc.allow(&mut kernel, AppId::new(0), 0, Some(slice), b"two"), ReturnCode::SuccessWithValue { value: 2 });
    let slice = kernel::mem::AppSlice::new(RAM + 100, 5, AppId::new(0));
    assert_eq!(ipc.allow(&mut kernel, AppId::new(0), 0, Some(slice), b"three"), ReturnCode::EINVAL);
    assert_eq!(ipc.allow(&mut kernel, AppId::new(0), 0, None, b""), ReturnCode::EINVAL);
    // Register a service callback for app 1 and a client callback for app 0.
    let service = Callback::new(AppId::new(1), CallbackId { driver_num: 0x10000, subscribe_num: 0 }, 5, 0x500);
    assert_eq!(ipc.subscribe(&mut kernel, 0, Some(service), AppId::new(1)), ReturnCode::SUCCESS);
    assert_eq!(ipc.subscribe(&mut kernel, 10, None, AppId::new(1)), ReturnCode::EINVAL);
    assert_eq!(ipc.subscribe(&mut kernel, 0, None, AppId::new(2)), ReturnCode::EBUSY);
    // App 0 asks service 2 (app 1) for a call.
    assert_eq!(ipc.command(&mut kernel, 2, 0, AppId::new(0)), ReturnCode::SUCCESS);
    assert_eq!(ipc.command(&mut kernel, 3, 0, AppId::new(0)), ReturnCode::EINVAL);
    assert_eq!(kernel.process_at(1).unwrap().process_detail().events_queued, 2);
    // App 1 shares a buffer with app 0; then the service callback runs.
    let shared = kernel::mem::AppSlice::new(kernel.process_at(1).unwrap().mem_start() + 8, 16, AppId::new(1));
    assert_eq!(ipc.allow(&mut kernel, AppId::new(1), 1, Some(shared), b""), ReturnCode::SUCCESS);
    assert_eq!(ipc.allow(&mut kernel, AppId::new(1), 20, None, b""), ReturnCode::EINVAL);
    ipc.schedule_callback(&mut kernel, AppId::new(1), AppId::new(0), kernel::process::IPCType::Service);
    assert_eq!(kernel.process_at(1).unwrap().process_detail().events_queued, 3);
}

#[test]
fn handle_syscall_subscribes_commands_and_yields() {
    let c = chip(32);
    let platform = TestPlatform { driver: TestDriver { commands: RefCell::new(Vec::new()) } };
    let mut kernel: Kernel<Process<TestChip>> = Kernel::new(vec![None]);
    let mut p = new_process(&c, &mut kernel, FaultResponse::Stop);
    let mut work = 1usize;
    match p.dequeue_task(&mut work) {
        Some(Task::FunctionCall(fc)) => assert!(!p.set_process_function(&mut work, fc)),
        _ => panic!("no entry call"),
    }
    assert_eq!(p.get_state(), State::Running);
    assert_eq!(work, 1);
    let from = |subscribe_num: usize| FunctionCall {
        source: FunctionCallSource::Driver(CallbackId { driver_num: 7, subscribe_num }),
        argument0: subscribe_num,
        argument1: 0,
        argument2: 0,
        argument3: 0,
        pc: 0x100,
    };
    assert!(p.enqueue_task(&mut work, Task::FunctionCall(from(1))));
    assert!(p.enqueue_task(&mut work, Task::FunctionCall(from(2))));
    assert!(p.enqueue_task(&mut work, Task::FunctionCall(from(1))));
    assert_eq!(work, 4);
    let subscribe = Syscall::SUBSCRIBE { driver_number: 7, subdriver_number: 1, callback_ptr: 0, appdata: 0 };
    Kernel::<Process<TestChip>>::handle_syscall(&mut p, &mut work, &platform, subscribe);
    assert_eq!(p.get_state(), State::Running);
    assert_eq!(work, 4);
    assert_eq!(p.process_detail().events_queued, 1);
    let command = Syscall::COMMAND { driver_number: 7, subdriver_number: 3, arg0: 4, arg1: 5 };
    Kernel::<Process<TestChip>>::handle_syscall(&mut p, &mut work, &platform, command);
    assert_eq!(*platform.driver.commands.borrow(), vec![(3, 4, 5, 0)]);
    let allow = Syscall::ALLOW { driver_number: 9, subdriver_number: 0, allow_address: RAM + 16, allow_size: 8 };
    Kernel::<Process<TestChip>>::handle_syscall(&mut p, &mut work, &platform, allow);
    assert_eq!(p.brk(RAM + 8), Ok(RAM + 3072));
    Kernel::<Process<TestChip>>::handle_syscall(&mut p, &mut work, &platform, Syscall::YIELD);
    assert_eq!(p.get_state(), State::Yielded);
    assert_eq!(work, 3);
    match p.dequeue_task(&mut work) {
        Some(Task::FunctionCall(fc)) => assert_eq!(fc.argument0, 2),
        _ => panic!("the other subscription's call is gone"),
    }
}

#[test]
fn load_processes_keeps_flash_order_and_skips_disabled_apps() {
    let c = chip(32);
    let mut flash = app(b"one", 1024, 0x40, 0x10, 4096, &[]);
    let mut off = app(b"off", 512, 0, 0, 0, &[]);
    off[8] = 0;
    off[12] ^= 1;
    flash.extend(off);
    flash.extend(app(b"two", 1024, 0x20, 0, 4096, &[]));
    flash.extend(vec![0u8; 64]);
    let mut kernel: Kernel<Process<TestChip>> = Kernel::new(vec![None, None, None, None]);
    load_processes(&mut kernel, &c, &flash, FLASH, RAM, RAM_SIZE, FaultResponse::Stop, &Cap);
    assert_eq!(kernel.process_at(0).unwrap().get_process_name(), "one");
    assert!(kernel.process_at(1).is_none());
    assert_eq!(kernel.process_at(2).unwrap().get_process_name(), "two");
    assert_eq!(kernel.process_at(2).unwrap().flash_start(), FLASH + 1024 + 512);
    assert!(kernel.process_at(3).is_none());
    let info = KernelInfo::new(&kernel);
    assert_eq!(
        info.number_active_processes(&Cap) + info.number_inactive_processes(&Cap),
        info.number_loaded_processes(&Cap)
    );
}

#[test]
fn main_loop_decisions() {
    let kernel: Kernel<Process<TestChip>> = Kernel::new(vec![None]);
    assert!(kernel.may_sleep(false, false));
    assert!(!kernel.may_sleep(true, false));
    assert!(!kernel.may_sleep(false, true));
    assert!(kernel.must_service_chip(true, false));
    assert!(kernel.must_service_chip(false, true));
    assert!(!kernel.must_service_chip(false, false));
}
