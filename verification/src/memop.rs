//! Implementation of the MEMOP family of syscalls.

use vstd::prelude::*;
use crate::process::{MemoryModel, ProcessType};
use crate::returncode::ReturnCode;

verus! {

/// The address of the start (or, with `end`, the end) of writeable flash
/// region `(offset, size)` of a process whose flash starts at
/// `flash_start`; `FAIL` for a region of size zero.
pub open spec fn writeable_region_bound(flash_start: usize, region: (u32, u32), end: bool) -> ReturnCode {
    if region.1 == 0 {
        ReturnCode::FAIL
    } else if end {
        ReturnCode::SuccessWithValue { value: (flash_start + region.0 + region.1) as usize }
    } else {
        ReturnCode::SuccessWithValue { value: (flash_start + region.0) as usize }
    }
}

/// The writeable flash region `index` of a process, or (0, 0) if it has
/// none.
pub open spec fn region_or_empty<P: ProcessType>(process: &P, index: usize) -> (u32, u32) {
    if index < process.spec_writeable_flash_regions().len() {
        process.spec_writeable_flash_regions()[index as int]
    } else {
        (0u32, 0u32)
    }
}

/// What the memory operation `op_type` with argument `r1` does to process
/// `p`, leaving `q`, and returns as `r`.
pub open spec fn memop_outcome<P: ProcessType>(p: P, q: P, op_type: usize, r1: usize, r: ReturnCode) -> bool {
    &&& q.spec_app_idx() == p.spec_app_idx()
    &&& q.spec_fault_response() == p.spec_fault_response()
    &&& q.spec_task_capacity() == p.spec_task_capacity()
    &&& q.spec_process_name() == p.spec_process_name()
    &&& q.spec_state() == p.spec_state()
    &&& q.spec_tasks() == p.spec_tasks()
    &&& q.spec_counters() == p.spec_counters()
    &&& q.spec_grant_slots() == p.spec_grant_slots()
    &&& op_type != 0 && op_type != 1 ==> q.spec_memory() == p.spec_memory()
    &&& op_type == 0 ==> {
        let m = p.spec_memory();
        if r1 < m.allow_high_water_mark || r1 >= m.mem_end || r1 > m.kernel_memory_break {
            r == ReturnCode::ENOMEM && q.spec_memory() == m
        } else {
            ||| r == ReturnCode::SUCCESS && q.spec_memory() == (MemoryModel { app_break: r1, ..m })
            ||| r == ReturnCode::ENOMEM && q.spec_memory() == m
        }
    }
    &&& op_type == 1 ==> {
        let m = p.spec_memory();
        let new_break = m.app_break + (r1 as isize);
        if new_break < m.allow_high_water_mark || new_break >= m.mem_end || new_break > m.kernel_memory_break {
            r == ReturnCode::ENOMEM && q.spec_memory() == m
        } else {
            ||| r == (ReturnCode::SuccessWithValue { value: m.app_break })
                && q.spec_memory() == (MemoryModel { app_break: new_break as usize, ..m })
            ||| r == ReturnCode::ENOMEM && q.spec_memory() == m
        }
    }
    &&& op_type == 2 ==> r == (ReturnCode::SuccessWithValue { value: p.spec_memory().mem_start })
    &&& op_type == 3 ==> r == (ReturnCode::SuccessWithValue { value: p.spec_memory().mem_end })
    &&& op_type == 4 ==> r == (ReturnCode::SuccessWithValue { value: p.spec_memory().flash_start })
    &&& op_type == 5 ==> r == (ReturnCode::SuccessWithValue { value: p.spec_memory().flash_end })
    &&& op_type == 6 ==> r == (ReturnCode::SuccessWithValue { value: p.spec_memory().kernel_memory_break })
    &&& op_type == 7 ==> r == (ReturnCode::SuccessWithValue {
        value: p.spec_writeable_flash_regions().len() as usize,
    })
    &&& op_type == 8 ==> r == writeable_region_bound(p.spec_memory().flash_start, region_or_empty(&p, r1), false)
    &&& op_type == 9 ==> r == writeable_region_bound(p.spec_memory().flash_start, region_or_empty(&p, r1), true)
    &&& op_type == 10 || op_type == 11 ==> r == ReturnCode::SUCCESS
    &&& op_type == 10 ==> {
        &&& q.spec_heap_start() == p.spec_heap_start()
        &&& p.spec_memory().mem_start <= r1 < p.spec_memory().mem_end
            ==> q.spec_stack_start() == Some(r1) && q.spec_min_stack_pointer() == r1
        &&& !(p.spec_memory().mem_start <= r1 < p.spec_memory().mem_end)
            ==> q.spec_stack_start() == p.spec_stack_start()
            && q.spec_min_stack_pointer() == p.spec_min_stack_pointer()
    }
    &&& op_type == 11 ==> {
        &&& q.spec_stack_start() == p.spec_stack_start()
        &&& q.spec_min_stack_pointer() == p.spec_min_stack_pointer()
        &&& p.spec_memory().mem_start <= r1 < p.spec_memory().mem_end
            ==> q.spec_heap_start() == Some(r1)
        &&& !(p.spec_memory().mem_start <= r1 < p.spec_memory().mem_end)
            ==> q.spec_heap_start() == p.spec_heap_start()
    }
    &&& op_type > 11 ==> r == ReturnCode::ENOSUPPORT
    &&& op_type < 10 ==> q.spec_stack_start() == p.spec_stack_start()
        && q.spec_heap_start() == p.spec_heap_start()
        && q.spec_min_stack_pointer() == p.spec_min_stack_pointer()
}

/// What the memory operations report: operation 2 the start of the
/// process's RAM, 3 its end, 4 the start of its flash, 5 its end, 6 the
/// start of its grant region (the kernel memory break), 7 the number of
/// its writeable flash regions, 10 and 11 success; any operation above 11
/// is not supported. Only operations 0 and 1 may move the break, and no
/// operation changes the process's state, tasks or counters.
pub proof fn law_memop_reports<P: ProcessType>(p: P, q: P, op_type: usize, r1: usize, r: ReturnCode)
    requires
        memop_outcome(p, q, op_type, r1, r),
    ensures
        op_type == 2 ==> r == (ReturnCode::SuccessWithValue { value: p.spec_memory().mem_start }),
        op_type == 3 ==> r == (ReturnCode::SuccessWithValue { value: p.spec_memory().mem_end }),
        op_type == 4 ==> r == (ReturnCode::SuccessWithValue { value: p.spec_memory().flash_start }),
        op_type == 5 ==> r == (ReturnCode::SuccessWithValue { value: p.spec_memory().flash_end }),
        op_type == 6 ==> r == (ReturnCode::SuccessWithValue { value: p.spec_memory().kernel_memory_break }),
        op_type == 7 ==> r == (ReturnCode::SuccessWithValue { value: p.spec_writeable_flash_regions().len() as usize }),
        op_type == 10 || op_type == 11 ==> r == ReturnCode::SUCCESS,
        op_type > 11 ==> r == ReturnCode::ENOSUPPORT,
        op_type >= 2 ==> q.spec_memory() == p.spec_memory(),
        q.spec_state() == p.spec_state(),
        q.spec_tasks() == p.spec_tasks(),
        q.spec_counters() == p.spec_counters(),
{
}

/// The break moves only within the memory the process may use: a
/// successful `brk` (operation 0) sets it to the requested address, which
/// lies at or above every address shared with the kernel, below the end of
/// the process's memory and not above the kernel's memory break; a
/// successful `sbrk` (operation 1) moves it by the requested increment
/// within the same bounds and returns the old break. On failure (`ENOMEM`)
/// the memory is unchanged.
pub proof fn law_memop_moves_the_break<P: ProcessType>(p: P, q: P, op_type: usize, r1: usize, r: ReturnCode)
    requires
        memop_outcome(p, q, op_type, r1, r),
        op_type == 0 || op_type == 1,
    ensures
        r == ReturnCode::ENOMEM ==> q.spec_memory() == p.spec_memory(),
        r != ReturnCode::ENOMEM ==> {
            let m = p.spec_memory();
            let b = q.spec_memory().app_break;
            &&& q.spec_memory() == (MemoryModel { app_break: b, ..m })
            &&& m.allow_high_water_mark <= b < m.mem_end
            &&& b <= m.kernel_memory_break
            &&& op_type == 0 ==> r == ReturnCode::SUCCESS && b == r1
            &&& op_type == 1 ==> r == (ReturnCode::SuccessWithValue { value: m.app_break })
                && b == m.app_break + (r1 as isize)
        },
{
}

/// The start and end of writeable flash region `index` (operations 8 and
/// 9) are the start of the process's flash plus the region's offset, and
/// that plus its size; a region of size zero, or one that does not exist,
/// is reported as `FAIL`.
pub proof fn law_memop_writeable_regions<P: ProcessType>(p: P, q: P, op_type: usize, r1: usize, r: ReturnCode)
    requires
        memop_outcome(p, q, op_type, r1, r),
        op_type == 8 || op_type == 9,
    ensures
        r1 >= p.spec_writeable_flash_regions().len() ==> r == ReturnCode::FAIL,
        r1 < p.spec_writeable_flash_regions().len() ==> {
            let (offset, size) = p.spec_writeable_flash_regions()[r1 as int];
            &&& size == 0 ==> r == ReturnCode::FAIL
            &&& size != 0 && op_type == 8 ==> r == (ReturnCode::SuccessWithValue {
                value: (p.spec_memory().flash_start + offset) as usize,
            })
            &&& size != 0 && op_type == 9 ==> r == (ReturnCode::SuccessWithValue {
                value: (p.spec_memory().flash_start + offset + size) as usize,
            })
        },
{
}

/// Handle the memop syscall.
///
/// ### `op_type`
///
/// - `0`: BRK. Change the location of the program break and return a
///   ReturnCode.
/// - `1`: SBRK. Change the location of the program break and return the
///   previous break address.
/// - `2`: Get the address of the start of the application's RAM allocation.
/// - `3`: Get the address pointing to the first address after the end of
///   the application's RAM allocation.
/// - `4`: Get the address of the start of the application's flash region.
///   This is where the TBF header is located.
/// - `5`: Get the address pointing to the first address after the end of
///   the application's flash region.
/// - `6`: Get the address of the lowest address of the grant region for the
///   app.
/// - `7`: Get the number of writeable flash regions defined in the header
///   of this app.
/// - `8`: Get the start address of the writeable region indexed from 0 by
///   r1. Returns FAIL if there is no such region.
/// - `9`: Get the end address of the writeable region indexed by r1.
///   Returns FAIL if there is no such region.
/// - `10`: Specify where the start of the app stack is. This tells the
///   kernel where the app has put the start of its stack. This is not
///   strictly necessary for correct operation, but allows for better
///   debugging if the app crashes.
/// - `11`: Specify where the start of the app heap is. This tells the
///   kernel where the app has put the start of its heap. This is not
///   strictly necessary for correct operation, but allows for better
///   debugging if the app crashes.
///
/// The addresses of a writeable flash region must lie within the address
/// space.
pub fn memop<P: ProcessType>(process: &mut P, op_type: usize, r1: usize) -> (r: ReturnCode)
    requires
        old(process).wf(),
        op_type == 8 ==> old(process).spec_memory().flash_start + region_or_empty(old(process), r1).0 <= usize::MAX,
        op_type == 9 ==> old(process).spec_memory().flash_start + region_or_empty(old(process), r1).0
            + region_or_empty(old(process), r1).1 <= usize::MAX,
    ensures
        final(process).wf(),
        memop_outcome(*old(process), *final(process), op_type, r1, r),
{
    match op_type {
        // Op Type 0: BRK
        0 => match process.brk(r1) {
            Ok(_) => ReturnCode::SUCCESS,
            Err(_) => ReturnCode::ENOMEM,
        },
        // Op Type 1: SBRK
        1 => match process.sbrk(r1 as isize) {
            Ok(addr) => ReturnCode::SuccessWithValue { value: addr },
            Err(_) => ReturnCode::ENOMEM,
        },
        // Op Type 2: Process memory start
        2 => ReturnCode::SuccessWithValue { value: process.mem_start() },
        // Op Type 3: Process memory end
        3 => ReturnCode::SuccessWithValue { value: process.mem_end() },
        // Op Type 4: Process flash start
        4 => ReturnCode::SuccessWithValue { value: process.flash_start() },
        // Op Type 5: Process flash end
        5 => ReturnCode::SuccessWithValue { value: process.flash_end() },
        // Op Type 6: Grant region begin
        6 => ReturnCode::SuccessWithValue { value: process.kernel_memory_break() },
        // Op Type 7: Number of defined writeable regions in the TBF header.
        7 => ReturnCode::SuccessWithValue { value: process.number_writeable_flash_regions() },
        // Op Type 8: The start address of the writeable region indexed by r1.
        8 => {
            let flash_start = process.flash_start();
            let (offset, size) = process.get_writeable_flash_region(r1);
            if size == 0 {
                ReturnCode::FAIL
            } else {
                ReturnCode::SuccessWithValue { value: flash_start + offset as usize }
            }
        },
        // Op Type 9: The end address of the writeable region indexed by r1.
        9 => {
            let flash_start = process.flash_start();
            let (offset, size) = process.get_writeable_flash_region(r1);
            if size == 0 {
                ReturnCode::FAIL
            } else {
                ReturnCode::SuccessWithValue { value: flash_start + offset as usize + size as usize }
            }
        },
        // Op Type 10: Specify where the start of the app stack is.
        10 => {
            process.update_stack_start_pointer(r1);
            ReturnCode::SUCCESS
        },
        // Op Type 11: Specify where the start of the app heap is.
        11 => {
            process.update_heap_start_pointer(r1);
            ReturnCode::SUCCESS
        },
        _ => ReturnCode::ENOSUPPORT,
    }
}

} // verus!
