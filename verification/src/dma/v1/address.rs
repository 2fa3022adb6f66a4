//! Core-local memory as the controllers see it.
//!
//! A core reaches its own instruction and data memory at low addresses. The
//! controllers sit on the system bus, which knows each core's local memory
//! by a window of its own.

use vstd::prelude::*;

verus! {

/// Size of the instruction local memory of a core.
pub const ILM_SIZE_IN_BYTE: u32 = 0x40000;

/// Where the data local memory starts in a core's own view.
pub const DLM_LOCAL_BASE: u32 = 0x80000;

/// Size of the data local memory of a core.
pub const DLM_SIZE_IN_BYTE: u32 = 0x40000;

/// Where the system bus sees the instruction local memory of core 0.
pub const CORE0_ILM_SYSTEM_BASE: u32 = 0x1000000;

/// Where the system bus sees the data local memory of core 0.
pub const CORE0_DLM_SYSTEM_BASE: u32 = 0x1040000;

/// Where the system bus sees the instruction local memory of core 1.
pub const CORE1_ILM_SYSTEM_BASE: u32 = 0x1180000;

/// The system bus address of `addr` as core `core_id` sees it: local
/// memory is moved to the window of that core, every other address stays.
pub open spec fn spec_core_local_mem_to_sys_address(core_id: u8, addr: u32) -> u32 {
    let window: u32 = if core_id == 1 {
        CORE1_ILM_SYSTEM_BASE
    } else {
        CORE0_ILM_SYSTEM_BASE
    };
    if addr < ILM_SIZE_IN_BYTE {
        (window + addr) as u32
    } else if DLM_LOCAL_BASE <= addr < DLM_LOCAL_BASE + DLM_SIZE_IN_BYTE {
        (window + (CORE0_DLM_SYSTEM_BASE - CORE0_ILM_SYSTEM_BASE) + (addr - DLM_LOCAL_BASE)) as u32
    } else {
        addr
    }
}

/// Maps an address of a core's local memory to the address by which
/// the system bus, and so the DMA controller, reaches it.
#[verifier::when_used_as_spec(spec_core_local_mem_to_sys_address)]
pub fn core_local_mem_to_sys_address(core_id: u8, addr: u32) -> (r: u32)
    ensures
        r == spec_core_local_mem_to_sys_address(core_id, addr),
{
    let sys_addr = if addr < ILM_SIZE_IN_BYTE {
        assert(addr | 0x1000000 == addr + 0x1000000) by (bit_vector)
            requires
                addr < 0x40000,
        ;
        addr | CORE0_ILM_SYSTEM_BASE
    } else if (addr >= DLM_LOCAL_BASE) && (addr < DLM_LOCAL_BASE + DLM_SIZE_IN_BYTE) {
        let off = addr - DLM_LOCAL_BASE;
        assert(off | 0x1040000 == off + 0x1040000) by (bit_vector)
            requires
                off < 0x40000,
        ;
        off | CORE0_DLM_SYSTEM_BASE
    } else {
        return addr;
    };
    if core_id == 1 {
        sys_addr - CORE0_ILM_SYSTEM_BASE + CORE1_ILM_SYSTEM_BASE
    } else {
        sys_addr
    }
}

} // verus!
