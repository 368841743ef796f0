//! Configuration constants of the kernel: object size classes, the root
//! CNode's radix and well-known slot indices, capability type tags, the
//! physical-memory window, and the syscall error codes.

use vstd::prelude::*;

verus! {

// Size classes (log2 bytes) of the kernel objects.
pub const SEL4_PAGE_BITS: u64 = 12;
pub const SEL4_SLOT_BITS: u64 = 5;
pub const SEL4_TCB_BITS: u64 = 10;
pub const SEL4_ASID_POOL_BITS: u64 = 12;
pub const SEL4_VSPACE_BITS: u64 = 12;
pub const SEL4_PAGE_TABLE_BITS: u64 = 12;
pub const BI_FRAME_SIZE_BITS: u64 = 12;

pub const PAGE_SIZE: u64 = 4096;
pub const PT_INDEX_BITS: u64 = 9;
pub const PTE_FLAG_BITS: u64 = 10;
pub const PAGE_PTES: usize = 512;
pub const WORD_BITS: u64 = 64;

// A TCB block is split in two: the low half holds the thread's own
// capability slots, the inner thread record starts at TCB_OFFSET.
pub const TCB_SIZE_BITS: u64 = 9;
pub const TCB_OFFSET: u64 = 512;

// The root CNode holds 2^CONFIG_ROOT_CNODE_SIZE_BITS slots.
pub const CONFIG_ROOT_CNODE_SIZE_BITS: u64 = 13;
pub const ROOT_CNODE_SLOTS: usize = 8192;

pub const CONFIG_MAX_NUM_BOOTINFO_UNTYPED_CAPS: usize = 230;
pub const SEL4_MIN_UNTYPED_BITS: u64 = 4;
pub const SEL4_MAX_UNTYPED_BITS: u64 = 38;

// Physical-memory window and kernel image base of the target platform.
pub const KERNEL_ELF_BASE: u64 = 0x84000000;
pub const AVAIL_REGION_START: u64 = 0x80200000;
pub const AVAIL_REGION_END: u64 = 0x90000000;
pub const USER_TOP: u64 = 0x3ffffff000;
pub const CONFIG_PADDR_USER_DEVICE_TOP: u64 = 0x8000000000;

// Thread priorities.
pub const CONFIG_NUM_PRIORITIES: u64 = 256;
pub const SEL4_MIN_PRIO: u64 = 0;
pub const SEL4_MAX_PRIO: u64 = 255;

// ASID layout.
pub const ASID_HIGH_BITS: u64 = 7;
pub const ASID_LOW_BITS: u64 = 9;
pub const ASID_INVALID: u64 = 0;
pub const IT_ASID: u64 = 1;

// Capability type tags (the top five bits of word 0).
pub const CAP_NULL_CAP: u64 = 0;
pub const CAP_FRAME_CAP: u64 = 1;
pub const CAP_UNTYPED_CAP: u64 = 2;
pub const CAP_PAGE_TABLE_CAP: u64 = 3;
pub const CAP_ENDPOINT_CAP: u64 = 4;
pub const CAP_NOTIFICATION_CAP: u64 = 6;
pub const CAP_REPLY_CAP: u64 = 8;
pub const CAP_CNODE_CAP: u64 = 10;
pub const CAP_ASID_CONTROL_CAP: u64 = 11;
pub const CAP_THREAD_CAP: u64 = 12;
pub const CAP_ASID_POOL_CAP: u64 = 13;
pub const CAP_IRQ_CONTROL_CAP: u64 = 14;
pub const CAP_IRQ_HANDLER_CAP: u64 = 16;
pub const CAP_ZOMBIE_CAP: u64 = 18;
pub const CAP_DOMAIN_CAP: u64 = 20;

// Well-known slot indices of the root CNode.
pub const SEL4_CAP_NULL: usize = 0;
pub const SEL4_CAP_INIT_THREAD_TCB: usize = 1;
pub const SEL4_CAP_INIT_THREAD_CNODE: usize = 2;
pub const SEL4_CAP_INIT_THREAD_VSPACE: usize = 3;
pub const SEL4_CAP_IRQ_CONTROL: usize = 4;
pub const SEL4_CAP_ASID_CONTROL: usize = 5;
pub const SEL4_CAP_INIT_THREAD_ASID_POOL: usize = 6;
pub const SEL4_CAP_IO_PORT_CONTROL: usize = 7;
pub const SEL4_CAP_IO_SPACE: usize = 8;
pub const SEL4_CAP_BOOT_INFO_FRAME: usize = 9;
pub const SEL4_CAP_INIT_THREAD_IPC_BUFFER: usize = 10;
pub const SEL4_CAP_DOMAIN: usize = 11;
pub const SEL4_CAP_SMMU_SID_CONTROL: usize = 12;
pub const SEL4_CAP_SMMU_CB_CONTROL: usize = 13;
pub const SEL4_NUM_INITIAL_CAPS: usize = 14;

// Slot indices inside a TCB's own capability table.
pub const TCB_CTABLE: usize = 0;
pub const TCB_VTABLE: usize = 1;
pub const TCB_REPLY: usize = 2;
pub const TCB_CALLER: usize = 3;
pub const TCB_BUFFER: usize = 4;
pub const TCB_CNODE_ENTRIES: usize = 16;

pub const SEL4_ALL_RIGHTS: u64 = 0xf;

// Message layout of the IPC buffer.
pub const SEL4_MSG_MAX_LENGTH: usize = 120;
pub const SEL4_MSG_MAX_EXTRA_CAPS: usize = 3;

// Syscall error codes returned to the invoking thread.
pub const SEL4_NO_ERROR: u64 = 0;
pub const SEL4_INVALID_ARGUMENT: u64 = 1;
pub const SEL4_INVALID_CAPABILITY: u64 = 2;
pub const SEL4_ILLEGAL_OPERATION: u64 = 3;
pub const SEL4_RANGE_ERROR: u64 = 4;
pub const SEL4_ALIGNMENT_ERROR: u64 = 5;
pub const SEL4_FAILED_LOOKUP: u64 = 6;
pub const SEL4_TRUNCATED_MESSAGE: u64 = 7;
pub const SEL4_DELETE_FIRST: u64 = 8;
pub const SEL4_REVOKE_FIRST: u64 = 9;
pub const SEL4_NOT_ENOUGH_MEMORY: u64 = 10;

// Invocation labels (only the CNode-copy invocation is implemented).
pub const LABEL_CNODE_COPY: u64 = 6;

// Syscall numbers.  Ids in [BASIC_SYSCALL_MIN, BASIC_SYSCALL_MAX] are the
// basic (object-invocation) syscalls; ids below that range are debug syscalls.
pub const SYSCALL_CALL: i64 = -1;
pub const BASIC_SYSCALL_MIN: i64 = -8;
pub const BASIC_SYSCALL_MAX: i64 = -1;
pub const SYSCALL_DEBUG_PUT_CHAR: i64 = -9;
pub const SYSCALL_DEBUG_DUMP_SCHEDULER: i64 = -10;

} // verus!
