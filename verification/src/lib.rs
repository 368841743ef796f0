//! A capability-based microkernel boot core for a 64-bit RISC-V target.
//!
//! The crate covers the kernel boot and capability-space bootstrap path:
//! partitioning physical memory into reserved and free regions, placing the
//! rootserver objects, building the root CNode with its well-known slots,
//! constructing the initial thread's address space, and carving the remaining
//! memory into untyped capabilities.  All state that the real machine keeps in
//! raw physical memory (capability slots, page tables, thread control blocks)
//! is held in explicit, bounds-checked structures, so that every step of the
//! boot pipeline carries a proved contract.

pub mod addr;
pub mod bits;
pub mod boot;
pub mod bootinfo;
pub mod cap;
pub mod cnode;
pub mod config;
pub mod elf;
pub mod freemem;
pub mod msginfo;
pub mod pte;
pub mod registers;
pub mod rootserver;
pub mod syscall;
pub mod thread;
pub mod vspace;
