//! The boot-info frame handed to the first user task.

use crate::config::{CONFIG_MAX_NUM_BOOTINFO_UNTYPED_CAPS, CONFIG_ROOT_CNODE_SIZE_BITS};
use vstd::prelude::*;

verus! {

/// One untyped-capability descriptor: where the block starts, its size
/// class, and whether it is device memory.
#[derive(Clone, Copy, Debug, PartialEq, Eq, Structural)]
pub struct UntypedDesc {
    pub paddr: u64,
    pub size_bits: u8,
    pub is_device: u8,
}

/// A half-open range of CNode slot positions.
#[derive(Clone, Copy, Debug, PartialEq, Eq, Structural)]
pub struct SlotRegion {
    pub start: usize,
    pub end: usize,
}

impl SlotRegion {
    pub fn new(start: usize, end: usize) -> (r: SlotRegion)
        ensures
            r.start == start,
            r.end == end,
    {
        SlotRegion { start, end }
    }
}

/// The boot-info frame: node identity, the IPC buffer's virtual address, the
/// empty-slot and untyped-slot ranges of the root CNode, and one descriptor
/// per untyped capability (up to the fixed capacity).
#[derive(Debug)]
pub struct BootInfo {
    pub extra_len: u64,
    pub node_id: u64,
    pub num_nodes: u64,
    pub num_io_pt_levels: u64,
    pub ipc_buffer: u64,
    pub empty: SlotRegion,
    pub it_cnode_size_bits: u64,
    pub untyped: SlotRegion,
    pub untyped_list: Vec<UntypedDesc>,
}

/// The scalar fields of two boot-info frames agree (everything except the
/// slot regions and the untyped-descriptor list).
pub open spec fn bi_scalars_eq(a: BootInfo, b: BootInfo) -> bool {
    &&& a.extra_len == b.extra_len
    &&& a.node_id == b.node_id
    &&& a.num_nodes == b.num_nodes
    &&& a.num_io_pt_levels == b.num_io_pt_levels
    &&& a.ipc_buffer == b.ipc_buffer
    &&& a.it_cnode_size_bits == b.it_cnode_size_bits
}

/// The descriptor list never exceeds its fixed capacity.
pub open spec fn bootinfo_wf(bi: BootInfo) -> bool {
    bi.untyped_list.len() <= CONFIG_MAX_NUM_BOOTINFO_UNTYPED_CAPS
}

impl BootInfo {
    /// A cleared boot-info frame.
    pub fn new_empty() -> (r: BootInfo)
        ensures
            bootinfo_wf(r),
            r.extra_len == 0,
            r.node_id == 0,
            r.num_nodes == 0,
            r.num_io_pt_levels == 0,
            r.ipc_buffer == 0,
            r.empty == (SlotRegion { start: 0, end: 0 }),
            r.it_cnode_size_bits == 0,
            r.untyped == (SlotRegion { start: 0, end: 0 }),
            r.untyped_list@.len() == 0,
    {
        BootInfo {
            extra_len: 0,
            node_id: 0,
            num_nodes: 0,
            num_io_pt_levels: 0,
            ipc_buffer: 0,
            empty: SlotRegion { start: 0, end: 0 },
            it_cnode_size_bits: 0,
            untyped: SlotRegion { start: 0, end: 0 },
            untyped_list: Vec::new(),
        }
    }
}

} // verus!
