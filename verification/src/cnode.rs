//! The root CNode: the slot array backing the boot-time capability space.
//!
//! The slots live in an explicit, bounds-checked array addressed by index;
//! a CNode capability carries the array's physical base, and every access
//! through a capability must name the matching array.  The slot-insertion
//! primitive `cte_insert` requires the destination to hold the null
//! capability with empty derivation metadata: the boot path never overwrites
//! a live capability.

use crate::addr::Paddr;
use crate::cap::{
    cap_is_null, cap_tag_supported, get_info_spec, is_fresh_mdb, slot_is_empty, CapInfo, CapSlot,
    Capability,
};
use crate::config::ROOT_CNODE_SLOTS;
use vstd::prelude::*;

verus! {

/// The storage of a CNode: its physical base address and its slots.
#[derive(Debug)]
pub struct CNode {
    pub base: Paddr,
    pub slots: Vec<CapSlot>,
}

/// A CNode is well formed when it holds the full complement of slots and its
/// base can be packed into a CNode capability.
pub open spec fn cnode_wf(c: CNode) -> bool {
    &&& c.slots.len() == ROOT_CNODE_SLOTS
    &&& c.base.0 % 2 == 0
    &&& c.base.0 < 0x800000000
}

/// The capability `cap` is a CNode capability naming this CNode's storage.
pub open spec fn cap_points_to_cnode(cap: Capability, c: CNode) -> bool {
    &&& cap_tag_supported(cap)
    &&& get_info_spec(cap) == (CapInfo::CnodeCap { ptr: c.base })
}

impl CNode {
    /// A CNode at the given base with every slot empty.
    pub fn new(base: Paddr) -> (r: CNode)
        requires
            base.0 % 2 == 0,
            base.0 < 0x800000000,
        ensures
            cnode_wf(r),
            r.base == base,
            forall|i: int| 0 <= i < ROOT_CNODE_SLOTS ==> slot_is_empty(#[trigger] r.slots@[i]),
    {
        let mut slots: Vec<CapSlot> = Vec::new();
        let mut i: usize = 0;
        while i < ROOT_CNODE_SLOTS
            invariant
                i <= ROOT_CNODE_SLOTS,
                slots@.len() == i,
                forall|k: int| 0 <= k < i ==> slot_is_empty(#[trigger] slots@[k]),
            decreases ROOT_CNODE_SLOTS - i,
        {
            slots.push(CapSlot::new_empty());
            i = i + 1;
        }
        CNode { base, slots }
    }
}

impl Capability {
    /// Reads the slot at `index` of the CNode this capability names.
    pub fn cnode_slot_at(&self, cnode: &CNode, index: usize) -> (r: CapSlot)
        requires
            cnode_wf(*cnode),
            cap_points_to_cnode(*self, *cnode),
            index < ROOT_CNODE_SLOTS,
        ensures
            r == cnode.slots@[index as int],
    {
        let info = self.get_info();
        match info {
            CapInfo::CnodeCap { ptr } => cnode.slots[index],
            _ => vstd::pervasive::unreached(),
        }
    }

    /// Writes `cap` into the slot at `index` of the CNode this capability
    /// names, resetting the slot's metadata to the fresh revocable,
    /// first-badged state.
    pub fn cnode_write_slot_at(&self, cnode: &mut CNode, index: usize, cap: Capability)
        requires
            cnode_wf(*old(cnode)),
            cap_points_to_cnode(*self, *old(cnode)),
            index < ROOT_CNODE_SLOTS,
        ensures
            cnode_wf(*final (cnode)),
            final (cnode).base == old(cnode).base,
            final (cnode).slots@.len() == old(cnode).slots@.len(),
            final (cnode).slots@[index as int].cap == cap,
            is_fresh_mdb(final (cnode).slots@[index as int].mdb_node),
            forall|j: int|
                0 <= j < ROOT_CNODE_SLOTS && j != index ==> final (cnode).slots@[j] == old(
                    cnode,
                ).slots@[j],
    {
        let info = self.get_info();
        match info {
            CapInfo::CnodeCap { ptr } => {
                let mut slot = cnode.slots[index];
                slot.write(cap);
                cnode.slots.set(index, slot);
            },
            _ => vstd::pervasive::unreached(),
        }
    }
}

/// Capability derivation on the boot path: the derived capability is the
/// capability itself (derivation-tree bookkeeping is not implemented).
pub fn derive_cap(cap: Capability) -> (r: Capability)
    ensures
        r == cap,
{
    cap
}

/// Inserts a new capability into a destination slot.  The destination must
/// hold the null capability with empty derivation metadata: the boot path
/// never overwrites a live capability.
pub fn cte_insert(new_cap: Capability, src_slot: &CapSlot, dest_slot: &mut CapSlot)
    requires
        cap_tag_supported(old(dest_slot).cap),
        slot_is_empty(*old(dest_slot)),
    ensures
        final (dest_slot).cap == new_cap,
        final (dest_slot).mdb_node == old(dest_slot).mdb_node,
{
    match dest_slot.cap.get_info() {
        CapInfo::NullCap => {},
        _ => vstd::pervasive::unreached(),
    }
    dest_slot.cap = new_cap;
}

} // verus!
