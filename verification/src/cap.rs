//! Capability objects: two-word, bit-packed, type-tagged values.
//!
//! The type tag lives in the top five bits of word 0; the remaining bits hold
//! a type-specific payload.  `get_info` is the one decode step; every
//! constructor proves that decoding the capability it built yields exactly
//! the fields it was given, so the encode/decode round trip is a theorem of
//! each constructor's contract.

use crate::addr::{Paddr, Vaddr};
use crate::config::{
    CAP_ASID_CONTROL_CAP, CAP_ASID_POOL_CAP, CAP_CNODE_CAP, CAP_DOMAIN_CAP, CAP_FRAME_CAP,
    CAP_IRQ_CONTROL_CAP, CAP_NULL_CAP, CAP_PAGE_TABLE_CAP, CAP_THREAD_CAP, CAP_UNTYPED_CAP,
};
use vstd::prelude::*;

verus! {

/// The decoded view of a capability: its type tag and the payload fields the
/// kernel reads back out of the two words.
#[derive(Clone, Copy, Debug, PartialEq, Eq, Structural)]
pub enum CapInfo {
    NullCap,
    FrameCap { vptr: Vaddr, pptr: Paddr, is_device: bool },
    UntypedCap { pptr: Paddr, is_device: bool, size_bits: u64 },
    CnodeCap { ptr: Paddr },
    ThreadCap { ptr: Paddr },
    AsidControlCap,
    AsidPoolCap,
    PageTableCap { vptr: Vaddr, pptr: Paddr, asid: u64 },
    IrqControlCap,
    DomainCap,
}

/// A capability value: two machine words.
#[derive(Clone, Copy, Debug)]
pub struct Capability {
    pub words: [u64; 2],
}

/// The type tag stored in the top five bits of word 0.
pub open spec fn cap_tag(c: Capability) -> u64 {
    c.words[0] >> 59
}

/// Whether the tag is one the kernel knows how to decode.
pub open spec fn cap_tag_supported(c: Capability) -> bool {
    ||| cap_tag(c) == CAP_NULL_CAP
    ||| cap_tag(c) == CAP_FRAME_CAP
    ||| cap_tag(c) == CAP_UNTYPED_CAP
    ||| cap_tag(c) == CAP_CNODE_CAP
    ||| cap_tag(c) == CAP_ASID_CONTROL_CAP
    ||| cap_tag(c) == CAP_THREAD_CAP
    ||| cap_tag(c) == CAP_ASID_POOL_CAP
    ||| cap_tag(c) == CAP_IRQ_CONTROL_CAP
    ||| cap_tag(c) == CAP_DOMAIN_CAP
    ||| cap_tag(c) == CAP_PAGE_TABLE_CAP
}

/// What `get_info` returns: the bit-level decode of the two words.
pub open spec fn get_info_spec(c: Capability) -> CapInfo
    recommends
        cap_tag_supported(c),
{
    let w0 = c.words[0];
    let w1 = c.words[1];
    if cap_tag(c) == CAP_NULL_CAP {
        CapInfo::NullCap
    } else if cap_tag(c) == CAP_FRAME_CAP {
        CapInfo::FrameCap {
            vptr: Vaddr(w0 & 0x7fffffffff),
            pptr: Paddr((w1 >> 9) & 0x7fffffffff),
            is_device: (w0 >> 54) & 1 == 1,
        }
    } else if cap_tag(c) == CAP_UNTYPED_CAP {
        CapInfo::UntypedCap {
            pptr: Paddr(w0 & 0x7fffffffff),
            is_device: (w1 >> 6) & 1 == 1,
            size_bits: w1 & 0x3f,
        }
    } else if cap_tag(c) == CAP_CNODE_CAP {
        CapInfo::CnodeCap { ptr: Paddr((w0 & 0x7ffffffff) << 1) }
    } else if cap_tag(c) == CAP_ASID_CONTROL_CAP {
        CapInfo::AsidControlCap
    } else if cap_tag(c) == CAP_THREAD_CAP {
        CapInfo::ThreadCap { ptr: Paddr(w0 & 0x7fffffffff) }
    } else if cap_tag(c) == CAP_ASID_POOL_CAP {
        CapInfo::AsidPoolCap
    } else if cap_tag(c) == CAP_IRQ_CONTROL_CAP {
        CapInfo::IrqControlCap
    } else if cap_tag(c) == CAP_DOMAIN_CAP {
        CapInfo::DomainCap
    } else {
        CapInfo::PageTableCap {
            vptr: Vaddr(w0 & 0x7fffffffff),
            pptr: Paddr((w1 >> 9) & 0x7fffffffff),
            asid: w1 >> 48,
        }
    }
}

/// Whether the capability is the null capability.
pub open spec fn cap_is_null(c: Capability) -> bool {
    cap_tag(c) == CAP_NULL_CAP
}

impl Capability {
    /// The all-zero capability, which decodes as a null capability.
    pub fn new_empty() -> (r: Capability)
        ensures
            r.words[0] == 0,
            r.words[1] == 0,
            cap_is_null(r),
            get_info_spec(r) == CapInfo::NullCap,
    {
        let r = Capability { words: [0, 0] };
        proof {
            assert(0u64 >> 59 == 0) by (bit_vector);
        }
        r
    }

    fn get_type_raw(&self) -> (r: u64)
        ensures
            r == cap_tag(*self),
            r < 32,
    {
        proof {
            let w = self.words[0];
            assert(w >> 59 < 32) by (bit_vector);
        }
        self.words[0] >> 59
    }

    /// Decodes the capability: reads the type tag, then extracts the
    /// type-specific bit ranges.
    pub fn get_info(&self) -> (r: CapInfo)
        requires
            cap_tag_supported(*self),
        ensures
            r == get_info_spec(*self),
    {
        let tag = self.get_type_raw();
        let w0 = self.words[0];
        let w1 = self.words[1];
        if tag == CAP_NULL_CAP {
            CapInfo::NullCap
        } else if tag == CAP_FRAME_CAP {
            CapInfo::FrameCap {
                vptr: Vaddr(w0 & 0x7fffffffff),
                pptr: Paddr((w1 >> 9) & 0x7fffffffff),
                is_device: (w0 >> 54) & 1 == 1,
            }
        } else if tag == CAP_UNTYPED_CAP {
            CapInfo::UntypedCap {
                pptr: Paddr(w0 & 0x7fffffffff),
                is_device: (w1 >> 6) & 1 == 1,
                size_bits: w1 & 0x3f,
            }
        } else if tag == CAP_CNODE_CAP {
            CapInfo::CnodeCap { ptr: Paddr((w0 & 0x7ffffffff) << 1) }
        } else if tag == CAP_ASID_CONTROL_CAP {
            CapInfo::AsidControlCap
        } else if tag == CAP_THREAD_CAP {
            CapInfo::ThreadCap { ptr: Paddr(w0 & 0x7fffffffff) }
        } else if tag == CAP_ASID_POOL_CAP {
            CapInfo::AsidPoolCap
        } else if tag == CAP_IRQ_CONTROL_CAP {
            CapInfo::IrqControlCap
        } else if tag == CAP_DOMAIN_CAP {
            CapInfo::DomainCap
        } else {
            CapInfo::PageTableCap {
                vptr: Vaddr(w0 & 0x7fffffffff),
                pptr: Paddr((w1 >> 9) & 0x7fffffffff),
                asid: w1 >> 48,
            }
        }
    }

    /// The backing physical address of a CNode or page-table capability.
    pub fn get_pptr(&self) -> (r: Paddr)
        requires
            cap_tag_supported(*self),
            get_info_spec(*self) matches CapInfo::CnodeCap { .. } || get_info_spec(*self)
                matches CapInfo::PageTableCap { .. },
        ensures
            get_info_spec(*self) matches CapInfo::CnodeCap { ptr } ==> r == ptr,
            get_info_spec(*self) matches CapInfo::PageTableCap { pptr, .. } ==> r == pptr,
    {
        match self.get_info() {
            CapInfo::CnodeCap { ptr } => ptr,
            CapInfo::PageTableCap { pptr, .. } => pptr,
            _ => vstd::pervasive::unreached(),
        }
    }

    /// Builds a CNode capability.  The pointer is stored right-shifted by one
    /// bit, so it must be even; radix and guard size each fit in six bits.
    pub fn cap_cnode_cap_new(
        cap_cnode_radix: u64,
        cap_cnode_guard_size: u64,
        cap_cnode_guard: u64,
        cap_cnode_ptr: u64,
    ) -> (r: Capability)
        requires
            cap_cnode_radix < 64,
            cap_cnode_guard_size < 64,
            cap_cnode_ptr % 2 == 0,
            cap_cnode_ptr < 0x800000000,
        ensures
            r.words[0] == (cap_cnode_radix & 0x3f) << 47 | (cap_cnode_guard_size & 0x3f) << 53 | (
            cap_cnode_ptr & 0x7ffffffff) >> 1 | CAP_CNODE_CAP << 59,
            r.words[1] == cap_cnode_guard,
            get_info_spec(r) == (CapInfo::CnodeCap { ptr: Paddr(cap_cnode_ptr) }),
            cap_tag(r) == CAP_CNODE_CAP,
    {
        let w0: u64 = (cap_cnode_radix & 0x3f) << 47 | (cap_cnode_guard_size & 0x3f) << 53 | (
        cap_cnode_ptr & 0x7ffffffff) >> 1 | CAP_CNODE_CAP << 59;
        let r = Capability { words: [w0, cap_cnode_guard] };
        proof {
            let rad = cap_cnode_radix;
            let gs = cap_cnode_guard_size;
            let p = cap_cnode_ptr;
            assert((((rad & 0x3f) << 47 | (gs & 0x3f) << 53 | (p & 0x7ffffffff) >> 1 | 10u64 << 59)
                >> 59 == 10) && ((((rad & 0x3f) << 47 | (gs & 0x3f) << 53 | (p & 0x7ffffffff) >> 1
                | 10u64 << 59) & 0x7ffffffff) << 1 == p)) by (bit_vector)
                requires
                    rad < 64,
                    gs < 64,
                    p % 2 == 0,
                    p < 0x800000000,
            ;
        }
        r
    }

    /// Builds the domain capability (tag only, no payload).
    pub fn cap_domain_cap_new() -> (r: Capability)
        ensures
            r.words[0] == CAP_DOMAIN_CAP << 59,
            r.words[1] == 0,
            get_info_spec(r) == CapInfo::DomainCap,
            cap_tag(r) == CAP_DOMAIN_CAP,
    {
        let r = Capability { words: [CAP_DOMAIN_CAP << 59, 0] };
        proof {
            assert(20u64 << 59 >> 59 == 20) by (bit_vector);
        }
        r
    }

    /// Builds the IRQ-control capability (tag only, no payload).
    pub fn cap_irq_control_cap_new() -> (r: Capability)
        ensures
            r.words[0] == CAP_IRQ_CONTROL_CAP << 59,
            r.words[1] == 0,
            get_info_spec(r) == CapInfo::IrqControlCap,
            cap_tag(r) == CAP_IRQ_CONTROL_CAP,
    {
        let r = Capability { words: [CAP_IRQ_CONTROL_CAP << 59, 0] };
        proof {
            assert(14u64 << 59 >> 59 == 14) by (bit_vector);
        }
        r
    }

    /// Builds a page-table capability: the mapped virtual address and the
    /// mapped flag live in word 0, the ASID and table base in word 1.
    pub fn cap_page_table_cap_new(
        cap_pt_mapped_asid: u64,
        cap_pt_base_ptr: u64,
        cap_pt_is_mapped: bool,
        cap_pt_mapped_address: u64,
    ) -> (r: Capability)
        requires
            cap_pt_mapped_asid < 0x10000,
            cap_pt_base_ptr < 0x8000000000,
            cap_pt_mapped_address < 0x8000000000,
        ensures
            r.words[0] == CAP_PAGE_TABLE_CAP << 59 | (if cap_pt_is_mapped {
                1u64
            } else {
                0u64
            }) << 39 | cap_pt_mapped_address,
            r.words[1] == cap_pt_mapped_asid << 48 | cap_pt_base_ptr << 9,
            get_info_spec(r) == (CapInfo::PageTableCap {
                vptr: Vaddr(cap_pt_mapped_address),
                pptr: Paddr(cap_pt_base_ptr),
                asid: cap_pt_mapped_asid,
            }),
            cap_tag(r) == CAP_PAGE_TABLE_CAP,
    {
        let mapped: u64 = if cap_pt_is_mapped {
            1
        } else {
            0
        };
        let w0: u64 = CAP_PAGE_TABLE_CAP << 59 | mapped << 39 | cap_pt_mapped_address;
        let w1: u64 = cap_pt_mapped_asid << 48 | cap_pt_base_ptr << 9;
        let r = Capability { words: [w0, w1] };
        proof {
            let asid = cap_pt_mapped_asid;
            let base = cap_pt_base_ptr;
            let va = cap_pt_mapped_address;
            let m = mapped;
            assert(((3u64 << 59 | m << 39 | va) >> 59 == 3) && ((3u64 << 59 | m << 39 | va)
                & 0x7fffffffff == va) && (((asid << 48 | base << 9) >> 9) & 0x7fffffffff == base)
                && ((asid << 48 | base << 9) >> 48 == asid)) by (bit_vector)
                requires
                    asid < 0x10000,
                    base < 0x8000000000,
                    va < 0x8000000000,
                    m < 2,
            ;
        }
        r
    }

    /// Builds a frame capability.  Only the mapped virtual address, the frame
    /// base and the device flag are read back by the decoder; the size and
    /// rights fields must stay clear of the type tag.
    pub fn cap_frame_cap_new(
        cap_f_mapped_asid: u64,
        cap_f_base_ptr: u64,
        cap_f_size: u64,
        cap_f_vm_rights: u64,
        cap_f_is_device: bool,
        cap_f_mapped_address: u64,
    ) -> (r: Capability)
        requires
            cap_f_mapped_asid < 0x10000,
            cap_f_base_ptr < 0x8000000000,
            cap_f_mapped_address < 0x8000000000,
            (cap_f_size << 57) >> 59 == 0,
            cap_f_vm_rights < 4,
        ensures
            r.words[0] == CAP_FRAME_CAP << 59 | cap_f_size << 57 | cap_f_vm_rights << 55 | (
            if cap_f_is_device {
                1u64
            } else {
                0u64
            }) << 54 | cap_f_mapped_address,
            r.words[1] == cap_f_mapped_asid << 48 | cap_f_base_ptr << 9,
            get_info_spec(r) == (CapInfo::FrameCap {
                vptr: Vaddr(cap_f_mapped_address),
                pptr: Paddr(cap_f_base_ptr),
                is_device: cap_f_is_device,
            }),
            cap_tag(r) == CAP_FRAME_CAP,
    {
        let dev: u64 = if cap_f_is_device {
            1
        } else {
            0
        };
        let w0: u64 = CAP_FRAME_CAP << 59 | cap_f_size << 57 | cap_f_vm_rights << 55 | dev << 54
            | cap_f_mapped_address;
        let w1: u64 = cap_f_mapped_asid << 48 | cap_f_base_ptr << 9;
        let r = Capability { words: [w0, w1] };
        proof {
            let asid = cap_f_mapped_asid;
            let base = cap_f_base_ptr;
            let sz = cap_f_size;
            let rt = cap_f_vm_rights;
            let va = cap_f_mapped_address;
            let d = dev;
            assert(((1u64 << 59 | sz << 57 | rt << 55 | d << 54 | va) >> 59 == 1) && ((1u64 << 59
                | sz << 57 | rt << 55 | d << 54 | va) & 0x7fffffffff == va) && (((1u64 << 59 | sz
                << 57 | rt << 55 | d << 54 | va) >> 54) & 1 == d) && (((asid << 48 | base << 9)
                >> 9) & 0x7fffffffff == base)) by (bit_vector)
                requires
                    asid < 0x10000,
                    base < 0x8000000000,
                    va < 0x8000000000,
                    (sz << 57) >> 59 == 0,
                    rt < 4,
                    d < 2,
            ;
        }
        r
    }

    /// Builds an ASID-pool capability.  The decoder reads back only the tag.
    pub fn cap_asid_pool_cap_new(cap_asid_base: u64, cap_asid_pool: u64) -> (r: Capability)
        requires
            cap_asid_base < 0x10000,
            cap_asid_pool < 0x8000000000,
        ensures
            r.words[0] == CAP_ASID_POOL_CAP << 59 | cap_asid_base << 43 | cap_asid_pool >> 2,
            r.words[1] == 0,
            get_info_spec(r) == CapInfo::AsidPoolCap,
            cap_tag(r) == CAP_ASID_POOL_CAP,
    {
        let w0: u64 = CAP_ASID_POOL_CAP << 59 | cap_asid_base << 43 | cap_asid_pool >> 2;
        let r = Capability { words: [w0, 0] };
        proof {
            let b = cap_asid_base;
            let p = cap_asid_pool;
            assert((13u64 << 59 | b << 43 | p >> 2) >> 59 == 13) by (bit_vector)
                requires
                    b < 0x10000,
                    p < 0x8000000000,
            ;
        }
        r
    }

    /// Builds the ASID-control capability (tag only, no payload).
    pub fn cap_asid_control_cap_new() -> (r: Capability)
        ensures
            r.words[0] == CAP_ASID_CONTROL_CAP << 59,
            r.words[1] == 0,
            get_info_spec(r) == CapInfo::AsidControlCap,
            cap_tag(r) == CAP_ASID_CONTROL_CAP,
    {
        let r = Capability { words: [CAP_ASID_CONTROL_CAP << 59, 0] };
        proof {
            assert(11u64 << 59 >> 59 == 11) by (bit_vector);
        }
        r
    }

    /// Builds a thread capability holding the TCB's address.
    pub fn cap_thread_cap_new(cap_tcb_ptr: u64) -> (r: Capability)
        requires
            cap_tcb_ptr < 0x8000000000,
        ensures
            r.words[0] == CAP_THREAD_CAP << 59 | cap_tcb_ptr,
            r.words[1] == 0,
            get_info_spec(r) == (CapInfo::ThreadCap { ptr: Paddr(cap_tcb_ptr) }),
            cap_tag(r) == CAP_THREAD_CAP,
    {
        let w0: u64 = CAP_THREAD_CAP << 59 | cap_tcb_ptr;
        let r = Capability { words: [w0, 0] };
        proof {
            let p = cap_tcb_ptr;
            assert(((12u64 << 59 | p) >> 59 == 12) && ((12u64 << 59 | p) & 0x7fffffffff
                == p)) by (bit_vector)
                requires
                    p < 0x8000000000,
            ;
        }
        r
    }

    /// Builds an untyped capability over `pow2(cap_block_size)` bytes at
    /// `cap_ptr`, with the free index recording how much is still unclaimed.
    pub fn cap_untyped_cap_new(
        cap_free_index: u64,
        cap_is_device: bool,
        cap_block_size: u64,
        cap_ptr: u64,
    ) -> (r: Capability)
        requires
            cap_free_index < 0x8000000000,
            cap_block_size < 64,
            cap_ptr < 0x8000000000,
        ensures
            r.words[0] == CAP_UNTYPED_CAP << 59 | cap_ptr,
            r.words[1] == cap_free_index << 25 | (if cap_is_device {
                1u64
            } else {
                0u64
            }) << 6 | cap_block_size,
            get_info_spec(r) == (CapInfo::UntypedCap {
                pptr: Paddr(cap_ptr),
                is_device: cap_is_device,
                size_bits: cap_block_size,
            }),
            cap_tag(r) == CAP_UNTYPED_CAP,
    {
        let dev: u64 = if cap_is_device {
            1
        } else {
            0
        };
        let w0: u64 = CAP_UNTYPED_CAP << 59 | cap_ptr;
        let w1: u64 = cap_free_index << 25 | dev << 6 | cap_block_size;
        let r = Capability { words: [w0, w1] };
        proof {
            let fi = cap_free_index;
            let d = dev;
            let sz = cap_block_size;
            let p = cap_ptr;
            assert(((2u64 << 59 | p) >> 59 == 2) && ((2u64 << 59 | p) & 0x7fffffffff == p) && (((fi
                << 25 | d << 6 | sz) >> 6) & 1 == d) && ((fi << 25 | d << 6 | sz) & 0x3f
                == sz)) by (bit_vector)
                requires
                    fi < 0x8000000000,
                    d < 2,
                    sz < 64,
                    p < 0x8000000000,
            ;
        }
        r
    }
}

/// Per-slot capability-derivation metadata.  Only the revocable and
/// first-badged bits of word 1 are used during boot.
#[derive(Clone, Copy, Debug)]
pub struct MDBNode {
    pub words: [u64; 2],
}

impl MDBNode {
    /// The all-zero metadata node.
    pub fn new_empty() -> (r: MDBNode)
        ensures
            r.words[0] == 0,
            r.words[1] == 0,
    {
        MDBNode { words: [0, 0] }
    }

    /// Sets the revocable flag (bit 1 of word 1).
    pub fn set_mdb_revocable(&mut self, v: bool)
        ensures
            final (self).words[0] == old(self).words[0],
            final (self).words[1] == if v {
                old(self).words[1] | 2
            } else {
                old(self).words[1] & !2
            },
    {
        if v {
            self.words[1] = self.words[1] | 2;
        } else {
            self.words[1] = self.words[1] & !2;
        }
    }

    /// Sets the first-badged flag (bit 0 of word 1).
    pub fn set_mdb_first_badged(&mut self, v: bool)
        ensures
            final (self).words[0] == old(self).words[0],
            final (self).words[1] == if v {
                old(self).words[1] | 1
            } else {
                old(self).words[1] & !1
            },
    {
        if v {
            self.words[1] = self.words[1] | 1;
        } else {
            self.words[1] = self.words[1] & !1;
        }
    }

    /// Whether both metadata words are zero.
    pub fn is_empty(&self) -> (r: bool)
        ensures
            r == (self.words[0] == 0 && self.words[1] == 0),
    {
        self.words[0] == 0 && self.words[1] == 0
    }
}

/// One capability slot: a capability together with its derivation metadata.
#[derive(Clone, Copy, Debug)]
pub struct CapSlot {
    pub cap: Capability,
    pub mdb_node: MDBNode,
}

/// The metadata written by every boot-time slot write: revocable and
/// first-badged, everything else zero.
pub open spec fn is_fresh_mdb(m: MDBNode) -> bool {
    m.words[0] == 0 && m.words[1] == 3
}

/// A slot holding the null capability with empty metadata.
pub open spec fn slot_is_empty(s: CapSlot) -> bool {
    &&& cap_is_null(s.cap)
    &&& s.mdb_node.words[0] == 0
    &&& s.mdb_node.words[1] == 0
}

impl CapSlot {
    /// A slot holding the null capability and empty metadata.
    pub fn new_empty() -> (r: CapSlot)
        ensures
            slot_is_empty(r),
            r.cap.words[0] == 0,
            r.cap.words[1] == 0,
    {
        CapSlot { cap: Capability::new_empty(), mdb_node: MDBNode::new_empty() }
    }

    /// Replaces the slot's capability and resets its metadata to the fresh
    /// revocable, first-badged state.
    pub fn write(&mut self, cap: Capability)
        ensures
            final (self).cap == cap,
            is_fresh_mdb(final (self).mdb_node),
    {
        self.cap = cap;
        self.mdb_node = MDBNode::new_empty();
        self.mdb_node.set_mdb_revocable(true);
        self.mdb_node.set_mdb_first_badged(true);
        proof {
            assert(0u64 | 2 == 2 && 2u64 | 1 == 3) by (bit_vector);
        }
    }
}

} // verus!
