//! Page-table entries and the kernel's root page table.
//!
//! An entry packs a page-aligned physical address (shifted into the high
//! bits) with eight flag bits.  An entry that is valid but carries none of
//! the read/write/execute permissions points at a next-level page table;
//! a valid entry with any permission bit is a leaf.

use crate::addr::{Paddr, Vaddr};
use crate::bits::round_down;
use crate::config::KERNEL_ELF_BASE;
use vstd::prelude::*;

verus! {

// Flag bits of a page-table entry.
pub const PTE_V: u64 = 1;
pub const PTE_R: u64 = 2;
pub const PTE_W: u64 = 4;
pub const PTE_X: u64 = 8;
pub const PTE_U: u64 = 16;
pub const PTE_G: u64 = 32;
pub const PTE_A: u64 = 64;
pub const PTE_D: u64 = 128;

/// One page-table entry: a machine word.
#[derive(Clone, Copy, Debug, PartialEq, Eq, Structural)]
pub struct PTE(pub u64);

/// The physical address an entry points at.
pub open spec fn pte_pa_spec(pte: PTE) -> u64 {
    (pte.0 >> 10) << 12
}

/// The flag bits of an entry.
pub open spec fn pte_flags_spec(pte: PTE) -> u64 {
    pte.0 & 0xff
}

pub open spec fn pte_is_valid_spec(pte: PTE) -> bool {
    pte.0 & PTE_V == PTE_V
}

pub open spec fn pte_readable_spec(pte: PTE) -> bool {
    pte.0 & PTE_R == PTE_R
}

pub open spec fn pte_writable_spec(pte: PTE) -> bool {
    pte.0 & PTE_W == PTE_W
}

pub open spec fn pte_executable_spec(pte: PTE) -> bool {
    pte.0 & PTE_X == PTE_X
}

/// A valid entry with no permission bits points at a next-level table.
pub open spec fn pte_is_pagetable_spec(pte: PTE) -> bool {
    pte_is_valid_spec(pte) && !(pte_readable_spec(pte) || pte_writable_spec(pte)
        || pte_executable_spec(pte))
}

impl PTE {
    /// Packs a page-aligned physical address and flag bits into one entry.
    pub fn new(pa: Paddr, flags: u64) -> (r: PTE)
        requires
            pa.0 % 4096 == 0,
            pa.0 < 0x8000000000,
            flags < 256,
        ensures
            r.0 == (pa.0 >> 12) << 10 | flags,
            pte_pa_spec(r) == pa.0,
            pte_flags_spec(r) == flags,
    {
        let r = PTE((pa.0 >> 12) << 10 | flags);
        proof {
            let p = pa.0;
            let f = flags;
            assert((((p >> 12) << 10 | f) >> 10) << 12 == p && ((p >> 12) << 10 | f) & 0xff
                == f) by (bit_vector)
                requires
                    p % 4096 == 0,
                    p < 0x8000000000,
                    f < 256,
            ;
        }
        r
    }

    /// The physical address this entry points at.
    pub fn pa(&self) -> (r: Paddr)
        ensures
            r.0 == pte_pa_spec(*self),
    {
        Paddr((self.0 >> 10) << 12)
    }

    /// The flag bits of this entry.
    pub fn flags(&self) -> (r: u64)
        ensures
            r == pte_flags_spec(*self),
    {
        self.0 & 0xff
    }

    pub fn is_valid(&self) -> (r: bool)
        ensures
            r == pte_is_valid_spec(*self),
    {
        self.0 & PTE_V == PTE_V
    }

    pub fn readable(&self) -> (r: bool)
        ensures
            r == pte_readable_spec(*self),
    {
        self.0 & PTE_R == PTE_R
    }

    pub fn writable(&self) -> (r: bool)
        ensures
            r == pte_writable_spec(*self),
    {
        self.0 & PTE_W == PTE_W
    }

    pub fn executable(&self) -> (r: bool)
        ensures
            r == pte_executable_spec(*self),
    {
        self.0 & PTE_X == PTE_X
    }

    /// Whether this entry points at a next-level page table.
    pub fn is_pte_pagetable(&self) -> (r: bool)
        ensures
            r == pte_is_pagetable_spec(*self),
    {
        self.is_valid() && !(self.readable() || self.writable() || self.executable())
    }
}

/// The kernel's root page table: 512 entries at a fixed physical base.
#[derive(Debug)]
pub struct PageTable {
    pub base: Paddr,
    pub root: Vec<PTE>,
}

/// A page table is well formed when it holds exactly 512 entries and its
/// base is page aligned.
pub open spec fn page_table_wf(pt: PageTable) -> bool {
    pt.root.len() == 512 && pt.base.0 % 4096 == 0 && pt.base.0 < 0x8000000000
}

impl PageTable {
    /// An empty table at the given physical base.
    pub fn new(base: Paddr) -> (r: PageTable)
        requires
            base.0 % 4096 == 0,
            base.0 < 0x8000000000,
        ensures
            page_table_wf(r),
            r.base == base,
            forall|i: int| 0 <= i < 512 ==> (#[trigger] r.root@[i]).0 == 0,
    {
        let mut root: Vec<PTE> = Vec::new();
        let mut i: usize = 0;
        while i < 512
            invariant
                i <= 512,
                root@.len() == i,
                forall|k: int| 0 <= k < i ==> (#[trigger] root@[k]).0 == 0,
            decreases 512 - i,
        {
            root.push(PTE(0));
            i = i + 1;
        }
        PageTable { base, root }
    }

    /// Installs the single high-half identity mapping that covers the kernel
    /// image: one 1 GiB leaf, global, writable and executable.
    pub fn map_kernel_window(&mut self)
        requires
            page_table_wf(*old(self)),
        ensures
            page_table_wf(*final (self)),
            final (self).base == old(self).base,
            final (self).root@ == old(self).root@.update(2, PTE(0x200000ef)),
    {
        proof {
            vstd::arithmetic::power2::lemma2_to64();
            assert(2u64 | 8 | 4 | 32 | 64 | 128 | 1 == 0xef) by (bit_vector);
        }
        let pa = round_down(KERNEL_ELF_BASE, 30);
        let va = Vaddr(pa);
        let idx = va.pt_level_index(0);
        let pte = PTE::new(Paddr(pa), PTE_R | PTE_X | PTE_W | PTE_G | PTE_A | PTE_D | PTE_V);
        proof {
            assert(0x80000000u64 >> 12 << 10 | 0xef == 0x200000ef) by (bit_vector);
        }
        self.root.set(idx, pte);
    }

    /// The value the address-translation register takes for this table: the
    /// paging mode in the top bits and the table's physical frame number.
    pub fn satp(&self) -> (r: u64)
        ensures
            r == 8u64 << 60 | self.base.0 >> 12,
    {
        8u64 << 60 | self.base.0 >> 12
    }
}

} // verus!
