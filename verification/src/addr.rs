//! Physical and virtual address value types and half-open address regions.

use crate::bits::mask64;
use crate::config::{PT_INDEX_BITS, SEL4_PAGE_BITS};
use vstd::arithmetic::power2::pow2;
use vstd::bits::{lemma_u64_low_bits_mask_is_mod, lemma_u64_pow2_no_overflow, lemma_u64_shr_is_div};
use vstd::prelude::*;

verus! {

/// A physical address.
#[derive(Clone, Copy, Debug, PartialEq, Eq, Structural)]
pub struct Paddr(pub u64);

/// A virtual address.
#[derive(Clone, Copy, Debug, PartialEq, Eq, Structural)]
pub struct Vaddr(pub u64);

/// A half-open physical region `[start, end)`.
#[derive(Clone, Copy, Debug, PartialEq, Eq, Structural)]
pub struct Pregion {
    pub start: Paddr,
    pub end: Paddr,
}

/// A half-open virtual region `[start, end)`.
#[derive(Clone, Copy, Debug, PartialEq, Eq, Structural)]
pub struct Vregion {
    pub start: Vaddr,
    pub end: Vaddr,
}

/// The page-table index of `v` at walk level `level` (level 2 is the root):
/// bits `[SEL4_PAGE_BITS + (2 - level) * PT_INDEX_BITS ..+ PT_INDEX_BITS)`.
pub open spec fn pt_level_index_spec(v: u64, level: u64) -> int
    recommends
        level <= 2,
{
    (v as int / pow2((SEL4_PAGE_BITS + (2 - level) * PT_INDEX_BITS) as nat) as int) % 512
}

impl Paddr {
    /// The virtual address of this physical address under the boot-time
    /// physical-to-virtual offset.
    pub fn to_va(&self, pv_offset: u64) -> (r: Vaddr)
        requires
            self.0 >= pv_offset,
        ensures
            r.0 == self.0 - pv_offset,
    {
        Vaddr(self.0 - pv_offset)
    }
}

impl Vaddr {
    /// The physical address of this virtual address under the boot-time
    /// physical-to-virtual offset.
    pub fn to_pa(&self, pv_offset: u64) -> (r: Paddr)
        requires
            self.0 + pv_offset <= u64::MAX,
        ensures
            r.0 == self.0 + pv_offset,
    {
        Paddr(self.0 + pv_offset)
    }

    /// The 9-bit page-table index this address selects at the given level of
    /// the three-level walk.
    pub fn pt_level_index(&self, level: u64) -> (r: usize)
        requires
            level <= 2,
        ensures
            r == pt_level_index_spec(self.0, level),
            r < 512,
    {
        let shift: u64 = SEL4_PAGE_BITS + (2 - level) * PT_INDEX_BITS;
        proof {
            lemma_u64_shr_is_div(self.0, shift);
            lemma_u64_low_bits_mask_is_mod(self.0 >> shift, PT_INDEX_BITS as nat);
            lemma_u64_pow2_no_overflow(PT_INDEX_BITS as nat);
            assert(pow2(9) == 512) by {
                vstd::arithmetic::power2::lemma2_to64();
            }
        }
        (((self.0 >> shift) & mask64(PT_INDEX_BITS)) as usize)
    }
}

impl Pregion {
    pub fn new(start: Paddr, end: Paddr) -> (r: Pregion)
        ensures
            r.start == start,
            r.end == end,
    {
        Pregion { start, end }
    }

    pub fn is_empty(&self) -> (r: bool)
        ensures
            r == (self.start.0 == self.end.0),
    {
        self.start.0 == self.end.0
    }
}

impl Vregion {
    pub fn new(start: Vaddr, end: Vaddr) -> (r: Vregion)
        ensures
            r.start == start,
            r.end == end,
    {
        Vregion { start, end }
    }
}

} // verus!
