//! Image-placement arithmetic of the boot loader: where a loaded image's
//! memory lands, computed over plain records of the image's loadable
//! segments.  Decoding the image format itself is outside the kernel core;
//! the loader hands the segment table in as values.

use crate::bits::{align_up, round_up};
use crate::config::SEL4_PAGE_BITS;
use vstd::prelude::*;

verus! {

/// One program segment of an image: whether it is loadable, and its
/// addresses and sizes.
#[derive(Clone, Copy, Debug, PartialEq, Eq, Structural)]
pub struct ElfSegment {
    pub is_load: bool,
    pub physical_addr: u64,
    pub virtual_addr: u64,
    pub mem_size: u64,
    pub file_size: u64,
    pub offset: u64,
}

/// Where a loaded image sits: its physical and virtual extents, its entry
/// point, and the offset between the two address spaces.
#[derive(Clone, Copy, Debug, PartialEq, Eq, Structural)]
pub struct ImageInfo {
    pub phys_region_start: u64,
    pub phys_region_end: u64,
    pub virt_region_start: u64,
    pub virt_region_end: u64,
    pub virt_entry: u64,
    pub phys_virt_offset: u64,
}

/// The start address of a segment in the chosen address space.
pub open spec fn seg_min_spec(s: ElfSegment, is_phys: bool) -> u64 {
    if is_phys {
        s.physical_addr
    } else {
        s.virtual_addr
    }
}

/// The smallest start address among the loadable segments (or the largest
/// word when there are none).
pub open spec fn bounds_min_spec(segs: Seq<ElfSegment>, is_phys: bool) -> u64
    decreases segs.len(),
{
    if segs.len() == 0 {
        u64::MAX
    } else {
        let prev = bounds_min_spec(segs.drop_last(), is_phys);
        let s = segs.last();
        if s.is_load && seg_min_spec(s, is_phys) < prev {
            seg_min_spec(s, is_phys)
        } else {
            prev
        }
    }
}

/// The largest end address among the loadable segments (or zero when there
/// are none).
pub open spec fn bounds_max_spec(segs: Seq<ElfSegment>, is_phys: bool) -> int
    decreases segs.len(),
{
    if segs.len() == 0 {
        0
    } else {
        let prev = bounds_max_spec(segs.drop_last(), is_phys);
        let s = segs.last();
        if s.is_load && seg_min_spec(s, is_phys) + s.mem_size > prev {
            seg_min_spec(s, is_phys) + s.mem_size
        } else {
            prev
        }
    }
}

/// The lowest start and highest end among an image's loadable segments, in
/// physical or virtual addresses.
pub fn elf_get_memory_bounds(segments: &Vec<ElfSegment>, is_phys: bool) -> (r: (u64, u64))
    requires
        forall|i: int|
            0 <= i < segments@.len() ==> (#[trigger] segments@[i]).physical_addr + segments@[i].mem_size
                <= u64::MAX && segments@[i].virtual_addr + segments@[i].mem_size <= u64::MAX,
    ensures
        r.0 == bounds_min_spec(segments@, is_phys),
        r.1 == bounds_max_spec(segments@, is_phys),
{
    let mut mem_min: u64 = u64::MAX;
    let mut mem_max: u64 = 0;
    let n = segments.len();
    let mut i: usize = 0;
    while i < n
        invariant
            i <= n,
            n == segments@.len(),
            forall|k: int|
                0 <= k < segments@.len() ==> (#[trigger] segments@[k]).physical_addr
                    + segments@[k].mem_size <= u64::MAX && segments@[k].virtual_addr
                    + segments@[k].mem_size <= u64::MAX,
            mem_min == bounds_min_spec(segments@.take(i as int), is_phys),
            mem_max == bounds_max_spec(segments@.take(i as int), is_phys),
        decreases n - i,
    {
        let s = segments[i];
        proof {
            assert(segments@.take(i + 1).drop_last() == segments@.take(i as int));
            assert(segments@.take(i + 1).last() == segments@[i as int]);
        }
        if s.is_load {
            let sect_min = if is_phys {
                s.physical_addr
            } else {
                s.virtual_addr
            };
            let sect_max = sect_min + s.mem_size;
            if sect_min < mem_min {
                mem_min = sect_min;
            }
            if sect_max > mem_max {
                mem_max = sect_max;
            }
        }
        i = i + 1;
    }
    proof {
        assert(segments@.take(n as int) == segments@);
    }
    (mem_min, mem_max)
}

/// Computes where an image loads: the virtual extent rounded up to a page,
/// the physical extent from the chosen destination, and the offset between
/// the two address spaces.
pub fn load_elf(segments: &Vec<ElfSegment>, entry_point: u64, dest_paddr: u64) -> (r: ImageInfo)
    requires
        forall|i: int|
            0 <= i < segments@.len() ==> (#[trigger] segments@[i]).physical_addr + segments@[i].mem_size
                <= u64::MAX && segments@[i].virtual_addr + segments@[i].mem_size <= u64::MAX,
        dest_paddr % 4096 == 0,
        bounds_max_spec(segments@, false) + 4096 <= u64::MAX,
        bounds_min_spec(segments@, false) <= bounds_max_spec(segments@, false),
        dest_paddr + align_up(bounds_max_spec(segments@, false), 12) <= u64::MAX,
    ensures
        ({
            let min_vaddr = bounds_min_spec(segments@, false);
            let max_vaddr = align_up(bounds_max_spec(segments@, false), 12);
            &&& r.virt_region_start == min_vaddr
            &&& r.virt_region_end == max_vaddr
            &&& r.phys_region_start == dest_paddr
            &&& r.phys_region_end == dest_paddr + max_vaddr - min_vaddr
            &&& r.virt_entry == entry_point
            &&& r.phys_virt_offset == dest_paddr - min_vaddr || dest_paddr < min_vaddr
        }),
{
    let (min_vaddr, max_vaddr_raw) = elf_get_memory_bounds(segments, false);
    proof {
        vstd::arithmetic::power2::lemma2_to64();
    }
    let max_vaddr = round_up(max_vaddr_raw, SEL4_PAGE_BITS);
    let image_size = max_vaddr - min_vaddr;
    // The destination must be page aligned (checked by the loader).
    let phys_virt_offset = if dest_paddr >= min_vaddr {
        dest_paddr - min_vaddr
    } else {
        0
    };
    ImageInfo {
        phys_region_start: dest_paddr,
        phys_region_end: dest_paddr + image_size,
        virt_region_start: min_vaddr,
        virt_region_end: max_vaddr,
        virt_entry: entry_point,
        phys_virt_offset,
    }
}

} // verus!
