//! The boot pipeline: the boot-phase state, slot provisioning, untyped
//! carving, and the linear initialization sequence that produces the first
//! task's kernel state.
//!
//! All boot-phase state is carried in explicit records handed from step to
//! step.  The slot-allocation cursor only ever advances, stays within the
//! root CNode, and every slot it has passed over holds a non-null
//! capability.

use crate::addr::{Paddr, Pregion, Vaddr, Vregion};
use crate::thread::{create_idle_thread, SchedState, ThreadPointer, TCB};
use crate::bits::{bit64, floor_log2, low_zero_bits};
use crate::bootinfo::{BootInfo, SlotRegion, UntypedDesc};
use crate::cap::{cap_is_null, cap_tag_supported, get_info_spec, CapInfo, Capability};
use crate::cnode::{cap_points_to_cnode, cnode_wf, CNode};
use crate::config::{
    CONFIG_MAX_NUM_BOOTINFO_UNTYPED_CAPS, CONFIG_ROOT_CNODE_SIZE_BITS, ROOT_CNODE_SLOTS,
    SEL4_CAP_ASID_CONTROL, SEL4_CAP_DOMAIN, SEL4_CAP_INIT_THREAD_ASID_POOL, SEL4_CAP_IRQ_CONTROL,
    SEL4_MAX_UNTYPED_BITS, SEL4_MIN_UNTYPED_BITS, SEL4_NUM_INITIAL_CAPS, WORD_BITS,
};
use vstd::arithmetic::power2::{lemma2_to64, lemma_pow2_pos, pow2};
use vstd::prelude::*;

verus! {

/// An unrecoverable boot failure: the memory layout or an internal
/// consistency condition cannot support a correctly initialized first task.
#[derive(Clone, Copy, Debug, PartialEq, Eq, Structural)]
pub enum BootError {
    /// The user image's virtual region reaches above the user address space.
    UserImageOutOfRange,
    /// No free memory region is big enough for the rootserver objects.
    NoRootServerFit,
    /// The rootserver's paging window was exhausted.
    PagingExhausted,
    /// A frame mapping did not land on a page-sized slot.
    FrameMappingFailed,
    /// Carving the remaining memory into untyped capabilities failed for
    /// want of CNode slots.
    UntypedCreationFailed,
}

/// The boot-phase state: the slot-allocation cursor, the reserved and free
/// region lists, and the boot-info frame under construction.
#[derive(Debug)]
pub struct BootState {
    pub slot_pos_cur: usize,
    pub reserved: Vec<Pregion>,
    pub freemem: Vec<Pregion>,
    pub bi_frame: Option<BootInfo>,
}

impl BootState {
    /// The pre-boot state: cursor at zero, no regions, no boot info.
    pub fn new() -> (r: BootState)
        ensures
            r.slot_pos_cur == 0,
            r.reserved@.len() == 0,
            r.freemem@.len() == 0,
            r.bi_frame is None,
    {
        BootState { slot_pos_cur: 0, reserved: Vec::new(), freemem: Vec::new(), bi_frame: None }
    }
}

/// Every slot the cursor has passed over since the well-known slots holds a
/// non-null capability.
pub open spec fn cnode_populated(c: CNode, cur: int) -> bool {
    forall|i: int|
        SEL4_NUM_INITIAL_CAPS <= i < cur && i < ROOT_CNODE_SLOTS ==> !cap_is_null(
            (#[trigger] c.slots@[i]).cap,
        )
}

/// Writes a capability into the next free slot of the root CNode and
/// advances the cursor.  Fails exactly when every slot is used.
pub fn provide_cap(root_cnode_cap: Capability, cap: Capability, cnode: &mut CNode, bs: &mut BootState) -> (r:
    bool)
    requires
        cnode_wf(*old(cnode)),
        cap_points_to_cnode(root_cnode_cap, *old(cnode)),
        !cap_is_null(cap),
    ensures
        cnode_wf(*final (cnode)),
        final (cnode).base == old(cnode).base,
        r == (old(bs).slot_pos_cur < ROOT_CNODE_SLOTS),
        final (bs).reserved == old(bs).reserved,
        final (bs).freemem == old(bs).freemem,
        final (bs).bi_frame == old(bs).bi_frame,
        old(bs).slot_pos_cur <= final (bs).slot_pos_cur,
        final (bs).slot_pos_cur <= ROOT_CNODE_SLOTS || final (bs).slot_pos_cur == old(
            bs,
        ).slot_pos_cur,
        r ==> final (bs).slot_pos_cur == old(bs).slot_pos_cur + 1 && final (cnode).slots@ == old(
            cnode,
        ).slots@.update(
            old(bs).slot_pos_cur as int,
            final (cnode).slots@[old(bs).slot_pos_cur as int],
        ) && final (cnode).slots@[old(bs).slot_pos_cur as int].cap == cap,
        !r ==> *final (bs) == *old(bs) && final (cnode).slots@ == old(cnode).slots@,
        cnode_populated(*old(cnode), old(bs).slot_pos_cur as int) ==> cnode_populated(
            *final (cnode),
            final (bs).slot_pos_cur as int,
        ),
{
    if bs.slot_pos_cur >= ROOT_CNODE_SLOTS {
        // Boot-fatal: every slot of the root CNode is used.
        return false;
    }
    root_cnode_cap.cnode_write_slot_at(cnode, bs.slot_pos_cur, cap);
    bs.slot_pos_cur = bs.slot_pos_cur + 1;
    true
}

/// Writes one untyped capability and its boot-info descriptor.  A descriptor
/// beyond the boot-info capacity is dropped (with the capability) and boot
/// continues; running out of CNode slots fails the carving.
pub fn provide_untyped_cap(
    root_cnode_cap: Capability,
    device_memory: bool,
    pptr: Paddr,
    size_bits: u64,
    first_untyped_slot: usize,
    cnode: &mut CNode,
    bs: &mut BootState,
) -> (r: bool)
    requires
        cnode_wf(*old(cnode)),
        cap_points_to_cnode(root_cnode_cap, *old(cnode)),
        old(bs).bi_frame is Some,
        first_untyped_slot <= old(bs).slot_pos_cur,
        SEL4_MIN_UNTYPED_BITS <= size_bits <= SEL4_MAX_UNTYPED_BITS,
        pptr.0 < 0x8000000000,
        old(bs).bi_frame->Some_0.untyped_list@.len() == if old(bs).slot_pos_cur
            - first_untyped_slot < CONFIG_MAX_NUM_BOOTINFO_UNTYPED_CAPS {
            old(bs).slot_pos_cur - first_untyped_slot
        } else {
            CONFIG_MAX_NUM_BOOTINFO_UNTYPED_CAPS as int
        },
    ensures
        cnode_wf(*final (cnode)),
        final (cnode).base == old(cnode).base,
        final (bs).reserved == old(bs).reserved,
        final (bs).freemem == old(bs).freemem,
        final (bs).bi_frame is Some,
        crate::bootinfo::bi_scalars_eq(old(bs).bi_frame->Some_0, final (bs).bi_frame->Some_0),
        final (bs).bi_frame->Some_0.untyped == old(bs).bi_frame->Some_0.untyped,
        final (bs).bi_frame->Some_0.empty == old(bs).bi_frame->Some_0.empty,
        old(bs).slot_pos_cur <= final (bs).slot_pos_cur <= old(bs).slot_pos_cur + 1,
        final (bs).slot_pos_cur <= ROOT_CNODE_SLOTS || final (bs).slot_pos_cur == old(
            bs,
        ).slot_pos_cur,
        first_untyped_slot <= final (bs).slot_pos_cur,
        r == !(old(bs).slot_pos_cur - first_untyped_slot
            < CONFIG_MAX_NUM_BOOTINFO_UNTYPED_CAPS && old(bs).slot_pos_cur >= ROOT_CNODE_SLOTS),
        r ==> final (bs).bi_frame->Some_0.untyped_list@.len() == if final (bs).slot_pos_cur
            - first_untyped_slot < CONFIG_MAX_NUM_BOOTINFO_UNTYPED_CAPS {
            final (bs).slot_pos_cur - first_untyped_slot
        } else {
            CONFIG_MAX_NUM_BOOTINFO_UNTYPED_CAPS as int
        },
        old(bs).slot_pos_cur - first_untyped_slot < CONFIG_MAX_NUM_BOOTINFO_UNTYPED_CAPS && old(
            bs,
        ).slot_pos_cur < ROOT_CNODE_SLOTS ==> {
            &&& final (bs).slot_pos_cur == old(bs).slot_pos_cur + 1
            &&& final (bs).bi_frame->Some_0.untyped_list@ == old(
                bs,
            ).bi_frame->Some_0.untyped_list@.push(
                UntypedDesc {
                    paddr: pptr.0,
                    size_bits: size_bits as u8,
                    is_device: if device_memory {
                        1
                    } else {
                        0
                    },
                },
            )
            &&& get_info_spec(final (cnode).slots@[old(bs).slot_pos_cur as int].cap) == (
            CapInfo::UntypedCap { pptr: pptr, is_device: device_memory, size_bits: size_bits })
        },
        old(bs).slot_pos_cur - first_untyped_slot >= CONFIG_MAX_NUM_BOOTINFO_UNTYPED_CAPS
            ==> *final (bs) == *old(bs) && final (cnode).slots@ == old(cnode).slots@,
        cnode_populated(*old(cnode), old(bs).slot_pos_cur as int) ==> cnode_populated(
            *final (cnode),
            final (bs).slot_pos_cur as int,
        ),
        forall|j: int|
            0 <= j < ROOT_CNODE_SLOTS && j != old(bs).slot_pos_cur ==> final (cnode).slots@[j]
                == old(cnode).slots@[j],
        final (bs).bi_frame->Some_0.untyped_list@.len() >= old(bs).bi_frame->Some_0.untyped_list@.len(),
        forall|k: int|
            0 <= k < old(bs).bi_frame->Some_0.untyped_list@.len()
                ==> (#[trigger] final (bs).bi_frame->Some_0.untyped_list@[k]) == old(bs).bi_frame->Some_0.untyped_list@[k],
        forall|k: int|
            old(bs).bi_frame->Some_0.untyped_list@.len() <= k
                < final (bs).bi_frame->Some_0.untyped_list@.len()
                ==> (#[trigger] final (bs).bi_frame->Some_0.untyped_list@[k]) == (UntypedDesc {
                paddr: pptr.0,
                size_bits: size_bits as u8,
                is_device: if device_memory {
                    1u8
                } else {
                    0u8
                },
            }),
{
    let i = bs.slot_pos_cur - first_untyped_slot;
    if i < CONFIG_MAX_NUM_BOOTINFO_UNTYPED_CAPS {
        let desc = UntypedDesc {
            paddr: pptr.0,
            size_bits: size_bits as u8,
            is_device: if device_memory {
                1
            } else {
                0
            },
        };
        proof {
            lemma2_to64();
            vstd::arithmetic::power2::lemma2_to64_rest();
            lemma_pow2_pos((size_bits - SEL4_MIN_UNTYPED_BITS) as nat);
            if size_bits - SEL4_MIN_UNTYPED_BITS < 35 {
                vstd::arithmetic::power2::lemma_pow2_strictly_increases(
                    (size_bits - SEL4_MIN_UNTYPED_BITS) as nat,
                    35,
                );
            }
        }
        let ut_cap = Capability::cap_untyped_cap_new(
            bit64(size_bits - SEL4_MIN_UNTYPED_BITS),
            device_memory,
            size_bits,
            pptr.0,
        );
        match &mut bs.bi_frame {
            Option::Some(bi) => {
                bi.untyped_list.push(desc);
            },
            Option::None => vstd::pervasive::unreached(),
        }
        // The descriptor is recorded before the slot is claimed; if no slot
        // is left the carving aborts and the caller reports the failure.
        return provide_cap(root_cnode_cap, ut_cap, cnode, bs);
    }
    // Too many untyped regions for the boot info: logged by the caller,
    // boot continues without describing this chunk.
    true
}

/// Writes the domain capability into its well-known slot.
pub fn create_domain_cap(root_cnode_cap: Capability, cnode: &mut CNode)
    requires
        cnode_wf(*old(cnode)),
        cap_points_to_cnode(root_cnode_cap, *old(cnode)),
    ensures
        cnode_wf(*final (cnode)),
        final (cnode).base == old(cnode).base,
        get_info_spec(final (cnode).slots@[SEL4_CAP_DOMAIN as int].cap) == CapInfo::DomainCap,
        forall|j: int|
            0 <= j < ROOT_CNODE_SLOTS && j != SEL4_CAP_DOMAIN ==> final (cnode).slots@[j] == old(
                cnode,
            ).slots@[j],
{
    let cap = Capability::cap_domain_cap_new();
    root_cnode_cap.cnode_write_slot_at(cnode, SEL4_CAP_DOMAIN, cap);
}

/// Writes the IRQ-control capability into its well-known slot.
pub fn init_irqs(root_cnode_cap: Capability, cnode: &mut CNode)
    requires
        cnode_wf(*old(cnode)),
        cap_points_to_cnode(root_cnode_cap, *old(cnode)),
    ensures
        cnode_wf(*final (cnode)),
        final (cnode).base == old(cnode).base,
        get_info_spec(final (cnode).slots@[SEL4_CAP_IRQ_CONTROL as int].cap)
            == CapInfo::IrqControlCap,
        forall|j: int|
            0 <= j < ROOT_CNODE_SLOTS && j != SEL4_CAP_IRQ_CONTROL ==> final (cnode).slots@[j]
                == old(cnode).slots@[j],
{
    let cap = Capability::cap_irq_control_cap_new();
    root_cnode_cap.cnode_write_slot_at(cnode, SEL4_CAP_IRQ_CONTROL, cap);
}

/// Records the root CNode's remaining free slots in the boot-info frame.
pub fn bi_finalise(bs: &mut BootState)
    requires
        old(bs).bi_frame is Some,
    ensures
        final (bs).slot_pos_cur == old(bs).slot_pos_cur,
        final (bs).reserved == old(bs).reserved,
        final (bs).freemem == old(bs).freemem,
        final (bs).bi_frame is Some,
        final (bs).bi_frame->Some_0.empty == (SlotRegion {
            start: old(bs).slot_pos_cur,
            end: ROOT_CNODE_SLOTS,
        }),
        final (bs).bi_frame->Some_0.untyped_list == old(bs).bi_frame->Some_0.untyped_list,
        final (bs).bi_frame->Some_0.untyped == old(bs).bi_frame->Some_0.untyped,
        crate::bootinfo::bi_scalars_eq(old(bs).bi_frame->Some_0, final (bs).bi_frame->Some_0),
{
    let cur = bs.slot_pos_cur;
    match &mut bs.bi_frame {
        Option::Some(bi) => {
            bi.empty = SlotRegion::new(cur, ROOT_CNODE_SLOTS);
        },
        Option::None => {
            proof {
                assert(false);
            }
        },
    }
}


/// An untyped descriptor's chunk is naturally aligned and its size class is
/// within the configured bounds.
pub open spec fn desc_well_formed(d: UntypedDesc) -> bool {
    &&& SEL4_MIN_UNTYPED_BITS <= d.size_bits <= SEL4_MAX_UNTYPED_BITS
    &&& d.paddr as int % pow2(d.size_bits as nat) as int == 0
}

/// What one untyped descriptor says about its chunk: it lies inside the
/// carved region, it is naturally aligned, and its size class is within the
/// configured bounds.
pub open spec fn desc_describes_chunk(d: UntypedDesc, reg: Pregion, device_memory: bool) -> bool {
    &&& reg.start.0 <= d.paddr
    &&& d.paddr + pow2(d.size_bits as nat) <= reg.end.0
    &&& desc_well_formed(d)
    &&& d.is_device == if device_memory {
        1u8
    } else {
        0u8
    }
}

/// The size class the carver picks for the chunk at the front of a region
/// with `len` bytes left: the largest power of two not above `len`, capped by
/// the configured maximum and, away from address zero, by the start
/// address's own alignment.
pub open spec fn chunk_size_bits_spec(start: u64, len: u64) -> int
    recommends
        len > 0,
{
    let fit = crate::bits::floor_log2_spec(len);
    let capped = if fit > SEL4_MAX_UNTYPED_BITS {
        SEL4_MAX_UNTYPED_BITS as int
    } else {
        fit
    };
    if start != 0 && crate::bits::low_zero_bits_spec(start) < capped {
        crate::bits::low_zero_bits_spec(start)
    } else {
        capped
    }
}

/// The descriptors the carver emits for `[start, end)`: the chunk at the
/// front (when it reaches the minimum size class), then the chunks of what
/// remains.  Chunks below the minimum class consume their bytes without a
/// descriptor.
pub open spec fn carve_chunks(start: u64, end: u64, device_memory: bool) -> Seq<UntypedDesc>
    decreases end - start,
    via carve_chunks_decreases
{
    if start >= end {
        Seq::empty()
    } else {
        let sb = chunk_size_bits_spec(start, (end - start) as u64);
        let head = UntypedDesc {
            paddr: start,
            size_bits: sb as u8,
            is_device: if device_memory {
                1u8
            } else {
                0u8
            },
        };
        let tail = carve_chunks((start + pow2(sb as nat)) as u64, end, device_memory);
        if sb >= SEL4_MIN_UNTYPED_BITS {
            seq![head] + tail
        } else {
            tail
        }
    }
}

#[via_fn]
proof fn carve_chunks_decreases(start: u64, end: u64, device_memory: bool) {
    if start < end {
        lemma_chunk_fits(start, end);
        lemma_pow2_pos(chunk_size_bits_spec(start, (end - start) as u64) as nat);
    }
}

/// The chunk the carver picks fits in what is left of the region.
pub proof fn lemma_chunk_fits(start: u64, end: u64)
    requires
        start < end,
    ensures
        0 <= chunk_size_bits_spec(start, (end - start) as u64) < 64,
        pow2(chunk_size_bits_spec(start, (end - start) as u64) as nat) <= end - start,
{
    let len = (end - start) as u64;
    let sb = chunk_size_bits_spec(start, len);
    let fit = crate::bits::floor_log2_spec(len);
    crate::bits::lemma_floor_log2_spec_bounds(len);
    if start != 0 {
        crate::bits::lemma_low_zero_bits_spec_bounds(start);
    }
    if sb < fit {
        vstd::arithmetic::power2::lemma_pow2_strictly_increases(sb as nat, fit as nat);
    }
}

/// Carving `[start, end)` fits the boot-info capacity and the root CNode:
/// from cursor `cur`, with the untyped window opened at `first`, every chunk
/// can get its descriptor and its slot.
pub open spec fn carve_fits(
    start: u64,
    end: u64,
    device_memory: bool,
    first: int,
    cur: int,
) -> bool {
    &&& cur - first + carve_chunks(start, end, device_memory).len()
        <= CONFIG_MAX_NUM_BOOTINFO_UNTYPED_CAPS
    &&& cur + carve_chunks(start, end, device_memory).len() <= ROOT_CNODE_SLOTS
}

/// The page at `pa` can be mapped at its boot-time virtual address: the walk
/// lands on a page-sized slot whose entry leads nowhere.
pub open spec fn page_mappable(v: crate::vspace::VSpace, pa: u64, pv_offset: u64) -> bool {
    let lr = crate::vspace::lookup_pt_slot_spec(v, (pa - pv_offset) as u64);
    &&& lr.pt_bits_left == crate::config::SEL4_PAGE_BITS
    &&& crate::vspace::slot_entry_inert(v, lr)
}

/// Every page of `reg` is mappable into `v`.
pub open spec fn frames_mappable(v: crate::vspace::VSpace, reg: Pregion, pv_offset: u64) -> bool {
    forall|pa: u64|
        reg.start.0 <= pa < reg.end.0 && pa % 4096 == 0 ==> #[trigger] page_mappable(
            v,
            pa,
            pv_offset,
        )
}

/// Where device memory resumes after the reserved regions, scanning from
/// `start`.
pub open spec fn device_start_after(reserved: Seq<Pregion>, start: u64) -> u64
    decreases reserved.len(),
{
    if reserved.len() == 0 {
        start
    } else {
        device_start_after(reserved.skip(1), reserved[0].end.0)
    }
}

/// The descriptors carved out of the device gaps below and between the
/// reserved regions, scanning from `start`.
pub open spec fn device_gap_chunks(reserved: Seq<Pregion>, start: u64) -> Seq<UntypedDesc>
    decreases reserved.len(),
{
    if reserved.len() == 0 {
        Seq::empty()
    } else {
        let here = if start < reserved[0].start.0 {
            carve_chunks(start, reserved[0].start.0, true)
        } else {
            Seq::empty()
        };
        here + device_gap_chunks(reserved.skip(1), reserved[0].end.0)
    }
}

/// The descriptors carved out of a list of free regions, in order.
pub open spec fn freemem_chunks(freemem: Seq<Pregion>) -> Seq<UntypedDesc>
    decreases freemem.len(),
{
    if freemem.len() == 0 {
        Seq::empty()
    } else {
        carve_chunks(freemem[0].start.0, freemem[0].end.0, false) + freemem_chunks(
            freemem.skip(1),
        )
    }
}

/// Everything still to carve: the device gaps of the remaining reserved
/// regions from `start`, the device memory up to the configured ceiling, the
/// reclaimed boot memory, and the free regions.
pub open spec fn untyped_rest(
    reserved_rest: Seq<Pregion>,
    start: u64,
    reuse: Pregion,
    freemem: Seq<Pregion>,
) -> Seq<UntypedDesc> {
    let dsa = device_start_after(reserved_rest, start);
    device_gap_chunks(reserved_rest, start) + (if dsa < crate::config::CONFIG_PADDR_USER_DEVICE_TOP {
        carve_chunks(dsa, crate::config::CONFIG_PADDR_USER_DEVICE_TOP, true)
    } else {
        Seq::empty()
    }) + carve_chunks(reuse.start.0, reuse.end.0, false) + freemem_chunks(freemem)
}

/// Every descriptor one whole boot run carves, in order.
pub open spec fn boot_untyped_chunks(
    reserved: Seq<Pregion>,
    reuse: Pregion,
    freemem: Seq<Pregion>,
) -> Seq<UntypedDesc> {
    untyped_rest(reserved, 0, reuse, freemem)
}

/// The descriptor list is exactly as long as the number of slots the carver
/// has consumed, up to the boot-info capacity.
pub open spec fn carve_inv(bs: BootState, first_untyped_slot: int) -> bool {
    &&& bs.bi_frame is Some
    &&& first_untyped_slot <= bs.slot_pos_cur
    &&& bs.bi_frame->Some_0.untyped_list@.len() == if bs.slot_pos_cur - first_untyped_slot
        < CONFIG_MAX_NUM_BOOTINFO_UNTYPED_CAPS {
        bs.slot_pos_cur - first_untyped_slot
    } else {
        CONFIG_MAX_NUM_BOOTINFO_UNTYPED_CAPS as int
    }
}

impl crate::rootserver::RootServer {
    /// Carves a region into untyped capabilities: repeatedly peels off the
    /// largest power-of-two, naturally aligned, size-class-bounded chunk from
    /// the front.  Chunks below the minimum size class are skipped but still
    /// consume their bytes.  Fails only when the root CNode runs out of
    /// slots.
    pub fn create_untypeds_for_region(
        &self,
        root_cnode_cap: Capability,
        device_memory: bool,
        reg: Pregion,
        first_untyped_slot: usize,
        cnode: &mut CNode,
        bs: &mut BootState,
    ) -> (r: bool)
        requires
            cnode_wf(*old(cnode)),
            cap_points_to_cnode(root_cnode_cap, *old(cnode)),
            carve_inv(*old(bs), first_untyped_slot as int),
            reg.start.0 <= reg.end.0,
            reg.end.0 <= 0x8000000000,
        ensures
            cnode_wf(*final (cnode)),
            final (cnode).base == old(cnode).base,
            final (bs).reserved == old(bs).reserved,
            final (bs).freemem == old(bs).freemem,
            old(bs).slot_pos_cur <= final (bs).slot_pos_cur,
            final (bs).slot_pos_cur <= ROOT_CNODE_SLOTS || final (bs).slot_pos_cur == old(
                bs,
            ).slot_pos_cur,
            final (bs).bi_frame is Some,
            crate::bootinfo::bi_scalars_eq(
                old(bs).bi_frame->Some_0,
                final (bs).bi_frame->Some_0,
            ),
            final (bs).bi_frame->Some_0.untyped == old(bs).bi_frame->Some_0.untyped,
            final (bs).bi_frame->Some_0.empty == old(bs).bi_frame->Some_0.empty,
            r ==> carve_inv(*final (bs), first_untyped_slot as int),
            !r && old(bs).slot_pos_cur <= ROOT_CNODE_SLOTS ==> final (bs).slot_pos_cur
                == ROOT_CNODE_SLOTS,
            cnode_populated(*old(cnode), old(bs).slot_pos_cur as int) ==> cnode_populated(
                *final (cnode),
                final (bs).slot_pos_cur as int,
            ),
            forall|j: int|
                0 <= j < SEL4_NUM_INITIAL_CAPS <= old(bs).slot_pos_cur ==> final (cnode).slots@[j]
                    == old(cnode).slots@[j],
            final (bs).bi_frame->Some_0.untyped_list@.len() >= old(bs).bi_frame->Some_0.untyped_list@.len(),
            forall|k: int|
                0 <= k < old(bs).bi_frame->Some_0.untyped_list@.len()
                    ==> (#[trigger] final (bs).bi_frame->Some_0.untyped_list@[k]) == old(bs).bi_frame->Some_0.untyped_list@[k],
            forall|k: int|
                old(bs).bi_frame->Some_0.untyped_list@.len() <= k
                    < final (bs).bi_frame->Some_0.untyped_list@.len() ==> desc_describes_chunk(
                    #[trigger] final (bs).bi_frame->Some_0.untyped_list@[k],
                    reg,
                    device_memory,
                ),
            carve_fits(
                reg.start.0,
                reg.end.0,
                device_memory,
                first_untyped_slot as int,
                old(bs).slot_pos_cur as int,
            ) ==> {
                &&& r == true
                &&& final (bs).bi_frame->Some_0.untyped_list@ == old(
                    bs,
                ).bi_frame->Some_0.untyped_list@ + carve_chunks(
                    reg.start.0,
                    reg.end.0,
                    device_memory,
                )
                &&& final (bs).slot_pos_cur == old(bs).slot_pos_cur + carve_chunks(
                    reg.start.0,
                    reg.end.0,
                    device_memory,
                ).len()
            },
    {
        proof {
            assert(bs.bi_frame->Some_0.untyped_list@.skip(
                old(bs).bi_frame->Some_0.untyped_list@.len() as int,
            ) =~= Seq::<UntypedDesc>::empty());
            assert(Seq::<UntypedDesc>::empty() + carve_chunks(
                reg.start.0,
                reg.end.0,
                device_memory,
            ) =~= carve_chunks(reg.start.0, reg.end.0, device_memory));
        }
        let mut cur = reg;
        while cur.start.0 < cur.end.0
            invariant
                cnode_wf(*cnode),
                cnode.base == old(cnode).base,
                cap_points_to_cnode(root_cnode_cap, *cnode),
                carve_inv(*bs, first_untyped_slot as int),
                bs.reserved == old(bs).reserved,
                bs.freemem == old(bs).freemem,
                old(bs).slot_pos_cur <= bs.slot_pos_cur,
                bs.slot_pos_cur <= ROOT_CNODE_SLOTS || bs.slot_pos_cur == old(bs).slot_pos_cur,
                crate::bootinfo::bi_scalars_eq(old(bs).bi_frame->Some_0, bs.bi_frame->Some_0),
                bs.bi_frame->Some_0.untyped == old(bs).bi_frame->Some_0.untyped,
                bs.bi_frame->Some_0.empty == old(bs).bi_frame->Some_0.empty,
                cur.start.0 <= cur.end.0,
                cur.end.0 <= 0x8000000000,
                cnode_populated(*old(cnode), old(bs).slot_pos_cur as int) ==> cnode_populated(
                    *cnode,
                    bs.slot_pos_cur as int,
                ),
                forall|j: int|
                    0 <= j < SEL4_NUM_INITIAL_CAPS <= old(bs).slot_pos_cur ==> cnode.slots@[j]
                        == old(cnode).slots@[j],
                cur.end == reg.end,
                reg.start.0 <= cur.start.0,
                bs.bi_frame->Some_0.untyped_list@.len() >= old(bs).bi_frame->Some_0.untyped_list@.len(),
                forall|k: int|
                    0 <= k < old(bs).bi_frame->Some_0.untyped_list@.len()
                        ==> (#[trigger] bs.bi_frame->Some_0.untyped_list@[k]) == old(bs).bi_frame->Some_0.untyped_list@[k],
                forall|k: int|
                    old(bs).bi_frame->Some_0.untyped_list@.len() <= k
                        < bs.bi_frame->Some_0.untyped_list@.len() ==> desc_describes_chunk(
                        #[trigger] bs.bi_frame->Some_0.untyped_list@[k],
                        reg,
                        device_memory,
                    ),
                carve_fits(
                    reg.start.0,
                    reg.end.0,
                    device_memory,
                    first_untyped_slot as int,
                    old(bs).slot_pos_cur as int,
                ) ==> {
                    &&& carve_chunks(reg.start.0, reg.end.0, device_memory)
                        == bs.bi_frame->Some_0.untyped_list@.skip(
                        old(bs).bi_frame->Some_0.untyped_list@.len() as int,
                    ) + carve_chunks(cur.start.0, reg.end.0, device_memory)
                    &&& bs.slot_pos_cur - old(bs).slot_pos_cur
                        == bs.bi_frame->Some_0.untyped_list@.len() - old(
                        bs,
                    ).bi_frame->Some_0.untyped_list@.len()
                },
            decreases cur.end.0 - cur.start.0,
        {
            let len = cur.end.0 - cur.start.0;
            let mut size_bits = floor_log2(len);
            proof {
                lemma2_to64();
                vstd::arithmetic::power2::lemma2_to64_rest();
            }
            if size_bits > SEL4_MAX_UNTYPED_BITS {
                proof {
                    vstd::arithmetic::power2::lemma_pow2_strictly_increases(
                        SEL4_MAX_UNTYPED_BITS as nat,
                        size_bits as nat,
                    );
                }
                size_bits = SEL4_MAX_UNTYPED_BITS;
            }
            if cur.start.0 != 0 {
                let align_bits = low_zero_bits(cur.start.0);
                if align_bits < size_bits {
                    proof {
                        vstd::arithmetic::power2::lemma_pow2_strictly_increases(
                            align_bits as nat,
                            size_bits as nat,
                        );
                    }
                    size_bits = align_bits;
                }
                proof {
                    // The chunk is naturally aligned: its start is a
                    // multiple of its own size.
                    crate::bits::lemma_aligned_weaken(
                        cur.start.0 as int,
                        size_bits as nat,
                        align_bits as nat,
                    );
                }
            } else {
                proof {
                    vstd::arithmetic::div_mod::lemma_small_mod(0, pow2(size_bits as nat) as nat);
                }
            }
            let ghost head = UntypedDesc {
                paddr: cur.start.0,
                size_bits: size_bits as u8,
                is_device: if device_memory {
                    1u8
                } else {
                    0u8
                },
            };
            let ghost next = (cur.start.0 + pow2(size_bits as nat)) as u64;
            let ghost emitted0 = bs.bi_frame->Some_0.untyped_list@.skip(
                old(bs).bi_frame->Some_0.untyped_list@.len() as int,
            );
            proof {
                // The chunk fits in what is left of the region.
                assert(pow2(size_bits as nat) <= len);
                // The computed class is the carving policy's class, so the
                // front of the remaining carve sequence is this chunk.
                assert(size_bits as int == chunk_size_bits_spec(cur.start.0, len));
                assert(carve_chunks(cur.start.0, reg.end.0, device_memory) == if size_bits
                    >= SEL4_MIN_UNTYPED_BITS {
                    seq![head] + carve_chunks(next, reg.end.0, device_memory)
                } else {
                    carve_chunks(next, reg.end.0, device_memory)
                });
                if carve_fits(
                    reg.start.0,
                    reg.end.0,
                    device_memory,
                    first_untyped_slot as int,
                    old(bs).slot_pos_cur as int,
                ) && size_bits >= SEL4_MIN_UNTYPED_BITS {
                    // The budget leaves room for this chunk's descriptor and
                    // slot.
                    assert(carve_chunks(reg.start.0, reg.end.0, device_memory).len()
                        == emitted0.len() + carve_chunks(
                        cur.start.0,
                        reg.end.0,
                        device_memory,
                    ).len());
                    assert(bs.slot_pos_cur - first_untyped_slot
                        < CONFIG_MAX_NUM_BOOTINFO_UNTYPED_CAPS);
                    assert(bs.slot_pos_cur < ROOT_CNODE_SLOTS);
                }
            }
            if size_bits >= SEL4_MIN_UNTYPED_BITS {
                proof {
                    assert(desc_describes_chunk(
                        UntypedDesc {
                            paddr: cur.start.0,
                            size_bits: size_bits as u8,
                            is_device: if device_memory {
                                1u8
                            } else {
                                0u8
                            },
                        },
                        reg,
                        device_memory,
                    ));
                }
                let ghost pre_list = bs.bi_frame->Some_0.untyped_list@;
                if !provide_untyped_cap(
                    root_cnode_cap,
                    device_memory,
                    cur.start,
                    size_bits,
                    first_untyped_slot,
                    cnode,
                    bs,
                ) {
                    proof {
                        assert forall|k: int|
                            old(bs).bi_frame->Some_0.untyped_list@.len() <= k
                                < bs.bi_frame->Some_0.untyped_list@.len() implies desc_describes_chunk(
                            #[trigger] bs.bi_frame->Some_0.untyped_list@[k],
                            reg,
                            device_memory,
                        ) by {
                            if k < pre_list.len() {
                                assert(bs.bi_frame->Some_0.untyped_list@[k] == pre_list[k]);
                            } else {
                                assert(bs.bi_frame->Some_0.untyped_list@[k] == (UntypedDesc {
                                    paddr: cur.start.0,
                                    size_bits: size_bits as u8,
                                    is_device: if device_memory {
                                        1u8
                                    } else {
                                        0u8
                                    },
                                }));
                            }
                        }
                    }
                    return false;
                }
                proof {
                    if carve_fits(
                        reg.start.0,
                        reg.end.0,
                        device_memory,
                        first_untyped_slot as int,
                        old(bs).slot_pos_cur as int,
                    ) {
                        let old_len = old(bs).bi_frame->Some_0.untyped_list@.len() as int;
                        assert(bs.bi_frame->Some_0.untyped_list@ == pre_list.push(head));
                        assert(bs.bi_frame->Some_0.untyped_list@.skip(old_len) =~= emitted0.push(
                            head,
                        ));
                        assert(emitted0 + (seq![head] + carve_chunks(
                            next,
                            reg.end.0,
                            device_memory,
                        )) =~= emitted0.push(head) + carve_chunks(next, reg.end.0, device_memory));
                    }
                }
            }
            cur.start = Paddr(cur.start.0 + bit64(size_bits));
        }
        true
    }

    /// Carves every remaining memory region into untyped capabilities: the
    /// device memory around the reserved regions up to the device ceiling,
    /// the reclaimed boot memory, and the remaining free memory; then
    /// records the untyped slot range in the boot-info frame.
    #[verifier::rlimit(100)]
    pub fn create_untypeds(
        &self,
        root_cnode_cap: Capability,
        boot_mem_reuse_reg: Pregion,
        cnode: &mut CNode,
        bs: &mut BootState,
    ) -> (r: bool)
        requires
            cnode_wf(*old(cnode)),
            cap_points_to_cnode(root_cnode_cap, *old(cnode)),
            old(bs).bi_frame is Some,
            old(bs).bi_frame->Some_0.untyped_list@.len() == 0,
            crate::freemem::regions_sorted(old(bs).reserved@),
            crate::freemem::regions_within(old(bs).reserved@, 0, 0x8000000000),
            boot_mem_reuse_reg.start.0 <= boot_mem_reuse_reg.end.0,
            boot_mem_reuse_reg.end.0 <= 0x8000000000,
            forall|i: int|
                0 <= i < old(bs).freemem@.len() ==> (#[trigger] old(bs).freemem@[i]).start.0 <= old(
                    bs,
                ).freemem@[i].end.0 && old(bs).freemem@[i].end.0 <= 0x8000000000,
        ensures
            cnode_wf(*final (cnode)),
            final (cnode).base == old(cnode).base,
            old(bs).slot_pos_cur <= final (bs).slot_pos_cur,
            final (bs).slot_pos_cur <= ROOT_CNODE_SLOTS || final (bs).slot_pos_cur == old(
                bs,
            ).slot_pos_cur,
            final (bs).reserved == old(bs).reserved,
            final (bs).freemem == old(bs).freemem,
            final (bs).bi_frame is Some,
            crate::bootinfo::bi_scalars_eq(
                old(bs).bi_frame->Some_0,
                final (bs).bi_frame->Some_0,
            ),
            cnode_populated(*old(cnode), old(bs).slot_pos_cur as int) ==> cnode_populated(
                *final (cnode),
                final (bs).slot_pos_cur as int,
            ),
            r ==> final (bs).bi_frame is Some && final (bs).bi_frame->Some_0.untyped == (
            SlotRegion { start: old(bs).slot_pos_cur, end: final (bs).slot_pos_cur }),
            !r && old(bs).slot_pos_cur <= ROOT_CNODE_SLOTS ==> final (bs).slot_pos_cur
                == ROOT_CNODE_SLOTS,
            forall|k: int|
                0 <= k < final (bs).bi_frame->Some_0.untyped_list@.len() ==> desc_well_formed(
                    #[trigger] final (bs).bi_frame->Some_0.untyped_list@[k],
                ),
            forall|j: int|
                0 <= j < SEL4_NUM_INITIAL_CAPS <= old(bs).slot_pos_cur ==> final (cnode).slots@[j]
                    == old(cnode).slots@[j],
            boot_untyped_chunks(old(bs).reserved@, boot_mem_reuse_reg, old(bs).freemem@).len()
                <= CONFIG_MAX_NUM_BOOTINFO_UNTYPED_CAPS && old(bs).slot_pos_cur
                + boot_untyped_chunks(
                old(bs).reserved@,
                boot_mem_reuse_reg,
                old(bs).freemem@,
            ).len() <= ROOT_CNODE_SLOTS ==> {
                &&& r == true
                &&& final (bs).bi_frame->Some_0.untyped_list@ == boot_untyped_chunks(
                    old(bs).reserved@,
                    boot_mem_reuse_reg,
                    old(bs).freemem@,
                )
                &&& final (bs).slot_pos_cur == old(bs).slot_pos_cur + boot_untyped_chunks(
                    old(bs).reserved@,
                    boot_mem_reuse_reg,
                    old(bs).freemem@,
                ).len()
            },
    {
        let ghost total = boot_untyped_chunks(old(bs).reserved@, boot_mem_reuse_reg, old(bs).freemem@);
        let ghost in_budget = total.len() <= CONFIG_MAX_NUM_BOOTINFO_UNTYPED_CAPS && old(
            bs,
        ).slot_pos_cur + total.len() <= ROOT_CNODE_SLOTS;
        proof {
            if in_budget {
                assert(old(bs).reserved@.skip(0) =~= old(bs).reserved@);
                assert(bs.bi_frame->Some_0.untyped_list@ =~= Seq::<UntypedDesc>::empty());
                assert(Seq::<UntypedDesc>::empty() + untyped_rest(
                    old(bs).reserved@,
                    0,
                    boot_mem_reuse_reg,
                    old(bs).freemem@,
                ) =~= untyped_rest(old(bs).reserved@, 0, boot_mem_reuse_reg, old(bs).freemem@));
            }
        }
        let first_untyped_slot = bs.slot_pos_cur;
        let mut start: u64 = 0;
        let n_res = bs.reserved.len();
        let mut i: usize = 0;
        while i < n_res
            invariant
                cnode_wf(*cnode),
                cnode.base == old(cnode).base,
                cap_points_to_cnode(root_cnode_cap, *cnode),
                carve_inv(*bs, first_untyped_slot as int),
                first_untyped_slot == old(bs).slot_pos_cur,
                old(bs).slot_pos_cur <= bs.slot_pos_cur,
                bs.slot_pos_cur <= ROOT_CNODE_SLOTS || bs.slot_pos_cur == old(bs).slot_pos_cur,
                crate::bootinfo::bi_scalars_eq(old(bs).bi_frame->Some_0, bs.bi_frame->Some_0),
                bs.bi_frame->Some_0.untyped == old(bs).bi_frame->Some_0.untyped,
                bs.bi_frame->Some_0.empty == old(bs).bi_frame->Some_0.empty,
                forall|k: int|
                    0 <= k < bs.bi_frame->Some_0.untyped_list@.len() ==> desc_well_formed(
                        #[trigger] bs.bi_frame->Some_0.untyped_list@[k],
                    ),
                bs.reserved == old(bs).reserved,
                bs.freemem == old(bs).freemem,
                n_res == bs.reserved@.len(),
                i <= n_res,
                crate::freemem::regions_sorted(bs.reserved@),
                crate::freemem::regions_within(bs.reserved@, 0, 0x8000000000),
                i > 0 ==> start == bs.reserved@[i - 1].end.0,
                i == 0 ==> start == 0,
                start <= 0x8000000000,
                cnode_populated(*old(cnode), old(bs).slot_pos_cur as int) ==> cnode_populated(
                    *cnode,
                    bs.slot_pos_cur as int,
                ),
                forall|j: int|
                    0 <= j < SEL4_NUM_INITIAL_CAPS <= old(bs).slot_pos_cur ==> cnode.slots@[j]
                        == old(cnode).slots@[j],
                total == boot_untyped_chunks(
                    old(bs).reserved@,
                    boot_mem_reuse_reg,
                    old(bs).freemem@,
                ),
                in_budget == (total.len() <= CONFIG_MAX_NUM_BOOTINFO_UNTYPED_CAPS && old(
                    bs,
                ).slot_pos_cur + total.len() <= ROOT_CNODE_SLOTS),
                in_budget ==> {
                    &&& total == bs.bi_frame->Some_0.untyped_list@ + untyped_rest(
                        old(bs).reserved@.skip(i as int),
                        start,
                        boot_mem_reuse_reg,
                        old(bs).freemem@,
                    )
                    &&& bs.slot_pos_cur == old(bs).slot_pos_cur
                        + bs.bi_frame->Some_0.untyped_list@.len()
                },
            decreases n_res - i,
        {
            let res = bs.reserved[i];
            let ghost rest_i = old(bs).reserved@.skip(i as int);
            let ghost here = if start < res.start.0 {
                carve_chunks(start, res.start.0, true)
            } else {
                Seq::<UntypedDesc>::empty()
            };
            let ghost list0 = bs.bi_frame->Some_0.untyped_list@;
            proof {
                if in_budget {
                    assert(rest_i[0] == old(bs).reserved@[i as int]);
                    assert(rest_i.skip(1) =~= old(bs).reserved@.skip(i as int + 1));
                    // One step of the gap scan.
                    assert(device_gap_chunks(rest_i, start) == here + device_gap_chunks(
                        rest_i.skip(1),
                        res.end.0,
                    ));
                    assert(device_start_after(rest_i, start) == device_start_after(
                        rest_i.skip(1),
                        res.end.0,
                    ));
                    assert(untyped_rest(rest_i, start, boot_mem_reuse_reg, old(bs).freemem@)
                        =~= here + untyped_rest(
                        old(bs).reserved@.skip(i as int + 1),
                        res.end.0,
                        boot_mem_reuse_reg,
                        old(bs).freemem@,
                    ));
                    assert(total =~= (list0 + here) + untyped_rest(
                        old(bs).reserved@.skip(i as int + 1),
                        res.end.0,
                        boot_mem_reuse_reg,
                        old(bs).freemem@,
                    ));
                }
            }
            if start < res.start.0 {
                let reg = Pregion::new(Paddr(start), res.start);
                if !self.create_untypeds_for_region(
                    root_cnode_cap,
                    true,
                    reg,
                    first_untyped_slot,
                    cnode,
                    bs,
                ) {
                    // Boot-fatal: creation of untypeds for a device region
                    // failed; the caller reports it.
                    return false;
                }
            }
            start = res.end.0;
            i = i + 1;
        }
        let ghost top_here = if start < crate::config::CONFIG_PADDR_USER_DEVICE_TOP {
            carve_chunks(start, crate::config::CONFIG_PADDR_USER_DEVICE_TOP, true)
        } else {
            Seq::<UntypedDesc>::empty()
        };
        let ghost reuse_here = carve_chunks(
            boot_mem_reuse_reg.start.0,
            boot_mem_reuse_reg.end.0,
            false,
        );
        let ghost list1 = bs.bi_frame->Some_0.untyped_list@;
        proof {
            if in_budget {
                // The gap scan is done: what remains is the top device
                // window, the reclaimed boot memory, and the free regions.
                assert(old(bs).reserved@.skip(n_res as int).len() == 0);
                assert(device_gap_chunks(old(bs).reserved@.skip(n_res as int), start)
                    =~= Seq::<UntypedDesc>::empty());
                assert(device_start_after(old(bs).reserved@.skip(n_res as int), start) == start);
                assert(untyped_rest(
                    old(bs).reserved@.skip(n_res as int),
                    start,
                    boot_mem_reuse_reg,
                    old(bs).freemem@,
                ) =~= top_here + (reuse_here + freemem_chunks(old(bs).freemem@)));
                assert(total =~= ((list1 + top_here) + reuse_here) + freemem_chunks(
                    old(bs).freemem@,
                ));
                assert(total =~= (list1 + top_here) + (reuse_here + freemem_chunks(
                    old(bs).freemem@,
                )));
            }
        }
        if start < crate::config::CONFIG_PADDR_USER_DEVICE_TOP {
            let reg = Pregion::new(
                Paddr(start),
                Paddr(crate::config::CONFIG_PADDR_USER_DEVICE_TOP),
            );
            if !self.create_untypeds_for_region(
                root_cnode_cap,
                true,
                reg,
                first_untyped_slot,
                cnode,
                bs,
            ) {
                return false;
            }
        }
        let ghost list2 = bs.bi_frame->Some_0.untyped_list@;
        proof {
            if in_budget {
                assert(list2 =~= list1 + top_here);
            }
        }
        if !self.create_untypeds_for_region(
            root_cnode_cap,
            false,
            boot_mem_reuse_reg,
            first_untyped_slot,
            cnode,
            bs,
        ) {
            return false;
        }
        proof {
            if in_budget {
                assert(bs.bi_frame->Some_0.untyped_list@ =~= list2 + reuse_here);
                assert(old(bs).freemem@.skip(0) =~= old(bs).freemem@);
                assert(total =~= bs.bi_frame->Some_0.untyped_list@ + freemem_chunks(
                    old(bs).freemem@.skip(0),
                ));
            }
        }
        // Convert the remaining free memory into untyped objects.
        let n_free = bs.freemem.len();
        let mut k: usize = 0;
        while k < n_free
            invariant
                cnode_wf(*cnode),
                cnode.base == old(cnode).base,
                cap_points_to_cnode(root_cnode_cap, *cnode),
                carve_inv(*bs, first_untyped_slot as int),
                first_untyped_slot == old(bs).slot_pos_cur,
                old(bs).slot_pos_cur <= bs.slot_pos_cur,
                bs.slot_pos_cur <= ROOT_CNODE_SLOTS || bs.slot_pos_cur == old(bs).slot_pos_cur,
                crate::bootinfo::bi_scalars_eq(old(bs).bi_frame->Some_0, bs.bi_frame->Some_0),
                bs.bi_frame->Some_0.untyped == old(bs).bi_frame->Some_0.untyped,
                bs.bi_frame->Some_0.empty == old(bs).bi_frame->Some_0.empty,
                forall|k: int|
                    0 <= k < bs.bi_frame->Some_0.untyped_list@.len() ==> desc_well_formed(
                        #[trigger] bs.bi_frame->Some_0.untyped_list@[k],
                    ),
                bs.reserved == old(bs).reserved,
                bs.freemem == old(bs).freemem,
                n_free == bs.freemem@.len(),
                k <= n_free,
                forall|j: int|
                    0 <= j < bs.freemem@.len() ==> (#[trigger] bs.freemem@[j]).start.0
                        <= bs.freemem@[j].end.0 && bs.freemem@[j].end.0 <= 0x8000000000,
                cnode_populated(*old(cnode), old(bs).slot_pos_cur as int) ==> cnode_populated(
                    *cnode,
                    bs.slot_pos_cur as int,
                ),
                forall|j: int|
                    0 <= j < SEL4_NUM_INITIAL_CAPS <= old(bs).slot_pos_cur ==> cnode.slots@[j]
                        == old(cnode).slots@[j],
                total == boot_untyped_chunks(
                    old(bs).reserved@,
                    boot_mem_reuse_reg,
                    old(bs).freemem@,
                ),
                in_budget == (total.len() <= CONFIG_MAX_NUM_BOOTINFO_UNTYPED_CAPS && old(
                    bs,
                ).slot_pos_cur + total.len() <= ROOT_CNODE_SLOTS),
                in_budget ==> {
                    &&& total == bs.bi_frame->Some_0.untyped_list@ + freemem_chunks(
                        old(bs).freemem@.skip(k as int),
                    )
                    &&& bs.slot_pos_cur == old(bs).slot_pos_cur
                        + bs.bi_frame->Some_0.untyped_list@.len()
                },
            decreases n_free - k,
        {
            let reg = bs.freemem[k];
            let ghost frest = old(bs).freemem@.skip(k as int);
            let ghost fhere = carve_chunks(reg.start.0, reg.end.0, false);
            let ghost list3 = bs.bi_frame->Some_0.untyped_list@;
            proof {
                if in_budget {
                    assert(frest[0] == old(bs).freemem@[k as int]);
                    assert(frest.skip(1) =~= old(bs).freemem@.skip(k as int + 1));
                    assert(freemem_chunks(frest) == fhere + freemem_chunks(
                        old(bs).freemem@.skip(k as int + 1),
                    ));
                    assert(total =~= (list3 + fhere) + freemem_chunks(
                        old(bs).freemem@.skip(k as int + 1),
                    ));
                }
            }
            if !self.create_untypeds_for_region(
                root_cnode_cap,
                false,
                reg,
                first_untyped_slot,
                cnode,
                bs,
            ) {
                return false;
            }
            k = k + 1;
        }
        proof {
            if in_budget {
                assert(old(bs).freemem@.skip(n_free as int).len() == 0);
                assert(freemem_chunks(old(bs).freemem@.skip(n_free as int))
                    =~= Seq::<UntypedDesc>::empty());
                assert(total =~= bs.bi_frame->Some_0.untyped_list@);
            }
        }
        let cur = bs.slot_pos_cur;
        match &mut bs.bi_frame {
            Option::Some(bi) => {
                bi.untyped = SlotRegion::new(first_untyped_slot, cur);
            },
            Option::None => vstd::pervasive::unreached(),
        }
        true
    }
}


impl crate::rootserver::RootServer {
    /// Builds the root CNode: fresh slot storage at the allocated address,
    /// with the CNode capability written into its own well-known slot.
    pub fn create_root_cnode(&self) -> (r: (Capability, CNode))
        requires
            self.cnode.0 % 2 == 0,
            self.cnode.0 < 0x800000000,
        ensures
            cnode_wf(r.1),
            r.1.base == self.cnode,
            cap_points_to_cnode(r.0, r.1),
            get_info_spec(r.0) == (CapInfo::CnodeCap { ptr: self.cnode }),
            r.1.slots@[crate::config::SEL4_CAP_INIT_THREAD_CNODE as int].cap == r.0,
            forall|j: int|
                0 <= j < ROOT_CNODE_SLOTS && j != crate::config::SEL4_CAP_INIT_THREAD_CNODE
                    ==> crate::cap::slot_is_empty(#[trigger] r.1.slots@[j]),
    {
        let cap = Capability::cap_cnode_cap_new(
            CONFIG_ROOT_CNODE_SIZE_BITS,  // radix
            WORD_BITS - CONFIG_ROOT_CNODE_SIZE_BITS,  // guard size
            0,  // guard
            self.cnode.0,
        );
        let mut cnode = CNode::new(self.cnode);
        cap.cnode_write_slot_at(&mut cnode, crate::config::SEL4_CAP_INIT_THREAD_CNODE, cap);
        (cap, cnode)
    }

    /// Clears and fills the boot-info frame's scalar fields and places the
    /// slot cursor just past the well-known slots.
    pub fn populate_bi_frame(
        &self,
        node_id: u64,
        num_nodes: u64,
        ipcbuf_vptr: Vaddr,
        extra_bi_size: u64,
        bs: &mut BootState,
    )
        requires
            extra_bi_size == 0,
        ensures
            final (bs).slot_pos_cur == SEL4_NUM_INITIAL_CAPS,
            final (bs).reserved == old(bs).reserved,
            final (bs).freemem == old(bs).freemem,
            final (bs).bi_frame is Some,
            final (bs).bi_frame->Some_0.extra_len == 0,
            final (bs).bi_frame->Some_0.node_id == node_id,
            final (bs).bi_frame->Some_0.num_nodes == num_nodes,
            final (bs).bi_frame->Some_0.num_io_pt_levels == 0,
            final (bs).bi_frame->Some_0.ipc_buffer == ipcbuf_vptr.0,
            final (bs).bi_frame->Some_0.it_cnode_size_bits == CONFIG_ROOT_CNODE_SIZE_BITS,
            final (bs).bi_frame->Some_0.untyped_list@.len() == 0,
    {
        let mut bi = BootInfo::new_empty();
        bi.node_id = node_id;
        bi.num_nodes = num_nodes;
        bi.num_io_pt_levels = 0;
        bi.ipc_buffer = ipcbuf_vptr.0;
        bi.it_cnode_size_bits = CONFIG_ROOT_CNODE_SIZE_BITS;
        bi.extra_len = extra_bi_size;
        bs.slot_pos_cur = SEL4_NUM_INITIAL_CAPS;
        bs.bi_frame = Some(bi);
    }

    /// Creates and installs the page-table capabilities of one level of the
    /// initial thread's address space, covering the thread's virtual region.
    fn create_it_pt_caps_level(
        &mut self,
        root_cnode_cap: Capability,
        root_pt_cap: Capability,
        it_v_reg: Vregion,
        bits: u64,
        vspace: &mut crate::vspace::VSpace,
        cnode: &mut CNode,
        bs: &mut BootState,
    ) -> (r: Result<(), BootError>)
        requires
            cnode_wf(*old(cnode)),
            cap_points_to_cnode(root_cnode_cap, *old(cnode)),
            cap_tag_supported(root_pt_cap),
            get_info_spec(root_pt_cap) matches CapInfo::PageTableCap { pptr, .. } && pptr.0 == old(
                vspace,
            ).root.base.0,
            crate::vspace::vspace_wf(*old(vspace)),
            old(self).paging.start.0 % 4096 == 0,
            old(self).paging.start.0 <= old(self).paging.end.0,
            old(self).paging.end.0 <= 0x8000000000,
            old(vspace).root.base.0 < old(self).paging.start.0,
            forall|t: int|
                0 <= t < old(vspace).tables@.len() ==> (#[trigger] old(
                    vspace,
                ).tables@[t]).base.0 < old(self).paging.start.0,
            it_v_reg.start.0 <= it_v_reg.end.0,
            it_v_reg.end.0 < 0x4000000000,
            21 <= bits <= 30,
        ensures
            cnode_wf(*final (cnode)),
            final (cnode).base == old(cnode).base,
            final (bs).reserved == old(bs).reserved,
            final (bs).freemem == old(bs).freemem,
            final (bs).bi_frame == old(bs).bi_frame,
            old(bs).slot_pos_cur <= final (bs).slot_pos_cur,
            final (bs).slot_pos_cur <= ROOT_CNODE_SLOTS || final (bs).slot_pos_cur == old(
                bs,
            ).slot_pos_cur,
            cnode_populated(*old(cnode), old(bs).slot_pos_cur as int) ==> cnode_populated(
                *final (cnode),
                final (bs).slot_pos_cur as int,
            ),
            crate::vspace::vspace_wf(*final (vspace)),
            final (vspace).root.base == old(vspace).root.base,
            final (self).paging.start.0 % 4096 == 0,
            final (self).paging.start.0 <= final (self).paging.end.0,
            final (self).paging.end == old(self).paging.end,
            old(self).paging.start.0 <= final (self).paging.start.0,
            final (self).cnode == old(self).cnode,
            final (self).vspace == old(self).vspace,
            final (self).asid_pool == old(self).asid_pool,
            final (self).ipc_buf == old(self).ipc_buf,
            final (self).boot_info == old(self).boot_info,
            final (self).extra_bi == old(self).extra_bi,
            final (self).tcb == old(self).tcb,
            final (vspace).root.base.0 < final (self).paging.start.0,
            forall|t: int|
                0 <= t < final (vspace).tables@.len() ==> (#[trigger] final (vspace).tables@[t]).base.0
                    < final (self).paging.start.0,
            forall|j: int|
                0 <= j < SEL4_NUM_INITIAL_CAPS <= old(bs).slot_pos_cur ==> final (cnode).slots@[j]
                    == old(cnode).slots@[j],
            r matches Err(e) ==> e == BootError::PagingExhausted,
            old(self).paging.end.0 - old(self).paging.start.0 >= crate::rootserver::n_paging_spec(
                it_v_reg,
                bits as nat,
            ) * 4096 ==> {
                &&& r is Ok
                &&& final (self).paging.start.0 == old(self).paging.start.0
                    + crate::rootserver::n_paging_spec(it_v_reg, bits as nat) * 4096
            },
    {
        proof {
            lemma2_to64();
        }
        let ghost d = crate::bits::align_down(it_v_reg.start.0 as int, bits as nat);
        let ghost u = crate::bits::align_up(it_v_reg.end.0 as int, bits as nat);
        let ghost p = pow2(bits as nat) as int;
        let ghost n = crate::rootserver::n_paging_spec(it_v_reg, bits as nat);
        let ghost mut k: int = 0;
        proof {
            crate::bits::lemma_aligned_range_exact(
                it_v_reg.start.0 as int,
                it_v_reg.end.0 as int,
                bits as nat,
            );
            lemma_pow2_pos(bits as nat);
            assert(u - d == n * p);
            assert(n >= 0);
        }
        let mut pt_vptr = crate::bits::round_down(it_v_reg.start.0, bits);
        while pt_vptr < it_v_reg.end.0
            invariant
                cnode_wf(*cnode),
                cnode.base == old(cnode).base,
                cap_points_to_cnode(root_cnode_cap, *cnode),
                cap_tag_supported(root_pt_cap),
                get_info_spec(root_pt_cap) matches CapInfo::PageTableCap { pptr, .. } && pptr.0
                    == vspace.root.base.0,
                crate::vspace::vspace_wf(*vspace),
                vspace.root.base == old(vspace).root.base,
                self.paging.start.0 % 4096 == 0,
                self.paging.start.0 <= self.paging.end.0,
                self.paging.end == old(self).paging.end,
                self.paging.end.0 <= 0x8000000000,
                old(self).paging.start.0 <= self.paging.start.0,
                self.cnode == old(self).cnode,
                self.vspace == old(self).vspace,
                self.asid_pool == old(self).asid_pool,
                self.ipc_buf == old(self).ipc_buf,
                self.boot_info == old(self).boot_info,
                self.extra_bi == old(self).extra_bi,
                self.tcb == old(self).tcb,
                vspace.root.base.0 < self.paging.start.0,
                forall|t: int|
                    0 <= t < vspace.tables@.len() ==> (#[trigger] vspace.tables@[t]).base.0
                        < self.paging.start.0,
                bs.reserved == old(bs).reserved,
                bs.freemem == old(bs).freemem,
                bs.bi_frame == old(bs).bi_frame,
                old(bs).slot_pos_cur <= bs.slot_pos_cur,
                bs.slot_pos_cur <= ROOT_CNODE_SLOTS || bs.slot_pos_cur == old(bs).slot_pos_cur,
                cnode_populated(*old(cnode), old(bs).slot_pos_cur as int) ==> cnode_populated(
                    *cnode,
                    bs.slot_pos_cur as int,
                ),
                forall|j: int|
                    0 <= j < SEL4_NUM_INITIAL_CAPS <= old(bs).slot_pos_cur ==> cnode.slots@[j]
                        == old(cnode).slots@[j],
                it_v_reg.end.0 < 0x4000000000,
                pt_vptr <= 0x4000000000 + 0x40000000,
                21 <= bits <= 30,
                d == crate::bits::align_down(it_v_reg.start.0 as int, bits as nat),
                u == crate::bits::align_up(it_v_reg.end.0 as int, bits as nat),
                p == pow2(bits as nat),
                n == crate::rootserver::n_paging_spec(it_v_reg, bits as nat),
                u - d == n * p,
                u >= it_v_reg.end.0,
                u - it_v_reg.end.0 < p,
                p > 0,
                0 <= k <= n,
                pt_vptr as int == d + k * p,
                self.paging.start.0 == old(self).paging.start.0 + k * 4096,
            decreases
                    if pt_vptr <= it_v_reg.end.0 {
                        it_v_reg.end.0 - pt_vptr
                    } else {
                        0
                    },
        {
            proof {
                // The loop guard puts this allocation below the level's
                // total: pt_vptr < end <= u == d + n * p.
                assert(k < n) by (nonlinear_arith)
                    requires
                        pt_vptr as int == d + k * p,
                        pt_vptr < it_v_reg.end.0,
                        it_v_reg.end.0 <= u,
                        u - d == n * p,
                        p > 0,
                ;
            }
            if self.paging.end.0 - self.paging.start.0 < 4096 {
                proof {
                    // A window sized for the whole level cannot run out.
                    if old(self).paging.end.0 - old(self).paging.start.0 >= n * 4096 {
                        assert((n - k) * 4096 >= 4096) by (nonlinear_arith)
                            requires
                                k < n,
                        ;
                        assert(n * 4096 - k * 4096 == (n - k) * 4096) by (nonlinear_arith);
                        assert(false);
                    }
                }
                // Boot-fatal internal inconsistency: the paging window was
                // sized for exactly this walk.
                return Err(BootError::PagingExhausted);
            }
            let pptr = self.it_alloc_paging();
            let ghost tables0 = vspace.tables@;
            vspace.tables.push(crate::vspace::new_pt_table(pptr));
            proof {
                assert forall|t: int| 0 <= t < vspace.tables@.len() implies (
                #[trigger] vspace.tables@[t]).base.0 < self.paging.start.0 by {
                    if t < tables0.len() {
                        assert(vspace.tables@[t] == tables0[t]);
                    }
                }
                assert(crate::vspace::vspace_wf(*vspace));
            }
            let cap = crate::vspace::create_it_pt_cap(
                root_pt_cap,
                pptr.0,
                pt_vptr,
                crate::config::IT_ASID,
                vspace,
            );
            proof {
                lemma2_to64();
                if bits < 30 {
                    vstd::arithmetic::power2::lemma_pow2_strictly_increases(bits as nat, 30);
                }
            }
            provide_cap(root_cnode_cap, cap, cnode, bs);
            proof {
                assert(d + (k + 1) * p == d + k * p + p) by (nonlinear_arith);
                k = k + 1;
            }
            pt_vptr = pt_vptr + bit64(bits);
        }
        proof {
            // The loop ran exactly once per paging structure of this level.
            if k < n {
                assert(d + k * p <= u - p) by (nonlinear_arith)
                    requires
                        k < n,
                        u - d == n * p,
                        p > 0,
                ;
                assert(false);
            }
        }
        Ok(())
    }

    /// Creates the initial thread's address space: the root table with the
    /// kernel window mapped, the root page-table capability in its
    /// well-known slot, and the page-table capabilities of both non-root
    /// levels covering the thread's virtual region.
    pub fn create_it_address_space(
        &mut self,
        root_cnode_cap: Capability,
        it_v_reg: Vregion,
        cnode: &mut CNode,
        bs: &mut BootState,
    ) -> (r: Result<(Capability, crate::vspace::VSpace), BootError>)
        requires
            cnode_wf(*old(cnode)),
            cap_points_to_cnode(root_cnode_cap, *old(cnode)),
            old(self).vspace.0 % 4096 == 0,
            0 < old(self).vspace.0 < 0x8000000000,
            old(self).paging.start.0 % 4096 == 0,
            old(self).vspace.0 < old(self).paging.start.0,
            old(self).paging.start.0 <= old(self).paging.end.0,
            old(self).paging.end.0 <= 0x8000000000,
            it_v_reg.start.0 <= it_v_reg.end.0,
            it_v_reg.end.0 < 0x4000000000,
            SEL4_NUM_INITIAL_CAPS <= old(bs).slot_pos_cur,
        ensures
            cnode_wf(*final (cnode)),
            final (cnode).base == old(cnode).base,
            final (bs).reserved == old(bs).reserved,
            final (bs).freemem == old(bs).freemem,
            final (bs).bi_frame == old(bs).bi_frame,
            old(bs).slot_pos_cur <= final (bs).slot_pos_cur,
            final (bs).slot_pos_cur <= ROOT_CNODE_SLOTS || final (bs).slot_pos_cur == old(
                bs,
            ).slot_pos_cur,
            cnode_populated(*old(cnode), old(bs).slot_pos_cur as int) ==> cnode_populated(
                *final (cnode),
                final (bs).slot_pos_cur as int,
            ),
            final (self).cnode == old(self).cnode,
            final (self).vspace == old(self).vspace,
            final (self).asid_pool == old(self).asid_pool,
            final (self).ipc_buf == old(self).ipc_buf,
            final (self).boot_info == old(self).boot_info,
            final (self).tcb == old(self).tcb,
            forall|j: int|
                0 <= j < SEL4_NUM_INITIAL_CAPS && j != crate::config::SEL4_CAP_INIT_THREAD_VSPACE
                    ==> final (cnode).slots@[j] == old(cnode).slots@[j],
            r matches Err(e) ==> e == BootError::PagingExhausted,
            old(self).paging.end.0 - old(self).paging.start.0
                >= crate::rootserver::riscv_n_paging_spec(it_v_reg) * 4096 ==> r is Ok,
            r matches Ok(p) ==> {
                &&& cap_tag_supported(p.0)
                &&& get_info_spec(p.0) == (CapInfo::PageTableCap {
                    vptr: Vaddr(old(self).vspace.0),
                    pptr: Paddr(old(self).vspace.0),
                    asid: crate::config::IT_ASID,
                })
                &&& crate::vspace::vspace_wf(p.1)
                &&& p.1.root.base == old(self).vspace
                &&& final (cnode).slots@[crate::config::SEL4_CAP_INIT_THREAD_VSPACE as int].cap
                    == p.0
            },
    {
        // The kernel window mapping is installed in the initial thread's
        // root table before any user mapping.
        let mut root = crate::vspace::new_pt_table(self.vspace);
        proof {
            lemma2_to64();
        }
        proof {
            assert(2u64 | 8 | 4 | 32 | 64 | 128 | 1 == 0xef) by (bit_vector);
        }
        let kw_pa = crate::bits::round_down(crate::config::KERNEL_ELF_BASE, 30);
        let kw_idx = Vaddr(kw_pa).pt_level_index(0);
        let kw_pte = crate::pte::PTE::new(
            Paddr(kw_pa),
            crate::pte::PTE_R | crate::pte::PTE_X | crate::pte::PTE_W | crate::pte::PTE_G
                | crate::pte::PTE_A | crate::pte::PTE_D | crate::pte::PTE_V,
        );
        root.entries.set(kw_idx, kw_pte);
        let mut vspace = crate::vspace::VSpace { root, tables: Vec::new() };

        let root_pt_cap = Capability::cap_page_table_cap_new(
            crate::config::IT_ASID,
            self.vspace.0,
            true,
            self.vspace.0,
        );
        root_cnode_cap.cnode_write_slot_at(
            cnode,
            crate::config::SEL4_CAP_INIT_THREAD_VSPACE,
            root_pt_cap,
        );

        // One pass per non-root level: 1 GiB reach, then 2 MiB reach.  A
        // window sized for both levels leaves each pass exactly its share.
        let ghost n30 = crate::rootserver::n_paging_spec(it_v_reg, 30);
        let ghost n21 = crate::rootserver::n_paging_spec(it_v_reg, 21);
        proof {
            crate::bits::lemma_aligned_range_exact(
                it_v_reg.start.0 as int,
                it_v_reg.end.0 as int,
                30,
            );
            crate::bits::lemma_aligned_range_exact(
                it_v_reg.start.0 as int,
                it_v_reg.end.0 as int,
                21,
            );
            assert(n30 >= 0 && n21 >= 0);
            assert((n30 + n21) * 4096 == n30 * 4096 + n21 * 4096) by (nonlinear_arith);
        }
        match self.create_it_pt_caps_level(
            root_cnode_cap,
            root_pt_cap,
            it_v_reg,
            30,
            &mut vspace,
            cnode,
            bs,
        ) {
            Ok(u) => u,
            Err(e) => {
                return Err(e);
            },
        }
        match self.create_it_pt_caps_level(
            root_cnode_cap,
            root_pt_cap,
            it_v_reg,
            21,
            &mut vspace,
            cnode,
            bs,
        ) {
            Ok(u) => u,
            Err(e) => {
                return Err(e);
            },
        }
        Ok((root_pt_cap, vspace))
    }
}


impl crate::rootserver::RootServer {
    /// Creates and maps the boot-info frame's capability into its well-known
    /// slot.  Fails when the walk for its virtual address does not land on a
    /// page-sized slot.
    pub fn create_bi_frame_cap(
        &self,
        root_cnode_cap: Capability,
        pd_cap: Capability,
        vptr: Vaddr,
        cnode: &mut CNode,
        vspace: &mut crate::vspace::VSpace,
    ) -> (r: Result<(), BootError>)
        requires
            cnode_wf(*old(cnode)),
            cap_points_to_cnode(root_cnode_cap, *old(cnode)),
            crate::vspace::vspace_wf(*old(vspace)),
            cap_tag_supported(pd_cap),
            get_info_spec(pd_cap) matches CapInfo::PageTableCap { pptr, .. } && pptr.0 == old(
                vspace,
            ).root.base.0,
            self.boot_info.0 % 4096 == 0,
            self.boot_info.0 < 0x8000000000,
            vptr.0 < 0x8000000000,
        ensures
            cnode_wf(*final (cnode)),
            final (cnode).base == old(cnode).base,
            crate::vspace::vspace_wf(*final (vspace)),
            final (vspace).root.base == old(vspace).root.base,
            r is Ok <==> crate::vspace::lookup_pt_slot_spec(*old(vspace), vptr.0).pt_bits_left
                == crate::config::SEL4_PAGE_BITS && crate::vspace::slot_entry_inert(
                *old(vspace),
                crate::vspace::lookup_pt_slot_spec(*old(vspace), vptr.0),
            ),
            r is Ok ==> forall|w: u64| #[trigger]
                crate::vspace::lookup_pt_slot_spec(*final (vspace), w)
                    == crate::vspace::lookup_pt_slot_spec(*old(vspace), w),
            r is Ok ==> get_info_spec(
                final (cnode).slots@[crate::config::SEL4_CAP_BOOT_INFO_FRAME as int].cap,
            ) == (CapInfo::FrameCap { vptr: vptr, pptr: self.boot_info, is_device: false }),
            r is Ok ==> forall|j: int|
                0 <= j < ROOT_CNODE_SLOTS && j != crate::config::SEL4_CAP_BOOT_INFO_FRAME
                    ==> final (cnode).slots@[j] == old(cnode).slots@[j],
            r is Err ==> final (cnode).slots@ == old(cnode).slots@,
            r matches Err(e) ==> e == BootError::FrameMappingFailed,
    {
        let probe = crate::vspace::lookup_pt_slot(vspace, vptr);
        if probe.pt_bits_left != crate::config::SEL4_PAGE_BITS {
            return Err(BootError::FrameMappingFailed);
        }
        // The slot's entry must lead nowhere: overwriting a live page-table
        // entry would silently remap a whole window.
        let target = crate::vspace::read_pt_entry(vspace, probe.table_base, probe.slot_index);
        if target.is_pte_pagetable() {
            match crate::vspace::find_table(&vspace.tables, target.pa()) {
                Option::Some(_) => {
                    return Err(BootError::FrameMappingFailed);
                },
                Option::None => {},
            }
        }
        let ghost pre_v = *vspace;
        let cap = crate::vspace::create_mapped_it_frame_cap(
            pd_cap,
            self.boot_info,
            vptr,
            crate::config::IT_ASID,
            false,
            vspace,
        );
        proof {
            let e_new = crate::pte::PTE((self.boot_info.0 >> 12) << 10 | 0x1f);
            assert(!crate::pte::pte_is_pagetable_spec(e_new)) by {
                let y = self.boot_info.0;
                assert(((y >> 12) << 10 | 0x1f) & 2 == 2) by (bit_vector);
            }
            crate::vspace::lemma_leaf_write_preserves_lookups(pre_v, *vspace, probe, e_new);
        }
        root_cnode_cap.cnode_write_slot_at(cnode, crate::config::SEL4_CAP_BOOT_INFO_FRAME, cap);
        Ok(())
    }

    /// Creates and maps the IPC-buffer frame's capability into its
    /// well-known slot.
    pub fn create_ipcbuf_frame_cap(
        &self,
        root_cnode_cap: Capability,
        pd_cap: Capability,
        vptr: Vaddr,
        cnode: &mut CNode,
        vspace: &mut crate::vspace::VSpace,
    ) -> (r: Result<Capability, BootError>)
        requires
            cnode_wf(*old(cnode)),
            cap_points_to_cnode(root_cnode_cap, *old(cnode)),
            crate::vspace::vspace_wf(*old(vspace)),
            cap_tag_supported(pd_cap),
            get_info_spec(pd_cap) matches CapInfo::PageTableCap { pptr, .. } && pptr.0 == old(
                vspace,
            ).root.base.0,
            self.ipc_buf.0 % 4096 == 0,
            self.ipc_buf.0 < 0x8000000000,
            vptr.0 < 0x8000000000,
        ensures
            cnode_wf(*final (cnode)),
            final (cnode).base == old(cnode).base,
            crate::vspace::vspace_wf(*final (vspace)),
            final (vspace).root.base == old(vspace).root.base,
            r is Ok <==> crate::vspace::lookup_pt_slot_spec(*old(vspace), vptr.0).pt_bits_left
                == crate::config::SEL4_PAGE_BITS && crate::vspace::slot_entry_inert(
                *old(vspace),
                crate::vspace::lookup_pt_slot_spec(*old(vspace), vptr.0),
            ),
            r is Ok ==> forall|w: u64| #[trigger]
                crate::vspace::lookup_pt_slot_spec(*final (vspace), w)
                    == crate::vspace::lookup_pt_slot_spec(*old(vspace), w),
            r matches Ok(c) ==> {
                &&& cap_tag_supported(c)
                &&& get_info_spec(c) == (CapInfo::FrameCap {
                    vptr: vptr,
                    pptr: self.ipc_buf,
                    is_device: false,
                })
                &&& final (cnode).slots@[crate::config::SEL4_CAP_INIT_THREAD_IPC_BUFFER as int].cap
                    == c
                &&& forall|j: int|
                    0 <= j < ROOT_CNODE_SLOTS && j != crate::config::SEL4_CAP_INIT_THREAD_IPC_BUFFER
                        ==> final (cnode).slots@[j] == old(cnode).slots@[j]
            },
            r is Err ==> final (cnode).slots@ == old(cnode).slots@,
            r matches Err(e) ==> e == BootError::FrameMappingFailed,
    {
        let probe = crate::vspace::lookup_pt_slot(vspace, vptr);
        if probe.pt_bits_left != crate::config::SEL4_PAGE_BITS {
            return Err(BootError::FrameMappingFailed);
        }
        // The slot's entry must lead nowhere: overwriting a live page-table
        // entry would silently remap a whole window.
        let target = crate::vspace::read_pt_entry(vspace, probe.table_base, probe.slot_index);
        if target.is_pte_pagetable() {
            match crate::vspace::find_table(&vspace.tables, target.pa()) {
                Option::Some(_) => {
                    return Err(BootError::FrameMappingFailed);
                },
                Option::None => {},
            }
        }
        let ghost pre_v = *vspace;
        let cap = crate::vspace::create_mapped_it_frame_cap(
            pd_cap,
            self.ipc_buf,
            vptr,
            crate::config::IT_ASID,
            false,
            vspace,
        );
        proof {
            let e_new = crate::pte::PTE((self.ipc_buf.0 >> 12) << 10 | 0x1f);
            assert(!crate::pte::pte_is_pagetable_spec(e_new)) by {
                let y = self.ipc_buf.0;
                assert(((y >> 12) << 10 | 0x1f) & 2 == 2) by (bit_vector);
            }
            crate::vspace::lemma_leaf_write_preserves_lookups(pre_v, *vspace, probe, e_new);
        }
        root_cnode_cap.cnode_write_slot_at(
            cnode,
            crate::config::SEL4_CAP_INIT_THREAD_IPC_BUFFER,
            cap,
        );
        Ok(cap)
    }

    /// Creates one frame capability per page of a physical region, mapped
    /// into the initial thread's address space (or unmapped, for raw
    /// user-image pages), and provides each in the next free slot.  Mapping
    /// succeeds exactly when every page's walk lands on a page-sized slot
    /// whose entry leads nowhere; overwriting a live page-table entry would
    /// silently remap a whole window, so it is refused.
    pub fn create_frames_of_region(
        &self,
        root_cnode_cap: Capability,
        pd_cap: Capability,
        reg: Pregion,
        do_map: bool,
        pv_offset: u64,
        cnode: &mut CNode,
        bs: &mut BootState,
        vspace: &mut crate::vspace::VSpace,
    ) -> (r: Result<(), BootError>)
        requires
            cnode_wf(*old(cnode)),
            cap_points_to_cnode(root_cnode_cap, *old(cnode)),
            crate::vspace::vspace_wf(*old(vspace)),
            cap_tag_supported(pd_cap),
            get_info_spec(pd_cap) matches CapInfo::PageTableCap { pptr, .. } && pptr.0 == old(
                vspace,
            ).root.base.0,
            reg.start.0 <= reg.end.0,
            reg.end.0 < 0x8000000000,
            reg.start.0 % 4096 == 0,
            reg.start.0 >= pv_offset,
        ensures
            cnode_wf(*final (cnode)),
            final (cnode).base == old(cnode).base,
            crate::vspace::vspace_wf(*final (vspace)),
            final (vspace).root.base == old(vspace).root.base,
            final (bs).reserved == old(bs).reserved,
            final (bs).freemem == old(bs).freemem,
            final (bs).bi_frame == old(bs).bi_frame,
            old(bs).slot_pos_cur <= final (bs).slot_pos_cur,
            final (bs).slot_pos_cur <= ROOT_CNODE_SLOTS || final (bs).slot_pos_cur == old(
                bs,
            ).slot_pos_cur,
            cnode_populated(*old(cnode), old(bs).slot_pos_cur as int) ==> cnode_populated(
                *final (cnode),
                final (bs).slot_pos_cur as int,
            ),
            forall|j: int|
                0 <= j < SEL4_NUM_INITIAL_CAPS <= old(bs).slot_pos_cur ==> final (cnode).slots@[j]
                    == old(cnode).slots@[j],
            r matches Err(e) ==> e == BootError::FrameMappingFailed,
            r is Ok <==> (do_map ==> frames_mappable(*old(vspace), reg, pv_offset)),
            forall|vptr: u64| #[trigger]
                crate::vspace::lookup_pt_slot_spec(*final (vspace), vptr)
                    == crate::vspace::lookup_pt_slot_spec(*old(vspace), vptr),
    {
        let mut pa = reg.start;
        while pa.0 < reg.end.0
            invariant
                cnode_wf(*cnode),
                cnode.base == old(cnode).base,
                cap_points_to_cnode(root_cnode_cap, *cnode),
                crate::vspace::vspace_wf(*vspace),
                vspace.root.base == old(vspace).root.base,
                cap_tag_supported(pd_cap),
                get_info_spec(pd_cap) matches CapInfo::PageTableCap { pptr, .. } && pptr.0
                    == vspace.root.base.0,
                bs.reserved == old(bs).reserved,
                bs.freemem == old(bs).freemem,
                bs.bi_frame == old(bs).bi_frame,
                old(bs).slot_pos_cur <= bs.slot_pos_cur,
                bs.slot_pos_cur <= ROOT_CNODE_SLOTS || bs.slot_pos_cur == old(bs).slot_pos_cur,
                cnode_populated(*old(cnode), old(bs).slot_pos_cur as int) ==> cnode_populated(
                    *cnode,
                    bs.slot_pos_cur as int,
                ),
                forall|j: int|
                    0 <= j < SEL4_NUM_INITIAL_CAPS <= old(bs).slot_pos_cur ==> cnode.slots@[j]
                        == old(cnode).slots@[j],
                reg.end.0 < 0x8000000000,
                pa.0 % 4096 == 0,
                pa.0 >= pv_offset,
                pa.0 >= reg.start.0,
                pa.0 <= 0x8000000000,
                vspace.tables@.len() == old(vspace).tables@.len(),
                forall|t: int|
                    0 <= t < old(vspace).tables@.len() ==> (#[trigger] vspace.tables@[t]).base
                        == old(vspace).tables@[t].base,
                forall|vptr: u64| #[trigger]
                    crate::vspace::lookup_pt_slot_spec(*vspace, vptr)
                        == crate::vspace::lookup_pt_slot_spec(*old(vspace), vptr),
                forall|tb: u64, i: int|
                    crate::vspace::base_resolves(*old(vspace), tb) && 0 <= i < 512 ==> (
                    #[trigger] crate::vspace::entry_at(*vspace, tb, i)) == crate::vspace::entry_at(
                        *old(vspace),
                        tb,
                        i,
                    ) || (!crate::pte::pte_is_pagetable_spec(
                        crate::vspace::entry_at(*vspace, tb, i),
                    ) && !(crate::pte::pte_is_pagetable_spec(
                        crate::vspace::entry_at(*old(vspace), tb, i),
                    ) && crate::vspace::find_table_spec(
                        old(vspace).tables@,
                        crate::pte::pte_pa_spec(crate::vspace::entry_at(*old(vspace), tb, i)),
                    ) is Some)),
                do_map ==> forall|q: u64|
                    reg.start.0 <= q < pa.0 && q % 4096 == 0 ==> #[trigger] page_mappable(
                        *old(vspace),
                        q,
                        pv_offset,
                    ),
            decreases
                    if pa.0 <= reg.end.0 {
                        reg.end.0 - pa.0
                    } else {
                        0
                    },
        {
            let frame_cap = if do_map {
                let vptr = pa.to_va(pv_offset);
                let probe = crate::vspace::lookup_pt_slot(vspace, vptr);
                if probe.pt_bits_left != crate::config::SEL4_PAGE_BITS {
                    proof {
                        assert(!page_mappable(*old(vspace), pa.0, pv_offset));
                    }
                    return Err(BootError::FrameMappingFailed);
                }
                // The walk must land on a slot whose entry leads nowhere:
                // overwriting a live page-table entry would silently remap a
                // whole window.
                let target = crate::vspace::read_pt_entry(vspace, probe.table_base, probe.slot_index);
                let mut descends = false;
                if target.is_pte_pagetable() {
                    match crate::vspace::find_table(&vspace.tables, target.pa()) {
                        Option::Some(_) => {
                            descends = true;
                        },
                        Option::None => {},
                    }
                }
                if descends {
                    proof {
                        // A descending entry predates this loop's leaf
                        // writes, so the page was never mappable.
                        crate::vspace::lemma_find_table_same_bases(
                            old(vspace).tables@,
                            vspace.tables@,
                        );
                        assert(crate::vspace::entry_at(*vspace, probe.table_base.0, probe.slot_index as int)
                            == crate::vspace::entry_at(*old(vspace), probe.table_base.0, probe.slot_index as int));
                        assert(!crate::vspace::slot_entry_inert(*old(vspace), probe));
                        assert(!page_mappable(*old(vspace), pa.0, pv_offset));
                    }
                    return Err(BootError::FrameMappingFailed);
                }
                proof {
                    // The slot is inert now, hence also before any of this
                    // loop's writes, so the page is mappable.
                    crate::vspace::lemma_find_table_same_bases(
                        old(vspace).tables@,
                        vspace.tables@,
                    );
                    assert(crate::vspace::slot_entry_inert(*vspace, probe));
                    assert(crate::vspace::slot_entry_inert(*old(vspace), probe));
                    assert(page_mappable(*old(vspace), pa.0, pv_offset));
                }
                let ghost pre_v = *vspace;
                let cap = crate::vspace::create_mapped_it_frame_cap(
                    pd_cap,
                    pa,
                    vptr,
                    crate::config::IT_ASID,
                    true,
                    vspace,
                );
                proof {
                    let e_new = crate::pte::PTE((pa.0 >> 12) << 10 | 0x1f);
                    assert(!crate::pte::pte_is_pagetable_spec(e_new)) by {
                        let y = pa.0;
                        assert(((y >> 12) << 10 | 0x1f) & 2 == 2) by (bit_vector);
                    }
                    crate::vspace::lemma_leaf_write_preserves_lookups(pre_v, *vspace, probe, e_new);
                    crate::vspace::lemma_pt_entry_written_entry_at(pre_v, *vspace, probe, e_new);
                    assert forall|tb: u64, i: int|
                        crate::vspace::base_resolves(*old(vspace), tb) && 0 <= i < 512 implies (
                    #[trigger] crate::vspace::entry_at(*vspace, tb, i)) == crate::vspace::entry_at(
                        *old(vspace),
                        tb,
                        i,
                    ) || (!crate::pte::pte_is_pagetable_spec(
                        crate::vspace::entry_at(*vspace, tb, i),
                    ) && !(crate::pte::pte_is_pagetable_spec(
                        crate::vspace::entry_at(*old(vspace), tb, i),
                    ) && crate::vspace::find_table_spec(
                        old(vspace).tables@,
                        crate::pte::pte_pa_spec(crate::vspace::entry_at(*old(vspace), tb, i)),
                    ) is Some)) by {
                        crate::vspace::lemma_find_table_same_bases(
                            old(vspace).tables@,
                            pre_v.tables@,
                        );
                        assert(crate::vspace::base_resolves(pre_v, tb));
                        if tb == probe.table_base.0 && i == probe.slot_index {
                            assert(crate::vspace::entry_at(*vspace, tb, i) == e_new);
                        } else {
                            assert(crate::vspace::entry_at(*vspace, tb, i)
                                == crate::vspace::entry_at(pre_v, tb, i));
                        }
                    }
                }
                cap
            } else {
                crate::vspace::create_unmapped_it_frame_cap(pa)
            };
            provide_cap(root_cnode_cap, frame_cap, cnode, bs);
            pa = Paddr(pa.0 + crate::config::PAGE_SIZE);
        }
        Ok(())
    }

    /// Writes the initial thread's ASID-pool capability and the global
    /// ASID-control capability into their well-known slots.
    pub fn create_it_asid_pool(&self, root_cnode_cap: Capability, cnode: &mut CNode) -> (r:
        Capability)
        requires
            cnode_wf(*old(cnode)),
            cap_points_to_cnode(root_cnode_cap, *old(cnode)),
            self.asid_pool.0 < 0x8000000000,
        ensures
            cnode_wf(*final (cnode)),
            final (cnode).base == old(cnode).base,
            cap_tag_supported(r),
            get_info_spec(r) == CapInfo::AsidPoolCap,
            final (cnode).slots@[SEL4_CAP_INIT_THREAD_ASID_POOL as int].cap == r,
            get_info_spec(final (cnode).slots@[SEL4_CAP_ASID_CONTROL as int].cap)
                == CapInfo::AsidControlCap,
            forall|j: int|
                0 <= j < ROOT_CNODE_SLOTS && j != SEL4_CAP_INIT_THREAD_ASID_POOL && j
                    != SEL4_CAP_ASID_CONTROL ==> final (cnode).slots@[j] == old(cnode).slots@[j],
    {
        proof {
            assert(1u64 >> 9 < 0x10000) by (bit_vector);
        }
        let ap_cap = Capability::cap_asid_pool_cap_new(
            crate::config::IT_ASID >> crate::config::ASID_LOW_BITS,
            self.asid_pool.0,
        );
        root_cnode_cap.cnode_write_slot_at(cnode, SEL4_CAP_INIT_THREAD_ASID_POOL, ap_cap);
        root_cnode_cap.cnode_write_slot_at(
            cnode,
            SEL4_CAP_ASID_CONTROL,
            Capability::cap_asid_control_cap_new(),
        );
        ap_cap
    }

    /// Builds the initial thread: a fresh TCB at its allocated block, the
    /// saved context pointing at the user entry with the boot-info address
    /// in the first argument register, the highest priority, the running
    /// state, and the thread's own CNode, VSpace and IPC-buffer capability
    /// slots filled by slot insertion.
    pub fn create_initial_thread(
        &self,
        root_cnode_cap: Capability,
        it_pd_cap: Capability,
        ui_v_entry: Vaddr,
        bi_frame_vptr: Vaddr,
        ipcbuf_vptr: Vaddr,
        ipcbuf_cap: Capability,
        cnode: &mut CNode,
        sched: &SchedState,
        threads: &mut Vec<TCB>,
    ) -> (r: ThreadPointer)
        requires
            cnode_wf(*old(cnode)),
            cap_points_to_cnode(root_cnode_cap, *old(cnode)),
            self.tcb.0 % 1024 == 0,
            0 < self.tcb.0 < 0x8000000000 - 1024,
            sched.ks_cur_thread.0.0 == 0,
        ensures
            cnode_wf(*final (cnode)),
            final (cnode).base == old(cnode).base,
            final (threads)@.len() == old(threads)@.len() + 1,
            final (threads)@ == old(threads)@.push(final (threads)@.last()),
            ({
                let t = final (threads)@.last();
                &&& crate::thread::tcb_wf(t)
                &&& t.base == self.tcb
                &&& t.inner.tcb_state.ts_type == crate::thread::THREAD_STATE_RUNNING
                &&& t.inner.tcb_priority == crate::config::SEL4_MAX_PRIO
                &&& t.inner.tcb_ipc_buffer == ipcbuf_vptr
                &&& t.slots@[crate::config::TCB_CTABLE as int].cap == root_cnode_cap
                &&& t.slots@[crate::config::TCB_VTABLE as int].cap == it_pd_cap
                &&& t.slots@[crate::config::TCB_BUFFER as int].cap == ipcbuf_cap
                &&& t.inner.registers@[9] == bi_frame_vptr.0
                &&& t.inner.registers@[34] == ui_v_entry.0
            }),
            get_info_spec(final (cnode).slots@[crate::config::SEL4_CAP_INIT_THREAD_TCB as int].cap)
                == (CapInfo::ThreadCap { ptr: Paddr((self.tcb.0 + crate::config::TCB_OFFSET) as u64) }),
            forall|j: int|
                0 <= j < ROOT_CNODE_SLOTS && j != crate::config::SEL4_CAP_INIT_THREAD_TCB
                    ==> final (cnode).slots@[j] == old(cnode).slots@[j],
            r == ThreadPointer(Paddr((self.tcb.0 + crate::config::TCB_OFFSET) as u64)),
    {
        let mut tcb = TCB::new(self.tcb);
        tcb.inner.init_context();

        let dc_cap = crate::cnode::derive_cap(ipcbuf_cap);

        let src_ctable = root_cnode_cap.cnode_slot_at(
            cnode,
            crate::config::SEL4_CAP_INIT_THREAD_CNODE,
        );
        let mut dest = tcb.tcb_cte_slot(crate::config::TCB_CTABLE);
        crate::cnode::cte_insert(root_cnode_cap, &src_ctable, &mut dest);
        tcb.set_cte_slot(crate::config::TCB_CTABLE, dest);

        let src_vtable = root_cnode_cap.cnode_slot_at(
            cnode,
            crate::config::SEL4_CAP_INIT_THREAD_VSPACE,
        );
        let mut dest = tcb.tcb_cte_slot(crate::config::TCB_VTABLE);
        crate::cnode::cte_insert(it_pd_cap, &src_vtable, &mut dest);
        tcb.set_cte_slot(crate::config::TCB_VTABLE, dest);

        let src_buffer = root_cnode_cap.cnode_slot_at(
            cnode,
            crate::config::SEL4_CAP_INIT_THREAD_IPC_BUFFER,
        );
        let mut dest = tcb.tcb_cte_slot(crate::config::TCB_BUFFER);
        crate::cnode::cte_insert(dc_cap, &src_buffer, &mut dest);
        tcb.set_cte_slot(crate::config::TCB_BUFFER, dest);

        let a0 = crate::registers::Rv64Reg::A0.index();
        tcb.inner.registers.set(a0, bi_frame_vptr.0);
        let next_ip = crate::registers::Rv64Reg::NextIp.index();
        tcb.inner.registers.set(next_ip, ui_v_entry.0);
        tcb.inner.tcb_priority = crate::config::SEL4_MAX_PRIO;
        tcb.inner.tcb_ipc_buffer = ipcbuf_vptr;
        tcb.inner.set_thread_state(crate::thread::THREAD_STATE_RUNNING, sched, threads);

        // The initial thread's TCB capability names the inner record.
        let cap = Capability::cap_thread_cap_new(self.tcb.0 + crate::config::TCB_OFFSET);
        root_cnode_cap.cnode_write_slot_at(cnode, crate::config::SEL4_CAP_INIT_THREAD_TCB, cap);

        let pointer = tcb.inner.pointer();
        threads.push(tcb);
        pointer
    }
}


/// The physical base of the kernel's own root page table, inside the kernel
/// image.
pub const KERNEL_PT_BASE: u64 = 0x84104000;

/// Installs the kernel window mapping in the kernel's root page table.
pub fn map_kernel_window(kernel_pt: &mut crate::pte::PageTable)
    requires
        crate::pte::page_table_wf(*old(kernel_pt)),
    ensures
        crate::pte::page_table_wf(*final (kernel_pt)),
        final (kernel_pt).base == old(kernel_pt).base,
        final (kernel_pt).root@ == old(kernel_pt).root@.update(2, crate::pte::PTE(0x200000ef)),
{
    kernel_pt.map_kernel_window();
}

/// Activates the kernel's address space: computes the translation-register
/// value for the kernel's root table with the null address-space id.
pub fn activate_kernel_vspace(kernel_pt: &crate::pte::PageTable, satp: &mut u64)
    ensures
        *final (satp) == 8u64 << 60 | kernel_pt.base.0 >> 12,
{
    *satp = kernel_pt.satp();
}

/// The whole kernel state a successful boot produces.
#[derive(Debug)]
pub struct Kernel {
    pub cnode: CNode,
    pub boot: BootState,
    pub sched: SchedState,
    pub threads: Vec<TCB>,
    pub vspace: crate::vspace::VSpace,
    pub kernel_pt: crate::pte::PageTable,
    pub satp: u64,
    pub rootserver: crate::rootserver::RootServer,
    pub root_cnode_cap: Capability,
}

/// The standing invariant of a booted kernel: the root CNode is intact, the
/// slot cursor is within bounds, every allocated slot holds a non-null
/// capability, the boot info exists, and every thread block is well formed.
pub open spec fn kernel_wf(k: Kernel) -> bool {
    &&& cnode_wf(k.cnode)
    &&& cap_points_to_cnode(k.root_cnode_cap, k.cnode)
    &&& SEL4_NUM_INITIAL_CAPS <= k.boot.slot_pos_cur <= ROOT_CNODE_SLOTS
    &&& cnode_populated(k.cnode, k.boot.slot_pos_cur as int)
    &&& k.boot.bi_frame is Some
    &&& crate::vspace::vspace_wf(k.vspace)
    &&& forall|i: int|
        0 <= i < k.threads@.len() ==> crate::thread::tcb_wf(#[trigger] k.threads@[i])
}

/// Partitions physical memory for this platform: the kernel image and the
/// user image are reserved inside the fixed available window; what remains
/// becomes the free-region list and the rootserver placement.
pub fn riscv_init_freemem(
    ui_reg: Pregion,
    it_v_reg: Vregion,
    kernel_end: Paddr,
    bs: &mut BootState,
) -> (r: Result<crate::rootserver::RootServer, BootError>)
    requires
        crate::config::KERNEL_ELF_BASE <= kernel_end.0 <= crate::config::AVAIL_REGION_END,
        (kernel_end.0 <= ui_reg.start.0 && ui_reg.start.0 <= ui_reg.end.0) ==> ui_reg.end.0
            <= crate::config::AVAIL_REGION_END,
        it_v_reg.start.0 <= it_v_reg.end.0,
        it_v_reg.end.0 < 0x4000000000,
    ensures
        final (bs).slot_pos_cur == old(bs).slot_pos_cur,
        final (bs).bi_frame == old(bs).bi_frame,
        ({
            let kreg = Pregion {
                start: Paddr(crate::config::KERNEL_ELF_BASE),
                end: kernel_end,
            };
            let avail = Pregion {
                start: Paddr(crate::config::AVAIL_REGION_START),
                end: Paddr(crate::config::AVAIL_REGION_END),
            };
            match r {
                Result::Ok(rs) => {
                    &&& crate::freemem::init_freemem_post(
                        seq![kreg, ui_reg],
                        avail,
                        it_v_reg,
                        Some((rs, final (bs).freemem@)),
                    )
                    &&& final (bs).reserved@ == seq![avail]
                },
                Result::Err(e) => e == BootError::NoRootServerFit
                    && crate::freemem::init_freemem_post(
                    seq![kreg, ui_reg],
                    avail,
                    it_v_reg,
                    None,
                ),
            }
        }),
{
    let mut res_reg: Vec<Pregion> = Vec::new();
    let kernel_reg = Pregion::new(Paddr(crate::config::KERNEL_ELF_BASE), kernel_end);
    res_reg.push(kernel_reg);
    res_reg.push(ui_reg);
    let avail_reg = Pregion::new(
        Paddr(crate::config::AVAIL_REGION_START),
        Paddr(crate::config::AVAIL_REGION_END),
    );
    proof {
        assert(res_reg@ =~= seq![kernel_reg, ui_reg]);
    }
    match crate::freemem::init_freemem(&res_reg, avail_reg, it_v_reg, 0) {
        Option::Some(rf) => {
            let (rootserver, freemem) = rf;
            bs.freemem = freemem;
            let mut reserved: Vec<Pregion> = Vec::new();
            reserved.push(avail_reg);
            bs.reserved = reserved;
            proof {
                assert(bs.reserved@ =~= seq![avail_reg]);
            }
            Ok(rootserver)
        },
        Option::None => {
            // Boot-fatal: no free region can hold the rootserver objects.
            Err(BootError::NoRootServerFit)
        },
    }
}


/// What a successful boot guarantees about the kernel state it returns: the
/// standing invariant, every well-known slot filled with the right kind of
/// capability, the boot info finalized, and the scheduler poised to switch
/// from the idle thread to the running initial thread.
pub open spec fn try_init_post(k: Kernel) -> bool {
    let init_tp = ThreadPointer(Paddr((k.rootserver.tcb.0 + crate::config::TCB_OFFSET) as u64));
    &&& kernel_wf(k)
    &&& k.threads@.len() == 2
    &&& k.threads@[0].base.0 == crate::thread::IDLE_TCB_BASE
    &&& k.threads@[0].inner.tcb_state.ts_type == crate::thread::THREAD_STATE_INACTIVE
    &&& k.threads@[0].inner.tcb_priority == crate::config::SEL4_MIN_PRIO
    &&& k.threads@[1].base == k.rootserver.tcb
    &&& k.threads@[1].inner.tcb_state.ts_type == crate::thread::THREAD_STATE_RUNNING
    &&& k.threads@[1].inner.tcb_priority == crate::config::SEL4_MAX_PRIO
    &&& cap_tag_supported(k.threads@[1].slots@[crate::config::TCB_VTABLE as int].cap)
    &&& (get_info_spec(k.threads@[1].slots@[crate::config::TCB_VTABLE as int].cap)
        matches CapInfo::PageTableCap { asid, .. } && asid == crate::config::IT_ASID)
    &&& !crate::thread::tcb_contains(k.threads@[0], init_tp)
    &&& k.sched.ks_idle_thread == ThreadPointer(Paddr(crate::thread::IDLE_TCB_BASE))
    &&& k.sched.ks_cur_thread == k.sched.ks_idle_thread
    &&& k.sched.ks_scheduler_action == crate::thread::SchedulerAction::SwitchToThread(init_tp)
    &&& (get_info_spec(k.cnode.slots@[crate::config::SEL4_CAP_INIT_THREAD_TCB as int].cap)
        matches CapInfo::ThreadCap { .. })
    &&& k.cnode.slots@[crate::config::SEL4_CAP_INIT_THREAD_CNODE as int].cap == k.root_cnode_cap
    &&& (get_info_spec(k.cnode.slots@[crate::config::SEL4_CAP_INIT_THREAD_VSPACE as int].cap)
        matches CapInfo::PageTableCap { .. })
    &&& get_info_spec(k.cnode.slots@[SEL4_CAP_IRQ_CONTROL as int].cap) == CapInfo::IrqControlCap
    &&& get_info_spec(k.cnode.slots@[SEL4_CAP_ASID_CONTROL as int].cap) == CapInfo::AsidControlCap
    &&& get_info_spec(k.cnode.slots@[SEL4_CAP_INIT_THREAD_ASID_POOL as int].cap)
        == CapInfo::AsidPoolCap
    &&& (get_info_spec(k.cnode.slots@[crate::config::SEL4_CAP_BOOT_INFO_FRAME as int].cap)
        matches CapInfo::FrameCap { .. })
    &&& (get_info_spec(
        k.cnode.slots@[crate::config::SEL4_CAP_INIT_THREAD_IPC_BUFFER as int].cap,
    ) matches CapInfo::FrameCap { .. })
    &&& get_info_spec(k.cnode.slots@[SEL4_CAP_DOMAIN as int].cap) == CapInfo::DomainCap
    &&& crate::cap::slot_is_empty(k.cnode.slots@[crate::config::SEL4_CAP_NULL as int])
    &&& crate::cap::slot_is_empty(k.cnode.slots@[crate::config::SEL4_CAP_IO_PORT_CONTROL as int])
    &&& crate::cap::slot_is_empty(k.cnode.slots@[crate::config::SEL4_CAP_IO_SPACE as int])
    &&& crate::cap::slot_is_empty(
        k.cnode.slots@[crate::config::SEL4_CAP_SMMU_SID_CONTROL as int],
    )
    &&& crate::cap::slot_is_empty(k.cnode.slots@[crate::config::SEL4_CAP_SMMU_CB_CONTROL as int])
    &&& k.boot.bi_frame->Some_0.empty == (SlotRegion {
        start: k.boot.slot_pos_cur,
        end: ROOT_CNODE_SLOTS,
    })
    &&& k.boot.bi_frame->Some_0.untyped.end == k.boot.slot_pos_cur
    &&& k.boot.bi_frame->Some_0.it_cnode_size_bits == CONFIG_ROOT_CNODE_SIZE_BITS
    &&& forall|i: int|
        0 <= i < k.boot.bi_frame->Some_0.untyped_list@.len() ==> desc_well_formed(
            #[trigger] k.boot.bi_frame->Some_0.untyped_list@[i],
        )
}

/// The linear boot pipeline, driven by the boot loader's hand-off words
/// plus the kernel image's own end addresses (link-time symbols on the real
/// machine): computes the initial thread's virtual region,
/// partitions physical memory, places and creates the rootserver objects,
/// builds the root CNode's well-known capabilities, the initial address
/// space, the boot-info and IPC-buffer frames, the user-image frames, the
/// idle and initial threads, carves the remaining memory into untyped
/// capabilities, and finalizes the boot info.
#[verifier::rlimit(100)]
#[allow(unused_variables)]
pub fn try_init_kernel(
    ui_p_reg_start: Paddr,
    ui_p_reg_end: Paddr,
    pv_offset: u64,
    v_entry: Vaddr,
    dtb_addr_p: Paddr,
    dtb_size: u64,
    kernel_end: Paddr,
    boot_end: Paddr,
) -> (r: Result<Kernel, BootError>)
    requires
        ui_p_reg_start.0 <= ui_p_reg_end.0,
        ui_p_reg_start.0 >= pv_offset,
        ui_p_reg_start.0 % 4096 == 0,
        ui_p_reg_end.0 < 0x8000000000,
        crate::thread::IDLE_TCB_BASE + 1024 <= kernel_end.0 <= crate::config::AVAIL_REGION_END,
        (kernel_end.0 <= ui_p_reg_start.0) ==> ui_p_reg_end.0 <= crate::config::AVAIL_REGION_END,
        crate::config::KERNEL_ELF_BASE <= boot_end.0 <= 0x8000000000,
    ensures
        ui_p_reg_end.0 - pv_offset + 8192 >= crate::config::USER_TOP <==> r == Result::<
            Kernel,
            BootError,
        >::Err(BootError::UserImageOutOfRange),
        ui_p_reg_end.0 - pv_offset + 8192 < crate::config::USER_TOP ==> (r == Result::<
            Kernel,
            BootError,
        >::Err(BootError::NoRootServerFit) <==> crate::freemem::init_freemem_post(
            seq![
                Pregion { start: Paddr(crate::config::KERNEL_ELF_BASE), end: kernel_end },
                Pregion { start: ui_p_reg_start, end: ui_p_reg_end },
            ],
            Pregion {
                start: Paddr(crate::config::AVAIL_REGION_START),
                end: Paddr(crate::config::AVAIL_REGION_END),
            },
            Vregion {
                start: Vaddr((ui_p_reg_start.0 - pv_offset) as u64),
                end: Vaddr((ui_p_reg_end.0 - pv_offset + 8192) as u64),
            },
            None,
        )),
        r matches Err(e) ==> e != BootError::PagingExhausted,
        r matches Ok(k) ==> try_init_post(k),
{
    let boot_mem_reuse_reg = Pregion::new(Paddr(crate::config::KERNEL_ELF_BASE), boot_end);
    let ui_reg = Pregion::new(ui_p_reg_start, ui_p_reg_end);
    let ui_v_start = ui_p_reg_start.to_va(pv_offset);
    let ui_v_end = ui_p_reg_end.to_va(pv_offset);

    let ipcbuf_vptr = ui_v_end;
    let bi_frame_vptr = Vaddr(ipcbuf_vptr.0 + crate::config::PAGE_SIZE);
    let extra_bi_frame_vptr = Vaddr(bi_frame_vptr.0 + 4096);

    let mut kernel_pt = crate::pte::PageTable::new(Paddr(KERNEL_PT_BASE));
    map_kernel_window(&mut kernel_pt);
    let mut satp: u64 = 0;
    activate_kernel_vspace(&kernel_pt, &mut satp);

    let it_v_reg = Vregion::new(ui_v_start, extra_bi_frame_vptr);
    if it_v_reg.end.0 >= crate::config::USER_TOP {
        // Boot-fatal: the user image's virtual region reaches above the
        // user address space.
        return Err(BootError::UserImageOutOfRange);
    }

    let mut bs = BootState::new();
    let rootserver = match riscv_init_freemem(ui_reg, it_v_reg, kernel_end, &mut bs) {
        Result::Ok(rs) => rs,
        Result::Err(e) => {
            return Err(e);
        },
    };

    let ghost kreg = Pregion { start: Paddr(crate::config::KERNEL_ELF_BASE), end: kernel_end };
    let ghost avail = Pregion {
        start: Paddr(crate::config::AVAIL_REGION_START),
        end: Paddr(crate::config::AVAIL_REGION_END),
    };
    let ghost reserved = seq![kreg, ui_reg];
    let ghost cands = crate::freemem::candidates_spec(reserved, avail);
    let ghost size = crate::rootserver::rootserver_size_spec(it_v_reg);
    let ghost n_paging = crate::rootserver::riscv_n_paging_spec(it_v_reg);
    let ghost fit = crate::freemem::choose_fit(cands, size, 18);
    let ghost ci = fit->Some_0;
    let ghost s0 = crate::bits::align_down(cands[ci].end.0 - size, 18);

    proof {
        lemma2_to64();
        // The partition succeeded, so the reserved regions are sorted and
        // a candidate was chosen.
        assert(crate::freemem::regions_sorted(reserved));
        assert(fit is Some);
        crate::freemem::lemma_placement_in_free_region(reserved, avail, it_v_reg);
        assert(crate::freemem::regions_within(reserved, avail.start.0 as int, avail.end.0 as int));
        crate::freemem::lemma_free_partition_exact(reserved, avail);
        // The number of paging structures is not negative.
        assert(n_paging >= 0) by {
            let up30 = crate::bits::align_up(it_v_reg.end.0 as int, 30);
            let down30 = crate::bits::align_down(it_v_reg.start.0 as int, 30);
            let up21 = crate::bits::align_up(it_v_reg.end.0 as int, 21);
            let down21 = crate::bits::align_down(it_v_reg.start.0 as int, 21);
            lemma_pow2_pos(30);
            lemma_pow2_pos(21);
            vstd::arithmetic::div_mod::lemma_mod_bound(it_v_reg.start.0 as int, pow2(30) as int);
            vstd::arithmetic::div_mod::lemma_mod_bound(it_v_reg.end.0 as int, pow2(30) as int);
            vstd::arithmetic::div_mod::lemma_mod_bound(it_v_reg.start.0 as int, pow2(21) as int);
            vstd::arithmetic::div_mod::lemma_mod_bound(it_v_reg.end.0 as int, pow2(21) as int);
            vstd::arithmetic::div_mod::lemma_div_is_ordered(0, up30 - down30, pow2(30) as int);
            vstd::arithmetic::div_mod::lemma_div_is_ordered(0, up21 - down21, pow2(21) as int);
            vstd::arithmetic::div_mod::lemma_div_of0(pow2(30) as int);
            vstd::arithmetic::div_mod::lemma_div_of0(pow2(21) as int);
        }
        crate::rootserver::lemma_rootserver_fields(rootserver, s0, n_paging);
        // The placed block lies inside one candidate free region, and every
        // candidate byte is outside every reserved region; the idle thread's
        // block lies inside the reserved kernel image, so the two TCB blocks
        // are disjoint.
        assert(cands[ci].start.0 <= s0 && s0 + size <= cands[ci].end.0);
        assert(rootserver.tcb.0 + 1024 <= s0 + size);
        let init_tp_addr = rootserver.tcb.0 + crate::config::TCB_OFFSET;
        assert(crate::freemem::in_region(cands[ci], init_tp_addr as int));
        assert(crate::freemem::in_regions(cands, init_tp_addr as int));
        if crate::freemem::in_region(kreg, init_tp_addr as int) {
            assert(crate::freemem::in_regions(reserved, init_tp_addr as int));
            assert(false);
        }
        // Inside the available window, so every allocated address fits the
        // capability formats.
        assert(s0 + size <= 0x90000000);
        // The paging window is sized for exactly the table walk it feeds.
        assert(rootserver.paging.end.0 - rootserver.paging.start.0 == n_paging * 4096);
    }

    let (root_cnode_cap, mut cnode) = rootserver.create_root_cnode();
    create_domain_cap(root_cnode_cap, &mut cnode);
    init_irqs(root_cnode_cap, &mut cnode);

    rootserver.populate_bi_frame(0, 1, ipcbuf_vptr, 0, &mut bs);

    let mut rootserver = rootserver;
    let (root_pt_cap, mut vspace) = match rootserver.create_it_address_space(
        root_cnode_cap,
        it_v_reg,
        &mut cnode,
        &mut bs,
    ) {
        Result::Ok(p) => p,
        Result::Err(e) => {
            proof {
                // The window fits the whole walk, so this step cannot fail.
                assert(false);
            }
            return Err(e);
        },
    };

    match rootserver.create_bi_frame_cap(
        root_cnode_cap,
        root_pt_cap,
        bi_frame_vptr,
        &mut cnode,
        &mut vspace,
    ) {
        Result::Ok(u) => u,
        Result::Err(e) => {
            return Err(e);
        },
    }
    let ipcbuf_cap = match rootserver.create_ipcbuf_frame_cap(
        root_cnode_cap,
        root_pt_cap,
        ipcbuf_vptr,
        &mut cnode,
        &mut vspace,
    ) {
        Result::Ok(c) => c,
        Result::Err(e) => {
            return Err(e);
        },
    };
    match rootserver.create_frames_of_region(
        root_cnode_cap,
        root_pt_cap,
        ui_reg,
        true,
        pv_offset,
        &mut cnode,
        &mut bs,
        &mut vspace,
    ) {
        Result::Ok(u) => u,
        Result::Err(e) => {
            return Err(e);
        },
    }
    let it_ap_cap = rootserver.create_it_asid_pool(root_cnode_cap, &mut cnode);

    let mut sched = SchedState::new();
    let mut threads: Vec<TCB> = Vec::new();
    create_idle_thread(&mut threads, &mut sched);
    let initial = rootserver.create_initial_thread(
        root_cnode_cap,
        root_pt_cap,
        v_entry,
        bi_frame_vptr,
        ipcbuf_vptr,
        ipcbuf_cap,
        &mut cnode,
        &sched,
        &mut threads,
    );
    crate::thread::init_core_state(initial, &mut sched);

    if !rootserver.create_untypeds(root_cnode_cap, boot_mem_reuse_reg, &mut cnode, &mut bs) {
        // Boot-fatal: the root CNode ran out of slots while carving.
        return Err(BootError::UntypedCreationFailed);
    }

    bi_finalise(&mut bs);

    let k = Kernel {
        cnode,
        boot: bs,
        sched,
        threads,
        vspace,
        kernel_pt,
        satp,
        rootserver,
        root_cnode_cap,
    };
    Ok(k)
}

/// The kernel entry: runs the boot pipeline, then lets the scheduler switch
/// to the initial thread and checks that it can return to user mode.
pub fn init_kernel(
    ui_p_reg_start: Paddr,
    ui_p_reg_end: Paddr,
    pv_offset: u64,
    v_entry: Vaddr,
    dtb_addr_p: Paddr,
    dtb_size: u64,
    kernel_end: Paddr,
    boot_end: Paddr,
) -> (r: Result<Kernel, BootError>)
    requires
        ui_p_reg_start.0 <= ui_p_reg_end.0,
        ui_p_reg_start.0 >= pv_offset,
        ui_p_reg_start.0 % 4096 == 0,
        ui_p_reg_end.0 < 0x8000000000,
        crate::thread::IDLE_TCB_BASE + 1024 <= kernel_end.0 <= crate::config::AVAIL_REGION_END,
        (kernel_end.0 <= ui_p_reg_start.0) ==> ui_p_reg_end.0 <= crate::config::AVAIL_REGION_END,
        crate::config::KERNEL_ELF_BASE <= boot_end.0 <= 0x8000000000,
    ensures
        ui_p_reg_end.0 - pv_offset + 8192 >= crate::config::USER_TOP <==> r == Result::<
            Kernel,
            BootError,
        >::Err(BootError::UserImageOutOfRange),
        ui_p_reg_end.0 - pv_offset + 8192 < crate::config::USER_TOP ==> (r == Result::<
            Kernel,
            BootError,
        >::Err(BootError::NoRootServerFit) <==> crate::freemem::init_freemem_post(
            seq![
                Pregion { start: Paddr(crate::config::KERNEL_ELF_BASE), end: kernel_end },
                Pregion { start: ui_p_reg_start, end: ui_p_reg_end },
            ],
            Pregion {
                start: Paddr(crate::config::AVAIL_REGION_START),
                end: Paddr(crate::config::AVAIL_REGION_END),
            },
            Vregion {
                start: Vaddr((ui_p_reg_start.0 - pv_offset) as u64),
                end: Vaddr((ui_p_reg_end.0 - pv_offset + 8192) as u64),
            },
            None,
        )),
        r matches Ok(k) ==> {
            &&& kernel_wf(k)
            &&& k.sched.ks_scheduler_action
                == crate::thread::SchedulerAction::ResumeCurrentThread
            &&& k.sched.ks_cur_thread == ThreadPointer(
                Paddr((k.rootserver.tcb.0 + crate::config::TCB_OFFSET) as u64),
            )
            &&& k.threads@[1].inner.tcb_state.ts_type == crate::thread::THREAD_STATE_RUNNING
            &&& (get_info_spec(k.threads@[1].slots@[crate::config::TCB_VTABLE as int].cap)
                matches CapInfo::PageTableCap { pptr, asid, .. } && k.satp == asid << 44 | (8u64
                << 60 | pptr.0 >> 12))
            &&& k.boot.bi_frame is Some
            &&& k.boot.bi_frame->Some_0.empty == (SlotRegion {
                start: k.boot.slot_pos_cur,
                end: ROOT_CNODE_SLOTS,
            })
            &&& k.boot.bi_frame->Some_0.untyped.end == k.boot.slot_pos_cur
        },
{
    let mut k = match try_init_kernel(
        ui_p_reg_start,
        ui_p_reg_end,
        pv_offset,
        v_entry,
        dtb_addr_p,
        dtb_size,
        kernel_end,
        boot_end,
    ) {
        Result::Ok(k) => k,
        Result::Err(e) => {
            return Err(e);
        },
    };
    let ghost init_tp = ThreadPointer(
        Paddr((k.rootserver.tcb.0 + crate::config::TCB_OFFSET) as u64),
    );
    proof {
        // The idle thread resolves to index zero, the initial thread to
        // index one (its handle lies outside the idle block).
        assert(crate::thread::tcb_contains(k.threads@[0], k.sched.ks_cur_thread));
        assert(crate::thread::resolves_to(k.threads@, k.sched.ks_cur_thread, 0));
        assert(crate::thread::tcb_contains(k.threads@[1], init_tp));
        assert(crate::thread::resolves_to(k.threads@, init_tp, 1));
        assert forall|j: int|
            crate::thread::resolves_to(k.threads@, k.sched.ks_cur_thread, j) implies j == 0 by {}
        assert forall|j: int|
            crate::thread::resolves_to(k.threads@, init_tp, j) implies j == 1 by {}
        assert(crate::thread::resolve_idx(k.threads@, k.sched.ks_cur_thread) == 0);
        assert(crate::thread::resolve_idx(k.threads@, init_tp) == 1);
        assert(!crate::thread::sched_fastfail(
            k.threads@,
            k.sched.ks_cur_thread,
            k.sched.ks_idle_thread,
            init_tp,
        ));
        assert(crate::thread::schedule_switch_pre(
            k.threads@,
            k.sched.ks_cur_thread,
            k.sched.ks_idle_thread,
            init_tp,
        ));
    }
    let mut satp = k.satp;
    match crate::thread::schedule(&mut k.sched, &k.threads, &mut satp) {
        Result::Ok(u) => u,
        Result::Err(e) => {
            proof {
                assert(false);
            }
            return Err(BootError::UntypedCreationFailed);
        },
    }
    k.satp = satp;
    proof {
        assert(crate::thread::resolves_to(k.threads@, k.sched.ks_cur_thread, 1));
        assert forall|j: int|
            crate::thread::resolves_to(k.threads@, k.sched.ks_cur_thread, j) implies j == 1 by {}
    }
    match crate::thread::activate_thread(&k.sched, &k.threads) {
        Result::Ok(u) => u,
        Result::Err(e) => {
            proof {
                assert(false);
            }
            return Err(BootError::UntypedCreationFailed);
        },
    }
    Ok(k)
}

} // verus!
