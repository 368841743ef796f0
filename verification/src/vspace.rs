//! The initial thread's address space: a three-level page-table arena and
//! the walk that finds the slot for a virtual address.
//!
//! Tables live in an explicit arena addressed by their physical base; a
//! page-table entry that points at a table is followed only if the table is
//! in the arena (the boot path only ever installs entries that point at
//! tables it created).  The walk descends while the entry found is a
//! page-table entry, narrowing the undecoded address window by nine bits per
//! level; the number of bits left on return is the size of the mapping that
//! can be installed in the returned slot.

use crate::addr::{Paddr, Vaddr};
use crate::cap::{cap_tag_supported, get_info_spec, CapInfo, Capability};
use crate::config::{ASID_INVALID, PAGE_SIZE, SEL4_PAGE_BITS};
use crate::pte::{pte_is_pagetable_spec, pte_pa_spec, PTE, PTE_R, PTE_U, PTE_V, PTE_W, PTE_X};
use vstd::prelude::*;

verus! {

/// One page table of the arena: 512 entries at a physical base.
#[derive(Debug)]
pub struct PtTable {
    pub base: Paddr,
    pub entries: Vec<PTE>,
}

/// The initial thread's address space: the root table and the arena of the
/// lower-level tables it points into.
#[derive(Debug)]
pub struct VSpace {
    pub root: PtTable,
    pub tables: Vec<PtTable>,
}

pub open spec fn pt_table_wf(t: PtTable) -> bool {
    &&& t.entries.len() == 512
    &&& t.base.0 % 4096 == 0
    &&& t.base.0 < 0x8000000000
}

/// Every table is well formed and table bases are distinct (and distinct
/// from the root), so a base identifies one table.
pub open spec fn vspace_wf(v: VSpace) -> bool {
    &&& pt_table_wf(v.root)
    &&& forall|i: int| 0 <= i < v.tables@.len() ==> pt_table_wf(#[trigger] v.tables@[i])
    &&& forall|i: int, j: int|
        0 <= i < j < v.tables@.len() ==> (#[trigger] v.tables@[i]).base.0 != (
        #[trigger] v.tables@[j]).base.0
    &&& forall|i: int| 0 <= i < v.tables@.len() ==> (#[trigger] v.tables@[i]).base.0 != v.root.base.0
}

/// The index into the first table whose base is `base`.
pub open spec fn find_table_spec(tables: Seq<PtTable>, base: u64) -> Option<int>
    decreases tables.len(),
{
    if tables.len() == 0 {
        None
    } else if tables[0].base.0 == base {
        Some(0int)
    } else {
        match find_table_spec(tables.skip(1), base) {
            Option::None => None,
            Option::Some(i) => Some(i + 1),
        }
    }
}

/// Skipping past a prefix without the base shifts the found index.
pub proof fn lemma_find_table_skip(tables: Seq<PtTable>, base: u64, i: int)
    requires
        0 <= i <= tables.len(),
        forall|j: int| 0 <= j < i ==> (#[trigger] tables[j]).base.0 != base,
    ensures
        find_table_spec(tables, base) == match find_table_spec(tables.skip(i), base) {
            Option::None => None::<int>,
            Option::Some(k) => Some(k + i),
        },
    decreases i,
{
    if i > 0 {
        lemma_find_table_skip(tables.skip(1), base, i - 1);
        assert(tables.skip(1).skip(i - 1) =~= tables.skip(i));
        assert forall|j: int| 0 <= j < i - 1 implies (#[trigger] tables.skip(1)[j]).base.0
            != base by {
            assert(tables.skip(1)[j] == tables[j + 1]);
        }
    } else {
        assert(tables.skip(0) =~= tables);
    }
}

/// What a found index means: it is in range, its table has the base, and it
/// is the first such index.
pub proof fn lemma_find_table_found(tables: Seq<PtTable>, base: u64)
    ensures
        match find_table_spec(tables, base) {
            Option::None => forall|j: int|
                0 <= j < tables.len() ==> (#[trigger] tables[j]).base.0 != base,
            Option::Some(k) => 0 <= k < tables.len() && tables[k].base.0 == base && forall|j: int|
                0 <= j < k ==> (#[trigger] tables[j]).base.0 != base,
        },
    decreases tables.len(),
{
    if tables.len() > 0 && tables[0].base.0 != base {
        lemma_find_table_found(tables.skip(1), base);
        match find_table_spec(tables.skip(1), base) {
            Option::None => {
                assert forall|j: int| 0 <= j < tables.len() implies (#[trigger] tables[j]).base.0
                    != base by {
                    if j > 0 {
                        assert(tables.skip(1)[j - 1] == tables[j]);
                    }
                }
            },
            Option::Some(k) => {
                assert(tables.skip(1)[k] == tables[k + 1]);
                assert forall|j: int| 0 <= j < k + 1 implies (#[trigger] tables[j]).base.0
                    != base by {
                    if j > 0 {
                        assert(tables.skip(1)[j - 1] == tables[j]);
                    }
                }
            },
        }
    }
}

/// Finds the table with the given base.
pub fn find_table(tables: &Vec<PtTable>, base: Paddr) -> (r: Option<usize>)
    ensures
        match r {
            Option::Some(i) => find_table_spec(tables@, base.0) == Some(i as int),
            Option::None => find_table_spec(tables@, base.0) is None,
        },
{
    let n = tables.len();
    let mut i: usize = 0;
    while i < n
        invariant
            i <= n,
            n == tables@.len(),
            forall|j: int| 0 <= j < i ==> (#[trigger] tables@[j]).base.0 != base.0,
        decreases n - i,
    {
        if tables[i].base.0 == base.0 {
            proof {
                lemma_find_table_skip(tables@, base.0, i as int);
                assert(tables@.skip(i as int)[0] == tables@[i as int]);
            }
            return Some(i);
        }
        i = i + 1;
    }
    proof {
        lemma_find_table_skip(tables@, base.0, n as int);
        assert(tables@.skip(n as int).len() == 0);
    }
    None
}

/// A fresh, zeroed page table at the given base.
pub fn new_pt_table(base: Paddr) -> (r: PtTable)
    requires
        base.0 % 4096 == 0,
        base.0 < 0x8000000000,
    ensures
        pt_table_wf(r),
        r.base == base,
        forall|i: int| 0 <= i < 512 ==> (#[trigger] r.entries@[i]).0 == 0,
{
    let mut entries: Vec<PTE> = Vec::new();
    let mut i: usize = 0;
    while i < 512
        invariant
            i <= 512,
            entries@.len() == i,
            forall|k: int| 0 <= k < i ==> (#[trigger] entries@[k]).0 == 0,
        decreases 512 - i,
    {
        entries.push(PTE(0));
        i = i + 1;
    }
    PtTable { base, entries }
}

/// Where a page-table walk stopped: the table it stopped in, the slot index,
/// and how many low address bits were still undecoded.
#[derive(Clone, Copy, Debug, PartialEq, Eq, Structural)]
pub struct LookupPTSlotRet {
    pub table_base: Paddr,
    pub slot_index: usize,
    pub pt_bits_left: u64,
}

/// The slot index a virtual address selects when `bits_left` low bits remain
/// undecoded.
pub open spec fn pt_index_spec(vptr: u64, bits_left: u64) -> u64 {
    (vptr >> bits_left) & 0x1ff
}

/// The walk from table `cur` at `level` with `bits_left` undecoded bits.
pub open spec fn lookup_rec(v: VSpace, cur: PtTable, level: nat, bits_left: u64, vptr: u64) -> (
    LookupPTSlotRet)
    decreases level,
{
    let idx = pt_index_spec(vptr, bits_left) as int;
    let e = cur.entries@[idx];
    if level > 0 && bits_left >= 9 && pte_is_pagetable_spec(e) && find_table_spec(
        v.tables@,
        pte_pa_spec(e),
    ) is Some {
        lookup_rec(
            v,
            v.tables@[find_table_spec(v.tables@, pte_pa_spec(e))->Some_0],
            (level - 1) as nat,
            (bits_left - 9) as u64,
            vptr,
        )
    } else {
        LookupPTSlotRet {
            table_base: cur.base,
            slot_index: pt_index_spec(vptr, bits_left) as usize,
            pt_bits_left: bits_left,
        }
    }
}

/// Where the walk from the root stops for `vptr`.
pub open spec fn lookup_pt_slot_spec(v: VSpace, vptr: u64) -> LookupPTSlotRet {
    lookup_rec(v, v.root, 2, 30, vptr)
}

/// Walks the tables from the root: at each level the next nine address bits
/// select a slot; while the slot holds a page-table entry pointing at a
/// table of the arena, the walk descends.  The number of bits left on return
/// is the mapping size the returned slot can hold.
pub fn lookup_pt_slot(vspace: &VSpace, vptr: Vaddr) -> (r: LookupPTSlotRet)
    requires
        vspace_wf(*vspace),
    ensures
        r == lookup_pt_slot_spec(*vspace, vptr.0),
        r.slot_index < 512,
        r.table_base.0 == vspace.root.base.0 || find_table_spec(vspace.tables@, r.table_base.0)
            is Some,
{
    let mut level: u64 = 2;
    let mut bits_left: u64 = 30;
    // The current table: the root until the walk descends.
    let mut cur: Option<usize> = None;
    loop
        invariant
            vspace_wf(*vspace),
            level <= 2,
            bits_left == SEL4_PAGE_BITS + 9 * level,
            match cur {
                Option::None => lookup_pt_slot_spec(*vspace, vptr.0) == lookup_rec(
                    *vspace,
                    vspace.root,
                    level as nat,
                    bits_left,
                    vptr.0,
                ),
                Option::Some(i) => i < vspace.tables@.len() && lookup_pt_slot_spec(*vspace, vptr.0)
                    == lookup_rec(
                    *vspace,
                    vspace.tables@[i as int],
                    level as nat,
                    bits_left,
                    vptr.0,
                ) && find_table_spec(vspace.tables@, vspace.tables@[i as int].base.0) == Some(
                    i as int,
                ),
            },
        decreases level,
    {
        let idx_u64 = (vptr.0 >> bits_left) & 0x1ff;
        proof {
            let w = vptr.0;
            let b = bits_left;
            assert((w >> b) & 0x1ff < 512) by (bit_vector);
        }
        let idx = idx_u64 as usize;
        let entry = match cur {
            Option::None => vspace.root.entries[idx],
            Option::Some(i) => vspace.tables[i].entries[idx],
        };
        if level > 0 && entry.is_pte_pagetable() {
            match find_table(&vspace.tables, entry.pa()) {
                Option::Some(j) => {
                    proof {
                        lemma_find_table_found(vspace.tables@, pte_pa_spec(entry));
                    }
                    cur = Some(j);
                    level = level - 1;
                    bits_left = bits_left - 9;
                },
                Option::None => {
                    let base = match cur {
                        Option::None => vspace.root.base,
                        Option::Some(i) => vspace.tables[i].base,
                    };
                    return LookupPTSlotRet { table_base: base, slot_index: idx, pt_bits_left: bits_left };
                },
            }
        } else {
            let base = match cur {
                Option::None => vspace.root.base,
                Option::Some(i) => vspace.tables[i].base,
            };
            return LookupPTSlotRet { table_base: base, slot_index: idx, pt_bits_left: bits_left };
        }
    }
}

/// Writes an entry into the table of the arena with the given base.  The
/// base must name the root or a table of the arena.
pub fn write_pt_entry(vspace: &mut VSpace, table_base: Paddr, idx: usize, e: PTE)
    requires
        vspace_wf(*old(vspace)),
        idx < 512,
        table_base.0 == old(vspace).root.base.0 || find_table_spec(
            old(vspace).tables@,
            table_base.0,
        ) is Some,
    ensures
        vspace_wf(*final (vspace)),
        final (vspace).root.base == old(vspace).root.base,
        final (vspace).tables@.len() == old(vspace).tables@.len(),
        table_base.0 == old(vspace).root.base.0 ==> final (vspace).root.entries@ == old(
            vspace,
        ).root.entries@.update(idx as int, e) && final (vspace).tables@ == old(vspace).tables@,
        table_base.0 != old(vspace).root.base.0 ==> final (vspace).root == old(vspace).root && {
            let j = find_table_spec(old(vspace).tables@, table_base.0)->Some_0;
            &&& final (vspace).tables@[j].base == old(vspace).tables@[j].base
            &&& final (vspace).tables@[j].entries@ == old(vspace).tables@[j].entries@.update(
                idx as int,
                e,
            )
            &&& forall|k: int|
                0 <= k < old(vspace).tables@.len() && k != j ==> final (vspace).tables@[k] == old(
                    vspace,
                ).tables@[k]
        },
{
    if vspace.root.base.0 == table_base.0 {
        vspace.root.entries.set(idx, e);
    } else {
        match find_table(&vspace.tables, table_base) {
            Option::Some(j) => {
                proof {
                    lemma_find_table_found(old(vspace).tables@, table_base.0);
                }
                let mut t = vspace.tables.remove(j);
                t.entries.set(idx, e);
                vspace.tables.insert(j, t);
                proof {
                    assert(vspace.tables@ =~= old(vspace).tables@.update(
                        j as int,
                        vspace.tables@[j as int],
                    ));
                }
            },
            Option::None => vstd::pervasive::unreached(),
        }
    }
}


/// The state change of installing entry `e` in the slot that the walk `lr`
/// found: that one entry is replaced, everything else is unchanged.
pub open spec fn pt_entry_written(oldv: VSpace, newv: VSpace, lr: LookupPTSlotRet, e: PTE) -> bool {
    &&& newv.root.base == oldv.root.base
    &&& newv.tables@.len() == oldv.tables@.len()
    &&& (lr.table_base.0 == oldv.root.base.0 ==> newv.root.entries@ == oldv.root.entries@.update(
        lr.slot_index as int,
        e,
    ) && newv.tables@ == oldv.tables@)
    &&& (lr.table_base.0 != oldv.root.base.0 ==> newv.root == oldv.root && {
        let j = find_table_spec(oldv.tables@, lr.table_base.0)->Some_0;
        &&& newv.tables@[j].base == oldv.tables@[j].base
        &&& newv.tables@[j].entries@ == oldv.tables@[j].entries@.update(lr.slot_index as int, e)
        &&& forall|k: int|
            0 <= k < oldv.tables@.len() && k != j ==> newv.tables@[k] == oldv.tables@[k]
    })
}

/// Installs a page-table capability's table in the initial address space:
/// walks to the slot its virtual address selects and writes an entry that
/// points at the new table.
pub fn map_it_pt_cap(vspace_cap: Capability, pt_cap: Capability, vspace: &mut VSpace)
    requires
        vspace_wf(*old(vspace)),
        cap_tag_supported(vspace_cap),
        get_info_spec(vspace_cap) matches CapInfo::PageTableCap { pptr, .. } && pptr.0 == old(
            vspace,
        ).root.base.0,
        cap_tag_supported(pt_cap),
        get_info_spec(pt_cap) matches CapInfo::PageTableCap { pptr, .. } && pptr.0 % 4096 == 0
            && pptr.0 < 0x8000000000,
    ensures
        vspace_wf(*final (vspace)),
        get_info_spec(pt_cap) matches CapInfo::PageTableCap { vptr, pptr, .. } ==> pt_entry_written(
            *old(vspace),
            *final (vspace),
            lookup_pt_slot_spec(*old(vspace), vptr.0),
            PTE((pptr.0 >> 12) << 10 | 0x11),
        ),
{
    let info = pt_cap.get_info();
    match info {
        CapInfo::PageTableCap { vptr, pptr, .. } => {
            let pt_ret = lookup_pt_slot(vspace, vptr);
            proof {
                assert(1u64 | 16 == 0x11) by (bit_vector);
            }
            let e = PTE::new(pptr, PTE_V | PTE_U);
            write_pt_entry(vspace, pt_ret.table_base, pt_ret.slot_index, e);
        },
        _ => vstd::pervasive::unreached(),
    }
}

/// Installs a frame capability's page in the initial address space.  The
/// walk must land on a page-sized slot: this kernel maps only 4 KiB leaves.
pub fn map_it_frame_cap(vspace_cap: Capability, frame_cap: Capability, vspace: &mut VSpace)
    requires
        vspace_wf(*old(vspace)),
        cap_tag_supported(vspace_cap),
        get_info_spec(vspace_cap) matches CapInfo::PageTableCap { pptr, .. } && pptr.0 == old(
            vspace,
        ).root.base.0,
        cap_tag_supported(frame_cap),
        get_info_spec(frame_cap) matches CapInfo::FrameCap { vptr, pptr, .. } && pptr.0 % 4096 == 0
            && pptr.0 < 0x8000000000 && lookup_pt_slot_spec(*old(vspace), vptr.0).pt_bits_left
            == SEL4_PAGE_BITS,
    ensures
        vspace_wf(*final (vspace)),
        get_info_spec(frame_cap) matches CapInfo::FrameCap { vptr, pptr, .. } ==> pt_entry_written(
            *old(vspace),
            *final (vspace),
            lookup_pt_slot_spec(*old(vspace), vptr.0),
            PTE((pptr.0 >> 12) << 10 | 0x1f),
        ),
{
    let info = frame_cap.get_info();
    match info {
        CapInfo::FrameCap { vptr, pptr, .. } => {
            let pt_ret = lookup_pt_slot(vspace, vptr);
            proof {
                assert(2u64 | 4 | 8 | 1 | 16 == 0x1f) by (bit_vector);
            }
            let e = PTE::new(pptr, PTE_R | PTE_W | PTE_X | PTE_V | PTE_U);
            write_pt_entry(vspace, pt_ret.table_base, pt_ret.slot_index, e);
        },
        _ => vstd::pervasive::unreached(),
    }
}

/// Builds a page-table capability for a fresh paging structure and installs
/// it in the initial address space.
pub fn create_it_pt_cap(
    vspace_cap: Capability,
    pptr: u64,
    vptr: u64,
    asid: u64,
    vspace: &mut VSpace,
) -> (r: Capability)
    requires
        vspace_wf(*old(vspace)),
        cap_tag_supported(vspace_cap),
        get_info_spec(vspace_cap) matches CapInfo::PageTableCap { pptr, .. } && pptr.0 == old(
            vspace,
        ).root.base.0,
        pptr % 4096 == 0,
        pptr < 0x8000000000,
        vptr < 0x8000000000,
        asid < 0x10000,
    ensures
        vspace_wf(*final (vspace)),
        cap_tag_supported(r),
        get_info_spec(r) == (CapInfo::PageTableCap {
            vptr: Vaddr(vptr),
            pptr: Paddr(pptr),
            asid: asid,
        }),
        pt_entry_written(
            *old(vspace),
            *final (vspace),
            lookup_pt_slot_spec(*old(vspace), vptr),
            PTE((pptr >> 12) << 10 | 0x11),
        ),
{
    let cap = Capability::cap_page_table_cap_new(asid, pptr, true, vptr);
    map_it_pt_cap(vspace_cap, cap, vspace);
    cap
}

/// Builds a frame capability for a page of the initial task and installs the
/// mapping.  The walk for its virtual address must land on a page-sized
/// slot.
pub fn create_mapped_it_frame_cap(
    pd_cap: Capability,
    pptr: Paddr,
    vptr: Vaddr,
    asid: u64,
    executable: bool,
    vspace: &mut VSpace,
) -> (r: Capability)
    requires
        vspace_wf(*old(vspace)),
        cap_tag_supported(pd_cap),
        get_info_spec(pd_cap) matches CapInfo::PageTableCap { pptr, .. } && pptr.0 == old(
            vspace,
        ).root.base.0,
        pptr.0 % 4096 == 0,
        pptr.0 < 0x8000000000,
        vptr.0 < 0x8000000000,
        asid < 0x10000,
        lookup_pt_slot_spec(*old(vspace), vptr.0).pt_bits_left == SEL4_PAGE_BITS,
    ensures
        vspace_wf(*final (vspace)),
        cap_tag_supported(r),
        get_info_spec(r) == (CapInfo::FrameCap { vptr: vptr, pptr: pptr, is_device: false }),
        pt_entry_written(
            *old(vspace),
            *final (vspace),
            lookup_pt_slot_spec(*old(vspace), vptr.0),
            PTE((pptr.0 >> 12) << 10 | 0x1f),
        ),
{
    proof {
        assert((4096u64 << 57) >> 59 == 0) by (bit_vector);
    }
    let cap = Capability::cap_frame_cap_new(
        asid,
        pptr.0,
        PAGE_SIZE,
        3,  // read-write rights
        false,
        vptr.0,
    );
    map_it_frame_cap(pd_cap, cap, vspace);
    cap
}

/// Builds a frame capability for a user-image page that is not mapped yet:
/// the size, rights, identity and address fields are all zero.
pub fn create_unmapped_it_frame_cap(pptr: Paddr) -> (r: Capability)
    requires
        pptr.0 < 0x8000000000,
    ensures
        cap_tag_supported(r),
        get_info_spec(r) == (CapInfo::FrameCap { vptr: Vaddr(0), pptr: pptr, is_device: false }),
{
    proof {
        assert((0u64 << 57) >> 59 == 0) by (bit_vector);
    }
    Capability::cap_frame_cap_new(ASID_INVALID, pptr.0, 0, 0, false, 0)
}

/// Recording the initial thread's page table in the ASID pool is left
/// unimplemented by this kernel; the call is a seam that changes nothing.
pub fn write_it_asid_pool(it_ap_cap: Capability, root_pt_cap: Capability) {
}


/// The entry stored at slot `idx` of the table whose base is `tb` (the root
/// or a table of the arena).
pub open spec fn entry_at(v: VSpace, tb: u64, idx: int) -> PTE {
    if tb == v.root.base.0 {
        v.root.entries@[idx]
    } else {
        v.tables@[find_table_spec(v.tables@, tb)->Some_0].entries@[idx]
    }
}

/// The slot a walk found holds an entry that leads nowhere: it is not a
/// page-table entry pointing at a table of the arena.  Overwriting such a
/// slot cannot change where any other walk goes.
pub open spec fn slot_entry_inert(v: VSpace, lr: LookupPTSlotRet) -> bool {
    let e = entry_at(v, lr.table_base.0, lr.slot_index as int);
    !(pte_is_pagetable_spec(e) && find_table_spec(v.tables@, pte_pa_spec(e)) is Some)
}

/// Reads the entry at slot `idx` of the table whose base is `tb`.
pub fn read_pt_entry(vspace: &VSpace, tb: Paddr, idx: usize) -> (r: PTE)
    requires
        vspace_wf(*vspace),
        idx < 512,
        tb.0 == vspace.root.base.0 || find_table_spec(vspace.tables@, tb.0) is Some,
    ensures
        r == entry_at(*vspace, tb.0, idx as int),
{
    if vspace.root.base.0 == tb.0 {
        vspace.root.entries[idx]
    } else {
        match find_table(&vspace.tables, tb) {
            Option::Some(j) => {
                proof {
                    lemma_find_table_found(vspace.tables@, tb.0);
                }
                vspace.tables[j].entries[idx]
            },
            Option::None => vstd::pervasive::unreached(),
        }
    }
}

/// Tables with pointwise equal bases are found at the same indices.
pub proof fn lemma_find_table_same_bases(t1: Seq<PtTable>, t2: Seq<PtTable>)
    requires
        t1.len() == t2.len(),
        forall|i: int| 0 <= i < t1.len() ==> (#[trigger] t1[i]).base == t2[i].base,
    ensures
        forall|b: u64| find_table_spec(t1, b) == find_table_spec(t2, b),
    decreases t1.len(),
{
    if t1.len() > 0 {
        assert forall|i: int| 0 <= i < t1.skip(1).len() implies (#[trigger] t1.skip(1)[i]).base
            == t2.skip(1)[i].base by {
            assert(t1.skip(1)[i] == t1[i + 1]);
            assert(t2.skip(1)[i] == t2[i + 1]);
        }
        lemma_find_table_same_bases(t1.skip(1), t2.skip(1));
        assert forall|b: u64| find_table_spec(t1, b) == find_table_spec(t2, b) by {
            assert(find_table_spec(t1.skip(1), b) == find_table_spec(t2.skip(1), b));
        }
    }
}

/// One step of the walk comparison: from corresponding tables of the two
/// address spaces, the walks agree, because the written slot held an inert
/// entry before and a non-descending entry after.
proof fn lemma_lookup_rec_preserved(
    v1: VSpace,
    v2: VSpace,
    wtb: u64,
    widx: int,
    e_new: PTE,
    pos: Option<int>,
    level: nat,
    bits: u64,
    vptr: u64,
)
    requires
        vspace_wf(v1),
        !pte_is_pagetable_spec(e_new),
        0 <= widx < 512,
        wtb == v1.root.base.0 || find_table_spec(v1.tables@, wtb) is Some,
        !(pte_is_pagetable_spec(entry_at(v1, wtb, widx)) && find_table_spec(
            v1.tables@,
            pte_pa_spec(entry_at(v1, wtb, widx)),
        ) is Some),
        pt_entry_written(
            v1,
            v2,
            LookupPTSlotRet {
                table_base: Paddr(wtb),
                slot_index: widx as usize,
                pt_bits_left: SEL4_PAGE_BITS,
            },
            e_new,
        ),
        pos matches Some(j) ==> 0 <= j < v1.tables@.len(),
    ensures
        lookup_rec(
            v2,
            if pos is Some {
                v2.tables@[pos->0]
            } else {
                v2.root
            },
            level,
            bits,
            vptr,
        ) == lookup_rec(
            v1,
            if pos is Some {
                v1.tables@[pos->0]
            } else {
                v1.root
            },
            level,
            bits,
            vptr,
        ),
    decreases level,
{
    let lr = LookupPTSlotRet {
        table_base: Paddr(wtb),
        slot_index: widx as usize,
        pt_bits_left: SEL4_PAGE_BITS,
    };
    assert forall|i: int| 0 <= i < v1.tables@.len() implies (#[trigger] v2.tables@[i]).base
        == v1.tables@[i].base by {
        if wtb != v1.root.base.0 {
            let jw = find_table_spec(v1.tables@, wtb)->Some_0;
            if i != jw {
                assert(v2.tables@[i] == v1.tables@[i]);
            }
        } else {
            assert(v2.tables@[i] == v1.tables@[i]);
        }
    }
    lemma_find_table_same_bases(v1.tables@, v2.tables@);
    let cur1 = if pos is Some {
        v1.tables@[pos->0]
    } else {
        v1.root
    };
    let cur2 = if pos is Some {
        v2.tables@[pos->0]
    } else {
        v2.root
    };
    assert(cur2.base == cur1.base);
    let i = pt_index_spec(vptr, bits) as int;
    assert(0 <= i < 512) by {
        let w = vptr;
        let b = bits;
        assert((w >> b) & 0x1ff < 512) by (bit_vector);
    }
    let written_here = if wtb == v1.root.base.0 {
        pos is None
    } else {
        pos is Some && pos->0 == find_table_spec(v1.tables@, wtb)->Some_0
    };
    if written_here && i == widx {
        // The overwritten slot: neither the inert old entry nor the new leaf
        // entry lets the walk descend, so both walks stop here.
        assert(cur1.entries@[i] == entry_at(v1, wtb, widx));
        assert(cur2.entries@[i] == e_new);
    } else {
        assert(cur2.entries@[i] == cur1.entries@[i]) by {
            if wtb == v1.root.base.0 {
                if pos is Some {
                    assert(v2.tables@[pos->0] == v1.tables@[pos->0]);
                }
            } else {
                let jw = find_table_spec(v1.tables@, wtb)->Some_0;
                if pos is Some && pos->0 != jw {
                    assert(v2.tables@[pos->0] == v1.tables@[pos->0]);
                }
            }
        }
        let e = cur1.entries@[i];
        if level > 0 && bits >= 9 && pte_is_pagetable_spec(e) && find_table_spec(
            v1.tables@,
            pte_pa_spec(e),
        ) is Some {
            let j = find_table_spec(v1.tables@, pte_pa_spec(e))->Some_0;
            lemma_find_table_found(v1.tables@, pte_pa_spec(e));
            lemma_lookup_rec_preserved(
                v1,
                v2,
                wtb,
                widx,
                e_new,
                Some(j),
                (level - 1) as nat,
                (bits - 9) as u64,
                vptr,
            );
        }
    }
}

/// Writing a non-descending entry into a slot whose old entry led nowhere
/// changes no walk: every address still reaches the same slot with the same
/// window.
pub proof fn lemma_leaf_write_preserves_lookups(
    v1: VSpace,
    v2: VSpace,
    lr: LookupPTSlotRet,
    e_new: PTE,
)
    requires
        vspace_wf(v1),
        !pte_is_pagetable_spec(e_new),
        lr.slot_index < 512,
        lr.table_base.0 == v1.root.base.0 || find_table_spec(v1.tables@, lr.table_base.0) is Some,
        slot_entry_inert(v1, lr),
        pt_entry_written(v1, v2, lr, e_new),
    ensures
        forall|vptr: u64| #[trigger] lookup_pt_slot_spec(v2, vptr) == lookup_pt_slot_spec(
            v1,
            vptr,
        ),
{
    assert forall|vptr: u64| #[trigger] lookup_pt_slot_spec(v2, vptr) == lookup_pt_slot_spec(
        v1,
        vptr,
    ) by {
        let lr12 = LookupPTSlotRet {
            table_base: lr.table_base,
            slot_index: lr.slot_index,
            pt_bits_left: SEL4_PAGE_BITS,
        };
        assert(pt_entry_written(v1, v2, lr12, e_new));
        lemma_lookup_rec_preserved(
            v1,
            v2,
            lr.table_base.0,
            lr.slot_index as int,
            e_new,
            None,
            2,
            30,
            vptr,
        );
    }
}


/// A base resolves to a table: the root's or one of the arena's.
pub open spec fn base_resolves(v: VSpace, tb: u64) -> bool {
    tb == v.root.base.0 || find_table_spec(v.tables@, tb) is Some
}

/// What one slot write does at the entry level: the written slot holds the
/// new entry, every other slot of every table is unchanged, and the same
/// bases resolve.
pub proof fn lemma_pt_entry_written_entry_at(v1: VSpace, v2: VSpace, lr: LookupPTSlotRet, e_new: PTE)
    requires
        vspace_wf(v1),
        lr.slot_index < 512,
        base_resolves(v1, lr.table_base.0),
        pt_entry_written(v1, v2, lr, e_new),
    ensures
        v2.root.base == v1.root.base,
        v2.tables@.len() == v1.tables@.len(),
        forall|i: int|
            0 <= i < v1.tables@.len() ==> (#[trigger] v2.tables@[i]).base == v1.tables@[i].base,
        forall|b: u64| #[trigger] find_table_spec(v2.tables@, b) == find_table_spec(v1.tables@, b),
        forall|tb: u64, i: int|
            base_resolves(v1, tb) && 0 <= i < 512 ==> #[trigger] entry_at(v2, tb, i) == if tb
                == lr.table_base.0 && i == lr.slot_index {
                e_new
            } else {
                entry_at(v1, tb, i)
            },
{
    assert forall|i: int| 0 <= i < v1.tables@.len() implies (#[trigger] v2.tables@[i]).base
        == v1.tables@[i].base by {
        if lr.table_base.0 != v1.root.base.0 {
            let jw = find_table_spec(v1.tables@, lr.table_base.0)->Some_0;
            if i != jw {
                assert(v2.tables@[i] == v1.tables@[i]);
            }
        } else {
            assert(v2.tables@[i] == v1.tables@[i]);
        }
    }
    lemma_find_table_same_bases(v1.tables@, v2.tables@);
    assert forall|tb: u64, i: int| base_resolves(v1, tb) && 0 <= i < 512 implies #[trigger] entry_at(
        v2,
        tb,
        i,
    ) == if tb == lr.table_base.0 && i == lr.slot_index {
        e_new
    } else {
        entry_at(v1, tb, i)
    } by {
        if lr.table_base.0 == v1.root.base.0 {
            if tb == v1.root.base.0 {
                assert(v2.root.entries@ == v1.root.entries@.update(lr.slot_index as int, e_new));
            } else {
                let j = find_table_spec(v1.tables@, tb)->Some_0;
                lemma_find_table_found(v1.tables@, tb);
                assert(v2.tables@[j] == v1.tables@[j]);
            }
        } else {
            let jw = find_table_spec(v1.tables@, lr.table_base.0)->Some_0;
            lemma_find_table_found(v1.tables@, lr.table_base.0);
            if tb == v1.root.base.0 {
                assert(v2.root == v1.root);
            } else {
                let j = find_table_spec(v1.tables@, tb)->Some_0;
                lemma_find_table_found(v1.tables@, tb);
                if j == jw {
                    // One table, one base: this is the written table.
                    assert(tb == lr.table_base.0);
                    assert(v2.tables@[j].entries@ == v1.tables@[j].entries@.update(
                        lr.slot_index as int,
                        e_new,
                    ));
                } else {
                    assert(v2.tables@[j] == v1.tables@[j]);
                    assert(tb != lr.table_base.0);
                }
            }
        }
    }
}

} // verus!
