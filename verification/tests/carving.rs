//! Untyped carving and slot provisioning on concrete states: the cursor only
//! advances, provided slots are non-null, and a single aligned region yields
//! exactly one untyped capability and descriptor.

use capboot::addr::{Paddr, Pregion, Vaddr, Vregion};
use capboot::boot::{provide_cap, provide_untyped_cap, BootState};
use capboot::bootinfo::BootInfo;
use capboot::cap::{CapInfo, Capability};
use capboot::cnode::CNode;
use capboot::config::{ROOT_CNODE_SLOTS, SEL4_NUM_INITIAL_CAPS};
use capboot::freemem::init_freemem;
use capboot::rootserver::RootServer;

fn fresh_cnode() -> (Capability, CNode) {
    let base = Paddr(0x8ff8_0000);
    let cap = Capability::cap_cnode_cap_new(13, 51, 0, base.0);
    (cap, CNode::new(base))
}

fn carving_state(cursor: usize) -> BootState {
    let mut bs = BootState::new();
    bs.slot_pos_cur = cursor;
    bs.bi_frame = Some(BootInfo::new_empty());
    bs
}

#[test]
fn provide_cap_advances_cursor_and_fills_slot() {
    let (root_cap, mut cnode) = fresh_cnode();
    let mut bs = carving_state(SEL4_NUM_INITIAL_CAPS);
    assert!(provide_cap(root_cap, Capability::cap_domain_cap_new(), &mut cnode, &mut bs));
    assert!(provide_cap(root_cap, Capability::cap_irq_control_cap_new(), &mut cnode, &mut bs));
    assert_eq!(bs.slot_pos_cur, SEL4_NUM_INITIAL_CAPS + 2);
    assert_eq!(cnode.slots[SEL4_NUM_INITIAL_CAPS].cap.get_info(), CapInfo::DomainCap);
    assert_eq!(cnode.slots[SEL4_NUM_INITIAL_CAPS + 1].cap.get_info(), CapInfo::IrqControlCap);
}

#[test]
fn provide_untyped_cap_records_descriptor_and_capability() {
    let (root_cap, mut cnode) = fresh_cnode();
    let mut bs = carving_state(SEL4_NUM_INITIAL_CAPS);
    assert!(provide_untyped_cap(
        root_cap,
        false,
        Paddr(0x10_0000),
        20,
        SEL4_NUM_INITIAL_CAPS,
        &mut cnode,
        &mut bs,
    ));
    assert_eq!(bs.slot_pos_cur, SEL4_NUM_INITIAL_CAPS + 1);
    let bi = bs.bi_frame.as_ref().unwrap();
    assert_eq!(bi.untyped_list.len(), 1);
    assert_eq!(bi.untyped_list[0].paddr, 0x10_0000);
    assert_eq!(bi.untyped_list[0].size_bits, 20);
    assert_eq!(bi.untyped_list[0].is_device, 0);
}

// Scenario D: one aligned 1 MiB region above the minimum untyped size class
// yields exactly one untyped capability of class twenty, consuming one slot
// and one descriptor.
#[test]
fn carving_one_aligned_mebibyte() {
    let (root_cap, mut cnode) = fresh_cnode();
    let mut bs = carving_state(SEL4_NUM_INITIAL_CAPS);
    let rootserver = sample_rootserver();
    let reg = Pregion::new(Paddr(0x10_0000), Paddr(0x20_0000));
    assert!(rootserver.create_untypeds_for_region(
        root_cap,
        false,
        reg,
        SEL4_NUM_INITIAL_CAPS,
        &mut cnode,
        &mut bs,
    ));
    assert_eq!(bs.slot_pos_cur, SEL4_NUM_INITIAL_CAPS + 1);
    let bi = bs.bi_frame.as_ref().unwrap();
    assert_eq!(bi.untyped_list.len(), 1);
    assert_eq!(bi.untyped_list[0].paddr, 0x10_0000);
    assert_eq!(bi.untyped_list[0].size_bits, 20);
    assert_eq!(
        cnode.slots[SEL4_NUM_INITIAL_CAPS].cap.get_info(),
        CapInfo::UntypedCap { pptr: Paddr(0x10_0000), is_device: false, size_bits: 20 }
    );
}

// A misaligned start limits the size class: the first chunk is capped by the
// start address's own alignment.
#[test]
fn carving_respects_natural_alignment() {
    let (root_cap, mut cnode) = fresh_cnode();
    let mut bs = carving_state(SEL4_NUM_INITIAL_CAPS);
    let rootserver = sample_rootserver();
    // [0x11_0000, 0x20_0000): 0x11_0000 is aligned only to 2^16.
    let reg = Pregion::new(Paddr(0x11_0000), Paddr(0x20_0000));
    assert!(rootserver.create_untypeds_for_region(
        root_cap,
        false,
        reg,
        SEL4_NUM_INITIAL_CAPS,
        &mut cnode,
        &mut bs,
    ));
    let bi = bs.bi_frame.as_ref().unwrap();
    assert_eq!(bi.untyped_list[0].paddr, 0x11_0000);
    assert_eq!(bi.untyped_list[0].size_bits, 16);
}

// Chunks below the minimum untyped size class are skipped: the bytes are
// consumed but no capability is emitted.
#[test]
fn carving_skips_tiny_chunks() {
    let (root_cap, mut cnode) = fresh_cnode();
    let mut bs = carving_state(SEL4_NUM_INITIAL_CAPS);
    let rootserver = sample_rootserver();
    // An eight-byte region is below the minimum class of sixteen bytes.
    let reg = Pregion::new(Paddr(0x10_0000), Paddr(0x10_0008));
    assert!(rootserver.create_untypeds_for_region(
        root_cap,
        false,
        reg,
        SEL4_NUM_INITIAL_CAPS,
        &mut cnode,
        &mut bs,
    ));
    assert_eq!(bs.slot_pos_cur, SEL4_NUM_INITIAL_CAPS);
    assert_eq!(bs.bi_frame.as_ref().unwrap().untyped_list.len(), 0);
}

// An exact-fit placement leaves both leftovers empty, so carving the free
// list emits no capabilities for them.
#[test]
fn exact_fit_leaves_nothing_to_carve() {
    let reserved: Vec<Pregion> = vec![];
    let avail = Pregion::new(Paddr(0x8ff8_0000), Paddr(0x8ff8_0000 + 0x46400));
    let it_v = Vregion::new(Vaddr(0x10000), Vaddr(0x22000));
    let (rootserver, freemem) = init_freemem(&reserved, avail, it_v, 0).unwrap();
    let (root_cap, mut cnode) = fresh_cnode();
    let mut bs = carving_state(SEL4_NUM_INITIAL_CAPS);
    for reg in freemem.iter() {
        assert!(rootserver.create_untypeds_for_region(
            root_cap,
            false,
            *reg,
            SEL4_NUM_INITIAL_CAPS,
            &mut cnode,
            &mut bs,
        ));
    }
    assert_eq!(bs.slot_pos_cur, SEL4_NUM_INITIAL_CAPS);
    assert_eq!(bs.bi_frame.as_ref().unwrap().untyped_list.len(), 0);
}

// The slot cursor never runs past the CNode: exhausting the slots makes
// provisioning fail rather than wrap.
#[test]
fn provide_cap_fails_when_slots_exhausted() {
    let (root_cap, mut cnode) = fresh_cnode();
    let mut bs = carving_state(ROOT_CNODE_SLOTS);
    assert!(!provide_cap(root_cap, Capability::cap_domain_cap_new(), &mut cnode, &mut bs));
    assert_eq!(bs.slot_pos_cur, ROOT_CNODE_SLOTS);
}

fn sample_rootserver() -> RootServer {
    RootServer {
        cnode: Paddr(0x8ff8_0000),
        vspace: Paddr(0x8ffc_0000),
        asid_pool: Paddr(0x8ffc_1000),
        ipc_buf: Paddr(0x8ffc_2000),
        boot_info: Paddr(0x8ffc_3000),
        extra_bi: Paddr(0),
        tcb: Paddr(0x8ffc_6000),
        paging: Pregion::new(Paddr(0x8ffc_4000), Paddr(0x8ffc_6000)),
    }
}

// A whole carving pass over reserved, device-top, reclaimed and free memory:
// the descriptor sequence follows the chunk policy region by region.
#[test]
fn carving_composes_over_all_memory() {
    let (root_cap, mut cnode) = fresh_cnode();
    let mut bs = carving_state(SEL4_NUM_INITIAL_CAPS);
    bs.reserved = vec![Pregion::new(Paddr(0x8000_0000), Paddr(0x9000_0000))];
    bs.freemem = vec![Pregion::new(Paddr(0x8ff0_0000), Paddr(0x8ff8_0000))];
    let reuse = Pregion::new(Paddr(0x8400_0000), Paddr(0x8418_0000));
    let rootserver = sample_rootserver();
    assert!(rootserver.create_untypeds(root_cap, reuse, &mut cnode, &mut bs));
    let bi = bs.bi_frame.as_ref().unwrap();
    // Device gap below the reserved window: one two-gibibyte chunk at zero.
    assert_eq!(bi.untyped_list[0].paddr, 0);
    assert_eq!(bi.untyped_list[0].size_bits, 31);
    assert_eq!(bi.untyped_list[0].is_device, 1);
    // Device memory above, up to the ceiling: alignment-capped chunks.
    assert_eq!(bi.untyped_list[1].paddr, 0x9000_0000);
    assert_eq!(bi.untyped_list[1].size_bits, 28);
    assert_eq!(bi.untyped_list[2].size_bits, 29);
    assert_eq!(bi.untyped_list[3].size_bits, 30);
    // ... up to the maximum class at the highest addresses.
    assert_eq!(bi.untyped_list[10].paddr, 0x40_0000_0000);
    assert_eq!(bi.untyped_list[10].size_bits, 38);
    // Reclaimed boot memory, then the free region, neither device memory.
    assert_eq!(bi.untyped_list[11].paddr, 0x8400_0000);
    assert_eq!(bi.untyped_list[11].size_bits, 20);
    assert_eq!(bi.untyped_list[11].is_device, 0);
    assert_eq!(bi.untyped_list[12].paddr, 0x8410_0000);
    assert_eq!(bi.untyped_list[12].size_bits, 19);
    assert_eq!(bi.untyped_list[13].paddr, 0x8ff0_0000);
    assert_eq!(bi.untyped_list[13].size_bits, 19);
    assert_eq!(bi.untyped_list.len(), 14);
    assert_eq!(bs.slot_pos_cur, SEL4_NUM_INITIAL_CAPS + 14);
    assert_eq!(bi.untyped.start, SEL4_NUM_INITIAL_CAPS);
    assert_eq!(bi.untyped.end, SEL4_NUM_INITIAL_CAPS + 14);
}
