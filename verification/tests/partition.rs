//! The free-memory partitioner on concrete layouts: the region algebra, the
//! end-to-end placement scenarios, and placement determinism.

use capboot::addr::{Paddr, Pregion, Vaddr, Vregion};
use capboot::freemem::{check_reserved_memory, init_freemem, merge_regions, remove_empty_regions};
use capboot::rootserver::{calculate_rootserver_size, riscv_get_n_paging, rootserver_max_size_bits};

fn reg(start: u64, end: u64) -> Pregion {
    Pregion::new(Paddr(start), Paddr(end))
}

#[test]
fn check_reserved_accepts_sorted_disjoint() {
    let rs = vec![reg(0x1000, 0x2000), reg(0x2000, 0x3000), reg(0x4000, 0x5000)];
    assert!(check_reserved_memory(&rs));
}

#[test]
fn check_reserved_rejects_inverted_region() {
    let rs = vec![reg(0x2000, 0x1000)];
    assert!(!check_reserved_memory(&rs));
}

#[test]
fn check_reserved_rejects_wrong_order() {
    let rs = vec![reg(0x4000, 0x5000), reg(0x1000, 0x2000)];
    assert!(!check_reserved_memory(&rs));
}

#[test]
fn merge_regions_coalesces_touching_neighbours() {
    let rs = vec![reg(0x1000, 0x2000), reg(0x2000, 0x3000), reg(0x4000, 0x5000)];
    let m = merge_regions(&rs);
    assert_eq!(m.len(), 2);
    assert_eq!(m[0], reg(0x1000, 0x3000));
    assert_eq!(m[1], reg(0x4000, 0x5000));
}

#[test]
fn remove_empty_regions_drops_zero_length() {
    let rs = vec![reg(0x1000, 0x1000), reg(0x2000, 0x3000), reg(0x3000, 0x3000)];
    let m = remove_empty_regions(&rs);
    assert_eq!(m.len(), 1);
    assert_eq!(m[0], reg(0x2000, 0x3000));
}

#[test]
fn rootserver_size_for_small_image() {
    // One 1 GiB-reach and one 2 MiB-reach table cover this region.
    let v = Vregion::new(Vaddr(0x10000), Vaddr(0x22000));
    assert_eq!(riscv_get_n_paging(v), 2);
    assert_eq!(calculate_rootserver_size(v, 0), 0x46400);
    assert_eq!(rootserver_max_size_bits(0), 18);
}

// Scenario A: the rootserver objects land as high as possible in the highest
// free region, leaving the memory below and the tail above as free regions.
#[test]
fn placement_scenario_highest_fit() {
    let reserved = vec![reg(0x8000_0000, 0x8010_0000), reg(0x8010_0000, 0x8020_0000)];
    let avail = reg(0x8000_0000, 0x9000_0000);
    let it_v = Vregion::new(Vaddr(0x10000), Vaddr(0x22000));
    let (rootserver, freemem) = init_freemem(&reserved, avail, it_v, 0).unwrap();
    assert_eq!(rootserver.cnode, Paddr(0x8ff8_0000));
    assert_eq!(rootserver.vspace, Paddr(0x8ffc_0000));
    assert_eq!(rootserver.asid_pool, Paddr(0x8ffc_1000));
    assert_eq!(rootserver.ipc_buf, Paddr(0x8ffc_2000));
    assert_eq!(rootserver.boot_info, Paddr(0x8ffc_3000));
    assert_eq!(rootserver.paging, reg(0x8ffc_4000, 0x8ffc_6000));
    assert_eq!(rootserver.tcb, Paddr(0x8ffc_6000));
    // The gap below the reserved images is empty here, so two regions
    // remain: below the placed block and the tail above it.
    assert_eq!(freemem.len(), 2);
    assert_eq!(freemem[0], reg(0x8020_0000, 0x8ff8_0000));
    assert_eq!(freemem[1], reg(0x8ffc_6400, 0x9000_0000));
}

// Scenario B: an available region of exactly the needed size at an aligned
// start: placement succeeds and both leftover regions are empty.
#[test]
fn placement_scenario_exact_fit() {
    let reserved: Vec<Pregion> = vec![];
    let avail = reg(0x8ff8_0000, 0x8ff8_0000 + 0x46400);
    let it_v = Vregion::new(Vaddr(0x10000), Vaddr(0x22000));
    let (rootserver, freemem) = init_freemem(&reserved, avail, it_v, 0).unwrap();
    assert_eq!(rootserver.cnode, Paddr(0x8ff8_0000));
    assert_eq!(freemem.len(), 2);
    assert!(freemem[0].is_empty());
    assert!(freemem[1].is_empty());
}

// Scenario C: an available region smaller than the needed size: the
// partitioner reports failure and nothing is placed.
#[test]
fn placement_scenario_too_small() {
    let reserved: Vec<Pregion> = vec![];
    let avail = reg(0x8ff8_0000, 0x8ff8_0000 + 0x10000);
    let it_v = Vregion::new(Vaddr(0x10000), Vaddr(0x22000));
    assert!(init_freemem(&reserved, avail, it_v, 0).is_none());
}

// Determinism: two runs on identical inputs choose the same region, start
// address and leftovers.
#[test]
fn placement_is_deterministic() {
    let reserved = vec![reg(0x8000_0000, 0x8010_0000), reg(0x8010_0000, 0x8020_0000)];
    let avail = reg(0x8000_0000, 0x9000_0000);
    let it_v = Vregion::new(Vaddr(0x10000), Vaddr(0x22000));
    let (rs1, free1) = init_freemem(&reserved, avail, it_v, 0).unwrap();
    let (rs2, free2) = init_freemem(&reserved, avail, it_v, 0).unwrap();
    assert_eq!(rs1, rs2);
    assert_eq!(free1, free2);
}

#[test]
fn unsorted_reserved_regions_fail_the_partition() {
    let reserved = vec![reg(0x8010_0000, 0x8020_0000), reg(0x8000_0000, 0x8010_0000)];
    let avail = reg(0x8000_0000, 0x9000_0000);
    let it_v = Vregion::new(Vaddr(0x10000), Vaddr(0x22000));
    assert!(init_freemem(&reserved, avail, it_v, 0).is_none());
}
