//! The word-level helpers, page-table entries, the table walk, the
//! scheduler's switch decision, and the image-placement arithmetic on
//! concrete values.

use capboot::addr::{Paddr, Vaddr};
use capboot::bits::{bit64, floor_log2, is_aligned, low_zero_bits, mask64, round_down, round_up};
use capboot::boot::{activate_kernel_vspace, map_kernel_window};
use capboot::cap::{CapSlot, Capability};
use capboot::config::{SEL4_MAX_PRIO, TCB_VTABLE};
use capboot::elf::{elf_get_memory_bounds, load_elf, ElfSegment};
use capboot::pte::{PageTable, PTE, PTE_R, PTE_U, PTE_V, PTE_W, PTE_X};
use capboot::thread::{
    activate_thread, create_idle_thread, init_core_state, schedule, SchedState, SchedulerAction,
    ThreadPointer, THREAD_STATE_RUNNING, TCB,
};
use capboot::boot::BootState;
use capboot::bootinfo::BootInfo;
use capboot::cnode::CNode;
use capboot::msginfo::{sel4_setcap, sel4_setmr, IPCBuffer};
use capboot::syscall::{reply_from_kernel_susccess_empty, syscall_is_basic};
use capboot::vspace::{lookup_pt_slot, map_it_frame_cap, new_pt_table, VSpace};

#[test]
fn word_helpers_compute_exact_values() {
    assert_eq!(bit64(18), 0x40000);
    assert_eq!(mask64(9), 0x1ff);
    assert_eq!(round_down(0x84000000, 30), 0x80000000);
    assert_eq!(round_up(0x21fff, 12), 0x22000);
    assert_eq!(round_up(0x22000, 12), 0x22000);
    assert!(is_aligned(0x40000, 18));
    assert!(!is_aligned(0x40001, 18));
    assert_eq!(floor_log2(1), 0);
    assert_eq!(floor_log2(0x100000), 20);
    assert_eq!(floor_log2(0x100001), 20);
    assert_eq!(low_zero_bits(0x10_0000), 20);
    assert_eq!(low_zero_bits(0x11_0000), 16);
    assert_eq!(low_zero_bits(3), 0);
}

#[test]
fn pte_round_trip_and_classification() {
    let e = PTE::new(Paddr(0x8ffc_4000), PTE_V | PTE_U);
    assert_eq!(e.pa(), Paddr(0x8ffc_4000));
    assert_eq!(e.flags(), PTE_V | PTE_U);
    assert!(e.is_valid());
    assert!(e.is_pte_pagetable());
    let leaf = PTE::new(Paddr(0x8ffc_2000), PTE_R | PTE_W | PTE_X | PTE_V | PTE_U);
    assert!(leaf.is_valid());
    assert!(leaf.readable() && leaf.writable() && leaf.executable());
    assert!(!leaf.is_pte_pagetable());
    assert!(!PTE(0).is_valid());
}

#[test]
fn vaddr_selects_table_indices() {
    let v = Vaddr(0x8000_0000);
    assert_eq!(v.pt_level_index(0), 2);
    assert_eq!(v.pt_level_index(1), 0);
    assert_eq!(v.pt_level_index(2), 0);
    let v2 = Vaddr(0x0020_1000);
    assert_eq!(v2.pt_level_index(0), 0);
    assert_eq!(v2.pt_level_index(1), 1);
    assert_eq!(v2.pt_level_index(2), 1);
}

#[test]
fn kernel_window_mapping_and_satp() {
    let mut pt = PageTable::new(Paddr(0x8410_4000));
    map_kernel_window(&mut pt);
    assert_eq!(pt.root[2], PTE(0x200000ef));
    assert_eq!(pt.satp(), (8 << 60) | (0x8410_4000 >> 12));
    let mut satp: u64 = 0;
    activate_kernel_vspace(&pt, &mut satp);
    assert_eq!(satp, (8 << 60) | (0x8410_4000 >> 12));
}

#[test]
fn table_walk_descends_to_page_slots() {
    // Root at level two points at a mid-level table, which points at a leaf
    // table; the walk for an address it covers ends with page-sized slots.
    let mut vspace = VSpace { root: new_pt_table(Paddr(0x8ffc_0000)), tables: Vec::new() };
    let mid = new_pt_table(Paddr(0x8ffc_4000));
    let leaf = new_pt_table(Paddr(0x8ffc_5000));
    vspace.tables.push(mid);
    vspace.tables.push(leaf);
    vspace.root.entries[0] = PTE::new(Paddr(0x8ffc_4000), PTE_V | PTE_U);
    // Index zero of the mid table covers [0, 2 MiB).
    let mut t = vspace.tables.remove(0);
    t.entries[0] = PTE::new(Paddr(0x8ffc_5000), PTE_V | PTE_U);
    vspace.tables.insert(0, t);

    let hit = lookup_pt_slot(&vspace, Vaddr(0x1_0000));
    assert_eq!(hit.table_base, Paddr(0x8ffc_5000));
    assert_eq!(hit.pt_bits_left, 12);
    assert_eq!(hit.slot_index, 16);

    // An uncovered address stops at the root with the full window left.
    let miss = lookup_pt_slot(&vspace, Vaddr(0x4000_0000));
    assert_eq!(miss.table_base, Paddr(0x8ffc_0000));
    assert_eq!(miss.pt_bits_left, 30);

    // Mapping a frame installs a leaf in the found slot.
    let pd_cap = Capability::cap_page_table_cap_new(1, 0x8ffc_0000, true, 0x8ffc_0000);
    let frame = Capability::cap_frame_cap_new(1, 0x8ffc_2000, 4096, 3, false, 0x1_0000);
    map_it_frame_cap(pd_cap, frame, &mut vspace);
    assert_eq!(vspace.tables[1].entries[16], PTE::new(Paddr(0x8ffc_2000), 0x1f));
}

#[test]
fn schedule_switches_to_a_runnable_thread() {
    let mut sched = SchedState::new();
    let mut threads: Vec<TCB> = Vec::new();
    assert!(create_idle_thread(&mut threads, &mut sched));

    let mut target = TCB::new(Paddr(0x8ffc_6000));
    target.inner.tcb_state.ts_type = THREAD_STATE_RUNNING;
    target.inner.tcb_priority = SEL4_MAX_PRIO;
    let mut vt = CapSlot::new_empty();
    vt.write(Capability::cap_page_table_cap_new(1, 0x8ffc_0000, true, 0x8ffc_0000));
    target.set_cte_slot(TCB_VTABLE, vt);
    let target_ptr = target.inner.pointer();
    threads.push(target);

    init_core_state(target_ptr, &mut sched);
    assert_eq!(sched.ks_scheduler_action, SchedulerAction::SwitchToThread(target_ptr));
    assert_eq!(sched.ks_cur_thread, sched.ks_idle_thread);

    let mut satp: u64 = 0;
    schedule(&mut sched, &threads, &mut satp).unwrap();
    assert_eq!(sched.ks_cur_thread, target_ptr);
    assert_eq!(sched.ks_scheduler_action, SchedulerAction::ResumeCurrentThread);
    assert_eq!(satp, (1 << 44) | (8 << 60) | (0x8ffc_0000 >> 12));
    assert!(activate_thread(&sched, &threads).is_ok());
}

#[test]
fn schedule_resume_is_a_no_op() {
    let mut sched = SchedState::new();
    let threads: Vec<TCB> = Vec::new();
    let mut satp: u64 = 7;
    schedule(&mut sched, &threads, &mut satp).unwrap();
    assert_eq!(satp, 7);
    assert_eq!(sched.ks_scheduler_action, SchedulerAction::ResumeCurrentThread);
}

#[test]
fn thread_pointer_and_name_handling() {
    assert!(ThreadPointer(Paddr(0)).is_null());
    assert!(!ThreadPointer(Paddr(0x8ffc_6200)).is_null());
    let mut tcb = TCB::new(Paddr(0x400));
    tcb.inner.set_thread_name("rootserver");
    assert_eq!(tcb.inner.name, "rootserver");
    let long = "a-name-that-goes-on-well-past-forty-characters-in-total";
    tcb.inner.set_thread_name(long);
    assert_eq!(tcb.inner.name.chars().count(), 40);
    assert!(long.starts_with(&tcb.inner.name));
}

#[test]
fn image_bounds_and_placement() {
    let segments = vec![
        ElfSegment {
            is_load: true,
            physical_addr: 0x8000_0000,
            virtual_addr: 0x1_0000,
            mem_size: 0x5000,
            file_size: 0x5000,
            offset: 0x1000,
        },
        ElfSegment {
            is_load: false,
            physical_addr: 0,
            virtual_addr: 0,
            mem_size: 0,
            file_size: 0,
            offset: 0,
        },
        ElfSegment {
            is_load: true,
            physical_addr: 0x8001_0000,
            virtual_addr: 0x2_0000,
            mem_size: 0x1234,
            file_size: 0x1000,
            offset: 0x6000,
        },
    ];
    let (vmin, vmax) = elf_get_memory_bounds(&segments, false);
    assert_eq!(vmin, 0x1_0000);
    assert_eq!(vmax, 0x2_1234);
    let (pmin, pmax) = elf_get_memory_bounds(&segments, true);
    assert_eq!(pmin, 0x8000_0000);
    assert_eq!(pmax, 0x8001_1234);

    let info = load_elf(&segments, 0x1_0080, 0x8420_0000);
    assert_eq!(info.virt_region_start, 0x1_0000);
    assert_eq!(info.virt_region_end, 0x2_2000);
    assert_eq!(info.phys_region_start, 0x8420_0000);
    assert_eq!(info.phys_region_end, 0x8420_0000 + 0x1_2000);
    assert_eq!(info.virt_entry, 0x1_0080);
    assert_eq!(info.phys_virt_offset, 0x8420_0000 - 0x1_0000);
}

#[test]
fn reply_from_kernel_writes_the_message_registers() {
    let mut threads = vec![TCB::new(Paddr(0x8ffc_6000))];
    threads[0].inner.registers[9] = 0xdead;
    threads[0].inner.registers[10] = 0xbeef;
    let tp = threads[0].inner.pointer();
    reply_from_kernel_susccess_empty(tp, &mut threads);
    assert_eq!(threads[0].inner.registers[9], 0);
    assert_eq!(threads[0].inner.registers[10], 0);
}

#[test]
fn setmr_and_setcap_write_the_ipc_buffer() {
    let mut buffer = IPCBuffer::new_empty();
    sel4_setmr(&mut buffer, 7, 0x1234);
    sel4_setcap(&mut buffer, 1, 42);
    assert_eq!(buffer.msg[7], 0x1234);
    assert_eq!(buffer.caps_or_badges[1], 42);
}

#[test]
fn init_context_enables_supervisor_interrupts() {
    let mut tcb = TCB::new(Paddr(0x400));
    tcb.inner.init_context();
    assert_eq!(tcb.inner.registers[32], 0x20);
}

#[test]
fn set_thread_state_updates_the_run_state() {
    let sched = SchedState::new();
    let threads: Vec<TCB> = Vec::new();
    let mut tcb = TCB::new(Paddr(0x400));
    tcb.inner.set_thread_state(THREAD_STATE_RUNNING, &sched, &threads);
    assert!(tcb.inner.is_runnable());
}

#[test]
fn basic_syscall_range_selects_the_invocation_path() {
    assert!(syscall_is_basic(-1));
    assert!(syscall_is_basic(-8));
    assert!(!syscall_is_basic(-9)); // the debug-console syscalls
    assert!(!syscall_is_basic(0));
}

#[test]
fn frames_of_region_maps_every_page() {
    // A two-level path covering [0, 2 MiB): frames land on page-sized slots.
    let mut vspace = VSpace { root: new_pt_table(Paddr(0x8ffc_0000)), tables: Vec::new() };
    let mut mid = new_pt_table(Paddr(0x8ffc_4000));
    mid.entries[0] = PTE::new(Paddr(0x8ffc_5000), PTE_V | PTE_U);
    vspace.tables.push(mid);
    vspace.tables.push(new_pt_table(Paddr(0x8ffc_5000)));
    vspace.root.entries[0] = PTE::new(Paddr(0x8ffc_4000), PTE_V | PTE_U);

    let root_cap = Capability::cap_cnode_cap_new(13, 51, 0, 0x8ff8_0000);
    let mut cnode = CNode::new(Paddr(0x8ff8_0000));
    let mut bs = BootState::new();
    bs.slot_pos_cur = 14;
    bs.bi_frame = Some(BootInfo::new_empty());
    let rootserver = capboot::rootserver::RootServer {
        cnode: Paddr(0x8ff8_0000),
        vspace: Paddr(0x8ffc_0000),
        asid_pool: Paddr(0x8ffc_1000),
        ipc_buf: Paddr(0x8ffc_2000),
        boot_info: Paddr(0x8ffc_3000),
        extra_bi: Paddr(0),
        tcb: Paddr(0x8ffc_6000),
        paging: capboot::addr::Pregion::new(Paddr(0x8ffc_4000), Paddr(0x8ffc_6000)),
    };
    let pd_cap = Capability::cap_page_table_cap_new(1, 0x8ffc_0000, true, 0x8ffc_0000);
    let reg = capboot::addr::Pregion::new(Paddr(0x8420_0000), Paddr(0x8420_2000));
    // Both pages of the region map at virtual 0x0000 and 0x1000.
    rootserver
        .create_frames_of_region(root_cap, pd_cap, reg, true, 0x8420_0000, &mut cnode, &mut bs, &mut vspace)
        .unwrap();
    assert_eq!(bs.slot_pos_cur, 16);
    assert_eq!(vspace.tables[1].entries[0], PTE::new(Paddr(0x8420_0000), 0x1f));
    assert_eq!(vspace.tables[1].entries[1], PTE::new(Paddr(0x8420_1000), 0x1f));

    // A region whose pages have no page-sized slot is refused.
    let far = capboot::addr::Pregion::new(Paddr(0x8430_0000), Paddr(0x8430_1000));
    let r = rootserver.create_frames_of_region(
        root_cap, pd_cap, far, true, 0x430_0000, &mut cnode, &mut bs, &mut vspace,
    );
    assert_eq!(r.unwrap_err(), capboot::boot::BootError::FrameMappingFailed);

    // A page whose slot holds a live page-table entry is refused rather than
    // silently remapped.
    let mut t = vspace.tables.remove(1);
    t.entries[4] = PTE::new(Paddr(0x8ffc_4000), PTE_V | PTE_U);
    vspace.tables.insert(1, t);
    let clash = capboot::addr::Pregion::new(Paddr(0x8420_4000), Paddr(0x8420_5000));
    let r = rootserver.create_frames_of_region(
        root_cap, pd_cap, clash, true, 0x8420_0000, &mut cnode, &mut bs, &mut vspace,
    );
    assert_eq!(r.unwrap_err(), capboot::boot::BootError::FrameMappingFailed);
}
