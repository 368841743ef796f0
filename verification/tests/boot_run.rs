//! End-to-end boot runs: the full pipeline on a plausible platform layout,
//! the slot-cursor and populated-slot properties after boot, and the fatal
//! configuration failures.

use capboot::addr::{Paddr, Pregion, Vaddr, Vregion};
use capboot::freemem::init_freemem;
use capboot::boot::{init_kernel, try_init_kernel, BootError};
use capboot::cap::CapInfo;
use capboot::config::{
    ROOT_CNODE_SLOTS, SEL4_CAP_ASID_CONTROL, SEL4_CAP_BOOT_INFO_FRAME, SEL4_CAP_DOMAIN,
    SEL4_CAP_INIT_THREAD_ASID_POOL, SEL4_CAP_INIT_THREAD_CNODE, SEL4_CAP_INIT_THREAD_IPC_BUFFER,
    SEL4_CAP_INIT_THREAD_TCB, SEL4_CAP_INIT_THREAD_VSPACE, SEL4_CAP_IRQ_CONTROL,
    SEL4_NUM_INITIAL_CAPS,
};
use capboot::thread::{SchedulerAction, ThreadPointer, THREAD_STATE_RUNNING};
use capboot::vspace::{new_pt_table, VSpace};

const KERNEL_END: u64 = 0x8420_0000;
const BOOT_END: u64 = 0x8418_0000;
const UI_START: u64 = 0x8420_0000;
const UI_END: u64 = 0x8421_0000;
const PV_OFFSET: u64 = UI_START - 0x1_0000;
const V_ENTRY: u64 = 0x1_0000;

#[test]
fn boot_pipeline_succeeds_on_plausible_layout() {
    let k = try_init_kernel(
        Paddr(UI_START),
        Paddr(UI_END),
        PV_OFFSET,
        Vaddr(V_ENTRY),
        Paddr(0),
        0,
        Paddr(KERNEL_END),
        Paddr(BOOT_END),
    )
    .unwrap();

    // Placement: the rootserver lands at the top of the highest free region.
    assert_eq!(k.rootserver.cnode, Paddr(0x8ff8_0000));
    assert_eq!(k.rootserver.tcb, Paddr(0x8ffc_6000));

    // Well-known slots.
    let slots = &k.cnode.slots;
    assert!(matches!(slots[SEL4_CAP_INIT_THREAD_TCB].cap.get_info(), CapInfo::ThreadCap { .. }));
    assert!(matches!(slots[SEL4_CAP_INIT_THREAD_CNODE].cap.get_info(), CapInfo::CnodeCap { .. }));
    assert!(matches!(
        slots[SEL4_CAP_INIT_THREAD_VSPACE].cap.get_info(),
        CapInfo::PageTableCap { .. }
    ));
    assert_eq!(slots[SEL4_CAP_IRQ_CONTROL].cap.get_info(), CapInfo::IrqControlCap);
    assert_eq!(slots[SEL4_CAP_ASID_CONTROL].cap.get_info(), CapInfo::AsidControlCap);
    assert_eq!(slots[SEL4_CAP_INIT_THREAD_ASID_POOL].cap.get_info(), CapInfo::AsidPoolCap);
    assert!(matches!(slots[SEL4_CAP_BOOT_INFO_FRAME].cap.get_info(), CapInfo::FrameCap { .. }));
    assert!(matches!(
        slots[SEL4_CAP_INIT_THREAD_IPC_BUFFER].cap.get_info(),
        CapInfo::FrameCap { .. }
    ));
    assert_eq!(slots[SEL4_CAP_DOMAIN].cap.get_info(), CapInfo::DomainCap);

    // The cursor stayed in bounds and every allocated slot is non-null.
    let cur = k.boot.slot_pos_cur;
    assert!(SEL4_NUM_INITIAL_CAPS <= cur && cur <= ROOT_CNODE_SLOTS);
    for i in SEL4_NUM_INITIAL_CAPS..cur {
        assert!(!matches!(slots[i].cap.get_info(), CapInfo::NullCap), "slot {} is null", i);
    }

    // The boot info is finalized.
    let bi = k.boot.bi_frame.as_ref().unwrap();
    assert_eq!(bi.empty.start, cur);
    assert_eq!(bi.empty.end, ROOT_CNODE_SLOTS);
    assert_eq!(bi.untyped.end, cur);
    assert!(bi.untyped.start < bi.untyped.end);
    assert_eq!(bi.ipc_buffer, 0x2_0000);
    assert_eq!(bi.it_cnode_size_bits, 13);
    assert_eq!(bi.untyped_list.len(), bi.untyped.end - bi.untyped.start);
    for d in bi.untyped_list.iter() {
        assert!(4 <= d.size_bits && d.size_bits <= 38);
        assert_eq!(d.paddr % (1u64 << d.size_bits), 0);
    }

    // The scheduler is poised to switch to the running initial thread.
    assert_eq!(k.threads.len(), 2);
    assert_eq!(k.threads[1].inner.tcb_state.ts_type, THREAD_STATE_RUNNING);
    assert_eq!(k.threads[1].inner.tcb_priority, 255);
    assert_eq!(k.threads[1].inner.registers[9], 0x2_1000);
    assert_eq!(k.threads[1].inner.registers[34], V_ENTRY);
    assert_eq!(
        k.sched.ks_scheduler_action,
        SchedulerAction::SwitchToThread(ThreadPointer(Paddr(0x8ffc_6200)))
    );
}

#[test]
fn init_kernel_switches_to_initial_thread() {
    let k = init_kernel(
        Paddr(UI_START),
        Paddr(UI_END),
        PV_OFFSET,
        Vaddr(V_ENTRY),
        Paddr(0),
        0,
        Paddr(KERNEL_END),
        Paddr(BOOT_END),
    )
    .unwrap();
    assert_eq!(k.sched.ks_scheduler_action, SchedulerAction::ResumeCurrentThread);
    assert_eq!(k.sched.ks_cur_thread, ThreadPointer(Paddr(0x8ffc_6200)));
    // The switch installed the initial thread's address space.
    assert_eq!(k.satp, (1 << 44) | (8 << 60) | (0x8ffc_0000 >> 12));
}

#[test]
fn boot_rejects_image_above_user_top() {
    // A user image whose virtual region reaches the top of the user address
    // space is rejected before anything is placed.
    let r = try_init_kernel(
        Paddr(0x8000_0000),
        Paddr(0x70_0000_0000),
        0,
        Vaddr(V_ENTRY),
        Paddr(0),
        0,
        Paddr(KERNEL_END),
        Paddr(BOOT_END),
    );
    assert_eq!(r.unwrap_err(), BootError::UserImageOutOfRange);
}

#[test]
fn placement_falls_back_below_the_kernel_image() {
    // The images fill almost the whole window above the kernel: the tail is
    // too small for the rootserver objects, so they land in the region below
    // the kernel image instead.
    let reserved = vec![
        Pregion::new(Paddr(0x8400_0000), Paddr(0x8420_0000)),
        Pregion::new(Paddr(0x8420_0000), Paddr(0x8fff_0000)),
    ];
    let avail = Pregion::new(Paddr(0x8020_0000), Paddr(0x9000_0000));
    let it_v = Vregion::new(Vaddr(0x1_0000), Vaddr(0x2_2000));
    let (rootserver, freemem) = init_freemem(&reserved, avail, it_v, 0).unwrap();
    assert_eq!(rootserver.cnode, Paddr(0x83f8_0000));
    // The tail region stays free, untouched by the placement.
    assert!(freemem.contains(&Pregion::new(Paddr(0x8fff_0000), Paddr(0x9000_0000))));
}

#[test]
fn slot_exhaustion_fails_untyped_creation() {
    // A user image large enough that its per-page frame capabilities use up
    // the whole root CNode: the frame provisioning drops the extra
    // capabilities silently, and the untyped carving then fails for want of
    // slots.
    let r = try_init_kernel(
        Paddr(UI_START),
        Paddr(0x9000_0000),
        PV_OFFSET,
        Vaddr(V_ENTRY),
        Paddr(0),
        0,
        Paddr(KERNEL_END),
        Paddr(BOOT_END),
    );
    assert_eq!(r.unwrap_err(), BootError::UntypedCreationFailed);
}

#[test]
fn frame_mapping_needs_a_page_sized_slot() {
    // Mapping the boot-info frame into an address space with no page tables
    // fails: the walk stops at the root with a one-gibibyte window.
    let rootserver = capboot::rootserver::RootServer {
        cnode: Paddr(0x8ff8_0000),
        vspace: Paddr(0x8ffc_0000),
        asid_pool: Paddr(0x8ffc_1000),
        ipc_buf: Paddr(0x8ffc_2000),
        boot_info: Paddr(0x8ffc_3000),
        extra_bi: Paddr(0),
        tcb: Paddr(0x8ffc_6000),
        paging: Pregion::new(Paddr(0x8ffc_4000), Paddr(0x8ffc_6000)),
    };
    let (root_cap, mut cnode) = rootserver.create_root_cnode();
    let mut vspace = VSpace { root: new_pt_table(Paddr(0x8ffc_0000)), tables: Vec::new() };
    let pd_cap = capboot::cap::Capability::cap_page_table_cap_new(1, 0x8ffc_0000, true, 0x8ffc_0000);
    let r = rootserver.create_bi_frame_cap(root_cap, pd_cap, Vaddr(0x2_1000), &mut cnode, &mut vspace);
    assert_eq!(r.unwrap_err(), BootError::FrameMappingFailed);
}
