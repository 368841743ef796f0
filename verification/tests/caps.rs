//! Encode/decode round trips of every supported capability variant, the
//! slot-metadata bits, and the message-tag fields.

use capboot::addr::{Paddr, Vaddr};
use capboot::cap::{CapInfo, CapSlot, Capability, MDBNode};
use capboot::msginfo::MessageInfo;

#[test]
fn null_cap_decodes_null() {
    let c = Capability::new_empty();
    assert_eq!(c.get_info(), CapInfo::NullCap);
}

#[test]
fn cnode_cap_round_trip() {
    let c = Capability::cap_cnode_cap_new(13, 51, 0, 0x8ff8_0000);
    assert_eq!(c.get_info(), CapInfo::CnodeCap { ptr: Paddr(0x8ff8_0000) });
}

#[test]
fn page_table_cap_round_trip() {
    let c = Capability::cap_page_table_cap_new(1, 0x8ffc_0000, true, 0x8ffc_0000);
    assert_eq!(
        c.get_info(),
        CapInfo::PageTableCap { vptr: Vaddr(0x8ffc_0000), pptr: Paddr(0x8ffc_0000), asid: 1 }
    );
}

#[test]
fn frame_cap_round_trip() {
    let c = Capability::cap_frame_cap_new(1, 0x8ffc_2000, 4096, 3, false, 0x2_0000);
    assert_eq!(
        c.get_info(),
        CapInfo::FrameCap { vptr: Vaddr(0x2_0000), pptr: Paddr(0x8ffc_2000), is_device: false }
    );
}

#[test]
fn frame_cap_device_flag_round_trip() {
    let c = Capability::cap_frame_cap_new(0, 0x1000, 0, 0, true, 0);
    assert_eq!(
        c.get_info(),
        CapInfo::FrameCap { vptr: Vaddr(0), pptr: Paddr(0x1000), is_device: true }
    );
}

#[test]
fn untyped_cap_round_trip() {
    let c = Capability::cap_untyped_cap_new(1 << 16, true, 20, 0x10_0000);
    assert_eq!(
        c.get_info(),
        CapInfo::UntypedCap { pptr: Paddr(0x10_0000), is_device: true, size_bits: 20 }
    );
}

#[test]
fn thread_cap_round_trip() {
    let c = Capability::cap_thread_cap_new(0x8ffc_6200);
    assert_eq!(c.get_info(), CapInfo::ThreadCap { ptr: Paddr(0x8ffc_6200) });
}

#[test]
fn constructors_pack_the_exact_words() {
    assert_eq!(Capability::cap_domain_cap_new().words, [0xa000000000000000, 0]);
    assert_eq!(Capability::cap_irq_control_cap_new().words, [0x7000000000000000, 0]);
    assert_eq!(Capability::cap_asid_control_cap_new().words, [0x5800000000000000, 0]);
    assert_eq!(
        Capability::cap_thread_cap_new(0x84001000).words,
        [0x6000000084001000, 0]
    );
    let pt = Capability::cap_page_table_cap_new(1, 0x8ffc_0000, true, 0x8ffc_0000);
    assert_eq!(pt.words[0], (3 << 59) | (1 << 39) | 0x8ffc_0000);
    assert_eq!(pt.words[1], (1 << 48) | (0x8ffc_0000 << 9));
    let ut = Capability::cap_untyped_cap_new(1 << 16, false, 20, 0x10_0000);
    assert_eq!(ut.words[0], (2 << 59) | 0x10_0000);
    assert_eq!(ut.words[1], (1 << (16 + 25)) | 20);
    let f = Capability::cap_frame_cap_new(1, 0x8ffc_2000, 4096, 3, false, 0x2_0000);
    // The page-size field is shifted past the top bit and lost: only the
    // rights, device and address fields survive in word zero.
    assert_eq!(f.words[0], (1 << 59) | (3 << 55) | 0x2_0000);
    assert_eq!(f.words[1], (1 << 48) | (0x8ffc_2000 << 9));
}

#[test]
fn tag_only_caps_round_trip() {
    assert_eq!(Capability::cap_domain_cap_new().get_info(), CapInfo::DomainCap);
    assert_eq!(Capability::cap_irq_control_cap_new().get_info(), CapInfo::IrqControlCap);
    assert_eq!(Capability::cap_asid_control_cap_new().get_info(), CapInfo::AsidControlCap);
    assert_eq!(
        Capability::cap_asid_pool_cap_new(0, 0x8ffc_1000).get_info(),
        CapInfo::AsidPoolCap
    );
}

#[test]
fn get_pptr_reads_cnode_and_page_table_pointers() {
    let c = Capability::cap_cnode_cap_new(13, 51, 0, 0x4000_0000);
    assert_eq!(c.get_pptr(), Paddr(0x4000_0000));
    let p = Capability::cap_page_table_cap_new(7, 0x1234_5000, true, 0x9000);
    assert_eq!(p.get_pptr(), Paddr(0x1234_5000));
}

#[test]
fn mdb_bits_set_and_clear() {
    let mut m = MDBNode::new_empty();
    assert!(m.is_empty());
    m.set_mdb_revocable(true);
    m.set_mdb_first_badged(true);
    assert_eq!(m.words[1], 3);
    assert!(!m.is_empty());
    m.set_mdb_revocable(false);
    assert_eq!(m.words[1], 1);
    m.set_mdb_first_badged(false);
    assert!(m.is_empty());
}

#[test]
fn slot_write_resets_metadata() {
    let mut s = CapSlot::new_empty();
    let cap = Capability::cap_domain_cap_new();
    s.write(cap);
    assert_eq!(s.cap.words[0], cap.words[0]);
    assert_eq!(s.mdb_node.words[0], 0);
    assert_eq!(s.mdb_node.words[1], 3);
}

#[test]
fn message_info_round_trip() {
    let m = MessageInfo::new(6, 0, 1, 5);
    assert_eq!(m.label(), 6);
    assert_eq!(m.caps_unwrapped(), 0);
    assert_eq!(m.extra_caps(), 1);
    assert_eq!(m.length(), 5);
    let m2 = MessageInfo::new(0x1234, 7, 3, 127);
    assert_eq!(m2.label(), 0x1234);
    assert_eq!(m2.caps_unwrapped(), 7);
    assert_eq!(m2.extra_caps(), 3);
    assert_eq!(m2.length(), 127);
}
