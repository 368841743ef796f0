//! The syscall path on a concrete capability space: argument extraction,
//! the CNode-copy invocation, its error cases, and the user-side marshaling.

use capboot::addr::Paddr;
use capboot::cap::{CapInfo, CapSlot, Capability};
use capboot::cnode::CNode;
use capboot::config::{
    LABEL_CNODE_COPY, SEL4_ILLEGAL_OPERATION, SEL4_INVALID_CAPABILITY, SEL4_NO_ERROR,
    SEL4_TRUNCATED_MESSAGE, SYSCALL_CALL, TCB_CTABLE,
};
use capboot::msginfo::{sel4_cnode_copy, IPCBuffer, MessageInfo};
use capboot::syscall::{get_syscall_arg, handle_basic_syscall, lookup_extra_caps, lookup_slot};
use capboot::thread::TCB;

const CNODE_BASE: u64 = 0x8ff8_0000;

// A small capability space: the root CNode capability sits in its own
// well-known slot, a domain capability sits in slot twenty, and a thread
// holds the root CNode capability in its own capability table.
fn setup() -> (Capability, CNode, TCB, IPCBuffer) {
    let root_cap = Capability::cap_cnode_cap_new(13, 51, 0, CNODE_BASE);
    let mut cnode = CNode::new(Paddr(CNODE_BASE));
    root_cap.cnode_write_slot_at(&mut cnode, 2, root_cap);
    root_cap.cnode_write_slot_at(&mut cnode, 20, Capability::cap_domain_cap_new());

    let mut tcb = TCB::new(Paddr(0x400));
    let mut slot = CapSlot::new_empty();
    slot.write(root_cap);
    tcb.set_cte_slot(TCB_CTABLE, slot);

    let buffer = IPCBuffer::new_empty();
    (root_cap, cnode, tcb, buffer)
}

fn set_copy_args(tcb: &mut TCB, buffer: &mut IPCBuffer, dest: u64, src: u64) {
    // The first four arguments travel in the message registers a2..a5.
    tcb.inner.registers[11] = dest; // destination index
    tcb.inner.registers[12] = 0; // destination depth
    tcb.inner.registers[13] = src; // source index
    tcb.inner.registers[14] = 0; // source depth
    buffer.msg[4] = 0xf; // rights word
    buffer.caps_or_badges[0] = 2; // source root: the root CNode capability
}

#[test]
fn syscall_args_come_from_registers_then_buffer() {
    let (_, _, mut tcb, mut buffer) = setup();
    tcb.inner.registers[11] = 77;
    buffer.msg[4] = 99;
    assert_eq!(get_syscall_arg(0, &buffer, &tcb.inner), 77);
    assert_eq!(get_syscall_arg(4, &buffer, &tcb.inner), 99);
}

#[test]
fn lookup_slot_indexes_the_root_cnode() {
    let (_, cnode, tcb, _) = setup();
    let slot = lookup_slot(&tcb, 20, &cnode);
    assert_eq!(slot.cap.get_info(), CapInfo::DomainCap);
}

#[test]
fn lookup_extra_caps_collects_named_slots() {
    let (_, cnode, tcb, mut buffer) = setup();
    buffer.caps_or_badges[0] = 20;
    let info = MessageInfo::new(0, 0, 1, 0);
    let extra = lookup_extra_caps(&tcb, &buffer, info, &cnode);
    assert_eq!(extra.len(), 1);
    assert_eq!(extra[0].cap.get_info(), CapInfo::DomainCap);
}

#[test]
fn cnode_copy_duplicates_the_source_capability() {
    let (_, mut cnode, mut tcb, mut buffer) = setup();
    set_copy_args(&mut tcb, &mut buffer, 30, 20);
    let msg_info = MessageInfo::new(LABEL_CNODE_COPY, 0, 1, 5);
    let status = handle_basic_syscall(2, msg_info.0, SYSCALL_CALL, &buffer, &tcb, &mut cnode);
    assert_eq!(status.error_type, SEL4_NO_ERROR);
    assert_eq!(cnode.slots[30].cap.get_info(), CapInfo::DomainCap);
    // The source is untouched.
    assert_eq!(cnode.slots[20].cap.get_info(), CapInfo::DomainCap);
}

#[test]
fn cnode_copy_rejects_truncated_message() {
    let (_, mut cnode, mut tcb, mut buffer) = setup();
    set_copy_args(&mut tcb, &mut buffer, 30, 20);
    let msg_info = MessageInfo::new(LABEL_CNODE_COPY, 0, 1, 4);
    let status = handle_basic_syscall(2, msg_info.0, SYSCALL_CALL, &buffer, &tcb, &mut cnode);
    assert_eq!(status.error_type, SEL4_TRUNCATED_MESSAGE);
    assert!(matches!(cnode.slots[30].cap.get_info(), CapInfo::NullCap));
}

#[test]
fn unknown_label_is_an_illegal_operation() {
    let (_, mut cnode, mut tcb, mut buffer) = setup();
    set_copy_args(&mut tcb, &mut buffer, 30, 20);
    let msg_info = MessageInfo::new(LABEL_CNODE_COPY + 1, 0, 1, 5);
    let status = handle_basic_syscall(2, msg_info.0, SYSCALL_CALL, &buffer, &tcb, &mut cnode);
    assert_eq!(status.error_type, SEL4_ILLEGAL_OPERATION);
}

#[test]
fn invoking_a_null_capability_is_invalid() {
    let (_, mut cnode, mut tcb, mut buffer) = setup();
    set_copy_args(&mut tcb, &mut buffer, 30, 20);
    let msg_info = MessageInfo::new(LABEL_CNODE_COPY, 0, 1, 5);
    // Slot three holds the null capability.
    let status = handle_basic_syscall(3, msg_info.0, SYSCALL_CALL, &buffer, &tcb, &mut cnode);
    assert_eq!(status.error_type, SEL4_INVALID_CAPABILITY);
}

#[test]
fn non_call_basic_syscalls_are_illegal_operations() {
    let (_, mut cnode, mut tcb, mut buffer) = setup();
    set_copy_args(&mut tcb, &mut buffer, 30, 20);
    let msg_info = MessageInfo::new(LABEL_CNODE_COPY, 0, 1, 5);
    let status = handle_basic_syscall(2, msg_info.0, -3, &buffer, &tcb, &mut cnode);
    assert_eq!(status.error_type, SEL4_ILLEGAL_OPERATION);
}

#[test]
fn cnode_copy_marshaling_fills_the_buffer() {
    let mut buffer = IPCBuffer::new_empty();
    let (tag, mr0, mr1, mr2, mr3) = sel4_cnode_copy(&mut buffer, 30, 0x1_02, 2, 20, 64, 0xf);
    assert_eq!(tag.label(), LABEL_CNODE_COPY);
    assert_eq!(tag.extra_caps(), 1);
    assert_eq!(tag.length(), 5);
    assert_eq!(buffer.caps_or_badges[0], 2);
    assert_eq!(buffer.msg[4], 0xf);
    assert_eq!(mr0, 30);
    assert_eq!(mr1, 0x02); // the depth is truncated to one byte
    assert_eq!(mr2, 20);
    assert_eq!(mr3, 64);
}
