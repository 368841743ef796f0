//! The syscall path: argument extraction, slot lookup, and the one
//! implemented object invocation, copying a capability between CNode slots.
//!
//! Invocations the kernel does not implement surface as the
//! illegal-operation error instead of stopping the kernel; the debug
//! syscalls (outside the basic range) are handled by the console outside
//! the kernel core.

use crate::cap::{cap_is_null, cap_tag_supported, get_info_spec, CapInfo, CapSlot, Capability};
use crate::cnode::{cap_points_to_cnode, cnode_wf, cte_insert, derive_cap, CNode};
use crate::config::{
    BASIC_SYSCALL_MAX, BASIC_SYSCALL_MIN, LABEL_CNODE_COPY, ROOT_CNODE_SLOTS, SEL4_ILLEGAL_OPERATION,
    SEL4_INVALID_CAPABILITY, SEL4_NO_ERROR, SEL4_TRUNCATED_MESSAGE, SYSCALL_CALL, TCB_CTABLE,
};
use crate::msginfo::{
    ipc_buffer_wf, msg_extra_caps_spec, msg_label_spec, msg_length_spec, IPCBuffer, MessageInfo,
    SyscallError,
};
use crate::registers::{msg_register, N_MSG_REGISTERS};
use crate::thread::{tcb_wf, ThreadPointer, TCB};
use vstd::prelude::*;

verus! {

/// The value of syscall argument `i`: the first four arguments travel in
/// message registers, the rest in the IPC buffer.
pub open spec fn syscall_arg_spec(i: int, buffer: IPCBuffer, thread: crate::thread::TCBInner) -> u64 {
    if i < N_MSG_REGISTERS {
        thread.registers@[11 + i]
    } else {
        buffer.msg@[i]
    }
}

/// Reads syscall argument `i` of the invoking thread.
pub fn get_syscall_arg(i: usize, ipc_buffer: &IPCBuffer, thread: &crate::thread::TCBInner) -> (r:
    u64)
    requires
        ipc_buffer_wf(*ipc_buffer),
        crate::thread::tcb_inner_wf(*thread),
        i < crate::config::SEL4_MSG_MAX_LENGTH,
    ensures
        r == syscall_arg_spec(i as int, *ipc_buffer, *thread),
{
    if i < N_MSG_REGISTERS {
        let reg = msg_register(i);
        thread.registers[reg.index()]
    } else {
        ipc_buffer.msg[i]
    }
}

/// Resolves a capability pointer in the invoking thread's capability space:
/// the thread's root CNode capability indexes the root CNode directly.
pub fn lookup_slot(thread: &TCB, cptr: usize, cnode: &CNode) -> (r: CapSlot)
    requires
        tcb_wf(*thread),
        cnode_wf(*cnode),
        cap_points_to_cnode(thread.slots@[TCB_CTABLE as int].cap, *cnode),
        cptr < ROOT_CNODE_SLOTS,
    ensures
        r == cnode.slots@[cptr as int],
{
    let thread_root = thread.tcb_cte_slot(TCB_CTABLE).cap;
    thread_root.cnode_slot_at(cnode, cptr)
}

/// Collects the extra capability slots a message names in its transfer
/// fields.
pub fn lookup_extra_caps(
    thread: &TCB,
    buffer: &IPCBuffer,
    info: MessageInfo,
    cnode: &CNode,
) -> (r: Vec<CapSlot>)
    requires
        tcb_wf(*thread),
        cnode_wf(*cnode),
        ipc_buffer_wf(*buffer),
        cap_points_to_cnode(thread.slots@[TCB_CTABLE as int].cap, *cnode),
        msg_extra_caps_spec(info) <= crate::config::SEL4_MSG_MAX_EXTRA_CAPS,
        forall|i: int|
            0 <= i < msg_extra_caps_spec(info) ==> (#[trigger] buffer.caps_or_badges@[i])
                < ROOT_CNODE_SLOTS,
    ensures
        r@.len() == msg_extra_caps_spec(info),
        forall|i: int|
            0 <= i < r@.len() ==> (#[trigger] r@[i]) == cnode.slots@[buffer.caps_or_badges@[i] as int],
{
    let n_extra_caps = info.extra_caps();
    let mut cur_extra_caps: Vec<CapSlot> = Vec::new();
    let mut i: usize = 0;
    while i < n_extra_caps as usize
        invariant
            i <= msg_extra_caps_spec(info),
            n_extra_caps == msg_extra_caps_spec(info),
            tcb_wf(*thread),
            cnode_wf(*cnode),
            ipc_buffer_wf(*buffer),
            cap_points_to_cnode(thread.slots@[TCB_CTABLE as int].cap, *cnode),
            msg_extra_caps_spec(info) <= crate::config::SEL4_MSG_MAX_EXTRA_CAPS,
            forall|k: int|
                0 <= k < msg_extra_caps_spec(info) ==> (#[trigger] buffer.caps_or_badges@[k])
                    < ROOT_CNODE_SLOTS,
            cur_extra_caps@.len() == i,
            forall|k: int|
                0 <= k < i ==> (#[trigger] cur_extra_caps@[k])
                    == cnode.slots@[buffer.caps_or_badges@[k] as int],
        decreases msg_extra_caps_spec(info) - i,
    {
        let cptr = buffer.caps_or_badges[i];
        let slot = lookup_slot(thread, cptr as usize, cnode);
        cur_extra_caps.push(slot);
        i = i + 1;
    }
    cur_extra_caps
}

/// The conditions under which a CNode-copy invocation can be decoded and
/// carried out: the argument indices are in range and the destination slot
/// is empty (the boot-time capability space never overwrites a live
/// capability).
pub open spec fn cnode_copy_pre(
    buffer: IPCBuffer,
    thread: crate::thread::TCBInner,
    extra_caps: Seq<CapSlot>,
    cnode: CNode,
) -> bool {
    let dest_index = syscall_arg_spec(0, buffer, thread);
    let src_index = syscall_arg_spec(2, buffer, thread);
    &&& extra_caps.len() >= 1
    &&& cap_tag_supported(extra_caps[0].cap)
    &&& (get_info_spec(extra_caps[0].cap) matches CapInfo::CnodeCap { ptr } && ptr == cnode.base)
    &&& dest_index < ROOT_CNODE_SLOTS
    &&& src_index < ROOT_CNODE_SLOTS
    &&& crate::cap::slot_is_empty(cnode.slots@[dest_index as int])
}

/// What invoking a CNode capability does to the CNode and what error comes
/// back: an unknown label is an illegal operation, a short message is
/// truncated, and a copy duplicates the source slot's capability into the
/// (previously empty) destination slot.
pub open spec fn cnode_invocation_post(
    inv_label: u64,
    length: u64,
    buffer: IPCBuffer,
    thread: crate::thread::TCBInner,
    old_slots: Seq<CapSlot>,
    new_slots: Seq<CapSlot>,
    ret: SyscallError,
) -> bool {
    if inv_label != LABEL_CNODE_COPY {
        ret.error_type == SEL4_ILLEGAL_OPERATION && new_slots == old_slots
    } else if length < 5 {
        ret.error_type == SEL4_TRUNCATED_MESSAGE && new_slots == old_slots
    } else {
        let dest_index = syscall_arg_spec(0, buffer, thread);
        let src_index = syscall_arg_spec(2, buffer, thread);
        &&& ret.error_type == SEL4_NO_ERROR
        &&& new_slots[dest_index as int].cap == old_slots[src_index as int].cap
        &&& forall|j: int|
            0 <= j < ROOT_CNODE_SLOTS && j != dest_index ==> new_slots[j] == old_slots[j]
    }
}

/// Decodes a CNode invocation.  Only the copy operation is implemented: a
/// message shorter than five words is rejected as truncated; any other label
/// is rejected as an illegal operation; otherwise the source slot's
/// capability is copied into the destination slot.
pub fn decode_cnode_invocation(
    inv_label: u64,
    length: u64,
    dest_cap: Capability,
    buffer: &IPCBuffer,
    thread: &crate::thread::TCBInner,
    extra_caps: &Vec<CapSlot>,
    cnode: &mut CNode,
) -> (ret: SyscallError)
    requires
        ipc_buffer_wf(*buffer),
        crate::thread::tcb_inner_wf(*thread),
        cnode_wf(*old(cnode)),
        cap_points_to_cnode(dest_cap, *old(cnode)),
        inv_label == LABEL_CNODE_COPY && length >= 5 ==> cnode_copy_pre(
            *buffer,
            *thread,
            extra_caps@,
            *old(cnode),
        ),
    ensures
        cnode_wf(*final (cnode)),
        final (cnode).base == old(cnode).base,
        cnode_invocation_post(
            inv_label,
            length,
            *buffer,
            *thread,
            old(cnode).slots@,
            final (cnode).slots@,
            ret,
        ),
{
    let mut ret = SyscallError::new();

    if inv_label != LABEL_CNODE_COPY {
        // Only the copy invocation is implemented.
        ret.error_type = SEL4_ILLEGAL_OPERATION;
        return ret;
    }
    if length < 5 {
        // Truncated message for the copy operation.
        ret.error_type = SEL4_TRUNCATED_MESSAGE;
        return ret;
    }

    let dest_index = get_syscall_arg(0, buffer, thread);
    let dest_depth = get_syscall_arg(1, buffer, thread);
    let src_index = get_syscall_arg(2, buffer, thread);
    let src_depth = get_syscall_arg(3, buffer, thread);
    let cap_rights = get_syscall_arg(4, buffer, thread);

    let src_root = extra_caps[0].cap;
    let src_slot = src_root.cnode_slot_at(cnode, src_index as usize);

    let src_cap = src_slot.cap;
    let new_cap = derive_cap(src_cap);

    let mut dest_slot = dest_cap.cnode_slot_at(cnode, dest_index as usize);
    cte_insert(new_cap, &src_slot, &mut dest_slot);
    // Write the updated destination slot back into the CNode.
    cnode.slots.set(dest_index as usize, dest_slot);
    ret
}

/// Decodes an invocation of the capability in `slot`.  A null capability is
/// rejected; a CNode capability dispatches to the CNode decoder; any other
/// object type is not implemented and rejected as an illegal operation.
pub fn decode_invocation(
    inv_label: u64,
    length: u64,
    cap_index: u64,
    slot: &CapSlot,
    is_blocking: bool,
    is_call: bool,
    buffer: &IPCBuffer,
    thread: &crate::thread::TCBInner,
    extra_caps: &Vec<CapSlot>,
    cnode: &mut CNode,
) -> (ret: SyscallError)
    requires
        ipc_buffer_wf(*buffer),
        crate::thread::tcb_inner_wf(*thread),
        cnode_wf(*old(cnode)),
        cap_tag_supported(slot.cap),
        get_info_spec(slot.cap) matches CapInfo::CnodeCap { .. } ==> cap_points_to_cnode(
            slot.cap,
            *old(cnode),
        ),
        (get_info_spec(slot.cap) matches CapInfo::CnodeCap { .. } && inv_label
            == LABEL_CNODE_COPY && length >= 5) ==> cnode_copy_pre(
            *buffer,
            *thread,
            extra_caps@,
            *old(cnode),
        ),
    ensures
        cnode_wf(*final (cnode)),
        final (cnode).base == old(cnode).base,
        cap_is_null(slot.cap) ==> ret.error_type == SEL4_INVALID_CAPABILITY && final (cnode).slots@
            == old(cnode).slots@,
        !cap_is_null(slot.cap) && !(get_info_spec(slot.cap) matches CapInfo::CnodeCap { .. })
            ==> ret.error_type == SEL4_ILLEGAL_OPERATION
            && final (cnode).slots@ == old(cnode).slots@,
        get_info_spec(slot.cap) matches CapInfo::CnodeCap { .. } ==> cnode_invocation_post(
            inv_label,
            length,
            *buffer,
            *thread,
            old(cnode).slots@,
            final (cnode).slots@,
            ret,
        ),
{
    let cap = slot.cap;
    let mut ret = SyscallError::new();
    match cap.get_info() {
        CapInfo::NullCap => {
            // Attempted to invoke a null capability.
            ret.error_type = SEL4_INVALID_CAPABILITY;
            ret
        },
        CapInfo::CnodeCap { .. } => {
            decode_cnode_invocation(inv_label, length, cap, buffer, thread, extra_caps, cnode)
        },
        _ => {
            // Invocations of other object types are not implemented.
            ret.error_type = SEL4_ILLEGAL_OPERATION;
            ret
        },
    }
}

/// Writes the empty success reply into a thread's message registers.
pub fn reply_from_kernel_susccess_empty(thread: ThreadPointer, threads: &mut Vec<TCB>)
    requires
        crate::thread::resolvable(old(threads)@, thread),
        forall|i: int| 0 <= i < old(threads)@.len() ==> tcb_wf(#[trigger] old(threads)@[i]),
    ensures
        final (threads)@.len() == old(threads)@.len(),
        forall|i: int|
            crate::thread::resolves_to(old(threads)@, thread, i) ==> final (threads)@[i].inner.registers@
                == old(threads)@[i].inner.registers@.update(9, 0u64).update(
                10,
                0u64,
            ) && final (threads)@[i].base == old(threads)@[i].base && forall|j: int|
                0 <= j < old(threads)@.len() && j != i ==> final (threads)@[j] == old(threads)@[j],
{
    let idx = match crate::thread::find_thread(threads, thread) {
        Option::Some(i) => i,
        Option::None => {
            proof {
                let w = choose|i: int| crate::thread::resolves_to(old(threads)@, thread, i);
                assert(crate::thread::tcb_contains(old(threads)@[w], thread));
                assert(false);
            }
            return ;
        },
    };
    proof {
        assert forall|j: int|
            crate::thread::resolves_to(old(threads)@, thread, j) implies j == idx as int by {}
    }
    let tag = MessageInfo::new(0, 0, 0, 0);
    let mut t = threads.remove(idx);
    let a0 = crate::registers::Rv64Reg::A0.index();
    t.inner.registers.set(a0, 0);
    let a1 = crate::registers::Rv64Reg::A1.index();
    t.inner.registers.set(a1, tag.0);
    proof {
        assert(tag.0 == 0) by {
            assert((0u64 << 12 | 0u64 << 9 | 0u64 << 7 | 0u64) == 0) by (bit_vector);
        }
    }
    threads.insert(idx, t);
    proof {
        assert(final (threads)@ =~= old(threads)@.update(idx as int, final (threads)@[idx as int]));
    }
}

/// Whether a syscall number selects a basic (object-invocation) syscall;
/// numbers outside the range are debug syscalls handled by the console.
pub fn syscall_is_basic(syscall: i64) -> (r: bool)
    ensures
        r == (BASIC_SYSCALL_MIN <= syscall <= BASIC_SYSCALL_MAX),
{
    syscall >= BASIC_SYSCALL_MIN && syscall <= BASIC_SYSCALL_MAX
}

/// Handles one object invocation of the current thread: resolves the invoked
/// slot, collects the extra capabilities, and decodes the invocation.
pub fn handle_invocation(
    cptr: usize,
    msg_info: u64,
    is_call: bool,
    is_blocking: bool,
    buffer: &IPCBuffer,
    cur_thread: &TCB,
    cnode: &mut CNode,
) -> (ret: SyscallError)
    requires
        ipc_buffer_wf(*buffer),
        tcb_wf(*cur_thread),
        cnode_wf(*old(cnode)),
        cap_points_to_cnode(cur_thread.slots@[TCB_CTABLE as int].cap, *old(cnode)),
        cptr < ROOT_CNODE_SLOTS,
        msg_extra_caps_spec(MessageInfo(msg_info)) <= crate::config::SEL4_MSG_MAX_EXTRA_CAPS,
        forall|i: int|
            0 <= i < msg_extra_caps_spec(MessageInfo(msg_info)) ==> (
            #[trigger] buffer.caps_or_badges@[i]) < ROOT_CNODE_SLOTS,
        cap_tag_supported(old(cnode).slots@[cptr as int].cap),
        get_info_spec(old(cnode).slots@[cptr as int].cap) matches CapInfo::CnodeCap { .. }
            ==> cap_points_to_cnode(old(cnode).slots@[cptr as int].cap, *old(cnode)),
        (get_info_spec(old(cnode).slots@[cptr as int].cap) matches CapInfo::CnodeCap { .. }
            && msg_label_spec(MessageInfo(msg_info)) == LABEL_CNODE_COPY && msg_length_spec(
            MessageInfo(msg_info),
        ) >= 5) ==> {
            let dest_index = syscall_arg_spec(0, *buffer, cur_thread.inner);
            let src_index = syscall_arg_spec(2, *buffer, cur_thread.inner);
            &&& msg_extra_caps_spec(MessageInfo(msg_info)) >= 1
            &&& cap_tag_supported(
                old(cnode).slots@[buffer.caps_or_badges@[0] as int].cap,
            )
            &&& (get_info_spec(old(cnode).slots@[buffer.caps_or_badges@[0] as int].cap)
                matches CapInfo::CnodeCap { ptr } && ptr == old(cnode).base)
            &&& dest_index < ROOT_CNODE_SLOTS
            &&& src_index < ROOT_CNODE_SLOTS
            &&& crate::cap::slot_is_empty(old(cnode).slots@[dest_index as int])
        },
    ensures
        cnode_wf(*final (cnode)),
        final (cnode).base == old(cnode).base,
        ({
            let cap = old(cnode).slots@[cptr as int].cap;
            &&& (cap_is_null(cap) ==> ret.error_type == SEL4_INVALID_CAPABILITY
                && final (cnode).slots@ == old(cnode).slots@)
            &&& (!cap_is_null(cap) && !(get_info_spec(cap) matches CapInfo::CnodeCap { .. })
                ==> ret.error_type == SEL4_ILLEGAL_OPERATION
                && final (cnode).slots@ == old(cnode).slots@)
            &&& (get_info_spec(cap) matches CapInfo::CnodeCap { .. } ==> cnode_invocation_post(
                msg_label_spec(MessageInfo(msg_info)),
                msg_length_spec(MessageInfo(msg_info)),
                *buffer,
                cur_thread.inner,
                old(cnode).slots@,
                final (cnode).slots@,
                ret,
            ))
        }),
{
    let lu_slot = lookup_slot(cur_thread, cptr, cnode);
    let info = MessageInfo(msg_info);
    let extra_caps = lookup_extra_caps(cur_thread, buffer, info, cnode);
    let status = decode_invocation(
        info.label(),
        info.length(),
        cptr as u64,
        &lu_slot,
        is_blocking,
        is_call,
        buffer,
        &cur_thread.inner,
        &extra_caps,
        cnode,
    );
    status
}

/// Handles one basic syscall of the current thread.  Only the call syscall
/// is implemented; the others are rejected as illegal operations.
pub fn handle_basic_syscall(
    cptr: usize,
    msg_info: u64,
    syscall: i64,
    buffer: &IPCBuffer,
    cur_thread: &TCB,
    cnode: &mut CNode,
) -> (ret: SyscallError)
    requires
        ipc_buffer_wf(*buffer),
        tcb_wf(*cur_thread),
        cnode_wf(*old(cnode)),
        cap_points_to_cnode(cur_thread.slots@[TCB_CTABLE as int].cap, *old(cnode)),
        cptr < ROOT_CNODE_SLOTS,
        msg_extra_caps_spec(MessageInfo(msg_info)) <= crate::config::SEL4_MSG_MAX_EXTRA_CAPS,
        forall|i: int|
            0 <= i < msg_extra_caps_spec(MessageInfo(msg_info)) ==> (
            #[trigger] buffer.caps_or_badges@[i]) < ROOT_CNODE_SLOTS,
        cap_tag_supported(old(cnode).slots@[cptr as int].cap),
        get_info_spec(old(cnode).slots@[cptr as int].cap) matches CapInfo::CnodeCap { .. }
            ==> cap_points_to_cnode(old(cnode).slots@[cptr as int].cap, *old(cnode)),
        (get_info_spec(old(cnode).slots@[cptr as int].cap) matches CapInfo::CnodeCap { .. }
            && msg_label_spec(MessageInfo(msg_info)) == LABEL_CNODE_COPY && msg_length_spec(
            MessageInfo(msg_info),
        ) >= 5) ==> {
            let dest_index = syscall_arg_spec(0, *buffer, cur_thread.inner);
            let src_index = syscall_arg_spec(2, *buffer, cur_thread.inner);
            &&& msg_extra_caps_spec(MessageInfo(msg_info)) >= 1
            &&& cap_tag_supported(
                old(cnode).slots@[buffer.caps_or_badges@[0] as int].cap,
            )
            &&& (get_info_spec(old(cnode).slots@[buffer.caps_or_badges@[0] as int].cap)
                matches CapInfo::CnodeCap { ptr } && ptr == old(cnode).base)
            &&& dest_index < ROOT_CNODE_SLOTS
            &&& src_index < ROOT_CNODE_SLOTS
            &&& crate::cap::slot_is_empty(old(cnode).slots@[dest_index as int])
        },
    ensures
        cnode_wf(*final (cnode)),
        final (cnode).base == old(cnode).base,
        syscall != SYSCALL_CALL ==> ret.error_type == SEL4_ILLEGAL_OPERATION
            && final (cnode).slots@ == old(cnode).slots@,
        syscall == SYSCALL_CALL ==> ({
            let cap = old(cnode).slots@[cptr as int].cap;
            &&& (cap_is_null(cap) ==> ret.error_type == SEL4_INVALID_CAPABILITY
                && final (cnode).slots@ == old(cnode).slots@)
            &&& (!cap_is_null(cap) && !(get_info_spec(cap) matches CapInfo::CnodeCap { .. })
                ==> ret.error_type == SEL4_ILLEGAL_OPERATION
                && final (cnode).slots@ == old(cnode).slots@)
            &&& (get_info_spec(cap) matches CapInfo::CnodeCap { .. } ==> cnode_invocation_post(
                msg_label_spec(MessageInfo(msg_info)),
                msg_length_spec(MessageInfo(msg_info)),
                *buffer,
                cur_thread.inner,
                old(cnode).slots@,
                final (cnode).slots@,
                ret,
            ))
        }),
{
    if syscall == SYSCALL_CALL {
        handle_invocation(cptr, msg_info, true, true, buffer, cur_thread, cnode)
    } else {
        // Other basic syscalls are not implemented.
        let mut ret = SyscallError::new();
        ret.error_type = SEL4_ILLEGAL_OPERATION;
        ret
    }
}

} // verus!
