//! Message tags, the IPC buffer, the syscall error record, and the
//! user-side marshaling of the one implemented invocation.

use crate::config::{
    LABEL_CNODE_COPY, SEL4_MSG_MAX_EXTRA_CAPS, SEL4_MSG_MAX_LENGTH, SEL4_NO_ERROR,
};
use vstd::prelude::*;

verus! {

/// A message tag: the invocation label, how many capabilities were
/// unwrapped, how many extra capabilities follow, and the message length,
/// packed into one word.
#[derive(Clone, Copy, Debug, PartialEq, Eq, Structural)]
pub struct MessageInfo(pub u64);

pub open spec fn msg_label_spec(m: MessageInfo) -> u64 {
    m.0 >> 12
}

pub open spec fn msg_caps_unwrapped_spec(m: MessageInfo) -> u64 {
    (m.0 >> 9) & 7
}

pub open spec fn msg_extra_caps_spec(m: MessageInfo) -> u64 {
    (m.0 >> 7) & 3
}

pub open spec fn msg_length_spec(m: MessageInfo) -> u64 {
    m.0 & 0x7f
}

impl MessageInfo {
    /// Packs the four fields of a message tag.
    pub fn new(label: u64, caps_unwrapped: u64, extra_caps: u64, length: u64) -> (r: MessageInfo)
        requires
            label < 0x10000000000000,
            caps_unwrapped < 8,
            extra_caps < 4,
            length < 128,
        ensures
            r.0 == label << 12 | caps_unwrapped << 9 | extra_caps << 7 | length,
            msg_label_spec(r) == label,
            msg_caps_unwrapped_spec(r) == caps_unwrapped,
            msg_extra_caps_spec(r) == extra_caps,
            msg_length_spec(r) == length,
    {
        let r = MessageInfo(label << 12 | caps_unwrapped << 9 | extra_caps << 7 | length);
        proof {
            let l = label;
            let c = caps_unwrapped;
            let e = extra_caps;
            let n = length;
            let w = l << 12 | c << 9 | e << 7 | n;
            assert(w >> 12 == l && (w >> 9) & 7 == c && (w >> 7) & 3 == e && w & 0x7f
                == n) by (bit_vector)
                requires
                    w == l << 12 | c << 9 | e << 7 | n,
                    l < 0x10000000000000,
                    c < 8,
                    e < 4,
                    n < 128,
            ;
        }
        r
    }

    pub fn label(&self) -> (r: u64)
        ensures
            r == msg_label_spec(*self),
    {
        self.0 >> 12
    }

    pub fn caps_unwrapped(&self) -> (r: u64)
        ensures
            r == msg_caps_unwrapped_spec(*self),
    {
        (self.0 >> 9) & 7
    }

    pub fn extra_caps(&self) -> (r: u64)
        ensures
            r == msg_extra_caps_spec(*self),
    {
        (self.0 >> 7) & 3
    }

    pub fn length(&self) -> (r: u64)
        ensures
            r == msg_length_spec(*self),
    {
        self.0 & 0x7f
    }
}

/// A thread's IPC buffer: the message tag, the message registers, and the
/// capability transfer fields.
#[derive(Debug)]
pub struct IPCBuffer {
    pub tag: MessageInfo,
    pub msg: Vec<u64>,
    pub user_data: u64,
    pub caps_or_badges: Vec<u64>,
    pub receive_cnode: u64,
    pub receive_index: u64,
    pub receive_depth: u64,
}

/// An IPC buffer carries the full complement of message registers and
/// capability slots.
pub open spec fn ipc_buffer_wf(b: IPCBuffer) -> bool {
    b.msg.len() == SEL4_MSG_MAX_LENGTH && b.caps_or_badges.len() == SEL4_MSG_MAX_EXTRA_CAPS
}

impl IPCBuffer {
    /// An all-zero IPC buffer.
    pub fn new_empty() -> (r: IPCBuffer)
        ensures
            ipc_buffer_wf(r),
            forall|i: int| 0 <= i < SEL4_MSG_MAX_LENGTH ==> (#[trigger] r.msg@[i]) == 0,
            forall|i: int| 0 <= i < SEL4_MSG_MAX_EXTRA_CAPS ==> (#[trigger] r.caps_or_badges@[i])
                == 0,
    {
        let mut msg: Vec<u64> = Vec::new();
        let mut i: usize = 0;
        while i < SEL4_MSG_MAX_LENGTH
            invariant
                i <= SEL4_MSG_MAX_LENGTH,
                msg@.len() == i,
                forall|k: int| 0 <= k < i ==> (#[trigger] msg@[k]) == 0,
            decreases SEL4_MSG_MAX_LENGTH - i,
        {
            msg.push(0);
            i = i + 1;
        }
        let mut caps_or_badges: Vec<u64> = Vec::new();
        let mut j: usize = 0;
        while j < SEL4_MSG_MAX_EXTRA_CAPS
            invariant
                j <= SEL4_MSG_MAX_EXTRA_CAPS,
                caps_or_badges@.len() == j,
                forall|k: int| 0 <= k < j ==> (#[trigger] caps_or_badges@[k]) == 0,
            decreases SEL4_MSG_MAX_EXTRA_CAPS - j,
        {
            caps_or_badges.push(0);
            j = j + 1;
        }
        IPCBuffer {
            tag: MessageInfo(0),
            msg,
            user_data: 0,
            caps_or_badges,
            receive_cnode: 0,
            receive_index: 0,
            receive_depth: 0,
        }
    }
}

/// The error record a syscall returns to the invoking thread.
#[derive(Clone, Copy, Debug, PartialEq, Eq, Structural)]
pub struct SyscallError {
    pub error_type: u64,
}

impl SyscallError {
    /// The no-error value.
    pub fn new() -> (r: SyscallError)
        ensures
            r.error_type == SEL4_NO_ERROR,
    {
        SyscallError { error_type: SEL4_NO_ERROR }
    }
}

/// Writes an input capability pointer into the IPC buffer.
pub fn sel4_setcap(buffer: &mut IPCBuffer, i: usize, cptr: u64)
    requires
        ipc_buffer_wf(*old(buffer)),
        i < SEL4_MSG_MAX_EXTRA_CAPS,
    ensures
        ipc_buffer_wf(*final (buffer)),
        final (buffer).caps_or_badges@ == old(buffer).caps_or_badges@.update(i as int, cptr),
        final (buffer).msg == old(buffer).msg,
        final (buffer).tag == old(buffer).tag,
{
    buffer.caps_or_badges.set(i, cptr);
}

/// Writes a message register into the IPC buffer.
pub fn sel4_setmr(buffer: &mut IPCBuffer, i: usize, mr: u64)
    requires
        ipc_buffer_wf(*old(buffer)),
        i < SEL4_MSG_MAX_LENGTH,
    ensures
        ipc_buffer_wf(*final (buffer)),
        final (buffer).msg@ == old(buffer).msg@.update(i as int, mr),
        final (buffer).caps_or_badges == old(buffer).caps_or_badges,
        final (buffer).tag == old(buffer).tag,
{
    buffer.msg.set(i, mr);
}

/// Marshals a CNode-copy invocation into the IPC buffer: the source root
/// goes into the capability transfer slot, the rights word into message
/// register four, and the in-register arguments are returned with the tag
/// for the call itself, which the runtime performs.
pub fn sel4_cnode_copy(
    buffer: &mut IPCBuffer,
    dest_index: u64,
    dest_depth: u64,
    src_root: u64,
    src_index: u64,
    src_depth: u64,
    rights: u64,
) -> (r: (MessageInfo, u64, u64, u64, u64))
    requires
        ipc_buffer_wf(*old(buffer)),
    ensures
        ipc_buffer_wf(*final (buffer)),
        msg_label_spec(r.0) == LABEL_CNODE_COPY,
        msg_extra_caps_spec(r.0) == 1,
        msg_length_spec(r.0) == 5,
        final (buffer).caps_or_badges@ == old(buffer).caps_or_badges@.update(0, src_root),
        final (buffer).msg@ == old(buffer).msg@.update(4, rights),
        r.1 == dest_index,
        r.2 == dest_depth & 0xff,
        r.3 == src_index,
        r.4 == src_depth & 0xff,
{
    let tag = MessageInfo::new(LABEL_CNODE_COPY, 0, 1, 5);
    sel4_setcap(buffer, 0, src_root);
    let mr0 = dest_index;
    let mr1 = dest_depth & 0xff;
    let mr2 = src_index;
    let mr3 = src_depth & 0xff;
    sel4_setmr(buffer, 4, rights);
    (tag, mr0, mr1, mr2, mr3)
}

} // verus!
