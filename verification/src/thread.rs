//! Thread control blocks and the minimal boot-time scheduler.
//!
//! A TCB occupies a fixed block: the low half holds the thread's own
//! capability slots, the inner thread record sits at `TCB_OFFSET`.  The
//! scheduler state is an explicit record (the current thread, the idle
//! thread, and the pending action) handed from call to call, since the boot
//! path is strictly single-threaded.  Multi-thread scheduling paths that the
//! kernel does not implement surface as a not-yet-supported error.

use crate::addr::{Paddr, Vaddr};
use crate::cap::{cap_tag_supported, get_info_spec, slot_is_empty, CapInfo, CapSlot};
use crate::config::{SEL4_MIN_PRIO, TCB_CNODE_ENTRIES, TCB_OFFSET, TCB_VTABLE};
use crate::registers::{N_CONTEXT_REGISTERS, SSTATUS_SPIE};
use vstd::prelude::*;
use vstd::string::StrSliceExecFns;

verus! {

pub const THREAD_STATE_INACTIVE: u8 = 0;
pub const THREAD_STATE_RUNNING: u8 = 1;
pub const THREAD_STATE_RESTART: u8 = 2;
pub const THREAD_STATE_BLOCKED_ON_RECEIVE: u8 = 3;
pub const THREAD_STATE_BLOCKED_ON_SEND: u8 = 3;
pub const THREAD_STATE_BLOCKED_ON_REPLY: u8 = 4;
pub const THREAD_STATE_BLOCKED_ON_NOTIFICATION: u8 = 5;
pub const THREAD_STATE_RUNNING_VM: u8 = 6;
pub const THREAD_STATE_IDLE: u8 = 7;

/// A thread's run state.
#[derive(Clone, Copy, Debug, PartialEq, Eq, Structural)]
pub struct ThreadState {
    pub ts_type: u8,
}

/// A handle on a thread: the physical address of its control block.
#[derive(Clone, Copy, Debug, PartialEq, Eq, Structural)]
pub struct ThreadPointer(pub Paddr);

impl ThreadPointer {
    /// The null handle names no thread.
    pub fn is_null(&self) -> (r: bool)
        ensures
            r == (self.0.0 == 0),
    {
        self.0.0 == 0
    }
}

/// The control fields of a thread: its saved register context, run state,
/// priority, IPC-buffer address, display name, and its own address.
#[derive(Debug)]
pub struct TCBInner {
    pub name: String,
    pub registers: Vec<u64>,
    pub tcb_state: ThreadState,
    pub tcb_priority: u64,
    pub tcb_ipc_buffer: Vaddr,
    pub pptr: Paddr,
}

/// The inner record carries the full register file.
pub open spec fn tcb_inner_wf(t: TCBInner) -> bool {
    t.registers.len() == N_CONTEXT_REGISTERS
}

/// Whether a thread in this state can be scheduled.
pub open spec fn is_runnable_spec(t: TCBInner) -> bool {
    t.tcb_state.ts_type == THREAD_STATE_RUNNING || t.tcb_state.ts_type == THREAD_STATE_RESTART
}

impl TCBInner {
    /// An inactive thread record with a zeroed register file and the lowest
    /// priority.
    pub fn new_empty() -> (r: TCBInner)
        ensures
            tcb_inner_wf(r),
            r.tcb_state.ts_type == THREAD_STATE_INACTIVE,
            r.tcb_priority == SEL4_MIN_PRIO,
            r.tcb_ipc_buffer.0 == 0,
            r.pptr.0 == 0,
            r.name@.len() == 0,
            forall|i: int| 0 <= i < N_CONTEXT_REGISTERS ==> (#[trigger] r.registers@[i]) == 0,
    {
        let mut registers: Vec<u64> = Vec::new();
        let mut i: usize = 0;
        while i < N_CONTEXT_REGISTERS
            invariant
                i <= N_CONTEXT_REGISTERS,
                registers@.len() == i,
                forall|k: int| 0 <= k < i ==> (#[trigger] registers@[k]) == 0,
            decreases N_CONTEXT_REGISTERS - i,
        {
            registers.push(0);
            i = i + 1;
        }
        TCBInner {
            name: String::new(),
            registers,
            tcb_state: ThreadState { ts_type: THREAD_STATE_INACTIVE },
            tcb_priority: SEL4_MIN_PRIO,
            tcb_ipc_buffer: Vaddr(0),
            pptr: Paddr(0),
        }
    }

    /// Enables supervisor interrupts for the return to user mode.
    pub fn init_context(&mut self)
        requires
            tcb_inner_wf(*old(self)),
        ensures
            tcb_inner_wf(*final (self)),
            final (self).registers@ == old(self).registers@.update(32, SSTATUS_SPIE),
            final (self).tcb_state == old(self).tcb_state,
            final (self).tcb_priority == old(self).tcb_priority,
            final (self).tcb_ipc_buffer == old(self).tcb_ipc_buffer,
            final (self).pptr == old(self).pptr,
            final (self).name == old(self).name,
    {
        let idx = crate::registers::Rv64Reg::Sstatus.index();
        self.registers.set(idx, SSTATUS_SPIE);
    }

    /// Whether the thread can be scheduled.
    pub fn is_runnable(&self) -> (r: bool)
        ensures
            r == is_runnable_spec(*self),
    {
        self.tcb_state.ts_type == THREAD_STATE_RUNNING || self.tcb_state.ts_type
            == THREAD_STATE_RESTART
    }

    /// Whether two thread records are the same record (same address).
    pub fn ptr_eq(&self, another: &TCBInner) -> (r: bool)
        ensures
            r == (self.pptr == another.pptr),
    {
        self.pptr.0 == another.pptr.0
    }

    /// The handle naming this thread record.
    pub fn pointer(&self) -> (r: ThreadPointer)
        ensures
            r == ThreadPointer(self.pptr),
    {
        ThreadPointer(self.pptr)
    }

    /// Sets the thread's display name, truncated to forty characters.
    pub fn set_thread_name(&mut self, name: &str)
        ensures
            final (self).name@ == if name@.len() <= 40 {
                name@
            } else {
                name@.subrange(0, 40)
            },
            final (self).registers == old(self).registers,
            final (self).tcb_state == old(self).tcb_state,
            final (self).tcb_priority == old(self).tcb_priority,
            final (self).tcb_ipc_buffer == old(self).tcb_ipc_buffer,
            final (self).pptr == old(self).pptr,
    {
        let n = name.unicode_len();
        if n <= 40 {
            self.name = name.to_owned();
            proof {
                assert(final (self).name@ == name@);
            }
        } else {
            let truncated = name.substring_char(0, 40);
            self.name = truncated.to_owned();
        }
    }
}

/// One thread control block: its base address, its own capability slots in
/// the low half, and the thread record in the high half.
#[derive(Debug)]
pub struct TCB {
    pub base: Paddr,
    pub slots: Vec<CapSlot>,
    pub inner: TCBInner,
}

/// A TCB's block is aligned to its size, its slot table is full-sized, and
/// the inner record knows its own address at `TCB_OFFSET` into the block.
pub open spec fn tcb_wf(t: TCB) -> bool {
    &&& t.slots.len() == TCB_CNODE_ENTRIES
    &&& tcb_inner_wf(t.inner)
    &&& t.base.0 % 1024 == 0
    &&& 0 < t.base.0 < 0x8000000000
    &&& t.inner.pptr.0 == t.base.0 + TCB_OFFSET
}

impl TCB {
    /// A fresh, zeroed TCB block at the given base.
    pub fn new(base: Paddr) -> (r: TCB)
        requires
            base.0 % 1024 == 0,
            0 < base.0 < 0x8000000000 - 1024,
        ensures
            tcb_wf(r),
            r.base == base,
            r.inner.tcb_state.ts_type == THREAD_STATE_INACTIVE,
            r.inner.tcb_priority == SEL4_MIN_PRIO,
            forall|i: int| 0 <= i < TCB_CNODE_ENTRIES ==> slot_is_empty(#[trigger] r.slots@[i]),
    {
        let mut slots: Vec<CapSlot> = Vec::new();
        let mut i: usize = 0;
        while i < TCB_CNODE_ENTRIES
            invariant
                i <= TCB_CNODE_ENTRIES,
                slots@.len() == i,
                forall|k: int| 0 <= k < i ==> slot_is_empty(#[trigger] slots@[k]),
            decreases TCB_CNODE_ENTRIES - i,
        {
            slots.push(CapSlot::new_empty());
            i = i + 1;
        }
        let mut inner = TCBInner::new_empty();
        inner.pptr = Paddr(base.0 + TCB_OFFSET);
        TCB { base, slots, inner }
    }

    /// The block's own physical address.
    pub fn pptr(&self) -> (r: Paddr)
        ensures
            r == self.base,
    {
        self.base
    }

    /// The physical address of the inner thread record.
    pub fn inner_pptr(&self) -> (r: Paddr)
        requires
            self.base.0 + TCB_OFFSET <= u64::MAX,
        ensures
            r.0 == self.base.0 + TCB_OFFSET,
    {
        Paddr(self.base.0 + TCB_OFFSET)
    }

    /// Reads one of the thread's own capability slots.
    pub fn tcb_cte_slot(&self, index: usize) -> (r: CapSlot)
        requires
            tcb_wf(*self),
            index < TCB_CNODE_ENTRIES,
        ensures
            r == self.slots@[index as int],
    {
        self.slots[index]
    }

    /// Writes one of the thread's own capability slots.
    pub fn set_cte_slot(&mut self, index: usize, slot: CapSlot)
        requires
            tcb_wf(*old(self)),
            index < TCB_CNODE_ENTRIES,
        ensures
            tcb_wf(*final (self)),
            final (self).base == old(self).base,
            final (self).inner == old(self).inner,
            final (self).slots@ == old(self).slots@.update(index as int, slot),
    {
        self.slots.set(index, slot);
    }
}

/// What the scheduler has been asked to do next.
#[derive(Clone, Copy, Debug, PartialEq, Eq, Structural)]
pub enum SchedulerAction {
    ResumeCurrentThread,
    ChooseNewThread,
    SwitchToThread(ThreadPointer),
}

/// The scheduler's state: the pending action, the current thread, and the
/// idle thread.
#[derive(Clone, Copy, Debug, PartialEq, Eq, Structural)]
pub struct SchedState {
    pub ks_scheduler_action: SchedulerAction,
    pub ks_cur_thread: ThreadPointer,
    pub ks_idle_thread: ThreadPointer,
}

impl SchedState {
    /// The pre-boot scheduler state: resume, with no threads yet.
    pub fn new() -> (r: SchedState)
        ensures
            r.ks_scheduler_action == SchedulerAction::ResumeCurrentThread,
            r.ks_cur_thread.0.0 == 0,
            r.ks_idle_thread.0.0 == 0,
    {
        SchedState {
            ks_scheduler_action: SchedulerAction::ResumeCurrentThread,
            ks_cur_thread: ThreadPointer(Paddr(0)),
            ks_idle_thread: ThreadPointer(Paddr(0)),
        }
    }
}

/// A scheduling path the kernel does not implement was reached.
#[derive(Clone, Copy, Debug, PartialEq, Eq, Structural)]
pub enum KernelError {
    NotSupported,
}

/// The handle points into this TCB's block.
pub open spec fn tcb_contains(t: TCB, tp: ThreadPointer) -> bool {
    t.base.0 <= tp.0.0 < t.base.0 + 1024
}

/// A handle resolves to the thread whose block contains it.
pub open spec fn resolves_to(threads: Seq<TCB>, tp: ThreadPointer, i: int) -> bool {
    &&& 0 <= i < threads.len()
    &&& tcb_contains(threads[i], tp)
    &&& forall|j: int| 0 <= j < i ==> !tcb_contains(#[trigger] threads[j], tp)
}

/// A handle that resolves to some thread in the pool.
pub open spec fn resolvable(threads: Seq<TCB>, tp: ThreadPointer) -> bool {
    exists|i: int| resolves_to(threads, tp, i)
}

/// Finds the thread whose block contains the handle.
pub fn find_thread(threads: &Vec<TCB>, tp: ThreadPointer) -> (r: Option<usize>)
    ensures
        match r {
            Option::Some(i) => resolves_to(threads@, tp, i as int),
            Option::None => forall|j: int|
                0 <= j < threads@.len() ==> !tcb_contains(#[trigger] threads@[j], tp),
        },
{
    let n = threads.len();
    let mut i: usize = 0;
    while i < n
        invariant
            i <= n,
            n == threads@.len(),
            forall|j: int| 0 <= j < i ==> !tcb_contains(#[trigger] threads@[j], tp),
        decreases n - i,
    {
        if threads[i].base.0 <= tp.0.0 && tp.0.0 - threads[i].base.0 < 1024 {
            return Some(i);
        }
        i = i + 1;
    }
    None
}

/// Installs a thread's address space: reads the page-table capability from
/// the thread's VSpace slot and computes the translation-register value.
pub fn set_vm_root(tcb: &TCB, satp: &mut u64)
    requires
        tcb_wf(*tcb),
        cap_tag_supported(tcb.slots@[TCB_VTABLE as int].cap),
        get_info_spec(tcb.slots@[TCB_VTABLE as int].cap) matches CapInfo::PageTableCap {
            asid,
            ..
        } && asid <= 0xffff,
    ensures
        get_info_spec(tcb.slots@[TCB_VTABLE as int].cap) matches CapInfo::PageTableCap {
            pptr,
            asid,
            ..
        } && *final (satp) == asid << 44 | (8u64 << 60 | pptr.0 >> 12),
{
    let thread_root_cap = tcb.tcb_cte_slot(TCB_VTABLE).cap;
    match thread_root_cap.get_info() {
        CapInfo::PageTableCap { vptr, pptr, asid } => {
            *satp = asid << 44 | (8u64 << 60 | pptr.0 >> 12);
        },
        _ => vstd::pervasive::unreached(),
    }
}

/// Switches to a thread: installs its address space and makes it current.
pub fn switch_to_thread(
    tcb: ThreadPointer,
    sched: &mut SchedState,
    threads: &Vec<TCB>,
    satp: &mut u64,
)
    requires
        resolvable(threads@, tcb),
        forall|i: int| 0 <= i < threads@.len() ==> tcb_wf(#[trigger] threads@[i]),
        forall|i: int|
            resolves_to(threads@, tcb, i) ==> cap_tag_supported(
                (#[trigger] threads@[i]).slots@[TCB_VTABLE as int].cap,
            ) && (get_info_spec(threads@[i].slots@[TCB_VTABLE as int].cap)
                matches CapInfo::PageTableCap { asid, .. } && asid <= 0xffff),
    ensures
        final (sched).ks_cur_thread == tcb,
        final (sched).ks_idle_thread == old(sched).ks_idle_thread,
        final (sched).ks_scheduler_action == old(sched).ks_scheduler_action,
        forall|i: int|
            resolves_to(threads@, tcb, i) ==> (get_info_spec(
                (#[trigger] threads@[i]).slots@[TCB_VTABLE as int].cap,
            ) matches CapInfo::PageTableCap { pptr, asid, .. } && *final (satp) == asid << 44 | (
            8u64 << 60 | pptr.0 >> 12)),
{
    let idx = find_thread(threads, tcb);
    match idx {
        Option::Some(i) => {
            set_vm_root(&threads[i], satp);
            sched.ks_cur_thread = tcb;
            proof {
                assert forall|j: int| resolves_to(threads@, tcb, j) implies j == i as int by {}
            }
        },
        Option::None => {
            proof {
                let i = choose|i: int| resolves_to(threads@, tcb, i);
                assert(tcb_contains(threads@[i], tcb));
                assert(false);
            }
        },
    }
}


/// The index the handle resolves to.
pub open spec fn resolve_idx(threads: Seq<TCB>, tp: ThreadPointer) -> int {
    choose|i: int| resolves_to(threads, tp, i)
}

/// The fast-fail test of the scheduler: the current thread is the idle
/// thread and the switch target has a lower priority.
pub open spec fn sched_fastfail(
    threads: Seq<TCB>,
    cur: ThreadPointer,
    idle: ThreadPointer,
    target: ThreadPointer,
) -> bool {
    let ti = resolve_idx(threads, target);
    let ci = resolve_idx(threads, cur);
    cur.0.0 == idle.0.0 && threads[ti].inner.tcb_priority < threads[ci].inner.tcb_priority
}

/// The conditions under which a switch action can be carried out: current
/// and target threads resolve, the target is runnable, and its VSpace slot
/// holds a page-table capability.
pub open spec fn schedule_switch_pre(
    threads: Seq<TCB>,
    cur: ThreadPointer,
    idle: ThreadPointer,
    target: ThreadPointer,
) -> bool {
    &&& resolvable(threads, cur)
    &&& resolvable(threads, target)
    &&& idle.0.0 != 0
    &&& is_runnable_spec(threads[resolve_idx(threads, target)].inner)
    &&& cap_tag_supported(threads[resolve_idx(threads, target)].slots[TCB_VTABLE as int].cap)
    &&& (get_info_spec(threads[resolve_idx(threads, target)].slots[TCB_VTABLE as int].cap)
        matches CapInfo::PageTableCap { asid, .. } && asid <= 0xffff)
    &&& (!is_runnable_spec(threads[resolve_idx(threads, cur)].inner) && !sched_fastfail(
        threads,
        cur,
        idle,
        target,
    ) ==> target.0.0 != cur.0.0)
}

/// Runs one scheduler decision.  Resuming the current thread is a no-op;
/// switching installs the target's address space and makes it current;
/// choosing a new thread, enqueueing a runnable current thread, and the
/// fast-fail fallback are not implemented on the single-thread boot path and
/// surface as errors, leaving the state unchanged.
pub fn schedule(sched: &mut SchedState, threads: &Vec<TCB>, satp: &mut u64) -> (r: Result<
    (),
    KernelError,
>)
    requires
        forall|i: int| 0 <= i < threads@.len() ==> tcb_wf(#[trigger] threads@[i]),
        old(sched).ks_scheduler_action matches SchedulerAction::ChooseNewThread ==> resolvable(
            threads@,
            old(sched).ks_cur_thread,
        ),
        old(sched).ks_scheduler_action matches SchedulerAction::SwitchToThread(c)
            ==> schedule_switch_pre(
            threads@,
            old(sched).ks_cur_thread,
            old(sched).ks_idle_thread,
            c,
        ),
    ensures
        final (sched).ks_scheduler_action == SchedulerAction::ResumeCurrentThread || final (sched).ks_scheduler_action == old(sched).ks_scheduler_action,
        final (sched).ks_idle_thread == old(sched).ks_idle_thread,
        match old(sched).ks_scheduler_action {
            SchedulerAction::ResumeCurrentThread => r is Ok && *final (sched) == *old(sched)
                && *final (satp) == *old(satp),
            SchedulerAction::ChooseNewThread => r is Err && *final (sched) == *old(sched)
                && *final (satp) == *old(satp),
            SchedulerAction::SwitchToThread(c) => {
                let cur = old(sched).ks_cur_thread;
                let idle = old(sched).ks_idle_thread;
                if is_runnable_spec(threads@[resolve_idx(threads@, cur)].inner) || sched_fastfail(
                    threads@,
                    cur,
                    idle,
                    c,
                ) {
                    r is Err && *final (sched) == *old(sched) && *final (satp) == *old(satp)
                } else {
                    &&& r is Ok
                    &&& final (sched).ks_cur_thread == c
                    &&& final (sched).ks_scheduler_action
                        == SchedulerAction::ResumeCurrentThread
                    &&& (get_info_spec(
                        threads@[resolve_idx(threads@, c)].slots[TCB_VTABLE as int].cap,
                    ) matches CapInfo::PageTableCap { pptr, asid, .. } && *final (satp) == asid
                        << 44 | (8u64 << 60 | pptr.0 >> 12))
                }
            },
        },
{
    let action = sched.ks_scheduler_action;
    match action {
        SchedulerAction::ResumeCurrentThread => Ok(()),
        _ => {
            let cur_tp = sched.ks_cur_thread;
            let ci = match find_thread(threads, cur_tp) {
                Option::Some(ci) => ci,
                Option::None => {
                    proof {
                        let w = choose|i: int| resolves_to(threads@, cur_tp, i);
                        assert(tcb_contains(threads@[w], cur_tp));
                        assert(false);
                    }
                    return Err(KernelError::NotSupported);
                },
            };
            proof {
                assert forall|j: int| resolves_to(threads@, cur_tp, j) implies j == ci as int by {}
            }
            if threads[ci].inner.is_runnable() {
                // Enqueueing the current thread is multi-thread scheduling,
                // which this kernel does not implement.
                return Err(KernelError::NotSupported);
            }
            match action {
                SchedulerAction::ChooseNewThread => Err(KernelError::NotSupported),
                SchedulerAction::SwitchToThread(candidate) => {
                    let ti = match find_thread(threads, candidate) {
                        Option::Some(ti) => ti,
                        Option::None => {
                            proof {
                                let w = choose|i: int| resolves_to(threads@, candidate, i);
                                assert(tcb_contains(threads@[w], candidate));
                                assert(false);
                            }
                            return Err(KernelError::NotSupported);
                        },
                    };
                    proof {
                        assert forall|j: int|
                            resolves_to(threads@, candidate, j) implies j == ti as int by {}
                    }
                    // The target must be runnable: guaranteed by the caller.
                    let fastfail = cur_tp.0.0 == sched.ks_idle_thread.0.0
                        && threads[ti].inner.tcb_priority < threads[ci].inner.tcb_priority;
                    if fastfail {
                        // Falling back to choosing another thread is
                        // multi-thread scheduling, not implemented.
                        Err(KernelError::NotSupported)
                    } else {
                        switch_to_thread(candidate, sched, threads, satp);
                        sched.ks_scheduler_action = SchedulerAction::ResumeCurrentThread;
                        Ok(())
                    }
                },
                SchedulerAction::ResumeCurrentThread => {
                    proof {
                        assert(false);
                    }
                    Ok(())
                },
            }
        },
    }
}

/// Checks that the current thread may return to user mode: its state must be
/// the running state.  Restarting or any other state is not implemented.
pub fn activate_thread(sched: &SchedState, threads: &Vec<TCB>) -> (r: Result<(), KernelError>)
    requires
        resolvable(threads@, sched.ks_cur_thread),
    ensures
        r is Ok <==> threads@[resolve_idx(threads@, sched.ks_cur_thread)].inner.tcb_state.ts_type
            == THREAD_STATE_RUNNING,
{
    let ci = match find_thread(threads, sched.ks_cur_thread) {
        Option::Some(ci) => ci,
        Option::None => {
            proof {
                let w = choose|i: int| resolves_to(threads@, sched.ks_cur_thread, i);
                assert(tcb_contains(threads@[w], sched.ks_cur_thread));
                assert(false);
            }
            return Err(KernelError::NotSupported);
        },
    };
    proof {
        assert forall|j: int|
            resolves_to(threads@, sched.ks_cur_thread, j) implies j == ci as int by {}
    }
    if threads[ci].inner.tcb_state.ts_type == THREAD_STATE_RUNNING {
        Ok(())
    } else {
        Err(KernelError::NotSupported)
    }
}

impl TCBInner {
    /// Boot-path rescheduling check: a thread that is current, no longer
    /// runnable, and has no pending scheduler action would require a
    /// reschedule, which the boot path never needs.
    pub fn schedule_tcb(&self, sched: &SchedState, threads: &Vec<TCB>)
        requires
            !(sched.ks_cur_thread.0.0 == 0) ==> resolvable(threads@, sched.ks_cur_thread),
            !(sched.ks_cur_thread.0.0 == 0) ==> !(self.pptr == threads@[resolve_idx(
                threads@,
                sched.ks_cur_thread,
            )].inner.pptr && !is_runnable_spec(*self) && sched.ks_scheduler_action
                matches SchedulerAction::ResumeCurrentThread),
    {
        let cur_thread = sched.ks_cur_thread;
        if cur_thread.is_null() {
            return ;
        }
        let ci = match find_thread(threads, cur_thread) {
            Option::Some(ci) => ci,
            Option::None => {
                proof {
                    let w = choose|i: int| resolves_to(threads@, cur_thread, i);
                    assert(tcb_contains(threads@[w], cur_thread));
                    assert(false);
                }
                return ;
            },
        };
        proof {
            assert forall|j: int|
                resolves_to(threads@, cur_thread, j) implies j == ci as int by {}
        }
        if self.ptr_eq(&threads[ci].inner) && !self.is_runnable() {
            match sched.ks_scheduler_action {
                SchedulerAction::ResumeCurrentThread => {
                    proof {
                        assert(false);
                    }
                },
                _ => {},
            }
        }
    }

    /// Sets the thread's run state, then runs the rescheduling check.
    pub fn set_thread_state(&mut self, ts: u8, sched: &SchedState, threads: &Vec<TCB>)
        requires
            !(sched.ks_cur_thread.0.0 == 0) ==> resolvable(threads@, sched.ks_cur_thread),
            !(sched.ks_cur_thread.0.0 == 0) ==> !(old(self).pptr == threads@[resolve_idx(
                threads@,
                sched.ks_cur_thread,
            )].inner.pptr && !(ts == THREAD_STATE_RUNNING || ts == THREAD_STATE_RESTART)
                && sched.ks_scheduler_action matches SchedulerAction::ResumeCurrentThread),
        ensures
            final (self).tcb_state.ts_type == ts,
            final (self).registers == old(self).registers,
            final (self).tcb_priority == old(self).tcb_priority,
            final (self).tcb_ipc_buffer == old(self).tcb_ipc_buffer,
            final (self).pptr == old(self).pptr,
            final (self).name == old(self).name,
    {
        self.tcb_state.ts_type = ts;
        self.schedule_tcb(sched, threads);
    }
}

/// The physical base of the idle thread's control block, inside the kernel
/// image.
pub const IDLE_TCB_BASE: u64 = 0x84100000;

/// Creates the idle thread and records it in the scheduler state.
pub fn create_idle_thread(threads: &mut Vec<TCB>, sched: &mut SchedState) -> (r: bool)
    ensures
        r == true,
        final (threads)@.len() == old(threads)@.len() + 1,
        final (threads)@ == old(threads)@.push(final (threads)@.last()),
        tcb_wf(final (threads)@.last()),
        final (threads)@.last().base.0 == IDLE_TCB_BASE,
        final (threads)@.last().inner.tcb_state.ts_type == THREAD_STATE_INACTIVE,
        final (threads)@.last().inner.tcb_priority == SEL4_MIN_PRIO,
        final (sched).ks_idle_thread == ThreadPointer(Paddr(IDLE_TCB_BASE)),
        final (sched).ks_cur_thread == old(sched).ks_cur_thread,
        final (sched).ks_scheduler_action == old(sched).ks_scheduler_action,
{
    let idle = TCB::new(Paddr(IDLE_TCB_BASE));
    sched.ks_idle_thread = ThreadPointer(idle.pptr());
    threads.push(idle);
    true
}

/// Seeds the scheduler for the hand-off to user mode: the pending action is
/// to switch to the initial thread, and the idle thread is current.
pub fn init_core_state(scheduler_action: ThreadPointer, sched: &mut SchedState)
    ensures
        final (sched).ks_scheduler_action == SchedulerAction::SwitchToThread(scheduler_action),
        final (sched).ks_cur_thread == old(sched).ks_idle_thread,
        final (sched).ks_idle_thread == old(sched).ks_idle_thread,
{
    sched.ks_scheduler_action = SchedulerAction::SwitchToThread(scheduler_action);
    sched.ks_cur_thread = sched.ks_idle_thread;
}

} // verus!
