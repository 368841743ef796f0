//! Rootserver object sizing and placement: how many bytes the boot-time
//! kernel objects need, and the fixed layout they get inside the placed
//! block.
//!
//! The whole bundle is allocated from one block aligned to the largest
//! size class among the objects; within the block the objects are laid out
//! low to high in a fixed order (CNode, VSpace, ASID pool, IPC buffer,
//! boot-info frame, paging structures, TCB), and the block is consumed
//! exactly: the last allocation ends at the block's end.

use crate::addr::{Paddr, Pregion, Vregion};
use crate::bits::{aligned, align_down, align_up, bit64, lemma_aligned_add, lemma_aligned_weaken, round_down, round_up};
use crate::config::{
    BI_FRAME_SIZE_BITS, CONFIG_ROOT_CNODE_SIZE_BITS, SEL4_ASID_POOL_BITS, SEL4_PAGE_BITS,
    SEL4_PAGE_TABLE_BITS, SEL4_SLOT_BITS, SEL4_TCB_BITS, SEL4_VSPACE_BITS,
};
use vstd::arithmetic::div_mod::{lemma_div_is_ordered, lemma_mod_multiples_basic};
use vstd::arithmetic::power2::{lemma2_to64, lemma2_to64_rest, lemma_pow2_pos, pow2};
use vstd::prelude::*;

verus! {

/// The number of paging structures of one level needed to cover `v` with
/// pages of `pow2(bits)` bytes.
pub open spec fn n_paging_spec(v: Vregion, bits: nat) -> int {
    (align_up(v.end.0 as int, bits) - align_down(v.start.0 as int, bits)) / (pow2(bits) as int)
}

/// The total number of non-top-level paging structures needed to cover the
/// initial thread's virtual region: one level of 1 GiB reach and one level
/// of 2 MiB reach.
pub open spec fn riscv_n_paging_spec(v: Vregion) -> int {
    n_paging_spec(v, 30) + n_paging_spec(v, 21)
}

/// The number of bytes all rootserver objects need together: the root CNode,
/// the initial TCB, the IPC-buffer page, the boot-info page, the ASID pool,
/// the VSpace root, and one page per paging structure.
pub open spec fn rootserver_size_spec(v: Vregion) -> int {
    pow2(18) + pow2(10) + pow2(12) + pow2(12) + pow2(12) + pow2(12) + riscv_n_paging_spec(v) * pow2(
        12,
    )
}

/// The largest size class among the rootserver objects; the placed block is
/// aligned to it.  With no extra boot info this is the root CNode's class.
pub open spec fn rootserver_max_bits_spec(extra_bi_size_bits: u64) -> int {
    let cnode_bits = CONFIG_ROOT_CNODE_SIZE_BITS + SEL4_SLOT_BITS;
    if cnode_bits > SEL4_VSPACE_BITS {
        if extra_bi_size_bits > cnode_bits {
            extra_bi_size_bits as int
        } else {
            cnode_bits
        }
    } else {
        if extra_bi_size_bits > SEL4_VSPACE_BITS {
            extra_bi_size_bits as int
        } else {
            SEL4_VSPACE_BITS as int
        }
    }
}

/// The physical addresses assigned to each rootserver object.
#[derive(Clone, Copy, Debug, PartialEq, Eq, Structural)]
pub struct RootServer {
    pub cnode: Paddr,
    pub vspace: Paddr,
    pub asid_pool: Paddr,
    pub ipc_buf: Paddr,
    pub boot_info: Paddr,
    pub extra_bi: Paddr,
    pub tcb: Paddr,
    pub paging: Pregion,
}

/// The fixed layout of the rootserver objects inside the block starting at
/// `s0`, with `n` paging structures.
pub open spec fn rootserver_layout(rs: RootServer, s0: int, n: int) -> bool {
    &&& rs.cnode.0 == s0
    &&& rs.vspace.0 == s0 + pow2(18)
    &&& rs.asid_pool.0 == s0 + pow2(18) + pow2(12)
    &&& rs.ipc_buf.0 == s0 + pow2(18) + 2 * pow2(12)
    &&& rs.boot_info.0 == s0 + pow2(18) + 3 * pow2(12)
    &&& rs.paging.start.0 == s0 + pow2(18) + 4 * pow2(12)
    &&& rs.paging.end.0 == s0 + pow2(18) + 4 * pow2(12) + n * pow2(12)
    &&& rs.tcb.0 == s0 + pow2(18) + 4 * pow2(12) + n * pow2(12)
    &&& rs.extra_bi.0 == 0
}

/// The number of `pow2(bits)`-sized pages needed to cover `v`.
pub fn get_n_paging(v: Vregion, bits: u64) -> (r: u64)
    requires
        v.start.0 <= v.end.0,
        v.end.0 < 0x8000000000,
        20 <= bits <= 30,
    ensures
        r == n_paging_spec(v, bits as nat),
        r * pow2(bits as nat) < 0x8000000000 + pow2(bits as nat),
{
    proof {
        lemma2_to64();
        if bits < 30 {
            vstd::arithmetic::power2::lemma_pow2_strictly_increases(bits as nat, 30);
        }
    }
    let start = round_down(v.start.0, bits);
    let end = round_up(v.end.0, bits);
    proof {
        lemma_pow2_pos(bits as nat);
        let p = pow2(bits as nat) as int;
        lemma_div_is_ordered(0, (end - start) as int, p);
        vstd::arithmetic::div_mod::lemma_fundamental_div_mod((end - start) as int, p);
        vstd::arithmetic::div_mod::lemma_mod_bound((end - start) as int, p);
        assert(((end - start) as int / p) * p <= (end - start) as int);
    }
    (end - start) / bit64(bits)
}

/// The total number of paging structures needed to cover the initial
/// thread's virtual region at the two non-root levels of the walk.
pub fn riscv_get_n_paging(it_v_reg: Vregion) -> (r: u64)
    requires
        it_v_reg.start.0 <= it_v_reg.end.0,
        it_v_reg.end.0 < 0x8000000000,
    ensures
        r == riscv_n_paging_spec(it_v_reg),
        r < 0x8000000,
    {
    let n0 = get_n_paging(it_v_reg, 30);
    let n1 = get_n_paging(it_v_reg, 21);
    proof {
        lemma2_to64();
        lemma2_to64_rest();
        assert(n0 * pow2(30) < 0x8000000000 + pow2(30));
        assert(n1 * pow2(21) < 0x8000000000 + pow2(21));
        assert(n0 < 0x201) by (nonlinear_arith)
            requires
                n0 * 0x40000000 < 0x8000000000 + 0x40000000,
        ;
        assert(n1 < 0x400001) by (nonlinear_arith)
            requires
                n1 * 0x200000 < 0x8000000000 + 0x200000,
        ;
    }
    n0 + n1
}

/// The largest size class among the rootserver objects.
pub fn rootserver_max_size_bits(extra_bi_size_bits: u64) -> (r: u64)
    ensures
        r == rootserver_max_bits_spec(extra_bi_size_bits),
{
    let cnode_size_bits = CONFIG_ROOT_CNODE_SIZE_BITS + SEL4_SLOT_BITS;
    let max = if SEL4_VSPACE_BITS > cnode_size_bits {
        SEL4_VSPACE_BITS
    } else {
        cnode_size_bits
    };
    if extra_bi_size_bits > max {
        extra_bi_size_bits
    } else {
        max
    }
}

/// How much memory the rootserver objects need for the given initial-thread
/// virtual region.
pub fn calculate_rootserver_size(it_v_reg: Vregion, extra_bi_size_bits: u64) -> (r: u64)
    requires
        it_v_reg.start.0 <= it_v_reg.end.0,
        it_v_reg.end.0 < 0x8000000000,
        extra_bi_size_bits == 0,
    ensures
        r == rootserver_size_spec(it_v_reg),
        r < 0x10000000000,
        r >= pow2(18),
{
    proof {
        lemma2_to64();
    }
    let mut size: u64 = bit64(CONFIG_ROOT_CNODE_SIZE_BITS + SEL4_SLOT_BITS);
    size = size + bit64(SEL4_TCB_BITS);  // root thread tcb
    size = size + bit64(SEL4_PAGE_BITS);  // ipc buf
    size = size + bit64(BI_FRAME_SIZE_BITS);  // boot info
    size = size + bit64(SEL4_ASID_POOL_BITS);
    size = size + bit64(SEL4_VSPACE_BITS);  // root vspace
    let n = riscv_get_n_paging(it_v_reg);
    proof {
        lemma2_to64();
        assert(n * pow2(12) < 0x8000000 * 0x1000) by (nonlinear_arith)
            requires
                n < 0x8000000,
                n >= 0,
                pow2(12) == 0x1000,
        ;
        assert(riscv_n_paging_spec(it_v_reg) * pow2(12) == n * pow2(12));
    }
    size + n * bit64(SEL4_PAGE_TABLE_BITS)
}

/// Extra boot-info regions are not supported in this configuration; the
/// caller must ask for none.
pub fn alloc_extra_bi(extra_bi_size_bits: u64)
    requires
        extra_bi_size_bits == 0,
{
}

/// Takes `n` objects of `pow2(size_bits)` bytes each from the low end of the
/// rootserver block.
pub fn alloc_rootserver_obj(rootserver_mem: &mut Pregion, size_bits: u64, n: u64) -> (r: Paddr)
    requires
        size_bits < 40,
        n < 0x10000000,
        aligned(old(rootserver_mem).start.0 as int, pow2(size_bits as nat) as int),
        old(rootserver_mem).start.0 + n * pow2(size_bits as nat) <= old(rootserver_mem).end.0,
        old(rootserver_mem).end.0 < 0x10000000000000,
    ensures
        r == old(rootserver_mem).start,
        final (rootserver_mem).start.0 == old(rootserver_mem).start.0 + n * pow2(
            size_bits as nat,
        ),
        final (rootserver_mem).end == old(rootserver_mem).end,
{
    let allocated = rootserver_mem.start;
    proof {
        lemma_pow2_pos(size_bits as nat);
        assert(n * pow2(size_bits as nat) >= 0) by (nonlinear_arith)
            requires
                n >= 0,
                pow2(size_bits as nat) > 0,
        ;
    }
    rootserver_mem.start = Paddr(rootserver_mem.start.0 + n * bit64(size_bits));
    allocated
}

impl RootServer {
    /// Takes one paging structure from the rootserver block's paging window.
    pub fn it_alloc_paging(&mut self) -> (r: Paddr)
        requires
            old(self).paging.start.0 + 0x1000 <= old(self).paging.end.0,
        ensures
            r == old(self).paging.start,
            final (self).paging.start.0 == old(self).paging.start.0 + 0x1000,
            final (self).paging.end == old(self).paging.end,
            final (self).cnode == old(self).cnode,
            final (self).vspace == old(self).vspace,
            final (self).asid_pool == old(self).asid_pool,
            final (self).ipc_buf == old(self).ipc_buf,
            final (self).boot_info == old(self).boot_info,
            final (self).extra_bi == old(self).extra_bi,
            final (self).tcb == old(self).tcb,
    {
        let allocated = self.paging.start;
        self.paging.start = Paddr(self.paging.start.0 + 4096);
        allocated
    }
}

/// Lays the rootserver objects out inside the block `[start, start + size)`,
/// low to high: CNode, VSpace, ASID pool, IPC buffer, boot-info frame, the
/// paging structures, and the TCB.  The block is consumed exactly.
pub fn create_rootserver_objects(
    start: u64,
    it_v_reg: Vregion,
    extra_bi_size_bits: u64,
    max: u64,
    size: u64,
) -> (r: RootServer)
    requires
        extra_bi_size_bits == 0,
        it_v_reg.start.0 <= it_v_reg.end.0,
        it_v_reg.end.0 < 0x8000000000,
        size == rootserver_size_spec(it_v_reg),
        aligned(start as int, pow2(18) as int),
        start + size < 0x10000000000000,
    ensures
        rootserver_layout(r, start as int, riscv_n_paging_spec(it_v_reg)),
        r.paging.start == r.paging.end || r.paging.start.0 + 0x1000 <= r.paging.end.0,
{
    let mut rootserver_mem = Pregion::new(Paddr(start), Paddr(start + size));
    alloc_extra_bi(extra_bi_size_bits);

    proof {
        lemma2_to64();
        // Every object offset below is a multiple of its own size class.
        lemma_pow2_pos(10);
        lemma_pow2_pos(12);
        lemma_pow2_pos(18);
        lemma_aligned_weaken(start as int, 12, 18);
        lemma_aligned_weaken(start as int, 10, 18);
    }

    let cnode_size_bits = CONFIG_ROOT_CNODE_SIZE_BITS + SEL4_SLOT_BITS;
    let cnode = alloc_rootserver_obj(&mut rootserver_mem, cnode_size_bits, 1);
    proof {
        lemma_aligned_add(start as int, pow2(18) as int, pow2(12) as int);
        lemma_aligned_add(start as int + pow2(18), pow2(12) as int, pow2(12) as int);
        lemma_aligned_add(start as int + pow2(18) + pow2(12), pow2(12) as int, pow2(12) as int);
        lemma_aligned_add(
            start as int + pow2(18) + 2 * pow2(12),
            pow2(12) as int,
            pow2(12) as int,
        );
        lemma_aligned_add(
            start as int + pow2(18) + 3 * pow2(12),
            pow2(12) as int,
            pow2(12) as int,
        );
    }
    let vspace = alloc_rootserver_obj(&mut rootserver_mem, SEL4_VSPACE_BITS, 1);
    let asid_pool = alloc_rootserver_obj(&mut rootserver_mem, SEL4_ASID_POOL_BITS, 1);
    let ipc_buf = alloc_rootserver_obj(&mut rootserver_mem, SEL4_PAGE_BITS, 1);
    let boot_info = alloc_rootserver_obj(&mut rootserver_mem, BI_FRAME_SIZE_BITS, 1);

    let n = riscv_get_n_paging(it_v_reg);
    let paging_start = alloc_rootserver_obj(&mut rootserver_mem, SEL4_PAGE_TABLE_BITS, n);
    let paging_end = Paddr(paging_start.0 + n * bit64(SEL4_PAGE_TABLE_BITS));

    proof {
        // The paging window is a multiple of a page, so the TCB that follows
        // is aligned to its own (smaller) size class.
        let base = start as int + pow2(18) + 4 * pow2(12);
        assert(n * pow2(12) == (n * 4) * pow2(10)) by (nonlinear_arith)
            requires
                pow2(12) == 0x1000,
                pow2(10) == 0x400,
        ;
        lemma_mod_multiples_basic(n as int * 4, pow2(10) as int);
        assert((n * 4) * pow2(10) == pow2(10) as int * (n * 4)) by (nonlinear_arith);
        lemma_aligned_weaken(base, 10, 12);
        lemma_aligned_add(base, n as int * pow2(12), pow2(10) as int);
    }
    let tcb = alloc_rootserver_obj(&mut rootserver_mem, SEL4_TCB_BITS, 1);

    // The block must be consumed exactly; any drift is an internal
    // inconsistency in the size computation.
    assert(rootserver_mem.start.0 == rootserver_mem.end.0);

    RootServer {
        cnode,
        vspace,
        asid_pool,
        ipc_buf,
        boot_info,
        extra_bi: Paddr(0),
        tcb,
        paging: Pregion::new(paging_start, paging_end),
    }
}


/// Field-level facts of the rootserver layout: each object is aligned to its
/// own size class, the paging window follows the fixed objects, and the TCB
/// block ends exactly at the end of the placed block.
pub proof fn lemma_rootserver_fields(rs: RootServer, s0: int, n: int)
    requires
        rootserver_layout(rs, s0, n),
        aligned(s0, pow2(18) as int),
        s0 >= 0,
        n >= 0,
    ensures
        rs.cnode.0 % 2 == 0,
        rs.vspace.0 % 4096 == 0,
        rs.asid_pool.0 % 4096 == 0,
        rs.ipc_buf.0 % 4096 == 0,
        rs.boot_info.0 % 4096 == 0,
        rs.paging.start.0 % 4096 == 0,
        rs.tcb.0 % 1024 == 0,
        rs.cnode.0 < rs.vspace.0 < rs.paging.start.0,
        rs.paging.start.0 <= rs.paging.end.0,
        rs.tcb.0 == rs.paging.end.0,
        rs.tcb.0 + pow2(10) == s0 + rootserver_size_spec_of(n),
{
    lemma2_to64();
    lemma_aligned_weaken(s0, 12, 18);
    lemma_aligned_weaken(s0, 10, 18);
    lemma_aligned_weaken(s0, 1, 18);
    crate::bits::lemma_aligned_add(s0, pow2(18) as int, pow2(12) as int);
    crate::bits::lemma_aligned_add(s0 + pow2(18), pow2(12) as int, pow2(12) as int);
    crate::bits::lemma_aligned_add(s0 + pow2(18) + pow2(12), pow2(12) as int, pow2(12) as int);
    crate::bits::lemma_aligned_add(
        s0 + pow2(18) + 2 * pow2(12),
        pow2(12) as int,
        pow2(12) as int,
    );
    crate::bits::lemma_aligned_add(
        s0 + pow2(18) + 3 * pow2(12),
        pow2(12) as int,
        pow2(12) as int,
    );
    assert(n * pow2(12) >= 0) by (nonlinear_arith)
        requires
            n >= 0,
            pow2(12) > 0,
    ;
    assert(n * pow2(12) == (n * 4) * pow2(10)) by (nonlinear_arith)
        requires
            pow2(12) == 0x1000,
            pow2(10) == 0x400,
    ;
    lemma_mod_multiples_basic(n * 4, pow2(10) as int);
    assert((n * 4) * pow2(10) == pow2(10) as int * (n * 4)) by (nonlinear_arith);
    lemma_aligned_weaken(s0 + pow2(18) + 4 * pow2(12), 10, 12);
    crate::bits::lemma_aligned_add(
        s0 + pow2(18) + 4 * pow2(12),
        n * pow2(12),
        pow2(10) as int,
    );
}

/// The total size of the rootserver objects for `n` paging structures.
pub open spec fn rootserver_size_spec_of(n: int) -> int {
    pow2(18) + pow2(10) + pow2(12) + pow2(12) + pow2(12) + pow2(12) + n * pow2(12)
}

} // verus!
