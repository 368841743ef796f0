//! The free-memory partitioner: region algebra over sorted, disjoint
//! physical regions.
//!
//! Boot subtracts the reserved regions (kernel image, user image) from the
//! one available region, yielding the candidate free regions from which the
//! rootserver objects are placed.  The central facts proved here: merging and
//! subtraction preserve exactly the set of covered addresses, and the
//! resulting candidate list is sorted and pairwise disjoint.

use crate::addr::{Paddr, Pregion};
use vstd::prelude::*;

verus! {

/// A region is well formed when its start does not exceed its end.
pub open spec fn region_wf(r: Pregion) -> bool {
    r.start.0 <= r.end.0
}

/// The address `a` lies inside region `r`.
pub open spec fn in_region(r: Pregion, a: int) -> bool {
    r.start.0 <= a < r.end.0
}

/// The address `a` lies inside some region of `rs`.
pub open spec fn in_regions(rs: Seq<Pregion>, a: int) -> bool {
    exists|i: int| 0 <= i < rs.len() && in_region(rs[i], a)
}

/// Every region is well formed and each region ends before (or where) the
/// next begins: the list is sorted and pairwise disjoint.
pub open spec fn regions_sorted(rs: Seq<Pregion>) -> bool {
    &&& forall|i: int| 0 <= i < rs.len() ==> region_wf(#[trigger] rs[i])
    &&& forall|i: int| 0 <= i < rs.len() - 1 ==> (#[trigger] rs[i].end.0) <= rs[i + 1].start.0
}

/// Every region of `rs` lies inside `[lo, hi]`.
pub open spec fn regions_within(rs: Seq<Pregion>, lo: int, hi: int) -> bool {
    forall|i: int| 0 <= i < rs.len() ==> lo <= (#[trigger] rs[i]).start.0 && rs[i].end.0 <= hi
}

/// In a sorted list, a region that comes anywhere before another ends before
/// the other begins (not only for adjacent pairs).
pub proof fn lemma_sorted_chain(rs: Seq<Pregion>, i: int, j: int)
    requires
        regions_sorted(rs),
        0 <= i < j < rs.len(),
    ensures
        rs[i].end.0 <= rs[j].start.0,
    decreases j - i,
{
    if i + 1 < j {
        lemma_sorted_chain(rs, i + 1, j);
    }
}

/// What `merge_regions` returns: adjacent regions (previous end touching the
/// next start) are coalesced, scanning left to right.
pub open spec fn merged_spec(rs: Seq<Pregion>) -> Seq<Pregion>
    decreases rs.len(),
{
    if rs.len() == 0 {
        Seq::empty()
    } else {
        let prev = merged_spec(rs.drop_last());
        let r = rs.last();
        if prev.len() == 0 || prev.last().end.0 != r.start.0 {
            prev.push(r)
        } else {
            prev.update(prev.len() - 1, Pregion { start: prev.last().start, end: r.end })
        }
    }
}

/// Merging a sorted list keeps it sorted, keeps every region inside the same
/// bounds, covers exactly the same addresses, and ends where the input ends.
pub proof fn lemma_merged_props(rs: Seq<Pregion>, lo: int, hi: int)
    requires
        regions_sorted(rs),
        regions_within(rs, lo, hi),
    ensures
        regions_sorted(merged_spec(rs)),
        regions_within(merged_spec(rs), lo, hi),
        forall|a: int| in_regions(merged_spec(rs), a) <==> in_regions(rs, a),
        merged_spec(rs).len() == 0 <==> rs.len() == 0,
        rs.len() > 0 ==> merged_spec(rs).last().end == rs.last().end,
    decreases rs.len(),
{
    if rs.len() > 0 {
        let init = rs.drop_last();
        let r = rs.last();
        let prev = merged_spec(init);
        let out = merged_spec(rs);
        lemma_merged_props(init, lo, hi);
        if prev.len() == 0 || prev.last().end.0 != r.start.0 {
            assert(out == prev.push(r));
            if prev.len() > 0 {
                assert(prev.last().end == init.last().end);
                assert(init.last() == rs[rs.len() - 2]);
                assert(init.last().end.0 <= r.start.0);
            }
            assert forall|a: int| in_regions(out, a) implies in_regions(rs, a) by {
                let i = choose|i: int| 0 <= i < out.len() && in_region(out[i], a);
                if i < prev.len() {
                    assert(in_regions(prev, a));
                    assert(in_regions(init, a));
                    let j = choose|j: int| 0 <= j < init.len() && in_region(init[j], a);
                    assert(in_region(rs[j], a));
                } else {
                    assert(in_region(rs[rs.len() - 1], a));
                }
            }
            assert forall|a: int| in_regions(rs, a) implies in_regions(out, a) by {
                let j = choose|j: int| 0 <= j < rs.len() && in_region(rs[j], a);
                if j < rs.len() - 1 {
                    assert(in_region(init[j], a));
                    assert(in_regions(init, a));
                    let i = choose|i: int| 0 <= i < prev.len() && in_region(prev[i], a);
                    assert(in_region(out[i], a));
                } else {
                    assert(in_region(out[out.len() - 1], a));
                }
            }
        } else {
            let k = prev.len() - 1;
            let m = Pregion { start: prev.last().start, end: r.end };
            assert(out == prev.update(k, m));
            assert(prev.last().end == init.last().end);
            assert(init.last() == rs[rs.len() - 2]);
            assert(region_wf(m));
            assert forall|a: int| in_regions(out, a) implies in_regions(rs, a) by {
                let i = choose|i: int| 0 <= i < out.len() && in_region(out[i], a);
                if i < k {
                    assert(in_region(prev[i], a));
                    assert(in_regions(init, a));
                    let j = choose|j: int| 0 <= j < init.len() && in_region(init[j], a);
                    assert(in_region(rs[j], a));
                } else {
                    // The coalesced region covers the old last region and r.
                    if a < r.start.0 {
                        assert(in_region(prev[k], a));
                        assert(in_regions(init, a));
                        let j = choose|j: int| 0 <= j < init.len() && in_region(init[j], a);
                        assert(in_region(rs[j], a));
                    } else {
                        assert(in_region(rs[rs.len() - 1], a));
                    }
                }
            }
            assert forall|a: int| in_regions(rs, a) implies in_regions(out, a) by {
                let j = choose|j: int| 0 <= j < rs.len() && in_region(rs[j], a);
                if j < rs.len() - 1 {
                    assert(in_region(init[j], a));
                    assert(in_regions(init, a));
                    let i = choose|i: int| 0 <= i < prev.len() && in_region(prev[i], a);
                    assert(in_region(out[i], a));
                } else {
                    assert(in_region(out[k], a));
                }
            }
        }
    }
}

/// What `remove_empty_regions` returns: the non-empty regions, in order.
pub open spec fn nonempty_spec(rs: Seq<Pregion>) -> Seq<Pregion>
    decreases rs.len(),
{
    if rs.len() == 0 {
        Seq::empty()
    } else {
        let prev = nonempty_spec(rs.drop_last());
        let r = rs.last();
        if r.start.0 == r.end.0 {
            prev
        } else {
            prev.push(r)
        }
    }
}

/// Dropping empty regions keeps the list sorted and within bounds and covers
/// exactly the same addresses.
pub proof fn lemma_nonempty_props(rs: Seq<Pregion>, lo: int, hi: int)
    requires
        regions_sorted(rs),
        regions_within(rs, lo, hi),
    ensures
        regions_sorted(nonempty_spec(rs)),
        regions_within(nonempty_spec(rs), lo, hi),
        forall|a: int| in_regions(nonempty_spec(rs), a) <==> in_regions(rs, a),
        forall|i: int|
            0 <= i < nonempty_spec(rs).len() ==> (#[trigger] nonempty_spec(rs)[i]).start.0
                < nonempty_spec(rs)[i].end.0,
        nonempty_spec(rs).len() > 0 ==> rs.len() > 0 && nonempty_spec(rs).last().end.0
            <= rs.last().end.0,
    decreases rs.len(),
{
    if rs.len() > 0 {
        let init = rs.drop_last();
        let r = rs.last();
        let prev = nonempty_spec(init);
        let out = nonempty_spec(rs);
        lemma_nonempty_props(init, lo, hi);
        if r.start.0 == r.end.0 {
            assert(out == prev);
            assert forall|a: int| in_regions(rs, a) implies in_regions(out, a) by {
                let j = choose|j: int| 0 <= j < rs.len() && in_region(rs[j], a);
                assert(j < rs.len() - 1);
                assert(in_region(init[j], a));
                assert(in_regions(init, a));
                assert(in_regions(prev, a));
            }
            assert forall|a: int| in_regions(out, a) implies in_regions(rs, a) by {
                assert(in_regions(init, a));
                let j = choose|j: int| 0 <= j < init.len() && in_region(init[j], a);
                assert(in_region(rs[j], a));
            }
        } else {
            assert(out == prev.push(r));
            if prev.len() > 0 {
                // The last kept region ends before r starts.
                assert(prev.last().end.0 <= init.last().end.0);
                if init.len() > 0 {
                    assert(init.last() == rs[rs.len() - 2]);
                }
            }
            assert forall|a: int| in_regions(rs, a) implies in_regions(out, a) by {
                let j = choose|j: int| 0 <= j < rs.len() && in_region(rs[j], a);
                if j < rs.len() - 1 {
                    assert(in_region(init[j], a));
                    assert(in_regions(init, a));
                    let i = choose|i: int| 0 <= i < prev.len() && in_region(prev[i], a);
                    assert(in_region(out[i], a));
                } else {
                    assert(in_region(out[out.len() - 1], a));
                }
            }
            assert forall|a: int| in_regions(out, a) implies in_regions(rs, a) by {
                let i = choose|i: int| 0 <= i < out.len() && in_region(out[i], a);
                if i < prev.len() {
                    assert(in_regions(init, a));
                    let j = choose|j: int| 0 <= j < init.len() && in_region(init[j], a);
                    assert(in_region(rs[j], a));
                } else {
                    assert(in_region(rs[rs.len() - 1], a));
                }
            }
        }
    }
}

/// The complement of the sorted regions `rs` inside `avail`: one (possibly
/// empty) gap before each region and one after the last.
pub open spec fn gaps_spec(rs: Seq<Pregion>, avail: Pregion) -> Seq<Pregion>
    decreases rs.len(),
{
    if rs.len() == 0 {
        seq![avail]
    } else {
        seq![Pregion { start: avail.start, end: rs[0].start }] + gaps_spec(
            rs.skip(1),
            Pregion { start: rs[0].end, end: avail.end },
        )
    }
}

/// Membership in a concatenation is membership in either part.
pub proof fn lemma_in_regions_concat(s1: Seq<Pregion>, s2: Seq<Pregion>)
    ensures
        forall|a: int|
            in_regions(s1 + s2, a) <==> in_regions(s1, a) || in_regions(s2, a),
{
    assert forall|a: int|
        in_regions(s1 + s2, a) <==> in_regions(s1, a) || in_regions(s2, a) by {
        if in_regions(s1 + s2, a) {
            let i = choose|i: int| 0 <= i < (s1 + s2).len() && in_region((s1 + s2)[i], a);
            if i < s1.len() {
                assert(in_region(s1[i], a));
            } else {
                assert(in_region(s2[i - s1.len()], a));
            }
        }
        if in_regions(s1, a) {
            let i = choose|i: int| 0 <= i < s1.len() && in_region(s1[i], a);
            assert(in_region((s1 + s2)[i], a));
        }
        if in_regions(s2, a) {
            let i = choose|i: int| 0 <= i < s2.len() && in_region(s2[i], a);
            assert(in_region((s1 + s2)[s1.len() + i], a));
        }
    }
}

/// Subtracting sorted, contained regions from `avail` yields a sorted list
/// of gaps inside `avail` that covers exactly the addresses of `avail` not
/// covered by `rs`.
pub proof fn lemma_gaps_props(rs: Seq<Pregion>, avail: Pregion)
    requires
        region_wf(avail),
        regions_sorted(rs),
        regions_within(rs, avail.start.0 as int, avail.end.0 as int),
    ensures
        regions_sorted(gaps_spec(rs, avail)),
        regions_within(gaps_spec(rs, avail), avail.start.0 as int, avail.end.0 as int),
        forall|a: int|
            in_regions(gaps_spec(rs, avail), a) <==> (in_region(avail, a) && !in_regions(rs, a)),
    decreases rs.len(),
{
    let out = gaps_spec(rs, avail);
    if rs.len() == 0 {
        assert forall|a: int|
            in_regions(out, a) <==> (in_region(avail, a) && !in_regions(rs, a)) by {
            if in_region(avail, a) {
                assert(in_region(out[0], a));
            }
        }
    } else {
        let r = rs[0];
        let rest = rs.skip(1);
        let avail2 = Pregion { start: r.end, end: avail.end };
        let g0 = Pregion { start: avail.start, end: r.start };
        let sub = gaps_spec(rest, avail2);
        assert(out == seq![g0] + sub);
        assert forall|k: int| 0 <= k < rest.len() implies region_wf(#[trigger] rest[k])
            && avail2.start.0 <= rest[k].start.0 && rest[k].end.0 <= avail2.end.0 by {
            assert(rest[k] == rs[k + 1]);
            lemma_sorted_chain(rs, 0, k + 1);
        }
        assert forall|k: int| 0 <= k < rest.len() - 1 implies (#[trigger] rest[k].end.0) <= rest[k
            + 1].start.0 by {
            assert(rest[k] == rs[k + 1]);
            assert(rest[k + 1] == rs[k + 2]);
        }
        lemma_gaps_props(rest, avail2);
        lemma_in_regions_concat(seq![g0], sub);
        // Sortedness of the concatenation: the first gap ends at r.start,
        // and every later gap starts at or after r.end.
        assert(out[0] == g0);
        assert forall|i: int| 0 <= i < out.len() implies region_wf(#[trigger] out[i]) by {
            if i > 0 {
                assert(out[i] == sub[i - 1]);
            }
        }
        assert forall|i: int| 0 <= i < out.len() - 1 implies (#[trigger] out[i].end.0) <= out[i
            + 1].start.0 by {
            if i == 0 {
                assert(out[1] == sub[0]);
            } else {
                assert(out[i] == sub[i - 1]);
                assert(out[i + 1] == sub[i]);
            }
        }
        assert forall|i: int| 0 <= i < out.len() implies avail.start.0 <= (
        #[trigger] out[i]).start.0 && out[i].end.0 <= avail.end.0 by {
            if i > 0 {
                assert(out[i] == sub[i - 1]);
            }
        }
        assert forall|a: int|
            in_regions(out, a) <==> (in_region(avail, a) && !in_regions(rs, a)) by {
            // Split the address space at r.start and r.end.
            if in_regions(out, a) {
                if in_regions(seq![g0], a) {
                    assert(in_region(g0, a));
                    assert forall|j: int| 0 <= j < rs.len() implies !in_region(
                        #[trigger] rs[j],
                        a,
                    ) by {
                        if j > 0 {
                            lemma_sorted_chain(rs, 0, j);
                        }
                    }
                } else {
                    assert(in_regions(sub, a));
                    assert(in_region(avail2, a));
                    assert forall|j: int| 0 <= j < rs.len() implies !in_region(
                        #[trigger] rs[j],
                        a,
                    ) by {
                        if j > 0 {
                            if in_region(rs[j], a) {
                                assert(in_region(rest[j - 1], a));
                                assert(in_regions(rest, a));
                            }
                        }
                    }
                }
            }
            if in_region(avail, a) && !in_regions(rs, a) {
                assert(!in_region(rs[0], a));
                if a < r.start.0 {
                    assert(in_region(g0, a));
                    assert(in_regions(seq![g0], a));
                } else {
                    assert(a >= r.end.0);
                    assert(in_region(avail2, a));
                    assert forall|k: int| 0 <= k < rest.len() implies !in_region(
                        #[trigger] rest[k],
                        a,
                    ) by {
                        if in_region(rest[k], a) {
                            assert(in_region(rs[k + 1], a));
                        }
                    }
                    assert(in_regions(sub, a));
                }
            }
        }
    }
}

/// Checks that the reserved regions are well formed, sorted and disjoint.
/// A malformed list is a boot-fatal configuration error reported by the
/// caller.
pub fn check_reserved_memory(reserved: &Vec<Pregion>) -> (r: bool)
    ensures
        r == regions_sorted(reserved@),
{
    let n = reserved.len();
    let mut i: usize = 0;
    while i < n
        invariant
            0 <= i <= n,
            n == reserved@.len(),
            forall|k: int| 0 <= k < i ==> region_wf(#[trigger] reserved@[k]),
            forall|k: int| 0 <= k < i - 1 ==> (#[trigger] reserved@[k].end.0) <= reserved@[k
                + 1].start.0,
        decreases n - i,
    {
        if reserved[i].start.0 > reserved[i].end.0 {
            return false;
        }
        if i > 0 && reserved[i - 1].end.0 > reserved[i].start.0 {
            return false;
        }
        i = i + 1;
    }
    true
}

/// Coalesces regions whose boundary touches, scanning left to right.
pub fn merge_regions(regs: &Vec<Pregion>) -> (r: Vec<Pregion>)
    ensures
        r@ == merged_spec(regs@),
{
    let mut merged: Vec<Pregion> = Vec::new();
    let n = regs.len();
    let mut i: usize = 0;
    while i < n
        invariant
            0 <= i <= n,
            n == regs@.len(),
            merged@ == merged_spec(regs@.take(i as int)),
        decreases n - i,
    {
        let r = regs[i];
        proof {
            assert(regs@.take(i + 1).drop_last() == regs@.take(i as int));
            assert(regs@.take(i + 1).last() == regs@[i as int]);
        }
        if merged.len() == 0 || merged[merged.len() - 1].end.0 != r.start.0 {
            merged.push(r);
        } else {
            let k = merged.len() - 1;
            let start = merged[k].start;
            merged.set(k, Pregion { start, end: r.end });
        }
        i = i + 1;
    }
    proof {
        assert(regs@.take(n as int) == regs@);
    }
    merged
}

/// Drops zero-length regions, keeping the order.
pub fn remove_empty_regions(regs: &Vec<Pregion>) -> (r: Vec<Pregion>)
    ensures
        r@ == nonempty_spec(regs@),
{
    let mut ret: Vec<Pregion> = Vec::new();
    let n = regs.len();
    let mut i: usize = 0;
    while i < n
        invariant
            0 <= i <= n,
            n == regs@.len(),
            ret@ == nonempty_spec(regs@.take(i as int)),
        decreases n - i,
    {
        let r = regs[i];
        proof {
            assert(regs@.take(i + 1).drop_last() == regs@.take(i as int));
            assert(regs@.take(i + 1).last() == regs@[i as int]);
        }
        if !(r.start.0 == r.end.0) {
            ret.push(r);
        }
        i = i + 1;
    }
    proof {
        assert(regs@.take(n as int) == regs@);
    }
    ret
}


/// The candidate free regions: what remains of `avail` after the merged
/// reserved regions are subtracted and empty gaps are dropped.
pub open spec fn candidates_spec(reserved: Seq<Pregion>, avail: Pregion) -> Seq<Pregion> {
    nonempty_spec(gaps_spec(merged_spec(reserved), avail))
}

/// The rootserver block of `size` bytes fits in `r` at the highest
/// `pow2(maxb)`-aligned start.
pub open spec fn region_fits(r: Pregion, size: int, maxb: nat) -> bool {
    &&& r.end.0 >= size
    &&& crate::bits::align_down(r.end.0 - size, maxb) >= r.start.0
}

/// The placement policy: the highest-indexed candidate region that fits
/// wins, so the rootserver objects land as high in memory as possible.
pub open spec fn choose_fit(cands: Seq<Pregion>, size: int, maxb: nat) -> Option<int>
    decreases cands.len(),
{
    if cands.len() == 0 {
        None
    } else if region_fits(cands.last(), size, maxb) {
        Some(cands.len() - 1)
    } else {
        choose_fit(cands.drop_last(), size, maxb)
    }
}

/// `choose_fit` returns the highest index that fits, or nothing when no
/// region fits.
pub proof fn lemma_choose_fit_props(cands: Seq<Pregion>, size: int, maxb: nat)
    ensures
        match choose_fit(cands, size, maxb) {
            Option::None => forall|j: int|
                0 <= j < cands.len() ==> !region_fits(#[trigger] cands[j], size, maxb),
            Option::Some(i) => 0 <= i < cands.len() && region_fits(cands[i], size, maxb)
                && forall|j: int|
                i < j < cands.len() ==> !region_fits(#[trigger] cands[j], size, maxb),
        },
    decreases cands.len(),
{
    if cands.len() > 0 && !region_fits(cands.last(), size, maxb) {
        lemma_choose_fit_props(cands.drop_last(), size, maxb);
        let init = cands.drop_last();
        match choose_fit(init, size, maxb) {
            Option::None => {
                assert forall|j: int| 0 <= j < cands.len() implies !region_fits(
                    #[trigger] cands[j],
                    size,
                    maxb,
                ) by {
                    if j < cands.len() - 1 {
                        assert(cands[j] == init[j]);
                    }
                }
            },
            Option::Some(i) => {
                assert(cands[i] == init[i]);
                assert forall|j: int| i < j < cands.len() implies !region_fits(
                    #[trigger] cands[j],
                    size,
                    maxb,
                ) by {
                    if j < cands.len() - 1 {
                        assert(cands[j] == init[j]);
                    }
                }
            },
        }
    }
}

/// A descending scan that stopped at `i` with a fit, having rejected
/// everything above, agrees with the placement policy.
pub proof fn lemma_choose_fit_scan(cands: Seq<Pregion>, size: int, maxb: nat, i: int)
    requires
        0 <= i < cands.len(),
        region_fits(cands[i], size, maxb),
        forall|j: int| i < j < cands.len() ==> !region_fits(#[trigger] cands[j], size, maxb),
    ensures
        choose_fit(cands, size, maxb) == Some(i),
    decreases cands.len(),
{
    if i == cands.len() - 1 {
    } else {
        let init = cands.drop_last();
        assert(cands[i] == init[i]);
        assert forall|j: int| i < j < init.len() implies !region_fits(
            #[trigger] init[j],
            size,
            maxb,
        ) by {
            assert(init[j] == cands[j]);
        }
        lemma_choose_fit_scan(init, size, maxb, i);
    }
}

/// What `init_freemem` returns, as a function of its inputs alone.
///
/// On malformed reserved regions, or when no candidate fits, the result is
/// nothing.  Otherwise the rootserver objects are laid out from the highest
/// aligned start inside the chosen (highest fitting) candidate region, the
/// chosen region is truncated to end below the block, and the leftover above
/// the block is appended as a new free region.
pub open spec fn init_freemem_post(
    reserved: Seq<Pregion>,
    avail: Pregion,
    it_v_reg: crate::addr::Vregion,
    result: Option<(crate::rootserver::RootServer, Seq<Pregion>)>,
) -> bool {
    let cands = candidates_spec(reserved, avail);
    let size = crate::rootserver::rootserver_size_spec(it_v_reg);
    if !regions_sorted(reserved) {
        result is None
    } else {
        match choose_fit(cands, size, 18) {
            Option::None => result is None,
            Option::Some(i) => {
                let s0 = crate::bits::align_down(cands[i].end.0 - size, 18);
                match result {
                    Option::None => false,
                    Option::Some((rs, free)) => {
                        &&& crate::rootserver::rootserver_layout(
                            rs,
                            s0,
                            crate::rootserver::riscv_n_paging_spec(it_v_reg),
                        )
                        &&& free == cands.update(
                            i,
                            Pregion { start: cands[i].start, end: Paddr(s0 as u64) },
                        ).push(Pregion { start: Paddr((s0 + size) as u64), end: cands[i].end })
                    },
                }
            },
        }
    }
}

/// Partitions the available region: subtracts the reserved regions, then
/// places the rootserver objects in the highest fitting free region at the
/// highest aligned address, leaving the memory below and above the block as
/// free regions for untyped carving.
#[verifier::rlimit(60)]
pub fn init_freemem(
    reserved: &Vec<Pregion>,
    avail_reg: Pregion,
    it_v_reg: crate::addr::Vregion,
    extra_bi_size_bits: u64,
) -> (r: Option<(crate::rootserver::RootServer, Vec<Pregion>)>)
    requires
        region_wf(avail_reg),
        avail_reg.end.0 < 0x8000000000,
        regions_sorted(reserved@) ==> regions_within(
            reserved@,
            avail_reg.start.0 as int,
            avail_reg.end.0 as int,
        ),
        it_v_reg.start.0 <= it_v_reg.end.0,
        it_v_reg.end.0 < 0x8000000000,
        extra_bi_size_bits == 0,
    ensures
        match r {
            Option::None => init_freemem_post(reserved@, avail_reg, it_v_reg, None),
            Option::Some((rs, free)) => init_freemem_post(
                reserved@,
                avail_reg,
                it_v_reg,
                Some((rs, free@)),
            ),
        },
{
    if !check_reserved_memory(reserved) {
        return None;
    }
    let reserved_m = merge_regions(reserved);
    proof {
        lemma_merged_props(reserved@, avail_reg.start.0 as int, avail_reg.end.0 as int);
    }

    let ghost merged = reserved_m@;
    let mut freemem: Vec<Pregion> = Vec::new();
    let mut a = avail_reg;
    let n = reserved_m.len();
    let mut idx: usize = 0;
    proof {
        assert(merged.skip(0) == merged);
        assert(gaps_spec(merged, avail_reg) == freemem@ + gaps_spec(merged.skip(0), a));
    }
    while idx < n
        invariant
            idx <= n,
            n == merged.len(),
            merged == merged_spec(reserved@),
            regions_sorted(merged),
            regions_within(merged, avail_reg.start.0 as int, avail_reg.end.0 as int),
            region_wf(avail_reg),
            reserved_m@ == merged,
            a.end == avail_reg.end,
            avail_reg.start.0 <= a.start.0,
            idx < n ==> a.start.0 <= merged[idx as int].start.0,
            region_wf(a),
            gaps_spec(merged, avail_reg) == freemem@ + gaps_spec(merged.skip(idx as int), a),
        decreases n - idx,
    {
        let r = reserved_m[idx];
        proof {
            let tail = merged.skip(idx as int);
            assert(tail[0] == merged[idx as int]);
            assert(tail.skip(1) == merged.skip(idx as int + 1));
            assert(gaps_spec(tail, a) == seq![
                Pregion { start: a.start, end: r.start },
            ] + gaps_spec(tail.skip(1), Pregion { start: r.end, end: a.end }));
            assert(freemem@ + gaps_spec(tail, a) == (freemem@ + seq![
                Pregion { start: a.start, end: r.start },
            ]) + gaps_spec(merged.skip(idx as int + 1), Pregion { start: r.end, end: a.end }));
            assert(freemem@ + seq![Pregion { start: a.start, end: r.start }] == freemem@.push(
                Pregion { start: a.start, end: r.start },
            ));
            if idx + 1 < n {
                lemma_sorted_chain(merged, idx as int, idx as int + 1);
            }
        }
        freemem.push(Pregion::new(a.start, r.start));
        a = Pregion { start: r.end, end: a.end };
        idx = idx + 1;
    }
    proof {
        assert(merged.skip(n as int).len() == 0);
        assert(gaps_spec(merged.skip(n as int), a) == seq![a]);
        assert(freemem@ + seq![a] =~= freemem@.push(a));
    }
    freemem.push(a);
    proof {
        assert(freemem@ == gaps_spec(merged, avail_reg));
    }
    let mut freemem = remove_empty_regions(&freemem);
    proof {
        lemma_gaps_props(merged, avail_reg);
        lemma_nonempty_props(
            gaps_spec(merged, avail_reg),
            avail_reg.start.0 as int,
            avail_reg.end.0 as int,
        );
        assert(freemem@ == candidates_spec(reserved@, avail_reg));
    }
    let ghost cands = freemem@;

    let size = crate::rootserver::calculate_rootserver_size(it_v_reg, extra_bi_size_bits);
    let max = crate::rootserver::rootserver_max_size_bits(extra_bi_size_bits);

    let mut i: usize = freemem.len();
    while i > 0
        invariant
            i <= freemem@.len(),
            freemem@ == cands,
            cands == candidates_spec(reserved@, avail_reg),
            regions_sorted(cands),
            regions_within(cands, avail_reg.start.0 as int, avail_reg.end.0 as int),
            avail_reg.end.0 < 0x8000000000,
            size == crate::rootserver::rootserver_size_spec(it_v_reg),
            max == 18,
            it_v_reg.start.0 <= it_v_reg.end.0,
            it_v_reg.end.0 < 0x8000000000,
            regions_sorted(reserved@),
            extra_bi_size_bits == 0,
            forall|j: int|
                i <= j < cands.len() ==> !region_fits(#[trigger] cands[j], size as int, 18),
        decreases i,
    {
        i = i - 1;
        // Try to take the top-most suitably sized and aligned chunk of this
        // region.
        if freemem[i].end.0 >= size {
            let start = crate::bits::round_down(freemem[i].end.0 - size, max);
            if start >= freemem[i].start.0 {
                proof {
                    lemma_choose_fit_scan(cands, size as int, 18, i as int);
                    vstd::arithmetic::power2::lemma2_to64();
                    assert(cands[i as int].end.0 <= avail_reg.end.0);
                    assert(start + size <= cands[i as int].end.0);
                }
                let rootserver = crate::rootserver::create_rootserver_objects(
                    start,
                    it_v_reg,
                    extra_bi_size_bits,
                    max,
                    size,
                );
                let before_start = freemem[i].start;
                let end_i = freemem[i].end;
                freemem.set(i, Pregion { start: before_start, end: Paddr(start) });
                freemem.push(Pregion::new(Paddr(start + size), end_i));
                return Some((rootserver, freemem));
            }
        }
    }
    // No region is big enough for the rootserver objects: an unrecoverable
    // boot failure reported by the caller.
    proof {
        lemma_choose_fit_props(cands, size as int, 18);
    }
    None
}

/// The exact-partition law: subtracting well-formed, sorted, contained
/// reserved regions from the available region yields candidate free regions
/// that are sorted and pairwise disjoint, cover no reserved byte, and
/// together with the reserved regions cover exactly the available region.
pub proof fn lemma_free_partition_exact(reserved: Seq<Pregion>, avail: Pregion)
    requires
        region_wf(avail),
        regions_sorted(reserved),
        regions_within(reserved, avail.start.0 as int, avail.end.0 as int),
    ensures
        regions_sorted(candidates_spec(reserved, avail)),
        regions_within(candidates_spec(reserved, avail), avail.start.0 as int, avail.end.0 as int),
        forall|a: int|
            in_regions(candidates_spec(reserved, avail), a) || in_regions(reserved, a)
                <==> in_region(avail, a),
        forall|a: int| !(in_regions(candidates_spec(reserved, avail), a) && in_regions(reserved, a)),
{
    let lo = avail.start.0 as int;
    let hi = avail.end.0 as int;
    lemma_merged_props(reserved, lo, hi);
    let merged = merged_spec(reserved);
    lemma_gaps_props(merged, avail);
    let gaps = gaps_spec(merged, avail);
    lemma_nonempty_props(gaps, lo, hi);
    assert forall|a: int| in_regions(reserved, a) implies in_region(avail, a) by {
        let j = choose|j: int| 0 <= j < reserved.len() && in_region(reserved[j], a);
    }
}

/// The placement law: when a fit exists, the chosen start address is aligned
/// to the bundle's largest size class and the whole block lies inside one
/// candidate free region.
pub proof fn lemma_placement_in_free_region(
    reserved: Seq<Pregion>,
    avail: Pregion,
    it_v_reg: crate::addr::Vregion,
)
    requires
        it_v_reg.start.0 <= it_v_reg.end.0,
    ensures
        match choose_fit(
            candidates_spec(reserved, avail),
            crate::rootserver::rootserver_size_spec(it_v_reg),
            18,
        ) {
            Option::None => true,
            Option::Some(i) => {
                let cands = candidates_spec(reserved, avail);
                let size = crate::rootserver::rootserver_size_spec(it_v_reg);
                let s0 = crate::bits::align_down(cands[i].end.0 - size, 18);
                &&& 0 <= i < cands.len()
                &&& crate::bits::aligned(s0, vstd::arithmetic::power2::pow2(18) as int)
                &&& cands[i].start.0 <= s0
                &&& s0 + size <= cands[i].end.0
            },
        },
{
    let cands = candidates_spec(reserved, avail);
    let size = crate::rootserver::rootserver_size_spec(it_v_reg);
    lemma_choose_fit_props(cands, size, 18);
    match choose_fit(cands, size, 18) {
        Option::None => {},
        Option::Some(i) => {
            let x = cands[i].end.0 - size;
            let p = vstd::arithmetic::power2::pow2(18) as int;
            vstd::arithmetic::power2::lemma_pow2_pos(18);
            vstd::arithmetic::div_mod::lemma_mod_bound(x, p);
            vstd::arithmetic::div_mod::lemma_mod_multiples_basic(
                (x - x % p) / p,
                p,
            );
            assert(crate::bits::align_down(x, 18) == x - x % p);
            assert((x - x % p) % p == 0) by {
                vstd::arithmetic::div_mod::lemma_sub_mod_noop(x, x % p, p);
                vstd::arithmetic::div_mod::lemma_mod_twice(x, p);
                vstd::arithmetic::div_mod::lemma_small_mod(0, p as nat);
            }
        },
    }
}

/// The determinism law: the partitioner's contract pins its result as a
/// function of the inputs, so two runs on identical inputs choose the same
/// region, the same start address, and the same leftover free regions.
pub proof fn lemma_init_freemem_deterministic(
    reserved: Seq<Pregion>,
    avail: Pregion,
    it_v_reg: crate::addr::Vregion,
    r1: Option<(crate::rootserver::RootServer, Seq<Pregion>)>,
    r2: Option<(crate::rootserver::RootServer, Seq<Pregion>)>,
)
    requires
        init_freemem_post(reserved, avail, it_v_reg, r1),
        init_freemem_post(reserved, avail, it_v_reg, r2),
    ensures
        r1 == r2,
{
    if regions_sorted(reserved) {
        let cands = candidates_spec(reserved, avail);
        let size = crate::rootserver::rootserver_size_spec(it_v_reg);
        match choose_fit(cands, size, 18) {
            Option::None => {},
            Option::Some(i) => {
                let n = crate::rootserver::riscv_n_paging_spec(it_v_reg);
                let rs1 = r1->Some_0.0;
                let rs2 = r2->Some_0.0;
                assert(rs1 == rs2);
            },
        }
    }
}

} // verus!
