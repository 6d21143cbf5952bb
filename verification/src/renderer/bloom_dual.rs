use vstd::prelude::*;

use crate::renderer::blur_dual::{
    doubled_back_fits,
    down_cap,
    dual_downs,
    lemma_dual_downs_mirror,
    dual_down_sizes,
    lemma_dual_downs_bounded,
    lemma_times_pow2_monotonic,
    times_pow2,
};

verus! {

/// One up pass of a bloom: the size it renders at, and the earlier target it
/// writes into (0 is the bright-pass target at the source size, `i` the target of
/// down pass `i`, counted from 1).
#[derive(Debug, Clone, Copy, PartialEq, Eq)]
pub struct BloomUpPass {
    pub size: (u32, u32),
    pub target: usize,
}

/// How a bloom hands back its result.
#[derive(Debug, Clone, Copy, PartialEq, Eq, Structural)]
pub enum EBloomFinish {
    /// No down pass fits: nothing is blended and the source comes back as it was.
    ReturnSource,
    /// The blurred glow is added onto the source target itself.
    AddIntoSource,
    /// The source is copied into a new target and the glow is added onto that copy.
    CopyThenAdd,
}

/// The render plan of a bloom: its down sizes, its up passes and how it finishes.
pub struct BloomDualPlan {
    pub downs: Vec<(u32, u32)>,
    pub ups: Vec<BloomUpPass>,
    pub finish: EBloomFinish,
}

/// The bloom's up passes, one per down pass: pass `k` (from 1) renders at the
/// smallest down size doubled `k` times on each side, and writes into the target
/// of the level above it, the bright-pass target for the last one.
pub open spec fn bloom_ups(downs: Seq<(u32, u32)>) -> Seq<BloomUpPass> {
    if downs.len() == 0 {
        Seq::empty()
    } else {
        Seq::new(
            downs.len(),
            |k: int|
                BloomUpPass {
                    size: (
                        times_pow2(downs.last().0 as nat, (k + 1) as nat) as u32,
                        times_pow2(downs.last().1 as nat, (k + 1) as nat) as u32,
                    ),
                    target: (downs.len() - 1 - k) as usize,
                },
        )
    }
}

pub open spec fn spec_bloom_finish(levels: nat, source_is_share_target: bool) -> EBloomFinish {
    if levels == 0 {
        EBloomFinish::ReturnSource
    } else if source_is_share_target {
        EBloomFinish::AddIntoSource
    } else {
        EBloomFinish::CopyThenAdd
    }
}

/// Plans a bloom whose source is `from_w` x `from_h`: the bright pass keeps the
/// source size; the down passes halve it while both sides stay at two pixels or
/// more, at most `iteration` times; the up passes double the smallest size back
/// on each side, each writing into the target one level up. With no down pass the
/// source comes back unchanged; otherwise the glow is added onto the source when
/// it is a shared atlas target, and onto a copy of it otherwise.
pub fn bloom_dual_render_plan(
    from_w: u32,
    from_h: u32,
    iteration: u8,
    source_is_share_target: bool,
) -> (plan: BloomDualPlan)
    ensures
        plan.downs@ == dual_downs(from_w, from_h, iteration as nat),
        plan.ups@ == bloom_ups(plan.downs@),
        plan.finish == spec_bloom_finish(plan.downs@.len(), source_is_share_target),
        (plan.finish == EBloomFinish::ReturnSource) == (plan.downs.len() == 0),
        plan.downs.len() > 0 ==> plan.finish == (if source_is_share_target {
            EBloomFinish::AddIntoSource
        } else {
            EBloomFinish::CopyThenAdd
        }),
{
    let downs = dual_down_sizes(from_w, from_h, iteration as usize);
    let realiter = downs.len();
    let mut ups: Vec<BloomUpPass> = Vec::new();
    if realiter == 0 {
        assert(ups@ =~= bloom_ups(downs@));
        return BloomDualPlan { downs, ups, finish: EBloomFinish::ReturnSource };
    }
    proof {
        lemma_dual_downs_bounded(from_w, from_h, iteration as nat);
    }
    let ghost lw = downs@.last().0 as nat;
    let ghost lh = downs@.last().1 as nat;
    let mut to_w = downs[realiter - 1].0;
    let mut to_h = downs[realiter - 1].1;
    let mut k: usize = 0;
    while k < realiter
        invariant
            realiter == downs.len(),
            realiter > 0,
            lw == downs@.last().0,
            lh == downs@.last().1,
            k <= realiter,
            to_w as nat == times_pow2(lw, k as nat),
            to_h as nat == times_pow2(lh, k as nat),
            times_pow2(lw, realiter as nat) <= from_w,
            times_pow2(lh, realiter as nat) <= from_h,
            ups.len() == k,
            forall|j: int|
                0 <= j < k ==> #[trigger] ups@[j] == (BloomUpPass {
                    size: (
                        times_pow2(lw, (j + 1) as nat) as u32,
                        times_pow2(lh, (j + 1) as nat) as u32,
                    ),
                    target: (realiter - 1 - j) as usize,
                }),
        decreases realiter - k,
    {
        proof {
            lemma_times_pow2_monotonic(lw, (k + 1) as nat, realiter as nat);
            lemma_times_pow2_monotonic(lh, (k + 1) as nat, realiter as nat);
        }
        to_w = to_w * 2;
        to_h = to_h * 2;
        ups.push(BloomUpPass { size: (to_w, to_h), target: realiter - 1 - k });
        k = k + 1;
    }
    assert(ups@ =~= bloom_ups(downs@));
    let finish = if source_is_share_target {
        EBloomFinish::AddIntoSource
    } else {
        EBloomFinish::CopyThenAdd
    };
    BloomDualPlan { downs, ups, finish }
}

/// Up pass `k` of a bloom over the down chain `d` writes into an existing level
/// and renders at no more than that level's size.
pub open spec fn bloom_up_fits(w: u32, h: u32, d: Seq<(u32, u32)>, k: int) -> bool {
    let u = bloom_ups(d)[k];
    &&& 0 <= u.target < d.len()
    &&& u.size.0 <= down_cap(w, h, d, u.target as int).0
    &&& u.size.1 <= down_cap(w, h, d, u.target as int).1
}

/// A bloom's up passes mirror its down passes: there is one per down pass, up
/// pass `k` writes into the target one level above the one it reads (the
/// bright-pass target for the last), and renders at no more than that target's size.
pub proof fn law_bloom_ups_fit_their_targets(from_w: u32, from_h: u32, iteration: u8)
    ensures
        bloom_ups(dual_downs(from_w, from_h, iteration as nat)).len() == dual_downs(
            from_w,
            from_h,
            iteration as nat,
        ).len(),
        forall|k: int|
            0 <= k < dual_downs(from_w, from_h, iteration as nat).len() ==> #[trigger] bloom_up_fits(
                from_w,
                from_h,
                dual_downs(from_w, from_h, iteration as nat),
                k,
            ),
{
    let d = dual_downs(from_w, from_h, iteration as nat);
    lemma_dual_downs_bounded(from_w, from_h, iteration as nat);
    lemma_dual_downs_mirror(from_w, from_h, iteration as nat);
    let u = bloom_ups(d);
    assert forall|k: int| 0 <= k < d.len() implies #[trigger] bloom_up_fits(from_w, from_h, d, k) by {
        let t = d.len() - 1 - k;
        assert(d.len() <= 255);
        assert(u[k] == bloom_ups(d)[k]);
        assert(u[k].target as int == t);
        assert(doubled_back_fits(from_w, from_h, d, t));
        lemma_times_pow2_monotonic(d.last().0 as nat, (k + 1) as nat, (d.len() - t) as nat);
        lemma_times_pow2_monotonic(d.last().1 as nat, (k + 1) as nat, (d.len() - t) as nat);
    }
}

/// A bloom hands its source back unchanged exactly when no down pass fits; with
/// at least one, the glow is added onto the source itself when it is a shared
/// atlas target, and onto a copy of it otherwise.
pub proof fn law_bloom_finish(levels: nat, source_is_share_target: bool)
    ensures
        (spec_bloom_finish(levels, source_is_share_target) == EBloomFinish::ReturnSource) == (levels
            == 0),
        levels > 0 && source_is_share_target ==> spec_bloom_finish(levels, source_is_share_target)
            == EBloomFinish::AddIntoSource,
        levels > 0 && !source_is_share_target ==> spec_bloom_finish(levels, source_is_share_target)
            == EBloomFinish::CopyThenAdd,
{
}

/// The bloom's up passes climb back from the smallest down size: the first renders
/// at twice that size on each side, each later one at twice the size of the one
/// before; the first writes into the level just above the smallest and each later
/// one into the level above that, the last into the bright-pass target.
pub proof fn law_bloom_ups_double_from_smallest(from_w: u32, from_h: u32, iteration: u8)
    ensures
        ({
            let d = dual_downs(from_w, from_h, iteration as nat);
            let u = bloom_ups(d);
            &&& u.len() == d.len()
            &&& d.len() > 0 ==> u[0].size == ((2 * d.last().0) as u32, (2 * d.last().1) as u32)
            &&& d.len() > 0 ==> 2 * d.last().0 <= from_w && 2 * d.last().1 <= from_h
            &&& forall|k: int|
                0 <= k < u.len() - 1 ==> (#[trigger] u[k + 1]).size == ((2 * u[k].size.0) as u32, (2
                    * u[k].size.1) as u32) && 2 * u[k].size.0 <= from_w && 2 * u[k].size.1 <= from_h
            &&& forall|k: int| 0 <= k < u.len() ==> (#[trigger] u[k]).target + k + 1 == d.len()
        }),
{
    let d = dual_downs(from_w, from_h, iteration as nat);
    lemma_dual_downs_bounded(from_w, from_h, iteration as nat);
    let u = bloom_ups(d);
    if d.len() > 0 {
        let lw = d.last().0 as nat;
        let lh = d.last().1 as nat;
        lemma_times_pow2_monotonic(lw, 1, d.len());
        lemma_times_pow2_monotonic(lh, 1, d.len());
        assert(times_pow2(lw, 1) == 2 * lw) by {
            reveal_with_fuel(times_pow2, 2);
        }
        assert(times_pow2(lh, 1) == 2 * lh) by {
            reveal_with_fuel(times_pow2, 2);
        }
        assert forall|k: int| 0 <= k < u.len() - 1 implies (#[trigger] u[k + 1]).size == ((2
            * u[k].size.0) as u32, (2 * u[k].size.1) as u32) && 2 * u[k].size.0 <= from_w && 2
            * u[k].size.1 <= from_h by {
            lemma_times_pow2_monotonic(lw, (k + 1) as nat, d.len());
            lemma_times_pow2_monotonic(lh, (k + 1) as nat, d.len());
            lemma_times_pow2_monotonic(lw, (k + 2) as nat, d.len());
            lemma_times_pow2_monotonic(lh, (k + 2) as nat, d.len());
            assert(times_pow2(lw, (k + 2) as nat) == 2 * times_pow2(lw, (k + 1) as nat));
            assert(times_pow2(lh, (k + 2) as nat) == 2 * times_pow2(lh, (k + 1) as nat));
        }
    }
}

} // verus!
