use vstd::prelude::*;

verus! {

/// The successive half sizes of a dual blur's down passes: each pass halves the
/// previous size (rounding down), at most `n` times, and stops before a side
/// would fall under two pixels.
pub open spec fn dual_downs(w: u32, h: u32, n: nat) -> Seq<(u32, u32)>
    decreases n,
{
    if n == 0 || w / 2 < 2 || h / 2 < 2 {
        Seq::empty()
    } else {
        seq![(w / 2, h / 2)] + dual_downs(w / 2, h / 2, (n - 1) as nat)
    }
}

/// `x` doubled `k` times.
pub open spec fn times_pow2(x: nat, k: nat) -> nat
    decreases k,
{
    if k == 0 {
        x
    } else {
        2 * times_pow2(x, (k - 1) as nat)
    }
}

/// Sizes of a dual blur's up passes: from the smallest down size, doubled once per
/// further level, and then back to the size the blur started from.
pub open spec fn dual_ups(from: (u32, u32), downs: Seq<(u32, u32)>) -> Seq<(u32, u32)> {
    if downs.len() == 0 {
        seq![from]
    } else {
        Seq::new(
            (downs.len() - 1) as nat,
            |k: int|
                (
                    times_pow2(downs.last().0 as nat, (k + 1) as nat) as u32,
                    times_pow2(downs.last().1 as nat, (k + 1) as nat) as u32,
                ),
        ).push(from)
    }
}

/// The sizes of the temporary targets a dual blur asks for: the size is halved
/// `n` times, and a target is kept only while both sides stay above four pixels.
pub open spec fn gated_halvings(w: u32, h: u32, n: nat) -> Seq<(u32, u32)>
    decreases n,
{
    if n == 0 {
        Seq::empty()
    } else {
        let rest = gated_halvings(w / 2, h / 2, (n - 1) as nat);
        if w / 2 > 4 && h / 2 > 4 {
            seq![(w / 2, h / 2)] + rest
        } else {
            rest
        }
    }
}

pub proof fn lemma_times_pow2_monotonic(x: nat, a: nat, b: nat)
    requires
        a <= b,
    ensures
        times_pow2(x, a) <= times_pow2(x, b),
    decreases b,
{
    if a < b {
        lemma_times_pow2_monotonic(x, a, (b - 1) as nat);
    }
}

/// The down chain is never longer than asked for, and doubling its last size once
/// per level never exceeds the size it started from.
pub proof fn lemma_dual_downs_bounded(w: u32, h: u32, n: nat)
    ensures
        dual_downs(w, h, n).len() <= n,
        dual_downs(w, h, n).len() > 0 ==> {
            let d = dual_downs(w, h, n);
            &&& times_pow2(d.last().0 as nat, d.len()) <= w
            &&& times_pow2(d.last().1 as nat, d.len()) <= h
        },
    decreases n,
{
    if n == 0 || w / 2 < 2 || h / 2 < 2 {
    } else {
        let rest = dual_downs(w / 2, h / 2, (n - 1) as nat);
        lemma_dual_downs_bounded(w / 2, h / 2, (n - 1) as nat);
        let d = dual_downs(w, h, n);
        assert(d == seq![(w / 2, h / 2)] + rest);
        assert(d.len() == rest.len() + 1);
        if rest.len() > 0 {
            assert(d.last() == rest.last());
            assert(times_pow2(d.last().0 as nat, d.len()) == 2 * times_pow2(rest.last().0 as nat, rest.len()));
            assert(times_pow2(d.last().1 as nat, d.len()) == 2 * times_pow2(rest.last().1 as nat, rest.len()));
        } else {
            assert(d.last() == (w / 2, h / 2));
            assert(times_pow2((w / 2) as nat, 0) == w / 2);
            assert(times_pow2((h / 2) as nat, 0) == h / 2);
        }
    }
}

/// The down sizes of a dual blur starting at `from_w` x `from_h` with at most
/// `iteration` levels: halved once per level until a side would fall under two pixels.
pub fn dual_down_sizes(from_w: u32, from_h: u32, iteration: usize) -> (downs: Vec<(u32, u32)>)
    ensures
        downs@ == dual_downs(from_w, from_h, iteration as nat),
{
    let mut downs: Vec<(u32, u32)> = Vec::new();
    let mut tow = from_w;
    let mut toh = from_h;
    let mut idx: usize = 0;
    while idx < iteration
        invariant
            idx <= iteration,
            downs@ + dual_downs(tow, toh, (iteration - idx) as nat) == dual_downs(
                from_w,
                from_h,
                iteration as nat,
            ),
        decreases iteration - idx,
    {
        let ghost before = downs@;
        if tow / 2 >= 2 && toh / 2 >= 2 {
            tow = tow / 2;
            toh = toh / 2;
            downs.push((tow, toh));
            let ghost rest = dual_downs(tow, toh, (iteration - idx - 1) as nat);
            assert(downs@ + rest =~= before + (seq![(tow, toh)] + rest));
        }
        idx = idx + 1;
    }
    assert(downs@ + dual_downs(tow, toh, 0) =~= downs@);
    downs
}

/// Each down size is the size before it halved (rounded down), with both sides at
/// least two pixels.
pub open spec fn halves_step_by_step(w: u32, h: u32, d: Seq<(u32, u32)>) -> bool {
    forall|i: int|
        0 <= i < d.len() ==> {
            let prev = if i == 0 {
                (w, h)
            } else {
                d[i - 1]
            };
            &&& #[trigger] d[i] == (prev.0 / 2, prev.1 / 2)
            &&& d[i].0 >= 2
            &&& d[i].1 >= 2
        }
}

pub proof fn lemma_dual_downs_halve(w: u32, h: u32, n: nat)
    ensures
        halves_step_by_step(w, h, dual_downs(w, h, n)),
    decreases n,
{
    if n == 0 || w / 2 < 2 || h / 2 < 2 {
    } else {
        let rest = dual_downs(w / 2, h / 2, (n - 1) as nat);
        lemma_dual_downs_halve(w / 2, h / 2, (n - 1) as nat);
        let d = dual_downs(w, h, n);
        assert(d == seq![(w / 2, h / 2)] + rest);
        assert forall|i: int| 0 < i < d.len() implies #[trigger] d[i] == rest[i - 1] by {}
    }
}

/// Every temporary target a dual blur asks for has both sides above four pixels,
/// and it asks for at most one per level.
pub proof fn law_blur_dual_targets_above_four(w: u32, h: u32, n: nat)
    ensures
        gated_halvings(w, h, n).len() <= n,
        forall|i: int|
            0 <= i < gated_halvings(w, h, n).len() ==> #[trigger] gated_halvings(w, h, n)[i].0 > 4
                && gated_halvings(w, h, n)[i].1 > 4,
    decreases n,
{
    if n > 0 {
        law_blur_dual_targets_above_four(w / 2, h / 2, (n - 1) as nat);
        let rest = gated_halvings(w / 2, h / 2, (n - 1) as nat);
        if w / 2 > 4 && h / 2 > 4 {
            let g = gated_halvings(w, h, n);
            assert(g == seq![(w / 2, h / 2)] + rest);
            assert(g[0] == (w / 2, h / 2));
            assert forall|i: int| 0 < i < g.len() implies #[trigger] g[i] == rest[i - 1] by {}
        }
    }
}

/// The target a pass at level `t` of the down chain `d` writes: the start size
/// for `t == 0`, down pass `t` otherwise.
pub open spec fn down_cap(w: u32, h: u32, d: Seq<(u32, u32)>, t: int) -> (u32, u32) {
    if t == 0 {
        (w, h)
    } else {
        d[t - 1]
    }
}

/// The smallest down size of `d`, doubled back up to level `t`, fits in level `t`.
pub open spec fn doubled_back_fits(w: u32, h: u32, d: Seq<(u32, u32)>, t: int) -> bool {
    &&& times_pow2(d.last().0 as nat, (d.len() - t) as nat) <= down_cap(w, h, d, t).0
    &&& times_pow2(d.last().1 as nat, (d.len() - t) as nat) <= down_cap(w, h, d, t).1
}

/// Doubling the smallest down size back up to level `t` never exceeds the size at
/// level `t`.
pub proof fn lemma_dual_downs_mirror(w: u32, h: u32, n: nat)
    ensures
        forall|t: int|
            0 <= t < dual_downs(w, h, n).len() ==> #[trigger] doubled_back_fits(
                w,
                h,
                dual_downs(w, h, n),
                t,
            ),
    decreases n,
{
    lemma_dual_downs_bounded(w, h, n);
    if n == 0 || w / 2 < 2 || h / 2 < 2 {
    } else {
        let d = dual_downs(w, h, n);
        let rest = dual_downs(w / 2, h / 2, (n - 1) as nat);
        lemma_dual_downs_mirror(w / 2, h / 2, (n - 1) as nat);
        assert(d == seq![(w / 2, h / 2)] + rest);
        if rest.len() > 0 {
            assert(d.last() == rest.last());
            assert forall|t: int| 0 <= t < d.len() implies #[trigger] doubled_back_fits(w, h, d, t) by {
                if t > 0 {
                    if t > 1 {
                        assert(d[t - 1] == rest[t - 2]);
                    }
                    assert(down_cap(w, h, d, t) == down_cap(w / 2, h / 2, rest, t - 1));
                    assert(doubled_back_fits(w / 2, h / 2, rest, t - 1));
                }
            }
        }
    }
}

/// Plans the temporary targets of a dual blur that starts at `from_w` x `from_h`
/// with `iteration` levels: the size is halved once per level, and a target of
/// that size is kept only while both sides are above four pixels.
pub fn calc_blur_dual_sizes(from_w: u32, from_h: u32, iteration: u8) -> (sizes: Vec<(u32, u32)>)
    ensures
        sizes@ == gated_halvings(from_w, from_h, iteration as nat),
{
    let mut sizes: Vec<(u32, u32)> = Vec::new();
    let mut from_w = from_w;
    let mut from_h = from_h;
    let ghost start = (from_w, from_h);
    let mut i: u8 = 0;
    while i < iteration
        invariant
            i <= iteration,
            sizes@ + gated_halvings(from_w, from_h, (iteration - i) as nat) == gated_halvings(
                start.0,
                start.1,
                iteration as nat,
            ),
        decreases iteration - i,
    {
        let ghost before = sizes@;
        let ghost rest = gated_halvings(from_w / 2, from_h / 2, (iteration - i - 1) as nat);
        let to_w = from_w / 2;
        let to_h = from_h / 2;
        if to_w > 4 && to_h > 4 {
            sizes.push((to_w, to_h));
            assert(sizes@ + rest =~= before + (seq![(to_w, to_h)] + rest));
        }
        from_w = to_w;
        from_h = to_h;
        i = i + 1;
    }
    assert(sizes@ + gated_halvings(from_w, from_h, 0) =~= sizes@);
    sizes
}

/// A render target a dual blur pass reads or writes.
#[derive(Debug, Clone, Copy, PartialEq, Eq, Structural)]
pub enum EDualTarget {
    /// The blur's source.
    Start,
    /// The temporary target of the given level.
    Temp(usize),
    /// The blur's destination.
    Final,
}

/// One render pass of a dual blur.
#[derive(Debug, Clone, Copy, PartialEq, Eq, Structural)]
pub struct DualPass {
    /// Up-sampling pass (`false`: down-sampling).
    pub up: bool,
    pub src: EDualTarget,
    pub dst: EDualTarget,
}

pub open spec fn spec_down_pass(i: int) -> DualPass {
    DualPass {
        up: false,
        src: if i == 0 {
            EDualTarget::Start
        } else {
            EDualTarget::Temp((i - 1) as usize)
        },
        dst: EDualTarget::Temp(i as usize),
    }
}

/// Whether the simplified up pass draws the smallest level straight into the
/// destination: asked for, refused by the target pool for drawing into the
/// destination directly, and at least two levels deep.
pub open spec fn direct_up(levels: usize, simplified_up: bool, src_to_dst_isok: bool) -> bool {
    simplified_up && !src_to_dst_isok && levels >= 2
}

/// Up pass `k` of the normal up chain: from level `levels - 1 - k` to the level above.
pub open spec fn spec_chain_up_pass(levels: usize, k: int) -> DualPass {
    DualPass {
        up: true,
        src: EDualTarget::Temp((levels - 1 - k) as usize),
        dst: EDualTarget::Temp((levels - 2 - k) as usize),
    }
}

/// The render passes of a dual blur over `levels` temporary targets.
pub open spec fn spec_dual_render_passes(
    levels: usize,
    simplified_up: bool,
    src_to_dst_isok: bool,
) -> Seq<DualPass> {
    let downs = Seq::new(levels as nat, |i: int| spec_down_pass(i));
    if direct_up(levels, simplified_up, src_to_dst_isok) {
        downs.push(
            DualPass {
                up: true,
                src: EDualTarget::Temp((levels - 1) as usize),
                dst: EDualTarget::Final,
            },
        )
    } else {
        (downs + Seq::new((levels - 1) as nat, |k: int| spec_chain_up_pass(levels, k))).push(
            DualPass { up: true, src: EDualTarget::Temp(0), dst: EDualTarget::Final },
        )
    }
}

/// Plans the render passes of a dual blur over `levels` temporary targets: one
/// down pass per level, from the source through each level in turn; then either
/// one up pass from the smallest level straight into the destination (see
/// `direct_up`), or one up pass per level back up the chain, the last of them
/// from the first level into the destination. `src_to_dst_isok` is what the
/// target pool answered when asked whether the smallest level may be drawn into
/// the destination; it only counts for a simplified up pass.
pub fn blur_dual_render_passes(levels: usize, simplified_up: bool, src_to_dst_isok: bool) -> (passes:
    Vec<DualPass>)
    requires
        levels >= 1,
    ensures
        passes@ == spec_dual_render_passes(levels, simplified_up, src_to_dst_isok),
{
    let mut passes: Vec<DualPass> = Vec::new();
    let mut src = EDualTarget::Start;
    let mut i: usize = 0;
    while i < levels
        invariant
            i <= levels,
            passes.len() == i,
            src == (if i == 0 {
                EDualTarget::Start
            } else {
                EDualTarget::Temp((i - 1) as usize)
            }),
            forall|k: int| 0 <= k < i ==> #[trigger] passes@[k] == spec_down_pass(k),
        decreases levels - i,
    {
        let dst = EDualTarget::Temp(i);
        passes.push(DualPass { up: false, src, dst });
        src = dst;
        i = i + 1;
    }
    let ghost downs = passes@;
    assert(downs =~= Seq::new(levels as nat, |i: int| spec_down_pass(i)));

    let mut need_normal_renderup = true;
    if simplified_up {
        let last = levels - 1;
        if src_to_dst_isok == false {
            if levels >= 2 {
                need_normal_renderup = false;
                passes.push(DualPass { up: true, src: EDualTarget::Temp(last), dst: EDualTarget::Final });
                assert(passes@ =~= spec_dual_render_passes(levels, simplified_up, src_to_dst_isok));
            }
        }
    }
    if need_normal_renderup {
        let mut level = levels - 1;
        while level > 0
            invariant
                level < levels,
                passes.len() == levels + (levels - 1 - level),
                passes@.subrange(0, levels as int) == downs,
                forall|k: int|
                    0 <= k < levels - 1 - level ==> #[trigger] passes@[levels + k]
                        == spec_chain_up_pass(levels, k),
            decreases level,
        {
            passes.push(DualPass { up: true, src: EDualTarget::Temp(level), dst: EDualTarget::Temp(level - 1) });
            level = level - 1;
        }
        let ghost chain = passes@;
        assert(chain =~= downs + Seq::new((levels - 1) as nat, |k: int| spec_chain_up_pass(levels, k)))
            by {
            assert forall|i: int| 0 <= i < levels implies chain[i] == downs[i] by {
                assert(chain.subrange(0, levels as int)[i] == chain[i]);
            }
            assert forall|i: int| levels <= i < chain.len() implies chain[i] == spec_chain_up_pass(
                levels,
                i - levels,
            ) by {
                let k = i - levels;
                assert(chain[levels + k] == spec_chain_up_pass(levels, k));
            }
        }
        passes.push(DualPass { up: true, src: EDualTarget::Temp(0), dst: EDualTarget::Final });
        assert(!direct_up(levels, simplified_up, src_to_dst_isok));
        assert(passes@ =~= spec_dual_render_passes(levels, simplified_up, src_to_dst_isok));
    }
    passes
}

/// Every pass of a dual blur reads the source or a level that an earlier pass
/// wrote, and the last pass writes the destination.
pub proof fn law_dual_passes_read_written_levels(levels: usize, simplified_up: bool, src_to_dst_isok: bool)
    requires
        levels >= 1,
    ensures
        ({
            let p = spec_dual_render_passes(levels, simplified_up, src_to_dst_isok);
            &&& p.last().dst == EDualTarget::Final
            &&& forall|i: int|
                0 <= i < p.len() ==> (#[trigger] p[i]).src == EDualTarget::Start || exists|j: int|
                    0 <= j < i && p[j].dst == p[i].src
        }),
{
    let p = spec_dual_render_passes(levels, simplified_up, src_to_dst_isok);
    assert forall|i: int| 0 <= i < p.len() implies (#[trigger] p[i]).src == EDualTarget::Start
        || exists|j: int| 0 <= j < i && p[j].dst == p[i].src by {
        if i < levels {
            if i > 0 {
                assert(p[i - 1] == spec_down_pass(i - 1));
            }
        } else if direct_up(levels, simplified_up, src_to_dst_isok) {
            assert(p[levels - 1] == spec_down_pass(levels - 1));
        } else if i < 2 * levels - 1 {
            let k = i - levels;
            let j = levels - 1 - k;
            assert(p[j] == spec_down_pass(j));
        } else {
            assert(p[0] == spec_down_pass(0));
        }
    }
}

} // verus!
