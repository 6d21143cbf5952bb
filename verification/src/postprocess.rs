use vstd::prelude::*;

use crate::effect::blur_dual::MAX_LEVEL;
use crate::postprocess_renderer::EPostprocessRenderType;
use crate::renderer::blur_dual::{
    dual_down_sizes,
    dual_downs,
    dual_ups,
    halves_step_by_step,
    lemma_dual_downs_bounded,
    lemma_dual_downs_halve,
    lemma_times_pow2_monotonic,
    times_pow2,
};

verus! {

/// Where a render pass writes: a temporary target, or the caller's final target.
/// Both carry the target's width and height.
#[derive(Debug, Clone, Copy, PartialEq, Eq, Structural)]
pub enum ETarget {
    Temp(u32, u32),
    Final(u32, u32),
}

impl ETarget {
    pub open spec fn spec_size(self) -> (u32, u32) {
        match self {
            ETarget::Temp(w, h) => (w, h),
            ETarget::Final(w, h) => (w, h),
        }
    }

    /// Width and height of the target, whichever kind it is.
    pub fn size(&self) -> (size: (u32, u32))
        ensures
            size == self.spec_size(),
    {
        match self {
            ETarget::Temp(w, h) => (*w, *h),
            ETarget::Final(w, h) => (*w, *h),
        }
    }
}

/// Which effects a post-process asks for this frame.
///
/// A field is `true` when the effect is set and its parameters ask for a visible
/// change; `image_mask`, `clip_sdf`, `copy_intensity` and `alpha` are `true` when
/// the effect is set at all; `horizon_glitch` is `true` when the glitch is set,
/// enabled and produced at least one stripe for this frame.
#[derive(Debug, Clone, Copy, PartialEq, Eq, Structural)]
pub struct PostprocessSwitches {
    pub hsb: bool,
    pub color_balance: bool,
    pub color_scale: bool,
    pub vignette: bool,
    pub color_filter: bool,
    pub blur_dual: bool,
    pub blur_direct: bool,
    pub blur_radial: bool,
    pub blur_bokeh: bool,
    pub bloom_dual: bool,
    pub blur_gauss: bool,
    pub radial_wave: bool,
    pub horizon_glitch: bool,
    pub filter_sobel: bool,
    pub image_mask: bool,
    pub clip_sdf: bool,
    pub copy_intensity: bool,
    pub alpha: bool,
}

/// `s` with `t` appended when `cond` holds.
#[verifier::opaque]
pub open spec fn push_if(
    s: Seq<EPostprocessRenderType>,
    cond: bool,
    t: EPostprocessRenderType,
) -> Seq<EPostprocessRenderType> {
    if cond {
        s.push(t)
    } else {
        s
    }
}

/// A schedule needs a closing copy pass when it would otherwise end with a pass
/// that cannot draw into the final target. An empty schedule needs none: when no
/// effect asks for a pass, nothing is rendered (a set `copy` forces a pass).
pub open spec fn needs_closing_copy(s: Seq<EPostprocessRenderType>) -> bool {
    s.len() > 0 && s.last().spec_is_multi_step()
}

/// Appends `t` to the schedule when `cond` holds, and keeps track of whether the
/// schedule would need a closing copy pass.
fn schedule_if(
    flags: &mut Vec<EPostprocessRenderType>,
    final_is_multi_render_steps: &mut bool,
    cond: bool,
    t: EPostprocessRenderType,
)
    requires
        *old(final_is_multi_render_steps) == needs_closing_copy(old(flags)@),
    ensures
        final(flags)@ == push_if(old(flags)@, cond, t),
        *final(final_is_multi_render_steps) == needs_closing_copy(final(flags)@),
{
    reveal(push_if);
    if cond {
        flags.push(t);
        *final_is_multi_render_steps = t.is_multi_step();
    }
}

impl PostprocessSwitches {
    /// The colour passes (HSB, balance, scale, vignette, filter) share one render pass.
    pub open spec fn color_effect(self) -> bool {
        self.hsb || self.color_balance || self.color_scale || self.vignette || self.color_filter
    }

    /// The passes of the enabled effects, in the pipeline's fixed order.
    pub open spec fn effect_flags(self) -> Seq<EPostprocessRenderType> {
        let s = push_if(Seq::empty(), self.color_effect(), EPostprocessRenderType::ColorEffect);
        let s = push_if(s, self.blur_dual, EPostprocessRenderType::BlurDual);
        let s = push_if(s, self.blur_direct, EPostprocessRenderType::BlurDirect);
        let s = push_if(s, self.blur_radial, EPostprocessRenderType::BlurRadial);
        let s = push_if(s, self.blur_bokeh, EPostprocessRenderType::BlurBokeh);
        let s = push_if(s, self.bloom_dual, EPostprocessRenderType::BloomDual);
        let s = push_if(s, self.blur_gauss, EPostprocessRenderType::BlurGauss);
        let s = push_if(s, self.radial_wave, EPostprocessRenderType::RadialWave);
        let s = push_if(s, self.horizon_glitch, EPostprocessRenderType::HorizonGlitch);
        let s = push_if(s, self.filter_sobel, EPostprocessRenderType::FilterSobel);
        let s = push_if(s, self.image_mask, EPostprocessRenderType::ImageMask);
        let s = push_if(s, self.clip_sdf, EPostprocessRenderType::ClipSdf);
        let s = push_if(s, self.copy_intensity, EPostprocessRenderType::CopyIntensity);
        push_if(s, !self.copy_intensity && self.alpha, EPostprocessRenderType::FinalCopyIntensity)
    }

    /// The full schedule: the effect passes, followed by a closing copy when the
    /// last pass is to be drawn by `draw_final` and the effect passes cannot end there.
    pub open spec fn spec_render_flags(self, final_step_by_draw_final: bool) -> Seq<
        EPostprocessRenderType,
    > {
        let base = self.effect_flags();
        push_if(
            base,
            final_step_by_draw_final && needs_closing_copy(base),
            EPostprocessRenderType::FinalCopyIntensity,
        )
    }

    /// Schedules the render passes for this frame.
    pub fn render_flags(&self, final_step_by_draw_final: bool) -> (flags: Vec<
        EPostprocessRenderType,
    >)
        ensures
            flags@ == self.spec_render_flags(final_step_by_draw_final),
    {
        let mut flags: Vec<EPostprocessRenderType> = Vec::new();
        let color_effect = self.hsb || self.color_balance || self.color_scale || self.vignette
            || self.color_filter;
        let mut final_is_multi_render_steps = false;

        schedule_if(&mut flags, &mut final_is_multi_render_steps, color_effect, EPostprocessRenderType::ColorEffect);
        schedule_if(&mut flags, &mut final_is_multi_render_steps, self.blur_dual, EPostprocessRenderType::BlurDual);
        schedule_if(&mut flags, &mut final_is_multi_render_steps, self.blur_direct, EPostprocessRenderType::BlurDirect);
        schedule_if(&mut flags, &mut final_is_multi_render_steps, self.blur_radial, EPostprocessRenderType::BlurRadial);
        schedule_if(&mut flags, &mut final_is_multi_render_steps, self.blur_bokeh, EPostprocessRenderType::BlurBokeh);
        schedule_if(&mut flags, &mut final_is_multi_render_steps, self.bloom_dual, EPostprocessRenderType::BloomDual);
        schedule_if(&mut flags, &mut final_is_multi_render_steps, self.blur_gauss, EPostprocessRenderType::BlurGauss);
        schedule_if(&mut flags, &mut final_is_multi_render_steps, self.radial_wave, EPostprocessRenderType::RadialWave);
        schedule_if(&mut flags, &mut final_is_multi_render_steps, self.horizon_glitch, EPostprocessRenderType::HorizonGlitch);
        schedule_if(&mut flags, &mut final_is_multi_render_steps, self.filter_sobel, EPostprocessRenderType::FilterSobel);
        schedule_if(&mut flags, &mut final_is_multi_render_steps, self.image_mask, EPostprocessRenderType::ImageMask);
        schedule_if(&mut flags, &mut final_is_multi_render_steps, self.clip_sdf, EPostprocessRenderType::ClipSdf);
        // An explicit copy pass takes the place of the alpha-only closing copy.
        schedule_if(&mut flags, &mut final_is_multi_render_steps, self.copy_intensity, EPostprocessRenderType::CopyIntensity);
        let alpha_copy = !self.copy_intensity && self.alpha;
        schedule_if(&mut flags, &mut final_is_multi_render_steps, alpha_copy, EPostprocessRenderType::FinalCopyIntensity);
        assert(flags@ == self.effect_flags());

        let closing = final_step_by_draw_final && final_is_multi_render_steps;
        schedule_if(&mut flags, &mut final_is_multi_render_steps, closing, EPostprocessRenderType::FinalCopyIntensity);
        flags
    }
}

/// What one render pass leaves behind.
#[derive(Debug, Clone, Copy, PartialEq, Eq, Structural)]
pub enum ESingleStepResult {
    /// A new temporary target holding the pass's output, the source of the next pass.
    Target,
    /// A draw call into the caller's final target.
    FinalDraw,
    /// Nothing: the pass cannot be drawn into that target.
    Nothing,
}

pub open spec fn spec_single_step_result(
    flag: EPostprocessRenderType,
    target: ETarget,
) -> ESingleStepResult {
    match target {
        ETarget::Temp(_, _) => ESingleStepResult::Target,
        ETarget::Final(_, _) => if flag.spec_is_multi_step() {
            ESingleStepResult::Nothing
        } else {
            ESingleStepResult::FinalDraw
        },
    }
}

/// What rendering pass `flag` into `target` produces: every pass rendered into a
/// temporary target yields that target; a single-pass effect rendered into the
/// final target yields a draw call; a multi-pass effect yields nothing there.
pub fn single_step_result(flag: EPostprocessRenderType, target: ETarget) -> (result:
    ESingleStepResult)
    ensures
        result == spec_single_step_result(flag, target),
{
    match target {
        ETarget::Temp(_, _) => ESingleStepResult::Target,
        ETarget::Final(_, _) => {
            if flag.is_multi_step() {
                ESingleStepResult::Nothing
            } else {
                ESingleStepResult::FinalDraw
            }
        },
    }
}

/// Passes whose texture sampling can switch to nearest-pixel filtering.
pub open spec fn samples_nearest_when_unscaled(flag: EPostprocessRenderType) -> bool {
    match flag {
        EPostprocessRenderType::ColorEffect => true,
        EPostprocessRenderType::CopyIntensity => true,
        EPostprocessRenderType::FinalCopyIntensity => true,
        EPostprocessRenderType::ImageMask => true,
        EPostprocessRenderType::ClipSdf => true,
        _ => false,
    }
}

/// Whether pass `flag` samples its source with nearest-pixel filtering: the
/// colour, copy, mask and clip passes do when the source region has exactly the
/// target's size (no scaling); every other pass filters linearly.
pub fn force_nearest_filter(
    flag: EPostprocessRenderType,
    source_size: (u32, u32),
    target: ETarget,
) -> (nearest: bool)
    ensures
        nearest == (samples_nearest_when_unscaled(flag) && source_size == target.spec_size()),
{
    let dst_size = target.size();
    let unscaled = source_size.0 == dst_size.0 && source_size.1 == dst_size.1;
    let takes_choice = match flag {
        EPostprocessRenderType::ColorEffect => true,
        EPostprocessRenderType::CopyIntensity => true,
        EPostprocessRenderType::FinalCopyIntensity => true,
        EPostprocessRenderType::ImageMask => true,
        EPostprocessRenderType::ClipSdf => true,
        _ => false,
    };
    takes_choice && unscaled
}

/// One pass rendered before the last one, from the current source into a fresh
/// temporary target (with the identity transform, full alpha and the default colour state).
#[derive(Debug, Clone, Copy, PartialEq, Eq, Structural)]
pub struct FrontStep {
    pub flag: EPostprocessRenderType,
    pub target: ETarget,
    /// Whether the pass reads its source as premultiplied.
    pub src_premultiplied: bool,
    /// Whether the pass writes premultiplied output.
    pub dst_premultiply: bool,
    /// Whether the pass's output is read only once by the next pass.
    pub result_use_once: bool,
}

/// The output of a pass is read more than once when the next pass is a glitch or a bloom.
pub open spec fn read_once_by(next: EPostprocessRenderType) -> bool {
    next != EPostprocessRenderType::HorizonGlitch && next != EPostprocessRenderType::BloomDual
}

pub open spec fn spec_front_step(
    flags: Seq<EPostprocessRenderType>,
    i: int,
    src_size: (u32, u32),
    src_premultiplied: bool,
) -> FrontStep {
    FrontStep {
        flag: flags[i],
        target: ETarget::Temp(src_size.0, src_size.1),
        src_premultiplied: src_premultiplied && i == 0,
        dst_premultiply: false,
        result_use_once: read_once_by(flags[i + 1]),
    }
}

/// All passes but the last, in schedule order.
pub open spec fn spec_front_steps(
    flags: Seq<EPostprocessRenderType>,
    src_size: (u32, u32),
    src_premultiplied: bool,
) -> Seq<FrontStep> {
    if flags.len() <= 1 {
        Seq::empty()
    } else {
        Seq::new((flags.len() - 1) as nat, |i: int| spec_front_step(flags, i, src_size, src_premultiplied))
    }
}

/// Plans the passes rendered before the last one: each scheduled pass but the
/// last renders at the size of the original source into a temporary target; only
/// the first reads its source as it was given (premultiplied or not), the others
/// read the previous pass's plain output.
pub fn front_steps(
    flags: &Vec<EPostprocessRenderType>,
    src_size: (u32, u32),
    src_premultiplied: bool,
) -> (steps: Vec<FrontStep>)
    ensures
        steps@ == spec_front_steps(flags@, src_size, src_premultiplied),
        forall|i: int| 0 <= i < steps.len() ==> !(#[trigger] steps@[i]).dst_premultiply,
{
    let count = flags.len();
    let mut steps: Vec<FrontStep> = Vec::new();
    if count <= 1 {
        assert(steps@ =~= spec_front_steps(flags@, src_size, src_premultiplied));
        return steps;
    }
    let target = ETarget::Temp(src_size.0, src_size.1);
    let mut src_pre = src_premultiplied;
    let mut i: usize = 0;
    while i < count - 1
        invariant
            count == flags.len(),
            count > 1,
            i <= count - 1,
            target == ETarget::Temp(src_size.0, src_size.1),
            i <= 1 ==> src_pre == src_premultiplied,
            i > 1 ==> !src_pre,
            steps.len() == i,
            forall|k: int|
                0 <= k < i ==> #[trigger] steps@[k] == spec_front_step(
                    flags@,
                    k,
                    src_size,
                    src_premultiplied,
                ),
        decreases count - 1 - i,
    {
        let flag = flags[i];
        let next = flags[i + 1];
        let result_use_once = match next {
            EPostprocessRenderType::HorizonGlitch => false,
            EPostprocessRenderType::BloomDual => false,
            _ => true,
        };
        if i > 0 {
            src_pre = false;
        }
        steps.push(
            FrontStep {
                flag,
                target,
                src_premultiplied: src_pre,
                dst_premultiply: false,
                result_use_once,
            },
        );
        i = i + 1;
    }
    assert(steps@ =~= spec_front_steps(flags@, src_size, src_premultiplied));
    steps
}

/// The last pass, drawn into the caller's final target.
#[derive(Debug, Clone, Copy, PartialEq, Eq, Structural)]
pub struct FinalStep {
    pub flag: EPostprocessRenderType,
    pub target: ETarget,
    /// Whether the pass reads its source as premultiplied.
    pub src_premultiplied: bool,
    /// Whether the pass writes premultiplied output.
    pub dst_premultiply: bool,
}

pub open spec fn spec_final_step(
    flags: Seq<EPostprocessRenderType>,
    matrix_len: usize,
    target_size: (u32, u32),
    src_preimultiplied: bool,
) -> Option<FinalStep> {
    if matrix_len == 16 && flags.len() > 0 {
        Some(
            FinalStep {
                flag: flags.last(),
                target: ETarget::Final(target_size.0, target_size.1),
                src_premultiplied: flags.len() == 1 && src_preimultiplied,
                dst_premultiply: src_preimultiplied,
            },
        )
    } else {
        None
    }
}

/// Plans the last pass: there is one when the transform holds sixteen values and
/// a pass is scheduled. It is the last scheduled pass; it reads its source as
/// given only when it is the only pass, and writes premultiplied output exactly
/// when the original source was premultiplied.
pub fn final_step(
    flags: &Vec<EPostprocessRenderType>,
    matrix_len: usize,
    target_size: (u32, u32),
    src_preimultiplied: bool,
) -> (step: Option<FinalStep>)
    ensures
        step == spec_final_step(flags@, matrix_len, target_size, src_preimultiplied),
{
    if matrix_len == 16 {
        let count = flags.len();
        if count > 0 {
            let flag = flags[count - 1];
            let src_premultiplied = if count == 1 {
                src_preimultiplied
            } else {
                false
            };
            let dst_premultiply = src_preimultiplied;
            Some(
                FinalStep {
                    flag,
                    target: ETarget::Final(target_size.0, target_size.1),
                    src_premultiplied,
                    dst_premultiply,
                },
            )
        } else {
            None
        }
    } else {
        None
    }
}

/// Target sizes of a dual blur pass: its down passes, then its up passes, the
/// last of which renders at the size the blur started from.
struct DualBlurSizes {
    downs: Vec<(u32, u32)>,
    ups: Vec<(u32, u32)>,
}

/// The sizes of a dual blur rendered into a target of `dst_size` with at most
/// `iteration` levels.
fn blur_dual_sizes(dst_size: (u32, u32), iteration: usize) -> (passes: DualBlurSizes)
    requires
        iteration <= MAX_LEVEL,
    ensures
        passes.downs@ == dual_downs(dst_size.0, dst_size.1, iteration as nat),
        passes.ups@ == dual_ups(dst_size, passes.downs@),
{
    let fromw = dst_size.0;
    let fromh = dst_size.1;
    let downs = dual_down_sizes(fromw, fromh, iteration);
    let realiter = downs.len();
    let mut ups: Vec<(u32, u32)> = Vec::new();
    if realiter >= 1 {
        proof {
            lemma_dual_downs_bounded(fromw, fromh, iteration as nat);
        }
        let ghost lw = downs@.last().0 as nat;
        let ghost lh = downs@.last().1 as nat;
        let mut tow = downs[realiter - 1].0;
        let mut toh = downs[realiter - 1].1;
        let mut idx: usize = 1;
        while idx < realiter
            invariant
                realiter == downs.len(),
                lw == downs@.last().0,
                lh == downs@.last().1,
                1 <= idx <= realiter,
                tow as nat == times_pow2(lw, (idx - 1) as nat),
                toh as nat == times_pow2(lh, (idx - 1) as nat),
                times_pow2(lw, realiter as nat) <= fromw,
                times_pow2(lh, realiter as nat) <= fromh,
                ups.len() == idx - 1,
                forall|k: int|
                    0 <= k < idx - 1 ==> #[trigger] ups@[k] == (
                        times_pow2(lw, (k + 1) as nat) as u32,
                        times_pow2(lh, (k + 1) as nat) as u32,
                    ),
            decreases realiter - idx,
        {
            proof {
                lemma_times_pow2_monotonic(lw, idx as nat, realiter as nat);
                lemma_times_pow2_monotonic(lh, idx as nat, realiter as nat);
            }
            tow = tow * 2;
            toh = toh * 2;
            ups.push((tow, toh));
            idx = idx + 1;
        }
    }
    ups.push((fromw, fromh));
    assert(ups@ =~= dual_ups(dst_size, downs@));
    DualBlurSizes { downs, ups }
}

/// One render pass of a dual blur.
#[derive(Debug, Clone, Copy, PartialEq, Eq)]
pub struct BlurDualPass {
    /// Size the pass renders at.
    pub size: (u32, u32),
    /// Up-sampling pass (`false`: down-sampling).
    pub up: bool,
    /// Which renderer of the level list the pass uses (down list or up list).
    pub level: usize,
    /// Whether the pass reads its source as premultiplied.
    pub src_premultiplied: bool,
    /// Whether the pass writes premultiplied output.
    pub dst_premultiply: bool,
    /// The pass draws with the caller's alpha, depth, colour state and
    /// depth-stencil; the others draw with full alpha, zero depth, the default
    /// colour state and no depth-stencil.
    pub to_caller_target: bool,
}

/// The passes of a dual blur into a target of `dst_size` with at most `iteration`
/// levels: one down pass per down size (renderer `k`), then one up pass per
/// further level (renderer `k + 1`), then the last up pass at `dst_size`
/// (renderer 0) into the caller's target. Only the first pass reads its source as
/// given; only the last writes premultiplied output, as the caller asks.
pub open spec fn spec_blur_dual_plan(
    dst_size: (u32, u32),
    iteration: nat,
    src_premultiplied: bool,
    dst_premultiply: bool,
) -> Seq<BlurDualPass> {
    let d = dual_downs(dst_size.0, dst_size.1, iteration);
    let u = dual_ups(dst_size, d);
    let downs = Seq::new(
        d.len(),
        |k: int|
            BlurDualPass {
                size: d[k],
                up: false,
                level: k as usize,
                src_premultiplied: src_premultiplied && k == 0,
                dst_premultiply: false,
                to_caller_target: false,
            },
    );
    let inner = Seq::new(
        (u.len() - 1) as nat,
        |k: int|
            BlurDualPass {
                size: u[k],
                up: true,
                level: (k + 1) as usize,
                src_premultiplied: false,
                dst_premultiply: false,
                to_caller_target: false,
            },
    );
    (downs + inner).push(
        BlurDualPass {
            size: dst_size,
            up: true,
            level: 0,
            src_premultiplied: src_premultiplied && d.len() == 0,
            dst_premultiply,
            to_caller_target: true,
        },
    )
}

proof fn lemma_blur_dual_plan_parts(
    dst_size: (u32, u32),
    iteration: nat,
    src_premultiplied: bool,
    dst_premultiply: bool,
)
    ensures
        ({
            let p = spec_blur_dual_plan(dst_size, iteration, src_premultiplied, dst_premultiply);
            let d = dual_downs(dst_size.0, dst_size.1, iteration);
            let u = dual_ups(dst_size, d);
            &&& u.len() >= 1
            &&& p.len() == d.len() + u.len()
            &&& forall|k: int|
                0 <= k < d.len() ==> #[trigger] p[k] == (BlurDualPass {
                    size: d[k],
                    up: false,
                    level: k as usize,
                    src_premultiplied: src_premultiplied && k == 0,
                    dst_premultiply: false,
                    to_caller_target: false,
                })
            &&& forall|k: int|
                0 <= k < u.len() - 1 ==> #[trigger] p[d.len() + k] == (BlurDualPass {
                    size: u[k],
                    up: true,
                    level: (k + 1) as usize,
                    src_premultiplied: false,
                    dst_premultiply: false,
                    to_caller_target: false,
                })
            &&& p[p.len() - 1] == (BlurDualPass {
                size: dst_size,
                up: true,
                level: 0,
                src_premultiplied: src_premultiplied && d.len() == 0,
                dst_premultiply,
                to_caller_target: true,
            })
        }),
{
}

/// Plans a dual blur rendered into a target of `dst_size` with `iteration`
/// levels (at most `MAX_LEVEL`, one renderer per level): the down passes halve
/// the size while both sides stay at two pixels or more, the up passes double the
/// smallest size back once per further level, and the last up pass renders at
/// `dst_size` into the caller's target (see `spec_blur_dual_plan`).
pub fn blur_dual_passes(
    dst_size: (u32, u32),
    iteration: usize,
    src_premultiplied: bool,
    dst_premultiply: bool,
) -> (passes: Vec<BlurDualPass>)
    requires
        iteration <= MAX_LEVEL,
    ensures
        passes@ == spec_blur_dual_plan(dst_size, iteration as nat, src_premultiplied, dst_premultiply),
{
    let sizes = blur_dual_sizes(dst_size, iteration);
    let ghost d = sizes.downs@;
    let ghost u = sizes.ups@;
    proof {
        lemma_dual_downs_bounded(dst_size.0, dst_size.1, iteration as nat);
        lemma_blur_dual_plan_parts(dst_size, iteration as nat, src_premultiplied, dst_premultiply);
    }
    let ghost plan = spec_blur_dual_plan(dst_size, iteration as nat, src_premultiplied, dst_premultiply);
    let realiter = sizes.downs.len();
    let mut passes: Vec<BlurDualPass> = Vec::new();
    let mut src_pre = src_premultiplied;
    let mut k: usize = 0;
    while k < realiter
        invariant
            realiter == d.len(),
            realiter <= MAX_LEVEL,
            d == sizes.downs@,
            d == dual_downs(dst_size.0, dst_size.1, iteration as nat),
            plan == spec_blur_dual_plan(dst_size, iteration as nat, src_premultiplied, dst_premultiply),
            k <= realiter,
            src_pre == (src_premultiplied && k == 0),
            passes.len() == k,
            forall|j: int|
                0 <= j < k ==> #[trigger] passes@[j] == spec_blur_dual_plan(
                    dst_size,
                    iteration as nat,
                    src_premultiplied,
                    dst_premultiply,
                )[j],
        decreases realiter - k,
    {
        passes.push(
            BlurDualPass {
                size: sizes.downs[k],
                up: false,
                level: k,
                src_premultiplied: src_pre,
                dst_premultiply: false,
                to_caller_target: false,
            },
        );
        proof {
            lemma_blur_dual_plan_parts(dst_size, iteration as nat, src_premultiplied, dst_premultiply);
        }
        assert(passes@[k as int] == plan[k as int]);
        src_pre = false;
        k = k + 1;
    }
    let inner = sizes.ups.len() - 1;
    let mut k: usize = 0;
    while k < inner
        invariant
            realiter == d.len(),
            realiter <= MAX_LEVEL,
            d == sizes.downs@,
            d == dual_downs(dst_size.0, dst_size.1, iteration as nat),
            plan == spec_blur_dual_plan(dst_size, iteration as nat, src_premultiplied, dst_premultiply),
            u == sizes.ups@,
            u == dual_ups(dst_size, d),
            inner == u.len() - 1,
            inner < realiter || inner == 0,
            k <= inner,
            realiter > 0 ==> !src_pre,
            src_pre == (src_premultiplied && realiter == 0),
            passes.len() == realiter + k,
            forall|j: int|
                0 <= j < realiter + k ==> #[trigger] passes@[j] == spec_blur_dual_plan(
                    dst_size,
                    iteration as nat,
                    src_premultiplied,
                    dst_premultiply,
                )[j],
        decreases inner - k,
    {
        passes.push(
            BlurDualPass {
                size: sizes.ups[k],
                up: true,
                level: k + 1,
                src_premultiplied: src_pre,
                dst_premultiply: false,
                to_caller_target: false,
            },
        );
        proof {
            lemma_blur_dual_plan_parts(dst_size, iteration as nat, src_premultiplied, dst_premultiply);
        }
        assert(passes@[realiter + k] == plan[d.len() + k]);
        src_pre = false;
        k = k + 1;
    }
    passes.push(
        BlurDualPass {
            size: dst_size,
            up: true,
            level: 0,
            src_premultiplied: src_pre,
            dst_premultiply,
            to_caller_target: true,
        },
    );
    assert(passes@ =~= spec_blur_dual_plan(dst_size, iteration as nat, src_premultiplied, dst_premultiply));
    passes
}

/// Every pass of `s` comes strictly later in the fixed schedule than the passes before it.
pub open spec fn follows_schedule(s: Seq<EPostprocessRenderType>) -> bool {
    forall|i: int, j: int| 0 <= i < j < s.len() ==> #[trigger] s[i].rank() < #[trigger] s[j].rank()
}

/// Every pass of `s` comes before position `bound` of the schedule.
pub open spec fn ranks_below(s: Seq<EPostprocessRenderType>, bound: int) -> bool {
    forall|i: int| 0 <= i < s.len() ==> #[trigger] s[i].rank() < bound
}

proof fn lemma_push_if_keeps_schedule(
    s: Seq<EPostprocessRenderType>,
    cond: bool,
    t: EPostprocessRenderType,
    next: int,
)
    requires
        follows_schedule(s),
        ranks_below(s, t.rank()),
        t.rank() < next,
    ensures
        follows_schedule(push_if(s, cond, t)),
        ranks_below(push_if(s, cond, t), next),
{
    reveal(push_if);
    let r = push_if(s, cond, t);
    assert forall|i: int, j: int| 0 <= i < j < r.len() implies #[trigger] r[i].rank()
        < #[trigger] r[j].rank() by {
        if cond && j == s.len() {
            assert(r[i] == s[i]);
        } else {
            assert(r[i] == s[i] && r[j] == s[j]);
        }
    }
    assert forall|i: int| 0 <= i < r.len() implies #[trigger] r[i].rank() < next by {
        if !(cond && i == s.len()) {
            assert(r[i] == s[i]);
        }
    }
}

proof fn lemma_push_if_contains(
    s: Seq<EPostprocessRenderType>,
    cond: bool,
    t: EPostprocessRenderType,
    x: EPostprocessRenderType,
)
    ensures
        push_if(s, cond, t).contains(x) == (s.contains(x) || (cond && t == x)),
{
    reveal(push_if);
    if cond {
        let r = s.push(t);
        if s.contains(x) {
            let i = choose|i: int| 0 <= i < s.len() && s[i] == x;
            assert(r[i] == x);
        }
        if r.contains(x) && t != x {
            let i = choose|i: int| 0 <= i < r.len() && r[i] == x;
            assert(s[i] == x);
        }
        if t == x {
            assert(r[s.len() as int] == x);
        }
    }
}

/// The scheduled passes always come in the pipeline's fixed order, each at most once.
pub proof fn law_render_flags_follow_schedule(s: PostprocessSwitches, final_step_by_draw_final: bool)
    ensures
        follows_schedule(s.spec_render_flags(final_step_by_draw_final)),
{
    let e = Seq::<EPostprocessRenderType>::empty();
    let s0 = push_if(e, s.color_effect(), EPostprocessRenderType::ColorEffect);
    lemma_push_if_keeps_schedule(e, s.color_effect(), EPostprocessRenderType::ColorEffect, 1);
    let s1 = push_if(s0, s.blur_dual, EPostprocessRenderType::BlurDual);
    lemma_push_if_keeps_schedule(s0, s.blur_dual, EPostprocessRenderType::BlurDual, 2);
    let s2 = push_if(s1, s.blur_direct, EPostprocessRenderType::BlurDirect);
    lemma_push_if_keeps_schedule(s1, s.blur_direct, EPostprocessRenderType::BlurDirect, 3);
    let s3 = push_if(s2, s.blur_radial, EPostprocessRenderType::BlurRadial);
    lemma_push_if_keeps_schedule(s2, s.blur_radial, EPostprocessRenderType::BlurRadial, 4);
    let s4 = push_if(s3, s.blur_bokeh, EPostprocessRenderType::BlurBokeh);
    lemma_push_if_keeps_schedule(s3, s.blur_bokeh, EPostprocessRenderType::BlurBokeh, 5);
    let s5 = push_if(s4, s.bloom_dual, EPostprocessRenderType::BloomDual);
    lemma_push_if_keeps_schedule(s4, s.bloom_dual, EPostprocessRenderType::BloomDual, 6);
    let s6 = push_if(s5, s.blur_gauss, EPostprocessRenderType::BlurGauss);
    lemma_push_if_keeps_schedule(s5, s.blur_gauss, EPostprocessRenderType::BlurGauss, 7);
    let s7 = push_if(s6, s.radial_wave, EPostprocessRenderType::RadialWave);
    lemma_push_if_keeps_schedule(s6, s.radial_wave, EPostprocessRenderType::RadialWave, 8);
    let s8 = push_if(s7, s.horizon_glitch, EPostprocessRenderType::HorizonGlitch);
    lemma_push_if_keeps_schedule(s7, s.horizon_glitch, EPostprocessRenderType::HorizonGlitch, 9);
    let s9 = push_if(s8, s.filter_sobel, EPostprocessRenderType::FilterSobel);
    lemma_push_if_keeps_schedule(s8, s.filter_sobel, EPostprocessRenderType::FilterSobel, 10);
    let s10 = push_if(s9, s.image_mask, EPostprocessRenderType::ImageMask);
    lemma_push_if_keeps_schedule(s9, s.image_mask, EPostprocessRenderType::ImageMask, 11);
    let s11 = push_if(s10, s.clip_sdf, EPostprocessRenderType::ClipSdf);
    lemma_push_if_keeps_schedule(s10, s.clip_sdf, EPostprocessRenderType::ClipSdf, 12);
    let s12 = push_if(s11, s.copy_intensity, EPostprocessRenderType::CopyIntensity);
    lemma_push_if_keeps_schedule(s11, s.copy_intensity, EPostprocessRenderType::CopyIntensity, 13);
    let alpha_copy = !s.copy_intensity && s.alpha;
    let base = push_if(s12, alpha_copy, EPostprocessRenderType::FinalCopyIntensity);
    lemma_push_if_keeps_schedule(s12, alpha_copy, EPostprocessRenderType::FinalCopyIntensity, 14);
    assert(base == s.effect_flags());
    let closing = final_step_by_draw_final && needs_closing_copy(base);
    if closing {
        assert(ranks_below(base, 13)) by {
            if base.len() > 0 {
                assert forall|i: int| 0 <= i < base.len() implies #[trigger] base[i].rank() < 13 by {
                    if i < base.len() - 1 {
                        assert(base[i].rank() < base[base.len() - 1].rank());
                    }
                }
            }
        }
        lemma_push_if_keeps_schedule(base, closing, EPostprocessRenderType::FinalCopyIntensity, 14);
    } else {
        reveal(push_if);
    }
}

/// When the last pass is drawn by `draw_final`, the schedule never ends with a
/// pass that needs temporary targets of its own; and the schedule is empty
/// exactly when no effect asks for a pass.
pub proof fn law_render_flags_end_drawable(s: PostprocessSwitches, final_step_by_draw_final: bool)
    ensures
        s.spec_render_flags(true).len() > 0 ==> !s.spec_render_flags(true).last().spec_is_multi_step(),
        (s.spec_render_flags(final_step_by_draw_final).len() == 0) == (s.effect_flags().len() == 0),
{
    reveal(push_if);
}

/// Whether pass `x` is in the schedule of `s`, read off the switches one by one.
pub open spec fn asked_for(s: PostprocessSwitches, final_step_by_draw_final: bool, x: EPostprocessRenderType) -> bool {
    match x {
        EPostprocessRenderType::ColorEffect => s.color_effect(),
        EPostprocessRenderType::BlurDual => s.blur_dual,
        EPostprocessRenderType::BlurDirect => s.blur_direct,
        EPostprocessRenderType::BlurRadial => s.blur_radial,
        EPostprocessRenderType::BlurBokeh => s.blur_bokeh,
        EPostprocessRenderType::BloomDual => s.bloom_dual,
        EPostprocessRenderType::BlurGauss => s.blur_gauss,
        EPostprocessRenderType::RadialWave => s.radial_wave,
        EPostprocessRenderType::HorizonGlitch => s.horizon_glitch,
        EPostprocessRenderType::FilterSobel => s.filter_sobel,
        EPostprocessRenderType::ImageMask => s.image_mask,
        EPostprocessRenderType::ClipSdf => s.clip_sdf,
        EPostprocessRenderType::CopyIntensity => s.copy_intensity,
        EPostprocessRenderType::FinalCopyIntensity => (!s.copy_intensity && s.alpha) || (
        final_step_by_draw_final && needs_closing_copy(s.effect_flags())),
    }
}

/// A pass is scheduled exactly when its effect asks for it; the closing copy is
/// scheduled for a set alpha without a copy pass, or to end a schedule that could
/// not end otherwise.
#[verifier::rlimit(30)]
pub proof fn law_render_flags_exactly_when_asked(
    s: PostprocessSwitches,
    final_step_by_draw_final: bool,
    x: EPostprocessRenderType,
)
    ensures
        s.spec_render_flags(final_step_by_draw_final).contains(x) == asked_for(
            s,
            final_step_by_draw_final,
            x,
        ),
{
    let e = Seq::<EPostprocessRenderType>::empty();
    let s0 = push_if(e, s.color_effect(), EPostprocessRenderType::ColorEffect);
    let s1 = push_if(s0, s.blur_dual, EPostprocessRenderType::BlurDual);
    let s2 = push_if(s1, s.blur_direct, EPostprocessRenderType::BlurDirect);
    let s3 = push_if(s2, s.blur_radial, EPostprocessRenderType::BlurRadial);
    let s4 = push_if(s3, s.blur_bokeh, EPostprocessRenderType::BlurBokeh);
    let s5 = push_if(s4, s.bloom_dual, EPostprocessRenderType::BloomDual);
    let s6 = push_if(s5, s.blur_gauss, EPostprocessRenderType::BlurGauss);
    let s7 = push_if(s6, s.radial_wave, EPostprocessRenderType::RadialWave);
    let s8 = push_if(s7, s.horizon_glitch, EPostprocessRenderType::HorizonGlitch);
    let s9 = push_if(s8, s.filter_sobel, EPostprocessRenderType::FilterSobel);
    let s10 = push_if(s9, s.image_mask, EPostprocessRenderType::ImageMask);
    let s11 = push_if(s10, s.clip_sdf, EPostprocessRenderType::ClipSdf);
    let s12 = push_if(s11, s.copy_intensity, EPostprocessRenderType::CopyIntensity);
    let alpha_copy = !s.copy_intensity && s.alpha;
    let base = push_if(s12, alpha_copy, EPostprocessRenderType::FinalCopyIntensity);
    assert(base == s.effect_flags());
    let closing = final_step_by_draw_final && needs_closing_copy(base);
    assert(!e.contains(x));
    lemma_push_if_contains(e, s.color_effect(), EPostprocessRenderType::ColorEffect, x);
    lemma_push_if_contains(s0, s.blur_dual, EPostprocessRenderType::BlurDual, x);
    lemma_push_if_contains(s1, s.blur_direct, EPostprocessRenderType::BlurDirect, x);
    lemma_push_if_contains(s2, s.blur_radial, EPostprocessRenderType::BlurRadial, x);
    lemma_push_if_contains(s3, s.blur_bokeh, EPostprocessRenderType::BlurBokeh, x);
    lemma_push_if_contains(s4, s.bloom_dual, EPostprocessRenderType::BloomDual, x);
    lemma_push_if_contains(s5, s.blur_gauss, EPostprocessRenderType::BlurGauss, x);
    lemma_push_if_contains(s6, s.radial_wave, EPostprocessRenderType::RadialWave, x);
    lemma_push_if_contains(s7, s.horizon_glitch, EPostprocessRenderType::HorizonGlitch, x);
    lemma_push_if_contains(s8, s.filter_sobel, EPostprocessRenderType::FilterSobel, x);
    lemma_push_if_contains(s9, s.image_mask, EPostprocessRenderType::ImageMask, x);
    lemma_push_if_contains(s10, s.clip_sdf, EPostprocessRenderType::ClipSdf, x);
    lemma_push_if_contains(s11, s.copy_intensity, EPostprocessRenderType::CopyIntensity, x);
    lemma_push_if_contains(s12, alpha_copy, EPostprocessRenderType::FinalCopyIntensity, x);
    lemma_push_if_contains(base, closing, EPostprocessRenderType::FinalCopyIntensity, x);
}

/// The passes before the last and the last pass together render every scheduled
/// pass exactly once, in schedule order.
pub proof fn law_steps_cover_schedule(
    flags: Seq<EPostprocessRenderType>,
    src_size: (u32, u32),
    target_size: (u32, u32),
    src_preimultiplied: bool,
)
    requires
        flags.len() > 0,
    ensures
        spec_final_step(flags, 16, target_size, src_preimultiplied) is Some,
        spec_front_steps(flags, src_size, src_preimultiplied).map_values(|s: FrontStep| s.flag).push(
            spec_final_step(flags, 16, target_size, src_preimultiplied).unwrap().flag,
        ) == flags,
{
    let f = spec_front_steps(flags, src_size, src_preimultiplied);
    let all = f.map_values(|s: FrontStep| s.flag).push(
        spec_final_step(flags, 16, target_size, src_preimultiplied).unwrap().flag,
    );
    assert(all =~= flags);
}

/// Every pass before the last writes a temporary target, so each has an output
/// for the next pass to read.
pub proof fn law_front_steps_yield_targets(
    flags: Seq<EPostprocessRenderType>,
    src_size: (u32, u32),
    src_preimultiplied: bool,
)
    ensures
        forall|i: int|
            0 <= i < spec_front_steps(flags, src_size, src_preimultiplied).len() ==> {
                let s = #[trigger] spec_front_steps(flags, src_size, src_preimultiplied)[i];
                spec_single_step_result(s.flag, s.target) == ESingleStepResult::Target
            },
{
}

/// Only the first pass reads the source as it was given; every later pass, the
/// last one included, reads plain output of the pass before it.
pub proof fn law_source_read_as_given_once(
    flags: Seq<EPostprocessRenderType>,
    src_size: (u32, u32),
    target_size: (u32, u32),
    src_preimultiplied: bool,
)
    requires
        flags.len() > 0,
    ensures
        ({
            let reads = spec_front_steps(flags, src_size, src_preimultiplied).map_values(
                |s: FrontStep| s.src_premultiplied,
            ).push(spec_final_step(flags, 16, target_size, src_preimultiplied).unwrap().src_premultiplied);
            &&& reads.len() == flags.len()
            &&& reads[0] == src_preimultiplied
            &&& forall|k: int| 0 < k < reads.len() ==> !#[trigger] reads[k]
        }),
{
}

/// With a sixteen-value transform, the schedule built for `draw_final` yields a
/// final draw whenever some effect asks for a pass, and no last pass at all when
/// none does.
pub proof fn law_draw_final_draws_when_asked(
    s: PostprocessSwitches,
    target_size: (u32, u32),
    src_preimultiplied: bool,
)
    ensures
        ({
            let step = spec_final_step(s.spec_render_flags(true), 16, target_size, src_preimultiplied);
            &&& (step is Some) == (s.effect_flags().len() > 0)
            &&& step is Some ==> spec_single_step_result(step.unwrap().flag, step.unwrap().target)
                == ESingleStepResult::FinalDraw
        }),
{
    law_render_flags_end_drawable(s, true);
}

/// A dual blur never asks for a renderer beyond its level list, reads its source
/// as given in its first pass only, and draws into the caller's target in its
/// last pass only.
pub proof fn law_blur_dual_passes_within_levels(
    dst_size: (u32, u32),
    iteration: usize,
    src_premultiplied: bool,
    dst_premultiply: bool,
)
    requires
        iteration <= MAX_LEVEL,
    ensures
        ({
            let p = spec_blur_dual_plan(dst_size, iteration as nat, src_premultiplied, dst_premultiply);
            &&& p[0].src_premultiplied == src_premultiplied
            &&& p.last().to_caller_target
            &&& forall|i: int| 0 <= i < p.len() ==> (#[trigger] p[i]).level < MAX_LEVEL
            &&& forall|i: int| 0 < i < p.len() ==> !(#[trigger] p[i]).src_premultiplied
            &&& forall|i: int| 0 <= i < p.len() - 1 ==> !(#[trigger] p[i]).to_caller_target
        }),
{
    lemma_dual_downs_bounded(dst_size.0, dst_size.1, iteration as nat);
}

/// Each down pass of a dual blur renders at half the size of the pass before it
/// (rounded down) and never under two pixels a side; no up pass renders larger
/// than the blur's target, and the last one renders at exactly its size.
pub proof fn law_blur_dual_passes_shrink_then_restore(dst_size: (u32, u32), iteration: nat)
    ensures
        halves_step_by_step(dst_size.0, dst_size.1, dual_downs(dst_size.0, dst_size.1, iteration)),
        ({
            let ups = dual_ups(dst_size, dual_downs(dst_size.0, dst_size.1, iteration));
            &&& ups.last() == dst_size
            &&& forall|k: int|
                0 <= k < ups.len() ==> #[trigger] ups[k].0 <= dst_size.0 && ups[k].1 <= dst_size.1
        }),
{
    let d = dual_downs(dst_size.0, dst_size.1, iteration);
    lemma_dual_downs_halve(dst_size.0, dst_size.1, iteration);
    lemma_dual_downs_bounded(dst_size.0, dst_size.1, iteration);
    let ups = dual_ups(dst_size, d);
    if d.len() > 0 {
        assert forall|k: int| 0 <= k < ups.len() implies #[trigger] ups[k].0 <= dst_size.0
            && ups[k].1 <= dst_size.1 by {
            if k < d.len() - 1 {
                lemma_times_pow2_monotonic(d.last().0 as nat, (k + 1) as nat, d.len());
                lemma_times_pow2_monotonic(d.last().1 as nat, (k + 1) as nat, d.len());
            }
        }
    }
}

/// Which pass kinds a schedule holds, switch by switch: the colour pass exactly
/// when one of the HSB, balance, scale, vignette or filter switches is set; each
/// other effect pass exactly when its own switch is set; the closing copy for a
/// set alpha without a copy pass, or to end a schedule drawn by `draw_final`
/// whose effect passes end with a dual blur, a bloom, a gaussian blur or a glitch.
#[verifier::rlimit(40)]
pub proof fn law_render_flags_contents(s: PostprocessSwitches, final_step_by_draw_final: bool)
    ensures
        ({
            let r = s.spec_render_flags(final_step_by_draw_final);
            let e = s.effect_flags();
            &&& r.contains(EPostprocessRenderType::ColorEffect) == (s.hsb || s.color_balance
                || s.color_scale || s.vignette || s.color_filter)
            &&& r.contains(EPostprocessRenderType::BlurDual) == s.blur_dual
            &&& r.contains(EPostprocessRenderType::BlurDirect) == s.blur_direct
            &&& r.contains(EPostprocessRenderType::BlurRadial) == s.blur_radial
            &&& r.contains(EPostprocessRenderType::BlurBokeh) == s.blur_bokeh
            &&& r.contains(EPostprocessRenderType::BloomDual) == s.bloom_dual
            &&& r.contains(EPostprocessRenderType::BlurGauss) == s.blur_gauss
            &&& r.contains(EPostprocessRenderType::RadialWave) == s.radial_wave
            &&& r.contains(EPostprocessRenderType::HorizonGlitch) == s.horizon_glitch
            &&& r.contains(EPostprocessRenderType::FilterSobel) == s.filter_sobel
            &&& r.contains(EPostprocessRenderType::ImageMask) == s.image_mask
            &&& r.contains(EPostprocessRenderType::ClipSdf) == s.clip_sdf
            &&& r.contains(EPostprocessRenderType::CopyIntensity) == s.copy_intensity
            &&& r.contains(EPostprocessRenderType::FinalCopyIntensity) == ((!s.copy_intensity
                && s.alpha) || (final_step_by_draw_final && e.len() > 0 && (e.last()
                == EPostprocessRenderType::BlurDual || e.last() == EPostprocessRenderType::BloomDual
                || e.last() == EPostprocessRenderType::BlurGauss || e.last()
                == EPostprocessRenderType::HorizonGlitch)))
        }),
{
    law_render_flags_exactly_when_asked(s, final_step_by_draw_final, EPostprocessRenderType::ColorEffect);
    law_render_flags_exactly_when_asked(s, final_step_by_draw_final, EPostprocessRenderType::BlurDual);
    law_render_flags_exactly_when_asked(s, final_step_by_draw_final, EPostprocessRenderType::BlurDirect);
    law_render_flags_exactly_when_asked(s, final_step_by_draw_final, EPostprocessRenderType::BlurRadial);
    law_render_flags_exactly_when_asked(s, final_step_by_draw_final, EPostprocessRenderType::BlurBokeh);
    law_render_flags_exactly_when_asked(s, final_step_by_draw_final, EPostprocessRenderType::BloomDual);
    law_render_flags_exactly_when_asked(s, final_step_by_draw_final, EPostprocessRenderType::BlurGauss);
    law_render_flags_exactly_when_asked(s, final_step_by_draw_final, EPostprocessRenderType::RadialWave);
    law_render_flags_exactly_when_asked(s, final_step_by_draw_final, EPostprocessRenderType::HorizonGlitch);
    law_render_flags_exactly_when_asked(s, final_step_by_draw_final, EPostprocessRenderType::FilterSobel);
    law_render_flags_exactly_when_asked(s, final_step_by_draw_final, EPostprocessRenderType::ImageMask);
    law_render_flags_exactly_when_asked(s, final_step_by_draw_final, EPostprocessRenderType::ClipSdf);
    law_render_flags_exactly_when_asked(s, final_step_by_draw_final, EPostprocessRenderType::CopyIntensity);
    law_render_flags_exactly_when_asked(s, final_step_by_draw_final, EPostprocessRenderType::FinalCopyIntensity);
}

/// When the last pass is drawn by `draw_final`, a non-empty schedule never ends
/// with a dual blur, a bloom, a gaussian blur or a glitch: those are the passes
/// that cannot draw into the final target.
pub proof fn law_render_flags_end_outside_multi_pass(s: PostprocessSwitches)
    ensures
        ({
            let r = s.spec_render_flags(true);
            r.len() > 0 ==> (r.last() != EPostprocessRenderType::BlurDual && r.last()
                != EPostprocessRenderType::BloomDual && r.last() != EPostprocessRenderType::BlurGauss
                && r.last() != EPostprocessRenderType::HorizonGlitch)
        }),
{
    law_render_flags_end_drawable(s, true);
}

/// A pass rendered into a temporary target always yields that target. Into the
/// final target, a dual blur, a bloom, a gaussian blur or a glitch yields nothing,
/// and every other pass (the bokeh blur among them) yields a final draw.
pub proof fn law_single_step_into_final(flag: EPostprocessRenderType, w: u32, h: u32)
    ensures
        spec_single_step_result(flag, ETarget::Temp(w, h)) == ESingleStepResult::Target,
        spec_single_step_result(flag, ETarget::Final(w, h)) == (if flag
            == EPostprocessRenderType::BlurDual || flag == EPostprocessRenderType::BloomDual || flag
            == EPostprocessRenderType::BlurGauss || flag == EPostprocessRenderType::HorizonGlitch {
            ESingleStepResult::Nothing
        } else {
            ESingleStepResult::FinalDraw
        }),
{
}

/// The passes before the last: one per scheduled pass but the last, in schedule
/// order, each at the source size into a temporary target. Every one of them writes
/// plain (not premultiplied) output, which is what the pass after it reads; its
/// output is read once unless the next pass is a glitch or a bloom.
pub proof fn law_front_steps_write_plain(
    flags: Seq<EPostprocessRenderType>,
    src_size: (u32, u32),
    src_premultiplied: bool,
)
    ensures
        ({
            let f = spec_front_steps(flags, src_size, src_premultiplied);
            &&& f.len() == (if flags.len() > 1 { flags.len() - 1 } else { 0 })
            &&& forall|i: int|
                0 <= i < f.len() ==> {
                    &&& !(#[trigger] f[i]).dst_premultiply
                    &&& f[i].flag == flags[i]
                    &&& f[i].target == ETarget::Temp(src_size.0, src_size.1)
                    &&& f[i].result_use_once == (flags[i + 1] != EPostprocessRenderType::HorizonGlitch
                        && flags[i + 1] != EPostprocessRenderType::BloomDual)
                }
            &&& forall|i: int|
                0 <= i < f.len() - 1 ==> (#[trigger] f[i]).dst_premultiply == f[i
                    + 1].src_premultiplied
        }),
{
}

/// The last pass exists exactly when the transform holds sixteen values and a
/// pass is scheduled; it is the last scheduled pass, drawn into a final target of
/// the requested size, and writes premultiplied output exactly when the original
/// source was premultiplied (a premultiplied source comes back premultiplied).
pub proof fn law_final_step_restores_premultiply(
    flags: Seq<EPostprocessRenderType>,
    matrix_len: usize,
    target_size: (u32, u32),
    src_preimultiplied: bool,
)
    ensures
        ({
            let step = spec_final_step(flags, matrix_len, target_size, src_preimultiplied);
            &&& (step is Some) == (matrix_len == 16 && flags.len() > 0)
            &&& step is Some ==> {
                &&& step.unwrap().flag == flags[flags.len() - 1]
                &&& step.unwrap().target == ETarget::Final(target_size.0, target_size.1)
                &&& step.unwrap().dst_premultiply == src_preimultiplied
                &&& (flags.len() > 1 ==> !step.unwrap().src_premultiplied)
                &&& (flags.len() == 1 ==> step.unwrap().src_premultiplied == src_preimultiplied)
            }
        }),
{
}

/// Nearest-pixel sampling is chosen only for the colour, copy, closing copy, mask
/// and clip passes, and for them exactly when the source region has the target's
/// size; the blurs, the bloom, the distortions and the edge filter always filter
/// linearly.
pub proof fn law_nearest_filter_only_unscaled(
    flag: EPostprocessRenderType,
    source_size: (u32, u32),
    target: ETarget,
)
    ensures
        (samples_nearest_when_unscaled(flag) && source_size == target.spec_size()) == ((flag
            == EPostprocessRenderType::ColorEffect || flag == EPostprocessRenderType::CopyIntensity
            || flag == EPostprocessRenderType::FinalCopyIntensity || flag
            == EPostprocessRenderType::ImageMask || flag == EPostprocessRenderType::ClipSdf)
            && source_size.0 == target.spec_size().0 && source_size.1 == target.spec_size().1),
{
}

} // verus!
