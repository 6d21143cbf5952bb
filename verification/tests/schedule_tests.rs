use pi_postprocess::postprocess::{
    blur_dual_passes, final_step, force_nearest_filter, front_steps, single_step_result,
    BlurDualPass, ESingleStepResult, ETarget, FinalStep, FrontStep, PostprocessSwitches,
};
use pi_postprocess::postprocess_renderer::EPostprocessRenderType as T;

fn none() -> PostprocessSwitches {
    PostprocessSwitches {
        hsb: false,
        color_balance: false,
        color_scale: false,
        vignette: false,
        color_filter: false,
        blur_dual: false,
        blur_direct: false,
        blur_radial: false,
        blur_bokeh: false,
        bloom_dual: false,
        blur_gauss: false,
        radial_wave: false,
        horizon_glitch: false,
        filter_sobel: false,
        image_mask: false,
        clip_sdf: false,
        copy_intensity: false,
        alpha: false,
    }
}

fn all() -> PostprocessSwitches {
    PostprocessSwitches {
        hsb: true,
        color_balance: true,
        color_scale: true,
        vignette: true,
        color_filter: true,
        blur_dual: true,
        blur_direct: true,
        blur_radial: true,
        blur_bokeh: true,
        bloom_dual: true,
        blur_gauss: true,
        radial_wave: true,
        horizon_glitch: true,
        filter_sobel: true,
        image_mask: true,
        clip_sdf: true,
        copy_intensity: true,
        alpha: true,
    }
}

#[test]
fn nothing_enabled_renders_nothing() {
    assert_eq!(none().render_flags(true), Vec::<T>::new());
    assert_eq!(none().render_flags(false), Vec::<T>::new());
    assert_eq!(final_step(&none().render_flags(true), 16, (8, 8), true), None);
}

#[test]
fn copy_forces_a_pass() {
    let mut s = none();
    s.copy_intensity = true;
    let flags = s.render_flags(true);
    assert_eq!(flags, vec![T::CopyIntensity]);
    let fin = final_step(&flags, 16, (8, 8), true).unwrap();
    assert_eq!(single_step_result(fin.flag, fin.target), ESingleStepResult::FinalDraw);
}

#[test]
fn everything_enabled_follows_the_schedule() {
    let flags = all().render_flags(true);
    assert_eq!(
        flags,
        vec![
            T::ColorEffect,
            T::BlurDual,
            T::BlurDirect,
            T::BlurRadial,
            T::BlurBokeh,
            T::BloomDual,
            T::BlurGauss,
            T::RadialWave,
            T::HorizonGlitch,
            T::FilterSobel,
            T::ImageMask,
            T::ClipSdf,
            T::CopyIntensity,
        ]
    );
}

#[test]
fn any_colour_setting_turns_on_the_colour_pass() {
    let mut s = none();
    s.vignette = true;
    assert_eq!(s.render_flags(false), vec![T::ColorEffect]);
    let mut s = none();
    s.color_filter = true;
    assert_eq!(s.render_flags(true), vec![T::ColorEffect]);
}

#[test]
fn multi_step_last_pass_gets_a_closing_copy() {
    for set in [
        |s: &mut PostprocessSwitches| s.blur_dual = true,
        |s: &mut PostprocessSwitches| s.bloom_dual = true,
        |s: &mut PostprocessSwitches| s.blur_gauss = true,
        |s: &mut PostprocessSwitches| s.horizon_glitch = true,
    ] {
        let mut s = none();
        set(&mut s);
        let flags = s.render_flags(true);
        assert_eq!(flags.len(), 2);
        assert_eq!(flags[1], T::FinalCopyIntensity);
        assert!(flags[0].is_multi_step());
        assert_eq!(s.render_flags(false).len(), 1);
    }
}

#[test]
fn single_step_last_pass_needs_no_closing_copy() {
    let mut s = none();
    s.blur_dual = true;
    s.filter_sobel = true;
    assert_eq!(s.render_flags(true), vec![T::BlurDual, T::FilterSobel]);
}

#[test]
fn alpha_alone_adds_one_closing_copy() {
    let mut s = none();
    s.alpha = true;
    assert_eq!(s.render_flags(true), vec![T::FinalCopyIntensity]);
    s.blur_gauss = true;
    assert_eq!(s.render_flags(true), vec![T::BlurGauss, T::FinalCopyIntensity]);
}

#[test]
fn explicit_copy_replaces_alpha_copy() {
    let mut s = none();
    s.alpha = true;
    s.copy_intensity = true;
    assert_eq!(s.render_flags(true), vec![T::CopyIntensity]);
}

#[test]
fn schedule_is_strictly_ordered_for_every_switch_set() {
    let order = |t: T| t as usize;
    for bits in 0u32..(1 << 12) {
        let mut s = none();
        s.blur_dual = bits & 1 != 0;
        s.blur_direct = bits & 2 != 0;
        s.bloom_dual = bits & 4 != 0;
        s.blur_gauss = bits & 8 != 0;
        s.horizon_glitch = bits & 16 != 0;
        s.filter_sobel = bits & 32 != 0;
        s.copy_intensity = bits & 64 != 0;
        s.alpha = bits & 128 != 0;
        s.hsb = bits & 256 != 0;
        s.image_mask = bits & 512 != 0;
        s.clip_sdf = bits & 1024 != 0;
        s.radial_wave = bits & 2048 != 0;
        let flags = s.render_flags(true);
        assert_eq!(flags.is_empty(), bits == 0);
        if let Some(last) = flags.last() {
            assert!(!last.is_multi_step());
        }
        for w in flags.windows(2) {
            assert!(order(w[0]) < order(w[1]));
        }
    }
}

#[test]
fn front_steps_cover_all_but_last() {
    let flags = vec![T::ColorEffect, T::BlurDual, T::BloomDual, T::HorizonGlitch, T::CopyIntensity];
    let steps = front_steps(&flags, (640, 480), true);
    assert_eq!(steps.len(), 4);
    assert_eq!(
        steps[0],
        FrontStep {
            flag: T::ColorEffect,
            target: ETarget::Temp(640, 480),
            src_premultiplied: true,
            dst_premultiply: false,
            result_use_once: true,
        }
    );
    assert!(!steps[1].result_use_once);
    assert!(!steps[2].result_use_once);
    assert!(steps[3].result_use_once);
    for s in &steps[1..] {
        assert!(!s.src_premultiplied);
        assert_eq!(s.target, ETarget::Temp(640, 480));
    }
    let fin = final_step(&flags, 16, (800, 600), true).unwrap();
    assert_eq!(
        fin,
        FinalStep {
            flag: T::CopyIntensity,
            target: ETarget::Final(800, 600),
            src_premultiplied: false,
            dst_premultiply: true,
        }
    );
}

#[test]
fn one_pass_reads_the_source_as_given() {
    let flags = vec![T::BlurDirect];
    assert!(front_steps(&flags, (10, 10), true).is_empty());
    let fin = final_step(&flags, 16, (10, 10), true).unwrap();
    assert!(fin.src_premultiplied);
    assert!(fin.dst_premultiply);
    let fin = final_step(&flags, 16, (10, 10), false).unwrap();
    assert!(!fin.src_premultiplied);
    assert!(!fin.dst_premultiply);
}

#[test]
fn final_step_needs_a_full_matrix_and_a_pass() {
    let flags = vec![T::BlurDirect];
    assert_eq!(final_step(&flags, 15, (10, 10), true), None);
    assert_eq!(final_step(&flags, 0, (10, 10), true), None);
    assert_eq!(final_step(&Vec::new(), 16, (10, 10), true), None);
}

#[test]
fn single_step_results() {
    assert_eq!(single_step_result(T::BlurDual, ETarget::Temp(1, 1)), ESingleStepResult::Target);
    assert_eq!(single_step_result(T::BlurDual, ETarget::Final(1, 1)), ESingleStepResult::Nothing);
    assert_eq!(single_step_result(T::HorizonGlitch, ETarget::Final(1, 1)), ESingleStepResult::Nothing);
    assert_eq!(single_step_result(T::ClipSdf, ETarget::Final(1, 1)), ESingleStepResult::FinalDraw);
    assert_eq!(single_step_result(T::FinalCopyIntensity, ETarget::Final(3, 4)), ESingleStepResult::FinalDraw);
}

#[test]
fn draw_final_draws_whenever_a_pass_is_scheduled() {
    for bits in 0u32..(1 << 6) {
        let mut s = none();
        s.blur_dual = bits & 1 != 0;
        s.bloom_dual = bits & 2 != 0;
        s.blur_gauss = bits & 4 != 0;
        s.horizon_glitch = bits & 8 != 0;
        s.alpha = bits & 16 != 0;
        s.blur_bokeh = bits & 32 != 0;
        let flags = s.render_flags(true);
        match final_step(&flags, 16, (8, 8), false) {
            Some(fin) => assert_eq!(single_step_result(fin.flag, fin.target), ESingleStepResult::FinalDraw),
            None => assert_eq!(bits, 0),
        }
    }
}

#[test]
fn target_size_is_the_same_for_both_kinds() {
    assert_eq!(ETarget::Temp(3, 7).size(), (3, 7));
    assert_eq!(ETarget::Final(3, 7).size(), (3, 7));
}

fn sizes(passes: &[BlurDualPass], up: bool) -> Vec<(u32, u32)> {
    passes.iter().filter(|p| p.up == up).map(|p| p.size).collect()
}

#[test]
fn dual_blur_halves_then_doubles_back() {
    let p = blur_dual_passes((100, 10), 4, true, true);
    assert_eq!(sizes(&p, false), vec![(50, 5), (25, 2)]);
    assert_eq!(sizes(&p, true), vec![(50, 4), (100, 10)]);

    let p = blur_dual_passes((256, 256), 3, false, false);
    assert_eq!(sizes(&p, false), vec![(128, 128), (64, 64), (32, 32)]);
    assert_eq!(sizes(&p, true), vec![(64, 64), (128, 128), (256, 256)]);
}

#[test]
fn dual_blur_pass_details() {
    let p = blur_dual_passes((256, 256), 3, true, true);
    let pass = |size: (u32, u32), up: bool, level: usize, src: bool, dst: bool, caller: bool| BlurDualPass {
        size,
        up,
        level,
        src_premultiplied: src,
        dst_premultiply: dst,
        to_caller_target: caller,
    };
    assert_eq!(
        p,
        vec![
            pass((128, 128), false, 0, true, false, false),
            pass((64, 64), false, 1, false, false, false),
            pass((32, 32), false, 2, false, false, false),
            pass((64, 64), true, 1, false, false, false),
            pass((128, 128), true, 2, false, false, false),
            pass((256, 256), true, 0, false, true, true),
        ]
    );
}

#[test]
fn dual_blur_on_tiny_target_renders_once() {
    let p = blur_dual_passes((3, 100), 4, true, false);
    assert_eq!(
        p,
        vec![BlurDualPass {
            size: (3, 100),
            up: true,
            level: 0,
            src_premultiplied: true,
            dst_premultiply: false,
            to_caller_target: true,
        }]
    );
    let p = blur_dual_passes((640, 480), 0, false, false);
    assert_eq!(sizes(&p, false), Vec::<(u32, u32)>::new());
    assert_eq!(sizes(&p, true), vec![(640, 480)]);
}

#[test]
fn dual_blur_odd_sizes_round_down() {
    let p = blur_dual_passes((101, 77), 2, false, false);
    assert_eq!(sizes(&p, false), vec![(50, 38), (25, 19)]);
    assert_eq!(sizes(&p, true), vec![(50, 38), (101, 77)]);
}

#[test]
fn dual_blur_at_largest_size_does_not_overflow() {
    let p = blur_dual_passes((u32::MAX, u32::MAX), 4, false, false);
    assert_eq!(sizes(&p, false).len(), 4);
    assert_eq!(p.last().unwrap().size, (u32::MAX, u32::MAX));
    assert!(p.iter().all(|s| s.level < 4));
}

#[test]
fn nearest_filter_only_for_unscaled_single_passes() {
    assert!(force_nearest_filter(T::ColorEffect, (10, 20), ETarget::Temp(10, 20)));
    assert!(force_nearest_filter(T::FinalCopyIntensity, (10, 20), ETarget::Final(10, 20)));
    assert!(force_nearest_filter(T::ClipSdf, (1, 1), ETarget::Temp(1, 1)));
    assert!(!force_nearest_filter(T::ColorEffect, (10, 20), ETarget::Temp(20, 10)));
    assert!(!force_nearest_filter(T::BlurDirect, (10, 20), ETarget::Temp(10, 20)));
    assert!(!force_nearest_filter(T::BlurDual, (10, 20), ETarget::Temp(10, 20)));
}
