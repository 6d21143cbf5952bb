use pi_postprocess::effect::blur_dual::{level_count, MAX_LEVEL};
use pi_postprocess::effect::color_balance::balance_center;
use pi_postprocess::effect::horizon_glitch::{glitch_life_step, GlitchLifeStep};
use pi_postprocess::effect::{ColorBalance, EMaskMode, HSB};
use pi_postprocess::error::EPostprocessError;
use pi_postprocess::geometry::vertex_buffer_layout::{EVertexBufferLayout, MOVE_E_VERTEX_BUFFER_LAYOUT};
use pi_postprocess::geometry::{EGeometryBuffer, GlitchInstanceViewer, IndicesViewer, VertexPosition2DViewer};
use pi_postprocess::material::blend::{EBlend, MOVE_E_BLEND};
use pi_postprocess::material::depth_and_stencil::EDepthStencilFormat;
use pi_postprocess::material::pipeline::UniformBufferInfo;
use pi_postprocess::material::shader::{shader_sources, EPostprocessShader, ShaderSources};
use pi_postprocess::material::target_format::{ETexutureFormat, MOVE_E_TARGET_FORMAT};
use pi_postprocess::postprocess_flags::PostprocessFlags;
use pi_postprocess::renderer::bloom_dual::{bloom_dual_render_plan, BloomDualPlan, BloomUpPass, EBloomFinish};
use pi_postprocess::renderer::blur_dual::{
    blur_dual_render_passes, calc_blur_dual_sizes, DualPass, EDualTarget,
};
use pi_postprocess::temprory_render_target::{get_rect_info, PostprocessTexture};

#[test]
fn balance_default_is_disabled() {
    let b = ColorBalance::default();
    assert_eq!(b, ColorBalance { r: 255, g: 255, b: 255 });
    assert!(!b.is_enabled());
    assert!(ColorBalance { r: 255, g: 254, b: 255 }.is_enabled());
    assert!(ColorBalance { r: 0, g: 255, b: 255 }.is_enabled());
}

#[test]
fn hsb_default_is_disabled() {
    let h = HSB::default();
    assert_eq!(h, HSB { hue: 0, saturate: 0, brightness: 0 });
    assert!(!h.is_enabled());
    assert!(HSB { hue: -180, saturate: 0, brightness: 0 }.is_enabled());
    assert!(HSB { hue: 0, saturate: 0, brightness: 1 }.is_enabled());
}

#[test]
fn balance_center_is_the_median() {
    assert_eq!(balance_center(&ColorBalance { r: 10, g: 200, b: 50 }), 50);
    assert_eq!(balance_center(&ColorBalance { r: 200, g: 10, b: 50 }), 50);
    assert_eq!(balance_center(&ColorBalance { r: 50, g: 200, b: 10 }), 50);
    assert_eq!(balance_center(&ColorBalance { r: 7, g: 7, b: 255 }), 7);
    assert_eq!(balance_center(&ColorBalance { r: 255, g: 255, b: 255 }), 255);
}

#[test]
fn glitch_restarts_after_its_lifetime() {
    assert_eq!(glitch_life_step(0, 5000, 16), GlitchLifeStep { regenerate: true, life: 16 });
    assert_eq!(glitch_life_step(16, 5000, 16), GlitchLifeStep { regenerate: false, life: 32 });
    assert_eq!(glitch_life_step(5000, 5000, 16), GlitchLifeStep { regenerate: false, life: 5016 });
    assert_eq!(glitch_life_step(5001, 5000, 16), GlitchLifeStep { regenerate: true, life: 16 });
}

#[test]
fn glitch_frame_time_wraps_to_16_bits() {
    assert_eq!(glitch_life_step(1, 10, 65536 + 3), GlitchLifeStep { regenerate: false, life: 4 });
    assert_eq!(glitch_life_step(20, 10, 0), GlitchLifeStep { regenerate: true, life: 0 });
}

#[test]
fn dual_levels_are_capped() {
    assert_eq!(MAX_LEVEL, 4);
    assert_eq!(level_count(0), 0);
    assert_eq!(level_count(3), 3);
    assert_eq!(level_count(4), 4);
    assert_eq!(level_count(200), 4);
}

fn ups(plan: &BloomDualPlan) -> Vec<((u32, u32), usize)> {
    plan.ups.iter().map(|u| (u.size, u.target)).collect()
}

#[test]
fn bloom_plan_mirrors_the_down_chain() {
    let s = bloom_dual_render_plan(64, 32, 2, true);
    assert_eq!(s.downs, vec![(32, 16), (16, 8)]);
    assert_eq!(ups(&s), vec![((32, 16), 1), ((64, 32), 0)]);
    assert_eq!(s.finish, EBloomFinish::AddIntoSource);

    let s = bloom_dual_render_plan(8, 8, 1, false);
    assert_eq!(s.downs, vec![(4, 4)]);
    assert_eq!(s.ups, vec![BloomUpPass { size: (8, 8), target: 0 }]);
    assert_eq!(s.finish, EBloomFinish::CopyThenAdd);
}

#[test]
fn bloom_without_levels_returns_source() {
    let s = bloom_dual_render_plan(3, 3, 5, true);
    assert!(s.downs.is_empty());
    assert!(s.ups.is_empty());
    assert_eq!(s.finish, EBloomFinish::ReturnSource);
    let s = bloom_dual_render_plan(640, 480, 0, false);
    assert_eq!(s.finish, EBloomFinish::ReturnSource);
}

#[test]
fn bloom_odd_sizes_double_back_within_targets() {
    let s = bloom_dual_render_plan(100, 100, 10, false);
    assert_eq!(s.downs, vec![(50, 50), (25, 25), (12, 12), (6, 6), (3, 3)]);
    assert_eq!(
        ups(&s),
        vec![((6, 6), 4), ((12, 12), 3), ((24, 24), 2), ((48, 48), 1), ((96, 96), 0)]
    );
    let s = bloom_dual_render_plan(u32::MAX, u32::MAX, 255, false);
    assert_eq!(s.ups.len(), s.downs.len());
}

#[test]
fn blur_dual_target_sizes_stay_above_four() {
    assert_eq!(calc_blur_dual_sizes(64, 64, 5), vec![(32, 32), (16, 16), (8, 8)]);
    assert_eq!(calc_blur_dual_sizes(64, 9, 3), Vec::<(u32, u32)>::new());
    assert_eq!(calc_blur_dual_sizes(20, 100, 0), Vec::<(u32, u32)>::new());
    assert_eq!(calc_blur_dual_sizes(10, 10, 1), vec![(5, 5)]);
}

#[test]
fn blur_dual_render_pass_plans() {
    let down = |i: usize| DualPass {
        up: false,
        src: if i == 0 { EDualTarget::Start } else { EDualTarget::Temp(i - 1) },
        dst: EDualTarget::Temp(i),
    };
    let up = |from: usize, to: EDualTarget| DualPass { up: true, src: EDualTarget::Temp(from), dst: to };
    let chain = vec![
        down(0),
        down(1),
        down(2),
        up(2, EDualTarget::Temp(1)),
        up(1, EDualTarget::Temp(0)),
        up(0, EDualTarget::Final),
    ];
    assert_eq!(blur_dual_render_passes(3, false, false), chain);
    assert_eq!(blur_dual_render_passes(3, true, true), chain);
    assert_eq!(blur_dual_render_passes(3, true, false), vec![down(0), down(1), down(2), up(2, EDualTarget::Final)]);
    assert_eq!(blur_dual_render_passes(1, true, false), vec![down(0), up(0, EDualTarget::Final)]);
    assert_eq!(blur_dual_render_passes(1, false, false), vec![down(0), up(0, EDualTarget::Final)]);
}

#[test]
fn shader_source_table() {
    let s = shader_sources(EPostprocessShader::BlurDual);
    assert_eq!(
        s,
        ShaderSources {
            vertex_file: "blur_dual.vert",
            fragment_file: "blur_dual.frag",
            vertex_label: "BlurDual",
            fragment_label: "BlurDual",
        }
    );
    let s = shader_sources(EPostprocessShader::CopyIntensity);
    assert_eq!((s.vertex_file, s.fragment_file), ("base.vert", "copy.frag"));
    assert_eq!((s.vertex_label, s.fragment_label), ("CopyIntensity_VS", "CopyIntensity_FS"));
    let s = shader_sources(EPostprocessShader::HorizonGlitch);
    assert_eq!((s.vertex_file, s.fragment_file), ("horizon_glitch.vert", "horizon_glitch.frag"));
    assert_eq!(shader_sources(EPostprocessShader::Sobel).fragment_file, "sobel.frag");
}

#[test]
fn geometry_layouts() {
    assert_eq!(VertexPosition2DViewer::point_size(), 2);
    assert_eq!(VertexPosition2DViewer::point_byte(), 8);
    assert_eq!(VertexPosition2DViewer::count(&vec![0.5f32; 8]), 4);
    assert_eq!(VertexPosition2DViewer::count(&vec![0.5f32; 9]), 4);
    assert_eq!(VertexPosition2DViewer::count(&vec![0.0f32; 140000]), (70000u32 % 65536) as u16);
    assert_eq!(GlitchInstanceViewer::bytes(), 16);
    assert_eq!(GlitchInstanceViewer::MAX_INSTANCE_COUNT, 32);
    assert_eq!(IndicesViewer::triangle_byte(), 6);
    assert_eq!(IndicesViewer::count(&vec![0u16, 1, 2, 2, 1, 3]), 6);
    assert_eq!(IndicesViewer::count(&vec![0u16; 65537]), 1);
    assert_eq!(EGeometryBuffer::Position2D.key(), 0);
    assert_eq!(EGeometryBuffer::Indices.key(), 1);
    assert_eq!(EGeometryBuffer::GlitchInstance.key(), 2);
    assert_ne!(EVertexBufferLayout::Position2D, EVertexBufferLayout::Position2DGlitchInstance);
    assert_eq!(MOVE_E_VERTEX_BUFFER_LAYOUT, 10);
}

#[test]
fn shader_keys_count_from_one() {
    let all = [
        EPostprocessShader::CopyIntensity,
        EPostprocessShader::ColorEffect,
        EPostprocessShader::BlurDual,
        EPostprocessShader::BlurBokeh,
        EPostprocessShader::BlurRadial,
        EPostprocessShader::BlurDirect,
        EPostprocessShader::HorizonGlitch,
        EPostprocessShader::FilterBrightness,
        EPostprocessShader::Sobel,
        EPostprocessShader::RadialWave,
    ];
    for (i, s) in all.iter().enumerate() {
        assert_eq!(s.key() as usize, i + 1);
    }
}

#[test]
fn config_enums_and_offsets() {
    assert_eq!(MOVE_E_BLEND, 16);
    assert_eq!(MOVE_E_TARGET_FORMAT, 10);
    assert_ne!(EBlend::NoBlend, EBlend::Add);
    assert_ne!(EDepthStencilFormat::NoDepthStencil, EDepthStencilFormat::Depth32Float);
    assert_ne!(ETexutureFormat::Rgba8Unorm, ETexutureFormat::Bgra8Unorm);
    assert_ne!(EMaskMode::Clip, EMaskMode::ClipAndMultiplyAlpha);
    assert_ne!(EPostprocessError::ParamMatrixSizeError, EPostprocessError::NotSupportTargetFormat);
}

#[test]
fn uniform_blocks_back_to_back() {
    let info = UniformBufferInfo::from_blocks((256, 256, 256), (80, 16, 16));
    assert_eq!(
        info,
        UniformBufferInfo {
            offset_vertex_matrix: 0,
            size_vertex_matrix: 80,
            offset_param: 256,
            size_param: 16,
            offset_diffuse_matrix: 512,
            size_diffuse_matrix: 16,
            uniform_size: 768,
        }
    );
    let info = UniformBufferInfo::from_blocks((80, 100, 16), (80, 100, 16));
    assert_eq!(info.offset_param, 80);
    assert_eq!(info.offset_diffuse_matrix, 180);
    assert_eq!(info.uniform_size, 196);
    assert!(info.offset_param + info.size_param <= info.offset_diffuse_matrix);
}

#[test]
fn flags_default_is_empty() {
    let f = PostprocessFlags::default();
    assert_eq!(f.active_count, 0);
    assert!(!f.bloom_dual && !f.blur_dual && !f.copy_intensity && !f.horizon_glitch);
}

#[test]
fn texture_region_accessors() {
    let t = PostprocessTexture { use_x: 1, use_y: 2, use_w: 30, use_h: 40, width: 64, height: 128, view: (), format: 7u8 };
    assert_eq!(t.get_rect(), (1, 2, 30, 40));
    assert_eq!(t.get_full_size(), (64, 128));
    assert_eq!((t.use_x(), t.use_y(), t.use_w(), t.use_h()), (1, 2, 30, 40));
    assert_eq!((t.width(), t.height()), (64, 128));
    assert_eq!(t.format(), 7);
    assert!(t.size_eq_2(&(30, 40)));
    assert!(!t.size_eq_2(&(40, 30)));
    let u = PostprocessTexture { use_x: 9, use_y: 9, use_w: 30, use_h: 40, width: 1, height: 1, view: (), format: 0u8 };
    assert!(t.size_eq(&u));
    assert!(u.size_eq(&t));
    let v = PostprocessTexture { use_w: 31, ..u.clone() };
    assert!(!t.size_eq(&v));
}

#[test]
fn rect_info_from_corners() {
    assert_eq!(get_rect_info(10, 20, 110, 70), (10, 20, 100, 50));
    assert_eq!(get_rect_info(0, 0, 0, 0), (0, 0, 0, 0));
    assert_eq!(get_rect_info(-1, 0, 4, 2), (u32::MAX, 0, 5, 2));
    assert_eq!(get_rect_info(5, 5, 4, 5), (5, 5, u32::MAX, 0));
}
