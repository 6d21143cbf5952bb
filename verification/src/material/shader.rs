use vstd::prelude::*;

verus! {

/// The shader programs of the pipeline.
#[derive(Debug, Copy, Clone, PartialEq, Eq, Structural)]
pub enum EPostprocessShader {
    CopyIntensity,
    ColorEffect,
    BlurDual,
    BlurBokeh,
    BlurRadial,
    BlurDirect,
    HorizonGlitch,
    FilterBrightness,
    Sobel,
    RadialWave,
}

/// Bit offset of the shader in a pipeline key.
pub const MOVE_E_POSTPROCESS_SHADER: u128 = 100;

impl EPostprocessShader {
    /// The key the shader's material is stored under: its position in the list
    /// above, counted from one.
    pub fn key(&self) -> (key: u8)
        ensures
            1 <= key <= 10,
            key == shader_key(*self),
    {
        match self {
            EPostprocessShader::CopyIntensity => 1,
            EPostprocessShader::ColorEffect => 2,
            EPostprocessShader::BlurDual => 3,
            EPostprocessShader::BlurBokeh => 4,
            EPostprocessShader::BlurRadial => 5,
            EPostprocessShader::BlurDirect => 6,
            EPostprocessShader::HorizonGlitch => 7,
            EPostprocessShader::FilterBrightness => 8,
            EPostprocessShader::Sobel => 9,
            EPostprocessShader::RadialWave => 10,
        }
    }
}

/// Distinct shaders are stored under distinct keys.
pub proof fn law_shader_keys_distinct(a: EPostprocessShader, b: EPostprocessShader)
    ensures
        shader_key(a) == shader_key(b) <==> a == b,
{
}

/// The key of a shader, as `key` returns it.
pub open spec fn shader_key(s: EPostprocessShader) -> u8 {
    match s {
        EPostprocessShader::CopyIntensity => 1u8,
        EPostprocessShader::ColorEffect => 2u8,
        EPostprocessShader::BlurDual => 3u8,
        EPostprocessShader::BlurBokeh => 4u8,
        EPostprocessShader::BlurRadial => 5u8,
        EPostprocessShader::BlurDirect => 6u8,
        EPostprocessShader::HorizonGlitch => 7u8,
        EPostprocessShader::FilterBrightness => 8u8,
        EPostprocessShader::Sobel => 9u8,
        EPostprocessShader::RadialWave => 10u8,
    }
}

/// The GLSL source files of a shader program (in the `shaders` directory) and
/// the debug labels of its two modules.
#[derive(Debug, Clone, Copy, PartialEq, Eq)]
pub struct ShaderSources {
    pub vertex_file: &'static str,
    pub fragment_file: &'static str,
    pub vertex_label: &'static str,
    pub fragment_label: &'static str,
}

/// Source files and labels of each shader: (vertex file, fragment file,
/// vertex label, fragment label).
pub open spec fn spec_shader_sources(shader: EPostprocessShader) -> (Seq<char>, Seq<char>, Seq<
    char,
>, Seq<char>) {
    match shader {
        EPostprocessShader::CopyIntensity => ("base.vert"@, "copy.frag"@, "CopyIntensity_VS"@, "CopyIntensity_FS"@),
        EPostprocessShader::ColorEffect => ("base.vert"@, "color_effect.frag"@, "ColorEffect_vs"@, "ColorEffect_Fs"@),
        EPostprocessShader::BlurDual => ("blur_dual.vert"@, "blur_dual.frag"@, "BlurDual"@, "BlurDual"@),
        EPostprocessShader::BlurBokeh => ("base.vert"@, "blur_bokeh.frag"@, "blur_bokeh"@, "blur_bokeh"@),
        EPostprocessShader::BlurRadial => ("base.vert"@, "blur_radial.frag"@, "blur_radial"@, "blur_radial"@),
        EPostprocessShader::BlurDirect => ("base.vert"@, "blur_direct.frag"@, "blur_direct"@, "blur_direct"@),
        EPostprocessShader::HorizonGlitch => ("horizon_glitch.vert"@, "horizon_glitch.frag"@, "horizon_glitch"@, "horizon_glitch"@),
        EPostprocessShader::FilterBrightness => ("base.vert"@, "filter_brightness.frag"@, "FilterBrightness_VS"@, "FilterBrightness_FS"@),
        EPostprocessShader::Sobel => ("base.vert"@, "sobel.frag"@, "Sobel_VS"@, "Sobel_FS"@),
        EPostprocessShader::RadialWave => ("base.vert"@, "radial_wave.frag"@, "radial_wave"@, "radial_wave"@),
    }
}

/// Which source files a shader is built from, and how its modules are labelled.
pub fn shader_sources(shader: EPostprocessShader) -> (sources: ShaderSources)
    ensures
        (sources.vertex_file@, sources.fragment_file@, sources.vertex_label@, sources.fragment_label@)
            == spec_shader_sources(shader),
{
    match shader {
        EPostprocessShader::CopyIntensity => ShaderSources {
            vertex_file: "base.vert",
            fragment_file: "copy.frag",
            vertex_label: "CopyIntensity_VS",
            fragment_label: "CopyIntensity_FS",
        },
        EPostprocessShader::ColorEffect => ShaderSources {
            vertex_file: "base.vert",
            fragment_file: "color_effect.frag",
            vertex_label: "ColorEffect_vs",
            fragment_label: "ColorEffect_Fs",
        },
        EPostprocessShader::BlurDual => ShaderSources {
            vertex_file: "blur_dual.vert",
            fragment_file: "blur_dual.frag",
            vertex_label: "BlurDual",
            fragment_label: "BlurDual",
        },
        EPostprocessShader::BlurBokeh => ShaderSources {
            vertex_file: "base.vert",
            fragment_file: "blur_bokeh.frag",
            vertex_label: "blur_bokeh",
            fragment_label: "blur_bokeh",
        },
        EPostprocessShader::BlurRadial => ShaderSources {
            vertex_file: "base.vert",
            fragment_file: "blur_radial.frag",
            vertex_label: "blur_radial",
            fragment_label: "blur_radial",
        },
        EPostprocessShader::BlurDirect => ShaderSources {
            vertex_file: "base.vert",
            fragment_file: "blur_direct.frag",
            vertex_label: "blur_direct",
            fragment_label: "blur_direct",
        },
        EPostprocessShader::HorizonGlitch => ShaderSources {
            vertex_file: "horizon_glitch.vert",
            fragment_file: "horizon_glitch.frag",
            vertex_label: "horizon_glitch",
            fragment_label: "horizon_glitch",
        },
        EPostprocessShader::FilterBrightness => ShaderSources {
            vertex_file: "base.vert",
            fragment_file: "filter_brightness.frag",
            vertex_label: "FilterBrightness_VS",
            fragment_label: "FilterBrightness_FS",
        },
        EPostprocessShader::Sobel => ShaderSources {
            vertex_file: "base.vert",
            fragment_file: "sobel.frag",
            vertex_label: "Sobel_VS",
            fragment_label: "Sobel_FS",
        },
        EPostprocessShader::RadialWave => ShaderSources {
            vertex_file: "base.vert",
            fragment_file: "radial_wave.frag",
            vertex_label: "radial_wave",
            fragment_label: "radial_wave",
        },
    }
}


/// Each shader's fragment stage is built from the file named after it; the dual
/// blur and the glitch have vertex files of their own, every other shader shares
/// the base vertex file.
pub proof fn law_shader_files_named_after_shader(shader: EPostprocessShader)
    ensures
        spec_shader_sources(shader).1 == match shader {
            EPostprocessShader::CopyIntensity => "copy.frag"@,
            EPostprocessShader::ColorEffect => "color_effect.frag"@,
            EPostprocessShader::BlurDual => "blur_dual.frag"@,
            EPostprocessShader::BlurBokeh => "blur_bokeh.frag"@,
            EPostprocessShader::BlurRadial => "blur_radial.frag"@,
            EPostprocessShader::BlurDirect => "blur_direct.frag"@,
            EPostprocessShader::HorizonGlitch => "horizon_glitch.frag"@,
            EPostprocessShader::FilterBrightness => "filter_brightness.frag"@,
            EPostprocessShader::Sobel => "sobel.frag"@,
            EPostprocessShader::RadialWave => "radial_wave.frag"@,
        },
        spec_shader_sources(shader).0 == (if shader == EPostprocessShader::BlurDual {
            "blur_dual.vert"@
        } else if shader == EPostprocessShader::HorizonGlitch {
            "horizon_glitch.vert"@
        } else {
            "base.vert"@
        }),
{
}

/// Distinct shaders are built from distinct fragment files.
pub proof fn law_shader_fragment_files_distinct(a: EPostprocessShader, b: EPostprocessShader)
    ensures
        spec_shader_sources(a).1 == spec_shader_sources(b).1 ==> a == b,
{
    reveal_strlit("copy.frag");
    reveal_strlit("color_effect.frag");
    reveal_strlit("blur_dual.frag");
    reveal_strlit("blur_bokeh.frag");
    reveal_strlit("blur_radial.frag");
    reveal_strlit("blur_direct.frag");
    reveal_strlit("horizon_glitch.frag");
    reveal_strlit("filter_brightness.frag");
    reveal_strlit("sobel.frag");
    reveal_strlit("radial_wave.frag");
    let fa = spec_shader_sources(a).1;
    let fb = spec_shader_sources(b).1;
    if fa == fb {
        assert(fa.len() == fb.len());
        assert(fa[0] == fb[0]);
        assert(fa[5] == fb[5]);
    }
}

} // verus!
