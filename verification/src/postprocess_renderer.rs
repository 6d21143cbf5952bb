use vstd::prelude::*;

verus! {

/// One render pass kind of the pipeline, in the order the pipeline schedules them.
#[derive(Debug, Copy, Clone, PartialEq, Eq, Structural)]
pub enum EPostprocessRenderType {
    ColorEffect,
    BlurDual,
    BlurDirect,
    BlurRadial,
    BlurBokeh,
    BloomDual,
    BlurGauss,
    RadialWave,
    HorizonGlitch,
    FilterSobel,
    ImageMask,
    ClipSdf,
    CopyIntensity,
    FinalCopyIntensity,
}

impl EPostprocessRenderType {
    /// Passes that render through temporary targets of their own and so cannot
    /// be drawn straight into the caller's final target.
    pub open spec fn spec_is_multi_step(self) -> bool {
        match self {
            EPostprocessRenderType::BlurDual => true,
            EPostprocessRenderType::BloomDual => true,
            EPostprocessRenderType::BlurGauss => true,
            EPostprocessRenderType::HorizonGlitch => true,
            _ => false,
        }
    }

    /// Position of the pass in the pipeline's fixed schedule.
    pub open spec fn rank(self) -> int {
        match self {
            EPostprocessRenderType::ColorEffect => 0,
            EPostprocessRenderType::BlurDual => 1,
            EPostprocessRenderType::BlurDirect => 2,
            EPostprocessRenderType::BlurRadial => 3,
            EPostprocessRenderType::BlurBokeh => 4,
            EPostprocessRenderType::BloomDual => 5,
            EPostprocessRenderType::BlurGauss => 6,
            EPostprocessRenderType::RadialWave => 7,
            EPostprocessRenderType::HorizonGlitch => 8,
            EPostprocessRenderType::FilterSobel => 9,
            EPostprocessRenderType::ImageMask => 10,
            EPostprocessRenderType::ClipSdf => 11,
            EPostprocessRenderType::CopyIntensity => 12,
            EPostprocessRenderType::FinalCopyIntensity => 13,
        }
    }

    /// Whether the pass needs temporary targets of its own.
    pub fn is_multi_step(&self) -> (multi: bool)
        ensures
            multi == self.spec_is_multi_step(),
    {
        match self {
            EPostprocessRenderType::BlurDual => true,
            EPostprocessRenderType::BloomDual => true,
            EPostprocessRenderType::BlurGauss => true,
            EPostprocessRenderType::HorizonGlitch => true,
            _ => false,
        }
    }
}

/// The passes that need temporary targets of their own are exactly the dual blur,
/// the bloom, the gaussian blur and the glitch.
pub proof fn law_multi_step_passes(flag: EPostprocessRenderType)
    ensures
        flag.spec_is_multi_step() == (flag == EPostprocessRenderType::BlurDual || flag
            == EPostprocessRenderType::BloomDual || flag == EPostprocessRenderType::BlurGauss || flag
            == EPostprocessRenderType::HorizonGlitch),
{
}

} // verus!
