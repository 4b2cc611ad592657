//! How each blend mode combines a pipeline's output with the target.
use vstd::prelude::*;
use crate::types::CustomBlendMode;

verus! {

/// A blend factor: what a color or alpha value is multiplied by.
#[derive(Debug, Clone, Copy, PartialEq, Eq, Structural)]
pub enum BlendFactor {
    /// 1.
    One,
    /// The source alpha.
    SourceAlpha,
    /// One minus the source alpha.
    OneMinusSourceAlpha,
}

/// The blend equation of a color target: the result is
/// `source * source_factor + destination * destination_factor`, for the
/// color channels and the alpha channel each.
#[derive(Debug, Clone, Copy, PartialEq, Eq, Structural)]
pub struct BlendPlan {
    pub source_rgb: BlendFactor,
    pub destination_rgb: BlendFactor,
    pub source_alpha: BlendFactor,
    pub destination_alpha: BlendFactor,
}

/// The blend equation of a mode: none for opaque output; standard alpha
/// blending by default; premultiplied alpha adds the source to the
/// destination scaled by one minus the source alpha; additive blending adds
/// source and destination. Alpha channels always add.
pub open spec fn blend_plan_of(mode: CustomBlendMode) -> Option<BlendPlan> {
    let alpha_add = |source_rgb: BlendFactor, destination_rgb: BlendFactor|
        BlendPlan { source_rgb, destination_rgb, source_alpha: BlendFactor::One, destination_alpha: BlendFactor::One };
    match mode {
        CustomBlendMode::Opaque => None,
        CustomBlendMode::Default | CustomBlendMode::Alpha => Some(
            alpha_add(BlendFactor::SourceAlpha, BlendFactor::OneMinusSourceAlpha),
        ),
        CustomBlendMode::PremultipliedAlpha => Some(alpha_add(BlendFactor::One, BlendFactor::OneMinusSourceAlpha)),
        CustomBlendMode::Additive => Some(alpha_add(BlendFactor::One, BlendFactor::One)),
    }
}

/// The blend equation of a blend mode.
pub fn blend_plan(mode: CustomBlendMode) -> (r: Option<BlendPlan>)
    ensures
        r == blend_plan_of(mode),
{
    let (source_rgb, destination_rgb) = match mode {
        CustomBlendMode::Opaque => return None,
        CustomBlendMode::Default | CustomBlendMode::Alpha => (BlendFactor::SourceAlpha, BlendFactor::OneMinusSourceAlpha),
        CustomBlendMode::PremultipliedAlpha => (BlendFactor::One, BlendFactor::OneMinusSourceAlpha),
        CustomBlendMode::Additive => (BlendFactor::One, BlendFactor::One),
    };
    Some(BlendPlan { source_rgb, destination_rgb, source_alpha: BlendFactor::One, destination_alpha: BlendFactor::One })
}

} // verus!
