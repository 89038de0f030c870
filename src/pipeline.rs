use vstd::prelude::*;
use crate::settings::{WboitError, WboitMode};
use crate::textures::{TextureFormat, TARGET_USAGE, USAGE_RENDER_ATTACHMENT, USAGE_TEXTURE_BINDING};
use crate::pixel::{accumulated, over, Fragment, PixelAccum, UNIT, WEIGHT_MAX};

verus! {

#[derive(Clone, Copy, Debug, PartialEq, Eq, Structural)]
pub enum BlendFactor {
    Zero,
    One,
    OneMinusSrc,
    OneMinusSrcAlpha,
}

#[derive(Clone, Copy, Debug, PartialEq, Eq, Structural)]
pub enum BlendOperation {
    Add,
}

/// `result = src * src_factor (op) dst * dst_factor`, for one group of channels.
#[derive(Clone, Copy, Debug, PartialEq, Eq, Structural)]
pub struct BlendComponent {
    pub src_factor: BlendFactor,
    pub dst_factor: BlendFactor,
    pub operation: BlendOperation,
}

#[derive(Clone, Copy, Debug, PartialEq, Eq, Structural)]
pub struct BlendState {
    pub color: BlendComponent,
    pub alpha: BlendComponent,
}

/// One color output of a pipeline.
#[derive(Clone, Copy, Debug, PartialEq, Eq, Structural)]
pub struct ColorTargetState {
    pub format: TextureFormat,
    pub blend: BlendState,
}

/// The value of a blend factor, in units of `UNIT`, for a source value `src`
/// with alpha `src_alpha`.
pub open spec fn factor_value(f: BlendFactor, src: int, src_alpha: int) -> int {
    match f {
        BlendFactor::Zero => 0,
        BlendFactor::One => UNIT as int,
        BlendFactor::OneMinusSrc => UNIT - src,
        BlendFactor::OneMinusSrcAlpha => UNIT - src_alpha,
    }
}

/// What a blend component writes, in fixed point: each term is scaled by
/// its factor and rounded down.
pub open spec fn blend_eval(c: BlendComponent, src: int, src_alpha: int, dst: int) -> int {
    match c.operation {
        BlendOperation::Add => src * factor_value(c.src_factor, src, src_alpha) / UNIT as int + dst
            * factor_value(c.dst_factor, src, src_alpha) / UNIT as int,
    }
}

/// Additive blending on every channel.
pub open spec fn additive() -> BlendComponent {
    BlendComponent {
        src_factor: BlendFactor::One,
        dst_factor: BlendFactor::One,
        operation: BlendOperation::Add,
    }
}

/// Multiplies the destination by one minus the source.
pub open spec fn multiplicative() -> BlendComponent {
    BlendComponent {
        src_factor: BlendFactor::Zero,
        dst_factor: BlendFactor::OneMinusSrc,
        operation: BlendOperation::Add,
    }
}

/// Source over destination for premultiplied colors.
pub open spec fn premultiplied_over() -> BlendComponent {
    BlendComponent {
        src_factor: BlendFactor::One,
        dst_factor: BlendFactor::OneMinusSrcAlpha,
        operation: BlendOperation::Add,
    }
}

/// Target 0 of the accumulation pass: weighted premultiplied color, added up.
pub fn accum_target() -> (r: ColorTargetState)
    ensures
        r == (ColorTargetState {
            format: TextureFormat::Rgba16Float,
            blend: BlendState { color: additive(), alpha: additive() },
        }),
{
    let c = BlendComponent {
        src_factor: BlendFactor::One,
        dst_factor: BlendFactor::One,
        operation: BlendOperation::Add,
    };
    ColorTargetState { format: TextureFormat::Rgba16Float, blend: BlendState { color: c, alpha: c } }
}

/// Target 1 of the accumulation pass: revealage, multiplied down by each
/// fragment's coverage complement.
pub fn revealage_target() -> (r: ColorTargetState)
    ensures
        r == (ColorTargetState {
            format: TextureFormat::R8Unorm,
            blend: BlendState { color: multiplicative(), alpha: multiplicative() },
        }),
{
    let c = BlendComponent {
        src_factor: BlendFactor::Zero,
        dst_factor: BlendFactor::OneMinusSrc,
        operation: BlendOperation::Add,
    };
    ColorTargetState { format: TextureFormat::R8Unorm, blend: BlendState { color: c, alpha: c } }
}

/// The output of the composite pass onto the view's color target.
pub fn composite_target(hdr: bool) -> (r: ColorTargetState)
    ensures
        r == (ColorTargetState {
            format: if hdr { TextureFormat::Rgba16Float } else { TextureFormat::Rgba8UnormSrgb },
            blend: BlendState { color: premultiplied_over(), alpha: premultiplied_over() },
        }),
{
    let c = BlendComponent {
        src_factor: BlendFactor::One,
        dst_factor: BlendFactor::OneMinusSrcAlpha,
        operation: BlendOperation::Add,
    };
    let format = if hdr { TextureFormat::Rgba16Float } else { TextureFormat::Rgba8UnormSrgb };
    ColorTargetState { format, blend: BlendState { color: c, alpha: c } }
}

/// Which of the two accumulation variants a pipeline serves.
#[derive(Clone, Copy, Debug, PartialEq, Eq, Structural)]
pub enum AccumVariant {
    Naive,
    Histogram,
}

/// What the accumulation pipeline changes in the host's mesh pipeline.
#[derive(Clone, Debug)]
pub struct AccumPipelineDesc {
    pub variant: AccumVariant,
    /// The two render targets, accumulation first.
    pub targets: Vec<ColorTargetState>,
    /// Depth is tested against the opaque depth but never written.
    pub depth_write_enabled: bool,
    /// Bind group of the material.
    pub material_group: u32,
    /// Bind group of the histogram, the CDF and the previous revealage.
    pub histogram_group: Option<u32>,
}

/// Specializes the accumulation pipeline: both targets with their blends,
/// no depth writes. After the view (group 0) and the mesh (group 1) comes
/// the material at group 2; the histogram variant binds its data at group 3.
pub fn specialize_accum(variant: AccumVariant) -> (r: AccumPipelineDesc)
    ensures
        r.variant == variant,
        r.targets@ == seq![
            ColorTargetState {
                format: TextureFormat::Rgba16Float,
                blend: BlendState { color: additive(), alpha: additive() },
            },
            ColorTargetState {
                format: TextureFormat::R8Unorm,
                blend: BlendState { color: multiplicative(), alpha: multiplicative() },
            },
        ],
        !r.depth_write_enabled,
        r.material_group == 2,
        variant == AccumVariant::Naive ==> r.histogram_group == None::<u32>,
        variant == AccumVariant::Histogram ==> r.histogram_group == Some(3u32),
{
    let mut targets: Vec<ColorTargetState> = Vec::new();
    targets.push(accum_target());
    targets.push(revealage_target());
    let histogram_group = match variant {
        AccumVariant::Naive => None,
        AccumVariant::Histogram => Some(3u32),
    };
    AccumPipelineDesc { variant, targets, depth_write_enabled: false, material_group: 2, histogram_group }
}

/// The configured blends are the pixel model's arithmetic: the accumulation
/// target adds, the revealage target multiplies by the coverage complement,
/// and the composite lays premultiplied color over the background.
pub proof fn lemma_blends_match_pixel_model(p: PixelAccum, f: Fragment, weight: int, bg: int)
    requires
        p.wf(),
        f.valid(),
        0 <= weight <= WEIGHT_MAX,
        0 <= bg <= UNIT,
    ensures
        blend_eval(additive(), weight * f.coverage, 0, p.a as int) == accumulated(
            p,
            f,
            weight,
        ).a,
        blend_eval(multiplicative(), f.coverage as int, 0, p.revealage as int) == accumulated(
            p,
            f,
            weight,
        ).revealage,
        forall|c: int, alpha: int|
            0 <= c <= UNIT && 0 <= alpha <= UNIT ==> #[trigger] blend_eval(
                premultiplied_over(),
                c * alpha / UNIT as int,
                alpha,
                bg,
            ) == over(c, alpha, bg),
{
    let s = weight * f.coverage;
    assert(s * UNIT / UNIT as int == s) by (nonlinear_arith);
    assert(p.a * UNIT / UNIT as int == p.a) by (nonlinear_arith);
    assert(0 <= s <= WEIGHT_MAX * UNIT) by (nonlinear_arith)
        requires s == weight * f.coverage, 0 <= weight <= WEIGHT_MAX, 0 <= f.coverage <= UNIT;
    assert(0 <= p.revealage * (UNIT - f.coverage) / UNIT as int <= UNIT) by (nonlinear_arith)
        requires p.revealage <= UNIT, f.coverage <= UNIT;
    assert forall|c: int, alpha: int|
        0 <= c <= UNIT && 0 <= alpha <= UNIT implies #[trigger] blend_eval(
            premultiplied_over(),
            c * alpha / UNIT as int,
            alpha,
            bg,
        ) == over(c, alpha, bg) by {
        let pm = c * alpha / UNIT as int;
        assert(pm * UNIT / UNIT as int == pm) by (nonlinear_arith);
    }
}

/// Checks the naive marker's requirement that multisampling is off.
pub fn check_msaa_wboit(mode: &WboitMode, msaa_samples: u32) -> (r: Result<(), WboitError>)
    ensures
        r == (if *mode == WboitMode::Naive && msaa_samples != 1 {
            Err(WboitError::MsaaEnabled)
        } else {
            Ok(())
        }),
{
    match mode {
        WboitMode::Naive => {
            if msaa_samples != 1 {
                Err(WboitError::MsaaEnabled)
            } else {
                Ok(())
            }
        },
        _ => Ok(()),
    }
}

/// Checks the histogram variant's requirement that multisampling is off.
pub fn check_msaa_he_wboit(mode: &WboitMode, msaa_samples: u32) -> (r: Result<(), WboitError>)
    ensures
        r == (if *mode is Histogram && msaa_samples != 1 {
            Err(WboitError::MsaaEnabled)
        } else {
            Ok(())
        }),
{
    match mode {
        WboitMode::Histogram(_) => {
            if msaa_samples != 1 {
                Err(WboitError::MsaaEnabled)
            } else {
                Ok(())
            }
        },
        _ => Ok(()),
    }
}

/// Usages of the opaque depth texture of an opted-in view: kept when they
/// already allow rendering and sampling, replaced by exactly those two
/// otherwise.
pub open spec fn depth_usages_for(usages: u32) -> u32 {
    if usages & TARGET_USAGE == TARGET_USAGE {
        usages
    } else {
        TARGET_USAGE
    }
}

pub fn configure_depth_texture_usages_wboit(usages: u32) -> (r: u32)
    ensures
        r == depth_usages_for(usages),
        r & TARGET_USAGE == TARGET_USAGE,
{
    let required = USAGE_RENDER_ATTACHMENT | USAGE_TEXTURE_BINDING;
    assert(16u32 | 4u32 == 20u32) by (bit_vector);
    assert(20u32 & 20u32 == 20u32) by (bit_vector);
    if usages & required == required {
        usages
    } else {
        required
    }
}

pub fn configure_depth_texture_usages_he_wboit(usages: u32) -> (r: u32)
    ensures
        r == depth_usages_for(usages),
        r & TARGET_USAGE == TARGET_USAGE,
{
    configure_depth_texture_usages_wboit(usages)
}

} // verus!
