use vstd::prelude::*;
use crate::settings::WboitMode;
use crate::textures::{next_frame_index, TextureDesc, WboitTextures};
use crate::histogram_textures::HistogramWboitTextures;

verus! {

/// A GPU pass of the weighted blended path.
#[derive(Clone, Copy, Debug, PartialEq, Eq, Structural)]
pub enum PassKind {
    Accumulate,
    BuildCdf,
    Composite,
}

/// The passes that a view runs this frame, in order, and the targets they use.
#[derive(Clone, Debug)]
pub struct FramePlan {
    pub passes: Vec<PassKind>,
    /// Cleared to zero and added into by the accumulation pass; read by the composite.
    pub accum: TextureDesc,
    /// Cleared to one and multiplied into by the accumulation pass; read by
    /// the composite.
    pub revealage: TextureDesc,
    /// The previous frame's revealage, read by the histogram variant's
    /// accumulation pass.
    pub previous_revealage: Option<TextureDesc>,
}

/// The passes of an active view with queued items: accumulation, then the
/// CDF build for the histogram variant, then the composite.
pub open spec fn pass_order(mode: WboitMode) -> Seq<PassKind> {
    if mode is Histogram {
        seq![PassKind::Accumulate, PassKind::BuildCdf, PassKind::Composite]
    } else {
        seq![PassKind::Accumulate, PassKind::Composite]
    }
}

/// `plan` is the frame of a view in `mode` whose textures are `t`.
pub open spec fn plan_for(plan: FramePlan, mode: WboitMode, t: WboitTextures) -> bool {
    &&& plan.passes@ == pass_order(mode)
    &&& plan.accum == t.accum
    &&& plan.revealage == t.revealage@[t.frame_index as int]
    &&& plan.previous_revealage == if mode is Histogram {
        Some(t.revealage@[1 - t.frame_index])
    } else {
        None::<TextureDesc>
    }
}

/// Plans the frame of a view. Nothing runs for an inactive view, a view
/// whose textures are not prepared, or a view with no transparent item
/// queued: the color target is then left as it is.
pub fn plan_frame(mode: &WboitMode, textures: &Option<WboitTextures>, queued_items: usize) -> (r:
    Option<FramePlan>)
    requires
        textures matches Some(t) ==> t.wf(),
    ensures
        r is None <==> (!mode.active() || textures is None || queued_items == 0),
        r matches Some(p) ==> plan_for(p, *mode, textures->0),
{
    if queued_items == 0 || !mode.is_active() {
        return None;
    }
    let t = match textures {
        None => {
            return None;
        },
        Some(t) => t,
    };
    let mut passes: Vec<PassKind> = Vec::new();
    passes.push(PassKind::Accumulate);
    let previous_revealage = match mode {
        WboitMode::Histogram(_) => {
            passes.push(PassKind::BuildCdf);
            Some(t.previous_revealage())
        },
        _ => None,
    };
    passes.push(PassKind::Composite);
    proof {
        assert(passes@ =~= pass_order(*mode));
    }
    Some(FramePlan { passes, accum: t.accum, revealage: t.current_revealage(), previous_revealage })
}

/// After a resize every target that the frame reads or writes has the new
/// size: the textures prepared for a viewport of `width` by `height` are the
/// only ones a plan uses.
pub proof fn lemma_resize_reaches_every_pass(
    t: WboitTextures,
    mode: WboitMode,
    plan: FramePlan,
    width: u32,
    height: u32,
)
    requires
        t.wf(),
        t.sized(width, height),
        plan_for(plan, mode, t),
    ensures
        plan.accum.width == width && plan.accum.height == height,
        plan.revealage.width == width && plan.revealage.height == height,
        plan.previous_revealage matches Some(p) ==> p.width == width && p.height == height,
{
}

/// Workgroups of the CDF build pass: one per tile, each covering the bins of
/// its tile.
pub fn cdf_build_dispatch(h: &HistogramWboitTextures) -> (r: (u32, u32, u32))
    ensures
        r == (h.tile_count_x, h.tile_count_y, 1u32),
{
    (h.tile_count_x, h.tile_count_y, 1)
}

/// The histogram variant prepares one accumulation bind group per frame
/// index; the group for index `i` reads revealage target `1 - i` as the
/// previous frame.
pub fn accum_group_previous_revealage(group: usize) -> (r: usize)
    requires
        group < 2,
    ensures
        r == 1 - group,
{
    1 - group
}

/// Across two consecutive preparations of a view, the revealage target
/// that the second frame reads as its previous frame is the one that the
/// first frame wrote.
pub proof fn lemma_previous_revealage_is_last_written(
    previous: WboitTextures,
    current: WboitTextures,
)
    requires
        previous.wf(),
        current.frame_index == next_frame_index(Some(previous)),
    ensures
        current.wf(),
        1 - current.frame_index == previous.frame_index,
{
}

} // verus!
