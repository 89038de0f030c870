use vstd::prelude::*;
use crate::settings::WboitMode;
use crate::phase::{ExtraIndex, WboitAccum3d};

verus! {

/// One mesh that the host found visible in a view, with what the queue
/// needs to know of it.
#[derive(Clone, Copy, Debug)]
pub struct VisibleMesh {
    pub render_entity: u64,
    pub main_entity: u64,
    /// Whether its material is prepared and sits in the transparent phase;
    /// `None` when the material is not prepared yet.
    pub transparent: Option<bool>,
    /// Whether its mesh is indexed; `None` when the mesh is not prepared yet.
    pub indexed: Option<bool>,
    /// The accumulation pipeline specialized for it; `None` when
    /// specialization failed or was not asked for.
    pub pipeline: Option<u64>,
    /// Bit pattern of the single-precision distance to the camera, depth bias
    /// included.
    pub distance_bits: u32,
}

/// A mesh that the accumulation pass takes: a prepared transparent material
/// and a prepared mesh. Only these are specialized.
pub open spec fn is_candidate(m: VisibleMesh) -> bool {
    m.transparent == Some(true) && m.indexed is Some
}

pub fn wants_pipeline(m: &VisibleMesh) -> (r: bool)
    ensures
        r == is_candidate(*m),
{
    match (m.transparent, m.indexed) {
        (Some(true), Some(_)) => true,
        _ => false,
    }
}

/// The phase item of a candidate whose pipeline was specialized.
pub open spec fn phase_item(m: VisibleMesh, draw_function: u32) -> WboitAccum3d {
    WboitAccum3d {
        distance_bits: m.distance_bits,
        pipeline: m.pipeline->0,
        entity: (m.render_entity, m.main_entity),
        draw_function,
        batch_range: (0, 1),
        extra_index: ExtraIndex::Unset,
        indexed: m.indexed->0,
    }
}

/// The items queued for the meshes, in their order: every candidate with a
/// pipeline, once.
pub open spec fn queued(meshes: Seq<VisibleMesh>, draw_function: u32) -> Seq<WboitAccum3d>
    decreases meshes.len(),
{
    if meshes.len() == 0 {
        Seq::empty()
    } else {
        let rest = queued(meshes.drop_last(), draw_function);
        let m = meshes.last();
        if is_candidate(m) && m.pipeline is Some {
            rest.push(phase_item(m, draw_function))
        } else {
            rest
        }
    }
}

/// Number of candidates whose specialization failed.
pub open spec fn failed(meshes: Seq<VisibleMesh>) -> nat
    decreases meshes.len(),
{
    if meshes.len() == 0 {
        0
    } else {
        let m = meshes.last();
        failed(meshes.drop_last()) + if is_candidate(m) && m.pipeline is None {
            1nat
        } else {
            0nat
        }
    }
}

/// The items of one view's accumulation phase, and how many meshes were
/// dropped because their pipeline could not be specialized.
#[derive(Clone, Debug)]
pub struct QueueOutcome {
    pub items: Vec<WboitAccum3d>,
    pub failed: usize,
}

/// Queues the transparent meshes of a view into its accumulation phase.
pub fn queue_wboit_meshes(meshes: &Vec<VisibleMesh>, draw_function: u32) -> (r: QueueOutcome)
    ensures
        r.items@ == queued(meshes@, draw_function),
        r.failed == failed(meshes@),
{
    let mut items: Vec<WboitAccum3d> = Vec::new();
    let mut failures: usize = 0;
    let mut i: usize = 0;
    while i < meshes.len()
        invariant
            i <= meshes@.len(),
            items@ == queued(meshes@.take(i as int), draw_function),
            failures == failed(meshes@.take(i as int)),
            failures <= i,
        decreases meshes@.len() - i,
    {
        let m = meshes[i];
        proof {
            assert(meshes@.take(i + 1).drop_last() =~= meshes@.take(i as int));
            assert(meshes@.take(i + 1).last() == m);
        }
        if wants_pipeline(&m) {
            match m.pipeline {
                Some(pipeline) => {
                    let indexed = match m.indexed {
                        Some(b) => b,
                        None => false,
                    };
                    items.push(
                        WboitAccum3d {
                            distance_bits: m.distance_bits,
                            pipeline,
                            entity: (m.render_entity, m.main_entity),
                            draw_function,
                            batch_range: (0, 1),
                            extra_index: ExtraIndex::Unset,
                            indexed,
                        },
                    );
                },
                None => {
                    failures = failures + 1;
                },
            }
        }
        i = i + 1;
    }
    assert(meshes@.take(meshes@.len() as int) =~= meshes@);
    QueueOutcome { items, failed: failures }
}

/// Empties the host's transparent phase of a view that uses the naive
/// variant, so that the standard pass draws nothing there.
pub fn drain_transparent_for_wboit<T>(phase: &mut Vec<T>, mode: &WboitMode)
    ensures
        *mode == WboitMode::Naive ==> final(phase)@.len() == 0,
        *mode != WboitMode::Naive ==> final(phase)@ == old(phase)@,
{
    if let WboitMode::Naive = mode {
        phase.clear();
    }
}

/// Empties the host's transparent phase of a view that uses the histogram
/// variant.
pub fn drain_transparent_for_he_wboit<T>(phase: &mut Vec<T>, mode: &WboitMode)
    ensures
        *mode is Histogram ==> final(phase)@.len() == 0,
        !(*mode is Histogram) ==> final(phase)@ == old(phase)@,
{
    if let WboitMode::Histogram(_) = mode {
        phase.clear();
    }
}

/// Queues the view's meshes and only then empties the host's transparent
/// phase: the host's list is left whole until the view's own list exists,
/// and an inactive view keeps it.
pub fn queue_and_drain<T>(
    meshes: &Vec<VisibleMesh>,
    draw_function: u32,
    transparent: &mut Vec<T>,
    mode: &WboitMode,
) -> (r: QueueOutcome)
    ensures
        r.items@ == queued(meshes@, draw_function),
        r.failed == failed(meshes@),
        mode.active() ==> final(transparent)@.len() == 0,
        !mode.active() ==> final(transparent)@ == old(transparent)@,
{
    let outcome = queue_wboit_meshes(meshes, draw_function);
    drain_transparent_for_wboit(transparent, mode);
    drain_transparent_for_he_wboit(transparent, mode);
    outcome
}

} // verus!
