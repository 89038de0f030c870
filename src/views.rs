use std::collections::HashMap;
use vstd::prelude::*;
use vstd::std_specs::hash::group_hash_axioms;
use crate::settings::{WboitError, WboitMode};
use crate::textures::{next_frame_index, prepare_wboit_textures, WboitTextures};
use crate::histogram_textures::{
    histogram_bytes, histogram_params, histogram_resources, needs_recreate,
    prepare_histogram_wboit_textures, HistogramWboitTextures,
};

verus! {

/// What one view owns: its mode, its accumulation targets and, for the
/// histogram variant, its histogram resources.
#[derive(Clone, Copy, Debug)]
pub struct ViewResources {
    pub mode: WboitMode,
    pub wboit: WboitTextures,
    pub histogram: Option<HistogramWboitTextures>,
    /// The histogram resources were created anew this frame.
    pub histogram_recreated: bool,
}

/// The resources of every opted-in view, by view identifier.
pub struct ViewRegistry {
    pub views: HashMap<u64, ViewResources>,
}

impl View for ViewRegistry {
    type V = Map<u64, ViewResources>;

    open spec fn view(&self) -> Map<u64, ViewResources> {
        self.views@
    }
}

/// The accumulation targets that a view had before this frame.
pub open spec fn previous_targets(m: Map<u64, ViewResources>, id: u64) -> Option<WboitTextures> {
    if m.contains_key(id) {
        Some(m[id].wboit)
    } else {
        None
    }
}

/// The histogram resources that a view had before this frame.
pub open spec fn previous_histogram(m: Map<u64, ViewResources>, id: u64) -> Option<
    HistogramWboitTextures,
> {
    if m.contains_key(id) {
        m[id].histogram
    } else {
        None
    }
}

impl ViewRegistry {
    /// Every stored texture set has a valid frame index.
    pub open spec fn wf(&self) -> bool {
        forall|id: u64| #[trigger] self@.contains_key(id) ==> self@[id].wboit.wf()
    }

    pub fn new() -> (r: ViewRegistry)
        ensures
            r@ == Map::<u64, ViewResources>::empty(),
            r.wf(),
    {
        ViewRegistry { views: HashMap::new() }
    }

    /// The resources of a view, if it has any.
    pub fn get(&self, id: u64) -> (r: Option<ViewResources>)
        ensures
            r == (if self@.contains_key(id) {
                Some(self@[id])
            } else {
                None
            }),
    {
        broadcast use group_hash_axioms;

        match self.views.get(&id) {
            Some(v) => Some(*v),
            None => None,
        }
    }

    /// Drops the resources of a view that no longer exists.
    pub fn remove_view(&mut self, id: u64)
        requires
            old(self).wf(),
        ensures
            final(self).wf(),
            final(self)@ == old(self)@.remove(id),
    {
        broadcast use group_hash_axioms;

        self.views.remove(&id);
    }

    /// Prepares the resources of a view for this frame.
    ///
    /// A view that opted out loses its resources. A view whose viewport is
    /// not known yet keeps what it had. A naive view gets targets of its
    /// viewport and no histogram; a histogram view gets both, its histogram
    /// rebuilt only when the tile grid or the bin count changed. The frame
    /// index flips for a view that already had targets. On an error nothing
    /// changes.
    pub fn prepare_view(&mut self, id: u64, mode: WboitMode, viewport: Option<(u32, u32)>) -> (r:
        Result<Option<ViewResources>, WboitError>)
        requires
            old(self).wf(),
        ensures
            final(self).wf(),
            mode == WboitMode::Inactive ==> r == Ok::<Option<ViewResources>, WboitError>(None)
                && final(self)@ == old(self)@.remove(id),
            mode != WboitMode::Inactive && viewport is None ==> r == Ok::<
                Option<ViewResources>,
                WboitError,
            >(None) && final(self)@ == old(self)@,
            r is Err ==> final(self)@ == old(self)@,
            r matches Ok(Some(v)) ==> final(self)@ == old(self)@.insert(id, v) && v.mode == mode,
            mode == WboitMode::Naive ==> (viewport matches Some((w, h)) ==> r matches Ok(Some(v))
                && v.wboit.wf() && v.wboit.sized(w, h) && v.wboit.frame_index
                == next_frame_index(previous_targets(old(self)@, id)) && v.histogram
                is None && !v.histogram_recreated),
            mode matches WboitMode::Histogram(s) ==> (viewport matches Some((w, h)) ==> {
                let p = histogram_params(w, h, s);
                if !s.valid() {
                    r == Err::<Option<ViewResources>, WboitError>(WboitError::InvalidTuning)
                } else if histogram_bytes(
                    p.tile_count_x as int,
                    p.tile_count_y as int,
                    p.num_bins as int,
                ) > u32::MAX {
                    r == Err::<Option<ViewResources>, WboitError>(WboitError::HistogramTooLarge)
                } else {
                    r matches Ok(Some(v)) && v.wboit.wf() && v.wboit.sized(w, h)
                        && v.wboit.frame_index == next_frame_index(
                        previous_targets(old(self)@, id),
                    ) && v.histogram == Some(histogram_resources(p)) && v.histogram_recreated
                        == needs_recreate(
                        previous_histogram(old(self)@, id),
                        p.tile_count_x,
                        p.tile_count_y,
                        p.num_bins,
                    )
                }
            }),
    {
        broadcast use group_hash_axioms;

        if let WboitMode::Inactive = mode {
            self.views.remove(&id);
            return Ok(None);
        }
        let size = match viewport {
            None => {
                return Ok(None);
            },
            Some(size) => size,
        };
        let previous = self.get(id);
        let (old_targets, old_histogram) = match previous {
            Some(v) => (Some(v.wboit), v.histogram),
            None => (None, None),
        };
        assert(old_targets == previous_targets(old(self)@, id));
        assert(old_histogram == previous_histogram(old(self)@, id));
        let resources = match mode {
            WboitMode::Histogram(settings) => {
                match prepare_histogram_wboit_textures(
                    old_targets,
                    old_histogram,
                    Some(size),
                    settings,
                ) {
                    Err(e) => {
                        return Err(e);
                    },
                    Ok(None) => {
                        return Ok(None);
                    },
                    Ok(Some(h)) => ViewResources {
                        mode,
                        wboit: h.wboit,
                        histogram: Some(h.histogram),
                        histogram_recreated: h.recreated,
                    },
                }
            },
            _ => {
                let wboit = match prepare_wboit_textures(old_targets, Some(size)) {
                    Some(t) => t,
                    None => {
                        return Ok(None);
                    },
                };
                ViewResources { mode, wboit, histogram: None, histogram_recreated: false }
            },
        };
        self.views.insert(id, resources);
        Ok(Some(resources))
    }
}

} // verus!
