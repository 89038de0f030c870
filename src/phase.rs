use vstd::prelude::*;

verus! {

/// Extra per-item index that batching may attach to a phase item.
#[derive(Clone, Copy, Debug, PartialEq, Eq, Structural)]
pub enum ExtraIndex {
    Unset,
    DynamicOffset(u32),
    IndirectParametersIndex { start: u32, end: u32, batch_set_index: Option<u32> },
}

/// The order key of a single-precision value's bit pattern: the sign bit of
/// a non-negative value is set, a negative value has every bit flipped, so
/// that ordered values get ordered keys.
pub open spec fn ordered_key(bits: u32) -> u32 {
    if bits & 0x8000_0000 != 0 {
        !bits
    } else {
        bits | 0x8000_0000
    }
}

/// One transparent mesh queued for the accumulation pass of a view.
#[derive(Clone, Copy, Debug)]
pub struct WboitAccum3d {
    /// Bit pattern of the single-precision distance to the camera.
    pub distance_bits: u32,
    pub pipeline: u64,
    /// Render-world entity, then main-world entity.
    pub entity: (u64, u64),
    pub draw_function: u32,
    /// Instances drawn, as `start..end`.
    pub batch_range: (u32, u32),
    pub extra_index: ExtraIndex,
    pub indexed: bool,
}

/// The histogram variant queues the same items into a phase of its own.
pub type HistoAccum3d = WboitAccum3d;

impl WboitAccum3d {
    pub fn entity(&self) -> (r: u64)
        ensures
            r == self.entity.0,
    {
        self.entity.0
    }

    pub fn main_entity(&self) -> (r: u64)
        ensures
            r == self.entity.1,
    {
        self.entity.1
    }

    pub fn draw_function(&self) -> (r: u32)
        ensures
            r == self.draw_function,
    {
        self.draw_function
    }

    pub fn batch_range(&self) -> (r: &(u32, u32))
        ensures
            *r == self.batch_range,
    {
        &self.batch_range
    }

    pub fn batch_range_mut(&mut self) -> (r: &mut (u32, u32))
        ensures
            *r == old(self).batch_range,
            *final(self) == (WboitAccum3d { batch_range: *final(r), ..*old(self) }),
    {
        &mut self.batch_range
    }

    pub fn extra_index(&self) -> (r: ExtraIndex)
        ensures
            r == self.extra_index,
    {
        self.extra_index
    }

    pub fn batch_range_and_extra_index_mut(&mut self) -> (r: (&mut (u32, u32), &mut ExtraIndex))
        ensures
            *r.0 == old(self).batch_range,
            *r.1 == old(self).extra_index,
            *final(self) == (WboitAccum3d {
                batch_range: *final(r.0),
                extra_index: *final(r.1),
                ..*old(self)
            }),
    {
        (&mut self.batch_range, &mut self.extra_index)
    }

    pub fn cached_pipeline(&self) -> (r: u64)
        ensures
            r == self.pipeline,
    {
        self.pipeline
    }

    /// Sorting key: the distance, in an order that integers keep.
    pub fn sort_key(&self) -> (r: u32)
        ensures
            r == ordered_key(self.distance_bits),
    {
        let bits = self.distance_bits;
        if bits & 0x8000_0000 != 0 {
            !bits
        } else {
            bits | 0x8000_0000
        }
    }

    pub fn indexed(&self) -> (r: bool)
        ensures
            r == self.indexed,
    {
        self.indexed
    }
}

} // verus!
