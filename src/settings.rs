use vstd::prelude::*;

verus! {

/// Default edge length of a histogram tile, in pixels.
pub const DEFAULT_TILE_SIZE: u32 = 32;

/// Default number of depth bins per tile.
pub const DEFAULT_NUM_BINS: u32 = 64;

/// Bit pattern of the single-precision value 100.0, the default depth range.
pub const DEFAULT_MAX_DEPTH_BITS: u32 = 0x42C8_0000;

/// Opt-in marker for the naive weighted blended pass.
#[derive(Clone, Copy, Debug, PartialEq, Eq, Structural)]
pub struct WboitSettings;

/// Tuning of the histogram-equalized variant.
///
/// `max_depth_bits` is the bit pattern of the single-precision far distance
/// that the shaders use to normalize view depth into `[0, 1]`; the library
/// carries it to the GPU unchanged.
#[derive(Clone, Copy, Debug, PartialEq, Eq, Structural)]
pub struct HEWboitSettings {
    pub tile_size: u32,
    pub num_bins: u32,
    pub max_depth_bits: u32,
}

impl HEWboitSettings {
    /// Tile size and bin count are both positive.
    pub open spec fn valid(self) -> bool {
        self.tile_size > 0 && self.num_bins > 0
    }

    pub fn is_valid(&self) -> (r: bool)
        ensures
            r == self.valid(),
    {
        self.tile_size > 0 && self.num_bins > 0
    }
}

impl Default for HEWboitSettings {
    fn default() -> (r: Self)
        ensures
            r.tile_size == DEFAULT_TILE_SIZE,
            r.num_bins == DEFAULT_NUM_BINS,
            r.max_depth_bits == DEFAULT_MAX_DEPTH_BITS,
    {
        HEWboitSettings {
            tile_size: DEFAULT_TILE_SIZE,
            num_bins: DEFAULT_NUM_BINS,
            max_depth_bits: DEFAULT_MAX_DEPTH_BITS,
        }
    }
}

/// Which transparency path a view uses. The two weighted blended variants
/// exclude each other.
#[derive(Clone, Copy, Debug, PartialEq, Eq, Structural)]
pub enum WboitMode {
    Inactive,
    Naive,
    Histogram(HEWboitSettings),
}

impl WboitMode {
    pub open spec fn active(self) -> bool {
        !(self is Inactive)
    }

    pub fn is_active(&self) -> (r: bool)
        ensures
            r == self.active(),
    {
        match self {
            WboitMode::Inactive => false,
            _ => true,
        }
    }

    /// Attaches the naive marker; any histogram configuration is dropped.
    pub fn attach_naive(&mut self)
        ensures
            *final(self) == WboitMode::Naive,
    {
        *self = WboitMode::Naive;
    }

    /// Attaches the histogram configuration; the naive marker is dropped.
    pub fn attach_histogram(&mut self, settings: HEWboitSettings)
        ensures
            *final(self) == WboitMode::Histogram(settings),
    {
        *self = WboitMode::Histogram(settings);
    }

    /// Removes whichever marker is attached.
    pub fn detach(&mut self)
        ensures
            *final(self) == WboitMode::Inactive,
    {
        *self = WboitMode::Inactive;
    }
}

/// Errors that the library reports to its host.
#[derive(Clone, Copy, Debug, PartialEq, Eq, Structural)]
pub enum WboitError {
    /// Multisampling is enabled on a view that opted in.
    MsaaEnabled,
    /// Tile size or bin count is zero.
    InvalidTuning,
    /// The histogram of the view would not fit a 32-bit byte size.
    HistogramTooLarge,
}

} // verus!
