use vstd::prelude::*;
use crate::settings::{HEWboitSettings, WboitError};
use crate::textures::{
    frame_index_after, next_frame_index, wboit_textures_for, TextureDesc, TextureDimension, TextureFormat,
    WboitTextures, USAGE_STORAGE_BINDING, USAGE_TEXTURE_BINDING,
};

verus! {

/// Usage of the CDF volume: sampled by the accumulation pass, written by the
/// CDF build pass.
pub const CDF_USAGE: u32 = 12;

/// Size in bytes of one histogram counter.
pub const COUNTER_BYTES: u64 = 4;

/// Size in bytes of the parameter block read by the shaders.
pub const PARAMS_BYTES: usize = 32;

/// Ceiling of `a / b`.
pub open spec fn div_ceil(a: int, b: int) -> int {
    a / b + if a % b == 0 { 0int } else { 1int }
}

pub fn div_ceil_u32(a: u32, b: u32) -> (r: u32)
    requires
        b > 0,
    ensures
        r == div_ceil(a as int, b as int),
{
    let q = a / b;
    if a % b == 0 {
        q
    } else {
        assert(q * b <= a) by (nonlinear_arith)
            requires q == a / b, b > 0;
        assert(q < u32::MAX) by (nonlinear_arith)
            requires q == a / b, b > 0, a % b != 0, q * b <= a, a <= u32::MAX;
        q + 1
    }
}

/// Little-endian bytes of a 32-bit value.
pub open spec fn le32(x: u32) -> Seq<u8> {
    seq![(x & 0xff) as u8, ((x >> 8u32) & 0xff) as u8, ((x >> 16u32) & 0xff) as u8, (x >> 24u32) as u8]
}

fn push_le32(v: &mut Vec<u8>, x: u32)
    ensures
        final(v)@ == old(v)@ + le32(x),
{
    v.push((x & 0xff) as u8);
    v.push(((x >> 8u32) & 0xff) as u8);
    v.push(((x >> 16u32) & 0xff) as u8);
    v.push((x >> 24u32) as u8);
    assert(final(v)@ =~= old(v)@ + le32(x));
}

/// Histogram geometry and depth range as the shaders read them.
#[derive(Clone, Copy, Debug, PartialEq, Eq, Structural)]
pub struct HistogramParams {
    pub tile_count_x: u32,
    pub tile_count_y: u32,
    pub num_bins: u32,
    pub tile_size: u32,
    /// Bit pattern of the single-precision far distance.
    pub max_depth_bits: u32,
}

impl HistogramParams {
    /// The 32-byte uniform block: five little-endian words, then twelve bytes
    /// of padding.
    pub open spec fn bytes(self) -> Seq<u8> {
        le32(self.tile_count_x) + le32(self.tile_count_y) + le32(self.num_bins) + le32(
            self.tile_size,
        ) + le32(self.max_depth_bits) + Seq::new(12, |i: int| 0u8)
    }

    pub fn as_bytes(&self) -> (r: Vec<u8>)
        ensures
            r@ == self.bytes(),
            r@.len() == PARAMS_BYTES,
    {
        let mut v: Vec<u8> = Vec::new();
        push_le32(&mut v, self.tile_count_x);
        push_le32(&mut v, self.tile_count_y);
        push_le32(&mut v, self.num_bins);
        push_le32(&mut v, self.tile_size);
        push_le32(&mut v, self.max_depth_bits);
        let ghost head = v@;
        let mut i: usize = 0;
        while i < 12
            invariant
                i <= 12,
                v@ == head + Seq::new(i as nat, |k: int| 0u8),
            decreases 12 - i,
        {
            v.push(0u8);
            i = i + 1;
            assert(v@ =~= head + Seq::new(i as nat, |k: int| 0u8));
        }
        v
    }
}

/// Number of tiles along an axis of `extent` pixels.
pub open spec fn tile_count(extent: u32, tile_size: u32) -> int {
    div_ceil(extent as int, tile_size as int)
}

/// Bytes of the histogram buffer: one counter per tile and bin.
pub open spec fn histogram_bytes(tile_count_x: int, tile_count_y: int, num_bins: int) -> int {
    tile_count_x * tile_count_y * num_bins * COUNTER_BYTES
}

/// A GPU buffer as it is created.
#[derive(Clone, Copy, Debug, PartialEq, Eq, Structural)]
pub struct BufferDesc {
    pub size: u64,
}

/// The histogram buffer, the CDF volume and the parameter block of one view.
#[derive(Clone, Copy, Debug, PartialEq, Eq, Structural)]
pub struct HistogramWboitTextures {
    pub histogram_buffer: BufferDesc,
    pub cdf_texture: TextureDesc,
    pub params: HistogramParams,
    pub tile_count_x: u32,
    pub tile_count_y: u32,
    pub num_bins: u32,
}

/// The CDF volume: one texel per tile and bin.
pub open spec fn cdf_desc(tile_count_x: u32, tile_count_y: u32, num_bins: u32) -> TextureDesc {
    TextureDesc {
        width: tile_count_x,
        height: tile_count_y,
        depth_or_array_layers: num_bins,
        dimension: TextureDimension::D3,
        format: TextureFormat::Rgba16Float,
        usage: CDF_USAGE,
    }
}

/// The resources of a view whose histogram has the given parameters.
pub open spec fn histogram_resources(params: HistogramParams) -> HistogramWboitTextures {
    HistogramWboitTextures {
        histogram_buffer: BufferDesc {
            size: histogram_bytes(
                params.tile_count_x as int,
                params.tile_count_y as int,
                params.num_bins as int,
            ) as u64,
        },
        cdf_texture: cdf_desc(params.tile_count_x, params.tile_count_y, params.num_bins),
        params,
        tile_count_x: params.tile_count_x,
        tile_count_y: params.tile_count_y,
        num_bins: params.num_bins,
    }
}

/// The parameters of a view of `width` by `height` pixels under `settings`.
pub open spec fn histogram_params(width: u32, height: u32, settings: HEWboitSettings) -> HistogramParams {
    HistogramParams {
        tile_count_x: tile_count(width, settings.tile_size) as u32,
        tile_count_y: tile_count(height, settings.tile_size) as u32,
        num_bins: settings.num_bins,
        tile_size: settings.tile_size,
        max_depth_bits: settings.max_depth_bits,
    }
}

/// The buffer and volume are rebuilt when there were none, or when the tile
/// grid or the bin count changed; otherwise only the parameters are rewritten.
pub open spec fn needs_recreate(
    existing: Option<HistogramWboitTextures>,
    tile_count_x: u32,
    tile_count_y: u32,
    num_bins: u32,
) -> bool {
    match existing {
        Some(h) => h.tile_count_x != tile_count_x || h.tile_count_y != tile_count_y || h.num_bins
            != num_bins,
        None => true,
    }
}

pub fn check_needs_recreate(
    existing: &Option<HistogramWboitTextures>,
    tile_count_x: u32,
    tile_count_y: u32,
    num_bins: u32,
) -> (r: bool)
    ensures
        r == needs_recreate(*existing, tile_count_x, tile_count_y, num_bins),
{
    match existing {
        Some(h) => h.tile_count_x != tile_count_x || h.tile_count_y != tile_count_y || h.num_bins
            != num_bins,
        None => true,
    }
}

/// Both texture sets of a histogram view after this frame's preparation.
#[derive(Clone, Copy, Debug)]
pub struct HistogramViewResources {
    pub wboit: WboitTextures,
    pub histogram: HistogramWboitTextures,
    /// The histogram buffer and CDF volume were created anew this frame (and
    /// start empty); otherwise the old ones stay and only the parameter
    /// block is rewritten.
    pub recreated: bool,
}

/// Prepares the textures and buffers of a histogram view for this frame.
///
/// Without a known viewport the view is skipped (`Ok(None)`). A tile size or
/// bin count of zero is `InvalidTuning`; a histogram whose byte size does not
/// fit in 32 bits is `HistogramTooLarge`.
pub fn prepare_histogram_wboit_textures(
    existing_wboit: Option<WboitTextures>,
    existing_histo: Option<HistogramWboitTextures>,
    viewport: Option<(u32, u32)>,
    settings: HEWboitSettings,
) -> (r: Result<Option<HistogramViewResources>, WboitError>)
    requires
        existing_wboit matches Some(t) ==> t.wf(),
    ensures
        viewport is None ==> r == Ok::<Option<HistogramViewResources>, WboitError>(None),
        viewport matches Some((w, h)) ==> {
            let p = histogram_params(w, h, settings);
            if !settings.valid() {
                r == Err::<Option<HistogramViewResources>, WboitError>(WboitError::InvalidTuning)
            } else if histogram_bytes(
                p.tile_count_x as int,
                p.tile_count_y as int,
                p.num_bins as int,
            ) > u32::MAX {
                r == Err::<Option<HistogramViewResources>, WboitError>(
                    WboitError::HistogramTooLarge,
                )
            } else {
                r matches Ok(Some(v)) && v.wboit.wf() && v.wboit.sized(w, h)
                    && v.wboit.frame_index == next_frame_index(existing_wboit) && v.histogram
                    == histogram_resources(p) && v.recreated == needs_recreate(
                    existing_histo,
                    p.tile_count_x,
                    p.tile_count_y,
                    p.num_bins,
                )
            }
        },
{
    let (width, height) = match viewport {
        None => {
            return Ok(None);
        },
        Some(size) => size,
    };
    if !settings.is_valid() {
        return Err(WboitError::InvalidTuning);
    }
    let tile_size = settings.tile_size;
    let num_bins = settings.num_bins;
    let tile_count_x = div_ceil_u32(width, tile_size);
    let tile_count_y = div_ceil_u32(height, tile_size);
    let params = HistogramParams {
        tile_count_x,
        tile_count_y,
        num_bins,
        tile_size,
        max_depth_bits: settings.max_depth_bits,
    };
    assert(params == histogram_params(width, height, settings));
    assert((tile_count_x as int) * (tile_count_y as int) <= u64::MAX) by (nonlinear_arith)
        requires tile_count_x <= u32::MAX, tile_count_y <= u32::MAX;
    let cells: u64 = tile_count_x as u64 * tile_count_y as u64;
    let bytes: u64 = match cells.checked_mul(num_bins as u64) {
        None => {
            assert(histogram_bytes(tile_count_x as int, tile_count_y as int, num_bins as int)
                > u32::MAX) by (nonlinear_arith)
                requires
                    cells * num_bins > u64::MAX,
                    cells == tile_count_x * tile_count_y;
            return Err(WboitError::HistogramTooLarge);
        },
        Some(counters) => {
            if counters > (u32::MAX as u64) / COUNTER_BYTES {
                return Err(WboitError::HistogramTooLarge);
            }
            counters * COUNTER_BYTES
        },
    };
    let recreated = check_needs_recreate(&existing_histo, tile_count_x, tile_count_y, num_bins);
    let wboit = wboit_textures_for(width, height, frame_index_after(&existing_wboit));
    let histogram = HistogramWboitTextures {
        histogram_buffer: BufferDesc { size: bytes },
        cdf_texture: TextureDesc {
            width: tile_count_x,
            height: tile_count_y,
            depth_or_array_layers: num_bins,
            dimension: TextureDimension::D3,
            format: TextureFormat::Rgba16Float,
            usage: USAGE_TEXTURE_BINDING | USAGE_STORAGE_BINDING,
        },
        params,
        tile_count_x,
        tile_count_y,
        num_bins,
    };
    assert(4u32 | 8u32 == 12u32) by (bit_vector);
    Ok(Some(HistogramViewResources { wboit, histogram, recreated }))
}

} // verus!
