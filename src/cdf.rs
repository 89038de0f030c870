use vstd::prelude::*;
use vstd::arithmetic::div_mod::{lemma_div_is_ordered, lemma_fundamental_div_mod_converse};
use vstd::arithmetic::mul::lemma_mul_inequality;
use crate::histogram_textures::{histogram_bytes, HistogramParams};

verus! {

/// Fixed-point one of a normalized view depth: `0` is the camera, `DEPTH_ONE`
/// is the far distance of the histogram.
pub const DEPTH_ONE: u32 = 65535;

/// Fixed-point one of a CDF value.
pub const CDF_ONE: u32 = 65535;

/// Sum of the `k` counters that start at `start`.
pub open spec fn bin_sum(counts: Seq<u32>, start: int, k: nat) -> int
    decreases k,
{
    if k == 0 {
        0
    } else {
        bin_sum(counts, start, (k - 1) as nat) + counts[start + k - 1]
    }
}

/// The CDF of bin `bin` of the tile whose `num_bins` counters start at
/// `start`: the counts up to and including the bin over the tile's total,
/// in units of `CDF_ONE`. A tile without samples has a CDF of all zeros.
pub open spec fn cdf_value(counts: Seq<u32>, start: int, num_bins: nat, bin: int) -> int {
    let total = bin_sum(counts, start, num_bins);
    if total == 0 {
        0
    } else {
        bin_sum(counts, start, (bin + 1) as nat) * CDF_ONE / total
    }
}

/// The CDF entry at flat index `i`, where tile `t` holds indices
/// `t * num_bins .. (t + 1) * num_bins`.
pub open spec fn cdf_entry(counts: Seq<u32>, num_bins: nat, i: int) -> int {
    cdf_value(counts, (i / num_bins as int) * num_bins, num_bins, i % num_bins as int)
}

/// The CDF volume built from a whole histogram.
pub open spec fn built_cdf(counts: Seq<u32>, num_bins: nat) -> Seq<u32> {
    Seq::new(counts.len(), |i: int| cdf_entry(counts, num_bins, i) as u32)
}

/// The bin of a normalized depth; depths past `DEPTH_ONE` fall in the last bin.
pub open spec fn bin_of(depth: u32, num_bins: u32) -> int {
    let d = if depth > DEPTH_ONE { DEPTH_ONE as int } else { depth as int };
    d * num_bins / (DEPTH_ONE + 1)
}

/// A fragment as the histogram sees it: its pixel and normalized depth.
#[derive(Clone, Copy, Debug, PartialEq, Eq, Structural)]
pub struct DepthSample {
    pub x: u32,
    pub y: u32,
    pub depth: u32,
}

/// The tile grid holds `num_bins` counters for each tile, and no more than a
/// 32-bit byte size allows.
pub open spec fn grid_valid(p: HistogramParams) -> bool {
    &&& p.tile_size > 0
    &&& p.num_bins > 0
    &&& histogram_bytes(p.tile_count_x as int, p.tile_count_y as int, p.num_bins as int)
        <= u32::MAX
}

/// Number of counters of the grid.
pub open spec fn cell_count(p: HistogramParams) -> int {
    p.tile_count_x * p.tile_count_y * p.num_bins
}

/// The counter that a sample lands in, or `None` for a pixel outside the grid.
pub open spec fn cell_of(p: HistogramParams, s: DepthSample) -> Option<int> {
    let tx = s.x / p.tile_size;
    let ty = s.y / p.tile_size;
    if tx >= p.tile_count_x || ty >= p.tile_count_y {
        None
    } else {
        Some((ty * p.tile_count_x + tx) * p.num_bins + bin_of(s.depth, p.num_bins))
    }
}

pub proof fn lemma_bin_sum_bounds(counts: Seq<u32>, start: int, k: nat)
    requires
        0 <= start,
        start + k <= counts.len(),
    ensures
        0 <= bin_sum(counts, start, k) <= k * (u32::MAX as int),
    decreases k,
{
    if k > 0 {
        lemma_bin_sum_bounds(counts, start, (k - 1) as nat);
    }
}

pub proof fn lemma_bin_sum_monotone(counts: Seq<u32>, start: int, k1: nat, k2: nat)
    requires
        0 <= start,
        k1 <= k2,
        start + k2 <= counts.len(),
    ensures
        bin_sum(counts, start, k1) <= bin_sum(counts, start, k2),
    decreases k2,
{
    if k1 < k2 {
        lemma_bin_sum_monotone(counts, start, k1, (k2 - 1) as nat);
    }
}

proof fn lemma_cdf_value_bounded(counts: Seq<u32>, start: int, num_bins: nat, bin: int)
    requires
        0 <= start,
        0 <= bin < num_bins,
        start + num_bins <= counts.len(),
    ensures
        0 <= cdf_value(counts, start, num_bins, bin) <= CDF_ONE,
{
    let total = bin_sum(counts, start, num_bins);
    let part = bin_sum(counts, start, (bin + 1) as nat);
    lemma_bin_sum_monotone(counts, start, (bin + 1) as nat, num_bins);
    lemma_bin_sum_bounds(counts, start, (bin + 1) as nat);
    if total != 0 {
        assert(0 <= part * CDF_ONE / total <= CDF_ONE) by (nonlinear_arith)
            requires 0 <= part <= total, total > 0;
    }
}

/// The CDF of every tile is non-decreasing over its bins, and its last bin is
/// `CDF_ONE`, or 0 for a tile without samples.
pub proof fn lemma_cdf_monotone(counts: Seq<u32>, num_bins: nat, tile: int, b1: int, b2: int)
    requires
        num_bins > 0,
        0 <= tile,
        (tile + 1) * num_bins <= counts.len(),
        0 <= b1 <= b2 < num_bins,
    ensures
        built_cdf(counts, num_bins)[tile * num_bins + b1] <= built_cdf(counts, num_bins)[tile
            * num_bins + b2],
        built_cdf(counts, num_bins)[tile * num_bins + num_bins - 1] == if bin_sum(
            counts,
            tile * num_bins,
            num_bins,
        ) == 0 {
            0
        } else {
            CDF_ONE
        },
{
    let nb = num_bins as int;
    let start = tile * nb;
    assert(start + nb <= counts.len()) by (nonlinear_arith)
        requires (tile + 1) * nb <= counts.len(), start == tile * nb;
    assert(0 <= start) by (nonlinear_arith)
        requires 0 <= tile, nb > 0, start == tile * nb;
    lemma_fundamental_div_mod_converse(start + b1, nb, tile, b1);
    lemma_fundamental_div_mod_converse(start + b2, nb, tile, b2);
    lemma_fundamental_div_mod_converse(start + nb - 1, nb, tile, nb - 1);
    lemma_cdf_value_bounded(counts, start, num_bins, b1);
    lemma_cdf_value_bounded(counts, start, num_bins, b2);
    lemma_cdf_value_bounded(counts, start, num_bins, nb - 1);
    let total = bin_sum(counts, start, num_bins);
    lemma_bin_sum_bounds(counts, start, num_bins);
    if total != 0 {
        let one = CDF_ONE as int;
        let p1 = bin_sum(counts, start, (b1 + 1) as nat);
        let p2 = bin_sum(counts, start, (b2 + 1) as nat);
        lemma_bin_sum_monotone(counts, start, (b1 + 1) as nat, (b2 + 1) as nat);
        lemma_bin_sum_bounds(counts, start, (b1 + 1) as nat);
        lemma_mul_inequality(p1, p2, one);
        lemma_div_is_ordered(p1 * one, p2 * one, total);
        assert(total * CDF_ONE / total == CDF_ONE) by (nonlinear_arith)
            requires total > 0;
    }
}

} // verus!
