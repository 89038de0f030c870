use vstd::prelude::*;
use vstd::arithmetic::div_mod::lemma_fundamental_div_mod_converse;
use crate::settings::WboitError;
use crate::histogram_textures::{histogram_bytes, HistogramParams, COUNTER_BYTES};
use crate::cdf::{
    bin_of, bin_sum, built_cdf, cdf_entry, cdf_value, cell_count, cell_of, grid_valid,
    lemma_bin_sum_bounds, lemma_bin_sum_monotone, DepthSample, CDF_ONE, DEPTH_ONE,
};

verus! {

/// A counter that stops at its largest value.
pub open spec fn bumped(c: u32) -> u32 {
    if c < u32::MAX { (c + 1) as u32 } else { c }
}

/// The counters after one sample is recorded.
pub open spec fn record_one(p: HistogramParams, counts: Seq<u32>, s: DepthSample) -> Seq<u32> {
    match cell_of(p, s) {
        Some(i) => counts.update(i, bumped(counts[i])),
        None => counts,
    }
}

/// The counters after the samples are recorded in order.
pub open spec fn record_all(p: HistogramParams, counts: Seq<u32>, samples: Seq<DepthSample>) -> Seq<
    u32,
>
    decreases samples.len(),
{
    if samples.len() == 0 {
        counts
    } else {
        record_one(p, record_all(p, counts, samples.drop_last()), samples.last())
    }
}

/// The per-tile depth histogram of one view.
pub struct Histogram {
    pub params: HistogramParams,
    pub counts: Vec<u32>,
}

/// The CDF volume of one view, one value per tile and bin in units of `CDF_ONE`.
pub struct CdfTable {
    pub params: HistogramParams,
    pub values: Vec<u32>,
}

proof fn lemma_cell_in_grid(p: HistogramParams, s: DepthSample)
    requires
        grid_valid(p),
    ensures
        cell_of(p, s) matches Some(i) ==> 0 <= i < cell_count(p),
{
    if let Some(i) = cell_of(p, s) {
        let tx = s.x / p.tile_size;
        let ty = s.y / p.tile_size;
        let b = bin_of(s.depth, p.num_bins);
        let d = if s.depth > DEPTH_ONE { DEPTH_ONE as int } else { s.depth as int };
        assert(0 <= b < p.num_bins) by (nonlinear_arith)
            requires b == d * p.num_bins / (DEPTH_ONE + 1), 0 <= d <= DEPTH_ONE, p.num_bins > 0;
        assert(0 <= i < cell_count(p)) by (nonlinear_arith)
            requires
                i == (ty * p.tile_count_x + tx) * p.num_bins + b,
                0 <= tx < p.tile_count_x,
                0 <= ty < p.tile_count_y,
                0 <= b < p.num_bins,
                cell_count(p) == p.tile_count_x * p.tile_count_y * p.num_bins;
    }
}

proof fn lemma_cells_fit(p: HistogramParams)
    requires
        grid_valid(p),
    ensures
        cell_count(p) * 4 <= u32::MAX,
        p.tile_count_x * p.tile_count_y <= cell_count(p),
{
    assert(p.tile_count_x * p.tile_count_y <= cell_count(p)) by (nonlinear_arith)
        requires
            p.num_bins > 0,
            cell_count(p) == p.tile_count_x * p.tile_count_y * p.num_bins;
}

/// Why a grid is refused: an empty tile or bin count, or else its size.
pub open spec fn grid_error(p: HistogramParams) -> WboitError {
    if p.tile_size == 0 || p.num_bins == 0 {
        WboitError::InvalidTuning
    } else {
        WboitError::HistogramTooLarge
    }
}

/// Checks the grid of `p`.
pub fn check_grid(p: &HistogramParams) -> (r: Result<(), WboitError>)
    ensures
        r is Ok <==> grid_valid(*p),
        r matches Err(e) ==> e == grid_error(*p),
{
    if p.tile_size == 0 || p.num_bins == 0 {
        return Err(WboitError::InvalidTuning);
    }
    assert((p.tile_count_x as int) * (p.tile_count_y as int) <= u64::MAX) by (nonlinear_arith)
        requires p.tile_count_x <= u32::MAX, p.tile_count_y <= u32::MAX;
    let tiles: u64 = p.tile_count_x as u64 * p.tile_count_y as u64;
    match tiles.checked_mul(p.num_bins as u64) {
        None => {
            assert(histogram_bytes(p.tile_count_x as int, p.tile_count_y as int, p.num_bins as int)
                > u32::MAX) by (nonlinear_arith)
                requires
                    tiles * p.num_bins > u64::MAX,
                    tiles == p.tile_count_x * p.tile_count_y;
            Err(WboitError::HistogramTooLarge)
        },
        Some(cells) => {
            if cells > (u32::MAX as u64) / COUNTER_BYTES {
                Err(WboitError::HistogramTooLarge)
            } else {
                Ok(())
            }
        },
    }
}

/// A zero-filled vector of `n` counters.
fn zeros(n: usize) -> (r: Vec<u32>)
    ensures
        r@ == Seq::new(n as nat, |i: int| 0u32),
{
    let mut v: Vec<u32> = Vec::new();
    let mut i: usize = 0;
    while i < n
        invariant
            i <= n,
            v@ == Seq::new(i as nat, |k: int| 0u32),
        decreases n - i,
    {
        v.push(0u32);
        i = i + 1;
        assert(v@ =~= Seq::new(i as nat, |k: int| 0u32));
    }
    v
}

fn cell_total(p: &HistogramParams) -> (r: usize)
    requires
        grid_valid(*p),
    ensures
        r == cell_count(*p),
{
    proof {
        lemma_cells_fit(*p);
    }
    let tiles: usize = p.tile_count_x as usize * p.tile_count_y as usize;
    tiles * p.num_bins as usize
}

/// The counter index of a sample, or `None` outside the grid.
pub fn sample_cell(p: &HistogramParams, s: &DepthSample) -> (r: Option<usize>)
    requires
        grid_valid(*p),
    ensures
        r matches Some(i) ==> cell_of(*p, *s) == Some(i as int),
        r is None ==> cell_of(*p, *s) is None,
        r matches Some(i) ==> i < cell_count(*p),
{
    proof {
        lemma_cell_in_grid(*p, *s);
        lemma_cells_fit(*p);
    }
    let tx = s.x / p.tile_size;
    let ty = s.y / p.tile_size;
    if tx >= p.tile_count_x || ty >= p.tile_count_y {
        return None;
    }
    let d: u64 = if s.depth > DEPTH_ONE { DEPTH_ONE as u64 } else { s.depth as u64 };
    assert(d * (p.num_bins as int) <= u64::MAX) by (nonlinear_arith)
        requires d <= DEPTH_ONE, p.num_bins <= u32::MAX;
    let bin = d * (p.num_bins as u64) / (DEPTH_ONE as u64 + 1);
    let ghost i = (ty * p.tile_count_x + tx) * p.num_bins + bin;
    assert(i == cell_of(*p, *s)->0);
    assert(ty * p.tile_count_x + tx < p.tile_count_x * p.tile_count_y) by (nonlinear_arith)
        requires tx < p.tile_count_x, ty < p.tile_count_y;
    let tile: usize = ty as usize * p.tile_count_x as usize + tx as usize;
    Some(tile * p.num_bins as usize + bin as usize)
}

impl Histogram {
    pub open spec fn wf(&self) -> bool {
        grid_valid(self.params) && self.counts@.len() == cell_count(self.params)
    }

    /// An empty histogram over the grid of `params`.
    pub fn new(params: HistogramParams) -> (r: Result<Histogram, WboitError>)
        ensures
            r is Ok <==> grid_valid(params),
            r matches Err(e) ==> e == grid_error(params),
            r matches Ok(h) ==> h.wf() && h.params == params && h.counts@ == Seq::new(
                cell_count(params) as nat,
                |i: int| 0u32,
            ),
    {
        match check_grid(&params) {
            Err(e) => Err(e),
            Ok(()) => {
                let n = cell_total(&params);
                Ok(Histogram { params, counts: zeros(n) })
            },
        }
    }

    /// Counts one fragment in the bin of its tile and depth; a pixel outside
    /// the grid is not counted.
    pub fn record(&mut self, s: &DepthSample)
        requires
            old(self).wf(),
        ensures
            final(self).wf(),
            final(self).params == old(self).params,
            final(self).counts@ == record_one(old(self).params, old(self).counts@, *s),
    {
        match sample_cell(&self.params, s) {
            None => {},
            Some(i) => {
                let c = self.counts[i];
                let n = if c < u32::MAX { c + 1 } else { c };
                self.counts.set(i, n);
            },
        }
    }

    /// The count of bin `bin` of tile `(tx, ty)`.
    pub fn count_at(&self, tx: u32, ty: u32, bin: u32) -> (r: u32)
        requires
            self.wf(),
            tx < self.params.tile_count_x,
            ty < self.params.tile_count_y,
            bin < self.params.num_bins,
        ensures
            r == self.counts@[(ty * self.params.tile_count_x + tx) * self.params.num_bins + bin],
    {
        let p = self.params;
        proof {
            lemma_cells_fit(p);
        }
        assert((ty * p.tile_count_x + tx) * p.num_bins + bin < cell_count(p)) by (nonlinear_arith)
            requires
                tx < p.tile_count_x,
                ty < p.tile_count_y,
                bin < p.num_bins,
                cell_count(p) == p.tile_count_x * p.tile_count_y * p.num_bins;
        assert(ty * p.tile_count_x + tx <= p.tile_count_x * p.tile_count_y) by (nonlinear_arith)
            requires tx < p.tile_count_x, ty < p.tile_count_y;
        let tile: usize = ty as usize * p.tile_count_x as usize + tx as usize;
        self.counts[tile * p.num_bins as usize + bin as usize]
    }

    /// The CDF build pass: turns every tile's counts into its cumulative
    /// distribution and leaves every counter at zero for the next frame.
    pub fn build_cdf(&mut self) -> (r: CdfTable)
        requires
            old(self).wf(),
        ensures
            final(self).wf(),
            final(self).params == old(self).params,
            final(self).counts@ == Seq::new(old(self).counts@.len(), |i: int| 0u32),
            r.wf(),
            r.params == old(self).params,
            r.values@ == built_cdf(old(self).counts@, old(self).params.num_bins as nat),
    {
        let ghost old_counts = self.counts@;
        let ghost len = old_counts.len();
        let p = self.params;
        proof {
            lemma_cells_fit(p);
        }
        let nb: usize = p.num_bins as usize;
        let n_tiles: usize = p.tile_count_x as usize * p.tile_count_y as usize;
        let ghost gnb = nb as nat;
        assert(n_tiles * nb == len);
        let mut values: Vec<u32> = Vec::new();
        let mut t: usize = 0;
        while t < n_tiles
            invariant
                self.params == p,
                grid_valid(p),
                nb == p.num_bins,
                nb > 0,
                n_tiles * nb == len,
                old_counts.len() == len,
                len <= u32::MAX,
                gnb == nb,
                t <= n_tiles,
                self.counts@.len() == len,
                values@.len() == t * nb,
                forall|i: int| 0 <= i < t * nb ==> values@[i] == built_cdf(old_counts, gnb)[i],
                forall|i: int| 0 <= i < t * nb ==> self.counts@[i] == 0,
                forall|i: int| t * nb <= i < len ==> self.counts@[i] == old_counts[i],
            decreases n_tiles - t,
        {
            assert(t * nb + nb <= n_tiles * nb) by (nonlinear_arith)
                requires t < n_tiles;
            let base: usize = t * nb;
            let mut total: u64 = 0;
            let mut b: usize = 0;
            while b < nb
                invariant
                    self.params == p,
                    base + nb <= len,
                    len <= u32::MAX,
                    old_counts.len() == len,
                    self.counts@.len() == len,
                    b <= nb,
                    forall|i: int| base <= i < len ==> self.counts@[i] == old_counts[i],
                    total == bin_sum(old_counts, base as int, b as nat),
                    nb <= u32::MAX,
                decreases nb - b,
            {
                proof {
                    lemma_bin_sum_bounds(old_counts, base as int, (b + 1) as nat);
                    assert((b + 1) * (u32::MAX as int) <= u64::MAX) by (nonlinear_arith)
                        requires b < nb, nb <= u32::MAX;
                }
                total = total + self.counts[base + b] as u64;
                b = b + 1;
            }
            proof {
                lemma_bin_sum_bounds(old_counts, base as int, gnb);
            }
            let mut running: u64 = 0;
            b = 0;
            while b < nb
                invariant
                    self.params == p,
                    base == t * nb,
                    t < n_tiles,
                    base + nb <= len,
                    len <= u32::MAX,
                    nb == p.num_bins,
                    nb > 0,
                    gnb == nb,
                    old_counts.len() == len,
                    self.counts@.len() == len,
                    b <= nb,
                    total == bin_sum(old_counts, base as int, gnb),
                    running == bin_sum(old_counts, base as int, b as nat),
                    values@.len() == base + b,
                    forall|i: int| 0 <= i < base + b ==> values@[i] == built_cdf(old_counts, gnb)[i],
                    forall|i: int| 0 <= i < base + b ==> self.counts@[i] == 0,
                    forall|i: int| base + b <= i < len ==> self.counts@[i] == old_counts[i],
                decreases nb - b,
            {
                proof {
                    lemma_bin_sum_monotone(old_counts, base as int, (b + 1) as nat, gnb);
                    lemma_bin_sum_bounds(old_counts, base as int, (b + 1) as nat);
                }
                running = running + self.counts[base + b] as u64;
                let v: u32 = if total == 0 {
                    0
                } else {
                    assert(running * CDF_ONE <= u128::MAX) by (nonlinear_arith)
                        requires running <= u64::MAX;
                    assert((running as int) * (CDF_ONE as int) / (total as int) <= CDF_ONE) by (nonlinear_arith)
                        requires running <= total, total > 0;
                    ((running as u128 * CDF_ONE as u128) / total as u128) as u32
                };
                proof {
                    let i = base + b;
                    lemma_fundamental_div_mod_converse(i as int, nb as int, t as int, b as int);
                    assert(v == cdf_value(old_counts, base as int, gnb, b as int));
                    assert(v == cdf_entry(old_counts, gnb, i as int));
                }
                values.push(v);
                self.counts.set(base + b, 0);
                b = b + 1;
            }
            t = t + 1;
            assert(values@.len() == t * nb) by (nonlinear_arith)
                requires values@.len() == base + nb, base == (t - 1) * nb;
        }
        assert(self.counts@ =~= Seq::new(len, |i: int| 0u32));
        assert(values@ =~= built_cdf(old_counts, gnb));
        CdfTable { params: p, values }
    }
}

impl CdfTable {
    pub open spec fn wf(&self) -> bool {
        grid_valid(self.params) && self.values@.len() == cell_count(self.params)
    }

    /// The CDF volume as it is created: all zeros.
    pub fn new(params: HistogramParams) -> (r: Result<CdfTable, WboitError>)
        ensures
            r is Ok <==> grid_valid(params),
            r matches Err(e) ==> e == grid_error(params),
            r matches Ok(c) ==> c.wf() && c.params == params && c.values@ == Seq::new(
                cell_count(params) as nat,
                |i: int| 0u32,
            ),
    {
        match check_grid(&params) {
            Err(e) => Err(e),
            Ok(()) => {
                let n = cell_total(&params);
                Ok(CdfTable { params, values: zeros(n) })
            },
        }
    }

    /// The equalization factor of a sample: the CDF value at its tile and
    /// bin, or 0 for a pixel outside the grid.
    pub fn factor(&self, s: &DepthSample) -> (r: u32)
        requires
            self.wf(),
        ensures
            r == factor_of(self.params, self.values@, *s),
    {
        match sample_cell(&self.params, s) {
            None => 0,
            Some(i) => self.values[i],
        }
    }
}

/// The equalization factor that a CDF volume gives a sample.
pub open spec fn factor_of(p: HistogramParams, values: Seq<u32>, s: DepthSample) -> u32 {
    match cell_of(p, s) {
        Some(i) => values[i],
        None => 0,
    }
}

/// The factors that a CDF volume gives the samples of a frame.
pub open spec fn frame_factors(p: HistogramParams, cdf: Seq<u32>, samples: Seq<DepthSample>) -> Seq<
    u32,
> {
    samples.map_values(|s: DepthSample| factor_of(p, cdf, s))
}

/// Zeroed counters or CDF values for the grid of `p`.
pub open spec fn empty_cells(p: HistogramParams) -> Seq<u32> {
    Seq::new(cell_count(p) as nat, |i: int| 0u32)
}

/// The histogram and the CDF volume of one histogram view across frames.
///
/// The accumulation pass reads the CDF built at the end of the previous frame
/// while it counts this frame's samples; the CDF build pass then replaces the
/// CDF and empties the histogram.
pub struct HistogramPass {
    pub histogram: Histogram,
    pub cdf: CdfTable,
}

impl HistogramPass {
    pub open spec fn wf(&self) -> bool {
        &&& self.histogram.wf()
        &&& self.cdf.wf()
        &&& self.histogram.params == self.cdf.params
    }

    pub open spec fn params(&self) -> HistogramParams {
        self.histogram.params
    }

    /// The state of a view whose resources were just created.
    pub fn new(params: HistogramParams) -> (r: Result<HistogramPass, WboitError>)
        ensures
            r is Ok <==> grid_valid(params),
            r matches Err(e) ==> e == grid_error(params),
            r matches Ok(s) ==> s.wf() && s.params() == params && s.histogram.counts@
                == empty_cells(params) && s.cdf.values@ == empty_cells(params),
    {
        let histogram = match Histogram::new(params) {
            Err(e) => {
                return Err(e);
            },
            Ok(h) => h,
        };
        let cdf = match CdfTable::new(params) {
            Err(e) => {
                return Err(e);
            },
            Ok(c) => c,
        };
        Ok(HistogramPass { histogram, cdf })
    }

    /// The accumulation pass over this frame's samples: returns each sample's
    /// equalization factor from the previous frame's CDF and counts the
    /// sample in this frame's histogram.
    pub fn accumulate(&mut self, samples: &Vec<DepthSample>) -> (r: Vec<u32>)
        requires
            old(self).wf(),
        ensures
            final(self).wf(),
            final(self).params() == old(self).params(),
            final(self).cdf.values@ == old(self).cdf.values@,
            final(self).histogram.counts@ == record_all(
                old(self).params(),
                old(self).histogram.counts@,
                samples@,
            ),
            r@ == frame_factors(old(self).params(), old(self).cdf.values@, samples@),
    {
        let ghost p = self.params();
        let ghost counts0 = self.histogram.counts@;
        let ghost cdf0 = self.cdf.values@;
        let mut factors: Vec<u32> = Vec::new();
        let mut i: usize = 0;
        while i < samples.len()
            invariant
                self.wf(),
                self.params() == p,
                self.cdf.values@ == cdf0,
                i <= samples@.len(),
                self.histogram.counts@ == record_all(p, counts0, samples@.take(i as int)),
                factors@ == frame_factors(p, cdf0, samples@.take(i as int)),
            decreases samples@.len() - i,
        {
            let s = &samples[i];
            let f = self.cdf.factor(s);
            factors.push(f);
            self.histogram.record(s);
            proof {
                let next = samples@.take(i + 1);
                assert(next.drop_last() =~= samples@.take(i as int));
                assert(next.last() == samples@[i as int]);
                assert(factors@ =~= frame_factors(p, cdf0, next));
            }
            i = i + 1;
        }
        assert(samples@.take(samples@.len() as int) =~= samples@);
        factors
    }

    /// The CDF build pass at the end of a frame.
    pub fn finish_frame(&mut self)
        requires
            old(self).wf(),
        ensures
            final(self).wf(),
            final(self).params() == old(self).params(),
            final(self).histogram.counts@ == empty_cells(old(self).params()),
            final(self).cdf.values@ == built_cdf(
                old(self).histogram.counts@,
                old(self).params().num_bins as nat,
            ),
    {
        let cdf = self.histogram.build_cdf();
        self.cdf = cdf;
        assert(self.histogram.counts@ =~= empty_cells(self.params()));
    }
}

/// One-frame latency of the CDF: on a fresh view, the factors read during
/// the second frame are those of the CDF built from the first frame's samples
/// alone, whatever the second frame itself records, and the second frame
/// starts counting from an empty histogram.
pub proof fn lemma_cdf_from_previous_frame(
    p: HistogramParams,
    first: Seq<DepthSample>,
    second: Seq<DepthSample>,
)
    requires
        grid_valid(p),
    ensures
        ({
            let gathered = record_all(p, empty_cells(p), first);
            let cdf = built_cdf(gathered, p.num_bins as nat);
            &&& frame_factors(p, cdf, second).len() == second.len()
            &&& forall|i: int|
                0 <= i < second.len() ==> #[trigger] frame_factors(p, cdf, second)[i]
                    == factor_of(p, cdf, second[i])
            &&& forall|other: Seq<DepthSample>|
                other.len() == second.len() ==> (forall|i: int|
                    0 <= i < second.len() && other[i] == second[i] ==> #[trigger] frame_factors(
                        p,
                        cdf,
                        other,
                    )[i] == frame_factors(p, cdf, second)[i])
        }),
{
}

} // verus!
