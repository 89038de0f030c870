use vstd::prelude::*;
use crate::cdf::DEPTH_ONE;

verus! {

/// Fixed-point one of coverage, revealage and color channels.
pub const UNIT: u32 = 65536;

/// Largest weight that the depth weighting gives.
pub const WEIGHT_MAX: u32 = 1024;

/// Bound on the accumulated alpha that keeps every sum inside 128 bits.
pub const ACCUM_LIMIT: u128 = 0x10_0000_0000_0000_0000_0000_0000;

/// A straight (not premultiplied) color, each channel in `0..=UNIT`.
#[derive(Clone, Copy, Debug, PartialEq, Eq, Structural)]
pub struct Rgb {
    pub r: u32,
    pub g: u32,
    pub b: u32,
}

impl Rgb {
    pub open spec fn valid(self) -> bool {
        self.r <= UNIT && self.g <= UNIT && self.b <= UNIT
    }
}

/// One transparent fragment at a pixel: its straight color, its coverage in
/// `0..=UNIT`, and its normalized view depth in `0..=DEPTH_ONE`.
#[derive(Clone, Copy, Debug, PartialEq, Eq, Structural)]
pub struct Fragment {
    pub color: Rgb,
    pub coverage: u32,
    pub depth: u32,
}

impl Fragment {
    pub open spec fn valid(self) -> bool {
        self.color.valid() && self.coverage <= UNIT && self.depth <= DEPTH_ONE
    }
}

/// The depth weighting: `1 + (DEPTH_ONE - depth)^2 / 2^22`, from 1024 at the
/// camera down to 1 at the far distance, so that nearer fragments count more.
pub open spec fn depth_weight(depth: u32) -> int {
    let d = if depth > DEPTH_ONE { DEPTH_ONE as int } else { depth as int };
    let q = DEPTH_ONE - d;
    1 + q * q / 0x40_0000
}

pub proof fn lemma_depth_weight_range(depth: u32)
    ensures
        1 <= depth_weight(depth) <= WEIGHT_MAX,
{
    let d = if depth > DEPTH_ONE { DEPTH_ONE as int } else { depth as int };
    let q = DEPTH_ONE - d;
    assert(q * q <= DEPTH_ONE * DEPTH_ONE) by (nonlinear_arith)
        requires 0 <= q <= DEPTH_ONE;
    assert(0 <= q * q / 0x40_0000 <= 1023) by (nonlinear_arith)
        requires 0 <= q * q <= DEPTH_ONE * DEPTH_ONE;
}

/// Nearer fragments never weigh less than farther ones.
pub proof fn lemma_depth_weight_monotone(near: u32, far: u32)
    requires
        near <= far,
    ensures
        depth_weight(near) >= depth_weight(far),
{
    let dn = if near > DEPTH_ONE { DEPTH_ONE as int } else { near as int };
    let df = if far > DEPTH_ONE { DEPTH_ONE as int } else { far as int };
    let qn = DEPTH_ONE - dn;
    let qf = DEPTH_ONE - df;
    assert(qn * qn / 0x40_0000 >= qf * qf / 0x40_0000) by (nonlinear_arith)
        requires 0 <= qf <= qn;
}

/// The weight of a normalized depth (or of an equalized depth, for the
/// histogram variant).
pub fn weight_of_depth(depth: u32) -> (r: u32)
    ensures
        r == depth_weight(depth),
        1 <= r <= WEIGHT_MAX,
{
    proof {
        lemma_depth_weight_range(depth);
    }
    let d: u64 = if depth > DEPTH_ONE { DEPTH_ONE as u64 } else { depth as u64 };
    let q: u64 = DEPTH_ONE as u64 - d;
    assert(q * q <= 0x1_0000_0000) by (nonlinear_arith)
        requires q <= DEPTH_ONE;
    (1 + q * q / 0x40_0000) as u32
}

/// What the two accumulation targets hold at one pixel.
#[derive(Clone, Copy, Debug, PartialEq, Eq, Structural)]
pub struct PixelAccum {
    /// Weighted premultiplied color, red, green and blue.
    pub r: u128,
    pub g: u128,
    pub b: u128,
    /// Weighted coverage.
    pub a: u128,
    /// Product of the coverage complements, in `0..=UNIT`.
    pub revealage: u32,
}

/// The accumulation target after the additive (one, one) blend of a
/// fragment with the given weight.
pub open spec fn accumulated(p: PixelAccum, f: Fragment, weight: int) -> PixelAccum {
    PixelAccum {
        r: (p.r + weight * f.coverage * f.color.r) as u128,
        g: (p.g + weight * f.coverage * f.color.g) as u128,
        b: (p.b + weight * f.coverage * f.color.b) as u128,
        a: (p.a + weight * f.coverage) as u128,
        revealage: (p.revealage * (UNIT - f.coverage) / UNIT as int) as u32,
    }
}

/// Revealage after fragments of the given coverages, in order, from a
/// cleared target.
pub open spec fn revealage_after(coverages: Seq<u32>) -> int
    decreases coverages.len(),
{
    if coverages.len() == 0 {
        UNIT as int
    } else {
        revealage_after(coverages.drop_last()) * (UNIT - coverages.last()) / UNIT as int
    }
}

/// The resolved color: the weighted average of the fragments' colors, or
/// black where nothing was accumulated.
pub open spec fn resolved_channel(sum: u128, a: u128) -> int {
    if a == 0 { 0 } else { (sum as int) / (a as int) }
}

/// The composite's output over a background channel, with premultiplied
/// alpha blending: `color * alpha + background * (1 - alpha)`.
pub open spec fn over(color: int, alpha: int, background: int) -> int {
    color * alpha / UNIT as int + background * (UNIT - alpha) / UNIT as int
}

impl PixelAccum {
    pub open spec fn wf(self) -> bool {
        &&& self.revealage <= UNIT
        &&& self.a <= ACCUM_LIMIT
        &&& self.r <= UNIT * self.a
        &&& self.g <= UNIT * self.a
        &&& self.b <= UNIT * self.a
    }

    /// Output alpha of the composite: one minus the revealage.
    pub open spec fn alpha(self) -> int {
        UNIT - self.revealage
    }

    /// The composited color over `bg`.
    pub open spec fn over_spec(self, bg: Rgb) -> Rgb {
        Rgb {
            r: over(resolved_channel(self.r, self.a), self.alpha(), bg.r as int) as u32,
            g: over(resolved_channel(self.g, self.a), self.alpha(), bg.g as int) as u32,
            b: over(resolved_channel(self.b, self.a), self.alpha(), bg.b as int) as u32,
        }
    }

    /// The targets as the accumulation pass clears them: no color, revealage one.
    pub fn cleared() -> (r: PixelAccum)
        ensures
            r.wf(),
            r == (PixelAccum { r: 0, g: 0, b: 0, a: 0, revealage: UNIT }),
    {
        PixelAccum { r: 0, g: 0, b: 0, a: 0, revealage: UNIT }
    }

    /// Blends one fragment into both targets.
    pub fn blend(&mut self, f: &Fragment, weight: u32)
        requires
            old(self).wf(),
            f.valid(),
            weight <= WEIGHT_MAX,
            old(self).a + WEIGHT_MAX * UNIT <= ACCUM_LIMIT,
        ensures
            final(self).wf(),
            *final(self) == accumulated(*old(self), *f, weight as int),
    {
        assert((weight as int) * (f.coverage as int) <= WEIGHT_MAX * UNIT) by (nonlinear_arith)
            requires weight <= WEIGHT_MAX, f.coverage <= UNIT;
        let wa: u128 = weight as u128 * f.coverage as u128;
        let ghost a0 = self.a as int;
        assert(wa * f.color.r <= UNIT * wa && wa * f.color.g <= UNIT * wa && wa * f.color.b
            <= UNIT * wa) by (nonlinear_arith)
            requires f.color.r <= UNIT, f.color.g <= UNIT, f.color.b <= UNIT, wa >= 0;
        assert(UNIT * (a0 + wa) == UNIT * a0 + UNIT * wa) by (nonlinear_arith);
        assert(UNIT * (a0 + wa) <= u128::MAX) by (nonlinear_arith)
            requires a0 + wa <= ACCUM_LIMIT;
        self.r = self.r + wa * f.color.r as u128;
        self.g = self.g + wa * f.color.g as u128;
        self.b = self.b + wa * f.color.b as u128;
        self.a = self.a + wa;
        assert((self.revealage as int) * ((UNIT - f.coverage) as int) <= UNIT * UNIT) by (nonlinear_arith)
            requires self.revealage <= UNIT, f.coverage <= UNIT;
        let rv: u64 = self.revealage as u64 * (UNIT - f.coverage) as u64;
        assert((rv as int) / (UNIT as int) <= UNIT) by (nonlinear_arith)
            requires rv <= UNIT * UNIT;
        self.revealage = (rv / UNIT as u64) as u32;
        assert(weight * f.coverage * f.color.r == wa * f.color.r) by (nonlinear_arith)
            requires wa == weight * f.coverage;
        assert(weight * f.coverage * f.color.g == wa * f.color.g) by (nonlinear_arith)
            requires wa == weight * f.coverage;
        assert(weight * f.coverage * f.color.b == wa * f.color.b) by (nonlinear_arith)
            requires wa == weight * f.coverage;
    }

    /// The color that the composite pass resolves, before blending.
    pub fn resolve(&self) -> (r: Rgb)
        requires
            self.wf(),
        ensures
            r.valid(),
            r.r == resolved_channel(self.r, self.a),
            r.g == resolved_channel(self.g, self.a),
            r.b == resolved_channel(self.b, self.a),
    {
        if self.a == 0 {
            return Rgb { r: 0, g: 0, b: 0 };
        }
        assert(self.r / self.a <= UNIT && self.g / self.a <= UNIT && self.b / self.a <= UNIT)
            by (nonlinear_arith)
            requires
                self.r <= UNIT * self.a,
                self.g <= UNIT * self.a,
                self.b <= UNIT * self.a,
                self.a > 0;
        Rgb {
            r: (self.r / self.a) as u32,
            g: (self.g / self.a) as u32,
            b: (self.b / self.a) as u32,
        }
    }

    /// The composite pass: the resolved color with alpha one minus the
    /// revealage, blended over the background with premultiplied alpha.
    pub fn composite_over(&self, bg: &Rgb) -> (r: Rgb)
        requires
            self.wf(),
            bg.valid(),
        ensures
            r == self.over_spec(*bg),
            r.valid(),
    {
        let c = self.resolve();
        let alpha: u64 = (UNIT - self.revealage) as u64;
        Rgb {
            r: over_channel(c.r, alpha, bg.r),
            g: over_channel(c.g, alpha, bg.g),
            b: over_channel(c.b, alpha, bg.b),
        }
    }
}

fn over_channel(color: u32, alpha: u64, background: u32) -> (r: u32)
    requires
        color <= UNIT,
        alpha <= UNIT,
        background <= UNIT,
    ensures
        r == over(color as int, alpha as int, background as int),
        r <= UNIT,
{
    assert((color as int) * (alpha as int) <= UNIT * UNIT) by (nonlinear_arith)
        requires color <= UNIT, alpha <= UNIT;
    assert((background as int) * (UNIT - alpha) <= UNIT * UNIT) by (nonlinear_arith)
        requires background <= UNIT, alpha <= UNIT;
    let ca: u64 = color as u64 * alpha;
    let ba: u64 = background as u64 * (UNIT as u64 - alpha);
    assert((ca as int) / (UNIT as int) + (ba as int) / (UNIT as int) <= UNIT) by (nonlinear_arith)
        requires
            ca == color * alpha,
            ba == background * (UNIT - alpha),
            color <= UNIT,
            alpha <= UNIT,
            background <= UNIT;
    (ca / UNIT as u64 + ba / UNIT as u64) as u32
}

/// Both targets after the fragments are blended in order, each with its
/// weight, from the cleared state.
pub open spec fn pixel_after(frags: Seq<Fragment>, weights: Seq<int>) -> PixelAccum
    decreases frags.len(),
{
    if frags.len() == 0 {
        PixelAccum { r: 0, g: 0, b: 0, a: 0, revealage: UNIT }
    } else {
        accumulated(
            pixel_after(frags.drop_last(), weights),
            frags.last(),
            weights[frags.len() - 1],
        )
    }
}

/// The coverages of the fragments, in order.
pub open spec fn coverages(frags: Seq<Fragment>) -> Seq<u32> {
    frags.map_values(|f: Fragment| f.coverage)
}

/// The naive weights: each fragment's depth weight.
pub open spec fn naive_weights(frags: Seq<Fragment>) -> Seq<int> {
    frags.map_values(|f: Fragment| depth_weight(f.depth))
}

/// The histogram-equalized weights: the depth weight of each fragment's
/// equalized depth, which is its CDF value.
pub open spec fn equalized_weights(factors: Seq<u32>) -> Seq<int> {
    factors.map_values(|c: u32| depth_weight(c))
}

pub proof fn lemma_revealage_of_pixel(frags: Seq<Fragment>, weights: Seq<int>)
    requires
        forall|i: int| 0 <= i < frags.len() ==> #[trigger] frags[i].valid(),
    ensures
        pixel_after(frags, weights).revealage == revealage_after(coverages(frags)),
    decreases frags.len(),
{
    if frags.len() > 0 {
        let init = frags.drop_last();
        assert forall|i: int| 0 <= i < init.len() implies #[trigger] init[i].valid() by {
            assert(init[i] == frags[i]);
        }
        lemma_revealage_of_pixel(init, weights);
        assert(coverages(frags).drop_last() =~= coverages(init));
        let covs = coverages(init);
        assert forall|i: int| 0 <= i < covs.len() implies covs[i] <= UNIT by {
            assert(init[i].valid());
        }
        lemma_revealage_range(covs);
        let r = revealage_after(covs);
        let c = frags.last().coverage;
        assert(frags[frags.len() - 1].valid());
        assert(0 <= r * (UNIT - c) / UNIT as int <= UNIT) by (nonlinear_arith)
            requires 0 <= r <= UNIT, c <= UNIT;
    }
}

proof fn lemma_revealage_range(covs: Seq<u32>)
    requires
        forall|i: int| 0 <= i < covs.len() ==> covs[i] <= UNIT,
    ensures
        0 <= revealage_after(covs) <= UNIT,
    decreases covs.len(),
{
    if covs.len() > 0 {
        lemma_revealage_range(covs.drop_last());
        let r = revealage_after(covs.drop_last());
        let c = covs.last();
        assert(0 <= r * (UNIT - c) / UNIT as int <= UNIT) by (nonlinear_arith)
            requires 0 <= r <= UNIT, c <= UNIT;
    }
}

/// Blends every fragment into cleared targets, fragment `i` with weight
/// `weights[i]`.
pub fn accumulate_weighted(frags: &Vec<Fragment>, weights: &Vec<u32>) -> (r: PixelAccum)
    requires
        weights@.len() == frags@.len(),
        forall|i: int| 0 <= i < frags@.len() ==> #[trigger] frags@[i].valid(),
        forall|i: int| 0 <= i < weights@.len() ==> #[trigger] weights@[i] <= WEIGHT_MAX,
    ensures
        r.wf(),
        r == pixel_after(frags@, weights@.map_values(|w: u32| w as int)),
{
    let ghost ws = weights@.map_values(|w: u32| w as int);
    let mut acc = PixelAccum::cleared();
    let mut i: usize = 0;
    while i < frags.len()
        invariant
            weights@.len() == frags@.len(),
            forall|k: int| 0 <= k < frags@.len() ==> #[trigger] frags@[k].valid(),
            forall|k: int| 0 <= k < weights@.len() ==> #[trigger] weights@[k] <= WEIGHT_MAX,
            ws == weights@.map_values(|w: u32| w as int),
            i <= frags@.len(),
            acc.wf(),
            acc.a <= i * (WEIGHT_MAX * UNIT),
            acc == pixel_after(frags@.take(i as int), ws),
        decreases frags@.len() - i,
    {
        assert(i * (WEIGHT_MAX * UNIT) + WEIGHT_MAX * UNIT <= ACCUM_LIMIT) by (nonlinear_arith)
            requires i < 0x1_0000_0000_0000_0000;
        let ghost before = acc;
        assert(frags@[i as int].valid());
        assert(weights@[i as int] * frags@[i as int].coverage <= WEIGHT_MAX * UNIT) by (nonlinear_arith)
            requires weights@[i as int] <= WEIGHT_MAX, frags@[i as int].coverage <= UNIT;
        acc.blend(&frags[i], weights[i]);
        proof {
            let next = frags@.take(i + 1);
            assert(next.drop_last() =~= frags@.take(i as int));
            assert(acc.a <= (i + 1) * (WEIGHT_MAX * UNIT)) by (nonlinear_arith)
                requires
                    acc.a == before.a + weights@[i as int] * frags@[i as int].coverage,
                    before.a <= i * (WEIGHT_MAX * UNIT),
                    weights@[i as int] <= WEIGHT_MAX,
                    frags@[i as int].coverage <= UNIT;
        }
        i = i + 1;
    }
    assert(frags@.take(frags@.len() as int) =~= frags@);
    acc
}

/// The naive accumulation at one pixel: each fragment weighs by its depth.
pub fn naive_pixel(frags: &Vec<Fragment>) -> (r: PixelAccum)
    requires
        forall|i: int| 0 <= i < frags@.len() ==> #[trigger] frags@[i].valid(),
    ensures
        r.wf(),
        r == pixel_after(frags@, naive_weights(frags@)),
        r.revealage == revealage_after(coverages(frags@)),
{
    let mut weights: Vec<u32> = Vec::new();
    let mut i: usize = 0;
    while i < frags.len()
        invariant
            i <= frags@.len(),
            weights@.len() == i,
            forall|k: int| 0 <= k < i ==> #[trigger] weights@[k] == depth_weight(frags@[k].depth),
            forall|k: int| 0 <= k < i ==> #[trigger] weights@[k] <= WEIGHT_MAX,
        decreases frags@.len() - i,
    {
        let w = weight_of_depth(frags[i].depth);
        weights.push(w);
        i = i + 1;
    }
    let r = accumulate_weighted(frags, &weights);
    proof {
        assert(weights@.map_values(|w: u32| w as int) =~= naive_weights(frags@));
        lemma_revealage_of_pixel(frags@, naive_weights(frags@));
    }
    r
}

/// The histogram-equalized accumulation at one pixel: each fragment weighs
/// by its equalized depth, the CDF value it read.
pub fn equalized_pixel(frags: &Vec<Fragment>, factors: &Vec<u32>) -> (r: PixelAccum)
    requires
        factors@.len() == frags@.len(),
        forall|i: int| 0 <= i < frags@.len() ==> #[trigger] frags@[i].valid(),
    ensures
        r.wf(),
        r == pixel_after(frags@, equalized_weights(factors@)),
        r.revealage == revealage_after(coverages(frags@)),
{
    let mut weights: Vec<u32> = Vec::new();
    let mut i: usize = 0;
    while i < factors.len()
        invariant
            i <= factors@.len(),
            weights@.len() == i,
            forall|k: int| 0 <= k < i ==> #[trigger] weights@[k] == depth_weight(factors@[k]),
            forall|k: int| 0 <= k < i ==> #[trigger] weights@[k] <= WEIGHT_MAX,
        decreases factors@.len() - i,
    {
        let w = weight_of_depth(factors[i]);
        weights.push(w);
        i = i + 1;
    }
    let r = accumulate_weighted(frags, &weights);
    proof {
        assert(weights@.map_values(|w: u32| w as int) =~= equalized_weights(factors@));
        lemma_revealage_of_pixel(frags@, equalized_weights(factors@));
    }
    r
}

/// A pixel that no transparent fragment reaches keeps its background: the
/// cleared revealage of one gives an output alpha of zero.
pub proof fn lemma_empty_pixel_keeps_background(bg: Rgb)
    requires
        bg.valid(),
    ensures
        pixel_after(Seq::empty(), Seq::empty()).alpha() == 0,
        pixel_after(Seq::empty(), Seq::empty()).over_spec(bg) == bg,
{
    let p = pixel_after(Seq::<Fragment>::empty(), Seq::<int>::empty());
    assert(p.revealage == UNIT);
    assert(bg.r * UNIT / UNIT as int == bg.r) by (nonlinear_arith);
    assert(bg.g * UNIT / UNIT as int == bg.g) by (nonlinear_arith);
    assert(bg.b * UNIT / UNIT as int == bg.b) by (nonlinear_arith);
}

/// A single fully covering fragment shows exactly its own color: the
/// revealage drops to zero and the resolved color is the fragment's.
pub proof fn lemma_opaque_fragment_shows_its_color(f: Fragment, weight: int, bg: Rgb)
    requires
        f.valid(),
        f.coverage == UNIT,
        1 <= weight <= WEIGHT_MAX,
        bg.valid(),
    ensures
        pixel_after(seq![f], seq![weight]).alpha() == UNIT,
        pixel_after(seq![f], seq![weight]).over_spec(bg) == f.color,
{
    let s = seq![f];
    assert(s.drop_last() =~= Seq::<Fragment>::empty());
    assert(s.last() == f);
    assert(seq![weight][0] == weight);
    let p = pixel_after(s, seq![weight]);
    let wa = weight * UNIT;
    assert(0 < wa <= WEIGHT_MAX * UNIT) by (nonlinear_arith)
        requires wa == weight * UNIT, 1 <= weight <= WEIGHT_MAX;
    assert(weight * f.coverage == wa);
    let e = pixel_after(Seq::<Fragment>::empty(), seq![weight]);
    assert(pixel_after(s.drop_last(), seq![weight]) == e);
    assert(p == accumulated(e, f, weight));
    assert(wa * f.color.r <= WEIGHT_MAX * UNIT * UNIT) by (nonlinear_arith)
        requires 0 < wa <= WEIGHT_MAX * UNIT, f.color.r <= UNIT;
    assert(wa * f.color.g <= WEIGHT_MAX * UNIT * UNIT) by (nonlinear_arith)
        requires 0 < wa <= WEIGHT_MAX * UNIT, f.color.g <= UNIT;
    assert(wa * f.color.b <= WEIGHT_MAX * UNIT * UNIT) by (nonlinear_arith)
        requires 0 < wa <= WEIGHT_MAX * UNIT, f.color.b <= UNIT;
    assert(p.a == wa);
    assert(p.revealage == 0);
    assert(wa > 0) by (nonlinear_arith)
        requires wa == weight * UNIT, weight >= 1;
    assert(f.color.r * (weight * UNIT) == wa * f.color.r) by (nonlinear_arith)
        requires wa == weight * UNIT;
    assert(weight * f.coverage * f.color.r == wa * f.color.r) by (nonlinear_arith)
        requires wa == weight * UNIT, f.coverage == UNIT;
    assert(weight * f.coverage * f.color.g == wa * f.color.g) by (nonlinear_arith)
        requires wa == weight * UNIT, f.coverage == UNIT;
    assert(weight * f.coverage * f.color.b == wa * f.color.b) by (nonlinear_arith)
        requires wa == weight * UNIT, f.coverage == UNIT;
    assert((wa * f.color.r) / wa == f.color.r) by (nonlinear_arith)
        requires wa > 0;
    assert((wa * f.color.g) / wa == f.color.g) by (nonlinear_arith)
        requires wa > 0;
    assert((wa * f.color.b) / wa == f.color.b) by (nonlinear_arith)
        requires wa > 0;
    assert(f.color.r * UNIT / UNIT as int == f.color.r) by (nonlinear_arith);
    assert(f.color.g * UNIT / UNIT as int == f.color.g) by (nonlinear_arith);
    assert(f.color.b * UNIT / UNIT as int == f.color.b) by (nonlinear_arith);
}

/// `UNIT` to the power `n`.
pub open spec fn unit_pow(n: nat) -> int
    decreases n,
{
    if n == 0 {
        1
    } else {
        unit_pow((n - 1) as nat) * UNIT
    }
}

/// Product of the coverage complements `UNIT - c`: with `unit_pow`, the exact
/// revealage is `UNIT * complement_product(covs) / unit_pow(covs.len())`.
pub open spec fn complement_product(covs: Seq<u32>) -> int
    decreases covs.len(),
{
    if covs.len() == 0 {
        1
    } else {
        complement_product(covs.drop_last()) * (UNIT - covs.last())
    }
}

proof fn lemma_unit_pow_positive(n: nat)
    ensures
        unit_pow(n) > 0,
    decreases n,
{
    if n > 0 {
        lemma_unit_pow_positive((n - 1) as nat);
        assert(unit_pow((n - 1) as nat) * UNIT > 0) by (nonlinear_arith)
            requires unit_pow((n - 1) as nat) > 0;
    }
}

proof fn lemma_product_remove(s: Seq<u32>, j: int)
    requires
        0 <= j < s.len(),
    ensures
        complement_product(s) == complement_product(s.remove(j)) * (UNIT - s[j]),
    decreases s.len(),
{
    if j == s.len() - 1 {
        assert(s.remove(j) =~= s.drop_last());
    } else {
        let d = s.drop_last();
        lemma_product_remove(d, j);
        assert(s.remove(j).drop_last() =~= d.remove(j));
        assert(s.remove(j).last() == s.last());
        let a = complement_product(d.remove(j));
        let b = UNIT - s[j];
        let c = UNIT - s.last();
        assert(a * b * c == a * c * b) by (nonlinear_arith);
    }
}

/// The exact product of the coverage complements does not depend on the
/// order of the fragments.
pub proof fn lemma_product_order_independent(s1: Seq<u32>, s2: Seq<u32>)
    requires
        s1.to_multiset() == s2.to_multiset(),
    ensures
        complement_product(s1) == complement_product(s2),
    decreases s1.len(),
{
    broadcast use vstd::seq_lib::group_to_multiset_ensures;

    if s1.len() == 0 {
        assert(s2.to_multiset().len() == 0);
        assert(s2 =~= Seq::<u32>::empty());
    } else {
        let n = s1.len() as int;
        let x = s1.last();
        assert(s1.contains(x)) by {
            assert(s1[n - 1] == x);
        }
        assert(s1.to_multiset().count(x) > 0);
        assert(s2.contains(x));
        let j = choose|j: int| 0 <= j < s2.len() && s2[j] == x;
        assert(s1.drop_last() =~= s1.remove(n - 1));
        assert(s1.remove(n - 1).to_multiset() == s1.to_multiset().remove(x));
        assert(s2.remove(j).to_multiset() == s2.to_multiset().remove(x));
        lemma_product_order_independent(s1.drop_last(), s2.remove(j));
        lemma_product_remove(s2, j);
    }
}

/// The fixed-point revealage lies within `covs.len()` units below the exact
/// revealage: each blend rounds down by less than one unit.
pub proof fn lemma_revealage_rounding(covs: Seq<u32>)
    requires
        forall|i: int| 0 <= i < covs.len() ==> covs[i] <= UNIT,
    ensures
        revealage_after(covs) * unit_pow(covs.len()) <= UNIT * complement_product(covs),
        UNIT * complement_product(covs) <= (revealage_after(covs) + covs.len()) * unit_pow(
            covs.len(),
        ),
    decreases covs.len(),
{
    if covs.len() > 0 {
        let d = covs.drop_last();
        lemma_revealage_rounding(d);
        lemma_revealage_range(d);
        lemma_unit_pow_positive(d.len());
        let r0 = revealage_after(d);
        let q0 = unit_pow(d.len());
        let p0 = UNIT * complement_product(d);
        let k = d.len() as int;
        let m = UNIT - covs.last();
        assert(covs[covs.len() - 1] <= UNIT);
        let r = r0 * m / UNIT as int;
        assert(r == revealage_after(covs));
        assert(UNIT * complement_product(covs) == p0 * m) by (nonlinear_arith)
            requires p0 == UNIT * complement_product(d),
                complement_product(covs) == complement_product(d) * m;
        assert(unit_pow(covs.len()) == q0 * UNIT);
        assert(r * (q0 * UNIT) <= p0 * m) by (nonlinear_arith)
            requires
                r == r0 * m / UNIT as int,
                r0 * q0 <= p0,
                0 <= m,
                0 <= r0,
                q0 > 0;
        assert(p0 * m <= (r + k + 1) * (q0 * UNIT)) by (nonlinear_arith)
            requires
                r == r0 * m / UNIT as int,
                p0 <= (r0 + k) * q0,
                0 <= m <= UNIT,
                0 <= r0,
                0 <= k,
                q0 > 0;
    }
}

/// Revealage is order-independent up to rounding: blending the same
/// fragment coverages in any two orders gives revealages that differ by at
/// most one unit per fragment, both within that distance of the exact product.
pub proof fn lemma_revealage_order_independent(c1: Seq<u32>, c2: Seq<u32>)
    requires
        c1.to_multiset() == c2.to_multiset(),
        forall|i: int| 0 <= i < c1.len() ==> c1[i] <= UNIT,
    ensures
        c1.len() == c2.len(),
        revealage_after(c1) - revealage_after(c2) <= c1.len(),
        revealage_after(c2) - revealage_after(c1) <= c1.len(),
{
    broadcast use vstd::seq_lib::group_to_multiset_ensures;

    c1.to_multiset_ensures();
    c2.to_multiset_ensures();
    assert(c1.len() == c2.len());
    assert forall|i: int| 0 <= i < c2.len() implies c2[i] <= UNIT by {
        assert(c2.contains(c2[i]));
        assert(c1.to_multiset().count(c2[i]) > 0);
        assert(c1.contains(c2[i]));
        let k = choose|k: int| 0 <= k < c1.len() && c1[k] == c2[i];
    }
    lemma_revealage_rounding(c1);
    lemma_revealage_rounding(c2);
    lemma_product_order_independent(c1, c2);
    lemma_unit_pow_positive(c1.len());
    let q = unit_pow(c1.len());
    let p = UNIT * complement_product(c1);
    let r1 = revealage_after(c1);
    let r2 = revealage_after(c2);
    let n = c1.len() as int;
    assert(r1 - r2 <= n) by (nonlinear_arith)
        requires r1 * q <= p, p <= (r2 + n) * q, q > 0;
    assert(r2 - r1 <= n) by (nonlinear_arith)
        requires r2 * q <= p, p <= (r1 + n) * q, q > 0;
}

} // verus!
