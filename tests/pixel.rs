use bevy_wboit::cdf::DEPTH_ONE;
use bevy_wboit::pixel::{
    equalized_pixel, naive_pixel, weight_of_depth, Fragment, PixelAccum, Rgb, UNIT, WEIGHT_MAX,
};

fn frag(color: Rgb, coverage: u32, depth: u32) -> Fragment {
    Fragment { color, coverage, depth }
}

const RED: Rgb = Rgb { r: UNIT, g: 0, b: 0 };
const BLUE: Rgb = Rgb { r: 0, g: 0, b: UNIT };
const GREY: Rgb = Rgb { r: 20000, g: 30000, b: 40000 };

fn coverage_of(x: f64) -> u32 {
    (x * UNIT as f64).round() as u32
}

#[test]
fn depth_weights() {
    assert_eq!(weight_of_depth(0), WEIGHT_MAX);
    assert_eq!(weight_of_depth(DEPTH_ONE), 1);
    assert_eq!(weight_of_depth(u32::MAX), 1);
    assert_eq!(weight_of_depth(32768), 1 + (32767u64 * 32767 / 0x40_0000) as u32);
    let mut last = u32::MAX;
    for d in (0..=DEPTH_ONE).step_by(997) {
        let w = weight_of_depth(d);
        assert!(w <= last);
        last = w;
    }
}

#[test]
fn no_fragment_leaves_background() {
    let p = naive_pixel(&vec![]);
    assert_eq!(p, PixelAccum::cleared());
    assert_eq!(p.revealage, UNIT);
    assert_eq!(p.composite_over(&GREY), GREY);
}

#[test]
fn opaque_fragment_replaces_background() {
    let p = naive_pixel(&vec![frag(GREY, UNIT, 1234)]);
    assert_eq!(p.revealage, 0);
    assert_eq!(p.resolve(), GREY);
    assert_eq!(p.composite_over(&BLUE), GREY);
}

#[test]
fn revealage_ignores_submission_order() {
    let covs = [coverage_of(0.5), coverage_of(0.3), coverage_of(0.8)];
    let orders = [[0, 1, 2], [0, 2, 1], [1, 0, 2], [1, 2, 0], [2, 0, 1], [2, 1, 0]];
    let exact = (1.0 - 0.5) * (1.0 - 0.3) * (1.0 - 0.8) * UNIT as f64;
    let mut results = vec![];
    for o in orders {
        let frags: Vec<Fragment> = o.iter().map(|i| frag(RED, covs[*i], 1000 * *i as u32)).collect();
        let r = naive_pixel(&frags).revealage;
        assert!((r as f64 - exact).abs() <= 3.0, "{} vs {}", r, exact);
        results.push(r);
    }
    let lo = *results.iter().min().unwrap();
    let hi = *results.iter().max().unwrap();
    assert!(hi - lo <= 3);
}

#[test]
fn three_stacked_quads() {
    let half = UNIT / 2;
    let depth = |d: u32| d * DEPTH_ONE / 10;
    let quads = vec![frag(GREY, half, depth(1)), frag(GREY, half, depth(2)), frag(GREY, half, depth(3))];
    let p = naive_pixel(&quads);
    assert_eq!(p.revealage, UNIT / 8);
    assert_eq!(UNIT - p.revealage, 57344);
    assert_eq!((UNIT - p.revealage) as f64 / UNIT as f64, 0.875);
    assert_eq!(p.resolve(), GREY);
    assert!(weight_of_depth(depth(1)) > weight_of_depth(depth(2)));
    assert!(weight_of_depth(depth(2)) > weight_of_depth(depth(3)));
}

#[test]
fn nearer_fragment_dominates_average() {
    let half = UNIT / 2;
    let near_red = naive_pixel(&vec![frag(RED, half, 1000), frag(BLUE, half, 60000)]);
    let c = near_red.resolve();
    assert!(c.r > c.b);
    let near_blue = naive_pixel(&vec![frag(RED, half, 60000), frag(BLUE, half, 1000)]);
    let c = near_blue.resolve();
    assert!(c.b > c.r);
}

#[test]
fn equalized_weights_use_cdf_values() {
    let half = UNIT / 2;
    let frags = vec![frag(RED, half, 100), frag(BLUE, half, 200)];
    // the CDF puts the first fragment late and the second early
    let p = equalized_pixel(&frags, &vec![60000, 1000]);
    let c = p.resolve();
    assert!(c.b > c.r);
    assert_eq!(p.revealage, UNIT / 4);
    let w1 = weight_of_depth(60000) as u128;
    let w2 = weight_of_depth(1000) as u128;
    assert_eq!(p.a, w1 * half as u128 + w2 * half as u128);
}

#[test]
fn partial_coverage_over_background() {
    let p = naive_pixel(&vec![frag(RED, UNIT / 4, 0)]);
    assert_eq!(p.revealage, UNIT * 3 / 4);
    let out = p.composite_over(&BLUE);
    assert_eq!(out, Rgb { r: UNIT / 4, g: 0, b: UNIT * 3 / 4 });
}
