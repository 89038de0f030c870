use bevy_wboit::cdf::{DepthSample, CDF_ONE, DEPTH_ONE};
use bevy_wboit::histogram::{check_grid, sample_cell, CdfTable, Histogram, HistogramPass};
use bevy_wboit::histogram_textures::HistogramParams;
use bevy_wboit::settings::WboitError;

fn grid(tx: u32, ty: u32, bins: u32) -> HistogramParams {
    HistogramParams {
        tile_count_x: tx,
        tile_count_y: ty,
        num_bins: bins,
        tile_size: 32,
        max_depth_bits: 100.0f32.to_bits(),
    }
}

fn sample(x: u32, y: u32, depth: u32) -> DepthSample {
    DepthSample { x, y, depth }
}

#[test]
fn samples_land_in_tile_and_bin() {
    let p = grid(2, 2, 4);
    assert_eq!(sample_cell(&p, &sample(0, 0, 0)), Some(0));
    assert_eq!(sample_cell(&p, &sample(0, 0, DEPTH_ONE)), Some(3));
    assert_eq!(sample_cell(&p, &sample(0, 0, 40000)), Some(2));
    assert_eq!(sample_cell(&p, &sample(40, 0, 0)), Some(4));
    assert_eq!(sample_cell(&p, &sample(0, 40, 16384)), Some(9));
    assert_eq!(sample_cell(&p, &sample(40, 40, u32::MAX)), Some(15));
    assert_eq!(sample_cell(&p, &sample(64, 0, 0)), None);
}

#[test]
fn record_counts_samples() {
    let mut h = Histogram::new(grid(2, 2, 4)).unwrap();
    h.record(&sample(1, 1, 0));
    h.record(&sample(2, 3, 0));
    h.record(&sample(40, 40, DEPTH_ONE));
    h.record(&sample(500, 500, 0));
    assert_eq!(h.count_at(0, 0, 0), 2);
    assert_eq!(h.count_at(1, 1, 3), 1);
    assert_eq!(h.counts.iter().map(|c| *c as u64).sum::<u64>(), 3);
}

#[test]
fn cdf_is_monotone_and_ends_at_one() {
    let mut h = Histogram::new(grid(2, 1, 4)).unwrap();
    for d in [0u32, 0, 20000, 50000, 60000, 60000, 65535] {
        h.record(&sample(3, 3, d));
    }
    let cdf = h.build_cdf();
    let tile0 = &cdf.values[0..4];
    for w in tile0.windows(2) {
        assert!(w[0] <= w[1]);
    }
    assert_eq!(tile0[3], CDF_ONE);
    assert_eq!(tile0[0], 2 * CDF_ONE / 7);
    assert_eq!(tile0[1], 3 * CDF_ONE / 7);
    assert_eq!(tile0[2], 3 * CDF_ONE / 7);
    // the second tile had no samples: its CDF is all zeros
    assert_eq!(&cdf.values[4..8], &[0, 0, 0, 0]);
}

#[test]
fn cdf_build_clears_histogram() {
    let mut h = Histogram::new(grid(3, 2, 8)).unwrap();
    for i in 0..50u32 {
        h.record(&sample(i * 2, i, i * 1300));
    }
    assert!(h.counts.iter().any(|c| *c > 0));
    let _ = h.build_cdf();
    assert_eq!(h.counts.len(), 3 * 2 * 8);
    assert!(h.counts.iter().all(|c| *c == 0));
}

#[test]
fn empty_grid_is_rejected() {
    assert_eq!(check_grid(&grid(2, 2, 0)), Err(WboitError::InvalidTuning));
    let mut p = grid(2, 2, 4);
    p.tile_size = 0;
    assert_eq!(Histogram::new(p).err(), Some(WboitError::InvalidTuning));
    assert_eq!(CdfTable::new(grid(1 << 16, 1 << 16, 1)).err(), Some(WboitError::HistogramTooLarge));
}

#[test]
fn cdf_read_lags_histogram_by_one_frame() {
    let mut pass = HistogramPass::new(grid(1, 1, 4)).unwrap();
    // first frame: the CDF volume is still empty
    let first = vec![sample(0, 0, 0), sample(0, 0, 65535)];
    let f1 = pass.accumulate(&first);
    assert_eq!(f1, vec![0, 0]);
    pass.finish_frame();
    assert!(pass.histogram.counts.iter().all(|c| *c == 0));
    // second frame: factors come from the first frame's two samples only
    let second = vec![sample(0, 0, 0), sample(0, 0, 0), sample(0, 0, 0), sample(0, 0, 65535)];
    let f2 = pass.accumulate(&second);
    let half = CDF_ONE / 2;
    assert_eq!(f2, vec![half, half, half, CDF_ONE]);
    assert_eq!(pass.histogram.count_at(0, 0, 0), 3);
    pass.finish_frame();
    // third frame sees the second frame's distribution
    let f3 = pass.accumulate(&vec![sample(0, 0, 0)]);
    assert_eq!(f3, vec![3 * CDF_ONE / 4]);
}
