use bevy_wboit::histogram_textures::{
    check_needs_recreate, div_ceil_u32, prepare_histogram_wboit_textures, HistogramParams,
};
use bevy_wboit::settings::{HEWboitSettings, WboitError, WboitMode, DEFAULT_MAX_DEPTH_BITS};
use bevy_wboit::textures::{prepare_wboit_textures, TextureDimension, TextureFormat};

#[test]
fn default_settings() {
    let s = HEWboitSettings::default();
    assert_eq!(s.tile_size, 32);
    assert_eq!(s.num_bins, 64);
    assert_eq!(f32::from_bits(s.max_depth_bits), 100.0f32);
    assert_eq!(DEFAULT_MAX_DEPTH_BITS, 100.0f32.to_bits());
}

#[test]
fn modes_exclude_each_other() {
    let mut m = WboitMode::Inactive;
    assert!(!m.is_active());
    m.attach_naive();
    assert_eq!(m, WboitMode::Naive);
    m.attach_histogram(HEWboitSettings::default());
    assert!(matches!(m, WboitMode::Histogram(_)));
    m.attach_naive();
    assert_eq!(m, WboitMode::Naive);
    m.detach();
    assert_eq!(m, WboitMode::Inactive);
}

#[test]
fn first_frame_starts_at_index_zero() {
    let t = prepare_wboit_textures(None, Some((800, 600))).unwrap();
    assert_eq!(t.frame_index, 0);
    assert_eq!(t.write_index(), 0);
    assert_eq!(t.read_index(), 1);
    assert_eq!(t.accum.width, 800);
    assert_eq!(t.accum.height, 600);
    assert_eq!(t.accum.format, TextureFormat::Rgba16Float);
    assert_eq!(t.revealage[0].format, TextureFormat::R8Unorm);
    assert_eq!(t.revealage[1].format, TextureFormat::R8Unorm);
    assert_eq!(t.accum.dimension, TextureDimension::D2);
    assert_eq!(t.accum.usage, 20);
}

#[test]
fn frame_index_flips_once_per_frame() {
    let t0 = prepare_wboit_textures(None, Some((800, 600))).unwrap();
    let t1 = prepare_wboit_textures(Some(t0), Some((800, 600))).unwrap();
    let t2 = prepare_wboit_textures(Some(t1), Some((800, 600))).unwrap();
    assert_eq!(t1.frame_index, 1);
    assert_eq!(t2.frame_index, 0);
    assert_eq!(t1.current_revealage(), t1.revealage[1]);
    assert_eq!(t1.previous_revealage(), t1.revealage[0]);
}

#[test]
fn unknown_viewport_is_skipped() {
    assert!(prepare_wboit_textures(None, None).is_none());
    let t0 = prepare_wboit_textures(None, Some((640, 480))).unwrap();
    let kept = prepare_wboit_textures(Some(t0), None).unwrap();
    assert_eq!(kept.frame_index, 0);
    assert_eq!(kept.accum.width, 640);
}

#[test]
fn resize_recreates_every_target() {
    let small = prepare_wboit_textures(None, Some((800, 600))).unwrap();
    let big = prepare_wboit_textures(Some(small), Some((1600, 1200))).unwrap();
    for d in [big.accum, big.revealage[0], big.revealage[1]] {
        assert_eq!(d.width, 1600);
        assert_eq!(d.height, 1200);
        assert_eq!(d.depth_or_array_layers, 1);
    }
    assert_eq!(big.frame_index, 1);
}

#[test]
fn ceiling_division() {
    assert_eq!(div_ceil_u32(800, 32), 25);
    assert_eq!(div_ceil_u32(600, 32), 19);
    assert_eq!(div_ceil_u32(640, 32), 20);
    assert_eq!(div_ceil_u32(0, 32), 0);
    assert_eq!(div_ceil_u32(u32::MAX, 1), u32::MAX);
}

#[test]
fn params_bytes_are_little_endian() {
    let p = HistogramParams {
        tile_count_x: 25,
        tile_count_y: 19,
        num_bins: 64,
        tile_size: 32,
        max_depth_bits: 100.0f32.to_bits(),
    };
    let b = p.as_bytes();
    assert_eq!(b.len(), 32);
    assert_eq!(&b[0..4], &25u32.to_le_bytes());
    assert_eq!(&b[4..8], &19u32.to_le_bytes());
    assert_eq!(&b[8..12], &64u32.to_le_bytes());
    assert_eq!(&b[12..16], &32u32.to_le_bytes());
    assert_eq!(&b[16..20], &100.0f32.to_le_bytes());
    assert!(b[20..32].iter().all(|x| *x == 0));
}

#[test]
fn histogram_resources_follow_tile_grid() {
    let s = HEWboitSettings::default();
    let r = prepare_histogram_wboit_textures(None, None, Some((800, 600)), s)
        .unwrap()
        .unwrap();
    assert!(r.recreated);
    assert_eq!(r.wboit.frame_index, 0);
    assert_eq!(r.histogram.tile_count_x, 25);
    assert_eq!(r.histogram.tile_count_y, 19);
    assert_eq!(r.histogram.num_bins, 64);
    assert_eq!(r.histogram.histogram_buffer.size, 25 * 19 * 64 * 4);
    assert_eq!(r.histogram.cdf_texture.width, 25);
    assert_eq!(r.histogram.cdf_texture.height, 19);
    assert_eq!(r.histogram.cdf_texture.depth_or_array_layers, 64);
    assert_eq!(r.histogram.cdf_texture.dimension, TextureDimension::D3);
    assert_eq!(r.histogram.cdf_texture.usage, 12);
}

#[test]
fn unchanged_grid_only_rewrites_params() {
    let s = HEWboitSettings::default();
    let r0 = prepare_histogram_wboit_textures(None, None, Some((800, 600)), s)
        .unwrap()
        .unwrap();
    let mut s2 = s;
    s2.max_depth_bits = 50.0f32.to_bits();
    let r1 = prepare_histogram_wboit_textures(Some(r0.wboit), Some(r0.histogram), Some((800, 600)), s2)
        .unwrap()
        .unwrap();
    assert!(!r1.recreated);
    assert_eq!(r1.wboit.frame_index, 1);
    assert_eq!(r1.histogram.params.max_depth_bits, 50.0f32.to_bits());
}

#[test]
fn changed_grid_recreates_histogram() {
    let s = HEWboitSettings::default();
    let r0 = prepare_histogram_wboit_textures(None, None, Some((800, 600)), s)
        .unwrap()
        .unwrap();
    let r1 = prepare_histogram_wboit_textures(Some(r0.wboit), Some(r0.histogram), Some((1600, 1200)), s)
        .unwrap()
        .unwrap();
    assert!(r1.recreated);
    assert_eq!(r1.histogram.tile_count_x, 50);
    assert_eq!(r1.histogram.tile_count_y, 38);
    assert_eq!(r1.wboit.accum.width, 1600);
    let mut s2 = s;
    s2.num_bins = 32;
    let r2 = prepare_histogram_wboit_textures(Some(r1.wboit), Some(r1.histogram), Some((1600, 1200)), s2)
        .unwrap()
        .unwrap();
    assert!(r2.recreated);
    assert!(!check_needs_recreate(&Some(r2.histogram), 50, 38, 32));
    assert!(check_needs_recreate(&Some(r2.histogram), 50, 38, 64));
    assert!(check_needs_recreate(&None, 50, 38, 32));
}

#[test]
fn histogram_view_errors() {
    let mut s = HEWboitSettings::default();
    assert_eq!(prepare_histogram_wboit_textures(None, None, None, s).unwrap().is_none(), true);
    s.tile_size = 0;
    assert_eq!(
        prepare_histogram_wboit_textures(None, None, Some((800, 600)), s).unwrap_err(),
        WboitError::InvalidTuning
    );
    let mut s = HEWboitSettings::default();
    s.num_bins = 0;
    assert_eq!(
        prepare_histogram_wboit_textures(None, None, Some((800, 600)), s).unwrap_err(),
        WboitError::InvalidTuning
    );
    let mut s = HEWboitSettings::default();
    s.tile_size = 1;
    s.num_bins = 1024;
    assert_eq!(
        prepare_histogram_wboit_textures(None, None, Some((4096, 4096)), s).unwrap_err(),
        WboitError::HistogramTooLarge
    );
}
