use bevy_wboit::settings::{HEWboitSettings, WboitError, WboitMode};
use bevy_wboit::views::ViewRegistry;

fn he() -> WboitMode {
    WboitMode::Histogram(HEWboitSettings::default())
}

#[test]
fn views_are_created_lazily() {
    let mut reg = ViewRegistry::new();
    assert!(reg.get(7).is_none());
    let v = reg.prepare_view(7, WboitMode::Naive, Some((800, 600))).unwrap().unwrap();
    assert_eq!(v.wboit.frame_index, 0);
    assert!(v.histogram.is_none());
    assert_eq!(reg.get(7).unwrap().wboit.accum.width, 800);
}

#[test]
fn unsized_view_is_retried_later() {
    let mut reg = ViewRegistry::new();
    assert_eq!(reg.prepare_view(1, WboitMode::Naive, None).unwrap().is_none(), true);
    assert!(reg.get(1).is_none());
    let v = reg.prepare_view(1, WboitMode::Naive, Some((64, 64))).unwrap().unwrap();
    assert_eq!(v.wboit.frame_index, 0);
}

#[test]
fn opting_out_drops_resources() {
    let mut reg = ViewRegistry::new();
    reg.prepare_view(3, he(), Some((800, 600))).unwrap();
    assert!(reg.get(3).unwrap().histogram.is_some());
    assert!(reg.prepare_view(3, WboitMode::Inactive, Some((800, 600))).unwrap().is_none());
    assert!(reg.get(3).is_none());
}

#[test]
fn switching_variant_keeps_targets_and_drops_histogram() {
    let mut reg = ViewRegistry::new();
    let a = reg.prepare_view(4, he(), Some((800, 600))).unwrap().unwrap();
    assert!(a.histogram_recreated);
    let b = reg.prepare_view(4, he(), Some((800, 600))).unwrap().unwrap();
    assert!(!b.histogram_recreated);
    assert_eq!(b.wboit.frame_index, 1);
    let c = reg.prepare_view(4, WboitMode::Naive, Some((800, 600))).unwrap().unwrap();
    assert!(c.histogram.is_none());
    assert_eq!(c.wboit.frame_index, 0);
    let d = reg.prepare_view(4, he(), Some((800, 600))).unwrap().unwrap();
    assert!(d.histogram_recreated);
}

#[test]
fn registry_error_leaves_view_unchanged() {
    let mut reg = ViewRegistry::new();
    reg.prepare_view(5, WboitMode::Naive, Some((100, 100))).unwrap();
    let mut bad = HEWboitSettings::default();
    bad.num_bins = 0;
    assert_eq!(
        reg.prepare_view(5, WboitMode::Histogram(bad), Some((100, 100))).unwrap_err(),
        WboitError::InvalidTuning
    );
    assert_eq!(reg.get(5).unwrap().mode, WboitMode::Naive);
    assert_eq!(reg.get(5).unwrap().wboit.frame_index, 0);
}

#[test]
fn views_are_independent() {
    let mut reg = ViewRegistry::new();
    reg.prepare_view(1, WboitMode::Naive, Some((800, 600))).unwrap();
    reg.prepare_view(2, he(), Some((1600, 1200))).unwrap();
    reg.prepare_view(1, WboitMode::Naive, Some((1600, 1200))).unwrap();
    assert_eq!(reg.get(1).unwrap().wboit.frame_index, 1);
    assert_eq!(reg.get(1).unwrap().wboit.revealage[0].width, 1600);
    assert_eq!(reg.get(2).unwrap().wboit.frame_index, 0);
    reg.remove_view(1);
    assert!(reg.get(1).is_none());
    assert!(reg.get(2).is_some());
}
