use bevy_wboit::passes::{plan_frame, PassKind};
use bevy_wboit::phase::{ExtraIndex, WboitAccum3d};
use bevy_wboit::pipeline::{
    check_msaa_he_wboit, check_msaa_wboit, composite_target, configure_depth_texture_usages_he_wboit,
    configure_depth_texture_usages_wboit, specialize_accum, AccumVariant, BlendFactor,
};
use bevy_wboit::queue::{queue_and_drain, queue_wboit_meshes, wants_pipeline, VisibleMesh};
use bevy_wboit::settings::{HEWboitSettings, WboitError, WboitMode};
use bevy_wboit::textures::{prepare_wboit_textures, TextureFormat};

fn mesh(id: u64, transparent: Option<bool>, indexed: Option<bool>, pipeline: Option<u64>) -> VisibleMesh {
    VisibleMesh {
        render_entity: id,
        main_entity: id + 100,
        transparent,
        indexed,
        pipeline,
        distance_bits: (id as f32).to_bits(),
    }
}

#[test]
fn accumulation_targets() {
    let d = specialize_accum(AccumVariant::Naive);
    assert_eq!(d.targets.len(), 2);
    assert_eq!(d.targets[0].format, TextureFormat::Rgba16Float);
    assert_eq!(d.targets[0].blend.color.src_factor, BlendFactor::One);
    assert_eq!(d.targets[0].blend.color.dst_factor, BlendFactor::One);
    assert_eq!(d.targets[1].format, TextureFormat::R8Unorm);
    assert_eq!(d.targets[1].blend.color.src_factor, BlendFactor::Zero);
    assert_eq!(d.targets[1].blend.alpha.dst_factor, BlendFactor::OneMinusSrc);
    assert!(!d.depth_write_enabled);
    assert_eq!(d.material_group, 2);
    assert_eq!(d.histogram_group, None);
    let h = specialize_accum(AccumVariant::Histogram);
    assert_eq!(h.material_group, 2);
    assert_eq!(h.histogram_group, Some(3));
}

#[test]
fn composite_blends_premultiplied() {
    let t = composite_target(true);
    assert_eq!(t.format, TextureFormat::Rgba16Float);
    assert_eq!(t.blend.color.src_factor, BlendFactor::One);
    assert_eq!(t.blend.color.dst_factor, BlendFactor::OneMinusSrcAlpha);
    assert_eq!(composite_target(false).format, TextureFormat::Rgba8UnormSrgb);
}

#[test]
fn msaa_is_fatal_for_opted_in_views() {
    assert_eq!(check_msaa_wboit(&WboitMode::Naive, 4), Err(WboitError::MsaaEnabled));
    assert_eq!(check_msaa_wboit(&WboitMode::Naive, 1), Ok(()));
    assert_eq!(check_msaa_wboit(&WboitMode::Inactive, 4), Ok(()));
    let he = WboitMode::Histogram(HEWboitSettings::default());
    assert_eq!(check_msaa_he_wboit(&he, 8), Err(WboitError::MsaaEnabled));
    assert_eq!(check_msaa_he_wboit(&he, 1), Ok(()));
    assert_eq!(check_msaa_he_wboit(&WboitMode::Naive, 8), Ok(()));
}

#[test]
fn depth_usages() {
    assert_eq!(configure_depth_texture_usages_wboit(16), 20);
    assert_eq!(configure_depth_texture_usages_wboit(20), 20);
    assert_eq!(configure_depth_texture_usages_wboit(21), 21);
    assert_eq!(configure_depth_texture_usages_wboit(3), 20);
    assert_eq!(configure_depth_texture_usages_he_wboit(16 | 4 | 8), 28);
}

#[test]
fn queue_keeps_transparent_specialized_meshes() {
    let meshes = vec![
        mesh(1, Some(true), Some(true), Some(7)),
        mesh(2, Some(false), Some(true), Some(7)),
        mesh(3, None, Some(true), Some(7)),
        mesh(4, Some(true), None, Some(7)),
        mesh(5, Some(true), Some(false), None),
        mesh(6, Some(true), Some(false), Some(9)),
    ];
    assert!(wants_pipeline(&meshes[0]));
    assert!(!wants_pipeline(&meshes[1]));
    let out = queue_wboit_meshes(&meshes, 42);
    assert_eq!(out.failed, 1);
    assert_eq!(out.items.len(), 2);
    let a = out.items[0];
    assert_eq!(a.entity(), 1);
    assert_eq!(a.main_entity(), 101);
    assert_eq!(a.cached_pipeline(), 7);
    assert_eq!(a.draw_function(), 42);
    assert_eq!(*a.batch_range(), (0, 1));
    assert_eq!(a.extra_index(), ExtraIndex::Unset);
    assert!(a.indexed());
    assert!(!out.items[1].indexed());
    assert_eq!(out.items[1].cached_pipeline(), 9);
}

#[test]
fn sort_key_orders_distances() {
    let item = |d: f32| WboitAccum3d {
        distance_bits: d.to_bits(),
        pipeline: 0,
        entity: (0, 0),
        draw_function: 0,
        batch_range: (0, 1),
        extra_index: ExtraIndex::Unset,
        indexed: false,
    };
    let ds = [-3.5f32, -1.0, -0.0, 0.0, 0.5, 2.0, 100.0];
    for w in ds.windows(2) {
        assert!(item(w[0]).sort_key() <= item(w[1]).sort_key());
    }
    let mut i = item(1.0);
    *i.batch_range_mut() = (2, 5);
    assert_eq!(i.batch_range, (2, 5));
    let (r, e) = i.batch_range_and_extra_index_mut();
    *r = (3, 4);
    *e = ExtraIndex::DynamicOffset(8);
    assert_eq!(i.batch_range, (3, 4));
    assert_eq!(i.extra_index, ExtraIndex::DynamicOffset(8));
}

#[test]
fn drain_empties_host_phase_only_for_active_views() {
    let meshes = vec![mesh(1, Some(true), Some(true), Some(7))];
    let mut host = vec![1, 2, 3];
    let out = queue_and_drain(&meshes, 0, &mut host, &WboitMode::Naive);
    assert_eq!(out.items.len(), 1);
    assert!(host.is_empty());
    let mut host = vec![1, 2, 3];
    queue_and_drain(&meshes, 0, &mut host, &WboitMode::Histogram(HEWboitSettings::default()));
    assert!(host.is_empty());
    let mut host = vec![1, 2, 3];
    queue_and_drain(&meshes, 0, &mut host, &WboitMode::Inactive);
    assert_eq!(host, vec![1, 2, 3]);
}

#[test]
fn frame_plan_orders_passes() {
    let t = prepare_wboit_textures(None, Some((800, 600)));
    assert!(plan_frame(&WboitMode::Naive, &t, 0).is_none());
    assert!(plan_frame(&WboitMode::Inactive, &t, 3).is_none());
    assert!(plan_frame(&WboitMode::Naive, &None, 3).is_none());
    let naive = plan_frame(&WboitMode::Naive, &t, 3).unwrap();
    assert_eq!(naive.passes, vec![PassKind::Accumulate, PassKind::Composite]);
    assert!(naive.previous_revealage.is_none());
    let t1 = prepare_wboit_textures(t, Some((1600, 1200)));
    let he = WboitMode::Histogram(HEWboitSettings::default());
    let plan = plan_frame(&he, &t1, 3).unwrap();
    assert_eq!(plan.passes, vec![PassKind::Accumulate, PassKind::BuildCdf, PassKind::Composite]);
    assert_eq!(plan.revealage, t1.unwrap().revealage[1]);
    assert_eq!(plan.previous_revealage, Some(t1.unwrap().revealage[0]));
    assert_eq!(plan.accum.width, 1600);
    assert_eq!(plan.revealage.height, 1200);
}
