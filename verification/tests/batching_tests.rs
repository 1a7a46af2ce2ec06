use sprite_ex::batching::{
    evict_image_bind_groups, prepare_sprite_image_bind_groups, GpuImages, ImageBindGroups,
    SpriteMeta,
};
use sprite_ex::extract::{
    extract_sprite_events, extract_sprites, AssetEvent, AssetEventKind, ExtractedSprite,
    ExtractedSprites, ExtractedSpriteMask, SpriteAssetEvents, SpriteMaskSource, SpriteSource,
};
use sprite_ex::geometry::Affine;
use sprite_ex::pipeline_key::{SpritePipelineKey, KEY_MASK_ENABLED};
use sprite_ex::queue::{queue_sprites, Transparent2dItem};
use bevy_math::{Affine3A, Mat3, Quat, Vec3};
use sprite_ex::sprite::{BlendMode, SpriteEx};
use sprite_ex::sprite_mask::SpriteMask;

fn bits(x: f32) -> u32 {
    x.to_bits()
}

fn identity_affine(tx: f32, ty: f32, tz: f32) -> Affine {
    Affine {
        mat: [
            bits(1.0),
            0,
            0,
            0,
            bits(1.0),
            0,
            0,
            0,
            bits(1.0),
        ],
        tra: [bits(tx), bits(ty), bits(tz)],
    }
}

fn sprite(image: u64, order: u32, z: f32) -> ExtractedSprite {
    ExtractedSprite {
        transform: identity_affine(0.0, 0.0, z),
        color: [bits(1.0); 4],
        rect: None,
        custom_size: Some([bits(1.0), bits(1.0)]),
        image_handle_id: image,
        flip_x: false,
        flip_y: false,
        anchor: [0, 0],
        original_entity: None,
        blend_mode: BlendMode::Normal,
        order,
    }
}

fn mask(image: u64, range_start: u32, range_end: u32) -> ExtractedSpriteMask {
    ExtractedSpriteMask {
        transform: identity_affine(0.0, 0.0, 0.0),
        rect: None,
        custom_size: Some([bits(1.0), bits(1.0)]),
        image_handle_id: image,
        flip_x: false,
        flip_y: false,
        anchor: [0, 0],
        range_start,
        range_end,
    }
}

fn item(entity: u64) -> Transparent2dItem {
    Transparent2dItem {
        entity,
        pipeline_key: SpritePipelineKey { bits: 0 },
        sort_key: 0,
        batch_range_start: 0,
        batch_range_end: 0,
    }
}

fn gpu(entries: &[(u64, u32, u32)]) -> GpuImages {
    GpuImages {
        entries: entries.iter().map(|&(id, w, h)| (id, [w, h])).collect(),
    }
}

fn run_prepare(
    extracted: &ExtractedSprites,
    gpu_images: &GpuImages,
    phases: &mut Vec<Vec<Transparent2dItem>>,
) -> (SpriteMeta, ImageBindGroups, Vec<(u64, sprite_ex::batching::SpriteBatch)>) {
    let mut meta = SpriteMeta::new();
    let mut groups = ImageBindGroups::new();
    let events = SpriteAssetEvents::new();
    let batches = prepare_sprite_image_bind_groups(
        &mut meta,
        &mut groups,
        gpu_images,
        extracted,
        phases,
        &events,
    );
    (meta, groups, batches)
}

#[test]
fn test_mask_boundary_splits_batches() {
    // sprite A order=1 and sprite B order=10 share a texture; the mask
    // covers only order 1, so A draws masked and B unmasked: two batches
    let mut extracted = ExtractedSprites::new();
    extracted.sprites.push((1, sprite(10, 1, 0.0)));
    extracted.sprites.push((2, sprite(10, 10, 1.0)));
    extracted.masks.push((3, mask(20, 0, 5)));
    let gpu_images = gpu(&[(10, 16, 16), (20, 16, 16)]);

    let mut phases = vec![vec![item(1), item(2)]];
    let (meta, _, batches) = run_prepare(&extracted, &gpu_images, &mut phases);

    assert_eq!(batches.len(), 2);
    assert_eq!(batches[0].0, 1);
    assert_eq!(batches[0].1.image_handle_id, 10);
    assert_eq!(batches[0].1.mask_image_handle_id, Some(20));
    assert_eq!((batches[0].1.range_start, batches[0].1.range_end), (0, 1));
    assert_eq!(batches[1].0, 2);
    assert_eq!(batches[1].1.mask_image_handle_id, None);
    assert_eq!((batches[1].1.range_start, batches[1].1.range_end), (0, 1));
    assert_eq!(meta.masked_sprite_instance_buffer.len(), 1);
    assert_eq!(meta.sprite_instance_buffer.len(), 1);
    // each item anchors its own batch
    assert_eq!(phases[0][0].batch_range_end, 1);
    assert_eq!(phases[0][1].batch_range_end, 1);
}

#[test]
fn test_widened_mask_range_merges_batches() {
    // the same two sprites with the mask widened to [0, 20]: both draw
    // masked through the same mask, and no batch split happens
    let mut extracted = ExtractedSprites::new();
    extracted.sprites.push((1, sprite(10, 1, 0.0)));
    extracted.sprites.push((2, sprite(10, 10, 1.0)));
    extracted.masks.push((3, mask(20, 0, 20)));
    let gpu_images = gpu(&[(10, 16, 16), (20, 16, 16)]);

    let mut phases = vec![vec![item(1), item(2)]];
    let (meta, _, batches) = run_prepare(&extracted, &gpu_images, &mut phases);

    assert_eq!(batches.len(), 1);
    assert_eq!(batches[0].1.mask_image_handle_id, Some(20));
    assert_eq!((batches[0].1.range_start, batches[0].1.range_end), (0, 2));
    assert_eq!(meta.masked_sprite_instance_buffer.len(), 2);
    assert_eq!(meta.sprite_instance_buffer.len(), 0);
    // the first item anchors the whole run
    assert_eq!(phases[0][0].batch_range_end, 2);
    assert_eq!(phases[0][1].batch_range_end, 0);
}

#[test]
fn test_interleaved_unmasked_sprite_splits_the_merged_run() {
    // a third sprite outside the mask range interleaved between the two in
    // depth order forces a split even though all three share a texture
    let mut extracted = ExtractedSprites::new();
    extracted.sprites.push((1, sprite(10, 1, 0.0)));
    extracted.sprites.push((4, sprite(10, 30, 0.5)));
    extracted.sprites.push((2, sprite(10, 10, 1.0)));
    extracted.masks.push((3, mask(20, 0, 20)));
    let gpu_images = gpu(&[(10, 16, 16), (20, 16, 16)]);

    let mut phases = vec![vec![item(1), item(4), item(2)]];
    let (meta, _, batches) = run_prepare(&extracted, &gpu_images, &mut phases);

    assert_eq!(batches.len(), 3);
    assert_eq!(batches[0].1.mask_image_handle_id, Some(20));
    assert_eq!((batches[0].1.range_start, batches[0].1.range_end), (0, 1));
    assert_eq!(batches[1].1.mask_image_handle_id, None);
    assert_eq!((batches[1].1.range_start, batches[1].1.range_end), (0, 1));
    assert_eq!(batches[2].1.mask_image_handle_id, Some(20));
    assert_eq!((batches[2].1.range_start, batches[2].1.range_end), (1, 2));
    assert_eq!(meta.masked_sprite_instance_buffer.len(), 2);
    assert_eq!(meta.sprite_instance_buffer.len(), 1);
}

#[test]
fn test_non_sprite_phase_item_forces_batch_boundary() {
    // an interleaved phase item that is no sprite splits two sprites that
    // share a texture, preserving draw order
    let mut extracted = ExtractedSprites::new();
    extracted.sprites.push((1, sprite(10, 1, 0.0)));
    extracted.sprites.push((2, sprite(10, 2, 1.0)));
    let gpu_images = gpu(&[(10, 16, 16)]);

    let mut phases = vec![vec![item(1), item(99), item(2)]];
    let (meta, _, batches) = run_prepare(&extracted, &gpu_images, &mut phases);

    assert_eq!(batches.len(), 2);
    assert_eq!((batches[0].1.range_start, batches[0].1.range_end), (0, 1));
    assert_eq!((batches[1].1.range_start, batches[1].1.range_end), (1, 2));
    assert_eq!(meta.sprite_instance_buffer.len(), 2);
    // the unknown item keeps its empty range
    assert_eq!(phases[0][1].batch_range_end, 0);
}

#[test]
fn test_unresolvable_image_skips_the_entry() {
    let mut extracted = ExtractedSprites::new();
    extracted.sprites.push((1, sprite(10, 1, 0.0)));
    let gpu_images = gpu(&[]);

    let mut phases = vec![vec![item(1)]];
    let (meta, groups, batches) = run_prepare(&extracted, &gpu_images, &mut phases);

    assert!(batches.is_empty());
    assert_eq!(meta.sprite_instance_buffer.len(), 0);
    assert_eq!(meta.masked_sprite_instance_buffer.len(), 0);
    assert!(groups.values.is_empty());
    assert_eq!(phases[0][0].batch_range_end, 0);
}

#[test]
fn test_unresolvable_mask_texture_proceeds_unmasked() {
    // the mask covers the sprite's order, but its texture does not resolve:
    // the candidate is skipped and the sprite draws unmasked
    let mut extracted = ExtractedSprites::new();
    extracted.sprites.push((1, sprite(10, 1, 0.0)));
    extracted.masks.push((3, mask(20, 0, 5)));
    let gpu_images = gpu(&[(10, 16, 16)]);

    let mut phases = vec![vec![item(1)]];
    let (meta, _, batches) = run_prepare(&extracted, &gpu_images, &mut phases);

    assert_eq!(batches.len(), 1);
    assert_eq!(batches[0].1.mask_image_handle_id, None);
    assert_eq!(meta.sprite_instance_buffer.len(), 1);
    assert_eq!(meta.masked_sprite_instance_buffer.len(), 0);
}

#[test]
fn test_bind_groups_memoized_per_image() {
    let mut extracted = ExtractedSprites::new();
    extracted.sprites.push((1, sprite(10, 1, 0.0)));
    extracted.sprites.push((2, sprite(10, 2, 1.0)));
    extracted.sprites.push((3, sprite(11, 3, 2.0)));
    let gpu_images = gpu(&[(10, 16, 16), (11, 16, 16)]);

    let mut phases = vec![vec![item(1), item(2), item(3)]];
    let (_, groups, _) = run_prepare(&extracted, &gpu_images, &mut phases);

    assert_eq!(groups.values, vec![10, 11]);
    assert!(groups.mask_values.is_empty());
}

#[test]
fn test_eviction_on_asset_events() {
    let mut groups = ImageBindGroups::new();
    groups.values.push(1);
    groups.values.push(2);
    groups.mask_values.push(1);
    let events = SpriteAssetEvents {
        images: vec![
            AssetEvent {
                kind: AssetEventKind::Modified,
                id: 1,
            },
            AssetEvent {
                kind: AssetEventKind::Added,
                id: 2,
            },
        ],
    };
    evict_image_bind_groups(&mut groups, &events);
    assert_eq!(groups.values, vec![2]);
    assert!(groups.mask_values.is_empty());
}

#[test]
fn test_index_buffer_is_the_constant_quad() {
    let extracted = ExtractedSprites::new();
    let gpu_images = gpu(&[]);
    let mut phases: Vec<Vec<Transparent2dItem>> = vec![];
    let (meta, _, _) = run_prepare(&extracted, &gpu_images, &mut phases);
    assert_eq!(meta.sprite_index_buffer, vec![2, 0, 1, 1, 3, 2]);
}

#[test]
fn test_rerun_on_unchanged_snapshot_is_byte_identical() {
    let mut extracted = ExtractedSprites::new();
    extracted.sprites.push((1, sprite(10, 1, 0.0)));
    extracted.sprites.push((2, sprite(11, 3, 1.0)));
    extracted.masks.push((3, mask(20, 2, 4)));
    let gpu_images = gpu(&[(10, 16, 16), (11, 32, 32), (20, 8, 8)]);

    let mut phases1 = vec![vec![item(1), item(2)]];
    let (meta1, _, batches1) = run_prepare(&extracted, &gpu_images, &mut phases1);
    let mut phases2 = vec![vec![item(1), item(2)]];
    let (meta2, _, batches2) = run_prepare(&extracted, &gpu_images, &mut phases2);

    let words1 = meta1.sprite_instance_words();
    let words2 = meta2.sprite_instance_words();
    assert_eq!(words1, words2);
    let masked1 = meta1.masked_sprite_instance_words();
    let masked2 = meta2.masked_sprite_instance_words();
    assert_eq!(masked1, masked2);
    let bytes1: Vec<u8> = words1.iter().flat_map(|w| w.to_le_bytes()).collect();
    let bytes2: Vec<u8> = words2.iter().flat_map(|w| w.to_le_bytes()).collect();
    assert_eq!(bytes1, bytes2);
    assert_eq!(batches1.len(), batches2.len());
    for (a, b) in batches1.iter().zip(batches2.iter()) {
        assert_eq!(a.0, b.0);
        assert_eq!(a.1.image_handle_id, b.1.image_handle_id);
        assert_eq!(a.1.range_start, b.1.range_start);
        assert_eq!(a.1.range_end, b.1.range_end);
        assert_eq!(a.1.mask_image_handle_id, b.1.mask_image_handle_id);
    }
}

#[test]
fn test_unmasked_record_words() {
    // one sprite with a known transform, color and blend mode: the packed
    // record has the documented word layout
    let mut extracted = ExtractedSprites::new();
    let mut s = sprite(10, 1, 7.0);
    s.transform = identity_affine(5.0, 6.0, 7.0);
    s.custom_size = Some([bits(2.0), bits(3.0)]);
    s.color = [bits(0.1), bits(0.2), bits(0.3), bits(0.4)];
    s.blend_mode = BlendMode::Multiply;
    extracted.sprites.push((1, s));
    let gpu_images = gpu(&[(10, 16, 16)]);

    let mut phases = vec![vec![item(1)]];
    let (meta, _, _) = run_prepare(&extracted, &gpu_images, &mut phases);
    let words = meta.sprite_instance_words();
    assert_eq!(words.len(), 24);
    // transpose rows: matrix row then the matching translation word; the
    // quad is centered, so the anchor offset shifts the translation by
    // half the quad size
    assert_eq!(&words[0..4], &[bits(2.0), bits(0.0), bits(0.0), bits(4.0)]);
    assert_eq!(&words[4..8], &[bits(0.0), bits(3.0), bits(0.0), bits(4.5)]);
    assert_eq!(&words[8..12], &[bits(0.0), bits(0.0), bits(1.0), bits(7.0)]);
    // color words
    assert_eq!(
        &words[12..16],
        &[bits(0.1), bits(0.2), bits(0.3), bits(0.4)]
    );
    // identity UV
    assert_eq!(
        &words[16..20],
        &[bits(0.0), bits(1.0), bits(1.0), bits(-1.0)]
    );
    // blend-mode code, then zero padding
    assert_eq!(words[20], 11);
    assert_eq!(&words[21..24], &[0, 0, 0]);
}

#[test]
fn test_quad_size_falls_back_to_image_size() {
    // no custom size and no rect: the quad takes the image's pixel extent,
    // converted to single precision
    let mut extracted = ExtractedSprites::new();
    let mut s = sprite(10, 1, 0.0);
    s.custom_size = None;
    extracted.sprites.push((1, s));
    let gpu_images = gpu(&[(10, 16, 8)]);

    let mut phases = vec![vec![item(1)]];
    let (meta, _, _) = run_prepare(&extracted, &gpu_images, &mut phases);
    let words = meta.sprite_instance_words();
    assert_eq!(words[0], bits(16.0));
    assert_eq!(words[5], bits(8.0));
}

#[test]
fn test_masked_record_holds_mask_relative_transform() {
    let mut extracted = ExtractedSprites::new();
    let mut s = sprite(10, 1, 0.0);
    s.transform = identity_affine(10.0, 20.0, 0.0);
    s.custom_size = Some([bits(2.0), bits(2.0)]);
    extracted.sprites.push((1, s));
    let mut m = mask(20, 0, 5);
    m.transform = identity_affine(8.0, 16.0, 0.0);
    m.custom_size = Some([bits(4.0), bits(4.0)]);
    extracted.masks.push((2, m));
    let gpu_images = gpu(&[(10, 16, 16), (20, 32, 32)]);

    let mut phases = vec![vec![item(1)]];
    let (meta, _, _) = run_prepare(&extracted, &gpu_images, &mut phases);
    let words = meta.masked_sprite_instance_words();
    assert_eq!(words.len(), 40);

    let quad = |size: f32, tx: f32, ty: f32| -> Affine3A {
        Affine3A::from_mat3_translation(Mat3::IDENTITY, Vec3::new(tx, ty, 0.0))
            * Affine3A::from_scale_rotation_translation(
                Vec3::new(size, size, 1.0),
                Quat::IDENTITY,
                Vec3::new(size * -0.5, size * -0.5, 0.0),
            )
    };
    let sprite_transform = quad(2.0, 10.0, 20.0);
    let mask_relative = quad(4.0, 8.0, 16.0).inverse() * sprite_transform;
    let t3 = Mat3::from(mask_relative.matrix3).transpose();
    let expected: [u32; 12] = [
        t3.x_axis.x.to_bits(),
        t3.x_axis.y.to_bits(),
        t3.x_axis.z.to_bits(),
        mask_relative.translation.x.to_bits(),
        t3.y_axis.x.to_bits(),
        t3.y_axis.y.to_bits(),
        t3.y_axis.z.to_bits(),
        mask_relative.translation.y.to_bits(),
        t3.z_axis.x.to_bits(),
        t3.z_axis.y.to_bits(),
        t3.z_axis.z.to_bits(),
        mask_relative.translation.z.to_bits(),
    ];
    assert_eq!(&words[24..36], &expected);
    // the mask's own UV words close the record
    assert_eq!(
        &words[36..40],
        &[bits(0.0), bits(1.0), bits(1.0), bits(-1.0)]
    );
}

#[test]
fn test_queue_selects_pipeline_and_sort_key() {
    let mut extracted = ExtractedSprites::new();
    extracted.sprites.push((1, sprite(10, 1, 2.5)));
    extracted.sprites.push((2, sprite(10, 9, 1.5)));
    extracted.sprites.push((3, sprite(10, 1, 0.5)));
    extracted.masks.push((4, mask(20, 0, 5)));

    let visible = vec![1u64, 2u64];
    let mut phase: Vec<Transparent2dItem> = Vec::new();
    queue_sprites(&mut phase, &extracted, &visible, false, 1, None, None);

    // entity 3 is not visible in this view; entity 1 is masked, entity 2 not
    assert_eq!(phase.len(), 2);
    assert_eq!(phase[0].entity, 1);
    assert_eq!(phase[0].pipeline_key.bits & KEY_MASK_ENABLED, KEY_MASK_ENABLED);
    assert_eq!(phase[0].sort_key, bits(2.5));
    assert_eq!(phase[1].entity, 2);
    assert_eq!(phase[1].pipeline_key.bits & KEY_MASK_ENABLED, 0);
    assert_eq!(phase[1].sort_key, bits(1.5));
    assert_eq!(phase[0].batch_range_start, 0);
    assert_eq!(phase[0].batch_range_end, 0);
}

#[test]
fn test_extraction_filters_invisible_rows() {
    let mut extracted = ExtractedSprites::new();
    extracted.mask_uniform_count = 5;
    let sprite_rows = vec![
        SpriteSource {
            entity: 1,
            view_visibility: true,
            sprite: SpriteEx {
                order: 4,
                ..Default::default()
            },
            transform: identity_affine(1.0, 2.0, 3.0),
            image_handle_id: 10,
        },
        SpriteSource {
            entity: 2,
            view_visibility: false,
            sprite: SpriteEx::default(),
            transform: identity_affine(0.0, 0.0, 0.0),
            image_handle_id: 11,
        },
    ];
    let mask_rows = vec![SpriteMaskSource {
        entity: 3,
        view_visibility: true,
        mask: SpriteMask {
            range_start: 1,
            range_end: 9,
            ..Default::default()
        },
        transform: identity_affine(0.0, 0.0, 0.0),
        image_handle_id: 20,
    }];
    extract_sprites(&mut extracted, &sprite_rows, &mask_rows);

    assert_eq!(extracted.sprites.len(), 1);
    assert_eq!(extracted.sprites[0].0, 1);
    assert_eq!(extracted.sprites[0].1.image_handle_id, 10);
    assert_eq!(extracted.sprites[0].1.order, 4);
    assert_eq!(extracted.sprites[0].1.transform.tra, [bits(1.0), bits(2.0), bits(3.0)]);
    assert_eq!(extracted.masks.len(), 1);
    assert_eq!(extracted.masks[0].1.range_start, 1);
    assert_eq!(extracted.masks[0].1.range_end, 9);
    assert_eq!(extracted.mask_uniform_count, 0);
}

#[test]
fn test_extract_sprite_events_replaces_previous_frame() {
    let mut events = SpriteAssetEvents::new();
    events.images.push(AssetEvent {
        kind: AssetEventKind::Removed,
        id: 9,
    });
    extract_sprite_events(
        &mut events,
        vec![AssetEvent {
            kind: AssetEventKind::Added,
            id: 1,
        }],
    );
    assert_eq!(events.images.len(), 1);
    assert_eq!(events.images[0].id, 1);
    assert_eq!(events.images[0].kind, AssetEventKind::Added);
}
