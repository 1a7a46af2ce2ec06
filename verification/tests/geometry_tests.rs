use bevy_math::{Affine3A, Mat3, Quat, Vec3};
use sprite_ex::geometry::{
    calculate_bounds_2d, calculate_transform, calculate_uv_offset_scale, flip_x_uv, flip_y_uv,
    mask_relative_transform, Affine,
};
use sprite_ex::sprite::SpriteEx;

fn bits(x: f32) -> u32 {
    x.to_bits()
}

fn identity_affine(tx: f32, ty: f32, tz: f32) -> Affine {
    Affine {
        mat: [
            bits(1.0),
            bits(0.0),
            bits(0.0),
            bits(0.0),
            bits(1.0),
            bits(0.0),
            bits(0.0),
            bits(0.0),
            bits(1.0),
        ],
        tra: [bits(tx), bits(ty), bits(tz)],
    }
}

fn affine_to_words(a: &Affine) -> Vec<u32> {
    let mut w: Vec<u32> = a.mat.to_vec();
    w.extend_from_slice(&a.tra);
    w
}

fn glam_to_words(a: Affine3A) -> Vec<u32> {
    let m = Mat3::from(a.matrix3);
    let t = Vec3::from(a.translation);
    let mut w: Vec<u32> = m.to_cols_array().iter().map(|f| f.to_bits()).collect();
    w.extend(t.to_array().iter().map(|f| f.to_bits()));
    w
}

#[test]
fn test_uv_identity_when_uncropped_and_unflipped() {
    let uv = calculate_uv_offset_scale(&[bits(32.0), bits(32.0)], &None, false, false);
    assert_eq!(uv, [bits(0.0), bits(1.0), bits(1.0), bits(-1.0)]);
}

#[test]
fn test_uv_flip_x_on_identity() {
    let uv = calculate_uv_offset_scale(&[bits(32.0), bits(32.0)], &None, true, false);
    assert_eq!(uv, [bits(1.0), bits(1.0), bits(-1.0), bits(-1.0)]);
}

#[test]
fn test_uv_flip_y_on_identity() {
    let uv = calculate_uv_offset_scale(&[bits(32.0), bits(32.0)], &None, false, true);
    assert_eq!(uv, [bits(0.0), bits(0.0), bits(1.0), bits(1.0)]);
}

#[test]
fn test_flip_x_twice_is_identity() {
    let uv = [bits(0.0), bits(1.0), bits(1.0), bits(-1.0)];
    let once = flip_x_uv(&uv);
    let twice = flip_x_uv(&once);
    assert_eq!(twice, uv);
}

#[test]
fn test_flip_y_twice_is_identity() {
    let uv = [bits(0.0), bits(1.0), bits(1.0), bits(-1.0)];
    let once = flip_y_uv(&uv);
    let twice = flip_y_uv(&once);
    assert_eq!(twice, uv);
}

#[test]
fn test_uv_with_rect_matches_division() {
    let image_size = [bits(32.0), bits(32.0)];
    let rect = Some([bits(8.0), bits(4.0), bits(24.0), bits(20.0)]);
    let uv = calculate_uv_offset_scale(&image_size, &rect, false, false);
    assert_eq!(
        uv,
        [
            bits(8.0 / 32.0),
            bits(20.0 / 32.0),
            bits(16.0 / 32.0),
            bits(-(16.0 / 32.0)),
        ]
    );
}

#[test]
fn test_uv_with_rect_and_flips_matches_reference_formula() {
    let image_size = [bits(100.0), bits(50.0)];
    let rect = Some([bits(10.0), bits(5.0), bits(60.0), bits(45.0)]);
    let uv = calculate_uv_offset_scale(&image_size, &rect, true, true);

    let mut x = 10.0f32 / 100.0;
    let mut y = 45.0f32 / 50.0;
    let mut z = 50.0f32 / 100.0;
    let mut w = -(40.0f32 / 50.0);
    x += z;
    z = -z;
    y += w;
    w = -w;
    assert_eq!(uv, [bits(x), bits(y), bits(z), bits(w)]);
}

#[test]
fn test_calculate_transform_matches_reference_composition() {
    let transform = identity_affine(5.0, 6.0, 7.0);
    let custom_size = Some([bits(2.0), bits(3.0)]);
    let anchor = [bits(0.0), bits(0.0)];
    let r = calculate_transform(
        &[bits(16.0), bits(16.0)],
        &custom_size,
        &None,
        &transform,
        &anchor,
    );

    let world = Affine3A::from_mat3_translation(Mat3::IDENTITY, Vec3::new(5.0, 6.0, 7.0));
    let local = Affine3A::from_scale_rotation_translation(
        Vec3::new(2.0, 3.0, 1.0),
        Quat::IDENTITY,
        Vec3::new(2.0 * -0.5, 3.0 * -0.5, 0.0),
    );
    assert_eq!(affine_to_words(&r), glam_to_words(world * local));
}

#[test]
fn test_calculate_transform_uses_rect_size_when_no_custom_size() {
    let transform = identity_affine(0.0, 0.0, 0.0);
    let rect = Some([bits(2.0), bits(2.0), bits(10.0), bits(6.0)]);
    let anchor = [bits(0.0), bits(0.0)];
    let r = calculate_transform(&[bits(64.0), bits(64.0)], &None, &rect, &transform, &anchor);

    let local = Affine3A::from_scale_rotation_translation(
        Vec3::new(8.0, 4.0, 1.0),
        Quat::IDENTITY,
        Vec3::new(8.0 * -0.5, 4.0 * -0.5, 0.0),
    );
    let world = Affine3A::IDENTITY;
    assert_eq!(affine_to_words(&r), glam_to_words(world * local));
}

#[test]
fn test_mask_relative_transform_matches_inverse_composition() {
    let mask = identity_affine(4.0, 2.0, 0.0);
    let sprite = identity_affine(6.0, 5.0, 1.0);
    let r = mask_relative_transform(&mask, &sprite);

    let a = Affine3A::from_mat3_translation(Mat3::IDENTITY, Vec3::new(4.0, 2.0, 0.0));
    let b = Affine3A::from_mat3_translation(Mat3::IDENTITY, Vec3::new(6.0, 5.0, 1.0));
    assert_eq!(affine_to_words(&r), glam_to_words(a.inverse() * b));
}

#[test]
fn test_bounds_from_custom_size() {
    let sprite = SpriteEx {
        custom_size: Some([bits(4.0), bits(6.0)]),
        anchor: [bits(0.5), bits(0.5)],
        ..Default::default()
    };
    let aabb = calculate_bounds_2d(&sprite).expect("custom size gives a box");
    assert_eq!(aabb.center, [bits(-2.0), bits(-3.0), bits(0.0)]);
    assert_eq!(aabb.half_extents, [bits(2.0), bits(3.0), bits(0.0)]);
}

#[test]
fn test_bounds_from_rect() {
    let sprite = SpriteEx {
        rect: Some([bits(0.0), bits(0.0), bits(8.0), bits(2.0)]),
        ..Default::default()
    };
    let aabb = calculate_bounds_2d(&sprite).expect("rect gives a box");
    assert_eq!(aabb.center, [bits(-0.0), bits(-0.0), bits(0.0)]);
    assert_eq!(aabb.half_extents, [bits(4.0), bits(1.0), bits(0.0)]);
}

#[test]
fn test_no_bounds_without_size_or_rect() {
    let sprite = SpriteEx::default();
    assert!(calculate_bounds_2d(&sprite).is_none());
}
