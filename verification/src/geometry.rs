use vstd::prelude::*;

use bevy_math::{Affine3A, Mat3, Quat, UVec2, Vec2, Vec3, Vec4};

use crate::sprite::{F32_HALF_BITS, F32_NEG_ONE_BITS, F32_ONE_BITS, F32_ZERO_BITS};

verus! {

/// A 3D affine transform, stored as the bit patterns of its nine
/// column-major 3x3 matrix entries followed by its three translation
/// entries, all IEEE single-precision words.
#[derive(Clone, Copy, Debug)]
pub struct Affine {
    /// Column-major 3x3 matrix words: `[x axis xyz, y axis xyz, z axis xyz]`.
    pub mat: [u32; 9],
    /// Translation words: x, y, z.
    pub tra: [u32; 3],
}

impl Affine {
    /// All twelve words of this transform: the matrix columns, then the
    /// translation.
    pub open spec fn words(self) -> Seq<u32> {
        self.mat@ + self.tra@
    }
}

/// What `bevy_math` computes as the size `max - min` of a rectangle given as
/// `[min x, min y, max x, max y]` words: two words, width and height.
pub uninterp spec fn rect_size_of(rect: Seq<u32>) -> Seq<u32>;

/// What `bevy_math` computes as the world-space quad transform of a sprite:
/// the given entity transform composed with a local transform that scales a
/// unit quad to `quad_size` and offsets it by the anchor. Twelve words, laid
/// out as in [`Affine::words`].
pub uninterp spec fn quad_affine_of(transform: Seq<u32>, quad_size: Seq<u32>, anchor: Seq<u32>) -> Seq<u32>;

/// What `bevy_math` computes as `inverse(mask) * sprite` on two affine
/// transforms: the sprite's quad re-expressed in the mask's local space.
pub uninterp spec fn inv_mul_of(mask: Seq<u32>, sprite: Seq<u32>) -> Seq<u32>;

/// What `bevy_math` computes as the UV offset and scale of a source
/// rectangle within an image: `[min x / size x, max y / size y,
/// width / size x, -(height / size y)]` in IEEE single precision.
pub uninterp spec fn uv_rect_of(image_size: Seq<u32>, rect: Seq<u32>) -> Seq<u32>;

/// What `bevy_math` computes when one UV axis is flipped: the pair
/// `[offset + scale, -scale]` in IEEE single precision.
pub uninterp spec fn flip_lane_of(offset: u32, scale: u32) -> Seq<u32>;

/// What `bevy_math` computes when converting a pixel extent (two `u32`
/// pixel counts) to single-precision words.
pub uninterp spec fn pixel_size_bits_of(size: Seq<u32>) -> Seq<u32>;

/// Relies on `bevy_math::Vec2` subtraction: the size of a rectangle is
/// `max - min`, lane-wise in IEEE single precision, a function of the four
/// corner words alone.
#[verifier::external_body]
fn rect_size(rect: &[u32; 4]) -> (r: [u32; 2])
    ensures
        r@ == rect_size_of(rect@),
{
    let mn: Vec2 = bytemuck::cast([rect[0], rect[1]]);
    let mx: Vec2 = bytemuck::cast([rect[2], rect[3]]);
    bytemuck::cast(mx - mn)
}

/// Relies on `bevy_math::Affine3A::from_scale_rotation_translation` (with the
/// identity rotation), `Vec2` arithmetic and affine multiplication: composes
/// the entity transform with the quad's local scale of `quad_size` and
/// translation `quad_size * (-anchor - 0.5)`, all in IEEE single precision,
/// a function of the argument words alone.
#[verifier::external_body]
fn quad_affine(transform: &Affine, quad_size: &[u32; 2], anchor: &[u32; 2]) -> (r: Affine)
    ensures
        r.words() == quad_affine_of(transform.words(), quad_size@, anchor@),
{
    let m: Mat3 = bytemuck::cast(transform.mat);
    let t: Vec3 = bytemuck::cast(transform.tra);
    let qs: Vec2 = bytemuck::cast(*quad_size);
    let an: Vec2 = bytemuck::cast(*anchor);
    let half: Vec2 = bytemuck::cast([F32_HALF_BITS, F32_HALF_BITS]);
    let off: [u32; 2] = bytemuck::cast(qs * (-an - half));
    let scale: Vec3 = bytemuck::cast([quad_size[0], quad_size[1], F32_ONE_BITS]);
    let tr3: Vec3 = bytemuck::cast([off[0], off[1], F32_ZERO_BITS]);
    let res = Affine3A::from_mat3_translation(m, t)
        * Affine3A::from_scale_rotation_translation(scale, Quat::IDENTITY, tr3);
    Affine { mat: bytemuck::cast(Mat3::from(res.matrix3)), tra: bytemuck::cast(Vec3::from(res.translation)) }
}

/// Relies on `bevy_math::Affine3A::inverse` and affine multiplication:
/// computes `inverse(mask) * sprite` in IEEE single precision, a function of
/// the argument words alone.
#[verifier::external_body]
fn inv_mul(mask: &Affine, sprite: &Affine) -> (r: Affine)
    ensures
        r.words() == inv_mul_of(mask.words(), sprite.words()),
{
    let a = Affine3A::from_mat3_translation(bytemuck::cast(mask.mat), bytemuck::cast(mask.tra));
    let b = Affine3A::from_mat3_translation(bytemuck::cast(sprite.mat), bytemuck::cast(sprite.tra));
    let res = a.inverse() * b;
    Affine { mat: bytemuck::cast(Mat3::from(res.matrix3)), tra: bytemuck::cast(Vec3::from(res.translation)) }
}

/// Relies on `bevy_math::Vec2` division and subtraction: the UV offset and
/// scale of a source rectangle, `[min x / size x, max y / size y,
/// (max x - min x) / size x, -((max y - min y) / size y)]`, in IEEE single
/// precision, a function of the argument words alone.
#[verifier::external_body]
fn uv_rect(image_size: &[u32; 2], rect: &[u32; 4]) -> (r: [u32; 4])
    ensures
        r@ == uv_rect_of(image_size@, rect@),
{
    let s: Vec2 = bytemuck::cast(*image_size);
    let mn: Vec2 = bytemuck::cast([rect[0], rect[1]]);
    let mx: Vec2 = bytemuck::cast([rect[2], rect[3]]);
    let sz = mx - mn;
    bytemuck::cast(Vec4::new(mn.x / s.x, mx.y / s.y, sz.x / s.x, (-sz.y) / s.y))
}

/// Relies on `bevy_math::Vec2` addition and negation: flipping one UV axis
/// yields `[offset + scale, -scale]` in IEEE single precision, a function of
/// the two argument words alone. Adding `0.0 + 1.0` gives exactly `1.0`,
/// adding `1.0 + -1.0` gives exactly `0.0` (both sums are exact in IEEE
/// arithmetic), and negation flips the sign bit.
#[verifier::external_body]
fn flip_lane(offset: u32, scale: u32) -> (r: [u32; 2])
    ensures
        r@ == flip_lane_of(offset, scale),
        offset == F32_ZERO_BITS && scale == F32_ONE_BITS
            ==> r@ == seq![F32_ONE_BITS, F32_NEG_ONE_BITS],
        offset == F32_ONE_BITS && scale == F32_NEG_ONE_BITS
            ==> r@ == seq![F32_ZERO_BITS, F32_ONE_BITS],
{
    let v: Vec2 = bytemuck::cast([offset, scale]);
    bytemuck::cast(Vec2::new(v.x + v.y, -v.y))
}

/// Relies on `bevy_math::UVec2::as_vec2`: converts a pixel extent to
/// single-precision words, a function of the two pixel counts alone.
#[verifier::external_body]
pub(crate) fn pixel_size_to_bits(size: &[u32; 2]) -> (r: [u32; 2])
    ensures
        r@ == pixel_size_bits_of(size@),
{
    let v: UVec2 = bytemuck::cast(*size);
    bytemuck::cast(v.as_vec2())
}

/// The size of the quad a sprite is rendered as: the custom size if one is
/// set, else the size of the source rectangle if one is set, else the size
/// of the image.
pub open spec fn spec_quad_size(
    image_size: Seq<u32>,
    custom_size: Option<[u32; 2]>,
    rect: Option<[u32; 4]>,
) -> Seq<u32> {
    match custom_size {
        Some(cs) => cs@,
        None => match rect {
            Some(rc) => rect_size_of(rc@),
            None => image_size,
        },
    }
}

/// The world-space quad transform of a sprite or mask: its entity transform
/// composed with the local scale-and-anchor transform of its quad.
pub open spec fn spec_calculate_transform(
    image_size: Seq<u32>,
    custom_size: Option<[u32; 2]>,
    rect: Option<[u32; 4]>,
    transform: Seq<u32>,
    anchor: Seq<u32>,
) -> Seq<u32> {
    quad_affine_of(transform, spec_quad_size(image_size, custom_size, rect), anchor)
}

/// Computes the world-space quad transform of a sprite or mask from its
/// image size, optional custom size, optional source rectangle, entity
/// transform and anchor.
pub fn calculate_transform(
    image_size: &[u32; 2],
    custom_size: &Option<[u32; 2]>,
    rect: &Option<[u32; 4]>,
    transform: &Affine,
    anchor: &[u32; 2],
) -> (r: Affine)
    ensures
        r.words() == spec_calculate_transform(
            image_size@,
            *custom_size,
            *rect,
            transform.words(),
            anchor@,
        ),
{
    let quad_size: [u32; 2] = match custom_size {
        Some(cs) => *cs,
        None => match rect {
            Some(rc) => rect_size(rc),
            None => *image_size,
        },
    };
    quad_affine(transform, &quad_size, anchor)
}

/// Computes the sprite's quad re-expressed in the mask's local space:
/// `inverse(mask transform) * sprite transform`.
pub fn mask_relative_transform(mask: &Affine, sprite: &Affine) -> (r: Affine)
    ensures
        r.words() == inv_mul_of(mask.words(), sprite.words()),
{
    inv_mul(mask, sprite)
}

/// The UV offset and scale of an uncropped, unflipped sprite:
/// offset `(0, 1)`, scale `(1, -1)`.
pub open spec fn uv_identity() -> Seq<u32> {
    seq![F32_ZERO_BITS, F32_ONE_BITS, F32_ONE_BITS, F32_NEG_ONE_BITS]
}

/// [`uv_identity`] with the X axis flipped: offset `(1, 1)`, scale `(-1, -1)`.
pub open spec fn uv_identity_flipped_x() -> Seq<u32> {
    seq![F32_ONE_BITS, F32_ONE_BITS, F32_NEG_ONE_BITS, F32_NEG_ONE_BITS]
}

/// [`uv_identity`] with the Y axis flipped: offset `(0, 0)`, scale `(1, 1)`.
pub open spec fn uv_identity_flipped_y() -> Seq<u32> {
    seq![F32_ZERO_BITS, F32_ZERO_BITS, F32_ONE_BITS, F32_ONE_BITS]
}

/// The UV words of a sprite before any flip is applied.
pub open spec fn spec_uv_base(image_size: Seq<u32>, rect: Option<[u32; 4]>) -> Seq<u32> {
    match rect {
        Some(rc) => uv_rect_of(image_size, rc@),
        None => uv_identity(),
    }
}

/// One X flip: `offset x += scale x; scale x = -scale x`.
pub open spec fn spec_flip_x(uv: Seq<u32>) -> Seq<u32> {
    seq![flip_lane_of(uv[0], uv[2])[0], uv[1], flip_lane_of(uv[0], uv[2])[1], uv[3]]
}

/// One Y flip: `offset y += scale y; scale y = -scale y`.
pub open spec fn spec_flip_y(uv: Seq<u32>) -> Seq<u32> {
    seq![uv[0], flip_lane_of(uv[1], uv[3])[0], uv[2], flip_lane_of(uv[1], uv[3])[1]]
}

/// The UV offset and scale of a sprite: the base UV of its source rectangle
/// (or the identity UV), with the X flip applied first and the Y flip second.
pub open spec fn spec_calculate_uv_offset_scale(
    image_size: Seq<u32>,
    rect: Option<[u32; 4]>,
    flip_x: bool,
    flip_y: bool,
) -> Seq<u32> {
    let base = spec_uv_base(image_size, rect);
    let flipped = if flip_x {
        spec_flip_x(base)
    } else {
        base
    };
    if flip_y {
        spec_flip_y(flipped)
    } else {
        flipped
    }
}

/// Applies one X flip to a UV word quadruple.
///
/// On the identity UV this is an involution: flipping `(0, 1, 1, -1)` gives
/// `(1, 1, -1, -1)`, and flipping that gives back `(0, 1, 1, -1)` — the two
/// sums `0.0 + 1.0` and `1.0 + -1.0` are exact in IEEE arithmetic.
pub fn flip_x_uv(uv: &[u32; 4]) -> (r: [u32; 4])
    ensures
        r@ == spec_flip_x(uv@),
        uv@ == uv_identity() ==> r@ == uv_identity_flipped_x(),
        uv@ == uv_identity_flipped_x() ==> r@ == uv_identity(),
{
    let lane = flip_lane(uv[0], uv[2]);
    let r = [lane[0], uv[1], lane[1], uv[3]];
    proof {
        assert(r@ =~= spec_flip_x(uv@));
        if uv@ == uv_identity() {
            assert(r@ =~= uv_identity_flipped_x());
        }
        if uv@ == uv_identity_flipped_x() {
            assert(r@ =~= uv_identity());
        }
    }
    r
}

/// Applies one Y flip to a UV word quadruple.
///
/// On the identity UV this is an involution: flipping `(0, 1, 1, -1)` gives
/// `(0, 0, 1, 1)`, and flipping that gives back `(0, 1, 1, -1)`.
pub fn flip_y_uv(uv: &[u32; 4]) -> (r: [u32; 4])
    ensures
        r@ == spec_flip_y(uv@),
        uv@ == uv_identity() ==> r@ == uv_identity_flipped_y(),
        uv@ == uv_identity_flipped_y() ==> r@ == uv_identity(),
{
    let lane = flip_lane(uv[1], uv[3]);
    let r = [uv[0], lane[0], uv[2], lane[1]];
    proof {
        assert(r@ =~= spec_flip_y(uv@));
        if uv@ == uv_identity() {
            assert(r@ =~= uv_identity_flipped_y());
        }
        if uv@ == uv_identity_flipped_y() {
            assert(r@ =~= uv_identity());
        }
    }
    r
}

/// Computes the UV offset and scale of a sprite or mask from its image size,
/// optional source rectangle and flip flags.
///
/// With no source rectangle and no flips the result is exactly the identity
/// UV `(0, 1, 1, -1)`.
pub fn calculate_uv_offset_scale(
    image_size: &[u32; 2],
    rect: &Option<[u32; 4]>,
    flip_x: bool,
    flip_y: bool,
) -> (r: [u32; 4])
    ensures
        r@ == spec_calculate_uv_offset_scale(image_size@, *rect, flip_x, flip_y),
        rect is None && !flip_x && !flip_y ==> r@ == uv_identity(),
{
    let mut uv: [u32; 4] = match rect {
        Some(rc) => uv_rect(image_size, rc),
        None => [F32_ZERO_BITS, F32_ONE_BITS, F32_ONE_BITS, F32_NEG_ONE_BITS],
    };
    proof {
        assert(uv@ =~= spec_uv_base(image_size@, *rect));
    }
    if flip_x {
        uv = flip_x_uv(&uv);
    }
    if flip_y {
        uv = flip_y_uv(&uv);
    }
    uv
}

/// An axis-aligned bounding box: its center and half extents, three
/// single-precision words each (the Z words are zero).
#[derive(Clone, Copy, Debug)]
pub struct Aabb {
    /// Center words: x, y, z.
    pub center: [u32; 3],
    /// Half-extent words: x, y, z.
    pub half_extents: [u32; 3],
}

/// What `bevy_math` computes as the bounding box of a quad of the given
/// size anchored at `anchor`: the center `-anchor * size` and the half
/// extents `0.5 * size`, with zero Z — six words, center first.
pub uninterp spec fn aabb_of(size: Seq<u32>, anchor: Seq<u32>) -> Seq<u32>;

/// Relies on `bevy_math::Vec2` multiplication and negation: computes the
/// quad's bounding box center `-anchor * size` and half extents
/// `0.5 * size` in IEEE single precision, a function of the argument words
/// alone.
#[verifier::external_body]
fn aabb_parts(size: &[u32; 2], anchor: &[u32; 2]) -> (r: Aabb)
    ensures
        r.center@ + r.half_extents@ == aabb_of(size@, anchor@),
{
    let sz: Vec2 = bytemuck::cast(*size);
    let an: Vec2 = bytemuck::cast(*anchor);
    let c: [u32; 2] = bytemuck::cast(-an * sz);
    let half: Vec2 = bytemuck::cast([F32_HALF_BITS, F32_HALF_BITS]);
    let h: [u32; 2] = bytemuck::cast(half * sz);
    Aabb {
        center: [c[0], c[1], F32_ZERO_BITS],
        half_extents: [h[0], h[1], F32_ZERO_BITS],
    }
}

/// The size a sprite's bounding box is computed from: its custom size when
/// one is set, else the size of its source rectangle.
pub open spec fn spec_bounds_size(custom_size: Option<[u32; 2]>, rect: Option<[u32; 4]>) -> Seq<
    u32,
> {
    match custom_size {
        Some(cs) => cs@,
        None => rect_size_of((rect->0)@),
    }
}

/// Computes the bounding box of a sprite's quad, for visibility culling: a
/// box exists exactly when the sprite has a custom size or a source
/// rectangle (the size of a still-loading image is unknown here), centered
/// at `-anchor * size` with half extents `0.5 * size`.
pub fn calculate_bounds_2d(sprite: &crate::sprite::SpriteEx) -> (r: Option<Aabb>)
    ensures
        (r is Some) == (sprite.custom_size is Some || sprite.rect is Some),
        r matches Some(aabb) ==> aabb.center@ + aabb.half_extents@ == aabb_of(
            spec_bounds_size(sprite.custom_size, sprite.rect),
            sprite.anchor@,
        ),
{
    let size: [u32; 2] = match sprite.custom_size {
        Some(cs) => cs,
        None => match sprite.rect {
            Some(rc) => rect_size(&rc),
            None => {
                return None;
            },
        },
    };
    Some(aabb_parts(&size, &sprite.anchor))
}

} // verus!
