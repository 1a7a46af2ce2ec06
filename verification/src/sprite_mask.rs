use vstd::prelude::*;

use crate::sprite::F32_ZERO_BITS;

verus! {

/// Rendering properties of a sprite mask.
///
/// A mask is a rectangular textured alpha shape that applies to every sprite
/// whose order value lies in the inclusive range `[range_start, range_end]`.
/// Geometry is carried as IEEE single-precision bit patterns (`u32` words),
/// as in [`crate::sprite::SpriteEx`].
#[derive(Clone, Copy, Debug)]
pub struct SpriteMask {
    /// Flip the mask along the `X` axis.
    pub flip_x: bool,
    /// Flip the mask along the `Y` axis.
    pub flip_y: bool,
    /// An optional custom on-screen size used instead of the image's size:
    /// width and height words.
    pub custom_size: Option<[u32; 2]>,
    /// An optional region of the image to render instead of the full image:
    /// `[min x, min y, max x, max y]` words.
    pub rect: Option<[u32; 4]>,
    /// Anchor point of the mask, as a normalized offset from the center:
    /// x and y words.
    pub anchor: [u32; 2],
    /// First order value (inclusive) this mask applies to.
    pub range_start: u32,
    /// Last order value (inclusive) this mask applies to.
    pub range_end: u32,
}

impl Default for SpriteMask {
    /// An unflipped, centered mask of the image's own size that applies only
    /// to sprites of order 0.
    fn default() -> (r: Self)
        ensures
            !r.flip_x,
            !r.flip_y,
            r.custom_size is None,
            r.rect is None,
            r.anchor == [F32_ZERO_BITS, F32_ZERO_BITS],
            r.range_start == 0,
            r.range_end == 0,
    {
        SpriteMask {
            flip_x: false,
            flip_y: false,
            custom_size: None,
            rect: None,
            anchor: [F32_ZERO_BITS, F32_ZERO_BITS],
            range_start: 0,
            range_end: 0,
        }
    }
}

} // verus!
