use vstd::prelude::*;

verus! {

/// Bit pattern of `0.0_f32`.
pub const F32_ZERO_BITS: u32 = 0x0000_0000;

/// Bit pattern of `0.5_f32`.
pub const F32_HALF_BITS: u32 = 0x3F00_0000;

/// Bit pattern of `1.0_f32`.
pub const F32_ONE_BITS: u32 = 0x3F80_0000;

/// Bit pattern of `-1.0_f32`.
pub const F32_NEG_ONE_BITS: u32 = 0xBF80_0000;

/// Rendering properties of a sprite.
///
/// Geometry and color are carried as IEEE single-precision bit patterns
/// (`u32` words) so that the instance-record layout handed to the rasterizer
/// can be stated exactly; the host converts to and from its float types.
#[derive(Clone, Copy, Debug)]
pub struct SpriteEx {
    /// The sprite's color tint: linear RGBA, one word per channel.
    pub color: [u32; 4],
    /// Flip the sprite along the `X` axis.
    pub flip_x: bool,
    /// Flip the sprite along the `Y` axis.
    pub flip_y: bool,
    /// An optional custom on-screen size used instead of the image's size:
    /// width and height words.
    pub custom_size: Option<[u32; 2]>,
    /// An optional region of the image to render instead of the full image:
    /// `[min x, min y, max x, max y]` words.
    pub rect: Option<[u32; 4]>,
    /// Anchor point of the sprite, as a normalized offset from the center:
    /// x and y words.
    pub anchor: [u32; 2],
    /// How the sprite is blended over what is already on the target.
    pub blend_mode: BlendMode,
    /// Order value: decides which sprite masks apply to this sprite.
    pub order: u32,
}

impl Default for SpriteEx {
    /// An untinted (white), unflipped, centered sprite of the image's own
    /// size, blended normally, with order 0.
    fn default() -> (r: Self)
        ensures
            r.color == [F32_ONE_BITS, F32_ONE_BITS, F32_ONE_BITS, F32_ONE_BITS],
            !r.flip_x,
            !r.flip_y,
            r.custom_size is None,
            r.rect is None,
            r.anchor == [F32_ZERO_BITS, F32_ZERO_BITS],
            r.blend_mode == BlendMode::Normal,
            r.order == 0,
    {
        SpriteEx {
            color: [F32_ONE_BITS, F32_ONE_BITS, F32_ONE_BITS, F32_ONE_BITS],
            flip_x: false,
            flip_y: false,
            custom_size: None,
            rect: None,
            anchor: [F32_ZERO_BITS, F32_ZERO_BITS],
            blend_mode: BlendMode::Normal,
            order: 0,
        }
    }
}

/// How a sprite is blended over the destination.
#[derive(Debug, Default, Copy, Clone, Eq, PartialEq, Hash, Structural)]
pub enum BlendMode {
    #[default]
    Normal,
    Darken,
    Multiply,
    ColorBurn,
    Lighten,
    Screen,
    ColorDodge,
    Addition,
    Overlay,
    SoftLight,
    HardLight,
    Difference,
    Exclusion,
    Subtract,
    Divide,
    Hue,
    Saturation,
    Color,
    Luminosity,
}

impl BlendMode {
    /// The stable integer code of this mode. The codes are part of the wire
    /// contract with the shading stage and must never be renumbered.
    pub open spec fn spec_code(self) -> i32 {
        match self {
            BlendMode::Normal => 0,
            BlendMode::Darken => 10,
            BlendMode::Multiply => 11,
            BlendMode::ColorBurn => 12,
            BlendMode::Lighten => 20,
            BlendMode::Screen => 21,
            BlendMode::ColorDodge => 22,
            BlendMode::Addition => 23,
            BlendMode::Overlay => 30,
            BlendMode::SoftLight => 31,
            BlendMode::HardLight => 32,
            BlendMode::Difference => 40,
            BlendMode::Exclusion => 41,
            BlendMode::Subtract => 42,
            BlendMode::Divide => 43,
            BlendMode::Hue => 50,
            BlendMode::Saturation => 51,
            BlendMode::Color => 52,
            BlendMode::Luminosity => 53,
        }
    }

    /// The stable integer code of this mode, as stored in an instance record.
    pub fn code(&self) -> (r: i32)
        ensures
            r == self.spec_code(),
    {
        match self {
            BlendMode::Normal => 0,
            BlendMode::Darken => 10,
            BlendMode::Multiply => 11,
            BlendMode::ColorBurn => 12,
            BlendMode::Lighten => 20,
            BlendMode::Screen => 21,
            BlendMode::ColorDodge => 22,
            BlendMode::Addition => 23,
            BlendMode::Overlay => 30,
            BlendMode::SoftLight => 31,
            BlendMode::HardLight => 32,
            BlendMode::Difference => 40,
            BlendMode::Exclusion => 41,
            BlendMode::Subtract => 42,
            BlendMode::Divide => 43,
            BlendMode::Hue => 50,
            BlendMode::Saturation => 51,
            BlendMode::Color => 52,
            BlendMode::Luminosity => 53,
        }
    }
}

} // verus!
