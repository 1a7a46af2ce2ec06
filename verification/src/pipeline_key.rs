use vstd::prelude::*;

use vstd::std_specs::bits::u32_trailing_zeros;

verus! {

/// No flag set.
pub const KEY_NONE: u32 = 0;

/// The view renders to a high-dynamic-range target.
pub const KEY_HDR: u32 = 1;

/// Tonemapping runs in the shader.
pub const KEY_TONEMAP_IN_SHADER: u32 = 2;

/// Debanding dither is applied (only together with in-shader tonemapping).
pub const KEY_DEBAND_DITHER: u32 = 4;

/// The MSAA field: the highest three bits hold the log2 of the sample count.
pub const MSAA_MASK_BITS: u32 = 0b111;

/// Shift of the MSAA field.
pub const MSAA_SHIFT_BITS: u32 = 29;

/// The tonemap-method field: three bits below the MSAA field.
pub const TONEMAP_METHOD_MASK_BITS: u32 = 0b111;

/// Shift of the tonemap-method field.
pub const TONEMAP_METHOD_SHIFT_BITS: u32 = 26;

/// The mask field: two bits below the tonemap-method field.
pub const MASK_MASK_BITS: u32 = 0b11;

/// Shift of the mask field.
pub const MASK_SHIFT_BITS: u32 = 24;

/// The sprite is rendered through the masked pipeline variant.
pub const KEY_MASK_ENABLED: u32 = 1u32 << MASK_SHIFT_BITS;

/// Tonemap method: none.
pub const KEY_TONEMAP_METHOD_NONE: u32 = 0u32 << TONEMAP_METHOD_SHIFT_BITS;

/// Tonemap method: Reinhard.
pub const KEY_TONEMAP_METHOD_REINHARD: u32 = 1u32 << TONEMAP_METHOD_SHIFT_BITS;

/// Tonemap method: Reinhard luminance.
pub const KEY_TONEMAP_METHOD_REINHARD_LUMINANCE: u32 = 2u32 << TONEMAP_METHOD_SHIFT_BITS;

/// Tonemap method: ACES fitted.
pub const KEY_TONEMAP_METHOD_ACES_FITTED: u32 = 3u32 << TONEMAP_METHOD_SHIFT_BITS;

/// Tonemap method: AgX.
pub const KEY_TONEMAP_METHOD_AGX: u32 = 4u32 << TONEMAP_METHOD_SHIFT_BITS;

/// Tonemap method: somewhat boring display transform.
pub const KEY_TONEMAP_METHOD_SOMEWHAT_BORING_DISPLAY_TRANSFORM: u32 = 5u32
    << TONEMAP_METHOD_SHIFT_BITS;

/// Tonemap method: Tony McMapface.
pub const KEY_TONEMAP_METHOD_TONY_MC_MAPFACE: u32 = 6u32 << TONEMAP_METHOD_SHIFT_BITS;

/// Tonemap method: Blender filmic.
pub const KEY_TONEMAP_METHOD_BLENDER_FILMIC: u32 = 7u32 << TONEMAP_METHOD_SHIFT_BITS;

/// The key selecting a specialized variant of the sprite render pipeline:
/// a word of bit flags and small bit fields.
#[derive(Clone, Copy, Debug, PartialEq, Eq, Hash, Structural)]
pub struct SpritePipelineKey {
    /// The raw flag word.
    pub bits: u32,
}

impl SpritePipelineKey {
    /// Whether every bit of `flag` is set in this key.
    pub open spec fn spec_contains(self, flag: u32) -> bool {
        self.bits & flag == flag
    }

    /// The MSAA bits encoding a sample count: the log2 of the count, held
    /// in the highest three bits.
    pub open spec fn spec_from_msaa_samples(msaa_samples: u32) -> u32 {
        (u32_trailing_zeros(msaa_samples) & MSAA_MASK_BITS) << MSAA_SHIFT_BITS
    }

    /// Encodes an MSAA sample count (a power of two up to 128) into the
    /// key's MSAA field.
    pub fn from_msaa_samples(msaa_samples: u32) -> (r: Self)
        ensures
            r.bits == Self::spec_from_msaa_samples(msaa_samples),
    {
        let msaa_bits = (msaa_samples.trailing_zeros() & MSAA_MASK_BITS) << MSAA_SHIFT_BITS;
        SpritePipelineKey { bits: msaa_bits }
    }

    /// The sample count a key's MSAA field decodes to.
    pub open spec fn spec_msaa_samples(bits: u32) -> u32 {
        1u32 << ((bits >> MSAA_SHIFT_BITS) & MSAA_MASK_BITS)
    }

    /// Decodes the key's MSAA field back into a sample count.
    pub fn msaa_samples(&self) -> (r: u32)
        ensures
            r == Self::spec_msaa_samples(self.bits),
    {
        proof {
            let b = self.bits;
            assert(((b >> 29u32) & 0b111u32) < 32u32) by (bit_vector);
        }
        1u32 << ((self.bits >> MSAA_SHIFT_BITS) & MSAA_MASK_BITS)
    }

    /// The HDR flag for a view: set exactly when the view's target is HDR.
    pub fn from_hdr(hdr: bool) -> (r: Self)
        ensures
            r.bits == if hdr {
                KEY_HDR
            } else {
                KEY_NONE
            },
    {
        if hdr {
            SpritePipelineKey { bits: KEY_HDR }
        } else {
            SpritePipelineKey { bits: KEY_NONE }
        }
    }
}

/// The tonemapping method a view may carry.
#[derive(Clone, Copy, Debug, PartialEq, Eq, Structural)]
pub enum Tonemapping {
    /// Tonemapping enabled with no curve applied.
    NoCurve,
    /// Reinhard.
    Reinhard,
    /// Reinhard luminance.
    ReinhardLuminance,
    /// ACES fitted.
    AcesFitted,
    /// AgX.
    AgX,
    /// Somewhat boring display transform.
    SomewhatBoringDisplayTransform,
    /// Tony McMapface.
    TonyMcMapface,
    /// Blender filmic.
    BlenderFilmic,
}

/// Whether a view applies debanding dither.
#[derive(Clone, Copy, Debug, PartialEq, Eq, Structural)]
pub enum DebandDither {
    /// No dither.
    Disabled,
    /// Dither enabled.
    Enabled,
}

/// The tonemap-method field value for a method.
pub open spec fn spec_tonemap_method_bits(t: Tonemapping) -> u32 {
    match t {
        Tonemapping::NoCurve => KEY_TONEMAP_METHOD_NONE,
        Tonemapping::Reinhard => KEY_TONEMAP_METHOD_REINHARD,
        Tonemapping::ReinhardLuminance => KEY_TONEMAP_METHOD_REINHARD_LUMINANCE,
        Tonemapping::AcesFitted => KEY_TONEMAP_METHOD_ACES_FITTED,
        Tonemapping::AgX => KEY_TONEMAP_METHOD_AGX,
        Tonemapping::SomewhatBoringDisplayTransform =>
            KEY_TONEMAP_METHOD_SOMEWHAT_BORING_DISPLAY_TRANSFORM,
        Tonemapping::TonyMcMapface => KEY_TONEMAP_METHOD_TONY_MC_MAPFACE,
        Tonemapping::BlenderFilmic => KEY_TONEMAP_METHOD_BLENDER_FILMIC,
    }
}

/// The pipeline key of a view before any per-sprite mask flag: the HDR flag,
/// the MSAA field, and — on non-HDR views only — the in-shader tonemapping
/// flag with its method field and the dither flag.
pub open spec fn spec_view_key(
    hdr: bool,
    msaa_samples: u32,
    tonemapping: Option<Tonemapping>,
    dither: Option<DebandDither>,
) -> u32 {
    let base = (if hdr {
        KEY_HDR
    } else {
        KEY_NONE
    }) | SpritePipelineKey::spec_from_msaa_samples(msaa_samples);
    let with_tonemap = if !hdr && tonemapping is Some {
        base | KEY_TONEMAP_IN_SHADER | spec_tonemap_method_bits(tonemapping->0)
    } else {
        base
    };
    if !hdr && dither == Some(DebandDither::Enabled) {
        with_tonemap | KEY_DEBAND_DITHER
    } else {
        with_tonemap
    }
}

/// Computes the view-level pipeline key from the view's HDR flag, MSAA
/// sample count, tonemapping method and dither setting.
pub fn view_key(
    hdr: bool,
    msaa_samples: u32,
    tonemapping: Option<Tonemapping>,
    dither: Option<DebandDither>,
) -> (r: SpritePipelineKey)
    ensures
        r.bits == spec_view_key(hdr, msaa_samples, tonemapping, dither),
{
    let msaa_key = SpritePipelineKey::from_msaa_samples(msaa_samples);
    let mut bits: u32 = SpritePipelineKey::from_hdr(hdr).bits | msaa_key.bits;
    if !hdr {
        match tonemapping {
            Some(t) => {
                bits = bits | KEY_TONEMAP_IN_SHADER;
                bits = bits | match t {
                    Tonemapping::NoCurve => KEY_TONEMAP_METHOD_NONE,
                    Tonemapping::Reinhard => KEY_TONEMAP_METHOD_REINHARD,
                    Tonemapping::ReinhardLuminance => KEY_TONEMAP_METHOD_REINHARD_LUMINANCE,
                    Tonemapping::AcesFitted => KEY_TONEMAP_METHOD_ACES_FITTED,
                    Tonemapping::AgX => KEY_TONEMAP_METHOD_AGX,
                    Tonemapping::SomewhatBoringDisplayTransform =>
                        KEY_TONEMAP_METHOD_SOMEWHAT_BORING_DISPLAY_TRANSFORM,
                    Tonemapping::TonyMcMapface => KEY_TONEMAP_METHOD_TONY_MC_MAPFACE,
                    Tonemapping::BlenderFilmic => KEY_TONEMAP_METHOD_BLENDER_FILMIC,
                };
            },
            None => {},
        }
        match dither {
            Some(DebandDither::Enabled) => {
                bits = bits | KEY_DEBAND_DITHER;
            },
            _ => {},
        }
    }
    SpritePipelineKey { bits }
}

} // verus!
