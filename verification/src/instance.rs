use vstd::prelude::*;

use crate::geometry::Affine;
use crate::sprite::BlendMode;

verus! {

/// Size in bytes of one unmasked instance record: twelve transform words,
/// four color words, four UV words, one blend-mode word and three padding
/// words, four bytes each.
pub const UNMASKED_INSTANCE_BYTES: u64 = 96;

/// Size in bytes of one masked instance record: an unmasked record plus
/// twelve mask-transform words and four mask-UV words.
pub const MASKED_INSTANCE_BYTES: u64 = 160;

/// The transpose layout of an affine transform inside an instance record:
/// three rows of four words, each row holding one row of the 3x3 matrix
/// followed by the matching translation word.
pub open spec fn spec_transpose(w: Seq<u32>) -> Seq<u32> {
    seq![
        w[0], w[3], w[6], w[9],
        w[1], w[4], w[7], w[10],
        w[2], w[5], w[8], w[11],
    ]
}

/// One unmasked GPU instance record, as IEEE single-precision bit words and
/// one signed blend-mode word. The field order is the byte layout the
/// consuming shader declares; reordering fields breaks rendering silently.
#[derive(Clone, Copy, Debug)]
pub struct SpriteInstance {
    /// The quad transform, transposed to three rows of four words:
    /// bytes 0..48.
    pub i_model_transpose: [u32; 12],
    /// Linear RGBA color words: bytes 48..64.
    pub i_color: [u32; 4],
    /// UV offset and scale words: bytes 64..80.
    pub i_uv_offset_scale: [u32; 4],
    /// The blend-mode code: bytes 80..84.
    pub blend_mode: i32,
    /// Keeps the record a multiple of sixteen bytes: bytes 84..96, always
    /// zero.
    pub padding: [i32; 3],
}

impl SpriteInstance {
    /// The 24 words of this record, in byte order.
    pub open spec fn spec_words(self) -> Seq<u32> {
        self.i_model_transpose@ + self.i_color@ + self.i_uv_offset_scale@ + seq![
            self.blend_mode as u32,
            self.padding[0] as u32,
            self.padding[1] as u32,
            self.padding[2] as u32,
        ]
    }

    /// Builds the record for one sprite: the transform is stored transposed,
    /// color and UV words are stored as given, the blend mode is stored as
    /// its stable integer code, and the padding is zero.
    pub fn from(
        transform: &Affine,
        color: &[u32; 4],
        uv_offset_scale: &[u32; 4],
        blend_mode: BlendMode,
    ) -> (r: Self)
        ensures
            r.i_model_transpose@ == spec_transpose(transform.words()),
            r.i_color == *color,
            r.i_uv_offset_scale == *uv_offset_scale,
            r.blend_mode == blend_mode.spec_code(),
            r.padding == [0i32, 0i32, 0i32],
    {
        let r = SpriteInstance {
            i_model_transpose: [
                transform.mat[0],
                transform.mat[3],
                transform.mat[6],
                transform.tra[0],
                transform.mat[1],
                transform.mat[4],
                transform.mat[7],
                transform.tra[1],
                transform.mat[2],
                transform.mat[5],
                transform.mat[8],
                transform.tra[2],
            ],
            i_color: *color,
            i_uv_offset_scale: *uv_offset_scale,
            blend_mode: blend_mode.code(),
            padding: [0, 0, 0],
        };
        proof {
            assert(r.i_model_transpose@ =~= spec_transpose(transform.words()));
        }
        r
    }

    /// The 24 words of this record, in byte order: each word occupies four
    /// bytes, so word `k` stands at byte offset `4 * k`.
    pub fn to_words(&self) -> (r: Vec<u32>)
        ensures
            r@ == self.spec_words(),
    {
        let mut r: Vec<u32> = Vec::new();
        let mut i: usize = 0;
        while i < 12
            invariant
                i <= 12,
                r@ == self.i_model_transpose@.take(i as int),
            decreases 12 - i,
        {
            r.push(self.i_model_transpose[i]);
            i = i + 1;
        }
        let mut j: usize = 0;
        while j < 4
            invariant
                j <= 4,
                r@ == self.i_model_transpose@ + self.i_color@.take(j as int),
            decreases 4 - j,
        {
            r.push(self.i_color[j]);
            j = j + 1;
        }
        let mut k: usize = 0;
        while k < 4
            invariant
                k <= 4,
                r@ == self.i_model_transpose@ + self.i_color@ + self.i_uv_offset_scale@.take(
                    k as int,
                ),
            decreases 4 - k,
        {
            r.push(self.i_uv_offset_scale[k]);
            k = k + 1;
        }
        r.push(#[verifier::truncate] (self.blend_mode as u32));
        r.push(#[verifier::truncate] (self.padding[0] as u32));
        r.push(#[verifier::truncate] (self.padding[1] as u32));
        r.push(#[verifier::truncate] (self.padding[2] as u32));
        proof {
            assert(r@ =~= self.spec_words());
        }
        r
    }
}

/// One masked GPU instance record: an unmasked record followed by the mask's
/// relative transform and UV words.
#[derive(Clone, Copy, Debug)]
pub struct MaskedSpriteInstance {
    /// The unmasked record: bytes 0..96.
    pub sprite: SpriteInstance,
    /// The mask's relative transform, transposed as in the unmasked record:
    /// bytes 96..144.
    pub i_mask_model_transpose: [u32; 12],
    /// The mask's UV offset and scale words: bytes 144..160.
    pub i_mask_uv_offset_scale: [u32; 4],
}

impl MaskedSpriteInstance {
    /// The 40 words of this record, in byte order.
    pub open spec fn spec_words(self) -> Seq<u32> {
        self.sprite.spec_words() + self.i_mask_model_transpose@ + self.i_mask_uv_offset_scale@
    }

    /// Builds the record for one masked sprite from the already-built
    /// unmasked record, the mask's relative transform and the mask's UV
    /// words.
    pub fn from(
        sprite_instance: SpriteInstance,
        mask_transform: &Affine,
        mask_uv_offset_scale: &[u32; 4],
    ) -> (r: Self)
        ensures
            r.sprite == sprite_instance,
            r.i_mask_model_transpose@ == spec_transpose(mask_transform.words()),
            r.i_mask_uv_offset_scale == *mask_uv_offset_scale,
    {
        let r = MaskedSpriteInstance {
            sprite: sprite_instance,
            i_mask_model_transpose: [
                mask_transform.mat[0],
                mask_transform.mat[3],
                mask_transform.mat[6],
                mask_transform.tra[0],
                mask_transform.mat[1],
                mask_transform.mat[4],
                mask_transform.mat[7],
                mask_transform.tra[1],
                mask_transform.mat[2],
                mask_transform.mat[5],
                mask_transform.mat[8],
                mask_transform.tra[2],
            ],
            i_mask_uv_offset_scale: *mask_uv_offset_scale,
        };
        proof {
            assert(r.i_mask_model_transpose@ =~= spec_transpose(mask_transform.words()));
        }
        r
    }

    /// The 40 words of this record, in byte order: each word occupies four
    /// bytes, so word `k` stands at byte offset `4 * k`.
    pub fn to_words(&self) -> (r: Vec<u32>)
        ensures
            r@ == self.spec_words(),
    {
        let mut r = self.sprite.to_words();
        let mut i: usize = 0;
        while i < 12
            invariant
                i <= 12,
                r@ == self.sprite.spec_words() + self.i_mask_model_transpose@.take(i as int),
            decreases 12 - i,
        {
            r.push(self.i_mask_model_transpose[i]);
            i = i + 1;
        }
        let mut j: usize = 0;
        while j < 4
            invariant
                j <= 4,
                r@ == self.sprite.spec_words() + self.i_mask_model_transpose@
                    + self.i_mask_uv_offset_scale@.take(j as int),
            decreases 4 - j,
        {
            r.push(self.i_mask_uv_offset_scale[j]);
            j = j + 1;
        }
        proof {
            assert(r@ =~= self.spec_words());
        }
        r
    }
}

} // verus!
