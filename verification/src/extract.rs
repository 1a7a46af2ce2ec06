use vstd::prelude::*;

use crate::geometry::{
    spec_calculate_transform, spec_calculate_uv_offset_scale, Affine, calculate_transform,
    calculate_uv_offset_scale,
};
use crate::sprite::{BlendMode, SpriteEx};
use crate::sprite_mask::SpriteMask;

verus! {

/// A per-frame, read-only snapshot of one visible sprite, as produced by
/// extraction.
#[derive(Clone, Copy, Debug)]
pub struct ExtractedSprite {
    /// The entity's world transform.
    pub transform: Affine,
    /// Linear RGBA color words.
    pub color: [u32; 4],
    /// Selects an area of the image: `[min x, min y, max x, max y]` words.
    pub rect: Option<[u32; 4]>,
    /// Changes the on-screen size of the sprite: width and height words.
    pub custom_size: Option<[u32; 2]>,
    /// Identity of the sprite's image asset.
    pub image_handle_id: u64,
    /// Flip along the `X` axis.
    pub flip_x: bool,
    /// Flip along the `Y` axis.
    pub flip_y: bool,
    /// Anchor point words.
    pub anchor: [u32; 2],
    /// For snapshots created on behalf of another entity, the entity whose
    /// visibility governs this one.
    pub original_entity: Option<u64>,
    /// How the sprite is blended.
    pub blend_mode: BlendMode,
    /// Order value, for mask applicability.
    pub order: u32,
}

impl ExtractedSprite {
    /// The world-space quad transform of this sprite, given its image size
    /// in single-precision words.
    pub fn calculate_transform(&self, image_size: &[u32; 2]) -> (r: Affine)
        ensures
            r.words() == spec_calculate_transform(
                image_size@,
                self.custom_size,
                self.rect,
                self.transform.words(),
                self.anchor@,
            ),
    {
        calculate_transform(image_size, &self.custom_size, &self.rect, &self.transform, &self.anchor)
    }

    /// The UV offset and scale of this sprite, given its image size in
    /// single-precision words.
    pub fn calculate_uv_offset_scale(&self, image_size: &[u32; 2]) -> (r: [u32; 4])
        ensures
            r@ == spec_calculate_uv_offset_scale(image_size@, self.rect, self.flip_x, self.flip_y),
    {
        calculate_uv_offset_scale(image_size, &self.rect, self.flip_x, self.flip_y)
    }
}

/// A per-frame, read-only snapshot of one visible sprite mask.
#[derive(Clone, Copy, Debug)]
pub struct ExtractedSpriteMask {
    /// The entity's world transform.
    pub transform: Affine,
    /// Selects an area of the image: `[min x, min y, max x, max y]` words.
    pub rect: Option<[u32; 4]>,
    /// Changes the on-screen size of the mask: width and height words.
    pub custom_size: Option<[u32; 2]>,
    /// Identity of the mask's image asset.
    pub image_handle_id: u64,
    /// Flip along the `X` axis.
    pub flip_x: bool,
    /// Flip along the `Y` axis.
    pub flip_y: bool,
    /// Anchor point words.
    pub anchor: [u32; 2],
    /// First order value (inclusive) this mask applies to.
    pub range_start: u32,
    /// Last order value (inclusive) this mask applies to.
    pub range_end: u32,
}

impl ExtractedSpriteMask {
    /// The world-space quad transform of this mask, given its image size in
    /// single-precision words.
    pub fn calculate_transform(&self, image_size: &[u32; 2]) -> (r: Affine)
        ensures
            r.words() == spec_calculate_transform(
                image_size@,
                self.custom_size,
                self.rect,
                self.transform.words(),
                self.anchor@,
            ),
    {
        calculate_transform(image_size, &self.custom_size, &self.rect, &self.transform, &self.anchor)
    }

    /// The UV offset and scale of this mask, given its image size in
    /// single-precision words.
    pub fn calculate_uv_offset_scale(&self, image_size: &[u32; 2]) -> (r: [u32; 4])
        ensures
            r@ == spec_calculate_uv_offset_scale(image_size@, self.rect, self.flip_x, self.flip_y),
    {
        calculate_uv_offset_scale(image_size, &self.rect, self.flip_x, self.flip_y)
    }
}

/// The flat per-frame snapshot collections built by extraction, keyed by
/// entity identity. Entries keep their insertion order, which is the
/// iteration order later passes (in particular mask resolution) observe.
pub struct ExtractedSprites {
    /// Extracted sprites, one entry per visible sprite entity.
    pub sprites: Vec<(u64, ExtractedSprite)>,
    /// Extracted masks, one entry per visible mask entity.
    pub masks: Vec<(u64, ExtractedSpriteMask)>,
    /// Number of mask uniforms in use this frame.
    pub mask_uniform_count: usize,
}

impl ExtractedSprites {
    /// An empty snapshot.
    pub fn new() -> (r: Self)
        ensures
            r.sprites@ == Seq::<(u64, ExtractedSprite)>::empty(),
            r.masks@ == Seq::<(u64, ExtractedSpriteMask)>::empty(),
            r.mask_uniform_count == 0,
    {
        ExtractedSprites { sprites: Vec::new(), masks: Vec::new(), mask_uniform_count: 0 }
    }

    /// Empties the snapshot, so that a new frame starts with no carry-over.
    pub fn clear(&mut self)
        ensures
            final(self).sprites@ == Seq::<(u64, ExtractedSprite)>::empty(),
            final(self).masks@ == Seq::<(u64, ExtractedSpriteMask)>::empty(),
            final(self).mask_uniform_count == 0,
    {
        self.sprites.clear();
        self.masks.clear();
        self.mask_uniform_count = 0;
    }
}

impl Default for ExtractedSprites {
    /// An empty snapshot.
    fn default() -> (r: Self)
        ensures
            r.sprites@ == Seq::<(u64, ExtractedSprite)>::empty(),
            r.masks@ == Seq::<(u64, ExtractedSpriteMask)>::empty(),
            r.mask_uniform_count == 0,
    {
        ExtractedSprites::new()
    }
}

/// One row of the sprite query: the persistent state extraction reads for
/// one sprite entity.
#[derive(Clone, Copy, Debug)]
pub struct SpriteSource {
    /// Stable entity identity.
    pub entity: u64,
    /// Whether the entity's computed visibility flag is set this frame.
    pub view_visibility: bool,
    /// The sprite's persistent rendering properties.
    pub sprite: SpriteEx,
    /// The entity's world transform.
    pub transform: Affine,
    /// Identity of the sprite's image asset.
    pub image_handle_id: u64,
}

/// One row of the mask query: the persistent state extraction reads for one
/// mask entity.
#[derive(Clone, Copy, Debug)]
pub struct SpriteMaskSource {
    /// Stable entity identity.
    pub entity: u64,
    /// Whether the entity's computed visibility flag is set this frame.
    pub view_visibility: bool,
    /// The mask's persistent rendering properties.
    pub mask: SpriteMask,
    /// The entity's world transform.
    pub transform: Affine,
    /// Identity of the mask's image asset.
    pub image_handle_id: u64,
}

/// The snapshot extraction takes of one sprite row.
pub open spec fn spec_extracted_sprite(src: SpriteSource) -> ExtractedSprite {
    ExtractedSprite {
        transform: src.transform,
        color: src.sprite.color,
        rect: src.sprite.rect,
        custom_size: src.sprite.custom_size,
        image_handle_id: src.image_handle_id,
        flip_x: src.sprite.flip_x,
        flip_y: src.sprite.flip_y,
        anchor: src.sprite.anchor,
        original_entity: None,
        blend_mode: src.sprite.blend_mode,
        order: src.sprite.order,
    }
}

/// The snapshot extraction takes of one mask row.
pub open spec fn spec_extracted_mask(src: SpriteMaskSource) -> ExtractedSpriteMask {
    ExtractedSpriteMask {
        transform: src.transform,
        rect: src.mask.rect,
        custom_size: src.mask.custom_size,
        image_handle_id: src.image_handle_id,
        flip_x: src.mask.flip_x,
        flip_y: src.mask.flip_y,
        anchor: src.mask.anchor,
        range_start: src.mask.range_start,
        range_end: src.mask.range_end,
    }
}

/// The sprite entries extraction produces from the query rows, in row
/// order: one entry per visible row.
pub open spec fn spec_extract_sprites(src: Seq<SpriteSource>) -> Seq<(u64, ExtractedSprite)>
    decreases src.len(),
{
    if src.len() == 0 {
        Seq::empty()
    } else {
        let rest = spec_extract_sprites(src.drop_last());
        let row = src.last();
        if row.view_visibility {
            rest.push((row.entity, spec_extracted_sprite(row)))
        } else {
            rest
        }
    }
}

/// The mask entries extraction produces from the query rows, in row order:
/// one entry per visible row.
pub open spec fn spec_extract_masks(src: Seq<SpriteMaskSource>) -> Seq<(u64, ExtractedSpriteMask)>
    decreases src.len(),
{
    if src.len() == 0 {
        Seq::empty()
    } else {
        let rest = spec_extract_masks(src.drop_last());
        let row = src.last();
        if row.view_visibility {
            rest.push((row.entity, spec_extracted_mask(row)))
        } else {
            rest
        }
    }
}

/// Clears the snapshot and repopulates it from this frame's query rows:
/// every row whose visibility flag is set is projected into a flat
/// read-only entry, in row order; invisible rows are skipped. No persistent
/// state is touched. Rows with an unresolved image are still extracted
/// optimistically; image absence is only detected downstream, during batch
/// preparation.
pub fn extract_sprites(
    extracted_sprites: &mut ExtractedSprites,
    sprite_rows: &Vec<SpriteSource>,
    mask_rows: &Vec<SpriteMaskSource>,
)
    ensures
        final(extracted_sprites).sprites@ == spec_extract_sprites(sprite_rows@),
        final(extracted_sprites).masks@ == spec_extract_masks(mask_rows@),
        final(extracted_sprites).mask_uniform_count == 0,
{
    extracted_sprites.clear();

    let mut i: usize = 0;
    while i < sprite_rows.len()
        invariant
            i <= sprite_rows@.len(),
            extracted_sprites.sprites@ == spec_extract_sprites(sprite_rows@.take(i as int)),
            extracted_sprites.masks@ == Seq::<(u64, ExtractedSpriteMask)>::empty(),
            extracted_sprites.mask_uniform_count == 0,
        decreases sprite_rows@.len() - i,
    {
        let row = &sprite_rows[i];
        if row.view_visibility {
            let entry = ExtractedSprite {
                transform: row.transform,
                color: row.sprite.color,
                rect: row.sprite.rect,
                custom_size: row.sprite.custom_size,
                image_handle_id: row.image_handle_id,
                flip_x: row.sprite.flip_x,
                flip_y: row.sprite.flip_y,
                anchor: row.sprite.anchor,
                original_entity: None,
                blend_mode: row.sprite.blend_mode,
                order: row.sprite.order,
            };
            extracted_sprites.sprites.push((row.entity, entry));
        }
        proof {
            assert(sprite_rows@.take(i + 1).drop_last() =~= sprite_rows@.take(i as int));
            assert(sprite_rows@.take(i + 1).last() == sprite_rows@[i as int]);
        }
        i = i + 1;
    }
    proof {
        assert(sprite_rows@.take(sprite_rows@.len() as int) =~= sprite_rows@);
    }

    let mut j: usize = 0;
    while j < mask_rows.len()
        invariant
            j <= mask_rows@.len(),
            extracted_sprites.sprites@ == spec_extract_sprites(sprite_rows@),
            extracted_sprites.masks@ == spec_extract_masks(mask_rows@.take(j as int)),
            extracted_sprites.mask_uniform_count == 0,
        decreases mask_rows@.len() - j,
    {
        let row = &mask_rows[j];
        if row.view_visibility {
            let entry = ExtractedSpriteMask {
                transform: row.transform,
                rect: row.mask.rect,
                custom_size: row.mask.custom_size,
                image_handle_id: row.image_handle_id,
                flip_x: row.mask.flip_x,
                flip_y: row.mask.flip_y,
                anchor: row.mask.anchor,
                range_start: row.mask.range_start,
                range_end: row.mask.range_end,
            };
            extracted_sprites.masks.push((row.entity, entry));
        }
        proof {
            assert(mask_rows@.take(j + 1).drop_last() =~= mask_rows@.take(j as int));
            assert(mask_rows@.take(j + 1).last() == mask_rows@[j as int]);
        }
        j = j + 1;
    }
    proof {
        assert(mask_rows@.take(mask_rows@.len() as int) =~= mask_rows@);
    }
}

/// One image asset event, as reported by the host's asset system.
#[derive(Clone, Copy, Debug, PartialEq, Eq, Structural)]
pub enum AssetEventKind {
    /// The asset was added.
    Added,
    /// The asset and its dependencies finished loading.
    LoadedWithDependencies,
    /// The asset was modified.
    Modified,
    /// The asset was removed.
    Removed,
    /// The asset became unused.
    Unused,
}

/// An image asset event together with the identity of the image it concerns.
#[derive(Clone, Copy, Debug, PartialEq, Eq, Structural)]
pub struct AssetEvent {
    /// What happened to the image.
    pub kind: AssetEventKind,
    /// Identity of the image asset.
    pub id: u64,
}

/// The image asset events gathered for the current frame.
pub struct SpriteAssetEvents {
    /// This frame's image events, in arrival order.
    pub images: Vec<AssetEvent>,
}

impl SpriteAssetEvents {
    /// No events.
    pub fn new() -> (r: Self)
        ensures
            r.images@ == Seq::<AssetEvent>::empty(),
    {
        SpriteAssetEvents { images: Vec::new() }
    }
}

impl Default for SpriteAssetEvents {
    /// No events.
    fn default() -> (r: Self)
        ensures
            r.images@ == Seq::<AssetEvent>::empty(),
    {
        SpriteAssetEvents::new()
    }
}

/// Replaces the previous frame's image events with this frame's: the stored
/// list afterwards holds exactly the given events, in order.
pub fn extract_sprite_events(events: &mut SpriteAssetEvents, images: Vec<AssetEvent>)
    ensures
        final(events).images@ == images@,
{
    events.images = images;
}

} // verus!
