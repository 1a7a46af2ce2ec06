use vstd::prelude::*;

use crate::extract::{
    AssetEvent, AssetEventKind, ExtractedSprite, ExtractedSprites, ExtractedSpriteMask,
    SpriteAssetEvents,
};
use crate::geometry::{
    inv_mul_of, mask_relative_transform, pixel_size_bits_of, pixel_size_to_bits,
    spec_calculate_transform, spec_calculate_uv_offset_scale,
};
use crate::instance::{spec_transpose, MaskedSpriteInstance, SpriteInstance};
use crate::masking::mask_covers;
use crate::queue::Transparent2dItem;
use crate::sprite::BlendMode;

verus! {

/// One contiguous run of draw-phase entries sharing an image and a mask
/// image, drawn with a single call: the image, the instance range into the
/// buffer the batch draws from, and the mask image when the batch is masked.
#[derive(Clone, Copy, Debug)]
pub struct SpriteBatch {
    /// Identity of the image all entries of the batch share.
    pub image_handle_id: u64,
    /// First instance of the batch, in the buffer selected by
    /// `mask_image_handle_id`.
    pub range_start: u32,
    /// One past the last instance of the batch.
    pub range_end: u32,
    /// Identity of the mask image all entries share, when the batch is
    /// masked; a masked batch draws from the masked instance buffer, an
    /// unmasked one from the unmasked buffer.
    pub mask_image_handle_id: Option<u64>,
}

/// The bind-group caches: which image identities currently have a GPU
/// resource binding, one list for sprite textures and one for mask
/// textures. Entries are created lazily on first use and evicted when the
/// asset system reports an image modified, removed or unused — never from
/// simple reuse across frames. The host keeps the actual bindings, keyed by
/// the same identities.
pub struct ImageBindGroups {
    /// Image identities with a sprite-texture binding, in creation order,
    /// each at most once.
    pub values: Vec<u64>,
    /// Image identities with a mask-texture binding, in creation order,
    /// each at most once.
    pub mask_values: Vec<u64>,
}

impl ImageBindGroups {
    /// Empty caches.
    pub fn new() -> (r: Self)
        ensures
            r.values@ == Seq::<u64>::empty(),
            r.mask_values@ == Seq::<u64>::empty(),
    {
        ImageBindGroups { values: Vec::new(), mask_values: Vec::new() }
    }
}

impl Default for ImageBindGroups {
    /// Empty caches.
    fn default() -> (r: Self)
        ensures
            r.values@ == Seq::<u64>::empty(),
            r.mask_values@ == Seq::<u64>::empty(),
    {
        ImageBindGroups::new()
    }
}

/// The GPU-resident images the asset system can currently resolve: image
/// identity to pixel extent (width and height, in pixels). Lookup takes the
/// first entry with the identity.
pub struct GpuImages {
    /// The resolvable images, as (identity, pixel extent) pairs.
    pub entries: Vec<(u64, [u32; 2])>,
}

impl GpuImages {
    /// The pixel extent of the first entry with the given identity, if any.
    pub open spec fn spec_get(entries: Seq<(u64, [u32; 2])>, id: u64) -> Option<[u32; 2]>
        decreases entries.len(),
    {
        if entries.len() == 0 {
            None
        } else if entries[0].0 == id {
            Some(entries[0].1)
        } else {
            Self::spec_get(entries.drop_first(), id)
        }
    }

    /// Resolves an image identity to its pixel extent, if the image is
    /// currently resolvable.
    pub fn get(&self, id: u64) -> (r: Option<[u32; 2]>)
        ensures
            r == Self::spec_get(self.entries@, id),
    {
        let mut i: usize = 0;
        proof {
            assert(self.entries@.skip(0) =~= self.entries@);
        }
        while i < self.entries.len()
            invariant
                i <= self.entries@.len(),
                Self::spec_get(self.entries@.skip(i as int), id) == Self::spec_get(
                    self.entries@,
                    id,
                ),
            decreases self.entries@.len() - i,
        {
            if self.entries[i].0 == id {
                proof {
                    assert(self.entries@.skip(i as int)[0] == self.entries@[i as int]);
                }
                return Some(self.entries[i].1);
            }
            proof {
                assert(self.entries@.skip(i as int).drop_first() =~= self.entries@.skip(i + 1));
            }
            i = i + 1;
        }
        None
    }
}

/// The per-frame GPU-bound sprite buffers: the constant quad index buffer
/// and the two instance buffers, unmasked and masked.
pub struct SpriteMeta {
    /// The six quad indices, built once per frame.
    pub sprite_index_buffer: Vec<u32>,
    /// Unmasked instance records, in draw order.
    pub sprite_instance_buffer: Vec<SpriteInstance>,
    /// Masked instance records, in draw order.
    pub masked_sprite_instance_buffer: Vec<MaskedSpriteInstance>,
}

/// The constant quad index buffer: six indices pointing at four implicit
/// corner vertices, as two triangles.
pub open spec fn spec_index_buffer() -> Seq<u32> {
    seq![2u32, 0u32, 1u32, 1u32, 3u32, 2u32]
}

impl SpriteMeta {
    /// Empty buffers.
    pub fn new() -> (r: Self)
        ensures
            r.sprite_index_buffer@ == Seq::<u32>::empty(),
            r.sprite_instance_buffer@ == Seq::<SpriteInstance>::empty(),
            r.masked_sprite_instance_buffer@ == Seq::<MaskedSpriteInstance>::empty(),
    {
        SpriteMeta {
            sprite_index_buffer: Vec::new(),
            sprite_instance_buffer: Vec::new(),
            masked_sprite_instance_buffer: Vec::new(),
        }
    }

    /// Empties all three buffers.
    pub fn clear(&mut self)
        ensures
            final(self).sprite_index_buffer@ == Seq::<u32>::empty(),
            final(self).sprite_instance_buffer@ == Seq::<SpriteInstance>::empty(),
            final(self).masked_sprite_instance_buffer@ == Seq::<MaskedSpriteInstance>::empty(),
    {
        self.sprite_index_buffer.clear();
        self.sprite_instance_buffer.clear();
        self.masked_sprite_instance_buffer.clear();
    }
}

impl Default for SpriteMeta {
    /// Empty buffers.
    fn default() -> (r: Self)
        ensures
            r.sprite_index_buffer@ == Seq::<u32>::empty(),
            r.sprite_instance_buffer@ == Seq::<SpriteInstance>::empty(),
            r.masked_sprite_instance_buffer@ == Seq::<MaskedSpriteInstance>::empty(),
    {
        SpriteMeta::new()
    }
}

impl SpriteMeta {
    /// The words of the unmasked instance buffer, in byte order: record `k`
    /// occupies words `24 * k .. 24 * (k + 1)`.
    pub fn sprite_instance_words(&self) -> (r: Vec<u32>)
        ensures
            r@ == spec_flatten_words(
                self.sprite_instance_buffer@.map_values(|rec: SpriteInstance| rec.spec_words()),
            ),
    {
        let ghost all = self.sprite_instance_buffer@.map_values(
            |rec: SpriteInstance| rec.spec_words(),
        );
        let mut r: Vec<u32> = Vec::new();
        let mut i: usize = 0;
        while i < self.sprite_instance_buffer.len()
            invariant
                i <= self.sprite_instance_buffer@.len(),
                all == self.sprite_instance_buffer@.map_values(
                    |rec: SpriteInstance| rec.spec_words(),
                ),
                r@ == spec_flatten_words(all.take(i as int)),
            decreases self.sprite_instance_buffer@.len() - i,
        {
            let mut words = self.sprite_instance_buffer[i].to_words();
            r.append(&mut words);
            proof {
                assert(all.take(i + 1).drop_last() =~= all.take(i as int));
            }
            i = i + 1;
        }
        proof {
            assert(all.take(all.len() as int) =~= all);
        }
        r
    }

    /// The words of the masked instance buffer, in byte order: record `k`
    /// occupies words `40 * k .. 40 * (k + 1)`.
    pub fn masked_sprite_instance_words(&self) -> (r: Vec<u32>)
        ensures
            r@ == spec_flatten_words(
                self.masked_sprite_instance_buffer@.map_values(
                    |rec: MaskedSpriteInstance| rec.spec_words(),
                ),
            ),
    {
        let ghost all = self.masked_sprite_instance_buffer@.map_values(
            |rec: MaskedSpriteInstance| rec.spec_words(),
        );
        let mut r: Vec<u32> = Vec::new();
        let mut i: usize = 0;
        while i < self.masked_sprite_instance_buffer.len()
            invariant
                i <= self.masked_sprite_instance_buffer@.len(),
                all == self.masked_sprite_instance_buffer@.map_values(
                    |rec: MaskedSpriteInstance| rec.spec_words(),
                ),
                r@ == spec_flatten_words(all.take(i as int)),
            decreases self.masked_sprite_instance_buffer@.len() - i,
        {
            let mut words = self.masked_sprite_instance_buffer[i].to_words();
            r.append(&mut words);
            proof {
                assert(all.take(i + 1).drop_last() =~= all.take(i as int));
            }
            i = i + 1;
        }
        proof {
            assert(all.take(all.len() as int) =~= all);
        }
        r
    }
}

/// A sequence of word records, flattened in order.
pub open spec fn spec_flatten_words(records: Seq<Seq<u32>>) -> Seq<u32>
    decreases records.len(),
{
    if records.len() == 0 {
        Seq::empty()
    } else {
        spec_flatten_words(records.drop_last()) + records.last()
    }
}

/// Whether an asset event evicts bind-group cache entries: modifications,
/// removals and disuse do; additions and load completions do not.
pub open spec fn spec_evicting(e: AssetEvent) -> bool {
    e.kind is Modified || e.kind is Removed || e.kind is Unused
}

/// A cache key list with every occurrence of one identity removed.
pub open spec fn spec_remove_id(s: Seq<u64>, id: u64) -> Seq<u64>
    decreases s.len(),
{
    if s.len() == 0 {
        Seq::empty()
    } else {
        let rest = spec_remove_id(s.drop_last(), id);
        if s.last() == id {
            rest
        } else {
            rest.push(s.last())
        }
    }
}

/// A cache key list after a frame's asset events: each evicting event
/// removes its image identity, in event order.
pub open spec fn spec_evict(s: Seq<u64>, events: Seq<AssetEvent>) -> Seq<u64>
    decreases events.len(),
{
    if events.len() == 0 {
        s
    } else {
        let prev = spec_evict(s, events.drop_last());
        if spec_evicting(events.last()) {
            spec_remove_id(prev, events.last().id)
        } else {
            prev
        }
    }
}

/// Removes every occurrence of one identity from a cache key list.
fn remove_id(v: &mut Vec<u64>, id: u64)
    ensures
        final(v)@ == spec_remove_id(old(v)@, id),
{
    let mut out: Vec<u64> = Vec::new();
    let mut i: usize = 0;
    while i < v.len()
        invariant
            i <= v@.len(),
            out@ == spec_remove_id(v@.take(i as int), id),
        decreases v@.len() - i,
    {
        if v[i] != id {
            out.push(v[i]);
        }
        proof {
            assert(v@.take(i + 1).drop_last() =~= v@.take(i as int));
        }
        i = i + 1;
    }
    proof {
        assert(v@.take(v@.len() as int) =~= v@);
    }
    *v = out;
}

/// Applies a frame's asset events to the bind-group caches: every image
/// reported modified, removed or unused loses its entries in both caches;
/// added or freshly loaded images evict nothing.
pub fn evict_image_bind_groups(image_bind_groups: &mut ImageBindGroups, events: &SpriteAssetEvents)
    ensures
        final(image_bind_groups).values@ == spec_evict(
            old(image_bind_groups).values@,
            events.images@,
        ),
        final(image_bind_groups).mask_values@ == spec_evict(
            old(image_bind_groups).mask_values@,
            events.images@,
        ),
{
    let mut i: usize = 0;
    while i < events.images.len()
        invariant
            i <= events.images@.len(),
            image_bind_groups.values@ == spec_evict(
                old(image_bind_groups).values@,
                events.images@.take(i as int),
            ),
            image_bind_groups.mask_values@ == spec_evict(
                old(image_bind_groups).mask_values@,
                events.images@.take(i as int),
            ),
        decreases events.images@.len() - i,
    {
        let event = events.images[i];
        match event.kind {
            AssetEventKind::Added => {},
            AssetEventKind::LoadedWithDependencies => {},
            AssetEventKind::Modified | AssetEventKind::Removed | AssetEventKind::Unused => {
                remove_id(&mut image_bind_groups.values, event.id);
                remove_id(&mut image_bind_groups.mask_values, event.id);
            },
        }
        proof {
            assert(events.images@.take(i + 1).drop_last() =~= events.images@.take(i as int));
        }
        i = i + 1;
    }
    proof {
        assert(events.images@.take(events.images@.len() as int) =~= events.images@);
    }
}

/// A cache key list after a lazy lookup: unchanged when the identity is
/// already cached, extended by it otherwise.
pub open spec fn spec_ensure_cached(s: Seq<u64>, id: u64) -> Seq<u64> {
    if s.contains(id) {
        s
    } else {
        s.push(id)
    }
}

/// Memoizes one identity in a cache key list: a binding is created only on
/// the first use of an image.
fn ensure_cached(v: &mut Vec<u64>, id: u64)
    ensures
        final(v)@ == spec_ensure_cached(old(v)@, id),
{
    let mut i: usize = 0;
    while i < v.len()
        invariant
            i <= v@.len(),
            v@ == old(v)@,
            forall|j: int| 0 <= j < i ==> v@[j] != id,
        decreases v@.len() - i,
    {
        if v[i] == id {
            return ;
        }
        i = i + 1;
    }
    proof {
        assert(!v@.contains(id));
    }
    v.push(id);
}

/// The extracted sprite of the first entry with the given entity, if any.
pub open spec fn spec_find_sprite(sprites: Seq<(u64, ExtractedSprite)>, entity: u64) -> Option<
    ExtractedSprite,
>
    decreases sprites.len(),
{
    if sprites.len() == 0 {
        None
    } else if sprites[0].0 == entity {
        Some(sprites[0].1)
    } else {
        spec_find_sprite(sprites.drop_first(), entity)
    }
}

/// Looks an entity up in the extracted sprite list.
fn find_extracted_sprite(sprites: &Vec<(u64, ExtractedSprite)>, entity: u64) -> (r: Option<
    ExtractedSprite,
>)
    ensures
        r == spec_find_sprite(sprites@, entity),
{
    let mut i: usize = 0;
    proof {
        assert(sprites@.skip(0) =~= sprites@);
    }
    while i < sprites.len()
        invariant
            i <= sprites@.len(),
            spec_find_sprite(sprites@.skip(i as int), entity) == spec_find_sprite(
                sprites@,
                entity,
            ),
        decreases sprites@.len() - i,
    {
        if sprites[i].0 == entity {
            proof {
                assert(sprites@.skip(i as int)[0] == sprites@[i as int]);
            }
            return Some(sprites[i].1);
        }
        proof {
            assert(sprites@.skip(i as int).drop_first() =~= sprites@.skip(i + 1));
        }
        i = i + 1;
    }
    None
}

/// The mask applied during batch preparation to a sprite of the given
/// order: the index of the first extracted mask, in iteration order, whose
/// range covers the order and whose GPU texture is currently resolvable.
/// An unresolvable mask texture only skips that candidate; when no covering
/// mask is resolvable the sprite proceeds unmasked.
pub open spec fn spec_resolve_gpu_mask(
    masks: Seq<(u64, ExtractedSpriteMask)>,
    order: u32,
    gpu: Seq<(u64, [u32; 2])>,
) -> Option<int>
    decreases masks.len(),
{
    if masks.len() == 0 {
        None
    } else if mask_covers(masks[0].1, order) && GpuImages::spec_get(
        gpu,
        masks[0].1.image_handle_id,
    ) is Some {
        Some(0int)
    } else {
        match spec_resolve_gpu_mask(masks.drop_first(), order, gpu) {
            Some(i) => Some(i + 1),
            None => None,
        }
    }
}

/// The resolved mask, if any, covers the order and is resolvable, and every
/// mask before it in iteration order either does not cover the order or is
/// not resolvable; when no mask is resolved, no mask is both.
pub proof fn lemma_resolve_gpu_mask_characterization(
    masks: Seq<(u64, ExtractedSpriteMask)>,
    order: u32,
    gpu: Seq<(u64, [u32; 2])>,
)
    ensures
        match spec_resolve_gpu_mask(masks, order, gpu) {
            Some(i) => 0 <= i < masks.len() && mask_covers(masks[i].1, order)
                && GpuImages::spec_get(gpu, masks[i].1.image_handle_id) is Some && (forall|j: int|
                0 <= j < i ==> !(mask_covers(masks[j].1, order) && GpuImages::spec_get(
                    gpu,
                    masks[j].1.image_handle_id,
                ) is Some)),
            None => forall|j: int|
                0 <= j < masks.len() ==> !(mask_covers(masks[j].1, order) && GpuImages::spec_get(
                    gpu,
                    masks[j].1.image_handle_id,
                ) is Some),
        },
    decreases masks.len(),
{
    if masks.len() == 0 {
    } else if mask_covers(masks[0].1, order) && GpuImages::spec_get(
        gpu,
        masks[0].1.image_handle_id,
    ) is Some {
    } else {
        lemma_resolve_gpu_mask_characterization(masks.drop_first(), order, gpu);
        assert(forall|j: int|
            0 <= j < masks.drop_first().len() ==> masks.drop_first()[j] == masks[j + 1]);
        match spec_resolve_gpu_mask(masks.drop_first(), order, gpu) {
            Some(i) => {
                assert(forall|j: int|
                    1 <= j < i + 1 ==> masks[j] == masks.drop_first()[j - 1]);
            },
            None => {
                assert(forall|j: int|
                    1 <= j < masks.len() ==> masks[j] == masks.drop_first()[j - 1]);
            },
        }
    }
}

/// Finds the mask applied during batch preparation: the first extracted
/// mask covering the order whose texture resolves.
fn find_applicable_gpu_mask(
    masks: &Vec<(u64, ExtractedSpriteMask)>,
    order: u32,
    gpu_images: &GpuImages,
) -> (r: Option<usize>)
    ensures
        match r {
            Some(i) => i < masks@.len() && spec_resolve_gpu_mask(masks@, order, gpu_images.entries@)
                == Some(i as int),
            None => spec_resolve_gpu_mask(masks@, order, gpu_images.entries@) is None,
        },
{
    let ghost gpu = gpu_images.entries@;
    let mut i: usize = 0;
    while i < masks.len()
        invariant
            i <= masks@.len(),
            gpu == gpu_images.entries@,
            forall|j: int|
                0 <= j < i ==> !(mask_covers(masks@[j].1, order) && GpuImages::spec_get(
                    gpu,
                    masks@[j].1.image_handle_id,
                ) is Some),
        decreases masks@.len() - i,
    {
        let mask = &masks[i].1;
        if mask.range_start <= order && order <= mask.range_end {
            let resolvable = match gpu_images.get(mask.image_handle_id) {
                Some(_) => true,
                None => false,
            };
            if resolvable {
                proof {
                    lemma_resolve_gpu_mask_characterization(masks@, order, gpu);
                    match spec_resolve_gpu_mask(masks@, order, gpu) {
                        Some(k) => {
                            if k < i {
                                assert(!(mask_covers(masks@[k].1, order) && GpuImages::spec_get(
                                    gpu,
                                    masks@[k].1.image_handle_id,
                                ) is Some));
                            }
                            if k > i {
                                assert(!(mask_covers(masks@[i as int].1, order)
                                    && GpuImages::spec_get(
                                    gpu,
                                    masks@[i as int].1.image_handle_id,
                                ) is Some));
                            }
                        },
                        None => {
                            assert(!(mask_covers(masks@[i as int].1, order) && GpuImages::spec_get(
                                gpu,
                                masks@[i as int].1.image_handle_id,
                            ) is Some));
                        },
                    }
                }
                return Some(i);
            }
        }
        i = i + 1;
    }
    proof {
        lemma_resolve_gpu_mask_characterization(masks@, order, gpu);
        match spec_resolve_gpu_mask(masks@, order, gpu) {
            Some(k) => {
                assert(!(mask_covers(masks@[k].1, order) && GpuImages::spec_get(
                    gpu,
                    masks@[k].1.image_handle_id,
                ) is Some));
            },
            None => {},
        }
    }
    None
}

/// The words of one unmasked instance record: the transposed transform, the
/// color, the UV offset and scale, the blend-mode code and three zero
/// padding words.
pub open spec fn spec_unmasked_record_words(
    model: Seq<u32>,
    color: [u32; 4],
    uv: Seq<u32>,
    blend: BlendMode,
) -> Seq<u32> {
    spec_transpose(model) + color@ + uv + seq![blend.spec_code() as u32, 0u32, 0u32, 0u32]
}

/// The words of one masked instance record: the unmasked record followed by
/// the transposed mask-relative transform and the mask's UV words.
pub open spec fn spec_masked_record_words(
    unmasked: Seq<u32>,
    mask_model: Seq<u32>,
    mask_uv: Seq<u32>,
) -> Seq<u32> {
    unmasked + spec_transpose(mask_model) + mask_uv
}

/// The state the single batching-and-packing pass carries: the current
/// batch's image and mask identities and memoized sizes, the anchor index
/// of the open batch, the phase items (with their ranges as filled in so
/// far), the two instance buffers as word records, the batch descriptors,
/// and the two bind-group cache key lists.
#[verifier::ext_equal]
pub struct ScanState {
    /// The current batch's image identity; nothing when invalidated.
    pub batch_image: Option<u64>,
    /// The memoized single-precision size words of the current batch image.
    pub batch_image_size: Seq<u32>,
    /// The current batch's mask image identity, when masked.
    pub batch_mask: Option<u64>,
    /// The memoized single-precision size words of the current mask image.
    pub batch_mask_size: Seq<u32>,
    /// Index of the phase item anchoring the open batch.
    pub batch_item_index: int,
    /// The phase's items, with batch ranges as filled in so far.
    pub items: Seq<Transparent2dItem>,
    /// The unmasked instance buffer, as word records.
    pub unmasked: Seq<Seq<u32>>,
    /// The masked instance buffer, as word records.
    pub masked: Seq<Seq<u32>>,
    /// The batch descriptors produced so far, with their anchor entities.
    pub batches: Seq<(u64, SpriteBatch)>,
    /// Sprite-texture bind-group cache keys.
    pub values: Seq<u64>,
    /// Mask-texture bind-group cache keys.
    pub mask_values: Seq<u64>,
}

/// One step of the single pass, for the phase item at `idx`, mirroring the
/// scan exactly:
///
/// 1. an item with no extracted sprite invalidates the batch image (forcing
///    a boundary at the next sprite) and contributes nothing;
/// 2. an item whose image does not resolve is skipped entirely;
/// 3. a changed image closes the run, memoizes the new image's size and
///    lazily creates its binding;
/// 4. the applicable mask is resolved; a changed mask identity closes the
///    run too and, when a mask applies, memoizes its size and binding;
/// 5. the instance record is packed from the quad transform, color, UV and
///    blend code — plus, when masked, the mask-relative transform and mask
///    UV — and appended to the matching buffer;
/// 6. at a boundary a new batch descriptor opens at the just-used cursor;
///    either way the open batch's range and its anchor item's range grow by
///    one.
pub open spec fn spec_scan_step(
    st: ScanState,
    sprites: Seq<(u64, ExtractedSprite)>,
    masks: Seq<(u64, ExtractedSpriteMask)>,
    gpu: Seq<(u64, [u32; 2])>,
    idx: int,
) -> ScanState {
    let item = st.items[idx];
    match spec_find_sprite(sprites, item.entity) {
        None => ScanState { batch_image: None, ..st },
        Some(sprite) => {
            let image_changed = st.batch_image != Some(sprite.image_handle_id);
            if image_changed && GpuImages::spec_get(gpu, sprite.image_handle_id) is None {
                st
            } else {
                let batch_image_size = if image_changed {
                    pixel_size_bits_of((GpuImages::spec_get(gpu, sprite.image_handle_id)->0)@)
                } else {
                    st.batch_image_size
                };
                let values = if image_changed {
                    spec_ensure_cached(st.values, sprite.image_handle_id)
                } else {
                    st.values
                };
                let rm = spec_resolve_gpu_mask(masks, sprite.order, gpu);
                let mask_asset = match rm {
                    Some(mi) => Some(masks[mi].1.image_handle_id),
                    None => None,
                };
                let mask_changed = st.batch_mask != mask_asset;
                let batch_mask_size = if mask_changed && mask_asset is Some {
                    pixel_size_bits_of((GpuImages::spec_get(gpu, mask_asset->0)->0)@)
                } else {
                    st.batch_mask_size
                };
                let mask_values = if mask_changed && mask_asset is Some {
                    spec_ensure_cached(st.mask_values, mask_asset->0)
                } else {
                    st.mask_values
                };
                let model = spec_calculate_transform(
                    batch_image_size,
                    sprite.custom_size,
                    sprite.rect,
                    sprite.transform.words(),
                    sprite.anchor@,
                );
                let uv = spec_calculate_uv_offset_scale(
                    batch_image_size,
                    sprite.rect,
                    sprite.flip_x,
                    sprite.flip_y,
                );
                let record = spec_unmasked_record_words(model, sprite.color, uv, sprite.blend_mode);
                let masked_entry = rm is Some;
                let cursor = if masked_entry {
                    st.masked.len() as int
                } else {
                    st.unmasked.len() as int
                };
                let unmasked2 = if masked_entry {
                    st.unmasked
                } else {
                    st.unmasked.push(record)
                };
                let masked2 = if masked_entry {
                    let mask = masks[rm->0].1;
                    let mask_model = spec_calculate_transform(
                        batch_mask_size,
                        mask.custom_size,
                        mask.rect,
                        mask.transform.words(),
                        mask.anchor@,
                    );
                    let mask_uv = spec_calculate_uv_offset_scale(
                        batch_mask_size,
                        mask.rect,
                        mask.flip_x,
                        mask.flip_y,
                    );
                    st.masked.push(
                        spec_masked_record_words(record, inv_mul_of(mask_model, model), mask_uv),
                    )
                } else {
                    st.masked
                };
                let boundary = image_changed || mask_changed;
                let batches2 = if boundary {
                    st.batches.push(
                        (
                            item.entity,
                            SpriteBatch {
                                image_handle_id: sprite.image_handle_id,
                                range_start: cursor as u32,
                                range_end: cursor as u32,
                                mask_image_handle_id: mask_asset,
                            },
                        ),
                    )
                } else {
                    st.batches
                };
                let anchor = if boundary {
                    idx
                } else {
                    st.batch_item_index
                };
                let last = batches2.len() - 1;
                let open_batch = batches2[last].1;
                let batches3 = batches2.update(
                    last,
                    (
                        batches2[last].0,
                        SpriteBatch { range_end: (open_batch.range_end + 1) as u32, ..open_batch },
                    ),
                );
                let anchor_item = st.items[anchor];
                let items3 = st.items.update(
                    anchor,
                    Transparent2dItem {
                        batch_range_end: (anchor_item.batch_range_end + 1) as u32,
                        ..anchor_item
                    },
                );
                ScanState {
                    batch_image: Some(sprite.image_handle_id),
                    batch_image_size,
                    batch_mask: mask_asset,
                    batch_mask_size,
                    batch_item_index: anchor,
                    items: items3,
                    unmasked: unmasked2,
                    masked: masked2,
                    batches: batches3,
                    values,
                    mask_values,
                }
            }
        },
    }
}

/// The scan state after the first `n` items of a phase.
pub open spec fn spec_scan_items(
    st: ScanState,
    sprites: Seq<(u64, ExtractedSprite)>,
    masks: Seq<(u64, ExtractedSpriteMask)>,
    gpu: Seq<(u64, [u32; 2])>,
    n: int,
) -> ScanState
    decreases n,
{
    if n <= 0 {
        st
    } else {
        spec_scan_step(
            spec_scan_items(st, sprites, masks, gpu, n - 1),
            sprites,
            masks,
            gpu,
            n - 1,
        )
    }
}

/// The batch descriptors of one buffer, in production order: the masked
/// ones when `masked` is set, the unmasked ones otherwise.
pub open spec fn batches_of(bs: Seq<(u64, SpriteBatch)>, masked: bool) -> Seq<SpriteBatch>
    decreases bs.len(),
{
    if bs.len() == 0 {
        Seq::empty()
    } else {
        let rest = batches_of(bs.drop_last(), masked);
        if (bs.last().1.mask_image_handle_id is Some) == masked {
            rest.push(bs.last().1)
        } else {
            rest
        }
    }
}

/// Whether a buffer's batch ranges form an unbroken chain from instance 0
/// to `end`: each batch starts where the previous one stopped, never runs
/// backwards, and the last one stops at `end`. Such ranges are pairwise
/// non-overlapping and together cover `0 .. end` exactly once.
pub open spec fn chained(bs: Seq<SpriteBatch>, end: int) -> bool
    decreases bs.len(),
{
    if bs.len() == 0 {
        end == 0
    } else {
        &&& bs.last().range_end == end
        &&& bs.last().range_start <= bs.last().range_end
        &&& chained(bs.drop_last(), bs.last().range_start as int)
    }
}

/// The invariant the single pass maintains after `processed` items of the
/// current phase: each buffer's batches chain up to the buffer's length,
/// unprocessed items still carry their empty placeholder range, and while a
/// batch is open, the last descriptor is it — its mask identity is the
/// current one, its range stops at its buffer's cursor, and its anchor
/// item's range counts exactly its entries.
pub open spec fn scan_inv(st: ScanState, processed: int) -> bool {
    &&& 0 <= processed <= st.items.len()
    &&& chained(batches_of(st.batches, false), st.unmasked.len() as int)
    &&& chained(batches_of(st.batches, true), st.masked.len() as int)
    &&& (forall|k: int|
        processed <= k < st.items.len() ==> (#[trigger] st.items[k]).batch_range_start == 0
            && st.items[k].batch_range_end == 0)
    &&& (st.batch_image is Some ==> {
        &&& st.batches.len() > 0
        &&& 0 <= st.batch_item_index < processed
        &&& st.batches.last().1.mask_image_handle_id == st.batch_mask
        &&& st.batches.last().1.range_start <= st.batches.last().1.range_end
        &&& st.batches.last().1.range_end == if st.batch_mask is Some {
            st.masked.len() as int
        } else {
            st.unmasked.len() as int
        }
        &&& st.items[st.batch_item_index].batch_range_start == 0
        &&& st.items[st.batch_item_index].batch_range_end == st.batches.last().1.range_end
            - st.batches.last().1.range_start
    })
}

/// Appending a batch extends exactly its own buffer's descriptor list.
proof fn lemma_batches_of_push(bs: Seq<(u64, SpriteBatch)>, b: (u64, SpriteBatch), masked: bool)
    ensures
        batches_of(bs.push(b), masked) == if (b.1.mask_image_handle_id is Some) == masked {
            batches_of(bs, masked).push(b.1)
        } else {
            batches_of(bs, masked)
        },
{
    assert(bs.push(b).drop_last() =~= bs);
    assert(bs.push(b).last() == b);
}

/// Replacing the last batch replaces the last element of exactly its own
/// buffer's descriptor list.
proof fn lemma_batches_of_update_last(
    bs: Seq<(u64, SpriteBatch)>,
    x: (u64, SpriteBatch),
    masked: bool,
)
    requires
        bs.len() > 0,
    ensures
        batches_of(bs.update(bs.len() - 1, x), masked) == if (x.1.mask_image_handle_id is Some)
            == masked {
            batches_of(bs.drop_last(), masked).push(x.1)
        } else {
            batches_of(bs.drop_last(), masked)
        },
{
    let bs2 = bs.update(bs.len() - 1, x);
    assert(bs2.drop_last() =~= bs.drop_last());
    assert(bs2.last() == x);
}

/// One step of the pass preserves the scan invariant; the buffers grow by
/// at most one record and the items keep their count.
pub proof fn lemma_scan_step_preserves_inv(
    st: ScanState,
    sprites: Seq<(u64, ExtractedSprite)>,
    masks: Seq<(u64, ExtractedSpriteMask)>,
    gpu: Seq<(u64, [u32; 2])>,
    idx: int,
)
    requires
        scan_inv(st, idx),
        idx < st.items.len(),
        st.unmasked.len() + st.masked.len() < 0xFFFF_FFFF,
    ensures
        ({
            let st1 = spec_scan_step(st, sprites, masks, gpu, idx);
            &&& scan_inv(st1, idx + 1)
            &&& st1.items.len() == st.items.len()
            &&& st1.unmasked.len() + st1.masked.len() <= st.unmasked.len() + st.masked.len() + 1
            &&& st1.batches.len() <= st.batches.len() + 1
        }),
{
    let st1 = spec_scan_step(st, sprites, masks, gpu, idx);
    let item = st.items[idx];
    match spec_find_sprite(sprites, item.entity) {
        None => {},
        Some(sprite) => {
            let image_changed = st.batch_image != Some(sprite.image_handle_id);
            if image_changed && GpuImages::spec_get(gpu, sprite.image_handle_id) is None {
            } else {
                let rm = spec_resolve_gpu_mask(masks, sprite.order, gpu);
                let mask_asset = match rm {
                    Some(mi) => Some(masks[mi].1.image_handle_id),
                    None => None,
                };
                let mask_changed = st.batch_mask != mask_asset;
                let masked_entry = rm is Some;
                let boundary = image_changed || mask_changed;
                let cursor = if masked_entry {
                    st.masked.len() as int
                } else {
                    st.unmasked.len() as int
                };
                if boundary {
                    let newb = (
                        item.entity,
                        SpriteBatch {
                            image_handle_id: sprite.image_handle_id,
                            range_start: cursor as u32,
                            range_end: cursor as u32,
                            mask_image_handle_id: mask_asset,
                        },
                    );
                    let batches2 = st.batches.push(newb);
                    let finalb = (
                        newb.0,
                        SpriteBatch { range_end: (cursor + 1) as u32, ..newb.1 },
                    );
                    assert(batches2.update(batches2.len() - 1, finalb) =~= st.batches.push(
                        finalb,
                    ));
                    lemma_batches_of_push(st.batches, finalb, masked_entry);
                    lemma_batches_of_push(st.batches, finalb, !masked_entry);
                    assert(st1.batches == st.batches.push(finalb));
                    assert(chained(
                        batches_of(st1.batches, masked_entry),
                        cursor + 1,
                    )) by {
                        assert(batches_of(st1.batches, masked_entry) == batches_of(
                            st.batches,
                            masked_entry,
                        ).push(finalb.1));
                        assert(batches_of(st1.batches, masked_entry).drop_last() =~= batches_of(
                            st.batches,
                            masked_entry,
                        ));
                    }
                } else {
                    // the image is unchanged, so a batch is open and the last
                    // descriptor is it; the entry lands in its buffer
                    assert(st.batch_image == Some(sprite.image_handle_id));
                    let open = st.batches.last();
                    let finalb = (
                        open.0,
                        SpriteBatch { range_end: (open.1.range_end + 1) as u32, ..open.1 },
                    );
                    lemma_batches_of_update_last(st.batches, finalb, masked_entry);
                    lemma_batches_of_update_last(st.batches, finalb, !masked_entry);
                    assert((open.1.mask_image_handle_id is Some) == masked_entry);
                    assert(batches_of(st.batches, masked_entry) == batches_of(
                        st.batches.drop_last(),
                        masked_entry,
                    ).push(open.1));
                    assert(batches_of(st.batches, !masked_entry) == batches_of(
                        st.batches.drop_last(),
                        !masked_entry,
                    ));
                    assert(chained(
                        batches_of(st1.batches, masked_entry),
                        cursor + 1,
                    )) by {
                        assert(batches_of(st1.batches, masked_entry) == batches_of(
                            st.batches.drop_last(),
                            masked_entry,
                        ).push(finalb.1));
                        assert(batches_of(st1.batches, masked_entry).drop_last() =~= batches_of(
                            st.batches.drop_last(),
                            masked_entry,
                        ));
                        assert(batches_of(st.batches, masked_entry).drop_last() =~= batches_of(
                            st.batches.drop_last(),
                            masked_entry,
                        ));
                    }
                }
            }
        },
    }
}

/// The unmasked instance buffer as word records.
pub open spec fn unmasked_words_of(meta: SpriteMeta) -> Seq<Seq<u32>> {
    meta.sprite_instance_buffer@.map_values(|rec: SpriteInstance| rec.spec_words())
}

/// The masked instance buffer as word records.
pub open spec fn masked_words_of(meta: SpriteMeta) -> Seq<Seq<u32>> {
    meta.masked_sprite_instance_buffer@.map_values(|rec: MaskedSpriteInstance| rec.spec_words())
}

/// The scan state the executable pass stands for.
pub open spec fn spec_abs(
    batch_image: Option<u64>,
    batch_image_size: [u32; 2],
    batch_mask: Option<u64>,
    batch_mask_size: [u32; 2],
    batch_item_index: int,
    items: Seq<Transparent2dItem>,
    meta: SpriteMeta,
    batches: Seq<(u64, SpriteBatch)>,
    groups: ImageBindGroups,
) -> ScanState {
    ScanState {
        batch_image,
        batch_image_size: batch_image_size@,
        batch_mask,
        batch_mask_size: batch_mask_size@,
        batch_item_index,
        items,
        unmasked: unmasked_words_of(meta),
        masked: masked_words_of(meta),
        batches,
        values: groups.values@,
        mask_values: groups.mask_values@,
    }
}

/// Processes one phase item of the single batching-and-packing pass,
/// performing exactly one step of the scan.
#[verifier::rlimit(60)]
fn scan_item(
    batch_image: &mut Option<u64>,
    batch_image_size: &mut [u32; 2],
    batch_mask: &mut Option<u64>,
    batch_mask_size: &mut [u32; 2],
    batch_item_index: &mut usize,
    sprite_meta: &mut SpriteMeta,
    image_bind_groups: &mut ImageBindGroups,
    batches: &mut Vec<(u64, SpriteBatch)>,
    items: &mut Vec<Transparent2dItem>,
    idx: usize,
    gpu_images: &GpuImages,
    extracted_sprites: &ExtractedSprites,
)
    requires
        idx < old(items)@.len(),
        scan_inv(
            spec_abs(
                *old(batch_image),
                *old(batch_image_size),
                *old(batch_mask),
                *old(batch_mask_size),
                *old(batch_item_index) as int,
                old(items)@,
                *old(sprite_meta),
                old(batches)@,
                *old(image_bind_groups),
            ),
            idx as int,
        ),
        old(sprite_meta).sprite_instance_buffer@.len()
            + old(sprite_meta).masked_sprite_instance_buffer@.len() < 0xFFFF_FFFF,
    ensures
        spec_abs(
            *final(batch_image),
            *final(batch_image_size),
            *final(batch_mask),
            *final(batch_mask_size),
            *final(batch_item_index) as int,
            final(items)@,
            *final(sprite_meta),
            final(batches)@,
            *final(image_bind_groups),
        ) == spec_scan_step(
            spec_abs(
                *old(batch_image),
                *old(batch_image_size),
                *old(batch_mask),
                *old(batch_mask_size),
                *old(batch_item_index) as int,
                old(items)@,
                *old(sprite_meta),
                old(batches)@,
                *old(image_bind_groups),
            ),
            extracted_sprites.sprites@,
            extracted_sprites.masks@,
            gpu_images.entries@,
            idx as int,
        ),
        final(sprite_meta).sprite_index_buffer@ == old(sprite_meta).sprite_index_buffer@,
{
    let ghost st0 = spec_abs(
        *batch_image,
        *batch_image_size,
        *batch_mask,
        *batch_mask_size,
        *batch_item_index as int,
        items@,
        *sprite_meta,
        batches@,
        *image_bind_groups,
    );
    let ghost st1 = spec_scan_step(
        st0,
        extracted_sprites.sprites@,
        extracted_sprites.masks@,
        gpu_images.entries@,
        idx as int,
    );

    let entity = items[idx].entity;
    let sprite = match find_extracted_sprite(&extracted_sprites.sprites, entity) {
        None => {
            *batch_image = None;
            proof {
                assert(spec_abs(
                    *batch_image,
                    *batch_image_size,
                    *batch_mask,
                    *batch_mask_size,
                    *batch_item_index as int,
                    items@,
                    *sprite_meta,
                    batches@,
                    *image_bind_groups,
                ) =~~= st1);
            }
            return ;
        },
        Some(s) => s,
    };

    let image_changed = match *batch_image {
        Some(id) => id != sprite.image_handle_id,
        None => true,
    };
    proof {
        assert(image_changed == (st0.batch_image != Some(sprite.image_handle_id)));
    }
    if image_changed {
        match gpu_images.get(sprite.image_handle_id) {
            None => {
                proof {
                    assert(st1 =~~= st0);
                }
                return ;
            },
            Some(size) => {
                *batch_image_size = pixel_size_to_bits(&size);
                *batch_image = Some(sprite.image_handle_id);
                ensure_cached(&mut image_bind_groups.values, sprite.image_handle_id);
            },
        }
    }

    let mask_idx = find_applicable_gpu_mask(&extracted_sprites.masks, sprite.order, gpu_images);
    let mask_asset: Option<u64> = match mask_idx {
        Some(mi) => Some(extracted_sprites.masks[mi].1.image_handle_id),
        None => None,
    };
    let mask_changed = match (*batch_mask, mask_asset) {
        (Some(a), Some(b)) => a != b,
        (None, None) => false,
        _ => true,
    };
    proof {
        assert(mask_changed == (st0.batch_mask != mask_asset));
    }
    if mask_changed {
        match (mask_idx, mask_asset) {
            (Some(_), Some(mask_id)) => {
                // the resolver only picks masks whose texture resolves, so
                // this lookup cannot miss
                let size = match gpu_images.get(mask_id) {
                    Some(s) => s,
                    None => {
                        proof {
                            lemma_resolve_gpu_mask_characterization(
                                extracted_sprites.masks@,
                                sprite.order,
                                gpu_images.entries@,
                            );
                            assert(false);
                        }
                        [0u32, 0u32]
                    },
                };
                *batch_mask_size = pixel_size_to_bits(&size);
                ensure_cached(&mut image_bind_groups.mask_values, mask_id);
            },
            _ => {},
        }
        *batch_mask = mask_asset;
    }

    let image_size: [u32; 2] = *batch_image_size;
    let sprite_transform = sprite.calculate_transform(&image_size);
    let sprite_uv = sprite.calculate_uv_offset_scale(&image_size);
    let sprite_instance = SpriteInstance::from(
        &sprite_transform,
        &sprite.color,
        &sprite_uv,
        sprite.blend_mode,
    );
    let ghost record = sprite_instance.spec_words();
    proof {
        assert(record =~= spec_unmasked_record_words(
            sprite_transform.words(),
            sprite.color,
            sprite_uv@,
            sprite.blend_mode,
        ));
    }

    let boundary = image_changed || mask_changed;
    let cursor: u32;
    match mask_idx {
        Some(mi) => {
            let mask = extracted_sprites.masks[mi].1;
            let mask_size: [u32; 2] = *batch_mask_size;
            let mask_transform = mask.calculate_transform(&mask_size);
            let mask_rel = mask_relative_transform(&mask_transform, &sprite_transform);
            let mask_uv = mask.calculate_uv_offset_scale(&mask_size);
            let masked_instance = MaskedSpriteInstance::from(sprite_instance, &mask_rel, &mask_uv);
            proof {
                assert(masked_instance.spec_words() =~= spec_masked_record_words(
                    record,
                    inv_mul_of(mask_transform.words(), sprite_transform.words()),
                    mask_uv@,
                ));
            }
            cursor = sprite_meta.masked_sprite_instance_buffer.len() as u32;
            let ghost before = masked_words_of(*sprite_meta);
            sprite_meta.masked_sprite_instance_buffer.push(masked_instance);
            proof {
                assert(masked_words_of(*sprite_meta) =~= before.push(
                    masked_instance.spec_words(),
                ));
            }
        },
        None => {
            cursor = sprite_meta.sprite_instance_buffer.len() as u32;
            let ghost before = unmasked_words_of(*sprite_meta);
            sprite_meta.sprite_instance_buffer.push(sprite_instance);
            proof {
                assert(unmasked_words_of(*sprite_meta) =~= before.push(record));
            }
        },
    }

    if boundary {
        *batch_item_index = idx;
        batches.push(
            (
                entity,
                SpriteBatch {
                    image_handle_id: sprite.image_handle_id,
                    range_start: cursor,
                    range_end: cursor,
                    mask_image_handle_id: mask_asset,
                },
            ),
        );
    }

    let last = batches.len() - 1;
    let mut open_entry = batches[last];
    proof {
        if !boundary {
            assert(st0.batch_image is Some);
            assert(open_entry.1.range_end < 0xFFFF_FFFFu32);
        }
    }
    open_entry.1.range_end = open_entry.1.range_end + 1;
    batches[last] = open_entry;

    let anchor = *batch_item_index;
    let mut anchor_item = items[anchor];
    anchor_item.batch_range_end = anchor_item.batch_range_end + 1;
    items[anchor] = anchor_item;

    proof {
        assert(spec_abs(
            *batch_image,
            *batch_image_size,
            *batch_mask,
            *batch_mask_size,
            *batch_item_index as int,
            items@,
            *sprite_meta,
            batches@,
            *image_bind_groups,
        ) =~~= st1);
    }
}

/// The item sequences of a list of phases.
pub open spec fn phase_views(phases: Seq<Vec<Transparent2dItem>>) -> Seq<Seq<Transparent2dItem>> {
    phases.map_values(|v: Vec<Transparent2dItem>| v@)
}

/// The total number of items over all phases.
pub open spec fn spec_total_items(phases: Seq<Seq<Transparent2dItem>>) -> int
    decreases phases.len(),
{
    if phases.len() == 0 {
        0
    } else {
        spec_total_items(phases.drop_last()) + phases.last().len()
    }
}

/// Whether every item still carries the empty placeholder batch range that
/// queueing gave it.
pub open spec fn spec_items_unbatched(items: Seq<Transparent2dItem>) -> bool {
    forall|k: int|
        0 <= k < items.len() ==> (#[trigger] items[k]).batch_range_start == 0
            && items[k].batch_range_end == 0
}

/// [`spec_items_unbatched`], over every phase.
pub open spec fn spec_phases_unbatched(phases: Seq<Seq<Transparent2dItem>>) -> bool {
    forall|p: int| 0 <= p < phases.len() ==> spec_items_unbatched(#[trigger] phases[p])
}

proof fn lemma_total_items_take_step(phases: Seq<Seq<Transparent2dItem>>, p: int)
    requires
        0 <= p < phases.len(),
    ensures
        spec_total_items(phases.take(p + 1)) == spec_total_items(phases.take(p))
            + phases[p].len(),
{
    assert(phases.take(p + 1).drop_last() =~= phases.take(p));
}

proof fn lemma_total_items_prefix_bound(phases: Seq<Seq<Transparent2dItem>>, p: int)
    requires
        0 <= p <= phases.len(),
    ensures
        spec_total_items(phases.take(p)) <= spec_total_items(phases),
    decreases phases.len() - p,
{
    if p == phases.len() {
        assert(phases.take(p) =~= phases);
    } else {
        lemma_total_items_take_step(phases, p);
        lemma_total_items_prefix_bound(phases, p + 1);
    }
}

/// Everything the batching-and-packing pass produces for a frame: the
/// phases with their batch ranges filled in, the two instance buffers as
/// word records, the batch descriptors with their anchor entities, and the
/// two bind-group cache key lists.
#[verifier::ext_equal]
pub struct PrepareResult {
    /// Each phase's items, with batch ranges filled in.
    pub phases: Seq<Seq<Transparent2dItem>>,
    /// The unmasked instance buffer, as word records.
    pub unmasked: Seq<Seq<u32>>,
    /// The masked instance buffer, as word records.
    pub masked: Seq<Seq<u32>>,
    /// The batch descriptors, in production order.
    pub batches: Seq<(u64, SpriteBatch)>,
    /// Sprite-texture bind-group cache keys.
    pub values: Seq<u64>,
    /// Mask-texture bind-group cache keys.
    pub mask_values: Seq<u64>,
}

/// The batching-and-packing pass over a frame's phases: each phase is
/// scanned in order with a fresh batch state but shared buffers, batch
/// list, cursors and caches.
pub open spec fn spec_prepare(
    sprites: Seq<(u64, ExtractedSprite)>,
    masks: Seq<(u64, ExtractedSpriteMask)>,
    gpu: Seq<(u64, [u32; 2])>,
    phases: Seq<Seq<Transparent2dItem>>,
    values0: Seq<u64>,
    mask_values0: Seq<u64>,
) -> PrepareResult
    decreases phases.len(),
{
    if phases.len() == 0 {
        PrepareResult {
            phases: Seq::empty(),
            unmasked: Seq::empty(),
            masked: Seq::empty(),
            batches: Seq::empty(),
            values: values0,
            mask_values: mask_values0,
        }
    } else {
        let prev = spec_prepare(sprites, masks, gpu, phases.drop_last(), values0, mask_values0);
        let st0 = ScanState {
            batch_image: None,
            batch_image_size: seq![0u32, 0u32],
            batch_mask: None,
            batch_mask_size: seq![0u32, 0u32],
            batch_item_index: 0,
            items: phases.last(),
            unmasked: prev.unmasked,
            masked: prev.masked,
            batches: prev.batches,
            values: prev.values,
            mask_values: prev.mask_values,
        };
        let st1 = spec_scan_items(st0, sprites, masks, gpu, phases.last().len() as int);
        PrepareResult {
            phases: prev.phases.push(st1.items),
            unmasked: st1.unmasked,
            masked: st1.masked,
            batches: st1.batches,
            values: st1.values,
            mask_values: st1.mask_values,
        }
    }
}

/// The whole per-frame batching-and-packing pass.
///
/// First applies the frame's asset events to the bind-group caches, then
/// clears the frame buffers and walks every view's depth-sorted phase items
/// in a single linear scan, as [`spec_scan_step`] describes step by step:
/// grouping contiguous runs that share an image and a mask into batch
/// descriptors, packing one instance record per surviving entry into the
/// unmasked or masked buffer, filling in the items' batch ranges, and
/// memoizing bind-group creation per image. Finally the constant six-entry
/// quad index buffer is rebuilt.
///
/// The returned batch descriptors cover each buffer in an unbroken chain:
/// within one buffer the ranges are pairwise non-overlapping and together
/// cover every packed record exactly once.
///
/// The items must still carry their empty placeholder ranges from queueing,
/// and their total count must stay below the instance-cursor limit.
#[verifier::rlimit(60)]
pub fn prepare_sprite_image_bind_groups(
    sprite_meta: &mut SpriteMeta,
    image_bind_groups: &mut ImageBindGroups,
    gpu_images: &GpuImages,
    extracted_sprites: &ExtractedSprites,
    phases: &mut Vec<Vec<Transparent2dItem>>,
    events: &SpriteAssetEvents,
) -> (batches: Vec<(u64, SpriteBatch)>)
    requires
        spec_phases_unbatched(phase_views(old(phases)@)),
        spec_total_items(phase_views(old(phases)@)) < 0xFFFF_FFFF,
    ensures
        ({
            let r = spec_prepare(
                extracted_sprites.sprites@,
                extracted_sprites.masks@,
                gpu_images.entries@,
                phase_views(old(phases)@),
                spec_evict(old(image_bind_groups).values@, events.images@),
                spec_evict(old(image_bind_groups).mask_values@, events.images@),
            );
            &&& batches@ == r.batches
            &&& final(phases)@.len() == old(phases)@.len()
            &&& phase_views(final(phases)@) == r.phases
            &&& unmasked_words_of(*final(sprite_meta)) == r.unmasked
            &&& masked_words_of(*final(sprite_meta)) == r.masked
            &&& final(image_bind_groups).values@ == r.values
            &&& final(image_bind_groups).mask_values@ == r.mask_values
            &&& final(sprite_meta).sprite_index_buffer@ == spec_index_buffer()
            &&& chained(batches_of(r.batches, false), r.unmasked.len() as int)
            &&& chained(batches_of(r.batches, true), r.masked.len() as int)
        }),
{
    evict_image_bind_groups(image_bind_groups, events);
    let ghost values1 = image_bind_groups.values@;
    let ghost mask_values1 = image_bind_groups.mask_values@;
    let ghost all_phases = phase_views(old(phases)@);
    let ghost sprites = extracted_sprites.sprites@;
    let ghost masks = extracted_sprites.masks@;
    let ghost gpu = gpu_images.entries@;

    let mut batches: Vec<(u64, SpriteBatch)> = Vec::new();
    sprite_meta.clear();

    let mut p: usize = 0;
    while p < phases.len()
        invariant
            p <= phases@.len(),
            phases@.len() == old(phases)@.len(),
            all_phases == phase_views(old(phases)@),
            sprites == extracted_sprites.sprites@,
            masks == extracted_sprites.masks@,
            gpu == gpu_images.entries@,
            spec_phases_unbatched(all_phases),
            spec_total_items(all_phases) < 0xFFFF_FFFF,
            forall|q: int| p <= q < phases@.len() ==> (#[trigger] phases@[q])@ == all_phases[q],
            ({
                let r = spec_prepare(
                    sprites,
                    masks,
                    gpu,
                    all_phases.take(p as int),
                    values1,
                    mask_values1,
                );
                &&& r.phases.len() == p
                &&& (forall|q: int| 0 <= q < p ==> (#[trigger] phases@[q])@ == r.phases[q])
                &&& unmasked_words_of(*sprite_meta) == r.unmasked
                &&& masked_words_of(*sprite_meta) == r.masked
                &&& batches@ == r.batches
                &&& image_bind_groups.values@ == r.values
                &&& image_bind_groups.mask_values@ == r.mask_values
                &&& chained(batches_of(batches@, false), r.unmasked.len() as int)
                &&& chained(batches_of(batches@, true), r.masked.len() as int)
                &&& r.unmasked.len() + r.masked.len() <= spec_total_items(
                    all_phases.take(p as int),
                )
            }),
            sprite_meta.sprite_index_buffer@ == Seq::<u32>::empty(),
        decreases phases@.len() - p,
    {
        let mut batch_image: Option<u64> = None;
        let mut batch_image_size: [u32; 2] = [0, 0];
        let mut batch_mask: Option<u64> = None;
        let mut batch_mask_size: [u32; 2] = [0, 0];
        let mut batch_item_index: usize = 0;

        let ghost st0 = spec_abs(
            None,
            [0u32, 0u32],
            None,
            [0u32, 0u32],
            0,
            phases@[p as int]@,
            *sprite_meta,
            batches@,
            *image_bind_groups,
        );
        proof {
            assert(st0.batch_image_size =~= seq![0u32, 0u32]);
            assert(st0.batch_mask_size =~= seq![0u32, 0u32]);
            lemma_total_items_take_step(all_phases, p as int);
            lemma_total_items_prefix_bound(all_phases, p + 1);
        }

        let n = phases[p].len();
        let mut i: usize = 0;
        while i < n
            invariant
                i <= n,
                p < phases@.len(),
                phases@.len() == old(phases)@.len(),
                all_phases == phase_views(old(phases)@),
                sprites == extracted_sprites.sprites@,
                masks == extracted_sprites.masks@,
                gpu == gpu_images.entries@,
                spec_phases_unbatched(all_phases),
                spec_total_items(all_phases) < 0xFFFF_FFFF,
                n == all_phases[p as int].len(),
                st0 == (ScanState {
                    batch_image: None,
                    batch_image_size: seq![0u32, 0u32],
                    batch_mask: None,
                    batch_mask_size: seq![0u32, 0u32],
                    batch_item_index: 0,
                    items: all_phases[p as int],
                    unmasked: spec_prepare(
                        sprites,
                        masks,
                        gpu,
                        all_phases.take(p as int),
                        values1,
                        mask_values1,
                    ).unmasked,
                    masked: spec_prepare(
                        sprites,
                        masks,
                        gpu,
                        all_phases.take(p as int),
                        values1,
                        mask_values1,
                    ).masked,
                    batches: spec_prepare(
                        sprites,
                        masks,
                        gpu,
                        all_phases.take(p as int),
                        values1,
                        mask_values1,
                    ).batches,
                    values: spec_prepare(
                        sprites,
                        masks,
                        gpu,
                        all_phases.take(p as int),
                        values1,
                        mask_values1,
                    ).values,
                    mask_values: spec_prepare(
                        sprites,
                        masks,
                        gpu,
                        all_phases.take(p as int),
                        values1,
                        mask_values1,
                    ).mask_values,
                }),
                st0.unmasked.len() + st0.masked.len() <= spec_total_items(
                    all_phases.take(p as int),
                ),
                spec_total_items(all_phases.take(p as int)) + n <= spec_total_items(all_phases),
                forall|q: int|
                    p < q < phases@.len() ==> (#[trigger] phases@[q])@ == all_phases[q],
                forall|q: int|
                    0 <= q < p ==> (#[trigger] phases@[q])@ == spec_prepare(
                        sprites,
                        masks,
                        gpu,
                        all_phases.take(p as int),
                        values1,
                        mask_values1,
                    ).phases[q],
                spec_prepare(
                    sprites,
                    masks,
                    gpu,
                    all_phases.take(p as int),
                    values1,
                    mask_values1,
                ).phases.len() == p,
                ({
                    let st = spec_scan_items(st0, sprites, masks, gpu, i as int);
                    &&& spec_abs(
                        batch_image,
                        batch_image_size,
                        batch_mask,
                        batch_mask_size,
                        batch_item_index as int,
                        phases@[p as int]@,
                        *sprite_meta,
                        batches@,
                        *image_bind_groups,
                    ) == st
                    &&& scan_inv(st, i as int)
                    &&& st.items.len() == n
                    &&& st.unmasked.len() + st.masked.len() <= spec_total_items(
                        all_phases.take(p as int),
                    ) + i
                }),
                sprite_meta.sprite_index_buffer@ == Seq::<u32>::empty(),
            decreases n - i,
        {
            proof {
                let st = spec_scan_items(st0, sprites, masks, gpu, i as int);
                lemma_scan_step_preserves_inv(st, sprites, masks, gpu, i as int);
            }
            scan_item(
                &mut batch_image,
                &mut batch_image_size,
                &mut batch_mask,
                &mut batch_mask_size,
                &mut batch_item_index,
                sprite_meta,
                image_bind_groups,
                &mut batches,
                &mut phases[p],
                i,
                gpu_images,
                extracted_sprites,
            );
            i = i + 1;
        }

        proof {
            let prev = spec_prepare(
                sprites,
                masks,
                gpu,
                all_phases.take(p as int),
                values1,
                mask_values1,
            );
            let st_end = spec_scan_items(st0, sprites, masks, gpu, n as int);
            assert(all_phases.take(p + 1).drop_last() =~= all_phases.take(p as int));
            assert(all_phases.take(p + 1).last() == all_phases[p as int]);
            let r2 = spec_prepare(
                sprites,
                masks,
                gpu,
                all_phases.take(p + 1),
                values1,
                mask_values1,
            );
            assert(r2.phases == prev.phases.push(st_end.items));
            assert(r2 == PrepareResult {
                phases: prev.phases.push(st_end.items),
                unmasked: st_end.unmasked,
                masked: st_end.masked,
                batches: st_end.batches,
                values: st_end.values,
                mask_values: st_end.mask_values,
            });
        }
        p = p + 1;
    }

    proof {
        assert(all_phases.take(phases@.len() as int) =~= all_phases);
    }

    if sprite_meta.sprite_index_buffer.len() != 6 {
        sprite_meta.sprite_index_buffer.clear();
        sprite_meta.sprite_index_buffer.push(2);
        sprite_meta.sprite_index_buffer.push(0);
        sprite_meta.sprite_index_buffer.push(1);
        sprite_meta.sprite_index_buffer.push(1);
        sprite_meta.sprite_index_buffer.push(3);
        sprite_meta.sprite_index_buffer.push(2);
    }
    proof {
        assert(sprite_meta.sprite_index_buffer@ =~= spec_index_buffer());
        assert(phase_views(phases@) =~= spec_prepare(
            sprites,
            masks,
            gpu,
            all_phases,
            values1,
            mask_values1,
        ).phases);
    }

    batches
}

/// Chained ranges never run backwards and stay within `0 .. end`.
proof fn lemma_chained_bounds(bs: Seq<SpriteBatch>, end: int)
    requires
        chained(bs, end),
    ensures
        0 <= end,
        forall|i: int|
            0 <= i < bs.len() ==> (#[trigger] bs[i]).range_start <= bs[i].range_end <= end,
    decreases bs.len(),
{
    if bs.len() > 0 {
        lemma_chained_bounds(bs.drop_last(), bs.last().range_start as int);
        assert(forall|i: int| 0 <= i < bs.len() - 1 ==> bs[i] == bs.drop_last()[i]);
    }
}

/// For all batch descriptors of one buffer produced in one pass: the ranges
/// are pairwise non-overlapping — every earlier batch ends at or before a
/// later one starts.
pub proof fn lemma_chained_disjoint(bs: Seq<SpriteBatch>, end: int)
    requires
        chained(bs, end),
    ensures
        forall|i: int, j: int|
            #![trigger bs[i], bs[j]]
            0 <= i < j < bs.len() ==> bs[i].range_end <= bs[j].range_start,
    decreases bs.len(),
{
    if bs.len() > 0 {
        lemma_chained_disjoint(bs.drop_last(), bs.last().range_start as int);
        lemma_chained_bounds(bs.drop_last(), bs.last().range_start as int);
        assert(forall|i: int| 0 <= i < bs.len() - 1 ==> bs[i] == bs.drop_last()[i]);
    }
}

/// Whether some batch's range holds instance `k`.
pub open spec fn covered_by(bs: Seq<SpriteBatch>, k: int) -> bool {
    exists|i: int| 0 <= i < bs.len() && (#[trigger] bs[i]).range_start <= k < bs[i].range_end
}

/// For all batch descriptors of one buffer produced in one pass: together
/// the ranges cover every packed instance below `end` — with
/// [`lemma_chained_disjoint`], exactly once.
pub proof fn lemma_chained_covers(bs: Seq<SpriteBatch>, end: int)
    requires
        chained(bs, end),
    ensures
        forall|k: int| 0 <= k < end ==> #[trigger] covered_by(bs, k),
    decreases bs.len(),
{
    if bs.len() > 0 {
        lemma_chained_covers(bs.drop_last(), bs.last().range_start as int);
        assert(forall|i: int| 0 <= i < bs.len() - 1 ==> bs[i] == bs.drop_last()[i]);
        assert forall|k: int| 0 <= k < end implies #[trigger] covered_by(bs, k) by {
            if k < bs.last().range_start {
                assert(covered_by(bs.drop_last(), k));
                let i = choose|i: int|
                    0 <= i < bs.drop_last().len() && (#[trigger] bs.drop_last()[i]).range_start
                        <= k < bs.drop_last()[i].range_end;
                assert(bs[i].range_start <= k < bs[i].range_end);
            } else {
                let i = bs.len() - 1;
                assert(bs[i].range_start <= k < bs[i].range_end);
            }
        }
    }
}

/// Re-running the whole pass on an unchanged frame snapshot yields
/// identical output — the batch descriptors, the filled-in phase ranges and
/// the instance buffers, word for word and hence byte for byte: the pass is
/// a function of the frame snapshot alone.
pub proof fn lemma_prepare_deterministic(
    sprites1: Seq<(u64, ExtractedSprite)>,
    masks1: Seq<(u64, ExtractedSpriteMask)>,
    gpu1: Seq<(u64, [u32; 2])>,
    phases1: Seq<Seq<Transparent2dItem>>,
    values1: Seq<u64>,
    mask_values1: Seq<u64>,
    sprites2: Seq<(u64, ExtractedSprite)>,
    masks2: Seq<(u64, ExtractedSpriteMask)>,
    gpu2: Seq<(u64, [u32; 2])>,
    phases2: Seq<Seq<Transparent2dItem>>,
    values2: Seq<u64>,
    mask_values2: Seq<u64>,
)
    requires
        sprites1 == sprites2,
        masks1 == masks2,
        gpu1 == gpu2,
        phases1 == phases2,
        values1 == values2,
        mask_values1 == mask_values2,
    ensures
        spec_prepare(sprites1, masks1, gpu1, phases1, values1, mask_values1) == spec_prepare(
            sprites2,
            masks2,
            gpu2,
            phases2,
            values2,
            mask_values2,
        ),
{
}

} // verus!
