use vstd::prelude::*;

use fixedbitset::FixedBitSet;

use crate::extract::{ExtractedSprite, ExtractedSprites, ExtractedSpriteMask};
use crate::masking::{find_applicable_mask, spec_resolve_mask};
use crate::pipeline_key::{
    spec_view_key, view_key, DebandDither, SpritePipelineKey, Tonemapping, KEY_MASK_ENABLED,
};

verus! {

/// One entry of a view's transparent draw phase: the entity it draws, the
/// specialized pipeline variant it needs, its depth sort key, and the batch
/// range filled in during batch preparation.
#[derive(Clone, Copy, Debug)]
pub struct Transparent2dItem {
    /// Stable identity of the entity this entry draws.
    pub entity: u64,
    /// The pipeline variant the entry is drawn with: the view key, with the
    /// mask flag set when a mask applies to the sprite.
    pub pipeline_key: SpritePipelineKey,
    /// Depth sort key: the single-precision bit pattern of the world
    /// transform's Z translation. The host's render-phase sorting facility
    /// orders entries by ascending key.
    pub sort_key: u32,
    /// First instance of the batch this entry anchors (filled in during
    /// batch preparation).
    pub batch_range_start: u32,
    /// One past the last instance of the batch this entry anchors.
    pub batch_range_end: u32,
}

/// The index half of an entity identity: its low 32 bits.
pub open spec fn spec_entity_index(entity: u64) -> u64 {
    entity & 0xFFFF_FFFF
}

/// Extracts the index half of an entity identity.
pub fn entity_index(entity: u64) -> (r: u64)
    ensures
        r == spec_entity_index(entity),
        r <= 0xFFFF_FFFF,
{
    proof {
        assert(entity & 0xFFFF_FFFFu64 <= 0xFFFF_FFFFu64) by (bit_vector);
    }
    entity & 0xFFFF_FFFF
}

#[verifier::external_type_specification]
#[verifier::external_body]
pub struct ExFixedBitSet(FixedBitSet);

/// The set of bit positions enabled in a `fixedbitset::FixedBitSet`.
pub uninterp spec fn bitset_view(b: FixedBitSet) -> Set<int>;

/// Relies on `fixedbitset::FixedBitSet::new`: a new bit set has no bit
/// enabled.
#[verifier::external_body]
fn bitset_new() -> (r: FixedBitSet)
    ensures
        bitset_view(r) == Set::<int>::empty(),
{
    FixedBitSet::new()
}

/// Relies on `fixedbitset::FixedBitSet::grow_and_insert`: grows the set to
/// hold the bit, then enables it; other bits are unchanged. The method grows
/// to `bit + 1`, so the bit must be below `usize::MAX`.
#[verifier::external_body]
fn bitset_insert(b: &mut FixedBitSet, bit: usize)
    requires
        bit < usize::MAX,
    ensures
        bitset_view(*final(b)) == bitset_view(*old(b)).insert(bit as int),
{
    b.grow_and_insert(bit);
}

/// Relies on `fixedbitset::FixedBitSet::contains`: whether the bit is
/// enabled; bits beyond the capacity are reported disabled.
#[verifier::external_body]
fn bitset_contains(b: &FixedBitSet, bit: usize) -> (r: bool)
    ensures
        r == bitset_view(*b).contains(bit as int),
{
    b.contains(bit)
}

/// The set of entity indices of a visible-entity list.
pub open spec fn spec_visible_index_set(visible: Seq<u64>) -> Set<int>
    decreases visible.len(),
{
    if visible.len() == 0 {
        Set::empty()
    } else {
        spec_visible_index_set(visible.drop_last()).insert(
            spec_entity_index(visible.last()) as int,
        )
    }
}

/// The draw-phase entries queueing appends for a view: one entry per
/// extracted sprite whose governing entity is in the view's visible set, in
/// extraction order, each carrying the view key — with the mask flag set
/// exactly when some mask's range covers the sprite's order — and the Z
/// translation word as sort key, with an empty batch range.
pub open spec fn spec_queue_sprites(
    sprites: Seq<(u64, ExtractedSprite)>,
    masks: Seq<(u64, ExtractedSpriteMask)>,
    visible: Set<int>,
    view_key_bits: u32,
) -> Seq<Transparent2dItem>
    decreases sprites.len(),
{
    if sprites.len() == 0 {
        Seq::empty()
    } else {
        let rest = spec_queue_sprites(sprites.drop_last(), masks, visible, view_key_bits);
        let entity = sprites.last().0;
        let sprite = sprites.last().1;
        let governing = match sprite.original_entity {
            Some(e) => e,
            None => entity,
        };
        if visible.contains(spec_entity_index(governing) as int) {
            rest.push(
                Transparent2dItem {
                    entity,
                    pipeline_key: SpritePipelineKey {
                        bits: if spec_resolve_mask(masks, sprite.order) is Some {
                            view_key_bits | KEY_MASK_ENABLED
                        } else {
                            view_key_bits
                        },
                    },
                    sort_key: sprite.transform.tra[2],
                    batch_range_start: 0,
                    batch_range_end: 0,
                },
            )
        } else {
            rest
        }
    }
}

/// Queues one view's sprites into its transparent draw phase.
///
/// Builds the view's pipeline key from its HDR, MSAA, tonemapping and
/// dither settings, restricts the visible-entity list to a bitset of entity
/// indices, and appends one phase entry per extracted sprite whose governing
/// entity is visible: the masked pipeline variant is selected exactly when
/// some mask's range covers the sprite's order value, the sort key is the Z
/// word of the sprite's world transform, and the batch range starts empty.
/// The entries are appended in extraction order; the host sorts the phase by
/// ascending sort key afterwards.
///
/// Visible entity indices must lie below `usize::MAX`, a machine limit of
/// the underlying bit set.
pub fn queue_sprites(
    transparent_phase: &mut Vec<Transparent2dItem>,
    extracted_sprites: &ExtractedSprites,
    visible_entities: &Vec<u64>,
    hdr: bool,
    msaa_samples: u32,
    tonemapping: Option<Tonemapping>,
    dither: Option<DebandDither>,
)
    requires
        forall|i: int|
            0 <= i < visible_entities@.len() ==> spec_entity_index(
                #[trigger] visible_entities@[i],
            ) < usize::MAX,
    ensures
        final(transparent_phase)@ == old(transparent_phase)@ + spec_queue_sprites(
            extracted_sprites.sprites@,
            extracted_sprites.masks@,
            spec_visible_index_set(visible_entities@),
            spec_view_key(hdr, msaa_samples, tonemapping, dither),
        ),
{
    let key = view_key(hdr, msaa_samples, tonemapping, dither);

    let mut view_entities = bitset_new();
    let mut j: usize = 0;
    while j < visible_entities.len()
        invariant
            j <= visible_entities@.len(),
            bitset_view(view_entities) == spec_visible_index_set(visible_entities@.take(j as int)),
            forall|i: int|
                0 <= i < visible_entities@.len() ==> spec_entity_index(
                    #[trigger] visible_entities@[i],
                ) < usize::MAX,
        decreases visible_entities@.len() - j,
    {
        let index = entity_index(visible_entities[j]);
        bitset_insert(&mut view_entities, index as usize);
        proof {
            assert(visible_entities@.take(j + 1).drop_last() =~= visible_entities@.take(j as int));
        }
        j = j + 1;
    }
    proof {
        assert(visible_entities@.take(visible_entities@.len() as int) =~= visible_entities@);
    }

    let ghost visible = spec_visible_index_set(visible_entities@);
    let mut i: usize = 0;
    while i < extracted_sprites.sprites.len()
        invariant
            i <= extracted_sprites.sprites@.len(),
            bitset_view(view_entities) == visible,
            key.bits == spec_view_key(hdr, msaa_samples, tonemapping, dither),
            transparent_phase@ == old(transparent_phase)@ + spec_queue_sprites(
                extracted_sprites.sprites@.take(i as int),
                extracted_sprites.masks@,
                visible,
                key.bits,
            ),
        decreases extracted_sprites.sprites@.len() - i,
    {
        let entity = extracted_sprites.sprites[i].0;
        let sprite = &extracted_sprites.sprites[i].1;
        let governing = match sprite.original_entity {
            Some(e) => e,
            None => entity,
        };
        let index = entity_index(governing);
        if bitset_contains(&view_entities, index as usize) {
            let enable_mask = match find_applicable_mask(&extracted_sprites.masks, sprite.order) {
                Some(_) => true,
                None => false,
            };
            let item = Transparent2dItem {
                entity,
                pipeline_key: SpritePipelineKey {
                    bits: if enable_mask {
                        key.bits | KEY_MASK_ENABLED
                    } else {
                        key.bits
                    },
                },
                sort_key: sprite.transform.tra[2],
                batch_range_start: 0,
                batch_range_end: 0,
            };
            transparent_phase.push(item);
        }
        proof {
            assert(extracted_sprites.sprites@.take(i + 1).drop_last()
                =~= extracted_sprites.sprites@.take(i as int));
        }
        i = i + 1;
    }
    proof {
        assert(extracted_sprites.sprites@.take(extracted_sprites.sprites@.len() as int)
            =~= extracted_sprites.sprites@);
    }
}

} // verus!
