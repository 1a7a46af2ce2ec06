use vstd::prelude::*;

use crate::extract::ExtractedSpriteMask;

verus! {

/// Whether a mask's inclusive range `[range_start, range_end]` covers a
/// sprite's order value.
pub open spec fn mask_covers(mask: ExtractedSpriteMask, order: u32) -> bool {
    mask.range_start <= order <= mask.range_end
}

/// The mask resolved for a sprite of the given order: the index of the
/// first entry, in iteration order, whose range covers the order — or
/// nothing when no entry covers it.
///
/// When several masks' ranges overlap for one order value, only this first
/// match is ever applied; the others are ignored. This is a known, preserved
/// limitation: at most one mask applies to a sprite, first match wins, and
/// the iteration order is the insertion order of the extracted mask list.
pub open spec fn spec_resolve_mask(
    masks: Seq<(u64, ExtractedSpriteMask)>,
    order: u32,
) -> Option<int>
    decreases masks.len(),
{
    if masks.len() == 0 {
        None
    } else if mask_covers(masks[0].1, order) {
        Some(0int)
    } else {
        match spec_resolve_mask(masks.drop_first(), order) {
            Some(i) => Some(i + 1),
            None => None,
        }
    }
}

/// For every order value and mask set: the resolved mask, if any, covers
/// the order (`range_start <= order <= range_end`), and every mask before it
/// in iteration order does not; if no mask is resolved, no mask in the set
/// covers the order, and the sprite renders unmasked.
pub proof fn lemma_resolved_mask_covers(masks: Seq<(u64, ExtractedSpriteMask)>, order: u32)
    ensures
        match spec_resolve_mask(masks, order) {
            Some(i) => 0 <= i < masks.len() && mask_covers(masks[i].1, order) && (forall|j: int|
                0 <= j < i ==> !mask_covers(masks[j].1, order)),
            None => forall|j: int| 0 <= j < masks.len() ==> !mask_covers(masks[j].1, order),
        },
    decreases masks.len(),
{
    if masks.len() == 0 {
    } else if mask_covers(masks[0].1, order) {
    } else {
        lemma_resolved_mask_covers(masks.drop_first(), order);
        assert(forall|j: int|
            0 <= j < masks.drop_first().len() ==> masks.drop_first()[j] == masks[j + 1]);
        match spec_resolve_mask(masks.drop_first(), order) {
            Some(i) => {
                assert(forall|j: int|
                    1 <= j < i + 1 ==> !mask_covers(#[trigger] masks[j].1, order)) by {
                    assert(forall|j: int|
                        1 <= j < i + 1 ==> masks[j] == masks.drop_first()[j - 1]);
                }
            },
            None => {
                assert(forall|j: int|
                    1 <= j < masks.len() ==> !mask_covers(#[trigger] masks[j].1, order)) by {
                    assert(forall|j: int|
                        1 <= j < masks.len() ==> masks[j] == masks.drop_first()[j - 1]);
                }
            },
        }
    }
}

/// When two masks with overlapping ranges both cover an order value, exactly
/// one mask is resolved — never zero, never two: the result is the single
/// first covering index in iteration order.
pub proof fn lemma_overlap_resolves_exactly_one(
    masks: Seq<(u64, ExtractedSpriteMask)>,
    order: u32,
    i: int,
    j: int,
)
    requires
        0 <= i < masks.len(),
        0 <= j < masks.len(),
        i != j,
        mask_covers(masks[i].1, order),
        mask_covers(masks[j].1, order),
    ensures
        spec_resolve_mask(masks, order) matches Some(k) && 0 <= k < masks.len() && mask_covers(
            masks[k].1,
            order,
        ) && (forall|m: int| 0 <= m < k ==> !mask_covers(masks[m].1, order)),
{
    lemma_resolved_mask_covers(masks, order);
    if spec_resolve_mask(masks, order) is None {
        assert(!mask_covers(masks[i].1, order));
    }
}

/// Finds the mask that applies to a sprite of the given order: the first
/// entry in iteration order whose range covers the order.
pub fn find_applicable_mask(masks: &Vec<(u64, ExtractedSpriteMask)>, order: u32) -> (r: Option<
    usize,
>)
    ensures
        match r {
            Some(i) => i < masks@.len() && spec_resolve_mask(masks@, order) == Some(i as int),
            None => spec_resolve_mask(masks@, order) is None,
        },
{
    let mut i: usize = 0;
    while i < masks.len()
        invariant
            i <= masks@.len(),
            forall|j: int| 0 <= j < i ==> !mask_covers(masks@[j].1, order),
        decreases masks@.len() - i,
    {
        let mask = &masks[i].1;
        if mask.range_start <= order && order <= mask.range_end {
            proof {
                lemma_resolved_mask_covers(masks@, order);
                match spec_resolve_mask(masks@, order) {
                    Some(k) => {
                        if k < i {
                            assert(mask_covers(masks@[k].1, order));
                        }
                        if k > i {
                            assert(!mask_covers(masks@[i as int].1, order));
                        }
                    },
                    None => {
                        assert(!mask_covers(masks@[i as int].1, order));
                    },
                }
            }
            return Some(i);
        }
        i = i + 1;
    }
    proof {
        lemma_resolved_mask_covers(masks@, order);
        match spec_resolve_mask(masks@, order) {
            Some(k) => {
                assert(mask_covers(masks@[k].1, order));
            },
            None => {},
        }
    }
    None
}

} // verus!
