use sprite_ex::extract::ExtractedSpriteMask;
use sprite_ex::geometry::Affine;
use sprite_ex::masking::find_applicable_mask;

fn bits(x: f32) -> u32 {
    x.to_bits()
}

fn identity_affine() -> Affine {
    Affine {
        mat: [
            bits(1.0),
            0,
            0,
            0,
            bits(1.0),
            0,
            0,
            0,
            bits(1.0),
        ],
        tra: [0, 0, 0],
    }
}

fn mask(image: u64, range_start: u32, range_end: u32) -> (u64, ExtractedSpriteMask) {
    (
        image + 1000,
        ExtractedSpriteMask {
            transform: identity_affine(),
            rect: None,
            custom_size: None,
            image_handle_id: image,
            flip_x: false,
            flip_y: false,
            anchor: [0, 0],
            range_start,
            range_end,
        },
    )
}

#[test]
fn test_resolved_mask_covers_order() {
    let masks = vec![mask(1, 3, 7)];
    assert_eq!(find_applicable_mask(&masks, 3), Some(0));
    assert_eq!(find_applicable_mask(&masks, 5), Some(0));
    assert_eq!(find_applicable_mask(&masks, 7), Some(0));
    assert_eq!(find_applicable_mask(&masks, 2), None);
    assert_eq!(find_applicable_mask(&masks, 8), None);
}

#[test]
fn test_overlapping_masks_select_exactly_the_first() {
    let masks = vec![mask(1, 0, 5), mask(2, 3, 8)];
    // both cover order 4; the first in iteration order wins — never zero,
    // never two
    assert_eq!(find_applicable_mask(&masks, 4), Some(0));
    // only the second covers order 7
    assert_eq!(find_applicable_mask(&masks, 7), Some(1));
}

#[test]
fn test_selection_stability_under_fixed_iteration_order() {
    // five masks with ranges [1,5], [2,5], [3,5], [4,5], [5,5]: a sprite of
    // order k is masked by the first mask in iteration order covering k
    let masks = vec![
        mask(1, 1, 5),
        mask(2, 2, 5),
        mask(3, 3, 5),
        mask(4, 4, 5),
        mask(5, 5, 5),
    ];
    for k in 1..=5u32 {
        assert_eq!(find_applicable_mask(&masks, k), Some(0));
    }

    let reversed = vec![
        mask(5, 5, 5),
        mask(4, 4, 5),
        mask(3, 3, 5),
        mask(2, 2, 5),
        mask(1, 1, 5),
    ];
    assert_eq!(find_applicable_mask(&reversed, 1), Some(4));
    assert_eq!(find_applicable_mask(&reversed, 2), Some(3));
    assert_eq!(find_applicable_mask(&reversed, 3), Some(2));
    assert_eq!(find_applicable_mask(&reversed, 4), Some(1));
    assert_eq!(find_applicable_mask(&reversed, 5), Some(0));
}

#[test]
fn test_no_mask_resolved_when_none_covers() {
    let masks = vec![mask(1, 0, 3), mask(2, 10, 12)];
    assert_eq!(find_applicable_mask(&masks, 5), None);
}
