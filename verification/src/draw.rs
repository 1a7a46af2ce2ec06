use vstd::prelude::*;

use crate::batching::{ImageBindGroups, SpriteBatch};

verus! {

/// The outcome one render-command step reports to the framework.
#[derive(Clone, Copy, Debug, PartialEq, Eq, Structural)]
pub enum RenderCommandResult {
    /// The step ran; the draw continues with the next step.
    Success,
    /// The step failed; the framework aborts this item's draw without
    /// crashing the frame.
    Failure,
}

/// One operation a render-command step asks the pass to perform.
#[derive(Clone, Copy, Debug, PartialEq, Eq, Structural)]
pub enum DrawStep {
    /// Bind the view uniform bind group at a slot, with a dynamic offset.
    SetViewBindGroup(u32, u32),
    /// Bind an image's texture bind group at a slot.
    SetTextureBindGroup(u32, u64),
    /// Bind a mask image's texture bind group at a slot.
    SetMaskTextureBindGroup(u32, u64),
    /// Draw six quad indices over an instance range of one buffer: whether
    /// the masked buffer is bound, then the range's start and end.
    DrawIndexed(bool, u32, u32),
}

/// The view bind-group step: binds the view uniforms at the slot with the
/// view's dynamic offset; it never fails.
pub fn set_sprite_view_bind_group(slot: u32, view_uniform_offset: u32) -> (r: (
    RenderCommandResult,
    Option<DrawStep>,
))
    ensures
        r.0 == RenderCommandResult::Success,
        r.1 == Some(DrawStep::SetViewBindGroup(slot, view_uniform_offset)),
{
    (RenderCommandResult::Success, Some(DrawStep::SetViewBindGroup(slot, view_uniform_offset)))
}

/// The sprite-texture step: binds the batch's image at the slot. An item
/// without a batch descriptor is a hard per-draw failure (the draw is
/// aborted, the frame goes on), and so — rather than a crash — is a batch
/// whose image lost its cached binding.
#[verifier::loop_isolation(false)]
pub fn set_sprite_texture_bind_group(
    slot: u32,
    batch: Option<&SpriteBatch>,
    image_bind_groups: &ImageBindGroups,
) -> (r: (RenderCommandResult, Option<DrawStep>))
    ensures
        match batch {
            None => r == (RenderCommandResult::Failure, None::<DrawStep>),
            Some(b) => if image_bind_groups.values@.contains(b.image_handle_id) {
                r == (
                    RenderCommandResult::Success,
                    Some(DrawStep::SetTextureBindGroup(slot, b.image_handle_id)),
                )
            } else {
                r == (RenderCommandResult::Failure, None::<DrawStep>)
            },
        },
{
    match batch {
        None => (RenderCommandResult::Failure, None),
        Some(b) => {
            let mut i: usize = 0;
            while i < image_bind_groups.values.len()
                invariant
                    i <= image_bind_groups.values@.len(),
                    forall|j: int|
                        0 <= j < i ==> image_bind_groups.values@[j] != b.image_handle_id,
                decreases image_bind_groups.values@.len() - i,
            {
                if image_bind_groups.values[i] == b.image_handle_id {
                    proof {
                        assert(image_bind_groups.values@[i as int] == b.image_handle_id);
                        assert(image_bind_groups.values@.contains(b.image_handle_id));
                    }
                    return (
                        RenderCommandResult::Success,
                        Some(DrawStep::SetTextureBindGroup(slot, b.image_handle_id)),
                    );
                }
                i = i + 1;
            }
            proof {
                assert(!image_bind_groups.values@.contains(b.image_handle_id));
            }
            (RenderCommandResult::Failure, None)
        },
    }
}

/// The mask-texture step: binds the batch's mask image at the slot when the
/// batch is masked, and binds nothing for an unmasked batch. An item
/// without a batch descriptor, or a masked batch whose mask image lost its
/// cached binding, is a hard per-draw failure rather than a crash.
#[verifier::loop_isolation(false)]
pub fn set_sprite_mask_texture_bind_group(
    slot: u32,
    batch: Option<&SpriteBatch>,
    image_bind_groups: &ImageBindGroups,
) -> (r: (RenderCommandResult, Option<DrawStep>))
    ensures
        match batch {
            None => r == (RenderCommandResult::Failure, None::<DrawStep>),
            Some(b) => match b.mask_image_handle_id {
                None => r == (RenderCommandResult::Success, None::<DrawStep>),
                Some(mask_id) => if image_bind_groups.mask_values@.contains(mask_id) {
                    r == (
                        RenderCommandResult::Success,
                        Some(DrawStep::SetMaskTextureBindGroup(slot, mask_id)),
                    )
                } else {
                    r == (RenderCommandResult::Failure, None::<DrawStep>)
                },
            },
        },
{
    match batch {
        None => (RenderCommandResult::Failure, None),
        Some(b) => match b.mask_image_handle_id {
            None => (RenderCommandResult::Success, None),
            Some(mask_id) => {
                let mut i: usize = 0;
                while i < image_bind_groups.mask_values.len()
                    invariant
                        i <= image_bind_groups.mask_values@.len(),
                        forall|j: int| 0 <= j < i ==> image_bind_groups.mask_values@[j] != mask_id,
                    decreases image_bind_groups.mask_values@.len() - i,
                {
                    if image_bind_groups.mask_values[i] == mask_id {
                        proof {
                            assert(image_bind_groups.mask_values@[i as int] == mask_id);
                            assert(image_bind_groups.mask_values@.contains(mask_id));
                        }
                        return (
                            RenderCommandResult::Success,
                            Some(DrawStep::SetMaskTextureBindGroup(slot, mask_id)),
                        );
                    }
                    i = i + 1;
                }
                proof {
                    assert(!image_bind_groups.mask_values@.contains(mask_id));
                }
                (RenderCommandResult::Failure, None)
            },
        },
    }
}

/// The draw step: draws the six quad indices once per instance of the
/// batch's range, from the masked buffer exactly when the batch is masked.
/// An item without a batch descriptor is a hard per-draw failure.
pub fn draw_sprite_batch(batch: Option<&SpriteBatch>) -> (r: (
    RenderCommandResult,
    Option<DrawStep>,
))
    ensures
        match batch {
            None => r == (RenderCommandResult::Failure, None::<DrawStep>),
            Some(b) => r == (
                RenderCommandResult::Success,
                Some(
                    DrawStep::DrawIndexed(
                        b.mask_image_handle_id is Some,
                        b.range_start,
                        b.range_end,
                    ),
                ),
            ),
        },
{
    match batch {
        None => (RenderCommandResult::Failure, None),
        Some(b) => {
            let masked = match b.mask_image_handle_id {
                Some(_) => true,
                None => false,
            };
            (
                RenderCommandResult::Success,
                Some(DrawStep::DrawIndexed(masked, b.range_start, b.range_end)),
            )
        },
    }
}

/// The outcome and emitted operations of the full draw sequence for one
/// phase item: the view bind group always binds first; without a batch
/// descriptor the draw then aborts; with one, the sprite texture binds if
/// it is cached (else the draw aborts), the mask texture binds for a masked
/// batch if it is cached (else the draw aborts; an unmasked batch binds no
/// mask), and finally the six quad indices are drawn over the batch's
/// instance range, from the masked buffer exactly when the batch is masked.
pub open spec fn spec_draw_sprite(
    batch: Option<SpriteBatch>,
    values: Seq<u64>,
    mask_values: Seq<u64>,
    view_uniform_offset: u32,
) -> (RenderCommandResult, Seq<DrawStep>) {
    let view = DrawStep::SetViewBindGroup(0, view_uniform_offset);
    match batch {
        None => (RenderCommandResult::Failure, seq![view]),
        Some(b) => {
            let tex = DrawStep::SetTextureBindGroup(1, b.image_handle_id);
            let draw = DrawStep::DrawIndexed(
                b.mask_image_handle_id is Some,
                b.range_start,
                b.range_end,
            );
            if !values.contains(b.image_handle_id) {
                (RenderCommandResult::Failure, seq![view])
            } else {
                match b.mask_image_handle_id {
                    None => (RenderCommandResult::Success, seq![view, tex, draw]),
                    Some(mask_id) => if mask_values.contains(mask_id) {
                        (
                            RenderCommandResult::Success,
                            seq![view, tex, DrawStep::SetMaskTextureBindGroup(2, mask_id), draw],
                        )
                    } else {
                        (RenderCommandResult::Failure, seq![view, tex])
                    },
                }
            }
        },
    }
}

/// The full draw function for one phase item: the fixed sequence of steps —
/// view bind group, sprite texture, mask texture, indexed draw — stopping
/// at the first failure, as the framework does. Returns the steps actually
/// emitted and the overall outcome, exactly as [`spec_draw_sprite`] lays
/// them out.
pub fn draw_sprite(
    batch: Option<&SpriteBatch>,
    image_bind_groups: &ImageBindGroups,
    view_uniform_offset: u32,
) -> (r: (RenderCommandResult, Vec<DrawStep>))
    ensures
        ({
            let expected = spec_draw_sprite(
                match batch {
                    None => None,
                    Some(b) => Some(*b),
                },
                image_bind_groups.values@,
                image_bind_groups.mask_values@,
                view_uniform_offset,
            );
            r.0 == expected.0 && r.1@ == expected.1
        }),
{
    let mut steps: Vec<DrawStep> = Vec::new();

    let (result, step) = set_sprite_view_bind_group(0, view_uniform_offset);
    match step {
        Some(s) => steps.push(s),
        None => {},
    }
    match result {
        RenderCommandResult::Failure => {
            return (RenderCommandResult::Failure, steps);
        },
        RenderCommandResult::Success => {},
    }

    let (result, step) = set_sprite_texture_bind_group(1, batch, image_bind_groups);
    match step {
        Some(s) => steps.push(s),
        None => {},
    }
    match result {
        RenderCommandResult::Failure => {
            proof {
                let expected = spec_draw_sprite(
                    match batch {
                        None => None,
                        Some(b) => Some(*b),
                    },
                    image_bind_groups.values@,
                    image_bind_groups.mask_values@,
                    view_uniform_offset,
                );
                assert(steps@ =~= expected.1);
            }
            return (RenderCommandResult::Failure, steps);
        },
        RenderCommandResult::Success => {},
    }

    let (result, step) = set_sprite_mask_texture_bind_group(2, batch, image_bind_groups);
    match step {
        Some(s) => steps.push(s),
        None => {},
    }
    match result {
        RenderCommandResult::Failure => {
            proof {
                let expected = spec_draw_sprite(
                    match batch {
                        None => None,
                        Some(b) => Some(*b),
                    },
                    image_bind_groups.values@,
                    image_bind_groups.mask_values@,
                    view_uniform_offset,
                );
                assert(steps@ =~= expected.1);
            }
            return (RenderCommandResult::Failure, steps);
        },
        RenderCommandResult::Success => {},
    }

    let (result, step) = draw_sprite_batch(batch);
    match step {
        Some(s) => steps.push(s),
        None => {},
    }
    proof {
        let expected = spec_draw_sprite(
            match batch {
                None => None,
                Some(b) => Some(*b),
            },
            image_bind_groups.values@,
            image_bind_groups.mask_values@,
            view_uniform_offset,
        );
        assert(steps@ =~= expected.1);
    }
    (result, steps)
}

} // verus!
