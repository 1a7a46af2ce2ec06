use sprite_ex::batching::{ImageBindGroups, SpriteBatch};
use sprite_ex::draw::{
    draw_sprite, draw_sprite_batch, set_sprite_mask_texture_bind_group,
    set_sprite_texture_bind_group, DrawStep, RenderCommandResult,
};
use sprite_ex::pipeline_key::{
    view_key, DebandDither, SpritePipelineKey, Tonemapping, KEY_DEBAND_DITHER, KEY_HDR,
    KEY_MASK_ENABLED, KEY_TONEMAP_IN_SHADER, KEY_TONEMAP_METHOD_AGX,
};
use sprite_ex::specialize::{specialize, ShaderDef, VertexFormat};

#[test]
fn test_msaa_key_round_trip() {
    for samples in [1u32, 2, 4, 8, 128] {
        let key = SpritePipelineKey::from_msaa_samples(samples);
        assert_eq!(key.msaa_samples(), samples);
    }
}

#[test]
fn test_from_hdr() {
    assert_eq!(SpritePipelineKey::from_hdr(true).bits, KEY_HDR);
    assert_eq!(SpritePipelineKey::from_hdr(false).bits, 0);
}

#[test]
fn test_mask_flag_value() {
    assert_eq!(KEY_MASK_ENABLED, 1 << 24);
}

#[test]
fn test_view_key_composition() {
    let key = view_key(
        false,
        4,
        Some(Tonemapping::AgX),
        Some(DebandDither::Enabled),
    );
    let msaa = SpritePipelineKey::from_msaa_samples(4).bits;
    assert_eq!(
        key.bits,
        msaa | KEY_TONEMAP_IN_SHADER | KEY_TONEMAP_METHOD_AGX | KEY_DEBAND_DITHER
    );

    // on an HDR view, tonemapping and dither are left to the target
    let hdr_key = view_key(true, 4, Some(Tonemapping::AgX), Some(DebandDither::Enabled));
    assert_eq!(hdr_key.bits, KEY_HDR | msaa);
}

#[test]
fn test_specialize_unmasked_layout() {
    let desc = specialize(SpritePipelineKey { bits: 0 });
    assert_eq!(desc.vertex_layout.array_stride, 96);
    assert_eq!(desc.vertex_layout.attributes.len(), 7);
    assert!(desc.shader_defs.is_empty());
    assert!(!desc.mask_layout);
    assert_eq!(desc.sample_count, 1);
    let offsets: Vec<u64> = desc
        .vertex_layout
        .attributes
        .iter()
        .map(|a| a.offset)
        .collect();
    assert_eq!(offsets, vec![0, 16, 32, 48, 64, 80, 84]);
    assert_eq!(desc.vertex_layout.attributes[5].format, VertexFormat::Sint32);
    assert_eq!(
        desc.vertex_layout.attributes[6].format,
        VertexFormat::Sint32x3
    );
}

#[test]
fn test_specialize_masked_layout() {
    let desc = specialize(SpritePipelineKey {
        bits: KEY_MASK_ENABLED,
    });
    assert_eq!(desc.vertex_layout.array_stride, 160);
    assert_eq!(desc.vertex_layout.attributes.len(), 11);
    assert_eq!(desc.shader_defs, vec![ShaderDef::Mask]);
    assert!(desc.mask_layout);
    let offsets: Vec<u64> = desc
        .vertex_layout
        .attributes
        .iter()
        .map(|a| a.offset)
        .collect();
    assert_eq!(
        offsets,
        vec![0, 16, 32, 48, 64, 80, 84, 96, 112, 128, 144]
    );
    let locations: Vec<u32> = desc
        .vertex_layout
        .attributes
        .iter()
        .map(|a| a.shader_location)
        .collect();
    assert_eq!(locations, vec![0, 1, 2, 3, 4, 5, 6, 7, 8, 9, 10]);
}

#[test]
fn test_specialize_tonemap_defs() {
    let desc = specialize(SpritePipelineKey {
        bits: KEY_TONEMAP_IN_SHADER | KEY_TONEMAP_METHOD_AGX | KEY_DEBAND_DITHER,
    });
    assert_eq!(
        desc.shader_defs,
        vec![
            ShaderDef::TonemapInShader,
            ShaderDef::TonemappingLutTextureBindingIndex(1),
            ShaderDef::TonemappingLutSamplerBindingIndex(2),
            ShaderDef::TonemapMethodAgx,
            ShaderDef::DebandDither,
        ]
    );
}

fn batch(image: u64, mask: Option<u64>, start: u32, end: u32) -> SpriteBatch {
    SpriteBatch {
        image_handle_id: image,
        range_start: start,
        range_end: end,
        mask_image_handle_id: mask,
    }
}

#[test]
fn test_draw_without_batch_fails() {
    let groups = ImageBindGroups::new();
    let (result, _) = draw_sprite(None, &groups, 0);
    assert_eq!(result, RenderCommandResult::Failure);
    let (result, step) = draw_sprite_batch(None);
    assert_eq!(result, RenderCommandResult::Failure);
    assert_eq!(step, None);
}

#[test]
fn test_draw_masked_batch_steps() {
    let mut groups = ImageBindGroups::new();
    groups.values.push(10);
    groups.mask_values.push(20);
    let b = batch(10, Some(20), 2, 5);
    let (result, steps) = draw_sprite(Some(&b), &groups, 7);
    assert_eq!(result, RenderCommandResult::Success);
    assert_eq!(
        steps,
        vec![
            DrawStep::SetViewBindGroup(0, 7),
            DrawStep::SetTextureBindGroup(1, 10),
            DrawStep::SetMaskTextureBindGroup(2, 20),
            DrawStep::DrawIndexed(true, 2, 5),
        ]
    );
}

#[test]
fn test_draw_unmasked_batch_binds_no_mask() {
    let mut groups = ImageBindGroups::new();
    groups.values.push(10);
    let b = batch(10, None, 0, 3);
    let (result, steps) = draw_sprite(Some(&b), &groups, 0);
    assert_eq!(result, RenderCommandResult::Success);
    assert_eq!(
        steps,
        vec![
            DrawStep::SetViewBindGroup(0, 0),
            DrawStep::SetTextureBindGroup(1, 10),
            DrawStep::DrawIndexed(false, 0, 3),
        ]
    );
}

#[test]
fn test_draw_with_missing_binding_fails() {
    let groups = ImageBindGroups::new();
    let b = batch(10, None, 0, 1);
    let (result, _) = set_sprite_texture_bind_group(1, Some(&b), &groups);
    assert_eq!(result, RenderCommandResult::Failure);

    let mut groups = ImageBindGroups::new();
    groups.values.push(10);
    let masked = batch(10, Some(20), 0, 1);
    let (result, _) = set_sprite_mask_texture_bind_group(2, Some(&masked), &groups);
    assert_eq!(result, RenderCommandResult::Failure);
}
