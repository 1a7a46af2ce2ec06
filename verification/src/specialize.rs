use vstd::prelude::*;

use crate::instance::{MASKED_INSTANCE_BYTES, UNMASKED_INSTANCE_BYTES};
use crate::pipeline_key::{
    SpritePipelineKey, KEY_DEBAND_DITHER, KEY_HDR, KEY_MASK_ENABLED, KEY_TONEMAP_IN_SHADER,
    KEY_TONEMAP_METHOD_ACES_FITTED, KEY_TONEMAP_METHOD_AGX, KEY_TONEMAP_METHOD_BLENDER_FILMIC,
    KEY_TONEMAP_METHOD_NONE, KEY_TONEMAP_METHOD_REINHARD, KEY_TONEMAP_METHOD_REINHARD_LUMINANCE,
    KEY_TONEMAP_METHOD_SOMEWHAT_BORING_DISPLAY_TRANSFORM, KEY_TONEMAP_METHOD_TONY_MC_MAPFACE,
    TONEMAP_METHOD_MASK_BITS, TONEMAP_METHOD_SHIFT_BITS,
};

verus! {

/// One preprocessor toggle or value handed to the shading program.
#[derive(Clone, Copy, Debug, PartialEq, Eq, Structural)]
pub enum ShaderDef {
    /// Tonemapping runs in the shader.
    TonemapInShader,
    /// Binding index of the tonemapping look-up texture.
    TonemappingLutTextureBindingIndex(u32),
    /// Binding index of the tonemapping look-up sampler.
    TonemappingLutSamplerBindingIndex(u32),
    /// Tonemap method: none.
    TonemapMethodNone,
    /// Tonemap method: Reinhard.
    TonemapMethodReinhard,
    /// Tonemap method: Reinhard luminance.
    TonemapMethodReinhardLuminance,
    /// Tonemap method: ACES fitted.
    TonemapMethodAcesFitted,
    /// Tonemap method: AgX.
    TonemapMethodAgx,
    /// Tonemap method: somewhat boring display transform.
    TonemapMethodSomewhatBoringDisplayTransform,
    /// Tonemap method: Tony McMapface.
    TonemapMethodTonyMcMapface,
    /// Tonemap method: Blender filmic.
    TonemapMethodBlenderFilmic,
    /// Debanding dither.
    DebandDither,
    /// The masked pipeline variant: the shader reads the masked record
    /// layout and samples the mask texture.
    Mask,
}

/// The format of one per-instance vertex attribute.
#[derive(Clone, Copy, Debug, PartialEq, Eq, Structural)]
pub enum VertexFormat {
    /// Four single-precision floats.
    Float32x4,
    /// One signed 32-bit integer.
    Sint32,
    /// Three signed 32-bit integers.
    Sint32x3,
}

/// One per-instance vertex attribute: its format, its byte offset into the
/// instance record, and the shader location that reads it.
#[derive(Clone, Copy, Debug, PartialEq, Eq, Structural)]
pub struct VertexAttribute {
    /// The attribute's format.
    pub format: VertexFormat,
    /// Byte offset into the instance record.
    pub offset: u64,
    /// The shader location that reads the attribute.
    pub shader_location: u32,
}

/// The instance-rate vertex buffer layout: the record stride in bytes and
/// the attributes, stepped once per instance.
pub struct VertexBufferLayout {
    /// Bytes from one instance record to the next.
    pub array_stride: u64,
    /// The attributes, in declaration order.
    pub attributes: Vec<VertexAttribute>,
}

/// The specialized pipeline variant a key selects: the shader defs, the
/// instance-rate vertex layout, the target format and sample count, and
/// whether the mask bind-group layout is part of the pipeline layout.
pub struct RenderPipelineDescriptor {
    /// Preprocessor defs for both shader stages, in push order.
    pub shader_defs: Vec<ShaderDef>,
    /// The instance-rate vertex buffer layout.
    pub vertex_layout: VertexBufferLayout,
    /// Whether the color target uses the HDR format.
    pub hdr_format: bool,
    /// MSAA sample count.
    pub sample_count: u32,
    /// Whether the mask texture's bind-group layout is appended to the
    /// pipeline layout.
    pub mask_layout: bool,
}

/// The shader defs of the tonemapping block: present only when tonemapping
/// runs in the shader, with exactly one method def and, when selected, the
/// dither def.
pub open spec fn spec_tonemap_defs(bits: u32) -> Seq<ShaderDef> {
    if bits & KEY_TONEMAP_IN_SHADER == KEY_TONEMAP_IN_SHADER {
        let method = bits & (TONEMAP_METHOD_MASK_BITS << TONEMAP_METHOD_SHIFT_BITS);
        let head = seq![
            ShaderDef::TonemapInShader,
            ShaderDef::TonemappingLutTextureBindingIndex(1u32),
            ShaderDef::TonemappingLutSamplerBindingIndex(2u32),
        ];
        let with_method = if method == KEY_TONEMAP_METHOD_NONE {
            head.push(ShaderDef::TonemapMethodNone)
        } else if method == KEY_TONEMAP_METHOD_REINHARD {
            head.push(ShaderDef::TonemapMethodReinhard)
        } else if method == KEY_TONEMAP_METHOD_REINHARD_LUMINANCE {
            head.push(ShaderDef::TonemapMethodReinhardLuminance)
        } else if method == KEY_TONEMAP_METHOD_ACES_FITTED {
            head.push(ShaderDef::TonemapMethodAcesFitted)
        } else if method == KEY_TONEMAP_METHOD_AGX {
            head.push(ShaderDef::TonemapMethodAgx)
        } else if method == KEY_TONEMAP_METHOD_SOMEWHAT_BORING_DISPLAY_TRANSFORM {
            head.push(ShaderDef::TonemapMethodSomewhatBoringDisplayTransform)
        } else if method == KEY_TONEMAP_METHOD_BLENDER_FILMIC {
            head.push(ShaderDef::TonemapMethodBlenderFilmic)
        } else if method == KEY_TONEMAP_METHOD_TONY_MC_MAPFACE {
            head.push(ShaderDef::TonemapMethodTonyMcMapface)
        } else {
            head
        };
        if bits & KEY_DEBAND_DITHER == KEY_DEBAND_DITHER {
            with_method.push(ShaderDef::DebandDither)
        } else {
            with_method
        }
    } else {
        Seq::empty()
    }
}

/// All shader defs a key selects: the tonemapping block, then the mask def
/// when the masked variant is selected.
pub open spec fn spec_shader_defs(bits: u32) -> Seq<ShaderDef> {
    if bits & KEY_MASK_ENABLED == KEY_MASK_ENABLED {
        spec_tonemap_defs(bits).push(ShaderDef::Mask)
    } else {
        spec_tonemap_defs(bits)
    }
}

/// The attributes every instance record carries: the three transposed
/// transform rows, the color, the UV offset and scale, the blend-mode code
/// and the padding, at their exact byte offsets.
pub open spec fn spec_base_attributes() -> Seq<VertexAttribute> {
    seq![
        VertexAttribute { format: VertexFormat::Float32x4, offset: 0, shader_location: 0 },
        VertexAttribute { format: VertexFormat::Float32x4, offset: 16, shader_location: 1 },
        VertexAttribute { format: VertexFormat::Float32x4, offset: 32, shader_location: 2 },
        VertexAttribute { format: VertexFormat::Float32x4, offset: 48, shader_location: 3 },
        VertexAttribute { format: VertexFormat::Float32x4, offset: 64, shader_location: 4 },
        VertexAttribute { format: VertexFormat::Sint32, offset: 80, shader_location: 5 },
        VertexAttribute { format: VertexFormat::Sint32x3, offset: 84, shader_location: 6 },
    ]
}

/// The attributes only a masked record carries: the three transposed
/// mask-transform rows and the mask UV words, after the unmasked record.
pub open spec fn spec_mask_attributes() -> Seq<VertexAttribute> {
    seq![
        VertexAttribute { format: VertexFormat::Float32x4, offset: 96, shader_location: 7 },
        VertexAttribute { format: VertexFormat::Float32x4, offset: 112, shader_location: 8 },
        VertexAttribute { format: VertexFormat::Float32x4, offset: 128, shader_location: 9 },
        VertexAttribute { format: VertexFormat::Float32x4, offset: 144, shader_location: 10 },
    ]
}

/// Builds the specialized pipeline descriptor for a key: the shader defs
/// the key selects; the instance-rate vertex layout, whose stride is the
/// masked record size exactly when the masked variant is selected and the
/// unmasked record size otherwise; the HDR target flag; the decoded MSAA
/// sample count; and the mask bind-group layout exactly for the masked
/// variant.
pub fn specialize(key: SpritePipelineKey) -> (r: RenderPipelineDescriptor)
    ensures
        r.shader_defs@ == spec_shader_defs(key.bits),
        r.vertex_layout.attributes@ == if key.spec_contains(KEY_MASK_ENABLED) {
            spec_base_attributes() + spec_mask_attributes()
        } else {
            spec_base_attributes()
        },
        r.vertex_layout.array_stride == if key.spec_contains(KEY_MASK_ENABLED) {
            MASKED_INSTANCE_BYTES
        } else {
            UNMASKED_INSTANCE_BYTES
        },
        r.hdr_format == key.spec_contains(KEY_HDR),
        r.sample_count == SpritePipelineKey::spec_msaa_samples(key.bits),
        r.mask_layout == key.spec_contains(KEY_MASK_ENABLED),
{
    let mut shader_defs: Vec<ShaderDef> = Vec::new();
    if key.bits & KEY_TONEMAP_IN_SHADER == KEY_TONEMAP_IN_SHADER {
        shader_defs.push(ShaderDef::TonemapInShader);
        shader_defs.push(ShaderDef::TonemappingLutTextureBindingIndex(1));
        shader_defs.push(ShaderDef::TonemappingLutSamplerBindingIndex(2));

        let method = key.bits & (TONEMAP_METHOD_MASK_BITS << TONEMAP_METHOD_SHIFT_BITS);
        if method == KEY_TONEMAP_METHOD_NONE {
            shader_defs.push(ShaderDef::TonemapMethodNone);
        } else if method == KEY_TONEMAP_METHOD_REINHARD {
            shader_defs.push(ShaderDef::TonemapMethodReinhard);
        } else if method == KEY_TONEMAP_METHOD_REINHARD_LUMINANCE {
            shader_defs.push(ShaderDef::TonemapMethodReinhardLuminance);
        } else if method == KEY_TONEMAP_METHOD_ACES_FITTED {
            shader_defs.push(ShaderDef::TonemapMethodAcesFitted);
        } else if method == KEY_TONEMAP_METHOD_AGX {
            shader_defs.push(ShaderDef::TonemapMethodAgx);
        } else if method == KEY_TONEMAP_METHOD_SOMEWHAT_BORING_DISPLAY_TRANSFORM {
            shader_defs.push(ShaderDef::TonemapMethodSomewhatBoringDisplayTransform);
        } else if method == KEY_TONEMAP_METHOD_BLENDER_FILMIC {
            shader_defs.push(ShaderDef::TonemapMethodBlenderFilmic);
        } else if method == KEY_TONEMAP_METHOD_TONY_MC_MAPFACE {
            shader_defs.push(ShaderDef::TonemapMethodTonyMcMapface);
        }

        if key.bits & KEY_DEBAND_DITHER == KEY_DEBAND_DITHER {
            shader_defs.push(ShaderDef::DebandDither);
        }
    }

    let mask_enable = key.bits & KEY_MASK_ENABLED == KEY_MASK_ENABLED;
    if mask_enable {
        shader_defs.push(ShaderDef::Mask);
    }
    proof {
        assert(shader_defs@ =~= spec_shader_defs(key.bits));
    }

    let mut array_stride: u64 = UNMASKED_INSTANCE_BYTES;
    let mut attributes: Vec<VertexAttribute> = Vec::new();
    attributes.push(
        VertexAttribute { format: VertexFormat::Float32x4, offset: 0, shader_location: 0 },
    );
    attributes.push(
        VertexAttribute { format: VertexFormat::Float32x4, offset: 16, shader_location: 1 },
    );
    attributes.push(
        VertexAttribute { format: VertexFormat::Float32x4, offset: 32, shader_location: 2 },
    );
    attributes.push(
        VertexAttribute { format: VertexFormat::Float32x4, offset: 48, shader_location: 3 },
    );
    attributes.push(
        VertexAttribute { format: VertexFormat::Float32x4, offset: 64, shader_location: 4 },
    );
    attributes.push(
        VertexAttribute { format: VertexFormat::Sint32, offset: 80, shader_location: 5 },
    );
    attributes.push(
        VertexAttribute { format: VertexFormat::Sint32x3, offset: 84, shader_location: 6 },
    );
    if mask_enable {
        array_stride = array_stride + 64;
        attributes.push(
            VertexAttribute { format: VertexFormat::Float32x4, offset: 96, shader_location: 7 },
        );
        attributes.push(
            VertexAttribute { format: VertexFormat::Float32x4, offset: 112, shader_location: 8 },
        );
        attributes.push(
            VertexAttribute { format: VertexFormat::Float32x4, offset: 128, shader_location: 9 },
        );
        attributes.push(
            VertexAttribute { format: VertexFormat::Float32x4, offset: 144, shader_location: 10 },
        );
    }
    proof {
        if mask_enable {
            assert(attributes@ =~= spec_base_attributes() + spec_mask_attributes());
        } else {
            assert(attributes@ =~= spec_base_attributes());
        }
    }

    let sample_count = key.msaa_samples();
    RenderPipelineDescriptor {
        shader_defs,
        vertex_layout: VertexBufferLayout { array_stride, attributes },
        hdr_format: key.bits & KEY_HDR == KEY_HDR,
        sample_count,
        mask_layout: mask_enable,
    }
}

/// The vertex layout agrees with the packed record layout word for word:
/// each attribute begins at four times the word offset of the record field
/// it reads, the base attributes span exactly one unmasked record, and the
/// mask attributes continue exactly where the unmasked record ends.
pub proof fn lemma_layout_matches_records()
    ensures
        spec_base_attributes().len() == 7,
        spec_mask_attributes().len() == 4,
        spec_base_attributes()[0].offset == 0,
        spec_base_attributes()[3].offset == 4 * 12,
        spec_base_attributes()[4].offset == 4 * 16,
        spec_base_attributes()[5].offset == 4 * 20,
        spec_base_attributes()[6].offset == 4 * 21,
        spec_mask_attributes()[0].offset == UNMASKED_INSTANCE_BYTES,
        spec_mask_attributes()[3].offset == 4 * 36,
        UNMASKED_INSTANCE_BYTES == 4 * 24,
        MASKED_INSTANCE_BYTES == 4 * 40,
{
}

} // verus!
