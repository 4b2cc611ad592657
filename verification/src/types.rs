//! Descriptor, identifier and enum types of the custom draw API.
use vstd::prelude::*;
use crate::texture::CustomTextureFormat;

verus! {

/// Identifier for a registered custom GPU pipeline.
#[derive(Debug, Clone, Copy, PartialEq, Eq, Hash, Structural)]
pub struct CustomPipelineId(pub u32);

/// Identifier for a registered custom compute pipeline.
#[derive(Debug, Clone, Copy, PartialEq, Eq, Hash, Structural)]
pub struct CustomComputePipelineId(pub u32);

/// Identifier for a registered custom buffer.
#[derive(Debug, Clone, Copy, PartialEq, Eq, Hash, Structural)]
pub struct CustomBufferId(pub u32);

/// Identifier for a registered custom texture.
#[derive(Debug, Clone, Copy, PartialEq, Eq, Hash, Structural)]
pub struct CustomTextureId(pub u32);

/// Identifier for a registered custom sampler.
#[derive(Debug, Clone, Copy, PartialEq, Eq, Hash, Structural)]
pub struct CustomSamplerId(pub u32);

/// Identifier for a registered custom depth target.
#[derive(Debug, Clone, Copy, PartialEq, Eq, Hash, Structural)]
pub struct CustomDepthTargetId(pub u32);

/// Primitive topology for custom pipelines.
#[derive(Debug, Clone, Copy, PartialEq, Eq, Structural)]
pub enum CustomPrimitiveTopology {
    /// Points.
    PointList,
    /// Independent line segments.
    LineList,
    /// Connected line segments.
    LineStrip,
    /// Independent triangles.
    TriangleList,
    /// Connected triangle strip.
    TriangleStrip,
}

/// Front face winding order for custom pipelines.
#[derive(Debug, Clone, Copy, PartialEq, Eq, Structural)]
pub enum CustomFrontFace {
    /// Counter-clockwise front face.
    Ccw,
    /// Clockwise front face.
    Cw,
}

impl Default for CustomFrontFace {
    fn default() -> (r: Self)
        ensures
            r == CustomFrontFace::Ccw,
    {
        CustomFrontFace::Ccw
    }
}

/// Face culling mode for custom pipelines.
#[derive(Debug, Clone, Copy, PartialEq, Eq, Structural)]
pub enum CustomCullMode {
    /// Disable face culling.
    Disabled,
    /// Cull front-facing triangles.
    Front,
    /// Cull back-facing triangles.
    Back,
}

impl Default for CustomCullMode {
    fn default() -> (r: Self)
        ensures
            r == CustomCullMode::Disabled,
    {
        CustomCullMode::Disabled
    }
}

/// Blend mode for custom pipelines.
#[derive(Debug, Clone, Copy, PartialEq, Eq, Structural)]
pub enum CustomBlendMode {
    /// Backend default blend configuration.
    Default,
    /// Disable blending (opaque output).
    Opaque,
    /// Standard alpha blending.
    Alpha,
    /// Premultiplied alpha blending.
    PremultipliedAlpha,
    /// Additive blending (`src + dst`).
    Additive,
}

impl Default for CustomBlendMode {
    fn default() -> (r: Self)
        ensures
            r == CustomBlendMode::Default,
    {
        CustomBlendMode::Default
    }
}

/// Depth compare function for custom pipelines.
#[derive(Debug, Clone, Copy, PartialEq, Eq, Structural)]
pub enum CustomDepthCompare {
    /// Always passes.
    Always,
    /// Passes when the new depth is less.
    Less,
    /// Passes when the new depth is less than or equal.
    LessEqual,
    /// Passes when the new depth is greater.
    Greater,
    /// Passes when the new depth is greater than or equal.
    GreaterEqual,
}

impl Default for CustomDepthCompare {
    fn default() -> (r: Self)
        ensures
            r == CustomDepthCompare::LessEqual,
    {
        CustomDepthCompare::LessEqual
    }
}

/// Depth formats supported for custom render targets.
#[derive(Debug, Clone, Copy, PartialEq, Eq, Structural)]
pub enum CustomDepthFormat {
    /// 32-bit float depth.
    Depth32Float,
}

/// Depth state for custom pipelines.
#[derive(Debug, Clone, Copy, PartialEq, Eq, Structural)]
pub struct CustomDepthState {
    /// Depth format.
    pub format: CustomDepthFormat,
    /// Depth compare function.
    pub compare: CustomDepthCompare,
    /// Whether depth writes are enabled.
    pub write_enabled: bool,
}

impl Default for CustomDepthState {
    fn default() -> (r: Self)
        ensures
            r == (CustomDepthState {
                format: CustomDepthFormat::Depth32Float,
                compare: CustomDepthCompare::LessEqual,
                write_enabled: true,
            }),
    {
        CustomDepthState {
            format: CustomDepthFormat::Depth32Float,
            compare: CustomDepthCompare::LessEqual,
            write_enabled: true,
        }
    }
}

/// Fixed-function pipeline state for custom pipelines.
#[derive(Debug, Clone, Copy, PartialEq, Eq, Structural)]
pub struct CustomPipelineState {
    /// Blend mode for the primary color attachment.
    pub blend: CustomBlendMode,
    /// Face culling mode.
    pub cull_mode: CustomCullMode,
    /// Front face winding.
    pub front_face: CustomFrontFace,
    /// Optional depth state.
    pub depth: Option<CustomDepthState>,
    /// Number of MSAA samples for this pipeline.
    pub sample_count: u32,
}

impl Default for CustomPipelineState {
    fn default() -> (r: Self)
        ensures
            r == (CustomPipelineState {
                blend: CustomBlendMode::Default,
                cull_mode: CustomCullMode::Disabled,
                front_face: CustomFrontFace::Ccw,
                depth: None,
                sample_count: 1,
            }),
    {
        CustomPipelineState {
            blend: CustomBlendMode::Default,
            cull_mode: CustomCullMode::Disabled,
            front_face: CustomFrontFace::Ccw,
            depth: None,
            sample_count: 1,
        }
    }
}

/// Vertex attribute formats supported by custom pipelines.
#[derive(Debug, Clone, Copy, PartialEq, Eq, Structural)]
pub enum CustomVertexFormat {
    /// Single 32-bit float.
    F32,
    /// 2x 32-bit float.
    F32Vec2,
    /// 3x 32-bit float.
    F32Vec3,
    /// 4x 32-bit float.
    F32Vec4,
    /// Single 32-bit unsigned int.
    U32,
    /// 2x 32-bit unsigned int.
    U32Vec2,
    /// 3x 32-bit unsigned int.
    U32Vec3,
    /// 4x 32-bit unsigned int.
    U32Vec4,
    /// Single 32-bit signed int.
    I32,
    /// 2x 32-bit signed int.
    I32Vec2,
    /// 3x 32-bit signed int.
    I32Vec3,
    /// 4x 32-bit signed int.
    I32Vec4,
}

/// Index formats supported by custom pipelines.
#[derive(Debug, Clone, Copy, PartialEq, Eq, Structural)]
pub enum CustomIndexFormat {
    /// Unsigned 16-bit indices.
    U16,
    /// Unsigned 32-bit indices.
    U32,
}

/// Fixed set of attribute names for custom vertex layouts.
#[derive(Debug, Clone, Copy, PartialEq, Eq, Hash, Structural)]
pub enum CustomVertexAttributeName {
    /// Attribute slot a0.
    A0,
    /// Attribute slot a1.
    A1,
    /// Attribute slot a2.
    A2,
    /// Attribute slot a3.
    A3,
    /// Attribute slot a4.
    A4,
    /// Attribute slot a5.
    A5,
    /// Attribute slot a6.
    A6,
    /// Attribute slot a7.
    A7,
}

/// The slot number `n` of attribute `an`.
pub open spec fn attribute_slot(name: CustomVertexAttributeName) -> nat {
    match name {
        CustomVertexAttributeName::A0 => 0,
        CustomVertexAttributeName::A1 => 1,
        CustomVertexAttributeName::A2 => 2,
        CustomVertexAttributeName::A3 => 3,
        CustomVertexAttributeName::A4 => 4,
        CustomVertexAttributeName::A5 => 5,
        CustomVertexAttributeName::A6 => 6,
        CustomVertexAttributeName::A7 => 7,
    }
}

/// The ASCII decimal digit for a value below ten.
pub open spec fn decimal_digit(d: nat) -> char {
    if d == 0 { '0' }
    else if d == 1 { '1' }
    else if d == 2 { '2' }
    else if d == 3 { '3' }
    else if d == 4 { '4' }
    else if d == 5 { '5' }
    else if d == 6 { '6' }
    else if d == 7 { '7' }
    else if d == 8 { '8' }
    else { '9' }
}

/// Decimal spelling of a number below one hundred, without leading zeros.
pub open spec fn decimal_text(n: nat) -> Seq<char> {
    if n < 10 {
        seq![decimal_digit(n)]
    } else {
        seq![decimal_digit(n / 10), decimal_digit(n % 10)]
    }
}

/// The shader field name of an attribute slot: `a` followed by its number.
pub open spec fn attribute_field_name(name: CustomVertexAttributeName) -> Seq<char> {
    seq!['a'] + decimal_text(attribute_slot(name))
}

impl CustomVertexAttributeName {
    /// Returns the WGSL field name for this attribute slot.
    pub fn as_str(self) -> (r: &'static str)
        ensures
            r@ == attribute_field_name(self),
    {
        match self {
            CustomVertexAttributeName::A0 => {
                proof { reveal_strlit("a0"); }
                "a0"
            },
            CustomVertexAttributeName::A1 => {
                proof { reveal_strlit("a1"); }
                "a1"
            },
            CustomVertexAttributeName::A2 => {
                proof { reveal_strlit("a2"); }
                "a2"
            },
            CustomVertexAttributeName::A3 => {
                proof { reveal_strlit("a3"); }
                "a3"
            },
            CustomVertexAttributeName::A4 => {
                proof { reveal_strlit("a4"); }
                "a4"
            },
            CustomVertexAttributeName::A5 => {
                proof { reveal_strlit("a5"); }
                "a5"
            },
            CustomVertexAttributeName::A6 => {
                proof { reveal_strlit("a6"); }
                "a6"
            },
            CustomVertexAttributeName::A7 => {
                proof { reveal_strlit("a7"); }
                "a7"
            },
        }
    }
}

/// Vertex attribute definition for custom pipelines.
#[derive(Debug, Clone, Copy, PartialEq, Eq, Structural)]
pub struct CustomVertexAttribute {
    /// Attribute slot name (must match shader input field name).
    pub name: CustomVertexAttributeName,
    /// Byte offset from the start of the vertex.
    pub offset: u32,
    /// Attribute format.
    pub format: CustomVertexFormat,
    /// Optional explicit shader location for this attribute.
    pub location: Option<u32>,
}

/// Vertex buffer layout for custom pipelines.
#[derive(Debug, Clone)]
pub struct CustomVertexLayout {
    /// Byte stride of a single vertex.
    pub stride: u32,
    /// Vertex attributes in this buffer.
    pub attributes: Vec<CustomVertexAttribute>,
}

/// Vertex fetch configuration for custom pipelines.
#[derive(Debug, Clone)]
pub struct CustomVertexFetch {
    /// Layout of the vertex buffer.
    pub layout: CustomVertexLayout,
    /// Whether the buffer is instanced.
    pub instanced: bool,
}

/// Push constants descriptor for a custom pipeline.
#[derive(Debug, Clone, Copy, PartialEq, Eq, Structural)]
pub struct CustomPushConstantsDesc {
    /// Push constant size in bytes (16-byte aligned).
    pub size: u32,
}

/// Fixed set of binding names for custom pipelines.
#[derive(Debug, Clone, Copy, PartialEq, Eq, Hash, Structural)]
pub enum CustomBindingName {
    /// Binding slot b0.
    B0,
    /// Binding slot b1.
    B1,
    /// Binding slot b2.
    B2,
    /// Binding slot b3.
    B3,
    /// Binding slot b4.
    B4,
    /// Binding slot b5.
    B5,
    /// Binding slot b6.
    B6,
    /// Binding slot b7.
    B7,
    /// Binding slot b8.
    B8,
    /// Binding slot b9.
    B9,
    /// Binding slot b10.
    B10,
    /// Binding slot b11.
    B11,
    /// Binding slot b12.
    B12,
    /// Binding slot b13.
    B13,
    /// Binding slot b14.
    B14,
    /// Binding slot b15.
    B15,
}

/// The slot number `n` of binding `bn`.
pub open spec fn binding_slot_number(name: CustomBindingName) -> nat {
    match name {
        CustomBindingName::B0 => 0,
        CustomBindingName::B1 => 1,
        CustomBindingName::B2 => 2,
        CustomBindingName::B3 => 3,
        CustomBindingName::B4 => 4,
        CustomBindingName::B5 => 5,
        CustomBindingName::B6 => 6,
        CustomBindingName::B7 => 7,
        CustomBindingName::B8 => 8,
        CustomBindingName::B9 => 9,
        CustomBindingName::B10 => 10,
        CustomBindingName::B11 => 11,
        CustomBindingName::B12 => 12,
        CustomBindingName::B13 => 13,
        CustomBindingName::B14 => 14,
        CustomBindingName::B15 => 15,
    }
}

/// The shader variable name of a binding slot: `b` followed by its number.
pub open spec fn binding_variable_name(name: CustomBindingName) -> Seq<char> {
    seq!['b'] + decimal_text(binding_slot_number(name))
}

impl CustomBindingName {
    /// Returns the WGSL variable name for this binding slot.
    pub fn as_str(self) -> (r: &'static str)
        ensures
            r@ == binding_variable_name(self),
    {
        match self {
            CustomBindingName::B0 => {
                proof { reveal_strlit("b0"); }
                "b0"
            },
            CustomBindingName::B1 => {
                proof { reveal_strlit("b1"); }
                "b1"
            },
            CustomBindingName::B2 => {
                proof { reveal_strlit("b2"); }
                "b2"
            },
            CustomBindingName::B3 => {
                proof { reveal_strlit("b3"); }
                "b3"
            },
            CustomBindingName::B4 => {
                proof { reveal_strlit("b4"); }
                "b4"
            },
            CustomBindingName::B5 => {
                proof { reveal_strlit("b5"); }
                "b5"
            },
            CustomBindingName::B6 => {
                proof { reveal_strlit("b6"); }
                "b6"
            },
            CustomBindingName::B7 => {
                proof { reveal_strlit("b7"); }
                "b7"
            },
            CustomBindingName::B8 => {
                proof { reveal_strlit("b8"); }
                "b8"
            },
            CustomBindingName::B9 => {
                proof { reveal_strlit("b9"); }
                "b9"
            },
            CustomBindingName::B10 => {
                proof { reveal_strlit("b10"); }
                "b10"
            },
            CustomBindingName::B11 => {
                proof { reveal_strlit("b11"); }
                "b11"
            },
            CustomBindingName::B12 => {
                proof { reveal_strlit("b12"); }
                "b12"
            },
            CustomBindingName::B13 => {
                proof { reveal_strlit("b13"); }
                "b13"
            },
            CustomBindingName::B14 => {
                proof { reveal_strlit("b14"); }
                "b14"
            },
            CustomBindingName::B15 => {
                proof { reveal_strlit("b15"); }
                "b15"
            },
        }
    }

    /// Returns the numeric binding index for this slot.
    pub fn index(self) -> (r: u32)
        ensures
            r == binding_slot_number(self),
    {
        match self {
            CustomBindingName::B0 => 0,
            CustomBindingName::B1 => 1,
            CustomBindingName::B2 => 2,
            CustomBindingName::B3 => 3,
            CustomBindingName::B4 => 4,
            CustomBindingName::B5 => 5,
            CustomBindingName::B6 => 6,
            CustomBindingName::B7 => 7,
            CustomBindingName::B8 => 8,
            CustomBindingName::B9 => 9,
            CustomBindingName::B10 => 10,
            CustomBindingName::B11 => 11,
            CustomBindingName::B12 => 12,
            CustomBindingName::B13 => 13,
            CustomBindingName::B14 => 14,
            CustomBindingName::B15 => 15,
        }
    }
}

/// Binding kinds supported by custom pipelines.
#[derive(Debug, Clone, Copy, PartialEq, Eq, Structural)]
pub enum CustomBindingKind {
    /// Storage buffer binding.
    Buffer,
    /// Storage buffer binding array.
    BufferArray {
        /// Number of elements in the array.
        count: u32,
    },
    /// 2D sampled texture binding.
    Texture,
    /// 2D sampled texture binding array.
    TextureArray {
        /// Number of elements in the array.
        count: u32,
    },
    /// Storage texture binding (read/write).
    StorageTexture,
    /// Storage texture binding array.
    StorageTextureArray {
        /// Number of elements in the array.
        count: u32,
    },
    /// Sampler binding.
    Sampler,
    /// Uniform/constant buffer binding.
    /// Size is in bytes and should be 16-byte aligned.
    Uniform {
        /// Buffer size in bytes.
        size: u32,
    },
}

/// Explicit bind group slot for a custom binding.
#[derive(Debug, Clone, Copy, PartialEq, Eq, Hash, Structural)]
pub struct CustomBindingSlot {
    /// Bind group index.
    pub group: u32,
    /// Binding index within the group.
    pub binding: u32,
}

/// Binding definition for custom pipelines.
#[derive(Debug, Clone, Copy, PartialEq, Eq, Structural)]
pub struct CustomBindingDesc {
    /// Binding slot name.
    pub name: CustomBindingName,
    /// Binding kind.
    pub kind: CustomBindingKind,
    /// Optional explicit group/binding slot.
    pub slot: Option<CustomBindingSlot>,
}

/// The slot a binding occupies: its explicit slot, or group 0 at the index of its name.
pub open spec fn resolved_slot(binding: CustomBindingDesc) -> CustomBindingSlot {
    match binding.slot {
        Some(slot) => slot,
        None => CustomBindingSlot { group: 0, binding: binding_slot_number(binding.name) as u32 },
    }
}

impl CustomBindingDesc {
    /// The slot this binding occupies: the explicit one, or group 0 at the name's index.
    pub fn resolved_slot(&self) -> (r: CustomBindingSlot)
        ensures
            r == resolved_slot(*self),
    {
        match self.slot {
            Some(slot) => slot,
            None => CustomBindingSlot { group: 0, binding: self.name.index() },
        }
    }
}

/// Pipeline description for custom GPU rendering.
#[derive(Debug, Clone)]
pub struct CustomPipelineDesc {
    /// Debug name for the pipeline.
    pub name: String,
    /// WGSL shader source.
    pub shader_source: String,
    /// Vertex entry point name.
    pub vertex_entry: String,
    /// Fragment entry point name.
    pub fragment_entry: String,
    /// Vertex buffer fetch definitions.
    pub vertex_fetches: Vec<CustomVertexFetch>,
    /// Primitive topology.
    pub primitive: CustomPrimitiveTopology,
    /// Color target formats (empty defaults to the surface format).
    pub color_targets: Vec<CustomTextureFormat>,
    /// Fixed-function pipeline state.
    pub state: CustomPipelineState,
    /// Optional push constants block.
    pub push_constants: Option<CustomPushConstantsDesc>,
    /// Optional shader bindings.
    pub bindings: Vec<CustomBindingDesc>,
}

/// Pipeline description for custom GPU compute.
#[derive(Debug, Clone)]
pub struct CustomComputePipelineDesc {
    /// Debug name for the pipeline.
    pub name: String,
    /// WGSL shader source.
    pub shader_source: String,
    /// Compute entry point name.
    pub entry_point: String,
    /// Optional push constants block.
    pub push_constants: Option<CustomPushConstantsDesc>,
    /// Optional shader bindings.
    pub bindings: Vec<CustomBindingDesc>,
}

} // verus!
