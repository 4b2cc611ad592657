//! Cache keys that identify equivalent render pipeline requests.
use vstd::prelude::*;
use std::sync::Arc;
use std::hash::{Hash, Hasher};
use crate::types::{
    CustomBindingDesc, CustomBindingKind, CustomBindingName, CustomBindingSlot, CustomBlendMode,
    CustomCullMode, CustomDepthCompare, CustomDepthFormat, CustomFrontFace, CustomPipelineDesc,
    CustomPipelineState, CustomPrimitiveTopology, CustomVertexAttribute, CustomVertexAttributeName,
    CustomVertexFetch, CustomVertexFormat, attribute_slot, binding_slot_number,
};

verus! {

/// Where a render pipeline's shader code comes from.
#[derive(Debug, Clone)]
pub enum PipelineLibrarySource {
    /// The description's WGSL source, written out for the device.
    Wgsl,
    /// Device shading language source.
    Msl(String),
    /// A precompiled device library.
    Metallib(Arc<[u8]>),
}

/// The shader source part of a pipeline cache key.
#[derive(Debug, Clone, PartialEq, Eq, Hash)]
pub enum PipelineSourceKey {
    Wgsl(String),
    Msl(String),
    Metallib { hash: u64, len: usize },
}

/// Key of a render pipeline request: equal keys may share one pipeline.
#[derive(Debug, Clone, PartialEq, Eq, Hash)]
pub struct PipelineCacheKey {
    pub source: PipelineSourceKey,
    pub vertex_entry: String,
    pub fragment_entry: String,
    pub primitive: u8,
    pub color_formats: Vec<u64>,
    pub state: PipelineStateKey,
    pub vertex_fetches: Vec<VertexFetchKey>,
    pub push_constants: Option<u32>,
    pub bindings: Vec<BindingKey>,
}

/// Key of one vertex fetch.
#[derive(Debug, Clone, PartialEq, Eq, Hash)]
pub struct VertexFetchKey {
    pub stride: u32,
    pub instanced: bool,
    pub attributes: Vec<VertexAttributeKey>,
}

/// Key of one vertex attribute.
#[derive(Debug, Clone, Copy, PartialEq, Eq, Hash, Structural)]
pub struct VertexAttributeKey {
    pub name: u8,
    pub offset: u32,
    pub format: u8,
    pub location: Option<u32>,
}

/// Key of one binding.
#[derive(Debug, Clone, Copy, PartialEq, Eq, Hash, Structural)]
pub struct BindingKey {
    pub name: u8,
    pub kind: BindingKindKey,
    pub slot: Option<CustomBindingSlot>,
}

/// Key of a binding kind: a tag per kind, with its size or count.
#[derive(Debug, Clone, Copy, PartialEq, Eq, Hash, Structural)]
pub struct BindingKindKey {
    pub kind: u8,
    pub size: u32,
    pub count: u32,
}

/// Key of the fixed-function state.
#[derive(Debug, Clone, Copy, PartialEq, Eq, Hash, Structural)]
pub struct PipelineStateKey {
    pub blend: u8,
    pub cull_mode: u8,
    pub front_face: u8,
    pub depth_format: u8,
    pub depth_compare: u8,
    pub depth_write: u8,
    pub sample_count: u32,
}

/// Attribute names are keyed by their slot number.
pub fn vertex_attribute_name_key(name: CustomVertexAttributeName) -> (r: u8)
    ensures
        r == attribute_slot(name),
{
    match name {
        CustomVertexAttributeName::A0 => 0,
        CustomVertexAttributeName::A1 => 1,
        CustomVertexAttributeName::A2 => 2,
        CustomVertexAttributeName::A3 => 3,
        CustomVertexAttributeName::A4 => 4,
        CustomVertexAttributeName::A5 => 5,
        CustomVertexAttributeName::A6 => 6,
        CustomVertexAttributeName::A7 => 7,
    }
}

/// Binding names are keyed by their slot number.
pub fn binding_name_key(name: CustomBindingName) -> (r: u8)
    ensures
        r == binding_slot_number(name),
{
    match name {
        CustomBindingName::B0 => 0,
        CustomBindingName::B1 => 1,
        CustomBindingName::B2 => 2,
        CustomBindingName::B3 => 3,
        CustomBindingName::B4 => 4,
        CustomBindingName::B5 => 5,
        CustomBindingName::B6 => 6,
        CustomBindingName::B7 => 7,
        CustomBindingName::B8 => 8,
        CustomBindingName::B9 => 9,
        CustomBindingName::B10 => 10,
        CustomBindingName::B11 => 11,
        CustomBindingName::B12 => 12,
        CustomBindingName::B13 => 13,
        CustomBindingName::B14 => 14,
        CustomBindingName::B15 => 15,
    }
}

/// Vertex formats are keyed by their position in the format list.
pub open spec fn vertex_format_code(format: CustomVertexFormat) -> u8 {
    match format {
        CustomVertexFormat::F32 => 0,
        CustomVertexFormat::F32Vec2 => 1,
        CustomVertexFormat::F32Vec3 => 2,
        CustomVertexFormat::F32Vec4 => 3,
        CustomVertexFormat::U32 => 4,
        CustomVertexFormat::U32Vec2 => 5,
        CustomVertexFormat::U32Vec3 => 6,
        CustomVertexFormat::U32Vec4 => 7,
        CustomVertexFormat::I32 => 8,
        CustomVertexFormat::I32Vec2 => 9,
        CustomVertexFormat::I32Vec3 => 10,
        CustomVertexFormat::I32Vec4 => 11,
    }
}

/// Key code of a vertex format.
pub fn vertex_format_key(format: CustomVertexFormat) -> (r: u8)
    ensures
        r == vertex_format_code(format),
{
    match format {
        CustomVertexFormat::F32 => 0,
        CustomVertexFormat::F32Vec2 => 1,
        CustomVertexFormat::F32Vec3 => 2,
        CustomVertexFormat::F32Vec4 => 3,
        CustomVertexFormat::U32 => 4,
        CustomVertexFormat::U32Vec2 => 5,
        CustomVertexFormat::U32Vec3 => 6,
        CustomVertexFormat::U32Vec4 => 7,
        CustomVertexFormat::I32 => 8,
        CustomVertexFormat::I32Vec2 => 9,
        CustomVertexFormat::I32Vec3 => 10,
        CustomVertexFormat::I32Vec4 => 11,
    }
}

/// Primitive topologies are keyed by their position in the topology list.
pub open spec fn primitive_code(primitive: CustomPrimitiveTopology) -> u8 {
    match primitive {
        CustomPrimitiveTopology::PointList => 0,
        CustomPrimitiveTopology::LineList => 1,
        CustomPrimitiveTopology::LineStrip => 2,
        CustomPrimitiveTopology::TriangleList => 3,
        CustomPrimitiveTopology::TriangleStrip => 4,
    }
}

/// Key code of a primitive topology.
pub fn primitive_key(primitive: CustomPrimitiveTopology) -> (r: u8)
    ensures
        r == primitive_code(primitive),
{
    match primitive {
        CustomPrimitiveTopology::PointList => 0,
        CustomPrimitiveTopology::LineList => 1,
        CustomPrimitiveTopology::LineStrip => 2,
        CustomPrimitiveTopology::TriangleList => 3,
        CustomPrimitiveTopology::TriangleStrip => 4,
    }
}

/// Blend modes are keyed by their position in the blend mode list.
pub open spec fn blend_code(mode: CustomBlendMode) -> u8 {
    match mode {
        CustomBlendMode::Default => 0,
        CustomBlendMode::Opaque => 1,
        CustomBlendMode::Alpha => 2,
        CustomBlendMode::PremultipliedAlpha => 3,
        CustomBlendMode::Additive => 4,
    }
}

/// Key code of a blend mode.
pub fn blend_mode_key(mode: CustomBlendMode) -> (r: u8)
    ensures
        r == blend_code(mode),
{
    match mode {
        CustomBlendMode::Default => 0,
        CustomBlendMode::Opaque => 1,
        CustomBlendMode::Alpha => 2,
        CustomBlendMode::PremultipliedAlpha => 3,
        CustomBlendMode::Additive => 4,
    }
}

/// Cull modes are keyed by their position in the cull mode list.
pub open spec fn cull_code(mode: CustomCullMode) -> u8 {
    match mode {
        CustomCullMode::Disabled => 0,
        CustomCullMode::Front => 1,
        CustomCullMode::Back => 2,
    }
}

/// Key code of a cull mode.
pub fn cull_mode_key(mode: CustomCullMode) -> (r: u8)
    ensures
        r == cull_code(mode),
{
    match mode {
        CustomCullMode::Disabled => 0,
        CustomCullMode::Front => 1,
        CustomCullMode::Back => 2,
    }
}

/// Front faces: counter-clockwise 0, clockwise 1.
pub open spec fn front_face_code(face: CustomFrontFace) -> u8 {
    match face {
        CustomFrontFace::Ccw => 0,
        CustomFrontFace::Cw => 1,
    }
}

/// Key code of a front face winding.
pub fn front_face_key(face: CustomFrontFace) -> (r: u8)
    ensures
        r == front_face_code(face),
{
    match face {
        CustomFrontFace::Ccw => 0,
        CustomFrontFace::Cw => 1,
    }
}

/// Depth formats are keyed from 1, so that 0 can mean "no depth".
pub open spec fn depth_format_code(format: CustomDepthFormat) -> u8 {
    match format {
        CustomDepthFormat::Depth32Float => 1,
    }
}

/// Key code of a depth format.
pub fn depth_format_key(format: CustomDepthFormat) -> (r: u8)
    ensures
        r == depth_format_code(format),
{
    match format {
        CustomDepthFormat::Depth32Float => 1,
    }
}

/// Depth compare functions are keyed by their position in the compare list.
pub open spec fn depth_compare_code(compare: CustomDepthCompare) -> u8 {
    match compare {
        CustomDepthCompare::Always => 0,
        CustomDepthCompare::Less => 1,
        CustomDepthCompare::LessEqual => 2,
        CustomDepthCompare::Greater => 3,
        CustomDepthCompare::GreaterEqual => 4,
    }
}

/// Key code of a depth compare function.
pub fn depth_compare_key(compare: CustomDepthCompare) -> (r: u8)
    ensures
        r == depth_compare_code(compare),
{
    match compare {
        CustomDepthCompare::Always => 0,
        CustomDepthCompare::Less => 1,
        CustomDepthCompare::LessEqual => 2,
        CustomDepthCompare::Greater => 3,
        CustomDepthCompare::GreaterEqual => 4,
    }
}

/// Key code of the depth write flag.
pub fn depth_write_key(write_enabled: bool) -> (r: u8)
    ensures
        r == (if write_enabled { 1u8 } else { 0u8 }),
{
    if write_enabled {
        1
    } else {
        0
    }
}

/// The key of a fixed-function state; without depth the depth codes are all 0.
pub open spec fn state_key(state: CustomPipelineState) -> PipelineStateKey {
    PipelineStateKey {
        blend: blend_code(state.blend),
        cull_mode: cull_code(state.cull_mode),
        front_face: front_face_code(state.front_face),
        depth_format: match state.depth {
            Some(d) => depth_format_code(d.format),
            None => 0,
        },
        depth_compare: match state.depth {
            Some(d) => depth_compare_code(d.compare),
            None => 0,
        },
        depth_write: match state.depth {
            Some(d) => if d.write_enabled { 1u8 } else { 0u8 },
            None => 0,
        },
        sample_count: state.sample_count,
    }
}

/// Key of a fixed-function state.
pub fn pipeline_state_key(state: CustomPipelineState) -> (r: PipelineStateKey)
    ensures
        r == state_key(state),
{
    let (depth_format, depth_compare, depth_write) = match state.depth {
        Some(depth) => (
            depth_format_key(depth.format),
            depth_compare_key(depth.compare),
            depth_write_key(depth.write_enabled),
        ),
        None => (0, 0, 0),
    };
    PipelineStateKey {
        blend: blend_mode_key(state.blend),
        cull_mode: cull_mode_key(state.cull_mode),
        front_face: front_face_key(state.front_face),
        depth_format,
        depth_compare,
        depth_write,
        sample_count: state.sample_count,
    }
}

/// The key of a binding kind: tags 0-3 for the sizeless kinds, 4 for
/// uniforms with their size, 5-7 for arrays with their count.
pub open spec fn kind_key(kind: CustomBindingKind) -> BindingKindKey {
    match kind {
        CustomBindingKind::Buffer => BindingKindKey { kind: 0, size: 0, count: 0 },
        CustomBindingKind::Texture => BindingKindKey { kind: 1, size: 0, count: 0 },
        CustomBindingKind::StorageTexture => BindingKindKey { kind: 2, size: 0, count: 0 },
        CustomBindingKind::Sampler => BindingKindKey { kind: 3, size: 0, count: 0 },
        CustomBindingKind::Uniform { size } => BindingKindKey { kind: 4, size, count: 0 },
        CustomBindingKind::BufferArray { count } => BindingKindKey { kind: 5, size: 0, count },
        CustomBindingKind::TextureArray { count } => BindingKindKey { kind: 6, size: 0, count },
        CustomBindingKind::StorageTextureArray { count } => BindingKindKey { kind: 7, size: 0, count },
    }
}

/// Key of a binding kind.
pub fn binding_kind_key(kind: CustomBindingKind) -> (r: BindingKindKey)
    ensures
        r == kind_key(kind),
{
    match kind {
        CustomBindingKind::Buffer => BindingKindKey { kind: 0, size: 0, count: 0 },
        CustomBindingKind::Texture => BindingKindKey { kind: 1, size: 0, count: 0 },
        CustomBindingKind::StorageTexture => BindingKindKey { kind: 2, size: 0, count: 0 },
        CustomBindingKind::Sampler => BindingKindKey { kind: 3, size: 0, count: 0 },
        CustomBindingKind::Uniform { size } => BindingKindKey { kind: 4, size, count: 0 },
        CustomBindingKind::BufferArray { count } => BindingKindKey { kind: 5, size: 0, count },
        CustomBindingKind::TextureArray { count } => BindingKindKey { kind: 6, size: 0, count },
        CustomBindingKind::StorageTextureArray { count } => BindingKindKey { kind: 7, size: 0, count },
    }
}

/// The key of a binding.
pub open spec fn binding_key_of(binding: CustomBindingDesc) -> BindingKey {
    BindingKey {
        name: binding_slot_number(binding.name) as u8,
        kind: kind_key(binding.kind),
        slot: binding.slot,
    }
}

/// Key of a binding.
pub fn binding_key(binding: &CustomBindingDesc) -> (r: BindingKey)
    ensures
        r == binding_key_of(*binding),
{
    BindingKey { name: binding_name_key(binding.name), kind: binding_kind_key(binding.kind), slot: binding.slot }
}

/// The key of a vertex attribute.
pub open spec fn attribute_key_of(attribute: CustomVertexAttribute) -> VertexAttributeKey {
    VertexAttributeKey {
        name: attribute_slot(attribute.name) as u8,
        offset: attribute.offset,
        format: vertex_format_code(attribute.format),
        location: attribute.location,
    }
}

/// Key of a vertex attribute.
pub fn vertex_attribute_key(attribute: &CustomVertexAttribute) -> (r: VertexAttributeKey)
    ensures
        r == attribute_key_of(*attribute),
{
    VertexAttributeKey {
        name: vertex_attribute_name_key(attribute.name),
        offset: attribute.offset,
        format: vertex_format_key(attribute.format),
        location: attribute.location,
    }
}

/// Whether `key` is the key of `fetch`: same stride and step, and the keys
/// of its attributes in order.
pub open spec fn is_fetch_key(key: VertexFetchKey, fetch: CustomVertexFetch) -> bool {
    &&& key.stride == fetch.layout.stride
    &&& key.instanced == fetch.instanced
    &&& key.attributes@ == fetch.layout.attributes@.map_values(|a: CustomVertexAttribute| attribute_key_of(a))
}

/// Key of a vertex fetch.
pub fn vertex_fetch_key(fetch: &CustomVertexFetch) -> (r: VertexFetchKey)
    ensures
        is_fetch_key(r, *fetch),
{
    let attrs = &fetch.layout.attributes;
    let mut keys: Vec<VertexAttributeKey> = Vec::new();
    let mut i: usize = 0;
    while i < attrs.len()
        invariant
            i <= attrs.len(),
            keys@ == attrs@.take(i as int).map_values(|a: CustomVertexAttribute| attribute_key_of(a)),
        decreases attrs.len() - i,
    {
        keys.push(vertex_attribute_key(&attrs[i]));
        proof {
            assert(attrs@.take(i + 1).map_values(|a: CustomVertexAttribute| attribute_key_of(a))
                =~= attrs@.take(i as int).map_values(|a: CustomVertexAttribute| attribute_key_of(a)).push(
                attribute_key_of(attrs@[i as int]),
            ));
        }
        i += 1;
    }
    proof {
        assert(attrs@.take(attrs@.len() as int) =~= attrs@);
    }
    VertexFetchKey { stride: fetch.layout.stride, instanced: fetch.instanced, attributes: keys }
}

/// Whether `key` is the cache key of `desc` with shader source `source`
/// and resolved color formats `color_formats`.
pub open spec fn is_cache_key(
    key: PipelineCacheKey,
    desc: CustomPipelineDesc,
    source: PipelineSourceKey,
    color_formats: Seq<u64>,
) -> bool {
    &&& key.source == source
    &&& key.vertex_entry@ == desc.vertex_entry@
    &&& key.fragment_entry@ == desc.fragment_entry@
    &&& key.primitive == primitive_code(desc.primitive)
    &&& key.color_formats@ == color_formats
    &&& key.state == state_key(desc.state)
    &&& key.vertex_fetches@.len() == desc.vertex_fetches@.len()
    &&& forall|i: int| 0 <= i < desc.vertex_fetches@.len() ==> is_fetch_key(
        #[trigger] key.vertex_fetches@[i],
        desc.vertex_fetches@[i],
    )
    &&& key.push_constants == (match desc.push_constants {
        Some(p) => Some(p.size),
        None => None,
    })
    &&& key.bindings@ == desc.bindings@.map_values(|b: CustomBindingDesc| binding_key_of(b))
}

/// Cache key of a render pipeline request; `color_formats` are the device
/// formats of its color targets.
pub fn pipeline_cache_key(desc: &CustomPipelineDesc, source: PipelineSourceKey, color_formats: &[u64]) -> (r:
    PipelineCacheKey)
    ensures
        is_cache_key(r, *desc, source, color_formats@),
{
    let mut formats: Vec<u64> = Vec::new();
    let mut i: usize = 0;
    while i < color_formats.len()
        invariant
            i <= color_formats@.len(),
            formats@ == color_formats@.take(i as int),
        decreases color_formats@.len() - i,
    {
        formats.push(color_formats[i]);
        proof {
            assert(color_formats@.take(i + 1) =~= color_formats@.take(i as int).push(color_formats@[i as int]));
        }
        i += 1;
    }
    proof {
        assert(color_formats@.take(color_formats@.len() as int) =~= color_formats@);
    }
    let mut fetches: Vec<VertexFetchKey> = Vec::new();
    let mut f: usize = 0;
    while f < desc.vertex_fetches.len()
        invariant
            f <= desc.vertex_fetches@.len(),
            fetches@.len() == f,
            forall|k: int| 0 <= k < f ==> is_fetch_key(#[trigger] fetches@[k], desc.vertex_fetches@[k]),
        decreases desc.vertex_fetches@.len() - f,
    {
        fetches.push(vertex_fetch_key(&desc.vertex_fetches[f]));
        f += 1;
    }
    let mut bindings: Vec<BindingKey> = Vec::new();
    let mut b: usize = 0;
    while b < desc.bindings.len()
        invariant
            b <= desc.bindings@.len(),
            bindings@ == desc.bindings@.take(b as int).map_values(|x: CustomBindingDesc| binding_key_of(x)),
        decreases desc.bindings@.len() - b,
    {
        bindings.push(binding_key(&desc.bindings[b]));
        proof {
            assert(desc.bindings@.take(b + 1).map_values(|x: CustomBindingDesc| binding_key_of(x))
                =~= desc.bindings@.take(b as int).map_values(|x: CustomBindingDesc| binding_key_of(x)).push(
                binding_key_of(desc.bindings@[b as int]),
            ));
        }
        b += 1;
    }
    proof {
        assert(desc.bindings@.take(desc.bindings@.len() as int) =~= desc.bindings@);
    }
    let push_constants = match desc.push_constants {
        Some(push) => Some(push.size),
        None => None,
    };
    PipelineCacheKey {
        source,
        vertex_entry: desc.vertex_entry.clone(),
        fragment_entry: desc.fragment_entry.clone(),
        primitive: primitive_key(desc.primitive),
        color_formats: formats,
        state: pipeline_state_key(desc.state),
        vertex_fetches: fetches,
        push_constants,
        bindings,
    }
}

/// Pipelines with different fixed-function states get different state keys.
pub proof fn lemma_state_key_injective(a: CustomPipelineState, b: CustomPipelineState)
    requires
        state_key(a) == state_key(b),
    ensures
        a == b,
{
}

/// Different binding kinds get different kind keys.
pub proof fn lemma_kind_key_injective(a: CustomBindingKind, b: CustomBindingKind)
    requires
        kind_key(a) == kind_key(b),
    ensures
        a == b,
{
}

/// Different bindings get different binding keys.
pub proof fn lemma_binding_key_injective(a: CustomBindingDesc, b: CustomBindingDesc)
    requires
        binding_key_of(a) == binding_key_of(b),
    ensures
        a == b,
{
    lemma_kind_key_injective(a.kind, b.kind);
}

/// Different vertex attributes get different attribute keys.
pub proof fn lemma_attribute_key_injective(a: CustomVertexAttribute, b: CustomVertexAttribute)
    requires
        attribute_key_of(a) == attribute_key_of(b),
    ensures
        a == b,
{
}

/// The hash that the standard library's `DefaultHasher` gives a byte slice.
pub uninterp spec fn std_default_hash_of_bytes(data: Seq<u8>) -> u64;

/// Hashes library data with `std::hash::DefaultHasher` (SipHash with fixed
/// keys, so equal data hashes equally within one build). The contract only
/// names the result: it is the same for the same bytes.
#[verifier::external_body]
fn metal_library_data_hash(data: &[u8]) -> (r: u64)
    ensures
        r == std_default_hash_of_bytes(data@),
{
    let mut hasher = std::hash::DefaultHasher::new();
    data.hash(&mut hasher);
    hasher.finish()
}

/// The source key of a pipeline's shader code: the WGSL or device source
/// itself, or a precompiled library's hash and length.
pub open spec fn source_key_of(desc: CustomPipelineDesc, source: PipelineLibrarySource) -> PipelineSourceKey {
    match source {
        PipelineLibrarySource::Wgsl => PipelineSourceKey::Wgsl(desc.shader_source),
        PipelineLibrarySource::Msl(msl) => PipelineSourceKey::Msl(msl),
        PipelineLibrarySource::Metallib(data) => PipelineSourceKey::Metallib {
            hash: std_default_hash_of_bytes(data@),
            len: data@.len() as usize,
        },
    }
}

/// Source key of a render pipeline request.
pub fn pipeline_source_key(desc: &CustomPipelineDesc, source: &PipelineLibrarySource) -> (r: PipelineSourceKey)
    ensures
        r == source_key_of(*desc, *source),
{
    match source {
        PipelineLibrarySource::Wgsl => PipelineSourceKey::Wgsl(desc.shader_source.clone()),
        PipelineLibrarySource::Msl(msl) => PipelineSourceKey::Msl(msl.clone()),
        PipelineLibrarySource::Metallib(data) => {
            let bytes: &[u8] = data;
            PipelineSourceKey::Metallib { hash: metal_library_data_hash(bytes), len: bytes.len() }
        },
    }
}

} // verus!
