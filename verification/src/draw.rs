//! Draw-call and dispatch parameters, buffer sources, frame statistics, and
//! the FNV-style hashes that group draws into batches.
use vstd::prelude::*;
use std::sync::Arc;
use crate::types::{
    CustomBufferId, CustomComputePipelineId, CustomDepthTargetId, CustomIndexFormat,
    CustomPipelineId, CustomSamplerId, CustomTextureId,
};

verus! {

/// FNV-1a 64-bit prime.
pub const FNV_PRIME: u64 = 1099511628211;

/// FNV-1a 64-bit offset basis.
pub const FNV_OFFSET: u64 = 1469598103934665603;

/// Number of leading bytes of inline data that take part in its hash.
pub const INLINE_HASH_PREFIX: usize = 64;

/// Buffer description for custom GPU rendering.
#[derive(Debug, Clone)]
pub struct CustomBufferDesc {
    /// Debug name for the buffer.
    pub name: String,
    /// Initial buffer contents.
    pub data: Arc<[u8]>,
}

/// Source for a custom buffer binding.
#[derive(Debug, Clone)]
pub enum CustomBufferSource {
    /// Buffer previously registered in the custom draw registry.
    Buffer(CustomBufferId),
    /// Slice of a registered buffer.
    BufferSlice {
        /// Buffer identifier.
        id: CustomBufferId,
        /// Byte offset into the buffer.
        offset: u64,
        /// Byte size of the slice.
        size: u64,
    },
    /// Inline buffer contents embedded in the draw call.
    Inline(Arc<[u8]>),
}

/// One hash step: multiply by the FNV prime (wrapping), then mix in `value`.
pub open spec fn mix(hash: u64, value: u64) -> u64 {
    hash.wrapping_mul(FNV_PRIME) ^ value
}

/// `mix` applied to each value in turn, starting from `hash`.
pub open spec fn mix_all(hash: u64, values: Seq<u64>) -> u64
    decreases values.len(),
{
    if values.len() == 0 {
        hash
    } else {
        mix(mix_all(hash, values.drop_last()), values.last())
    }
}

/// FNV-1a over bytes: xor in each byte, then multiply by the prime.
pub open spec fn fnv1a(bytes: Seq<u8>) -> u64
    decreases bytes.len(),
{
    if bytes.len() == 0 {
        FNV_OFFSET
    } else {
        (fnv1a(bytes.drop_last()) ^ (bytes.last() as u64)).wrapping_mul(FNV_PRIME)
    }
}

/// The hash of a buffer source: registered buffers by id (and slice bounds),
/// inline data by FNV-1a of its first 64 bytes mixed with its length.
pub open spec fn buffer_source_hash(source: CustomBufferSource) -> u64 {
    match source {
        CustomBufferSource::Buffer(id) => (id.0 as u64).wrapping_mul(FNV_PRIME),
        CustomBufferSource::BufferSlice { id, offset, size } => mix(
            (id.0 as u64).wrapping_mul(FNV_PRIME) ^ offset,
            size,
        ),
        CustomBufferSource::Inline(data) => {
            let n = if data@.len() < INLINE_HASH_PREFIX { data@.len() } else { INLINE_HASH_PREFIX as nat };
            fnv1a(data@.take(n as int)) ^ (data@.len() as u64)
        },
    }
}

fn fnv1a_prefix(data: &[u8], n: usize) -> (r: u64)
    requires
        n <= data@.len(),
    ensures
        r == fnv1a(data@.take(n as int)),
{
    let mut hash: u64 = FNV_OFFSET;
    let mut i: usize = 0;
    proof {
        assert(data@.take(0) =~= Seq::<u8>::empty());
    }
    while i < n
        invariant
            i <= n <= data@.len(),
            hash == fnv1a(data@.take(i as int)),
        decreases n - i,
    {
        proof {
            assert(data@.take(i + 1).drop_last() =~= data@.take(i as int));
        }
        hash = hash ^ (data[i] as u64);
        hash = hash.wrapping_mul(FNV_PRIME);
        i += 1;
    }
    hash
}

impl CustomBufferSource {
    /// Hash of this source for batching draws.
    pub fn hash(&self) -> (r: u64)
        ensures
            r == buffer_source_hash(*self),
    {
        match self {
            CustomBufferSource::Buffer(id) => (id.0 as u64).wrapping_mul(FNV_PRIME),
            CustomBufferSource::BufferSlice { id, offset, size } => {
                let mut hash = (id.0 as u64).wrapping_mul(FNV_PRIME);
                hash = hash ^ *offset;
                hash = hash.wrapping_mul(FNV_PRIME);
                hash = hash ^ *size;
                hash
            },
            CustomBufferSource::Inline(data) => {
                let bytes: &[u8] = data;
                let n = if bytes.len() < INLINE_HASH_PREFIX { bytes.len() } else { INLINE_HASH_PREFIX };
                fnv1a_prefix(bytes, n) ^ (bytes.len() as u64)
            },
        }
    }
}

/// Vertex buffer binding for a draw call.
#[derive(Debug, Clone)]
pub struct CustomVertexBuffer {
    /// Buffer source.
    pub source: CustomBufferSource,
}

/// Index buffer binding for a draw call.
#[derive(Debug, Clone)]
pub struct CustomIndexBuffer {
    /// Buffer source.
    pub source: CustomBufferSource,
    /// Index format.
    pub format: CustomIndexFormat,
}

/// Render target selection for custom draws.
#[derive(Debug, Clone, PartialEq, Eq, Hash)]
pub struct CustomRenderTarget {
    /// Color target textures.
    pub colors: Vec<CustomTextureId>,
    /// Optional depth target.
    pub depth: Option<CustomDepthTargetId>,
}

/// The hash of a render target: its color ids mixed in order, then its depth id.
pub open spec fn render_target_hash(target: CustomRenderTarget) -> u64 {
    let colors = mix_all(FNV_OFFSET, target.colors@.map_values(|c: CustomTextureId| c.0 as u64));
    match target.depth {
        Some(depth) => mix(colors, depth.0 as u64),
        None => colors,
    }
}

impl CustomRenderTarget {
    /// Hash of this target selection for batching draws.
    pub fn hash(&self) -> (r: u64)
        ensures
            r == render_target_hash(*self),
    {
        let ghost ids = self.colors@.map_values(|c: CustomTextureId| c.0 as u64);
        let mut hash = FNV_OFFSET;
        let mut i: usize = 0;
        proof {
            assert(ids.take(0) =~= Seq::<u64>::empty());
        }
        while i < self.colors.len()
            invariant
                i <= self.colors.len(),
                ids == self.colors@.map_values(|c: CustomTextureId| c.0 as u64),
                hash == mix_all(FNV_OFFSET, ids.take(i as int)),
            decreases self.colors.len() - i,
        {
            proof {
                assert(ids.take(i + 1).drop_last() =~= ids.take(i as int));
            }
            hash = hash.wrapping_mul(FNV_PRIME);
            hash = hash ^ (self.colors[i].0 as u64);
            i += 1;
        }
        proof {
            assert(ids.take(ids.len() as int) =~= ids);
        }
        if let Some(depth) = self.depth {
            hash = hash.wrapping_mul(FNV_PRIME);
            hash = hash ^ (depth.0 as u64);
        }
        hash
    }
}

/// Parameters for a custom draw call; `B` is the caller's bounds type.
#[derive(Debug, Clone)]
pub struct CustomDrawParams<B> {
    /// Bounds in window coordinates.
    pub bounds: B,
    /// Pipeline to use.
    pub pipeline: CustomPipelineId,
    /// Vertex buffers bound for the draw.
    pub vertex_buffers: Vec<CustomVertexBuffer>,
    /// Number of vertices to draw (non-indexed draws only).
    pub vertex_count: u32,
    /// Optional index buffer for indexed draws.
    pub index_buffer: Option<CustomIndexBuffer>,
    /// Number of indices to draw when using an index buffer.
    pub index_count: u32,
    /// Optional render target for offscreen passes.
    pub target: Option<CustomRenderTarget>,
    /// Number of instances to draw.
    pub instance_count: u32,
    /// Optional push constants data.
    pub push_constants: Option<Arc<[u8]>>,
    /// Optional shader bindings.
    pub bindings: Vec<CustomBindingValue>,
}

/// Parameters for a custom compute dispatch.
#[derive(Debug, Clone)]
pub struct CustomComputeDispatch {
    /// Compute pipeline to use.
    pub pipeline: CustomComputePipelineId,
    /// Optional push constants data.
    pub push_constants: Option<Arc<[u8]>>,
    /// Bindings for the dispatch.
    pub bindings: Vec<CustomBindingValue>,
    /// Workgroup counts for the dispatch.
    pub workgroup_count: [u32; 3],
}

/// Binding values for a custom draw call.
#[derive(Debug, Clone)]
pub enum CustomBindingValue {
    /// Storage buffer binding.
    Buffer(CustomBufferSource),
    /// Storage buffer binding array.
    BufferArray(Vec<CustomBufferSource>),
    /// Texture binding.
    Texture(CustomTextureId),
    /// Texture binding array.
    TextureArray(Vec<CustomTextureId>),
    /// Sampler binding.
    Sampler(CustomSamplerId),
    /// Uniform/constant buffer binding.
    Uniform(CustomBufferSource),
}

/// The hash of a binding value: a tag per kind, then its contents (array
/// lengths before their elements), each mixed into the FNV offset basis.
pub open spec fn binding_value_hash(value: CustomBindingValue) -> u64 {
    match value {
        CustomBindingValue::Buffer(source) => mix(mix(FNV_OFFSET, 1), buffer_source_hash(source)),
        CustomBindingValue::BufferArray(sources) => mix_all(
            mix(mix(FNV_OFFSET, 5), sources@.len() as u64),
            sources@.map_values(|s: CustomBufferSource| buffer_source_hash(s)),
        ),
        CustomBindingValue::Texture(id) => mix(mix(FNV_OFFSET, 2), id.0 as u64),
        CustomBindingValue::TextureArray(ids) => mix_all(
            mix(mix(FNV_OFFSET, 6), ids@.len() as u64),
            ids@.map_values(|id: CustomTextureId| id.0 as u64),
        ),
        CustomBindingValue::Sampler(id) => mix(mix(FNV_OFFSET, 3), id.0 as u64),
        CustomBindingValue::Uniform(source) => mix(mix(FNV_OFFSET, 4), buffer_source_hash(source)),
    }
}

fn mix_exec(hash: u64, value: u64) -> (r: u64)
    ensures
        r == mix(hash, value),
{
    hash.wrapping_mul(FNV_PRIME) ^ value
}

impl CustomBindingValue {
    /// Hash of this binding value for batching draws.
    pub fn hash(&self) -> (r: u64)
        ensures
            r == binding_value_hash(*self),
    {
        match self {
            CustomBindingValue::Buffer(source) => mix_exec(mix_exec(FNV_OFFSET, 1), source.hash()),
            CustomBindingValue::BufferArray(sources) => {
                let ghost hs = sources@.map_values(|s: CustomBufferSource| buffer_source_hash(s));
                let mut hash = mix_exec(mix_exec(FNV_OFFSET, 5), sources.len() as u64);
                let ghost start = hash;
                let mut i: usize = 0;
                proof {
                    assert(hs.take(0) =~= Seq::<u64>::empty());
                }
                while i < sources.len()
                    invariant
                        i <= sources.len(),
                        hs == sources@.map_values(|s: CustomBufferSource| buffer_source_hash(s)),
                        hash == mix_all(start, hs.take(i as int)),
                    decreases sources.len() - i,
                {
                    proof {
                        assert(hs.take(i + 1).drop_last() =~= hs.take(i as int));
                    }
                    hash = mix_exec(hash, sources[i].hash());
                    i += 1;
                }
                proof {
                    assert(hs.take(hs.len() as int) =~= hs);
                }
                hash
            },
            CustomBindingValue::Texture(id) => mix_exec(mix_exec(FNV_OFFSET, 2), id.0 as u64),
            CustomBindingValue::TextureArray(ids) => {
                let ghost vs = ids@.map_values(|id: CustomTextureId| id.0 as u64);
                let mut hash = mix_exec(mix_exec(FNV_OFFSET, 6), ids.len() as u64);
                let ghost start = hash;
                let mut i: usize = 0;
                proof {
                    assert(vs.take(0) =~= Seq::<u64>::empty());
                }
                while i < ids.len()
                    invariant
                        i <= ids.len(),
                        vs == ids@.map_values(|id: CustomTextureId| id.0 as u64),
                        hash == mix_all(start, vs.take(i as int)),
                    decreases ids.len() - i,
                {
                    proof {
                        assert(vs.take(i + 1).drop_last() =~= vs.take(i as int));
                    }
                    hash = mix_exec(hash, ids[i].0 as u64);
                    i += 1;
                }
                proof {
                    assert(vs.take(vs.len() as int) =~= vs);
                }
                hash
            },
            CustomBindingValue::Sampler(id) => mix_exec(mix_exec(FNV_OFFSET, 3), id.0 as u64),
            CustomBindingValue::Uniform(source) => mix_exec(mix_exec(FNV_OFFSET, 4), source.hash()),
        }
    }
}

/// GPU profiling result for custom draw and compute work in one frame.
#[derive(Debug, Clone, Copy, PartialEq, Eq, Structural)]
pub struct CustomGpuFrameProfile {
    /// Number of custom draw commands submitted in the frame.
    pub custom_draw_count: u32,
    /// Number of custom compute dispatches submitted in the frame.
    pub custom_compute_count: u32,
    /// Number of custom render passes submitted in the frame.
    pub custom_render_pass_count: u32,
    /// Number of custom compute passes submitted in the frame.
    pub custom_compute_pass_count: u32,
    /// Total GPU time in nanoseconds for the command buffer when available.
    pub gpu_time_ns: Option<u64>,
}

/// Snapshot of custom draw GPU resources currently held by the registry.
#[derive(Debug, Clone, Copy, PartialEq, Eq, Structural)]
pub struct CustomDrawResourceStats {
    /// Number of custom render pipelines.
    pub pipeline_count: u32,
    /// Number of custom compute pipelines.
    pub compute_pipeline_count: u32,
    /// Number of custom buffers.
    pub buffer_count: u32,
    /// Total custom buffer bytes.
    pub buffer_bytes: u64,
    /// Number of custom textures, including render targets.
    pub texture_count: u32,
    /// Total estimated custom texture bytes.
    pub texture_bytes: u64,
    /// Number of custom render target textures.
    pub render_target_count: u32,
    /// Number of custom depth targets.
    pub depth_target_count: u32,
    /// Total estimated custom depth target bytes.
    pub depth_target_bytes: u64,
    /// Number of custom samplers.
    pub sampler_count: u32,
}

/// Per-frame diagnostics for custom draw and custom compute pacing.
#[derive(Debug, Clone, Copy, PartialEq, Eq, Structural)]
pub struct CustomFrameDiagnostics {
    /// Number of custom draw commands submitted in the frame.
    pub custom_draw_count: u32,
    /// Number of custom compute dispatches submitted in the frame.
    pub custom_compute_count: u32,
    /// Number of custom render passes submitted in the frame.
    pub custom_render_pass_count: u32,
    /// Number of custom compute passes submitted in the frame.
    pub custom_compute_pass_count: u32,
    /// Number of draw retries due to temporary resource pressure.
    pub retry_count: u32,
    /// CPU time in nanoseconds spent encoding the frame command buffer.
    pub cpu_encode_time_ns: u64,
    /// Nanoseconds from commit call to command buffer scheduling when available.
    pub submit_to_scheduled_ns: Option<u64>,
    /// Nanoseconds from commit call to command buffer completion when available.
    pub submit_to_completed_ns: Option<u64>,
    /// Nanoseconds from command buffer scheduling to completion when available.
    pub scheduled_to_completed_ns: Option<u64>,
    /// Total GPU time in nanoseconds for the command buffer when available.
    pub gpu_time_ns: Option<u64>,
}

/// Key under which compatible custom draws are batched together.
#[derive(Debug, Clone, Copy, PartialEq, Eq, Hash, Structural)]
pub struct CustomBatchKey {
    pub pipeline: CustomPipelineId,
    pub target_hash: u64,
    pub bindings_hash: u64,
}

/// A custom draw as recorded in a scene; `B` is the scene's bounds type,
/// used for both the draw bounds and its content mask.
#[derive(Debug, Clone)]
pub struct CustomDraw<B> {
    pub order: u32,
    pub bounds: B,
    pub content_mask: B,
    pub pipeline: CustomPipelineId,
    pub vertex_buffers: Vec<CustomVertexBuffer>,
    pub vertex_count: u32,
    pub index_buffer: Option<CustomIndexBuffer>,
    pub index_count: u32,
    pub target: Option<CustomRenderTarget>,
    pub instance_count: u32,
    pub bindings: Vec<CustomBindingValue>,
    pub batch_key: CustomBatchKey,
}

/// A custom compute dispatch as recorded in a scene.
#[derive(Debug, Clone)]
pub struct CustomCompute {
    pub pipeline: CustomComputePipelineId,
    pub bindings: Vec<CustomBindingValue>,
    pub workgroup_count: [u32; 3],
}

} // verus!
