//! The error type of the custom draw library.
use vstd::prelude::*;
use crate::types::CustomBindingName;
use crate::texture::CustomTextureFormat;
use crate::shader::ShaderResourceRequirement;

verus! {

/// Why a custom draw request was refused.
#[derive(Debug, Clone)]
pub enum CustomDrawError {
    /// The vertex entry point name is empty or only whitespace.
    EmptyVertexEntry,
    /// The fragment entry point name is empty or only whitespace.
    EmptyFragmentEntry,
    /// The compute entry point name is empty or only whitespace.
    EmptyComputeEntry,
    /// Push constants must be non-zero and 16-byte aligned.
    InvalidPushConstantsSize { size: u32 },
    /// Sample counts must be a power of two between 1 and the maximum.
    InvalidSampleCount { count: u32 },
    /// More color targets than a render pipeline supports.
    TooManyColorTargets { count: usize },
    /// A color target uses a block-compressed format.
    CompressedColorTarget,
    /// A uniform binding size is zero or not 16-byte aligned.
    InvalidUniformSize { size: u32 },
    /// A binding array count is zero or above the maximum.
    InvalidBindingArrayCount { count: u32 },
    /// Two bindings share a name.
    DuplicateBindingName { name: CustomBindingName },
    /// Two vertex attributes share an explicit location.
    DuplicateVertexLocation { location: u32 },
    /// A binding index is above the maximum binding index.
    BindingIndexOutOfRange { binding: u32 },
    /// Two bindings resolve to the same group and binding.
    DuplicateBindingSlot { group: u32, binding: u32 },
    /// The device cannot sample this texture format.
    UnsupportedTextureFormat { format: CustomTextureFormat },
    /// A texture description carries no mip level data.
    MissingMipLevels,
    /// A texture description carries more mip levels than its size allows.
    TooManyMipLevels { count: usize, max: u32 },
    /// A texture array was described with zero layers.
    ZeroArrayLayers,
    /// A cube texture was described with a width different from its height.
    CubeNotSquare,
    /// The data of a mip level is shorter than the level's size.
    MipLevelTooSmall { level: usize },
    /// A texture usage has neither the sampled nor the storage flag.
    EmptyTextureUsage,
    /// A storage texture was described as an array or cube.
    StorageTextureNot2d,
    /// A storage texture uses a block-compressed format.
    CompressedStorageTexture,
    /// A render target uses a block-compressed format.
    CompressedRenderTarget,
    /// A render target sample count is not a power of two between 1 and the maximum.
    InvalidRenderTargetSampleCount { count: u32 },
    /// A depth target sample count is not a power of two between 1 and the maximum.
    InvalidDepthTargetSampleCount { count: u32 },
    /// No texture is registered under the given identifier.
    TextureIdOutOfRange,
    /// Render targets cannot be written from the CPU.
    RenderTargetNotUpdatable,
    /// The mip level of an update is not below the texture's mip level count.
    MipLevelOutOfRange { level: u32 },
    /// An explicit row stride is below the packed row size.
    RowStrideTooSmall { bytes_per_row: u32, packed_bytes_per_row: u32 },
    /// An explicit row stride is not a multiple of the texel block size.
    RowStrideMisaligned { bytes_per_row: u32, bytes_per_block: u32 },
    /// Texture update data is shorter than the mip level.
    TextureDataTooSmall,
    /// No buffer is registered under the given identifier.
    BufferIdOutOfRange,
    /// A buffer slice used as texture source has size zero.
    EmptyBufferSlice,
    /// A buffer slice used as texture source ends past its buffer.
    BufferSliceOutOfRange,
    /// Texture updates from buffers need a registered buffer, not inline data.
    InlineTextureSource,
    /// The source buffer range is shorter than the mip level.
    TextureBufferTooSmall,
    /// The source buffer's contents are not visible to the CPU.
    BufferNotCpuAccessible,
    /// The source buffer offset does not fit in the address space.
    BufferOffsetTooLarge,
    /// The source buffer range length does not fit in the address space.
    BufferSizeTooLarge,
    /// The source buffer range end does not fit in the address space.
    BufferRangeTooLarge,
    /// The WGSL source does not parse; the parser's message.
    ShaderParseFailed { message: String },
    /// The parsed shader does not validate; the validator's message.
    ShaderValidationFailed { message: String },
    /// The shader has no entry point with the vertex entry name.
    VertexEntryNotFound { name: String },
    /// The shader has no entry point with the fragment entry name.
    FragmentEntryNotFound { name: String },
    /// The shader has no entry point with the compute entry name.
    ComputeEntryNotFound { name: String },
    /// The named compute entry point is not a compute shader.
    NotComputeEntry { name: String },
    /// The compute entry point's workgroup size uses override expressions.
    WorkgroupSizeOverrides,
    /// Device shading language could not be written; the writer's message.
    MslWriteFailed { message: String },
    /// The writer reported no result for an entry point.
    MslEntryMissing,
    /// The writer could not write an entry point; its message.
    MslEntryFailed { message: String },
    /// Device shading language source is empty or only whitespace.
    EmptyMslSource,
    /// Precompiled device library data is empty.
    EmptyMetalLibrary,
    /// A shader variable does not have the type its binding kind needs.
    BindingTypeMismatch { name: Option<String>, entry: String, expected: ShaderResourceRequirement },
    /// A binding array's length is an override expression.
    BindingArrayLengthNotConstant { name: Option<String>, entry: String },
    /// A binding array is runtime-sized.
    BindingArrayRuntimeSized { name: Option<String>, entry: String },
    /// A binding array's length differs from the declared count.
    BindingArrayLengthMismatch { name: Option<String>, expected: u32, actual: u32 },
    /// The shader's type layouts could not be computed for a uniform.
    UniformLayoutFailed,
    /// A uniform's size in the shader differs from the declared size.
    UniformSizeMismatch { name: Option<String>, expected: u32, actual: u32 },
    /// A shader variable's explicit group and binding match no declared binding.
    UndeclaredExplicitBinding { group: u32, binding: u32, name: Option<String> },
    /// A shader variable's name matches no declared binding.
    UndeclaredBinding { name: Option<String> },
    /// The push constants block's name is also a binding name.
    PushConstantsNameConflict { name: String },
    /// The shader uses more than one push constants block.
    MultiplePushConstantBlocks,
    /// Push constants were declared but the shader uses no push constants block.
    UnexpectedPushConstants,
    /// The shader uses a push constants block but none was declared.
    MissingPushConstants,
    /// The shader's type layouts could not be computed for push constants.
    PushConstantsLayoutFailed,
    /// The shader's push constants size differs from the declared size.
    PushConstantsSizeMismatch { expected: u32, actual: u32 },
    /// A vertex entry point takes an input that is not a struct.
    VertexInputNotStruct { entry: String },
    /// A vertex input struct member has no name.
    VertexInputMemberUnnamed,
    /// A vertex input struct member names no attribute of the layout.
    VertexInputNotInLayout { name: String },
    /// Giving a vertex input struct its locations would make it equal to
    /// another type of the shader module.
    VertexInputTypeConflict,
    /// More vertex buffers than device buffer slots can be addressed.
    TooManyVertexBuffers,
    /// A binding's position exceeds the device's slot numbering.
    BindingSlotLimit,
    /// A buffer slot number overflows the device's slot numbering.
    BufferSlotOverflow,
    /// The push constants buffer slot overflows the device's slot numbering.
    PushConstantsSlotOverflow,
    /// No binding array of the shader sits at a declared binding array's slot.
    BindingArrayNotFound { name: CustomBindingName },
    /// No entry point of the pipeline uses a declared binding array.
    BindingArrayUnused { name: CustomBindingName },
}

} // verus!
