//! Checks and layout plans for creating and updating textures, render
//! targets and depth targets.
use vstd::prelude::*;
use std::sync::Arc;
use crate::draw::CustomBufferSource;
use crate::error::CustomDrawError;
use crate::sizing::{ceil_div, div_ceil, halve_clamped, larger, max_mip_levels, mip_level_size, mip_levels_for};
use crate::texture::{
    CustomTexelBlockInfo, CustomTextureBufferUpdate, CustomTextureDesc, CustomTextureDimension,
    CustomTextureFormat, CustomTextureUpdate, format_is_compressed, texel_block, usage_sampled,
    usage_storage,
};
use crate::types::CustomBufferId;
use crate::validate::{ElementCheck, either, first_error, lemma_first_error_all, lemma_first_error_none_at,
    lemma_first_error_prefix, lemma_first_error_step, sample_count_is_valid, valid_sample_count};

verus! {

// ---------------------------------------------------------------------------
// Creating textures
// ---------------------------------------------------------------------------

/// How a texture description is laid out on the device.
#[derive(Debug, Clone, Copy, PartialEq, Eq, Structural)]
pub struct CustomTexturePlan {
    /// Layers of every mip level: 1 for 2D, the layer count for arrays, 6 for cubes.
    pub array_layer_count: u32,
    /// Array length of the device texture: the layer count for arrays, else 1.
    pub array_length: u32,
    /// Number of mip levels, one per data entry.
    pub mip_level_count: u32,
    /// Texel block of the format.
    pub block: CustomTexelBlockInfo,
    /// Whether shaders may read the texture.
    pub shader_read: bool,
    /// Whether shaders may write the texture.
    pub shader_write: bool,
}

/// Layer count and device array length of a dimension, or why it is refused.
pub open spec fn texture_layers(
    dimension: CustomTextureDimension,
    width: u32,
    height: u32,
) -> Result<(u32, u32), CustomDrawError> {
    match dimension {
        CustomTextureDimension::D2 => Ok((1, 1)),
        CustomTextureDimension::D2Array { layers } => if layers == 0 {
            Err(CustomDrawError::ZeroArrayLayers)
        } else {
            Ok((layers, layers))
        },
        CustomTextureDimension::Cube => if width != height {
            Err(CustomDrawError::CubeNotSquare)
        } else {
            Ok((6, 1))
        },
    }
}

/// Bytes that the data of mip level `index` must hold: its blocks, times the
/// block size, times the layers (the level is taken as a `u32`, as the device API does).
pub open spec fn level_required_bytes(desc: CustomTextureDesc, layers: nat, index: nat) -> nat {
    let b = texel_block(desc.format);
    let level = (index as u32) as nat;
    ceil_div(halve_clamped(desc.width as nat, level), b.width as nat) * ceil_div(
        halve_clamped(desc.height as nat, level),
        b.height as nat,
    ) * (b.bytes as nat) * layers
}

/// A mip level whose data is shorter than the level.
pub open spec fn level_check(desc: CustomTextureDesc, layers: nat) -> ElementCheck<Arc<[u8]>> {
    |prev: Seq<Arc<[u8]>>, data: Arc<[u8]>|
        if data@.len() < level_required_bytes(desc, layers, prev.len()) {
            Some(CustomDrawError::MipLevelTooSmall { level: prev.len() as usize })
        } else {
            None
        }
}

/// The checks that come before the per-level data checks.
pub open spec fn texture_shape_error(desc: CustomTextureDesc, format_supported: bool) -> Option<
    CustomDrawError,
> {
    if !format_supported {
        Some(CustomDrawError::UnsupportedTextureFormat { format: desc.format })
    } else if desc.data@.len() == 0 {
        Some(CustomDrawError::MissingMipLevels)
    } else if (desc.data@.len() as u32) > mip_levels_for(larger(desc.width as nat, desc.height as nat)) {
        Some(
            CustomDrawError::TooManyMipLevels {
                count: desc.data@.len() as usize,
                max: mip_levels_for(larger(desc.width as nat, desc.height as nat)) as u32,
            },
        )
    } else {
        match texture_layers(desc.dimension, desc.width, desc.height) {
            Err(e) => Some(e),
            Ok(_) => None,
        }
    }
}

/// The layer count of a description whose shape is accepted.
pub open spec fn plan_layers(desc: CustomTextureDesc) -> nat {
    match texture_layers(desc.dimension, desc.width, desc.height) {
        Ok(l) => l.0 as nat,
        Err(_) => 0,
    }
}

/// Usage must request sampling or storage; storage textures are plain 2D
/// and uncompressed.
pub open spec fn texture_usage_error(desc: CustomTextureDesc) -> Option<CustomDrawError> {
    if !usage_sampled(desc.usage) && !usage_storage(desc.usage) {
        Some(CustomDrawError::EmptyTextureUsage)
    } else if usage_storage(desc.usage) && !(desc.dimension is D2) {
        Some(CustomDrawError::StorageTextureNot2d)
    } else if usage_storage(desc.usage) && format_is_compressed(desc.format) {
        Some(CustomDrawError::CompressedStorageTexture)
    } else {
        None
    }
}

/// The first reason a texture description is refused, in the order the
/// checks run: format support, mip level count, dimension, per-level data
/// size, usage.
pub open spec fn texture_desc_error(desc: CustomTextureDesc, format_supported: bool) -> Option<
    CustomDrawError,
> {
    either(
        texture_shape_error(desc, format_supported),
        either(
            first_error(desc.data@, level_check(desc, plan_layers(desc))),
            texture_usage_error(desc),
        ),
    )
}

/// The plan of an accepted description.
pub open spec fn texture_plan_of(desc: CustomTextureDesc) -> CustomTexturePlan {
    let layers = match texture_layers(desc.dimension, desc.width, desc.height) {
        Ok(l) => l,
        Err(_) => (0u32, 0u32),
    };
    CustomTexturePlan {
        array_layer_count: layers.0,
        array_length: layers.1,
        mip_level_count: desc.data@.len() as u32,
        block: texel_block(desc.format),
        shader_read: usage_sampled(desc.usage),
        shader_write: usage_storage(desc.usage),
    }
}

/// The layers of every mip level of a texture of this dimension: one for a
/// 2D texture, the layer count of an array, six faces for a cube.
pub open spec fn dimension_layer_count(dimension: CustomTextureDimension) -> nat {
    match dimension {
        CustomTextureDimension::D2 => 1,
        CustomTextureDimension::D2Array { layers } => layers as nat,
        CustomTextureDimension::Cube => 6,
    }
}

/// The device array length of a texture of this dimension: the layer count
/// of an array, else one.
pub open spec fn dimension_array_length(dimension: CustomTextureDimension) -> nat {
    match dimension {
        CustomTextureDimension::D2Array { layers } => layers as nat,
        _ => 1,
    }
}

/// Bytes that mip level `level` of a `width` by `height` texture spans:
/// the blocks across times the blocks down of the level's size, times the
/// block's bytes, times the layers.
pub open spec fn mip_level_bytes(width: u32, height: u32, level: nat, block: CustomTexelBlockInfo, layers: nat) -> nat {
    ceil_div(halve_clamped(width as nat, level), block.width as nat) * ceil_div(
        halve_clamped(height as nat, level),
        block.height as nat,
    ) * block.bytes as nat * layers
}

/// An accepted texture description is laid out with the layers of its
/// dimension, and the data of each of its mip levels covers that level's
/// blocks for every layer.
pub proof fn lemma_accepted_texture_layout(desc: CustomTextureDesc, format_supported: bool, i: int)
    requires
        texture_desc_error(desc, format_supported) is None,
        0 <= i < desc.data@.len(),
        i <= u32::MAX,
    ensures
        texture_plan_of(desc).array_layer_count == dimension_layer_count(desc.dimension),
        texture_plan_of(desc).array_length == dimension_array_length(desc.dimension),
        texture_plan_of(desc).block == texel_block(desc.format),
        desc.data@[i]@.len() >= mip_level_bytes(
            desc.width,
            desc.height,
            i as nat,
            texture_plan_of(desc).block,
            texture_plan_of(desc).array_layer_count as nat,
        ),
{
    lemma_first_error_none_at(desc.data@, level_check(desc, plan_layers(desc)), i);
    assert(desc.data@.take(i).len() == i);
    assert(((i as nat) as u32) as nat == i as nat);
}

/// Checks a texture description and lays it out; `format_supported` is the
/// device's answer for the description's format.
pub fn plan_texture(desc: &CustomTextureDesc, format_supported: bool) -> (r: Result<
    CustomTexturePlan,
    CustomDrawError,
>)
    ensures
        r == (match texture_desc_error(*desc, format_supported) {
            Some(e) => Err(e),
            None => Ok(texture_plan_of(*desc)),
        }),
        r matches Ok(p) ==> p.array_layer_count == dimension_layer_count(desc.dimension) && p.array_length
            == dimension_array_length(desc.dimension) && forall|i: int|
            0 <= i < desc.data@.len() && i <= u32::MAX ==> (#[trigger] desc.data@[i])@.len() >= mip_level_bytes(
                desc.width,
                desc.height,
                i as nat,
                p.block,
                p.array_layer_count as nat,
            ),
{
    proof {
        if texture_desc_error(*desc, format_supported) is None {
            assert forall|i: int| 0 <= i < desc.data@.len() && i <= u32::MAX implies (#[trigger] desc.data@[i])@.len()
                >= mip_level_bytes(
                desc.width,
                desc.height,
                i as nat,
                texture_plan_of(*desc).block,
                texture_plan_of(*desc).array_layer_count as nat,
            ) by {
                lemma_accepted_texture_layout(*desc, format_supported, i);
            }
            if desc.data@.len() > 0 {
                lemma_accepted_texture_layout(*desc, format_supported, 0);
            }
        }
    }
    if !format_supported {
        return Err(CustomDrawError::UnsupportedTextureFormat { format: desc.format });
    }
    if desc.data.len() == 0 {
        return Err(CustomDrawError::MissingMipLevels);
    }
    let max_levels = max_mip_levels(desc.width, desc.height);
    if desc.data.len() as u32 > max_levels {
        return Err(CustomDrawError::TooManyMipLevels { count: desc.data.len(), max: max_levels });
    }
    let (array_layer_count, array_length): (u32, u32) = match desc.dimension {
        CustomTextureDimension::D2 => (1, 1),
        CustomTextureDimension::D2Array { layers } => {
            if layers == 0 {
                return Err(CustomDrawError::ZeroArrayLayers);
            }
            (layers, layers)
        },
        CustomTextureDimension::Cube => {
            if desc.width != desc.height {
                return Err(CustomDrawError::CubeNotSquare);
            }
            (6, 1)
        },
    };
    let block = desc.format.block_info();
    let ghost s = desc.data@;
    let ghost layers = array_layer_count as nat;
    let ghost check = level_check(*desc, layers);
    assert(layers == plan_layers(*desc));
    let mut i: usize = 0;
    while i < desc.data.len()
        invariant
            i <= desc.data.len(),
            s == desc.data@,
            layers == array_layer_count,
            layers == plan_layers(*desc),
            layers >= 1,
            block == texel_block(desc.format),
            check == level_check(*desc, layers),
            texture_shape_error(*desc, format_supported) is None,
            first_error(s.take(i as int), check) is None,
            forall|j: int|
                0 <= j < i ==> (#[trigger] s[j])@.len() >= level_required_bytes(*desc, layers, j as nat),
        decreases desc.data.len() - i,
    {
        proof {
            lemma_first_error_step(s, i as int, check);
        }
        let (level_width, level_height) = mip_level_size(desc.width, desc.height, i as u32);
        let blocks_w = div_ceil(level_width, block.width);
        let blocks_h = div_ceil(level_height, block.height);
        let ghost need = level_required_bytes(*desc, layers, i as nat);
        proof {
            assert(need == (blocks_w as nat) * (blocks_h as nat) * (block.bytes as nat) * layers);
            let wh = (blocks_w as nat) * (blocks_h as nat);
            assert(wh <= 0xffff_ffff * 0xffff_ffff) by (nonlinear_arith)
                requires
                    wh == (blocks_w as nat) * (blocks_h as nat),
                    blocks_w <= u32::MAX,
                    blocks_h <= u32::MAX,
            ;
            let whb = wh * (block.bytes as nat);
            assert(whb <= 0xffff_ffff * 0xffff_ffff * 0xffff_ffff) by (nonlinear_arith)
                requires
                    whb == wh * (block.bytes as nat),
                    wh <= 0xffff_ffff * 0xffff_ffff,
                    block.bytes <= u32::MAX,
            ;
            assert(whb * (array_layer_count as nat) <= 0xffff_ffff * 0xffff_ffff * 0xffff_ffff * 0xffff_ffff)
                by (nonlinear_arith)
                requires
                    whb <= 0xffff_ffff * 0xffff_ffff * 0xffff_ffff,
                    array_layer_count <= u32::MAX,
            ;
        }
        let expected = (blocks_w as u128) * (blocks_h as u128) * (block.bytes as u128) * (
        array_layer_count as u128);
        if (desc.data[i].len() as u128) < expected {
            proof {
                lemma_first_error_prefix(s, i + 1, check);
            }
            return Err(CustomDrawError::MipLevelTooSmall { level: i });
        }
        i += 1;
    }
    proof {
        lemma_first_error_all(s, check);
    }
    let sampled = desc.usage.is_sampled();
    let storage = desc.usage.is_storage();
    if !sampled && !storage {
        return Err(CustomDrawError::EmptyTextureUsage);
    }
    if storage && desc.dimension.is_array() {
        return Err(CustomDrawError::StorageTextureNot2d);
    }
    if storage && desc.format.is_compressed() {
        return Err(CustomDrawError::CompressedStorageTexture);
    }
    Ok(
        CustomTexturePlan {
            array_layer_count,
            array_length,
            mip_level_count: desc.data.len() as u32,
            block,
            shader_read: sampled,
            shader_write: storage,
        },
    )
}

// ---------------------------------------------------------------------------
// Registered textures and their updates
// ---------------------------------------------------------------------------

/// What the registry records of a texture besides its device objects.
#[derive(Debug, Clone, Copy, PartialEq, Eq, Structural)]
pub struct CustomTextureInfo {
    pub width: u32,
    pub height: u32,
    pub array_layer_count: u32,
    pub mip_level_count: u32,
    pub sample_count: u32,
    pub block_width: u32,
    pub block_height: u32,
    pub bytes_per_block: u32,
    pub is_render_target: bool,
    /// Whether a separate multisampled texture backs this render target.
    pub has_msaa_texture: bool,
}

/// Texel blocks are never empty.
pub open spec fn texture_info_wf(info: CustomTextureInfo) -> bool {
    info.block_width > 0 && info.block_height > 0 && info.bytes_per_block > 0
}

/// The record of a texture created from an accepted description.
pub open spec fn created_texture_info(desc: CustomTextureDesc, plan: CustomTexturePlan) -> CustomTextureInfo {
    CustomTextureInfo {
        width: desc.width,
        height: desc.height,
        array_layer_count: plan.array_layer_count,
        mip_level_count: plan.mip_level_count,
        sample_count: 1,
        block_width: plan.block.width,
        block_height: plan.block.height,
        bytes_per_block: plan.block.bytes,
        is_render_target: false,
        has_msaa_texture: false,
    }
}

/// The registry record of a texture created from `desc` as planned.
pub fn texture_info_for(desc: &CustomTextureDesc, plan: &CustomTexturePlan) -> (r: CustomTextureInfo)
    ensures
        r == created_texture_info(*desc, *plan),
{
    CustomTextureInfo {
        width: desc.width,
        height: desc.height,
        array_layer_count: plan.array_layer_count,
        mip_level_count: plan.mip_level_count,
        sample_count: 1,
        block_width: plan.block.width,
        block_height: plan.block.height,
        bytes_per_block: plan.block.bytes,
        is_render_target: false,
        has_msaa_texture: false,
    }
}

/// Where the bytes of one mip level upload go.
#[derive(Debug, Clone, Copy, PartialEq, Eq, Structural)]
pub struct CustomTextureUploadLayout {
    /// Width of the mip level in texels.
    pub width: u32,
    /// Height of the mip level in texels.
    pub height: u32,
    /// Byte stride between rows of blocks.
    pub bytes_per_row: u32,
    /// Bytes of one layer of the level.
    pub bytes_per_image: u64,
    /// Bytes of all layers of the level.
    pub byte_len: u64,
}

/// Start and end offsets of the bytes of layer `layer` of an upload.
pub fn layer_byte_range(layout: &CustomTextureUploadLayout, layer: u32) -> (r: (u64, u64))
    requires
        (layer + 1) * layout.bytes_per_image <= layout.byte_len,
    ensures
        r.0 == layer * layout.bytes_per_image,
        r.1 == (layer + 1) * layout.bytes_per_image,
{
    proof {
        assert(layer * layout.bytes_per_image <= (layer + 1) * layout.bytes_per_image) by (nonlinear_arith);
        assert((layer + 1) * layout.bytes_per_image == layer * layout.bytes_per_image + layout.bytes_per_image)
            by (nonlinear_arith);
    }
    let start = layer as u64 * layout.bytes_per_image;
    (start, start + layout.bytes_per_image)
}

/// Packed bytes of a row of blocks of mip level `level`.
pub open spec fn packed_row_bytes(info: CustomTextureInfo, level: u32) -> nat {
    ceil_div(halve_clamped(info.width as nat, level as nat), info.block_width as nat)
        * info.bytes_per_block as nat
}

/// Block rows of mip level `level`.
pub open spec fn block_rows(info: CustomTextureInfo, level: u32) -> nat {
    ceil_div(halve_clamped(info.height as nat, level as nat), info.block_height as nat)
}

/// The stride an update uses: the explicit one, or the packed row size.
pub open spec fn update_row_bytes(info: CustomTextureInfo, level: u32, bytes_per_row: Option<u32>) -> nat {
    match bytes_per_row {
        Some(b) => b as nat,
        None => packed_row_bytes(info, level),
    }
}

/// Layout of an update of mip level `level`, or why it is refused: render
/// targets are not updatable, the level must exist, and an explicit stride
/// must cover the packed row and be a multiple of the block size.
pub open spec fn update_layout(info: CustomTextureInfo, level: u32, bytes_per_row: Option<u32>) -> Result<
    CustomTextureUploadLayout,
    CustomDrawError,
> {
    if info.is_render_target {
        Err(CustomDrawError::RenderTargetNotUpdatable)
    } else if level >= info.mip_level_count {
        Err(CustomDrawError::MipLevelOutOfRange { level })
    } else {
        let packed = packed_row_bytes(info, level);
        let stride = update_row_bytes(info, level, bytes_per_row);
        if stride < packed {
            Err(
                CustomDrawError::RowStrideTooSmall {
                    bytes_per_row: stride as u32,
                    packed_bytes_per_row: packed as u32,
                },
            )
        } else if stride % (info.bytes_per_block as nat) != 0 {
            Err(
                CustomDrawError::RowStrideMisaligned {
                    bytes_per_row: stride as u32,
                    bytes_per_block: info.bytes_per_block,
                },
            )
        } else {
            Ok(
                CustomTextureUploadLayout {
                    width: halve_clamped(info.width as nat, level as nat) as u32,
                    height: halve_clamped(info.height as nat, level as nat) as u32,
                    bytes_per_row: stride as u32,
                    bytes_per_image: (stride * block_rows(info, level)) as u64,
                    byte_len: (stride * block_rows(info, level) * info.array_layer_count) as u64,
                },
            )
        }
    }
}

/// The products the device computes for an update fit their integer types.
pub open spec fn update_sizes_fit(info: CustomTextureInfo, level: u32, bytes_per_row: Option<u32>) -> bool {
    !info.is_render_target && level < info.mip_level_count ==> {
        &&& packed_row_bytes(info, level) <= u32::MAX
        &&& (update_layout(info, level, bytes_per_row) is Ok ==> update_row_bytes(info, level, bytes_per_row)
            * block_rows(info, level) * info.array_layer_count <= u64::MAX)
    }
}

/// Whether the products an update of mip level `level` computes fit their
/// integer types.
pub fn level_update_fits(info: &CustomTextureInfo, level: u32, bytes_per_row: Option<u32>) -> (r: bool)
    requires
        texture_info_wf(*info),
    ensures
        r == update_sizes_fit(*info, level, bytes_per_row),
{
    if info.is_render_target || level >= info.mip_level_count {
        return true;
    }
    let (width, height) = mip_level_size(info.width, info.height, level);
    let blocks_w = div_ceil(width, info.block_width);
    let blocks_h = div_ceil(height, info.block_height);
    proof {
        assert((blocks_w as nat) * (info.bytes_per_block as nat) <= 0xffff_ffff * 0xffff_ffff) by (nonlinear_arith)
            requires
                blocks_w <= u32::MAX,
                info.bytes_per_block <= u32::MAX,
        ;
    }
    let packed = blocks_w as u64 * info.bytes_per_block as u64;
    assert(packed == packed_row_bytes(*info, level));
    if packed > 0xffff_ffff {
        return false;
    }
    let stride: u64 = match bytes_per_row {
        Some(b) => b as u64,
        None => packed,
    };
    assert(stride == update_row_bytes(*info, level, bytes_per_row));
    if stride < packed || stride % (info.bytes_per_block as u64) != 0 {
        return true;
    }
    proof {
        let sh = (stride as nat) * (blocks_h as nat);
        assert(sh <= 0xffff_ffff * 0xffff_ffff) by (nonlinear_arith)
            requires
                sh == (stride as nat) * (blocks_h as nat),
                stride <= u32::MAX,
                blocks_h <= u32::MAX,
        ;
        assert(sh * (info.array_layer_count as nat) <= 0xffff_ffff * 0xffff_ffff * 0xffff_ffff) by (nonlinear_arith)
            requires
                sh <= 0xffff_ffff * 0xffff_ffff,
                info.array_layer_count <= u32::MAX,
        ;
    }
    let total = stride as u128 * blocks_h as u128 * info.array_layer_count as u128;
    total <= 0xffff_ffff_ffff_ffff
}

/// Lays out an update of mip level `level` of a registered texture.
pub fn plan_level_update(info: &CustomTextureInfo, level: u32, bytes_per_row: Option<u32>) -> (r: Result<
    CustomTextureUploadLayout,
    CustomDrawError,
>)
    requires
        texture_info_wf(*info),
        update_sizes_fit(*info, level, bytes_per_row),
    ensures
        r == update_layout(*info, level, bytes_per_row),
{
    if info.is_render_target {
        return Err(CustomDrawError::RenderTargetNotUpdatable);
    }
    if level >= info.mip_level_count {
        return Err(CustomDrawError::MipLevelOutOfRange { level });
    }
    let (width, height) = mip_level_size(info.width, info.height, level);
    let blocks_w = div_ceil(width, info.block_width);
    let blocks_h = div_ceil(height, info.block_height);
    let packed_bytes_per_row = blocks_w * info.bytes_per_block;
    let stride = match bytes_per_row {
        Some(b) => b,
        None => packed_bytes_per_row,
    };
    if stride < packed_bytes_per_row {
        return Err(
            CustomDrawError::RowStrideTooSmall {
                bytes_per_row: stride,
                packed_bytes_per_row,
            },
        );
    }
    if !stride.is_multiple_of(info.bytes_per_block) {
        return Err(
            CustomDrawError::RowStrideMisaligned { bytes_per_row: stride, bytes_per_block: info.bytes_per_block },
        );
    }
    proof {
        assert((stride as nat) * (blocks_h as nat) <= u64::MAX) by (nonlinear_arith)
            requires
                stride <= u32::MAX,
                blocks_h <= u32::MAX,
        ;
    }
    let bytes_per_image = stride as u64 * blocks_h as u64;
    let byte_len = bytes_per_image * info.array_layer_count as u64;
    Ok(
        CustomTextureUploadLayout {
            width,
            height,
            bytes_per_row: stride,
            bytes_per_image,
            byte_len,
        },
    )
}

/// Layout of a CPU-side update, or why it is refused: no texture under the
/// id, the level checks, or data shorter than the level.
pub open spec fn data_update_outcome(texture: Option<CustomTextureInfo>, update: CustomTextureUpdate) -> Result<
    CustomTextureUploadLayout,
    CustomDrawError,
> {
    match texture {
        None => Err(CustomDrawError::TextureIdOutOfRange),
        Some(info) => match update_layout(info, update.level, update.bytes_per_row) {
            Err(e) => Err(e),
            Ok(layout) => if update.data@.len() < layout.byte_len {
                Err(CustomDrawError::TextureDataTooSmall)
            } else {
                Ok(layout)
            },
        },
    }
}

/// Checks a texture update against the registered texture (`None` when no
/// texture is registered under the update's id) and lays it out.
pub fn plan_texture_update(texture: Option<&CustomTextureInfo>, update: &CustomTextureUpdate) -> (r: Result<
    CustomTextureUploadLayout,
    CustomDrawError,
>)
    requires
        texture matches Some(info) ==> texture_info_wf(*info) && update_sizes_fit(
            *info,
            update.level,
            update.bytes_per_row,
        ),
    ensures
        r == data_update_outcome(
            match texture {
                Some(info) => Some(*info),
                None => None,
            },
            *update,
        ),
{
    let info = match texture {
        Some(info) => info,
        None => return Err(CustomDrawError::TextureIdOutOfRange),
    };
    let layout = match plan_level_update(info, update.level, update.bytes_per_row) {
        Ok(layout) => layout,
        Err(e) => return Err(e),
    };
    if (update.data.len() as u64) < layout.byte_len {
        return Err(CustomDrawError::TextureDataTooSmall);
    }
    Ok(layout)
}

/// Size of a device buffer for `len` bytes of data: at least one byte.
pub fn buffer_allocation_size(len: u64) -> (r: u64)
    ensures
        r == (if len == 0 {
            1
        } else {
            len
        }),
{
    if len == 0 {
        1
    } else {
        len
    }
}

/// Updating a buffer of `capacity` bytes with `len` bytes of data needs a
/// new device buffer, of the returned size, exactly when the data does not
/// fit; otherwise the data is written into the existing buffer.
pub fn buffer_reallocation_size(capacity: u64, len: u64) -> (r: Option<u64>)
    ensures
        r == (if len > capacity {
            Some(
                if len == 0 {
                    1u64
                } else {
                    len
                },
            )
        } else {
            None
        }),
{
    if len > capacity {
        Some(buffer_allocation_size(len))
    } else {
        None
    }
}

/// What the registry reports of the buffer a source names.
#[derive(Debug, Clone, Copy, PartialEq, Eq, Structural)]
pub struct CustomBufferState {
    /// Size of the buffer in bytes.
    pub size: u64,
    /// Whether the buffer's contents are visible to the CPU.
    pub cpu_accessible: bool,
}

/// The registered buffer a source names, if it names one.
pub open spec fn source_buffer(source: CustomBufferSource) -> Option<CustomBufferId> {
    match source {
        CustomBufferSource::Buffer(id) => Some(id),
        CustomBufferSource::BufferSlice { id, .. } => Some(id),
        CustomBufferSource::Inline(_) => None,
    }
}

impl CustomBufferSource {
    /// The registered buffer this source names; `None` for inline data.
    pub fn buffer_id(&self) -> (r: Option<CustomBufferId>)
        ensures
            r == source_buffer(*self),
    {
        match self {
            CustomBufferSource::Buffer(id) => Some(*id),
            CustomBufferSource::BufferSlice { id, .. } => Some(*id),
            CustomBufferSource::Inline(_) => None,
        }
    }
}

/// The bytes of a buffer that feed a texture update.
#[derive(Debug, Clone, Copy, PartialEq, Eq, Structural)]
pub struct CustomBufferUpload {
    /// Buffer holding the data.
    pub buffer: CustomBufferId,
    /// Offset of the first byte.
    pub offset: usize,
    /// Number of bytes read: the level's full size.
    pub length: usize,
    /// Layout of the level.
    pub layout: CustomTextureUploadLayout,
}

/// Offset and size of the range a source selects, or why it is refused:
/// inline data, an unregistered buffer, an empty slice, or a slice past the
/// buffer's end (the end saturating at `u64::MAX`).
pub open spec fn source_range(source: CustomBufferSource, buffer: Option<CustomBufferState>) -> Result<
    (u64, u64),
    CustomDrawError,
> {
    match source {
        CustomBufferSource::Inline(_) => Err(CustomDrawError::InlineTextureSource),
        CustomBufferSource::Buffer(_) => match buffer {
            None => Err(CustomDrawError::BufferIdOutOfRange),
            Some(b) => Ok((0, b.size)),
        },
        CustomBufferSource::BufferSlice { offset, size, .. } => match buffer {
            None => Err(CustomDrawError::BufferIdOutOfRange),
            Some(b) => if size == 0 {
                Err(CustomDrawError::EmptyBufferSlice)
            } else if offset.saturating_add(size) > b.size {
                Err(CustomDrawError::BufferSliceOutOfRange)
            } else {
                Ok((offset, size))
            },
        },
    }
}

/// The outcome of a texture update from a buffer: the level checks, the
/// source range, then the range must cover the level, the buffer must be
/// CPU-visible, and offset, length and end must fit in `usize`.
pub open spec fn buffer_update_outcome(
    texture: Option<CustomTextureInfo>,
    update: CustomTextureBufferUpdate,
    buffer: Option<CustomBufferState>,
) -> Result<CustomBufferUpload, CustomDrawError> {
    match texture {
        None => Err(CustomDrawError::TextureIdOutOfRange),
        Some(info) => match update_layout(info, update.level, update.bytes_per_row) {
            Err(e) => Err(e),
            Ok(layout) => match source_range(update.buffer, buffer) {
                Err(e) => Err(e),
                Ok((offset, size)) => if layout.byte_len > size {
                    Err(CustomDrawError::TextureBufferTooSmall)
                } else if !buffer.unwrap().cpu_accessible {
                    Err(CustomDrawError::BufferNotCpuAccessible)
                } else if offset > usize::MAX {
                    Err(CustomDrawError::BufferOffsetTooLarge)
                } else if layout.byte_len > usize::MAX {
                    Err(CustomDrawError::BufferSizeTooLarge)
                } else if offset + layout.byte_len > usize::MAX {
                    Err(CustomDrawError::BufferRangeTooLarge)
                } else {
                    Ok(
                        CustomBufferUpload {
                            buffer: source_buffer(update.buffer).unwrap(),
                            offset: offset as usize,
                            length: layout.byte_len as usize,
                            layout,
                        },
                    )
                },
            },
        },
    }
}

/// Checks a texture update from a buffer and selects the bytes it reads;
/// `texture` is the registered texture under the update's id and `buffer`
/// the state of the buffer its source names (`None` when not registered).
pub fn plan_texture_buffer_update(
    texture: Option<&CustomTextureInfo>,
    update: &CustomTextureBufferUpdate,
    buffer: Option<CustomBufferState>,
) -> (r: Result<CustomBufferUpload, CustomDrawError>)
    requires
        texture matches Some(info) ==> texture_info_wf(*info) && update_sizes_fit(
            *info,
            update.level,
            update.bytes_per_row,
        ),
    ensures
        r == buffer_update_outcome(
            match texture {
                Some(info) => Some(*info),
                None => None,
            },
            *update,
            buffer,
        ),
{
    let info = match texture {
        Some(info) => info,
        None => return Err(CustomDrawError::TextureIdOutOfRange),
    };
    let layout = match plan_level_update(info, update.level, update.bytes_per_row) {
        Ok(layout) => layout,
        Err(e) => return Err(e),
    };
    let (id, offset, size) = match &update.buffer {
        CustomBufferSource::Inline(_) => return Err(CustomDrawError::InlineTextureSource),
        CustomBufferSource::Buffer(id) => match buffer {
            None => return Err(CustomDrawError::BufferIdOutOfRange),
            Some(b) => (*id, 0u64, b.size),
        },
        CustomBufferSource::BufferSlice { id, offset, size } => match buffer {
            None => return Err(CustomDrawError::BufferIdOutOfRange),
            Some(b) => {
                if *size == 0 {
                    return Err(CustomDrawError::EmptyBufferSlice);
                }
                if offset.saturating_add(*size) > b.size {
                    return Err(CustomDrawError::BufferSliceOutOfRange);
                }
                (*id, *offset, *size)
            },
        },
    };
    if layout.byte_len > size {
        return Err(CustomDrawError::TextureBufferTooSmall);
    }
    let accessible = match buffer {
        Some(b) => b.cpu_accessible,
        None => false,
    };
    if !accessible {
        return Err(CustomDrawError::BufferNotCpuAccessible);
    }
    if offset > usize::MAX as u64 {
        return Err(CustomDrawError::BufferOffsetTooLarge);
    }
    if layout.byte_len > usize::MAX as u64 {
        return Err(CustomDrawError::BufferSizeTooLarge);
    }
    let offset = offset as usize;
    let length = layout.byte_len as usize;
    if offset.checked_add(length).is_none() {
        return Err(CustomDrawError::BufferRangeTooLarge);
    }
    Ok(CustomBufferUpload { buffer: id, offset, length, layout })
}

// ---------------------------------------------------------------------------
// Render targets and depth targets
// ---------------------------------------------------------------------------

/// The record of a render target, or why it is refused: compressed formats
/// cannot be rendered to, and the sample count must be valid.
pub open spec fn render_target_outcome(
    width: u32,
    height: u32,
    format: CustomTextureFormat,
    sample_count: u32,
) -> Result<CustomTextureInfo, CustomDrawError> {
    if format_is_compressed(format) {
        Err(CustomDrawError::CompressedRenderTarget)
    } else if !valid_sample_count(sample_count) {
        Err(CustomDrawError::InvalidRenderTargetSampleCount { count: sample_count })
    } else {
        Ok(
            CustomTextureInfo {
                width,
                height,
                array_layer_count: 1,
                mip_level_count: 1,
                sample_count,
                block_width: texel_block(format).width,
                block_height: texel_block(format).height,
                bytes_per_block: texel_block(format).bytes,
                is_render_target: true,
                has_msaa_texture: sample_count > 1,
            },
        )
    }
}

/// Checks a render target request and gives the record the registry keeps.
pub fn plan_render_target(width: u32, height: u32, format: CustomTextureFormat, sample_count: u32) -> (r: Result<
    CustomTextureInfo,
    CustomDrawError,
>)
    ensures
        r == render_target_outcome(width, height, format, sample_count),
{
    if format.is_compressed() {
        return Err(CustomDrawError::CompressedRenderTarget);
    }
    if !sample_count_is_valid(sample_count) {
        return Err(CustomDrawError::InvalidRenderTargetSampleCount { count: sample_count });
    }
    let block = format.block_info();
    Ok(
        CustomTextureInfo {
            width,
            height,
            array_layer_count: 1,
            mip_level_count: 1,
            sample_count,
            block_width: block.width,
            block_height: block.height,
            bytes_per_block: block.bytes,
            is_render_target: true,
            has_msaa_texture: sample_count > 1,
        },
    )
}

/// Checks the sample count of a depth target request.
pub fn check_depth_target_sample_count(sample_count: u32) -> (r: Result<(), CustomDrawError>)
    ensures
        r == (if valid_sample_count(sample_count) {
            Ok(())
        } else {
            Err(CustomDrawError::InvalidDepthTargetSampleCount { count: sample_count })
        }),
{
    if !sample_count_is_valid(sample_count) {
        return Err(CustomDrawError::InvalidDepthTargetSampleCount { count: sample_count });
    }
    Ok(())
}

} // verus!
