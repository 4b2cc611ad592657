use std::sync::Arc;

use custom_draw::draw::CustomBufferSource;
use custom_draw::error::CustomDrawError;
use custom_draw::resources::{
    layer_byte_range, level_update_fits, CustomTextureUploadLayout, buffer_allocation_size, buffer_reallocation_size, CustomBufferState, CustomTextureInfo, plan_render_target, plan_texture, plan_texture_buffer_update,
    plan_texture_update, check_depth_target_sample_count, texture_info_for,
};
use custom_draw::sizing::{
    depth_target_estimate_bytes, div_ceil, max_mip_levels, mip_level_size, texture_level_estimate_bytes,
    texture_mip_chain_estimate_bytes,
};
use custom_draw::texture::{
    texture_format_supported, CustomCompressionFamily, CustomCompressionSupport, CustomTextureBufferUpdate, CustomTextureDesc, CustomTextureDimension, CustomTextureFormat,
    CustomTextureUpdate, CustomTextureUsage,
};
use custom_draw::types::CustomBufferId;

#[test]
fn compressed_block_info_includes_new_astc_and_pvrtc_formats() {
    let expected = [
        (CustomTextureFormat::Astc5x5Unorm, (5, 5, 16)),
        (CustomTextureFormat::Astc5x5UnormSrgb, (5, 5, 16)),
        (CustomTextureFormat::Astc6x6Unorm, (6, 6, 16)),
        (CustomTextureFormat::Astc6x6UnormSrgb, (6, 6, 16)),
        (CustomTextureFormat::Astc8x8Unorm, (8, 8, 16)),
        (CustomTextureFormat::Astc8x8UnormSrgb, (8, 8, 16)),
        (CustomTextureFormat::PvrtcRgb2bppUnorm, (16, 8, 8)),
        (CustomTextureFormat::PvrtcRgb2bppUnormSrgb, (16, 8, 8)),
        (CustomTextureFormat::PvrtcRgba2bppUnorm, (16, 8, 8)),
        (CustomTextureFormat::PvrtcRgba2bppUnormSrgb, (16, 8, 8)),
        (CustomTextureFormat::PvrtcRgb4bppUnorm, (8, 4, 8)),
        (CustomTextureFormat::PvrtcRgb4bppUnormSrgb, (8, 4, 8)),
        (CustomTextureFormat::PvrtcRgba4bppUnorm, (8, 4, 8)),
        (CustomTextureFormat::PvrtcRgba4bppUnormSrgb, (8, 4, 8)),
    ];

    for (format, expected) in expected {
        let info = format.block_info();
        assert_eq!((info.width, info.height, info.bytes), expected);
        assert!(format.is_compressed());
    }
}

#[test]
fn uncompressed_formats_are_not_marked_compressed() {
    assert!(!CustomTextureFormat::R8Unorm.is_compressed());
    assert!(!CustomTextureFormat::Rg8Unorm.is_compressed());
    assert!(!CustomTextureFormat::Rgba8Unorm.is_compressed());
    assert!(!CustomTextureFormat::Bgra8Unorm.is_compressed());
    assert!(!CustomTextureFormat::Rgba8UnormSrgb.is_compressed());
    assert!(!CustomTextureFormat::Bgra8UnormSrgb.is_compressed());
}

#[test]
fn plain_format_block_sizes() {
    let r8 = CustomTextureFormat::R8Unorm.block_info();
    assert_eq!((r8.width, r8.height, r8.bytes), (1, 1, 1));
    let rg8 = CustomTextureFormat::Rg8Unorm.block_info();
    assert_eq!((rg8.width, rg8.height, rg8.bytes), (1, 1, 2));
    let bc1 = CustomTextureFormat::Bc1Unorm.block_info();
    assert_eq!((bc1.width, bc1.height, bc1.bytes), (4, 4, 8));
    let etc2 = CustomTextureFormat::Etc2Rgba8UnormSrgb.block_info();
    assert_eq!((etc2.width, etc2.height, etc2.bytes), (4, 4, 16));
}

#[test]
fn dimension_layers() {
    assert_eq!(CustomTextureDimension::D2.array_layers(), 1);
    assert_eq!(CustomTextureDimension::D2Array { layers: 5 }.array_layers(), 5);
    assert_eq!(CustomTextureDimension::Cube.array_layers(), 6);
    assert!(CustomTextureDimension::Cube.is_cube());
    assert!(!CustomTextureDimension::D2.is_array());
    assert!(CustomTextureDimension::Cube.is_array());
    assert!(CustomTextureDimension::D2Array { layers: 1 }.is_array());
    assert_eq!(CustomTextureDimension::default(), CustomTextureDimension::D2);
}

#[test]
fn usage_flags() {
    assert!(CustomTextureUsage::default().is_sampled());
    assert!(!CustomTextureUsage::default().is_storage());
    let both = CustomTextureUsage::sampled().union(CustomTextureUsage::storage());
    assert_eq!(both.bits(), 3);
    assert!(both.is_sampled() && both.is_storage());
    assert_eq!(CustomTextureUsage::from_bits_truncate(0xff).bits(), 3);
    assert_eq!(CustomTextureUsage::empty().bits(), 0);
}

#[test]
fn mip_geometry() {
    assert_eq!(max_mip_levels(0, 0), 1);
    assert_eq!(max_mip_levels(1, 1), 1);
    assert_eq!(max_mip_levels(256, 1), 9);
    assert_eq!(max_mip_levels(255, 100), 8);
    assert_eq!(max_mip_levels(u32::MAX, 3), 32);
    assert_eq!(mip_level_size(256, 64, 0), (256, 64));
    assert_eq!(mip_level_size(256, 64, 3), (32, 8));
    assert_eq!(mip_level_size(256, 64, 8), (1, 1));
    assert_eq!(mip_level_size(0, 5, 0), (1, 5));
    assert_eq!(mip_level_size(5, 5, 40), (1, 1));
    assert_eq!(div_ceil(10, 4), 3);
    assert_eq!(div_ceil(8, 4), 2);
    assert_eq!(div_ceil(0, 4), 0);
}

#[test]
fn size_estimates() {
    // 10x10 BC1 texture: 3x3 blocks of 8 bytes, 2 layers.
    assert_eq!(texture_level_estimate_bytes(10, 10, 2, 4, 4, 8), 144);
    // Chain of 4x4 RGBA8: 64 + 16 + 4 bytes.
    assert_eq!(texture_mip_chain_estimate_bytes(4, 4, 1, 3, 1, 1, 4), 84);
    assert_eq!(texture_level_estimate_bytes(u32::MAX, u32::MAX, u32::MAX, 1, 1, 16), u64::MAX);
    assert_eq!(depth_target_estimate_bytes(0, 10, 0), 40);
    assert_eq!(depth_target_estimate_bytes(100, 50, 4), 80_000);
    assert_eq!(depth_target_estimate_bytes(u32::MAX, u32::MAX, 8), u64::MAX);
}

fn texture_desc(width: u32, height: u32, levels: &[usize]) -> CustomTextureDesc {
    CustomTextureDesc {
        name: "t".to_string(),
        dimension: CustomTextureDimension::D2,
        width,
        height,
        format: CustomTextureFormat::Rgba8Unorm,
        usage: CustomTextureUsage::default(),
        data: levels.iter().map(|&n| Arc::from(vec![0u8; n])).collect(),
    }
}

#[test]
fn texture_descriptions_are_checked_in_order() {
    let desc = texture_desc(4, 4, &[64, 16, 4]);
    let plan = plan_texture(&desc, true).unwrap();
    assert_eq!((plan.array_layer_count, plan.array_length, plan.mip_level_count), (1, 1, 3));
    assert!(plan.shader_read && !plan.shader_write);
    let info = texture_info_for(&desc, &plan);
    assert_eq!((info.width, info.bytes_per_block, info.sample_count), (4, 4, 1));

    assert!(matches!(plan_texture(&desc, false), Err(CustomDrawError::UnsupportedTextureFormat { .. })));
    assert!(matches!(plan_texture(&texture_desc(4, 4, &[]), true), Err(CustomDrawError::MissingMipLevels)));
    assert!(matches!(
        plan_texture(&texture_desc(4, 4, &[64, 16, 4, 4]), true),
        Err(CustomDrawError::TooManyMipLevels { count: 4, max: 3 })
    ));
    assert!(matches!(
        plan_texture(&texture_desc(4, 4, &[64, 15]), true),
        Err(CustomDrawError::MipLevelTooSmall { level: 1 })
    ));

    let mut cube = texture_desc(4, 8, &[6 * 128]);
    cube.dimension = CustomTextureDimension::Cube;
    assert!(matches!(plan_texture(&cube, true), Err(CustomDrawError::CubeNotSquare)));
    cube.width = 8;
    assert!(matches!(plan_texture(&cube, true), Err(CustomDrawError::MipLevelTooSmall { level: 0 })));
    cube.data = vec![Arc::from(vec![0u8; 6 * 256])];
    let plan = plan_texture(&cube, true).unwrap();
    assert_eq!((plan.array_layer_count, plan.array_length), (6, 1));

    let mut array = texture_desc(2, 2, &[16]);
    array.dimension = CustomTextureDimension::D2Array { layers: 0 };
    assert!(matches!(plan_texture(&array, true), Err(CustomDrawError::ZeroArrayLayers)));

    let mut storage = texture_desc(2, 2, &[16]);
    storage.usage = CustomTextureUsage::empty();
    assert!(matches!(plan_texture(&storage, true), Err(CustomDrawError::EmptyTextureUsage)));
    storage.usage = CustomTextureUsage::storage();
    storage.dimension = CustomTextureDimension::D2Array { layers: 1 };
    assert!(matches!(plan_texture(&storage, true), Err(CustomDrawError::StorageTextureNot2d)));
    storage.dimension = CustomTextureDimension::D2;
    storage.format = CustomTextureFormat::Bc1Unorm;
    storage.data = vec![Arc::from(vec![0u8; 8])];
    assert!(matches!(plan_texture(&storage, true), Err(CustomDrawError::CompressedStorageTexture)));
}

fn rgba_info(width: u32, height: u32, levels: u32, layers: u32) -> CustomTextureInfo {
    CustomTextureInfo {
        width,
        height,
        array_layer_count: layers,
        mip_level_count: levels,
        sample_count: 1,
        block_width: 1,
        block_height: 1,
        bytes_per_block: 4,
        is_render_target: false,
        has_msaa_texture: false,
    }
}

#[test]
fn texture_updates_are_laid_out() {
    let info = rgba_info(8, 4, 2, 2);
    let update = CustomTextureUpdate::base_level(Arc::from(vec![0u8; 256]));
    let layout = plan_texture_update(Some(&info), &update).unwrap();
    assert_eq!((layout.width, layout.height, layout.bytes_per_row), (8, 4, 32));
    assert_eq!((layout.bytes_per_image, layout.byte_len), (128, 256));

    let short = CustomTextureUpdate::base_level(Arc::from(vec![0u8; 255]));
    assert!(matches!(plan_texture_update(Some(&info), &short), Err(CustomDrawError::TextureDataTooSmall)));
    assert!(matches!(plan_texture_update(None, &update), Err(CustomDrawError::TextureIdOutOfRange)));

    let level1 = CustomTextureUpdate { level: 1, data: Arc::from(vec![0u8; 64]), bytes_per_row: Some(16) };
    let layout = plan_texture_update(Some(&info), &level1).unwrap();
    assert_eq!((layout.width, layout.height, layout.byte_len), (4, 2, 64));

    let bad_level = CustomTextureUpdate { level: 2, data: Arc::from(vec![0u8; 64]), bytes_per_row: None };
    assert!(matches!(
        plan_texture_update(Some(&info), &bad_level),
        Err(CustomDrawError::MipLevelOutOfRange { level: 2 })
    ));
    let narrow = CustomTextureUpdate { level: 0, data: Arc::from(vec![0u8; 512]), bytes_per_row: Some(28) };
    assert!(matches!(
        plan_texture_update(Some(&info), &narrow),
        Err(CustomDrawError::RowStrideTooSmall { bytes_per_row: 28, packed_bytes_per_row: 32 })
    ));
    let odd = CustomTextureUpdate { level: 0, data: Arc::from(vec![0u8; 512]), bytes_per_row: Some(34) };
    assert!(matches!(
        plan_texture_update(Some(&info), &odd),
        Err(CustomDrawError::RowStrideMisaligned { bytes_per_row: 34, bytes_per_block: 4 })
    ));
    let mut target = info;
    target.is_render_target = true;
    assert!(matches!(plan_texture_update(Some(&target), &update), Err(CustomDrawError::RenderTargetNotUpdatable)));
}

#[test]
fn buffer_updates_select_their_range() {
    let info = rgba_info(4, 4, 1, 1);
    let ready = Some(CustomBufferState { size: 256, cpu_accessible: true });
    let whole = CustomTextureBufferUpdate::base_level(CustomBufferSource::Buffer(CustomBufferId(3)));
    let upload = plan_texture_buffer_update(Some(&info), &whole, ready).unwrap();
    assert_eq!((upload.buffer, upload.offset, upload.length), (CustomBufferId(3), 0, 64));

    let slice = CustomTextureBufferUpdate::base_level(CustomBufferSource::BufferSlice {
        id: CustomBufferId(1),
        offset: 100,
        size: 64,
    });
    let upload = plan_texture_buffer_update(Some(&info), &slice, ready).unwrap();
    assert_eq!((upload.offset, upload.length), (100, 64));

    let too_far = CustomTextureBufferUpdate::base_level(CustomBufferSource::BufferSlice {
        id: CustomBufferId(1),
        offset: 200,
        size: 64,
    });
    assert!(matches!(
        plan_texture_buffer_update(Some(&info), &too_far, ready),
        Err(CustomDrawError::BufferSliceOutOfRange)
    ));
    let empty = CustomTextureBufferUpdate::base_level(CustomBufferSource::BufferSlice {
        id: CustomBufferId(1),
        offset: 0,
        size: 0,
    });
    assert!(matches!(plan_texture_buffer_update(Some(&info), &empty, ready), Err(CustomDrawError::EmptyBufferSlice)));
    let small = CustomTextureBufferUpdate::base_level(CustomBufferSource::BufferSlice {
        id: CustomBufferId(1),
        offset: 0,
        size: 63,
    });
    assert!(matches!(
        plan_texture_buffer_update(Some(&info), &small, ready),
        Err(CustomDrawError::TextureBufferTooSmall)
    ));
    assert!(matches!(
        plan_texture_buffer_update(Some(&info), &whole, None),
        Err(CustomDrawError::BufferIdOutOfRange)
    ));
    assert!(matches!(
        plan_texture_buffer_update(Some(&info), &whole, Some(CustomBufferState { size: 256, cpu_accessible: false })),
        Err(CustomDrawError::BufferNotCpuAccessible)
    ));
    let inline = CustomTextureBufferUpdate::base_level(CustomBufferSource::Inline(Arc::from(vec![0u8; 64])));
    assert!(matches!(
        plan_texture_buffer_update(Some(&info), &inline, ready),
        Err(CustomDrawError::InlineTextureSource)
    ));
    assert_eq!(whole.buffer.buffer_id(), Some(CustomBufferId(3)));
    assert_eq!(inline.buffer.buffer_id(), None);
}

#[test]
fn render_and_depth_targets() {
    let info = plan_render_target(64, 32, CustomTextureFormat::Bgra8Unorm, 4).unwrap();
    assert!(info.is_render_target && info.has_msaa_texture);
    assert_eq!((info.width, info.height, info.sample_count, info.bytes_per_block), (64, 32, 4, 4));
    let single = plan_render_target(64, 32, CustomTextureFormat::Bgra8Unorm, 1).unwrap();
    assert!(!single.has_msaa_texture);
    assert!(matches!(
        plan_render_target(64, 32, CustomTextureFormat::Astc4x4Unorm, 1),
        Err(CustomDrawError::CompressedRenderTarget)
    ));
    assert!(matches!(
        plan_render_target(64, 32, CustomTextureFormat::R8Unorm, 3),
        Err(CustomDrawError::InvalidRenderTargetSampleCount { count: 3 })
    ));
    assert!(check_depth_target_sample_count(8).is_ok());
    assert!(matches!(
        check_depth_target_sample_count(16),
        Err(CustomDrawError::InvalidDepthTargetSampleCount { count: 16 })
    ));
}

#[test]
fn metal_new_compressed_format_block_info_matches_mapping() {
    let expected = [
        (CustomTextureFormat::Astc5x5Unorm, (5, 5, 16)),
        (CustomTextureFormat::Astc6x6Unorm, (6, 6, 16)),
        (CustomTextureFormat::Astc8x8Unorm, (8, 8, 16)),
        (CustomTextureFormat::PvrtcRgb2bppUnorm, (16, 8, 8)),
        (CustomTextureFormat::PvrtcRgba2bppUnorm, (16, 8, 8)),
        (CustomTextureFormat::PvrtcRgb4bppUnorm, (8, 4, 8)),
        (CustomTextureFormat::PvrtcRgba4bppUnorm, (8, 4, 8)),
    ];

    for (format, expected_block) in expected {
        let info = format.block_info();
        assert_eq!((info.width, info.height, info.bytes), expected_block);
    }
}

#[test]
fn metal_support_query_routes_new_compressed_formats_to_expected_capabilities() {
    for (astc_supported, pvrtc_supported) in [(true, false), (false, true)] {
        let support = CustomCompressionSupport {
            bc: false,
            eac_etc: false,
            astc: astc_supported,
            pvrtc: pvrtc_supported,
        };
        for format in [
            CustomTextureFormat::Astc4x4Unorm,
            CustomTextureFormat::Astc5x5Unorm,
            CustomTextureFormat::Astc6x6Unorm,
            CustomTextureFormat::Astc8x8Unorm,
        ] {
            assert_eq!(texture_format_supported(format, support), astc_supported);
        }
        for format in [
            CustomTextureFormat::PvrtcRgb2bppUnorm,
            CustomTextureFormat::PvrtcRgba2bppUnorm,
            CustomTextureFormat::PvrtcRgb4bppUnorm,
            CustomTextureFormat::PvrtcRgba4bppUnorm,
        ] {
            assert_eq!(texture_format_supported(format, support), pvrtc_supported);
        }
        assert!(texture_format_supported(CustomTextureFormat::Rgba8Unorm, support));
    }
}

#[test]
fn bc_and_etc_formats_follow_their_families() {
    let none = CustomCompressionSupport { bc: false, eac_etc: false, astc: false, pvrtc: false };
    let all = CustomCompressionSupport { bc: true, eac_etc: true, astc: true, pvrtc: true };
    assert!(!texture_format_supported(CustomTextureFormat::Bc7UnormSrgb, none));
    assert!(texture_format_supported(CustomTextureFormat::Bc7UnormSrgb, all));
    assert!(!texture_format_supported(CustomTextureFormat::Etc2Rgba8Unorm, none));
    assert!(texture_format_supported(CustomTextureFormat::Etc2Rgba8Unorm, all));
    assert_eq!(CustomTextureFormat::Bgra8UnormSrgb.compression_family(), None);
    assert_eq!(
        CustomTextureFormat::Etc2Rgb8Unorm.compression_family(),
        Some(CustomCompressionFamily::EacEtc)
    );
}

#[test]
fn buffers_grow_only_when_data_does_not_fit() {
    assert_eq!(buffer_allocation_size(0), 1);
    assert_eq!(buffer_allocation_size(64), 64);
    assert_eq!(buffer_reallocation_size(64, 64), None);
    assert_eq!(buffer_reallocation_size(64, 10), None);
    assert_eq!(buffer_reallocation_size(64, 65), Some(65));
    assert_eq!(buffer_reallocation_size(1, 0), None);
}

#[test]
fn compression_families_cover_exactly_the_compressed_formats() {
    let formats = [
        CustomTextureFormat::R8Unorm,
        CustomTextureFormat::Rgba8UnormSrgb,
        CustomTextureFormat::Bc1Unorm,
        CustomTextureFormat::Bc3UnormSrgb,
        CustomTextureFormat::Etc2Rgb8UnormSrgb,
        CustomTextureFormat::Astc6x6UnormSrgb,
        CustomTextureFormat::PvrtcRgba4bppUnormSrgb,
    ];
    for format in formats {
        assert_eq!(format.compression_family().is_some(), format.is_compressed());
    }
}

#[test]
fn layer_ranges_tile_the_upload() {
    let layout = CustomTextureUploadLayout { width: 4, height: 4, bytes_per_row: 16, bytes_per_image: 64, byte_len: 192 };
    assert_eq!(layer_byte_range(&layout, 0), (0, 64));
    assert_eq!(layer_byte_range(&layout, 2), (128, 192));
}

#[test]
fn oversized_level_updates_are_detected() {
    let small = CustomTextureInfo {
        width: 64,
        height: 64,
        array_layer_count: 1,
        mip_level_count: 1,
        sample_count: 1,
        block_width: 1,
        block_height: 1,
        bytes_per_block: 4,
        is_render_target: false,
        has_msaa_texture: false,
    };
    assert!(level_update_fits(&small, 0, None));
    let huge = CustomTextureInfo { width: u32::MAX, ..small };
    assert!(!level_update_fits(&huge, 0, None));
    let many_layers = CustomTextureInfo { width: 1 << 20, height: 1 << 20, array_layer_count: u32::MAX, ..small };
    assert!(!level_update_fits(&many_layers, 0, None));
}
