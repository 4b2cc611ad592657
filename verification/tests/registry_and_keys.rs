use std::sync::Arc;

use custom_draw::cache::{PipelineCache, same_cache_key};
use custom_draw::draw::{CustomBindingValue, CustomBufferSource, CustomRenderTarget, FNV_OFFSET, FNV_PRIME};
use custom_draw::keys::{
    PipelineLibrarySource, PipelineSourceKey, binding_kind_key, binding_name_key, pipeline_cache_key,
    pipeline_source_key, pipeline_state_key, vertex_attribute_name_key, vertex_fetch_key,
};
use custom_draw::registry::{CustomCaptureState, CustomDepthTargetInfo, CustomSlotTable, summarize_resources};
use custom_draw::resources::CustomTextureInfo;
use custom_draw::types::{
    CustomBindingKind, CustomBindingName, CustomBufferId, CustomDepthCompare, CustomDepthFormat,
    CustomDepthState, CustomDepthTargetId, CustomPipelineDesc, CustomPipelineId, CustomPipelineState,
    CustomPrimitiveTopology, CustomSamplerId, CustomTextureId, CustomVertexAttribute,
    CustomVertexAttributeName, CustomVertexFetch, CustomVertexFormat, CustomVertexLayout,
};
use custom_draw::uniform::CustomUniformBuilder;
use custom_draw::url::{file_url_string, hex_nibble, percent_encode_url_path};

fn fnv_step(hash: u64, value: u64) -> u64 {
    hash.wrapping_mul(FNV_PRIME) ^ value
}

#[test]
fn uniform_builder_pads_to_16_bytes() {
    let mut builder = CustomUniformBuilder::new();
    builder
        .push_bytes(&1.0f32.to_le_bytes())
        .push_bytes(&2.0f32.to_le_bytes())
        .push_bytes(&3.0f32.to_le_bytes());
    let data = builder.finish();
    assert_eq!(data.len() % 16, 0);
}

#[test]
fn uniform_builder_keeps_bytes_and_zero_pads() {
    let mut builder = CustomUniformBuilder::default();
    assert!(builder.is_empty());
    builder.push_bytes(&[1, 2, 3]);
    assert_eq!(builder.len(), 3);
    let data = builder.finish();
    assert_eq!(&data[..], &[1, 2, 3, 0, 0, 0, 0, 0, 0, 0, 0, 0, 0, 0, 0, 0]);

    let mut aligned = CustomUniformBuilder::new();
    aligned.push_bytes(&[7u8; 32]);
    assert_eq!(aligned.finish().len(), 32);
    assert_eq!(CustomUniformBuilder::new().finish().len(), 0);
}

#[test]
fn buffer_source_hashes() {
    let id = CustomBufferSource::Buffer(CustomBufferId(7));
    assert_eq!(id.hash(), 7u64.wrapping_mul(FNV_PRIME));
    let slice = CustomBufferSource::BufferSlice { id: CustomBufferId(7), offset: 16, size: 32 };
    assert_eq!(slice.hash(), fnv_step(7u64.wrapping_mul(FNV_PRIME) ^ 16, 32));

    let inline = CustomBufferSource::Inline(Arc::from(vec![1u8, 2]));
    let mut expected = FNV_OFFSET;
    for byte in [1u8, 2] {
        expected ^= byte as u64;
        expected = expected.wrapping_mul(FNV_PRIME);
    }
    assert_eq!(inline.hash(), expected ^ 2);
}

#[test]
fn inline_hash_reads_only_the_first_64_bytes() {
    let mut a = vec![0u8; 100];
    let mut b = vec![0u8; 100];
    a[80] = 1;
    b[80] = 2;
    let ha = CustomBufferSource::Inline(Arc::from(a)).hash();
    let hb = CustomBufferSource::Inline(Arc::from(b)).hash();
    assert_eq!(ha, hb);
    let hc = CustomBufferSource::Inline(Arc::from(vec![0u8; 101])).hash();
    assert_ne!(ha, hc);
    let mut d = vec![0u8; 100];
    d[10] = 1;
    assert_ne!(ha, CustomBufferSource::Inline(Arc::from(d)).hash());
}

#[test]
fn render_target_hash() {
    let target = CustomRenderTarget { colors: vec![CustomTextureId(1), CustomTextureId(2)], depth: Some(CustomDepthTargetId(9)) };
    let expected = fnv_step(fnv_step(fnv_step(FNV_OFFSET, 1), 2), 9);
    assert_eq!(target.hash(), expected);
    let no_depth = CustomRenderTarget { colors: vec![CustomTextureId(1)], depth: None };
    assert_eq!(no_depth.hash(), fnv_step(FNV_OFFSET, 1));
    assert_eq!(CustomRenderTarget { colors: vec![], depth: None }.hash(), FNV_OFFSET);
}

#[test]
fn binding_value_hashes() {
    let sampler = CustomBindingValue::Sampler(CustomSamplerId(4));
    assert_eq!(sampler.hash(), fnv_step(fnv_step(FNV_OFFSET, 3), 4));
    let texture = CustomBindingValue::Texture(CustomTextureId(4));
    assert_eq!(texture.hash(), fnv_step(fnv_step(FNV_OFFSET, 2), 4));
    let array = CustomBindingValue::TextureArray(vec![CustomTextureId(5), CustomTextureId(6)]);
    assert_eq!(array.hash(), fnv_step(fnv_step(fnv_step(fnv_step(FNV_OFFSET, 6), 2), 5), 6));
    let source = CustomBufferSource::Buffer(CustomBufferId(1));
    let uniform = CustomBindingValue::Uniform(source.clone());
    assert_eq!(uniform.hash(), fnv_step(fnv_step(FNV_OFFSET, 4), source.hash()));
    let buffer = CustomBindingValue::Buffer(source.clone());
    assert_eq!(buffer.hash(), fnv_step(fnv_step(FNV_OFFSET, 1), source.hash()));
    let buffers = CustomBindingValue::BufferArray(vec![source.clone()]);
    assert_eq!(buffers.hash(), fnv_step(fnv_step(fnv_step(FNV_OFFSET, 5), 1), source.hash()));
    assert_ne!(uniform.hash(), buffer.hash());
}

#[test]
fn slot_table_reuses_freed_slots() {
    let mut table = CustomSlotTable::new();
    assert_eq!(table.alloc_slot("a"), 0);
    assert_eq!(table.alloc_slot("b"), 1);
    assert_eq!(table.alloc_slot("c"), 2);
    assert_eq!(table.count(), 3);
    table.remove(1);
    assert_eq!(table.get(1), None);
    assert_eq!(table.count(), 2);
    assert_eq!(table.alloc_slot("d"), 1);
    assert_eq!(table.get(1), Some(&"d"));
    assert_eq!(table.get(2), Some(&"c"));
    table.remove(99);
    assert_eq!(table.slot_count(), 3);
    table.replace(0, "e");
    assert_eq!(table.get(0), Some(&"e"));
    assert!(table.contains(2) && !table.contains(3));
    assert_eq!(table.get_at(2), Some(&"c"));
}

#[test]
fn capture_state_keeps_the_last_record_while_enabled() {
    let mut state = CustomCaptureState::new();
    state.record(1);
    assert_eq!(state.take_last(), None);
    state.set_enabled(true);
    assert!(state.is_enabled());
    state.record(2);
    state.record(3);
    assert_eq!(state.take_last(), Some(3));
    assert_eq!(state.take_last(), None);
    state.record(4);
    state.set_enabled(false);
    assert_eq!(state.take_last(), None);
}

#[test]
fn resource_totals() {
    let texture = CustomTextureInfo {
        width: 4,
        height: 4,
        array_layer_count: 1,
        mip_level_count: 3,
        sample_count: 1,
        block_width: 1,
        block_height: 1,
        bytes_per_block: 4,
        is_render_target: false,
        has_msaa_texture: false,
    };
    let target = CustomTextureInfo {
        mip_level_count: 1,
        sample_count: 4,
        is_render_target: true,
        has_msaa_texture: true,
        ..texture
    };
    let stats = summarize_resources(
        2,
        1,
        &vec![10, u64::MAX],
        &vec![texture, target],
        &vec![CustomDepthTargetInfo { width: 10, height: 10, sample_count: 2 }],
        3,
    );
    assert_eq!(stats.pipeline_count, 2);
    assert_eq!(stats.compute_pipeline_count, 1);
    assert_eq!(stats.buffer_count, 2);
    assert_eq!(stats.buffer_bytes, u64::MAX);
    assert_eq!(stats.texture_count, 2);
    // 84 for the mip chain, 64 for the target, 64 * 4 for its samples.
    assert_eq!(stats.texture_bytes, 84 + 64 + 256);
    assert_eq!(stats.render_target_count, 1);
    assert_eq!(stats.depth_target_count, 1);
    assert_eq!(stats.depth_target_bytes, 800);
    assert_eq!(stats.sampler_count, 3);
}

#[test]
fn percent_encoding() {
    assert_eq!(percent_encode_url_path("/tmp/cache.bin"), "/tmp/cache.bin");
    assert_eq!(percent_encode_url_path("/a b/é"), "/a%20b/%C3%A9");
    assert_eq!(percent_encode_url_path("x~_-.Z9"), "x~_-.Z9");
    assert_eq!(hex_nibble(0), '0');
    assert_eq!(hex_nibble(9), '9');
    assert_eq!(hex_nibble(10), 'A');
    assert_eq!(hex_nibble(15), 'F');
}

#[test]
fn key_codes() {
    assert_eq!(vertex_attribute_name_key(CustomVertexAttributeName::A5), 5);
    assert_eq!(binding_name_key(CustomBindingName::B12), 12);
    assert_eq!(CustomBindingName::B12.index(), 12);
    assert_eq!(CustomBindingName::B12.as_str(), "b12");
    assert_eq!(CustomVertexAttributeName::A3.as_str(), "a3");
    let uniform = binding_kind_key(CustomBindingKind::Uniform { size: 64 });
    assert_eq!((uniform.kind, uniform.size, uniform.count), (4, 64, 0));
    let array = binding_kind_key(CustomBindingKind::StorageTextureArray { count: 3 });
    assert_eq!((array.kind, array.size, array.count), (7, 0, 3));
    let default_key = pipeline_state_key(CustomPipelineState::default());
    assert_eq!((default_key.depth_format, default_key.depth_compare, default_key.depth_write), (0, 0, 0));
    let mut with_depth = CustomPipelineState::default();
    with_depth.depth = Some(CustomDepthState { format: CustomDepthFormat::Depth32Float, compare: CustomDepthCompare::Always, write_enabled: false });
    let depth_key = pipeline_state_key(with_depth);
    assert_eq!((depth_key.depth_format, depth_key.depth_compare, depth_key.depth_write), (1, 0, 0));
    assert_ne!(default_key, depth_key);
    assert_eq!(CustomDepthState::default().compare, CustomDepthCompare::LessEqual);
}

#[test]
fn cache_keys_follow_the_description() {
    let desc = CustomPipelineDesc {
        name: "p".to_string(),
        shader_source: "wgsl".to_string(),
        vertex_entry: "vs".to_string(),
        fragment_entry: "fs".to_string(),
        vertex_fetches: vec![CustomVertexFetch {
            layout: CustomVertexLayout {
                stride: 12,
                attributes: vec![CustomVertexAttribute {
                    name: CustomVertexAttributeName::A1,
                    offset: 4,
                    format: CustomVertexFormat::I32Vec2,
                    location: Some(2),
                }],
            },
            instanced: true,
        }],
        primitive: CustomPrimitiveTopology::LineStrip,
        color_targets: vec![],
        state: CustomPipelineState::default(),
        push_constants: None,
        bindings: vec![],
    };
    let source = pipeline_source_key(&desc, &PipelineLibrarySource::Wgsl);
    assert_eq!(source, PipelineSourceKey::Wgsl("wgsl".to_string()));
    let key = pipeline_cache_key(&desc, source.clone(), &[80, 81]);
    assert_eq!(key.primitive, 2);
    assert_eq!(key.color_formats, vec![80, 81]);
    assert_eq!(key.vertex_entry, "vs");
    let fetch = vertex_fetch_key(&desc.vertex_fetches[0]);
    assert_eq!(key.vertex_fetches, vec![fetch.clone()]);
    assert_eq!((fetch.stride, fetch.instanced, fetch.attributes[0].format, fetch.attributes[0].name), (12, true, 9, 1));
    let again = pipeline_cache_key(&desc, source, &[80, 81]);
    assert_eq!(key, again);

    let lib_a = pipeline_source_key(&desc, &PipelineLibrarySource::Metallib(Arc::from(vec![1u8, 2, 3])));
    let lib_b = pipeline_source_key(&desc, &PipelineLibrarySource::Metallib(Arc::from(vec![1u8, 2, 3])));
    let lib_c = pipeline_source_key(&desc, &PipelineLibrarySource::Metallib(Arc::from(vec![1u8, 2, 4])));
    assert_eq!(lib_a, lib_b);
    assert_ne!(lib_a, lib_c);
    assert!(matches!(lib_a, PipelineSourceKey::Metallib { len: 3, .. }));
    let msl = pipeline_source_key(&desc, &PipelineLibrarySource::Msl("kernel".to_string()));
    assert_eq!(msl, PipelineSourceKey::Msl("kernel".to_string()));
}

#[test]
fn file_urls_carry_the_scheme_and_encoded_path() {
    assert_eq!(file_url_string("/tmp/cache dir/p.bin"), "file:///tmp/cache%20dir/p.bin");
    assert_eq!(file_url_string(""), "file://");
}

#[test]
fn identical_pipeline_requests_share_a_cache_entry() {
    let desc = CustomPipelineDesc {
        name: "first".to_string(),
        shader_source: "wgsl".to_string(),
        vertex_entry: "vs".to_string(),
        fragment_entry: "fs".to_string(),
        vertex_fetches: vec![],
        primitive: CustomPrimitiveTopology::TriangleList,
        color_targets: vec![],
        state: CustomPipelineState::default(),
        push_constants: None,
        bindings: vec![],
    };
    let mut renamed = desc.clone();
    renamed.name = "second".to_string();
    let mut other = desc.clone();
    other.fragment_entry = "fs2".to_string();

    let key_of = |d: &CustomPipelineDesc| {
        let source = pipeline_source_key(d, &PipelineLibrarySource::Wgsl);
        pipeline_cache_key(d, source, &[80])
    };
    let mut cache = PipelineCache::new();
    assert_eq!(cache.get(&key_of(&desc)), None);
    cache.insert(key_of(&desc), CustomPipelineId(7));
    assert!(same_cache_key(&key_of(&desc), &key_of(&renamed)));
    assert_eq!(cache.get(&key_of(&renamed)), Some(CustomPipelineId(7)));
    assert!(!same_cache_key(&key_of(&desc), &key_of(&other)));
    assert_eq!(cache.get(&key_of(&other)), None);
    cache.insert(key_of(&other), CustomPipelineId(9));
    assert_eq!(cache.get(&key_of(&other)), Some(CustomPipelineId(9)));
    assert_eq!(cache.get(&key_of(&desc)), Some(CustomPipelineId(7)));
}

#[test]
fn slot_counts_follow_stores_and_removals() {
    let mut table: CustomSlotTable<u32> = CustomSlotTable::new();
    let first = table.alloc_slot(10);
    let second = table.alloc_slot(20);
    assert_eq!(table.count(), 2);
    table.remove(first);
    assert_eq!(table.count(), 1);
    table.remove(first);
    assert_eq!(table.count(), 1);
    table.remove(99);
    assert_eq!(table.count(), 1);
    let third = table.alloc_slot(30);
    assert_eq!(third, first);
    assert_eq!(table.count(), 2);
    assert_eq!(table.get(second), Some(&20));
}
