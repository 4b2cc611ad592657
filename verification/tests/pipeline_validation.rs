use custom_draw::blend::{blend_plan, BlendFactor};
use custom_draw::error::CustomDrawError;
use custom_draw::texture::CustomTextureFormat;
use custom_draw::types::{
    CustomBindingDesc, CustomBindingKind, CustomBindingName, CustomBindingSlot, CustomBlendMode,
    CustomComputePipelineDesc, CustomPipelineDesc, CustomPipelineState, CustomPrimitiveTopology,
    CustomPushConstantsDesc, CustomVertexAttribute, CustomVertexAttributeName, CustomVertexFetch,
    CustomVertexFormat, CustomVertexLayout,
};
use custom_draw::validate::{
    validate_custom_compute_pipeline_desc, validate_custom_pipeline_desc, text_is_blank,
    sample_count_is_valid,
};

fn base_desc() -> CustomPipelineDesc {
    CustomPipelineDesc {
        name: "test_pipeline".to_string(),
        shader_source: "@vertex fn vs() -> @builtin(position) vec4<f32> { return vec4<f32>(0.0); }\n@fragment fn fs() -> @location(0) vec4<f32> { return vec4<f32>(1.0); }".to_string(),
        vertex_entry: "vs".to_string(),
        fragment_entry: "fs".to_string(),
        vertex_fetches: Vec::new(),
        primitive: CustomPrimitiveTopology::TriangleList,
        color_targets: Vec::new(),
        state: CustomPipelineState::default(),
        push_constants: None,
        bindings: Vec::new(),
    }
}

fn base_compute_desc() -> CustomComputePipelineDesc {
    CustomComputePipelineDesc {
        name: "test_compute".to_string(),
        shader_source: "@compute @workgroup_size(1) fn main() {}".to_string(),
        entry_point: "main".to_string(),
        push_constants: None,
        bindings: Vec::new(),
    }
}

fn binding(name: CustomBindingName, kind: CustomBindingKind, slot: Option<(u32, u32)>) -> CustomBindingDesc {
    CustomBindingDesc {
        name,
        kind,
        slot: slot.map(|(group, binding)| CustomBindingSlot { group, binding }),
    }
}

fn attribute(name: CustomVertexAttributeName, location: Option<u32>) -> CustomVertexAttribute {
    CustomVertexAttribute { name, offset: 0, format: CustomVertexFormat::F32Vec2, location }
}

#[test]
fn rejects_empty_entry_names() {
    let mut desc = base_desc();
    desc.vertex_entry = "   ".to_string();
    assert!(validate_custom_pipeline_desc(&desc).is_err());

    let mut desc = base_desc();
    desc.fragment_entry = "".to_string();
    assert!(validate_custom_pipeline_desc(&desc).is_err());
}

#[test]
fn rejects_misaligned_uniform_sizes() {
    let mut desc = base_desc();
    desc.bindings.push(CustomBindingDesc {
        name: CustomBindingName::B0,
        kind: CustomBindingKind::Uniform { size: 12 },
        slot: None,
    });
    assert!(validate_custom_pipeline_desc(&desc).is_err());
}

#[test]
fn accepts_aligned_uniform_sizes() {
    let mut desc = base_desc();
    desc.bindings.push(CustomBindingDesc {
        name: CustomBindingName::B0,
        kind: CustomBindingKind::Uniform { size: 16 },
        slot: None,
    });
    assert!(validate_custom_pipeline_desc(&desc).is_ok());
}

#[test]
fn rejects_duplicate_vertex_locations() {
    let mut desc = base_desc();
    desc.vertex_fetches.push(CustomVertexFetch {
        layout: CustomVertexLayout {
            stride: 16,
            attributes: vec![
                CustomVertexAttribute {
                    name: CustomVertexAttributeName::A0,
                    offset: 0,
                    format: CustomVertexFormat::F32Vec2,
                    location: Some(0),
                },
                CustomVertexAttribute {
                    name: CustomVertexAttributeName::A1,
                    offset: 8,
                    format: CustomVertexFormat::F32Vec2,
                    location: Some(0),
                },
            ],
        },
        instanced: false,
    });
    assert!(validate_custom_pipeline_desc(&desc).is_err());
}

#[test]
fn accepts_sparse_binding_slots() {
    let mut desc = base_desc();
    desc.bindings.push(CustomBindingDesc {
        name: CustomBindingName::B0,
        kind: CustomBindingKind::Uniform { size: 16 },
        slot: Some(CustomBindingSlot { group: 0, binding: 4 }),
    });
    desc.bindings.push(CustomBindingDesc {
        name: CustomBindingName::B1,
        kind: CustomBindingKind::Buffer,
        slot: Some(CustomBindingSlot { group: 0, binding: 0 }),
    });
    assert!(validate_custom_pipeline_desc(&desc).is_ok());
}

#[test]
fn base_description_is_accepted() {
    assert!(validate_custom_pipeline_desc(&base_desc()).is_ok());
    assert!(validate_custom_compute_pipeline_desc(&base_compute_desc()).is_ok());
}

#[test]
fn entry_name_errors_name_the_entry() {
    let mut desc = base_desc();
    desc.vertex_entry = " \t\n".to_string();
    assert!(matches!(validate_custom_pipeline_desc(&desc), Err(CustomDrawError::EmptyVertexEntry)));
    let mut desc = base_desc();
    desc.fragment_entry = "\u{3000}".to_string();
    assert!(matches!(validate_custom_pipeline_desc(&desc), Err(CustomDrawError::EmptyFragmentEntry)));
    let mut desc = base_compute_desc();
    desc.entry_point = String::new();
    assert!(matches!(validate_custom_compute_pipeline_desc(&desc), Err(CustomDrawError::EmptyComputeEntry)));
}

#[test]
fn blank_text_matches_trim() {
    for text in ["", " ", "\u{85}\u{a0}", "\u{2028}x", "vs", " fs ", "\u{200b}"] {
        assert_eq!(text_is_blank(text), text.trim().is_empty(), "{text:?}");
    }
}

#[test]
fn push_constant_sizes_must_be_aligned() {
    for (size, ok) in [(0u32, false), (8, false), (16, true), (48, true), (20, false)] {
        let mut desc = base_desc();
        desc.push_constants = Some(CustomPushConstantsDesc { size });
        let result = validate_custom_pipeline_desc(&desc);
        assert_eq!(result.is_ok(), ok, "size {size}");
        if !ok {
            assert!(matches!(result, Err(CustomDrawError::InvalidPushConstantsSize { size: s }) if s == size));
        }
        let mut compute = base_compute_desc();
        compute.push_constants = Some(CustomPushConstantsDesc { size });
        assert_eq!(validate_custom_compute_pipeline_desc(&compute).is_ok(), ok);
    }
}

#[test]
fn sample_counts_are_powers_of_two_up_to_eight() {
    for count in 0u32..20 {
        let expected = matches!(count, 1 | 2 | 4 | 8);
        assert_eq!(sample_count_is_valid(count), expected);
        let mut desc = base_desc();
        desc.state.sample_count = count;
        let result = validate_custom_pipeline_desc(&desc);
        assert_eq!(result.is_ok(), expected, "count {count}");
        if !expected {
            assert!(matches!(result, Err(CustomDrawError::InvalidSampleCount { count: c }) if c == count));
        }
    }
}

#[test]
fn color_target_count_and_compression() {
    let mut desc = base_desc();
    desc.color_targets = vec![CustomTextureFormat::Rgba8Unorm; 8];
    assert!(validate_custom_pipeline_desc(&desc).is_ok());
    desc.color_targets.push(CustomTextureFormat::Rgba8Unorm);
    assert!(matches!(
        validate_custom_pipeline_desc(&desc),
        Err(CustomDrawError::TooManyColorTargets { count: 9 })
    ));
    let mut desc = base_desc();
    desc.color_targets = vec![CustomTextureFormat::Bgra8Unorm, CustomTextureFormat::Bc7Unorm];
    assert!(matches!(validate_custom_pipeline_desc(&desc), Err(CustomDrawError::CompressedColorTarget)));
}

#[test]
fn binding_array_counts_are_bounded() {
    for kind in [
        CustomBindingKind::BufferArray { count: 0 },
        CustomBindingKind::TextureArray { count: 17 },
        CustomBindingKind::StorageTextureArray { count: 0 },
    ] {
        let mut desc = base_desc();
        desc.bindings.push(binding(CustomBindingName::B2, kind, None));
        assert!(matches!(
            validate_custom_pipeline_desc(&desc),
            Err(CustomDrawError::InvalidBindingArrayCount { .. })
        ));
    }
    let mut desc = base_desc();
    desc.bindings.push(binding(CustomBindingName::B2, CustomBindingKind::TextureArray { count: 16 }, None));
    assert!(validate_custom_pipeline_desc(&desc).is_ok());
}

#[test]
fn duplicate_binding_names_are_rejected() {
    let mut desc = base_desc();
    desc.bindings.push(binding(CustomBindingName::B3, CustomBindingKind::Buffer, Some((1, 0))));
    desc.bindings.push(binding(CustomBindingName::B3, CustomBindingKind::Sampler, Some((1, 1))));
    assert!(matches!(
        validate_custom_pipeline_desc(&desc),
        Err(CustomDrawError::DuplicateBindingName { name: CustomBindingName::B3 })
    ));
    let mut compute = base_compute_desc();
    compute.bindings = desc.bindings.clone();
    assert!(matches!(
        validate_custom_compute_pipeline_desc(&compute),
        Err(CustomDrawError::DuplicateBindingName { name: CustomBindingName::B3 })
    ));
}

#[test]
fn binding_slots_must_be_unique_and_in_range() {
    // b1 defaults to group 0, binding 1, which the explicit slot of b0 takes.
    let mut desc = base_desc();
    desc.bindings.push(binding(CustomBindingName::B0, CustomBindingKind::Buffer, Some((0, 1))));
    desc.bindings.push(binding(CustomBindingName::B1, CustomBindingKind::Texture, None));
    assert!(matches!(
        validate_custom_pipeline_desc(&desc),
        Err(CustomDrawError::DuplicateBindingSlot { group: 0, binding: 1 })
    ));

    let mut desc = base_desc();
    desc.bindings.push(binding(CustomBindingName::B0, CustomBindingKind::Buffer, Some((2, 4097))));
    assert!(matches!(
        validate_custom_pipeline_desc(&desc),
        Err(CustomDrawError::BindingIndexOutOfRange { binding: 4097 })
    ));

    let mut desc = base_desc();
    desc.bindings.push(binding(CustomBindingName::B0, CustomBindingKind::Buffer, Some((2, 4096))));
    desc.bindings.push(binding(CustomBindingName::B1, CustomBindingKind::Buffer, Some((3, 4096))));
    assert!(validate_custom_pipeline_desc(&desc).is_ok());
}

#[test]
fn vertex_locations_across_fetches() {
    let mut desc = base_desc();
    desc.vertex_fetches.push(CustomVertexFetch {
        layout: CustomVertexLayout { stride: 8, attributes: vec![attribute(CustomVertexAttributeName::A0, Some(3))] },
        instanced: false,
    });
    desc.vertex_fetches.push(CustomVertexFetch {
        layout: CustomVertexLayout {
            stride: 8,
            attributes: vec![
                attribute(CustomVertexAttributeName::A1, None),
                attribute(CustomVertexAttributeName::A2, Some(3)),
            ],
        },
        instanced: true,
    });
    assert!(matches!(
        validate_custom_pipeline_desc(&desc),
        Err(CustomDrawError::DuplicateVertexLocation { location: 3 })
    ));
    desc.vertex_fetches[1].layout.attributes[1].location = Some(4);
    assert!(validate_custom_pipeline_desc(&desc).is_ok());
}

#[test]
fn checks_run_in_order() {
    // Both the sample count and a binding are wrong: the sample count is reported.
    let mut desc = base_desc();
    desc.state.sample_count = 3;
    desc.bindings.push(binding(CustomBindingName::B0, CustomBindingKind::Uniform { size: 4 }, None));
    assert!(matches!(validate_custom_pipeline_desc(&desc), Err(CustomDrawError::InvalidSampleCount { count: 3 })));
    // A kind error comes before a duplicate name.
    let mut desc = base_desc();
    desc.bindings.push(binding(CustomBindingName::B0, CustomBindingKind::Buffer, None));
    desc.bindings.push(binding(CustomBindingName::B0, CustomBindingKind::Uniform { size: 4 }, Some((1, 0))));
    assert!(matches!(validate_custom_pipeline_desc(&desc), Err(CustomDrawError::InvalidUniformSize { size: 4 })));
}

#[test]
fn blend_modes_pick_their_factors() {
    assert_eq!(blend_plan(CustomBlendMode::Opaque), None);
    let additive = blend_plan(CustomBlendMode::Additive).unwrap();
    assert_eq!((additive.source_rgb, additive.destination_rgb), (BlendFactor::One, BlendFactor::One));
    let alpha = blend_plan(CustomBlendMode::Alpha).unwrap();
    assert_eq!(blend_plan(CustomBlendMode::Default), Some(alpha));
    assert_eq!((alpha.source_rgb, alpha.destination_rgb), (BlendFactor::SourceAlpha, BlendFactor::OneMinusSourceAlpha));
    let premultiplied = blend_plan(CustomBlendMode::PremultipliedAlpha).unwrap();
    assert_eq!(premultiplied.source_rgb, BlendFactor::One);
    assert_eq!(premultiplied.destination_rgb, BlendFactor::OneMinusSourceAlpha);
    assert_eq!((premultiplied.source_alpha, premultiplied.destination_alpha), (BlendFactor::One, BlendFactor::One));
}
