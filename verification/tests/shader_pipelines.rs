use custom_draw::error::CustomDrawError;
use custom_draw::keys::PipelineLibrarySource;
use custom_draw::locations::{build_attribute_locations, plan_vertex_attributes, VertexAttributePlan};
use custom_draw::pipeline::{prepare_compute_pipeline, prepare_render_pipeline};
use custom_draw::shader::{
    push_constants_slot, ArgumentBufferPlan, ArgumentEncoderStage, ShaderArrayLength, ShaderElementShape, ShaderImageClass,
    ShaderResourceRequirement, ShaderSpace, ShaderTypeShape,
};
use custom_draw::rewrite::{assign_vertex_locations, read_shader_globals};
use custom_draw::types::{
    CustomBindingDesc, CustomBindingKind, CustomBindingName, CustomBindingSlot,
    CustomComputePipelineDesc, CustomPipelineDesc, CustomPipelineState, CustomPrimitiveTopology,
    CustomPushConstantsDesc, CustomVertexAttribute, CustomVertexAttributeName, CustomVertexFetch,
    CustomVertexFormat, CustomVertexLayout,
};
use std::sync::Arc;

const TEXTURED_SHADER: &str = r#"
struct VertexInput {
  a0: vec2<f32>,
  a1: vec2<f32>,
};

struct VertexOutput {
  @builtin(position) position: vec4<f32>,
  @location(0) uv: vec2<f32>,
};

struct Uniforms {
  uv_offset: vec2<f32>,
  pad: vec2<f32>,
};

var b0: texture_2d<f32>;
var b1: sampler;
var<uniform> b2: Uniforms;

@vertex
fn vs_main(input: VertexInput) -> VertexOutput {
  var out: VertexOutput;
  out.position = vec4<f32>(input.a0, 0.0, 1.0);
  out.uv = input.a1;
  return out;
}

@fragment
fn fs_main(input: VertexOutput) -> @location(0) vec4<f32> {
  let uv = input.uv + b2.uv_offset;
  return textureSample(b0, b1, uv);
}
"#;

const IMMEDIATE_SHADER: &str = r#"
struct Params {
  color: vec4<f32>,
};

var<immediate> pc: Params;

@vertex
fn vs_main(@builtin(vertex_index) index: u32) -> @builtin(position) vec4<f32> {
  return vec4<f32>(f32(index), 0.0, 0.0, 1.0);
}

@fragment
fn fs_main() -> @location(0) vec4<f32> {
  return pc.color;
}
"#;

const COMPUTE_SHADER: &str = r#"
struct Data {
  values: array<u32, 64>,
};

var<storage, read_write> b0: Data;

@compute @workgroup_size(64)
fn main(@builtin(global_invocation_id) id: vec3<u32>) {
  b0.values[id.x % 64u] = id.x;
}
"#;

fn attribute(name: CustomVertexAttributeName, offset: u32, location: Option<u32>) -> CustomVertexAttribute {
    CustomVertexAttribute { name, offset, format: CustomVertexFormat::F32Vec2, location }
}

fn fetch(attributes: Vec<CustomVertexAttribute>) -> CustomVertexFetch {
    CustomVertexFetch { layout: CustomVertexLayout { stride: 16, attributes }, instanced: false }
}

fn binding(name: CustomBindingName, kind: CustomBindingKind) -> CustomBindingDesc {
    CustomBindingDesc { name, kind, slot: None }
}

fn textured_desc() -> CustomPipelineDesc {
    CustomPipelineDesc {
        name: "textured".to_string(),
        shader_source: TEXTURED_SHADER.to_string(),
        vertex_entry: "vs_main".to_string(),
        fragment_entry: "fs_main".to_string(),
        vertex_fetches: vec![fetch(vec![
            attribute(CustomVertexAttributeName::A0, 0, None),
            attribute(CustomVertexAttributeName::A1, 8, None),
        ])],
        primitive: CustomPrimitiveTopology::TriangleList,
        color_targets: Vec::new(),
        state: CustomPipelineState::default(),
        push_constants: None,
        bindings: vec![
            binding(CustomBindingName::B0, CustomBindingKind::Texture),
            binding(CustomBindingName::B1, CustomBindingKind::Sampler),
            binding(CustomBindingName::B2, CustomBindingKind::Uniform { size: 16 }),
        ],
    }
}

fn immediate_desc(push_constants: Option<CustomPushConstantsDesc>) -> CustomPipelineDesc {
    CustomPipelineDesc {
        name: "immediate".to_string(),
        shader_source: IMMEDIATE_SHADER.to_string(),
        vertex_entry: "vs_main".to_string(),
        fragment_entry: "fs_main".to_string(),
        vertex_fetches: Vec::new(),
        primitive: CustomPrimitiveTopology::TriangleList,
        color_targets: Vec::new(),
        state: CustomPipelineState::default(),
        push_constants,
        bindings: Vec::new(),
    }
}

fn compute_desc() -> CustomComputePipelineDesc {
    CustomComputePipelineDesc {
        name: "compute".to_string(),
        shader_source: COMPUTE_SHADER.to_string(),
        entry_point: "main".to_string(),
        push_constants: None,
        bindings: vec![binding(CustomBindingName::B0, CustomBindingKind::Buffer)],
    }
}

fn error_of<T: std::fmt::Debug>(result: Result<T, CustomDrawError>) -> CustomDrawError {
    match result {
        Ok(value) => panic!("expected an error, got {value:?}"),
        Err(err) => err,
    }
}

#[test]
fn textured_pipeline_becomes_msl() {
    let prepared = prepare_render_pipeline(&textured_desc(), &PipelineLibrarySource::Wgsl).unwrap();
    let msl = prepared.msl_source.expect("device source");
    assert!(msl.contains(&prepared.vertex_function));
    assert!(msl.contains(&prepared.fragment_function));
    assert!(prepared.vertex_function.contains("vs_main"));
    assert!(prepared.fragment_function.contains("fs_main"));
    assert_eq!(prepared.language_version, (1, 2));
    assert_eq!(prepared.buffer_binding_base, 1);
    assert!(prepared.push_constants.is_none());
    assert_eq!(prepared.attribute_locations.get(CustomVertexAttributeName::A0), Some(0));
    assert_eq!(prepared.attribute_locations.get(CustomVertexAttributeName::A1), Some(1));
    assert_eq!(prepared.argument_buffers.unwrap(), vec![None, None, None]);
}

#[test]
fn msl_and_metallib_sources_keep_entry_names() {
    let desc = textured_desc();
    let msl = PipelineLibrarySource::Msl("kernel void k() {}".to_string());
    let prepared = prepare_render_pipeline(&desc, &msl).unwrap();
    assert!(prepared.msl_source.is_none());
    assert_eq!(prepared.vertex_function, "vs_main");
    assert_eq!(prepared.fragment_function, "fs_main");

    let data: Arc<[u8]> = Arc::from(vec![1u8, 2, 3]);
    let prepared = prepare_render_pipeline(&desc, &PipelineLibrarySource::Metallib(data)).unwrap();
    assert!(prepared.msl_source.is_none());
    assert_eq!(prepared.vertex_function, "vs_main");
}

#[test]
fn empty_device_sources_are_refused() {
    let desc = textured_desc();
    let blank = PipelineLibrarySource::Msl("  \n\t".to_string());
    assert!(matches!(error_of(prepare_render_pipeline(&desc, &blank)), CustomDrawError::EmptyMslSource));
    let empty: Arc<[u8]> = Arc::from(Vec::<u8>::new());
    let source = PipelineLibrarySource::Metallib(empty);
    assert!(matches!(error_of(prepare_render_pipeline(&desc, &source)), CustomDrawError::EmptyMetalLibrary));
}

#[test]
fn unparsable_wgsl_is_refused() {
    let mut desc = textured_desc();
    desc.shader_source = "this is not wgsl".to_string();
    let err = error_of(prepare_render_pipeline(&desc, &PipelineLibrarySource::Wgsl));
    match err {
        CustomDrawError::ShaderParseFailed { message } => assert!(!message.is_empty()),
        other => panic!("unexpected error {other:?}"),
    }
}

#[test]
fn missing_entry_points_are_refused() {
    let mut desc = textured_desc();
    desc.vertex_entry = "nope".to_string();
    match error_of(prepare_render_pipeline(&desc, &PipelineLibrarySource::Wgsl)) {
        CustomDrawError::VertexEntryNotFound { name } => assert_eq!(name, "nope"),
        other => panic!("unexpected error {other:?}"),
    }
    let mut desc = textured_desc();
    desc.fragment_entry = "missing".to_string();
    match error_of(prepare_render_pipeline(&desc, &PipelineLibrarySource::Wgsl)) {
        CustomDrawError::FragmentEntryNotFound { name } => assert_eq!(name, "missing"),
        other => panic!("unexpected error {other:?}"),
    }
}

#[test]
fn undeclared_binding_is_refused() {
    let mut desc = textured_desc();
    desc.bindings.remove(0);
    match error_of(prepare_render_pipeline(&desc, &PipelineLibrarySource::Wgsl)) {
        CustomDrawError::UndeclaredBinding { name } => assert_eq!(name.as_deref(), Some("b0")),
        other => panic!("unexpected error {other:?}"),
    }
}

#[test]
fn binding_kind_mismatch_is_refused() {
    let mut desc = textured_desc();
    desc.bindings[0] = binding(CustomBindingName::B0, CustomBindingKind::Sampler);
    match error_of(prepare_render_pipeline(&desc, &PipelineLibrarySource::Wgsl)) {
        CustomDrawError::BindingTypeMismatch { name, entry, expected } => {
            assert_eq!(name.as_deref(), Some("b0"));
            assert_eq!(entry, "fs_main");
            assert_eq!(expected, ShaderResourceRequirement::Sampler);
        }
        other => panic!("unexpected error {other:?}"),
    }
}

#[test]
fn uniform_size_mismatch_is_refused() {
    let mut desc = textured_desc();
    desc.bindings[2] = binding(CustomBindingName::B2, CustomBindingKind::Uniform { size: 32 });
    match error_of(prepare_render_pipeline(&desc, &PipelineLibrarySource::Wgsl)) {
        CustomDrawError::UniformSizeMismatch { name, expected, actual } => {
            assert_eq!(name.as_deref(), Some("b2"));
            assert_eq!(expected, 32);
            assert_eq!(actual, 16);
        }
        other => panic!("unexpected error {other:?}"),
    }
}

#[test]
fn vertex_input_outside_layout_is_refused() {
    let mut desc = textured_desc();
    desc.vertex_fetches = vec![fetch(vec![attribute(CustomVertexAttributeName::A0, 0, None)])];
    match error_of(prepare_render_pipeline(&desc, &PipelineLibrarySource::Wgsl)) {
        CustomDrawError::VertexInputNotInLayout { name } => assert_eq!(name, "a1"),
        other => panic!("unexpected error {other:?}"),
    }
}

#[test]
fn push_constants_become_a_uniform_binding() {
    let desc = immediate_desc(Some(CustomPushConstantsDesc { size: 16 }));
    let prepared = prepare_render_pipeline(&desc, &PipelineLibrarySource::Wgsl).unwrap();
    let plan = prepared.push_constants.expect("push constants plan");
    assert_eq!(plan.name, "pc");
    assert!(!plan.renamed);
    assert_eq!(plan.size, 16);
    assert_eq!(plan.slot, CustomBindingSlot { group: 1, binding: 0 });
    assert!(prepared.msl_source.is_some());
}

#[test]
fn push_constants_must_match_the_shader() {
    let missing = immediate_desc(None);
    assert!(matches!(
        error_of(prepare_render_pipeline(&missing, &PipelineLibrarySource::Wgsl)),
        CustomDrawError::MissingPushConstants
    ));
    let wrong_size = immediate_desc(Some(CustomPushConstantsDesc { size: 32 }));
    match error_of(prepare_render_pipeline(&wrong_size, &PipelineLibrarySource::Wgsl)) {
        CustomDrawError::PushConstantsSizeMismatch { expected, actual } => {
            assert_eq!(expected, 32);
            assert_eq!(actual, 16);
        }
        other => panic!("unexpected error {other:?}"),
    }
    let mut unexpected = textured_desc();
    unexpected.push_constants = Some(CustomPushConstantsDesc { size: 16 });
    assert!(matches!(
        error_of(prepare_render_pipeline(&unexpected, &PipelineLibrarySource::Wgsl)),
        CustomDrawError::UnexpectedPushConstants
    ));
}

#[test]
fn compute_pipeline_becomes_msl() {
    let prepared = prepare_compute_pipeline(&compute_desc()).unwrap();
    assert!(prepared.msl_source.contains(&prepared.function));
    assert!(prepared.function.contains("main"));
    assert_eq!(prepared.workgroup_size, [64, 1, 1]);
    assert_eq!(prepared.language_version, (1, 2));
    assert!(prepared.push_constants.is_none());
    assert_eq!(prepared.argument_buffers.unwrap(), vec![None]);
}

#[test]
fn runtime_sized_storage_needs_a_sizes_buffer() {
    let mut desc = compute_desc();
    desc.shader_source = COMPUTE_SHADER.replace("array<u32, 64>", "array<u32>");
    match error_of(prepare_compute_pipeline(&desc)) {
        CustomDrawError::MslEntryFailed { message } => assert!(!message.is_empty()),
        other => panic!("unexpected error {other:?}"),
    }
}

#[test]
fn compute_entry_must_exist_and_be_compute() {
    let mut desc = compute_desc();
    desc.entry_point = "other".to_string();
    match error_of(prepare_compute_pipeline(&desc)) {
        CustomDrawError::ComputeEntryNotFound { name } => assert_eq!(name, "other"),
        other => panic!("unexpected error {other:?}"),
    }
    let desc = CustomComputePipelineDesc {
        name: "render".to_string(),
        shader_source: IMMEDIATE_SHADER.to_string(),
        entry_point: "fs_main".to_string(),
        push_constants: Some(CustomPushConstantsDesc { size: 16 }),
        bindings: Vec::new(),
    };
    match error_of(prepare_compute_pipeline(&desc)) {
        CustomDrawError::NotComputeEntry { name } => assert_eq!(name, "fs_main"),
        other => panic!("unexpected error {other:?}"),
    }
}

#[test]
fn compute_workgroup_size_overrides_are_refused() {
    let mut desc = compute_desc();
    desc.shader_source = "override size: u32 = 8;\n@compute @workgroup_size(size) fn main() {}".to_string();
    desc.bindings = Vec::new();
    assert!(matches!(error_of(prepare_compute_pipeline(&desc)), CustomDrawError::WorkgroupSizeOverrides));
}

#[test]
fn compute_buffer_kind_mismatch_is_refused() {
    let mut desc = compute_desc();
    desc.bindings = vec![binding(CustomBindingName::B0, CustomBindingKind::Uniform { size: 16 })];
    match error_of(prepare_compute_pipeline(&desc)) {
        CustomDrawError::BindingTypeMismatch { expected, .. } => {
            assert_eq!(expected, ShaderResourceRequirement::Uniform)
        }
        other => panic!("unexpected error {other:?}"),
    }
}

#[test]
fn texture_arrays_get_argument_buffers() {
    let shader = r#"
enable wgpu_binding_array;
var b0: binding_array<texture_2d<f32>, 4>;
var b1: sampler;

@vertex
fn vs_main(@builtin(vertex_index) index: u32) -> @builtin(position) vec4<f32> {
  return vec4<f32>(f32(index), 0.0, 0.0, 1.0);
}

@fragment
fn fs_main() -> @location(0) vec4<f32> {
  return textureSample(b0[1], b1, vec2<f32>(0.5, 0.5));
}
"#;
    let mut desc = immediate_desc(None);
    desc.shader_source = shader.to_string();
    desc.bindings = vec![
        binding(CustomBindingName::B0, CustomBindingKind::TextureArray { count: 4 }),
        binding(CustomBindingName::B1, CustomBindingKind::Sampler),
    ];
    let prepared = prepare_render_pipeline(&desc, &PipelineLibrarySource::Wgsl).unwrap();
    assert_eq!(prepared.language_version, (2, 0));
    assert_eq!(
        prepared.argument_buffers.unwrap(),
        vec![Some(ArgumentBufferPlan { stage: ArgumentEncoderStage::Second, buffer_slot: 0 }), None]
    );

    desc.bindings[0] = binding(CustomBindingName::B0, CustomBindingKind::TextureArray { count: 3 });
    match error_of(prepare_render_pipeline(&desc, &PipelineLibrarySource::Wgsl)) {
        CustomDrawError::BindingArrayLengthMismatch { expected, actual, .. } => {
            assert_eq!(expected, 3);
            assert_eq!(actual, 4);
        }
        other => panic!("unexpected error {other:?}"),
    }
}

#[test]
fn shader_globals_are_read_from_the_module() {
    let module = naga::front::wgsl::parse_str(TEXTURED_SHADER).unwrap();
    let globals = read_shader_globals(&module);
    assert_eq!(globals.len(), 3);
    assert_eq!(globals[0].name.as_deref(), Some("b0"));
    assert_eq!(globals[0].space, ShaderSpace::Handle);
    assert_eq!(globals[0].shape, ShaderTypeShape::Image(ShaderImageClass::Sampled));
    assert_eq!(globals[1].shape, ShaderTypeShape::Sampler);
    assert_eq!(globals[2].space, ShaderSpace::Uniform);
    assert_eq!(globals[2].layout_size, Some(16));
    assert!(globals.iter().all(|g| g.binding.is_none()));

    let arrays = naga::front::wgsl::parse_str("enable wgpu_binding_array;\nvar b0: binding_array<texture_2d<f32>, 4>;").unwrap();
    let globals = read_shader_globals(&arrays);
    assert_eq!(
        globals[0].shape,
        ShaderTypeShape::BindingArray {
            element: ShaderElementShape::Image(ShaderImageClass::Sampled),
            length: ShaderArrayLength::Constant(4),
        }
    );
}

fn member_locations(module: &naga::Module, struct_name: &str) -> Vec<Option<u32>> {
    let (_, ty) = module
        .types
        .iter()
        .find(|(_, ty)| ty.name.as_deref() == Some(struct_name))
        .expect("struct type");
    match &ty.inner {
        naga::TypeInner::Struct { members, .. } => members
            .iter()
            .map(|member| match member.binding {
                Some(naga::Binding::Location { location, .. }) => Some(location),
                _ => None,
            })
            .collect(),
        _ => panic!("not a struct"),
    }
}

#[test]
fn vertex_inputs_take_layout_and_sequential_locations() {
    let shader = r#"
struct VertexInput {
  a0: vec2<f32>,
  a3: vec2<f32>,
};
struct OtherInput {
  first: vec2<f32>,
  @location(5) fixed: vec2<f32>,
  second: vec2<f32>,
};
@vertex
fn vs_main(input: VertexInput) -> @builtin(position) vec4<f32> {
  return vec4<f32>(input.a0 + input.a3, 0.0, 1.0);
}
@vertex
fn vs_other(input: OtherInput) -> @builtin(position) vec4<f32> {
  return vec4<f32>(input.first + input.second + input.fixed, 0.0, 1.0);
}
"#;
    let mut module = naga::front::wgsl::parse_str(shader).unwrap();
    let fetches = vec![fetch(vec![
        attribute(CustomVertexAttributeName::A3, 0, Some(7)),
        attribute(CustomVertexAttributeName::A0, 8, None),
    ])];
    let locations = build_attribute_locations(&fetches).unwrap();
    assign_vertex_locations(&mut module, 0, &locations).unwrap();
    assert_eq!(member_locations(&module, "VertexInput"), vec![Some(0), Some(7)]);
    assert_eq!(member_locations(&module, "OtherInput"), vec![Some(0), Some(5), Some(1)]);
}

#[test]
fn vertex_inputs_must_be_structs() {
    let shader = "@vertex fn vs_main(value: vec4<f32>) -> @builtin(position) vec4<f32> { return value; }";
    let mut module = naga::front::wgsl::parse_str(shader).unwrap();
    let locations = build_attribute_locations(&Vec::new()).unwrap();
    match assign_vertex_locations(&mut module, 0, &locations) {
        Err(CustomDrawError::VertexInputNotStruct { entry }) => assert_eq!(entry, "vs_main"),
        other => panic!("unexpected result {other:?}"),
    }
}

#[test]
fn vertex_attributes_read_from_their_buffers_at_their_locations() {
    let fetches = vec![
        fetch(vec![
            attribute(CustomVertexAttributeName::A2, 0, Some(0)),
            attribute(CustomVertexAttributeName::A0, 8, None),
        ]),
        CustomVertexFetch {
            layout: CustomVertexLayout {
                stride: 32,
                attributes: vec![CustomVertexAttribute {
                    name: CustomVertexAttributeName::A5,
                    offset: 4,
                    format: CustomVertexFormat::U32Vec4,
                    location: None,
                }],
            },
            instanced: true,
        },
    ];
    let locations = build_attribute_locations(&fetches).unwrap();
    let plans = plan_vertex_attributes(&fetches, &locations);
    assert_eq!(
        plans,
        vec![
            vec![
                VertexAttributePlan { location: 0, format: CustomVertexFormat::F32Vec2, offset: 0 },
                VertexAttributePlan { location: 1, format: CustomVertexFormat::F32Vec2, offset: 8 },
            ],
            vec![VertexAttributePlan { location: 2, format: CustomVertexFormat::U32Vec4, offset: 4 }],
        ]
    );
}

#[test]
fn attribute_locations_are_distinct() {
    let fetches = vec![fetch(vec![
        attribute(CustomVertexAttributeName::A1, 0, None),
        attribute(CustomVertexAttributeName::A3, 8, Some(1)),
        attribute(CustomVertexAttributeName::A4, 16, None),
        attribute(CustomVertexAttributeName::A6, 24, Some(3)),
        attribute(CustomVertexAttributeName::A7, 32, None),
    ])];
    let locations = build_attribute_locations(&fetches).unwrap();
    let got: Vec<Option<u32>> = [
        CustomVertexAttributeName::A1,
        CustomVertexAttributeName::A3,
        CustomVertexAttributeName::A4,
        CustomVertexAttributeName::A6,
        CustomVertexAttributeName::A7,
        CustomVertexAttributeName::A0,
    ]
    .into_iter()
    .map(|name| locations.get(name))
    .collect();
    assert_eq!(got, vec![Some(0), Some(1), Some(2), Some(3), Some(4), None]);
}

#[test]
fn push_constants_take_the_group_after_the_bindings() {
    let bindings = vec![
        CustomBindingDesc {
            name: CustomBindingName::B0,
            kind: CustomBindingKind::Sampler,
            slot: Some(CustomBindingSlot { group: 2, binding: 7 }),
        },
        binding(CustomBindingName::B1, CustomBindingKind::Texture),
    ];
    assert_eq!(push_constants_slot(&bindings), CustomBindingSlot { group: 3, binding: 0 });
    assert_eq!(push_constants_slot(&[]), CustomBindingSlot { group: 1, binding: 0 });
}

#[test]
fn push_constants_block_named_like_a_binding_is_refused() {
    let mut desc = immediate_desc(Some(CustomPushConstantsDesc { size: 16 }));
    desc.shader_source = IMMEDIATE_SHADER.replace("pc", "b0");
    desc.bindings = vec![binding(CustomBindingName::B0, CustomBindingKind::Uniform { size: 16 })];
    match error_of(prepare_render_pipeline(&desc, &PipelineLibrarySource::Wgsl)) {
        CustomDrawError::PushConstantsNameConflict { name } => assert_eq!(name, "b0"),
        other => panic!("unexpected error {other:?}"),
    }
}

#[test]
fn texture_arrays_need_declared_array_bindings_to_validate() {
    let shader = r#"
enable wgpu_binding_array;
var b0: binding_array<texture_2d<f32>, 4>;
var b1: sampler;

@vertex
fn vs_main(@builtin(vertex_index) index: u32) -> @builtin(position) vec4<f32> {
  return vec4<f32>(f32(index), 0.0, 0.0, 1.0);
}

@fragment
fn fs_main() -> @location(0) vec4<f32> {
  return textureSample(b0[1], b1, vec2<f32>(0.5, 0.5));
}
"#;
    let mut desc = immediate_desc(None);
    desc.shader_source = shader.to_string();
    desc.bindings = vec![
        binding(CustomBindingName::B0, CustomBindingKind::Texture),
        binding(CustomBindingName::B1, CustomBindingKind::Sampler),
    ];
    match error_of(prepare_render_pipeline(&desc, &PipelineLibrarySource::Wgsl)) {
        CustomDrawError::ShaderValidationFailed { message } => assert!(!message.is_empty()),
        other => panic!("unexpected error {other:?}"),
    }
}

#[test]
fn render_pipeline_names_the_written_functions() {
    let prepared = prepare_render_pipeline(&textured_desc(), &PipelineLibrarySource::Wgsl).unwrap();
    let msl = prepared.msl_source.expect("device source");
    assert!(msl.contains(&prepared.vertex_function));
    assert!(msl.contains(&prepared.fragment_function));
    assert_ne!(prepared.vertex_function, prepared.fragment_function);
    assert_eq!(prepared.buffer_binding_base, 1);
}
