//! The shader stage of creating a render or compute pipeline: the WGSL
//! source is parsed and validated, its push constants block, vertex inputs
//! and resource variables are rewritten for the device, and (for pipelines
//! built from WGSL) it is written out as device shading language. What
//! follows is the device's own work: compiling the library, looking up the
//! functions and creating the pipeline state.
use vstd::prelude::*;
use crate::error::CustomDrawError;
use crate::keys::PipelineLibrarySource;
use crate::locations::{
    CustomAttributeLocations, build_attribute_locations, lemma_locations_assigned_unique, locations_assigned,
};
use crate::naga_module::{
    ShaderGlobalVar, ShaderStageKind, ShaderValidation, as_unbound, entry_at, module_entries, module_globals,
    module_usage, module_validation, msl_options, msl_options_for, msl_written, parse_wgsl,
    validate_module, wgsl_parsed, write_msl,
};
use crate::shader::{
    ArgumentBufferPlan, BindTargetPlan, BindingInfo, BindingMapsView, CustomBindingMaps, PushConstantsPlan,
    ShaderSpace, argument_buffers_planned, bind_target_of, build_binding_maps, build_entry_point_resources, buffer_binding_base,
    has_binding_arrays, is_array_kind, last_named, max_group, msl_language_version, naga_capabilities,
    plan_argument_buffers, push_constants_buffer_slot, push_constants_buffer_slot_of, push_constants_outcome,
    push_constants_slot, resource_binding_plan, slot_numbering_error, validation_for, writer_settings,
    writer_settings_spec,
};
use crate::rewrite::{
    apply_push_constants, assign_resource_bindings, assign_vertex_locations, entry_named_from, find_entry_point,
    globals_used_by_entry, located_module, normalize_binding_array_address_space, normalized_module,
    read_shader_globals, rebound, shader_globals, usage_covers, usage_flags,
};
use crate::types::{
    resolved_slot, CustomBindingDesc, CustomBindingKind, CustomBindingSlot, CustomComputePipelineDesc,
    CustomPipelineDesc, CustomPrimitiveTopology, CustomPushConstantsDesc,
};
use crate::validate::{fetch_attributes, first_error, is_blank, location_check, text_is_blank};

verus! {

/// A render pipeline's shader stage, ready for the device.
#[derive(Debug)]
pub struct PreparedRenderPipeline {
    /// Device shading language source, for pipelines built from WGSL.
    pub msl_source: Option<String>,
    /// Name of the vertex function in the device library.
    pub vertex_function: String,
    /// Name of the fragment function in the device library.
    pub fragment_function: String,
    /// Shading language version to compile with.
    pub language_version: (u8, u8),
    /// The push constants block, turned into a uniform binding.
    pub push_constants: Option<PushConstantsPlan>,
    /// Shader input location of each vertex attribute.
    pub attribute_locations: CustomAttributeLocations,
    /// First buffer slot after the vertex buffers.
    pub buffer_binding_base: u8,
    /// The argument buffer of each binding, or why a binding array has none.
    pub argument_buffers: Result<Vec<Option<ArgumentBufferPlan>>, CustomDrawError>,
}

/// A compute pipeline's shader stage, ready for the device.
#[derive(Debug)]
pub struct PreparedComputePipeline {
    /// Device shading language source.
    pub msl_source: String,
    /// Name of the compute function in the device library.
    pub function: String,
    /// Shading language version to compile with.
    pub language_version: (u8, u8),
    /// The push constants block, turned into a uniform binding.
    pub push_constants: Option<PushConstantsPlan>,
    /// Workgroup size of the entry point.
    pub workgroup_size: [u32; 3],
    /// The argument buffer of each binding, or why a binding array has none.
    pub argument_buffers: Result<Vec<Option<ArgumentBufferPlan>>, CustomDrawError>,
}

// ---------------------------------------------------------------------------
// The stages, as the contracts state them
// ---------------------------------------------------------------------------

/// Whether any binding is a binding array.
pub open spec fn uses_binding_arrays(bindings: Seq<CustomBindingDesc>) -> bool {
    exists|i: int| 0 <= i < bindings.len() && is_array_kind(#[trigger] bindings[i].kind)
}

/// The shading language version for a pipeline's bindings.
pub open spec fn language_version_for(bindings: Seq<CustomBindingDesc>) -> (u8, u8) {
    if uses_binding_arrays(bindings) {
        (2u8, 0u8)
    } else {
        (1u8, 2u8)
    }
}

/// The slot of the uniform binding that push constants become.
pub open spec fn push_constants_slot_for(bindings: Seq<CustomBindingDesc>) -> CustomBindingSlot {
    CustomBindingSlot { group: max_group(bindings).saturating_add(1), binding: 0 }
}

/// Every usage list of a validated module covers its globals, one list per entry point.
pub open spec fn info_fits(info: naga::valid::ModuleInfo, module: naga::Module) -> bool {
    &&& module_usage(info).len() == module_entries(module).len()
    &&& usage_covers(module_usage(info), module_globals(module).len())
}

/// Parsing WGSL source and validating the module.
pub open spec fn checked_shader(source: Seq<char>, settings: ShaderValidation) -> Result<
    (naga::Module, naga::valid::ModuleInfo),
    CustomDrawError,
> {
    match wgsl_parsed(source) {
        Err(message) => Err(CustomDrawError::ShaderParseFailed { message }),
        Ok(module) => match module_validation(module, settings) {
            Err(message) => Err(CustomDrawError::ShaderValidationFailed { message }),
            Ok(info) => Ok((module, info)),
        },
    }
}

/// The variable name of the push constants block: its own, or `push_constants`.
pub open spec fn block_name(var: ShaderGlobalVar) -> Seq<char> {
    match var.name {
        Some(n) => n@,
        None => "push_constants"@,
    }
}

/// Turning the push constants block the entry points `entries` use into a
/// uniform: the block's global and variable name (none without a block),
/// the rewritten module, and what validating it again found.
pub open spec fn push_stage(
    module: naga::Module,
    info: naga::valid::ModuleInfo,
    entries: Seq<usize>,
    declared: Option<CustomPushConstantsDesc>,
    settings: ShaderValidation,
) -> Result<(Option<(usize, Seq<char>)>, naga::Module, naga::valid::ModuleInfo), CustomDrawError> {
    match push_constants_outcome(
        shader_globals(module),
        usage_flags(module_usage(info), entries, module_globals(module).len()),
        declared,
    ) {
        Err(e) => Err(e),
        Ok(None) => Ok((None, module, info)),
        Ok(Some(i)) => {
            let name = block_name(module_globals(module)[i]);
            let rewritten = as_unbound(module, i as usize, ShaderSpace::Uniform, name);
            match module_validation(rewritten, settings) {
                Err(message) => Err(CustomDrawError::ShaderValidationFailed { message }),
                Ok(new_info) => Ok((Some((i as usize, name)), rewritten, new_info)),
            }
        },
    }
}

/// The push constants plan for a block: none without a block; otherwise
/// its global and name, the declared size and the uniform's slot.
pub open spec fn plan_is(
    plan: Option<PushConstantsPlan>,
    block: Option<(usize, Seq<char>)>,
    declared: Option<CustomPushConstantsDesc>,
    slot: CustomBindingSlot,
) -> bool {
    match block {
        None => plan is None,
        Some((g, n)) => plan matches Some(p) && p.global == g && p.name@ == n && p.size == declared.unwrap().size
            && p.slot == slot,
    }
}

/// Whether a declared binding already uses the block's variable name.
pub open spec fn block_name_taken(bindings: Seq<CustomBindingDesc>, block: Option<(usize, Seq<char>)>) -> bool {
    block matches Some((_, n)) && last_named(bindings, n) is Some
}

/// The bindings variables are looked up in: the declared ones and the
/// push constants block as a uniform at `slot`.
pub open spec fn maps_for(
    bindings: Seq<CustomBindingDesc>,
    block: Option<(usize, Seq<char>)>,
    declared: Option<CustomPushConstantsDesc>,
    slot: CustomBindingSlot,
) -> BindingMapsView {
    (
        bindings,
        match block {
            Some((_, n)) => Some(
                (n, BindingInfo { kind: CustomBindingKind::Uniform { size: declared.unwrap().size }, slot }),
            ),
            None => None,
        },
    )
}

/// The device bind targets of the bindings, in order.
pub open spec fn binding_targets(bindings: Seq<CustomBindingDesc>, base: u8) -> Seq<(CustomBindingSlot, BindTargetPlan)> {
    Seq::new(
        bindings.len(),
        |i: int| (resolved_slot(bindings[i]), bind_target_of(bindings[i].kind, i as u8, (base + i) as u8)),
    )
}

/// The device bind targets of the bindings, and of the push constants
/// uniform at `push_slot` after them.
pub open spec fn device_targets_of(
    bindings: Seq<CustomBindingDesc>,
    base: u8,
    push_slot: Option<CustomBindingSlot>,
) -> Result<Seq<(CustomBindingSlot, BindTargetPlan)>, CustomDrawError> {
    match slot_numbering_error(bindings.len(), base) {
        Some(e) => Err(e),
        None => match push_slot {
            None => Ok(binding_targets(bindings, base)),
            Some(slot) => match push_constants_buffer_slot_of(base, bindings.len()) {
                Err(e) => Err(e),
                Ok(buffer) => Ok(
                    binding_targets(bindings, base).push(
                        (slot, BindTargetPlan { buffer: Some(buffer), texture: None, sampler: None, mutable: false }),
                    ),
                ),
            },
        },
    }
}

/// The push constants uniform's slot, when there is a block.
pub open spec fn block_slot(block: Option<(usize, Seq<char>)>, slot: CustomBindingSlot) -> Option<CustomBindingSlot> {
    match block {
        Some(_) => Some(slot),
        None => None,
    }
}

/// The device function name the writer gave entry point `index`.
pub open spec fn function_name(names: Seq<Result<String, String>>, index: usize) -> Result<String, CustomDrawError> {
    if index >= names.len() {
        Err(CustomDrawError::MslEntryMissing)
    } else {
        match names[index as int] {
            Ok(n) => Ok(n),
            Err(m) => Err(CustomDrawError::MslEntryFailed { message: m }),
        }
    }
}

/// The compute entry point: the first named as the description says, which
/// must be a compute shader whose workgroup size uses no overrides.
pub open spec fn compute_entry(module: naga::Module, desc: CustomComputePipelineDesc) -> Result<usize, CustomDrawError> {
    match entry_named_from(module_entries(module), desc.entry_point@, 0) {
        None => Err(CustomDrawError::ComputeEntryNotFound { name: desc.entry_point }),
        Some(i) => {
            let entry = module_entries(module)[i as int];
            if entry.stage != ShaderStageKind::Compute {
                Err(CustomDrawError::NotComputeEntry { name: desc.entry_point })
            } else if entry.size_overrides matches Some(o) && (o[0] || o[1] || o[2]) {
                Err(CustomDrawError::WorkgroupSizeOverrides)
            } else {
                Ok(i)
            }
        },
    }
}

/// What preparing a compute pipeline gives, stage by stage: each stage's
/// error, or the prepared pipeline with the device language the writer gave
/// for the rewritten module (validated again before it is written), its
/// function name for the entry point and the entry point's workgroup size.
pub open spec fn compute_result(desc: CustomComputePipelineDesc, r: Result<PreparedComputePipeline, CustomDrawError>) -> bool {
    let settings = validation_for(desc.bindings@);
    let slot = push_constants_slot_for(desc.bindings@);
    match checked_shader(desc.shader_source@, settings) {
        Err(e) => r == Err::<PreparedComputePipeline, CustomDrawError>(e),
        Ok((module, info)) => match compute_entry(module, desc) {
            Err(e) => r == Err::<PreparedComputePipeline, CustomDrawError>(e),
            Ok(index) => match push_stage(module, info, seq![index], desc.push_constants, settings) {
                Err(e) => r == Err::<PreparedComputePipeline, CustomDrawError>(e),
                Ok((block, pushed, pushed_info)) => if block_name_taken(desc.bindings@, block) {
                    r matches Err(CustomDrawError::PushConstantsNameConflict { name }) && block.unwrap().1 == name@
                } else {
                    let usage = module_usage(pushed_info)[index as int];
                    match resource_binding_plan(
                        shader_globals(pushed),
                        usage,
                        desc.entry_point,
                        maps_for(desc.bindings@, block, desc.push_constants, slot),
                    ) {
                        Err(e) => r == Err::<PreparedComputePipeline, CustomDrawError>(e),
                        Ok(updates) => {
                            let bound = rebound(pushed, updates);
                            match device_targets_of(desc.bindings@, 0, block_slot(block, slot)) {
                                Err(e) => r == Err::<PreparedComputePipeline, CustomDrawError>(e),
                                Ok(targets) => {
                                    let options = msl_options_for(
                                        language_version_for(desc.bindings@),
                                        seq![desc.entry_point],
                                        targets,
                                        writer_settings_spec(),
                                    );
                                    match module_validation(normalized_module(bound), settings) {
                                        Err(message) => r == Err::<PreparedComputePipeline, CustomDrawError>(
                                            CustomDrawError::ShaderValidationFailed { message },
                                        ),
                                        Ok(final_info) => match msl_written(normalized_module(bound), final_info, options, false) {
                                        Err(message) => r == Err::<PreparedComputePipeline, CustomDrawError>(
                                            CustomDrawError::MslWriteFailed { message },
                                        ),
                                        Ok((source, names)) => match function_name(names, index) {
                                            Err(e) => r == Err::<PreparedComputePipeline, CustomDrawError>(e),
                                            Ok(function) => r matches Ok(p) && p.msl_source == source && p.function
                                                == function && p.workgroup_size == module_entries(
                                                module,
                                            )[index as int].workgroup_size && p.language_version
                                                == language_version_for(desc.bindings@) && plan_is(
                                                p.push_constants,
                                                block,
                                                desc.push_constants,
                                                slot,
                                            ) && argument_buffers_planned(
                                                p.argument_buffers,
                                                desc.bindings@,
                                                shader_globals(bound),
                                                usage,
                                                None,
                                                0,
                                            ),
                                        },
                                        },
                                    }
                                },
                            }
                        },
                    }
                },
            },
        },
    }
}

/// A prepared render pipeline with these parts.
pub open spec fn render_ready(
    r: Result<PreparedRenderPipeline, CustomDrawError>,
    desc: CustomPipelineDesc,
    msl_source: Option<String>,
    vertex_function: String,
    fragment_function: String,
    block: Option<(usize, Seq<char>)>,
    locations: Seq<Option<u32>>,
    base: u8,
    bound: naga::Module,
    vertex_usage: Seq<bool>,
    fragment_usage: Seq<bool>,
) -> bool {
    r matches Ok(p) && p.msl_source == msl_source && p.vertex_function == vertex_function && p.fragment_function
        == fragment_function && p.language_version == language_version_for(desc.bindings@) && plan_is(
        p.push_constants,
        block,
        desc.push_constants,
        push_constants_slot_for(desc.bindings@),
    ) && p.attribute_locations@ == locations && p.buffer_binding_base == base && argument_buffers_planned(
        p.argument_buffers,
        desc.bindings@,
        shader_globals(bound),
        vertex_usage,
        Some(fragment_usage),
        base,
    )
}

/// The device library stage of a render pipeline: for WGSL pipelines the
/// rewritten module is validated again and written out as device language,
/// and the writer names the functions of both entry points; device sources
/// must not be empty.
pub open spec fn render_library_result(
    desc: CustomPipelineDesc,
    source: PipelineLibrarySource,
    r: Result<PreparedRenderPipeline, CustomDrawError>,
    block: Option<(usize, Seq<char>)>,
    locations: Seq<Option<u32>>,
    bound: naga::Module,
    info: naga::valid::ModuleInfo,
    vertex: usize,
    fragment: usize,
    base: u8,
) -> bool {
    let vertex_usage = module_usage(info)[vertex as int];
    let fragment_usage = module_usage(info)[fragment as int];
    match source {
        PipelineLibrarySource::Wgsl => match device_targets_of(
            desc.bindings@,
            base,
            block_slot(block, push_constants_slot_for(desc.bindings@)),
        ) {
            Err(e) => r == Err::<PreparedRenderPipeline, CustomDrawError>(e),
            Ok(targets) => {
                let options = msl_options_for(
                    language_version_for(desc.bindings@),
                    seq![desc.vertex_entry, desc.fragment_entry],
                    targets,
                    writer_settings_spec(),
                );
                match module_validation(normalized_module(bound), validation_for(desc.bindings@)) {
                    Err(message) => r == Err::<PreparedRenderPipeline, CustomDrawError>(
                        CustomDrawError::ShaderValidationFailed { message },
                    ),
                    Ok(final_info) => match msl_written(normalized_module(bound), final_info, options, desc.primitive is PointList) {
                    Err(message) => r == Err::<PreparedRenderPipeline, CustomDrawError>(
                        CustomDrawError::MslWriteFailed { message },
                    ),
                    Ok((msl, names)) => match function_name(names, vertex) {
                        Err(e) => r == Err::<PreparedRenderPipeline, CustomDrawError>(e),
                        Ok(vertex_function) => match function_name(names, fragment) {
                            Err(e) => r == Err::<PreparedRenderPipeline, CustomDrawError>(e),
                            Ok(fragment_function) => render_ready(
                                r,
                                desc,
                                Some(msl),
                                vertex_function,
                                fragment_function,
                                block,
                                locations,
                                base,
                                bound,
                                vertex_usage,
                                fragment_usage,
                            ),
                        },
                    },
                    },
                }
            },
        },
        PipelineLibrarySource::Msl(s) => if is_blank(s@) {
            r == Err::<PreparedRenderPipeline, CustomDrawError>(CustomDrawError::EmptyMslSource)
        } else {
            render_ready(
                r,
                desc,
                None,
                desc.vertex_entry,
                desc.fragment_entry,
                block,
                locations,
                base,
                bound,
                vertex_usage,
                fragment_usage,
            )
        },
        PipelineLibrarySource::Metallib(data) => if data@.len() == 0 {
            r == Err::<PreparedRenderPipeline, CustomDrawError>(CustomDrawError::EmptyMetalLibrary)
        } else {
            render_ready(
                r,
                desc,
                None,
                desc.vertex_entry,
                desc.fragment_entry,
                block,
                locations,
                base,
                bound,
                vertex_usage,
                fragment_usage,
            )
        },
    }
}

/// The rewriting stage of a render pipeline, after the push constants
/// block: vertex input locations from the layout `locations`, the block's
/// name against the declared bindings, the resource variables of the
/// vertex and then the fragment entry point, the vertex buffer count, and
/// the device library.
pub open spec fn render_rewrite_result(
    desc: CustomPipelineDesc,
    source: PipelineLibrarySource,
    r: Result<PreparedRenderPipeline, CustomDrawError>,
    block: Option<(usize, Seq<char>)>,
    pushed: naga::Module,
    info: naga::valid::ModuleInfo,
    vertex: usize,
    fragment: usize,
    locations: Seq<Option<u32>>,
) -> bool {
    let maps = maps_for(desc.bindings@, block, desc.push_constants, push_constants_slot_for(desc.bindings@));
    match located_module(pushed, vertex, locations) {
        Err(e) => r == Err::<PreparedRenderPipeline, CustomDrawError>(e),
        Ok(located) => if block_name_taken(desc.bindings@, block) {
            r matches Err(CustomDrawError::PushConstantsNameConflict { name }) && block.unwrap().1 == name@
        } else {
            match resource_binding_plan(
                shader_globals(located),
                module_usage(info)[vertex as int],
                desc.vertex_entry,
                maps,
            ) {
                Err(e) => r == Err::<PreparedRenderPipeline, CustomDrawError>(e),
                Ok(first) => {
                    let vertex_bound = rebound(located, first);
                    match resource_binding_plan(
                        shader_globals(vertex_bound),
                        module_usage(info)[fragment as int],
                        desc.fragment_entry,
                        maps,
                    ) {
                        Err(e) => r == Err::<PreparedRenderPipeline, CustomDrawError>(e),
                        Ok(second) => if desc.vertex_fetches@.len() > 255 {
                            r == Err::<PreparedRenderPipeline, CustomDrawError>(
                                CustomDrawError::TooManyVertexBuffers,
                            )
                        } else {
                            render_library_result(
                                desc,
                                source,
                                r,
                                block,
                                locations,
                                rebound(vertex_bound, second),
                                info,
                                vertex,
                                fragment,
                                desc.vertex_fetches@.len() as u8,
                            )
                        },
                    }
                },
            }
        },
    }
}

/// What preparing a render pipeline gives, stage by stage: each stage's
/// error, or the prepared pipeline. The vertex inputs take the locations
/// the vertex layout assigns, which are determined (see
/// `lemma_locations_assigned_unique`).
pub open spec fn render_result(
    desc: CustomPipelineDesc,
    source: PipelineLibrarySource,
    r: Result<PreparedRenderPipeline, CustomDrawError>,
) -> bool {
    let settings = validation_for(desc.bindings@);
    let attributes = fetch_attributes(desc.vertex_fetches@);
    match checked_shader(desc.shader_source@, settings) {
        Err(e) => r == Err::<PreparedRenderPipeline, CustomDrawError>(e),
        Ok((module, info)) => match entry_named_from(module_entries(module), desc.vertex_entry@, 0) {
            None => r == Err::<PreparedRenderPipeline, CustomDrawError>(
                CustomDrawError::VertexEntryNotFound { name: desc.vertex_entry },
            ),
            Some(vertex) => match entry_named_from(module_entries(module), desc.fragment_entry@, 0) {
                None => r == Err::<PreparedRenderPipeline, CustomDrawError>(
                    CustomDrawError::FragmentEntryNotFound { name: desc.fragment_entry },
                ),
                Some(fragment) => match push_stage(
                    module,
                    info,
                    seq![vertex, fragment],
                    desc.push_constants,
                    settings,
                ) {
                    Err(e) => r == Err::<PreparedRenderPipeline, CustomDrawError>(e),
                    Ok((block, pushed, pushed_info)) => match first_error(attributes, location_check()) {
                        Some(e) => r == Err::<PreparedRenderPipeline, CustomDrawError>(e),
                        None => render_rewrite_result(
                            desc,
                            source,
                            r,
                            block,
                            pushed,
                            pushed_info,
                            vertex,
                            fragment,
                            choose|l: Seq<Option<u32>>| locations_assigned(attributes, l),
                        ),
                    },
                },
            },
        },
    }
}

// ---------------------------------------------------------------------------
// The stages
// ---------------------------------------------------------------------------

/// Parses and validates WGSL source.
fn validated_shader(source: &String, settings: ShaderValidation) -> (r: Result<
    (naga::Module, naga::valid::ModuleInfo),
    CustomDrawError,
>)
    ensures
        r == checked_shader(source@, settings),
        r matches Ok((module, info)) ==> info_fits(info, module),
{
    let module = match parse_wgsl(source.as_str()) {
        Ok(module) => module,
        Err(message) => return Err(CustomDrawError::ShaderParseFailed { message }),
    };
    let info = match validate_module(&module, settings) {
        Ok(info) => info,
        Err(message) => return Err(CustomDrawError::ShaderValidationFailed { message }),
    };
    Ok((module, info))
}

/// Turns the push constants block of the entry points `entries` into a
/// uniform at `slot`, and validates the module again when there was one.
fn push_constants_stage(
    module: &mut naga::Module,
    info: naga::valid::ModuleInfo,
    entries: &[usize],
    declared: Option<CustomPushConstantsDesc>,
    slot: CustomBindingSlot,
    settings: ShaderValidation,
) -> (r: Result<(Option<PushConstantsPlan>, naga::valid::ModuleInfo), CustomDrawError>)
    requires
        info_fits(info, *old(module)),
        forall|k: int| 0 <= k < entries@.len() ==> #[trigger] entries@[k] < module_entries(*old(module)).len(),
    ensures
        match push_stage(*old(module), info, entries@, declared, settings) {
            Err(e) => r == Err::<(Option<PushConstantsPlan>, naga::valid::ModuleInfo), CustomDrawError>(e),
            Ok((block, pushed, pushed_info)) => r matches Ok((plan, new_info)) && new_info == pushed_info
                && *final(module) == pushed && plan_is(plan, block, declared, slot),
        },
        r matches Ok((plan, new_info)) ==> info_fits(new_info, *final(module)),
        module_entries(*final(module)) == module_entries(*old(module)),
{
    let plan = match apply_push_constants(module, &info, entries, declared, slot) {
        Ok(plan) => plan,
        Err(e) => return Err(e),
    };
    if plan.is_none() {
        return Ok((plan, info));
    }
    match validate_module(module, settings) {
        Ok(new_info) => Ok((plan, new_info)),
        Err(message) => Err(CustomDrawError::ShaderValidationFailed { message }),
    }
}

/// The bindings variables are looked up in, with the push constants block
/// added as a uniform; its name must not be a declared binding's.
fn pipeline_binding_maps(bindings: &[CustomBindingDesc], push_constants: &Option<PushConstantsPlan>) -> (r: Result<
    CustomBindingMaps,
    CustomDrawError,
>)
    ensures
        match push_constants {
            Some(p) => if last_named(bindings@, p.name@) is Some {
                r matches Err(CustomDrawError::PushConstantsNameConflict { name }) && name@ == p.name@
            } else {
                r matches Ok(m) && m@ == (
                    bindings@,
                    Some((p.name@, BindingInfo { kind: CustomBindingKind::Uniform { size: p.size }, slot: p.slot })),
                )
            },
            None => r matches Ok(m) && m@ == (bindings@, None::<(Seq<char>, BindingInfo)>),
        },
{
    let mut maps = build_binding_maps(bindings);
    if let Some(plan) = push_constants {
        if maps.contains_name(plan.name.as_str()) {
            return Err(CustomDrawError::PushConstantsNameConflict { name: plan.name.clone() });
        }
        maps.insert_push_constants(
            plan.name.clone(),
            BindingInfo { kind: CustomBindingKind::Uniform { size: plan.size }, slot: plan.slot },
        );
    }
    Ok(maps)
}

/// The device bind targets of the bindings, after the `base` vertex
/// buffers, and of the push constants uniform at `push_slot` after them.
fn device_targets(bindings: &[CustomBindingDesc], base: u8, push_slot: Option<CustomBindingSlot>) -> (r: Result<
    Vec<(CustomBindingSlot, BindTargetPlan)>,
    CustomDrawError,
>)
    ensures
        match device_targets_of(bindings@, base, push_slot) {
            Ok(t) => r matches Ok(v) && v@ == t,
            Err(e) => r == Err::<Vec<(CustomBindingSlot, BindTargetPlan)>, CustomDrawError>(e),
        },
{
    let mut targets = match build_entry_point_resources(bindings, base) {
        Ok(targets) => targets,
        Err(e) => return Err(e),
    };
    assert(targets@ =~= binding_targets(bindings@, base));
    if let Some(slot) = push_slot {
        let buffer = match push_constants_buffer_slot(base, bindings.len()) {
            Ok(buffer) => buffer,
            Err(e) => return Err(e),
        };
        targets.push((slot, BindTargetPlan { buffer: Some(buffer), texture: None, sampler: None, mutable: false }));
    }
    Ok(targets)
}

/// The device function name the writer gave entry point `index`.
fn entry_function_name(names: &Vec<Result<String, String>>, index: usize) -> (r: Result<String, CustomDrawError>)
    ensures
        r == function_name(names@, index),
{
    if index >= names.len() {
        return Err(CustomDrawError::MslEntryMissing);
    }
    match &names[index] {
        Ok(n) => Ok(n.clone()),
        Err(m) => Err(CustomDrawError::MslEntryFailed { message: m.clone() }),
    }
}

/// The shader stage of creating a render pipeline from `desc`, whose device
/// library comes from `source`: parses and validates the WGSL source, finds
/// the vertex and fragment entry points, turns the push constants block into
/// a uniform binding at the slot after the highest used group (validating
/// again), assigns the vertex input locations, binds the resource variables
/// both entry points use, and, for WGSL pipelines, validates the rewritten
/// module again and writes device shading language with the device slots of
/// every binding; device sources must not be empty. The argument buffers of binding arrays are planned from the
/// rewritten module and reported separately, as the device creates them
/// only once the library exists.
#[verifier::spinoff_prover]
#[verifier::rlimit(60)]
pub fn prepare_render_pipeline(desc: &CustomPipelineDesc, source: &PipelineLibrarySource) -> (r: Result<
    PreparedRenderPipeline,
    CustomDrawError,
>)
    requires
        fetch_attributes(desc.vertex_fetches@).len() + 8 < u32::MAX,
        desc.bindings@.len() + 256 <= u64::MAX,
    ensures
        render_result(*desc, *source, r),
{
    let binding_arrays = has_binding_arrays(&desc.bindings);
    let language_version = msl_language_version(binding_arrays);
    let settings = naga_capabilities(&desc.bindings);
    let slot = push_constants_slot(&desc.bindings);
    let (mut module, info) = match validated_shader(&desc.shader_source, settings) {
        Ok(pair) => pair,
        Err(e) => return Err(e),
    };
    let vertex_index = match find_entry_point(&module, desc.vertex_entry.as_str()) {
        Some(i) => i,
        None => return Err(CustomDrawError::VertexEntryNotFound { name: desc.vertex_entry.clone() }),
    };
    let fragment_index = match find_entry_point(&module, desc.fragment_entry.as_str()) {
        Some(i) => i,
        None => return Err(CustomDrawError::FragmentEntryNotFound { name: desc.fragment_entry.clone() }),
    };
    let entries = [vertex_index, fragment_index];
    assert(entries@ =~= seq![vertex_index, fragment_index]);
    let (push_constants, info) = match push_constants_stage(
        &mut module,
        info,
        &entries,
        desc.push_constants,
        slot,
        settings,
    ) {
        Ok(pair) => pair,
        Err(e) => return Err(e),
    };
    let attribute_locations = match build_attribute_locations(&desc.vertex_fetches) {
        Ok(locations) => locations,
        Err(e) => return Err(e),
    };
    proof {
        let attributes = fetch_attributes(desc.vertex_fetches@);
        let chosen = choose|l: Seq<Option<u32>>| locations_assigned(attributes, l);
        lemma_locations_assigned_unique(attributes, attribute_locations@, chosen);
    }
    match assign_vertex_locations(&mut module, vertex_index, &attribute_locations) {
        Ok(()) => {},
        Err(e) => return Err(e),
    }
    let maps = match pipeline_binding_maps(&desc.bindings, &push_constants) {
        Ok(maps) => maps,
        Err(e) => return Err(e),
    };
    let vertex_name = desc.vertex_entry.clone();
    let fragment_name = desc.fragment_entry.clone();
    match assign_resource_bindings(&mut module, &info, &vertex_name, vertex_index, &maps) {
        Ok(()) => {},
        Err(e) => return Err(e),
    }
    match assign_resource_bindings(&mut module, &info, &fragment_name, fragment_index, &maps) {
        Ok(()) => {},
        Err(e) => return Err(e),
    }
    let globals = read_shader_globals(&module);
    let vertex_usage = globals_used_by_entry(&info, vertex_index, globals.len());
    let fragment_usage = globals_used_by_entry(&info, fragment_index, globals.len());
    let base = match buffer_binding_base(desc.vertex_fetches.len()) {
        Ok(base) => base,
        Err(e) => return Err(e),
    };
    let (msl_source, vertex_function, fragment_function) = match source {
        PipelineLibrarySource::Wgsl => {
            let push_slot = match &push_constants {
                Some(plan) => Some(plan.slot),
                None => None,
            };
            let targets = match device_targets(&desc.bindings, base, push_slot) {
                Ok(targets) => targets,
                Err(e) => return Err(e),
            };
            normalize_binding_array_address_space(&mut module);
            let mut entry_names: Vec<String> = Vec::new();
            entry_names.push(desc.vertex_entry.clone());
            entry_names.push(desc.fragment_entry.clone());
            assert(entry_names@ =~= seq![desc.vertex_entry, desc.fragment_entry]);
            let options = msl_options(language_version, &entry_names, &targets, writer_settings());
            let point_size = match desc.primitive {
                CustomPrimitiveTopology::PointList => true,
                _ => false,
            };
            let written_info = match validate_module(&module, settings) {
                Ok(checked) => checked,
                Err(message) => return Err(CustomDrawError::ShaderValidationFailed { message }),
            };
            let (msl, names) = match write_msl(&module, &written_info, &options, point_size) {
                Ok(out) => out,
                Err(message) => return Err(CustomDrawError::MslWriteFailed { message }),
            };
            let vertex_function = match entry_function_name(&names, vertex_index) {
                Ok(n) => n,
                Err(e) => return Err(e),
            };
            let fragment_function = match entry_function_name(&names, fragment_index) {
                Ok(n) => n,
                Err(e) => return Err(e),
            };
            (Some(msl), vertex_function, fragment_function)
        },
        PipelineLibrarySource::Msl(msl) => {
            if text_is_blank(msl.as_str()) {
                return Err(CustomDrawError::EmptyMslSource);
            }
            (None, desc.vertex_entry.clone(), desc.fragment_entry.clone())
        },
        PipelineLibrarySource::Metallib(data) => {
            let bytes: &[u8] = data;
            if bytes.len() == 0 {
                return Err(CustomDrawError::EmptyMetalLibrary);
            }
            (None, desc.vertex_entry.clone(), desc.fragment_entry.clone())
        },
    };
    let argument_buffers = plan_argument_buffers(
        &desc.bindings,
        &globals,
        &vertex_usage,
        Some(&fragment_usage),
        base,
    );
    Ok(
        PreparedRenderPipeline {
            msl_source,
            vertex_function,
            fragment_function,
            language_version,
            push_constants,
            attribute_locations,
            buffer_binding_base: base,
            argument_buffers,
        },
    )
}

/// The shader stage of creating a compute pipeline from `desc`: parses and
/// validates the WGSL source, finds the entry point, which must be a
/// compute shader without workgroup size overrides, turns the push
/// constants block into a uniform binding (validating again), binds the
/// resource variables the entry point uses, validates the rewritten module
/// again, and writes device shading language with the device slots of every
/// binding. The argument buffers
/// of binding arrays are reported separately, as the device creates them
/// only once the library exists.
#[verifier::spinoff_prover]
#[verifier::rlimit(60)]
pub fn prepare_compute_pipeline(desc: &CustomComputePipelineDesc) -> (r: Result<
    PreparedComputePipeline,
    CustomDrawError,
>)
    requires
        desc.bindings@.len() + 256 <= u64::MAX,
    ensures
        compute_result(*desc, r),
{
    let binding_arrays = has_binding_arrays(&desc.bindings);
    let language_version = msl_language_version(binding_arrays);
    let settings = naga_capabilities(&desc.bindings);
    let slot = push_constants_slot(&desc.bindings);
    let (mut module, info) = match validated_shader(&desc.shader_source, settings) {
        Ok(pair) => pair,
        Err(e) => return Err(e),
    };
    let index = match find_entry_point(&module, desc.entry_point.as_str()) {
        Some(i) => i,
        None => return Err(CustomDrawError::ComputeEntryNotFound { name: desc.entry_point.clone() }),
    };
    let (entry, _) = entry_at(&module, index);
    if entry.stage != ShaderStageKind::Compute {
        return Err(CustomDrawError::NotComputeEntry { name: desc.entry_point.clone() });
    }
    if let Some(overridden) = entry.size_overrides {
        if overridden[0] || overridden[1] || overridden[2] {
            return Err(CustomDrawError::WorkgroupSizeOverrides);
        }
    }
    let workgroup_size = entry.workgroup_size;
    let entries = [index];
    assert(entries@ =~= seq![index]);
    let (push_constants, info) = match push_constants_stage(
        &mut module,
        info,
        &entries,
        desc.push_constants,
        slot,
        settings,
    ) {
        Ok(pair) => pair,
        Err(e) => return Err(e),
    };
    let maps = match pipeline_binding_maps(&desc.bindings, &push_constants) {
        Ok(maps) => maps,
        Err(e) => return Err(e),
    };
    let entry_name = desc.entry_point.clone();
    match assign_resource_bindings(&mut module, &info, &entry_name, index, &maps) {
        Ok(()) => {},
        Err(e) => return Err(e),
    }
    let globals = read_shader_globals(&module);
    let usage = globals_used_by_entry(&info, index, globals.len());
    let push_slot = match &push_constants {
        Some(plan) => Some(plan.slot),
        None => None,
    };
    let targets = match device_targets(&desc.bindings, 0, push_slot) {
        Ok(targets) => targets,
        Err(e) => return Err(e),
    };
    normalize_binding_array_address_space(&mut module);
    let mut entry_names: Vec<String> = Vec::new();
    entry_names.push(desc.entry_point.clone());
    assert(entry_names@ =~= seq![desc.entry_point]);
    let options = msl_options(language_version, &entry_names, &targets, writer_settings());
    let written_info = match validate_module(&module, settings) {
        Ok(checked) => checked,
        Err(message) => return Err(CustomDrawError::ShaderValidationFailed { message }),
    };
    let (msl_source, names) = match write_msl(&module, &written_info, &options, false) {
        Ok(out) => out,
        Err(message) => return Err(CustomDrawError::MslWriteFailed { message }),
    };
    let function = match entry_function_name(&names, index) {
        Ok(n) => n,
        Err(e) => return Err(e),
    };
    let argument_buffers = plan_argument_buffers(&desc.bindings, &globals, &usage, None, 0);
    Ok(
        PreparedComputePipeline {
            msl_source,
            function,
            language_version,
            push_constants,
            workgroup_size,
            argument_buffers,
        },
    )
}

/// No binding sits in a group above the highest group.
proof fn lemma_max_group_bound(bindings: Seq<CustomBindingDesc>, i: int)
    requires
        0 <= i < bindings.len(),
    ensures
        resolved_slot(bindings[i]).group <= max_group(bindings),
    decreases bindings.len(),
{
    if i < bindings.len() - 1 {
        lemma_max_group_bound(bindings.drop_last(), i);
        assert(bindings.drop_last()[i] == bindings[i]);
    }
}

/// Unless some binding already uses the highest group number, the slot
/// push constants become lies in a group of its own, apart from every
/// declared binding.
pub proof fn lemma_push_constants_slot_fresh(bindings: Seq<CustomBindingDesc>, i: int)
    requires
        0 <= i < bindings.len(),
        max_group(bindings) < u32::MAX,
    ensures
        resolved_slot(bindings[i]).group < push_constants_slot_for(bindings).group,
{
    lemma_max_group_bound(bindings, i);
}

} // verus!
