//! The shader compiler's module, as this library reads and rewrites it.
//!
//! A parsed module stays an opaque value of the shader compiler. What the
//! pipeline logic reads of it is named here, over plain values: its global
//! variables, its types, their layouts, the members of its struct types,
//! its entry points and their inputs, and which globals each entry point
//! uses. What parsing, validation, each rewrite and the device language
//! writer give is named too, as a function of their arguments. Every call
//! into the shader compiler goes through one function of this file, whose
//! contract speaks of those names.
use vstd::prelude::*;
use naga::valid::Capabilities;
use naga::back::msl;
use naga::{AddressSpace, ArraySize, ImageClass, ShaderStage, TypeInner};
use crate::shader::{
    BindTargetPlan, ShaderArrayLength, ShaderImageClass, ShaderSpace,
};
use crate::types::CustomBindingSlot;

verus! {

// ---------------------------------------------------------------------------
// The shader compiler's types
// ---------------------------------------------------------------------------

/// A parsed shader module of the shader compiler.
#[verifier::external_type_specification]
#[verifier::external_body]
pub struct ExNagaModule(naga::Module);

/// What the shader compiler's validator found out about a module.
#[verifier::external_type_specification]
#[verifier::external_body]
pub struct ExNagaModuleInfo(naga::valid::ModuleInfo);

/// Options of the shader compiler's device shading language writer.
#[verifier::external_type_specification]
#[verifier::external_body]
pub struct ExNagaMslOptions(naga::back::msl::Options);

// ---------------------------------------------------------------------------
// What a module holds
// ---------------------------------------------------------------------------

/// A global variable of a module.
#[derive(Debug, Clone)]
pub struct ShaderGlobalVar {
    /// Variable name, if it has one.
    pub name: Option<String>,
    /// Address space.
    pub space: ShaderSpace,
    /// Explicit `@group`/`@binding`, if any.
    pub binding: Option<CustomBindingSlot>,
    /// Index of the variable's type in the module's type list.
    pub ty: usize,
}

/// A type of a module, as far as binding checks look.
#[derive(Debug, Clone, Copy, PartialEq, Eq, Structural)]
pub enum ShaderTypeKind {
    /// A binding array of the type at index `base`.
    BindingArray { base: usize, length: ShaderArrayLength },
    Image(ShaderImageClass),
    Sampler,
    Struct,
    Other,
}

/// The kind of a type without its array length or image class.
#[derive(Debug, Clone, Copy, PartialEq, Eq, Structural)]
pub enum ShaderTypeTag {
    BindingArray { base: usize },
    Image,
    Sampler,
    Struct,
    Other,
}

/// A member of a struct type.
#[derive(Debug, Clone)]
pub struct ShaderMember {
    /// Member name, if it has one.
    pub name: Option<String>,
    /// Whether the member has a binding (a location or a built-in).
    pub bound: bool,
    /// The member's input location, when its binding is one.
    pub location: Option<u32>,
}

/// Pipeline stage of an entry point.
#[derive(Debug, Clone, Copy, PartialEq, Eq, Structural)]
pub enum ShaderStageKind {
    Vertex,
    Fragment,
    Compute,
    /// Mesh, task and ray tracing stages.
    Other,
}

/// An entry point of a module.
#[derive(Debug, Clone)]
pub struct ShaderEntryPoint {
    /// Entry point name.
    pub name: String,
    /// Pipeline stage.
    pub stage: ShaderStageKind,
    /// Workgroup size (compute stages).
    pub workgroup_size: [u32; 3],
    /// Which workgroup size components are given by override expressions,
    /// when the entry point has overrides at all.
    pub size_overrides: Option<[bool; 3]>,
}

/// An input argument of an entry point function.
#[derive(Debug, Clone, Copy, PartialEq, Eq, Structural)]
pub struct ShaderEntryInput {
    /// Whether the argument itself has a binding.
    pub bound: bool,
    /// Index of the argument's type in the module's type list.
    pub ty: usize,
}

/// What parsing WGSL text gives: the module, or the parser's message.
pub uninterp spec fn wgsl_parsed(source: Seq<char>) -> Result<naga::Module, String>;

/// Which checks and capabilities a module is validated with. Each field
/// turns one validation flag or capability of the shader compiler on or
/// off; the checks not listed here all run, and no other capability is
/// granted.
#[derive(Debug, Clone, Copy, PartialEq, Eq, Structural)]
pub struct ShaderValidation {
    /// Check resource bindings against the address spaces (`BINDINGS`).
    pub check_bindings: bool,
    /// Push constants (`IMMEDIATES`).
    pub immediates: bool,
    /// Arrays of sampled textures and samplers (`TEXTURE_AND_SAMPLER_BINDING_ARRAY`).
    pub texture_and_sampler_arrays: bool,
    /// Non-uniform indexing of those arrays.
    pub texture_and_sampler_arrays_non_uniform: bool,
    /// Arrays of storage buffers (`STORAGE_BUFFER_BINDING_ARRAY`).
    pub storage_buffer_arrays: bool,
    /// Non-uniform indexing of those arrays.
    pub storage_buffer_arrays_non_uniform: bool,
    /// Arrays of storage textures (`STORAGE_TEXTURE_BINDING_ARRAY`).
    pub storage_texture_arrays: bool,
    /// Non-uniform indexing of those arrays.
    pub storage_texture_arrays_non_uniform: bool,
}

/// What validating a module with `settings` gives: what the validator
/// found out about it, or its message.
pub uninterp spec fn module_validation(module: naga::Module, settings: ShaderValidation) -> Result<
    naga::valid::ModuleInfo,
    String,
>;


/// The global variables a module holds, in declaration order.
pub uninterp spec fn module_globals(module: naga::Module) -> Seq<ShaderGlobalVar>;

/// The types a module holds, in the order of its type list.
pub uninterp spec fn module_types(module: naga::Module) -> Seq<ShaderTypeKind>;

/// Byte size of each type of a module; all `None` when the module's
/// layouts cannot be computed.
pub uninterp spec fn module_layouts(module: naga::Module) -> Seq<Option<u32>>;

/// The members of each type of a module (none for types that are not structs).
pub uninterp spec fn module_members(module: naga::Module) -> Seq<Seq<ShaderMember>>;

/// The entry points a module holds, in order.
pub uninterp spec fn module_entries(module: naga::Module) -> Seq<ShaderEntryPoint>;

/// The input arguments of each entry point of a module.
pub uninterp spec fn module_inputs(module: naga::Module) -> Seq<Seq<ShaderEntryInput>>;

/// For each entry point of a validated module, whether it uses each global.
pub uninterp spec fn module_usage(info: naga::valid::ModuleInfo) -> Seq<Seq<bool>>;

/// The kind of a type without its array length or image class.
pub open spec fn tag_of(kind: ShaderTypeKind) -> ShaderTypeTag {
    match kind {
        ShaderTypeKind::BindingArray { base, .. } => ShaderTypeTag::BindingArray { base },
        ShaderTypeKind::Image(_) => ShaderTypeTag::Image,
        ShaderTypeKind::Sampler => ShaderTypeTag::Sampler,
        ShaderTypeKind::Struct => ShaderTypeTag::Struct,
        ShaderTypeKind::Other => ShaderTypeTag::Other,
    }
}

/// The length of a binding array type.
pub open spec fn length_of(kind: ShaderTypeKind) -> ShaderArrayLength {
    match kind {
        ShaderTypeKind::BindingArray { length, .. } => length,
        _ => ShaderArrayLength::Dynamic,
    }
}

/// Two modules hold the same types, layouts, struct members, entry points
/// and entry inputs.
pub open spec fn same_apart_from_globals(a: naga::Module, b: naga::Module) -> bool {
    &&& module_types(a) == module_types(b)
    &&& module_layouts(a) == module_layouts(b)
    &&& module_members(a) == module_members(b)
    &&& module_entries(a) == module_entries(b)
    &&& module_inputs(a) == module_inputs(b)
}

// ---------------------------------------------------------------------------
// Parsing and validation
// ---------------------------------------------------------------------------

/// Calls `naga::front::wgsl::parse_str`: the module, or the parser's
/// message, as `wgsl_parsed` names them for the text.
#[verifier::external_body]
pub(crate) fn parse_wgsl(source: &str) -> (r: Result<naga::Module, String>)
    ensures
        r == wgsl_parsed(source@),
{
    match naga::front::wgsl::parse_str(source) {
        Ok(module) => Ok(module),
        Err(err) => Err(format!("{err}")),
    }
}

/// Calls `naga::valid::Validator::validate` with the default validation
/// flags, `BINDINGS` set as `settings` says, and exactly the capabilities
/// `settings` turns on. The result (what the validator found, or its
/// message) is `module_validation` of the module and settings. A module
/// that validates has one usage list per entry point, each with one flag per
/// global.
#[verifier::external_body]
pub(crate) fn validate_module(module: &naga::Module, settings: ShaderValidation) -> (r: Result<
    naga::valid::ModuleInfo,
    String,
>)
    ensures
        r == module_validation(*module, settings),
        r matches Ok(info) ==> module_usage(info).len() == module_entries(
            *module,
        ).len() && forall|e: int|
            0 <= e < module_usage(info).len() ==> #[trigger] module_usage(info)[e].len()
                == module_globals(*module).len(),
{
    let mut flags = naga::valid::ValidationFlags::default();
    flags.set(naga::valid::ValidationFlags::BINDINGS, settings.check_bindings);
    let mut caps = Capabilities::empty();
    caps.set(Capabilities::IMMEDIATES, settings.immediates);
    caps.set(Capabilities::TEXTURE_AND_SAMPLER_BINDING_ARRAY, settings.texture_and_sampler_arrays);
    caps.set(Capabilities::TEXTURE_AND_SAMPLER_BINDING_ARRAY_NON_UNIFORM_INDEXING, settings.texture_and_sampler_arrays_non_uniform);
    caps.set(Capabilities::STORAGE_BUFFER_BINDING_ARRAY, settings.storage_buffer_arrays);
    caps.set(Capabilities::STORAGE_BUFFER_BINDING_ARRAY_NON_UNIFORM_INDEXING, settings.storage_buffer_arrays_non_uniform);
    caps.set(Capabilities::STORAGE_TEXTURE_BINDING_ARRAY, settings.storage_texture_arrays);
    caps.set(Capabilities::STORAGE_TEXTURE_BINDING_ARRAY_NON_UNIFORM_INDEXING, settings.storage_texture_arrays_non_uniform);
    match naga::valid::Validator::new(flags, caps).validate(module) {
        Ok(info) => Ok(info),
        Err(err) => Err(format!("{err}")),
    }
}

// ---------------------------------------------------------------------------
// Reading a module
// ---------------------------------------------------------------------------

/// Reads the lengths of `naga::Module::global_variables`, `types` and
/// `entry_points`: the numbers of globals, types and entry points the names
/// hold, with one layout and one member list per type and one input list
/// per entry point.
#[verifier::external_body]
pub(crate) fn module_counts(module: &naga::Module) -> (r: (usize, usize, usize))
    ensures
        r.0 == module_globals(*module).len(),
        r.1 == module_types(*module).len(),
        r.2 == module_entries(*module).len(),
        r.1 == module_members(*module).len(),
        r.1 == module_layouts(*module).len(),
        r.2 == module_inputs(*module).len(),
{
    (module.global_variables.len(), module.types.len(), module.entry_points.len())
}

/// Reads global variable `index` of `naga::Module::global_variables`
/// (through `naga::Arena::iter`): its name, address space, binding and type
/// index, as `module_globals` holds them.
#[verifier::external_body]
pub(crate) fn global_at(module: &naga::Module, index: usize) -> (r: ShaderGlobalVar)
    requires
        index < module_globals(*module).len(),
    ensures
        r == module_globals(*module)[index as int],
{
    let (_, var) = module.global_variables.iter().nth(index).unwrap();
    let space = match var.space {
        AddressSpace::Uniform => ShaderSpace::Uniform,
        AddressSpace::Storage { .. } => ShaderSpace::Storage,
        AddressSpace::Handle => ShaderSpace::Handle,
        AddressSpace::Immediate => ShaderSpace::Immediate,
        _ => ShaderSpace::Other,
    };
    let binding = var.binding.map(|b| CustomBindingSlot { group: b.group, binding: b.binding });
    ShaderGlobalVar { name: var.name.clone(), space, binding, ty: var.ty.index() }
}

/// Reads type `ty` of `naga::Module::types` (through
/// `naga::UniqueArena::iter`): its kind, as `module_types` holds it.
#[verifier::external_body]
pub(crate) fn type_tag(module: &naga::Module, ty: usize) -> (r: ShaderTypeTag)
    requires
        ty < module_types(*module).len(),
    ensures
        r == tag_of(module_types(*module)[ty as int]),
{
    let (_, t) = module.types.iter().nth(ty).unwrap();
    match &t.inner {
        TypeInner::BindingArray { base, .. } => ShaderTypeTag::BindingArray { base: base.index() },
        TypeInner::Image { .. } => ShaderTypeTag::Image,
        TypeInner::Sampler { .. } => ShaderTypeTag::Sampler,
        TypeInner::Struct { .. } => ShaderTypeTag::Struct,
        _ => ShaderTypeTag::Other,
    }
}

/// Reads the `naga::ArraySize` of binding array type `ty` of
/// `naga::Module::types`, as `module_types` holds it.
#[verifier::external_body]
pub(crate) fn array_length(module: &naga::Module, ty: usize) -> (r: ShaderArrayLength)
    requires
        ty < module_types(*module).len(),
        module_types(*module)[ty as int] is BindingArray,
    ensures
        r == length_of(module_types(*module)[ty as int]),
{
    let (_, t) = module.types.iter().nth(ty).unwrap();
    match &t.inner {
        TypeInner::BindingArray { size: ArraySize::Constant(n), .. } => ShaderArrayLength::Constant(n.get()),
        TypeInner::BindingArray { size: ArraySize::Pending(_), .. } => ShaderArrayLength::Pending,
        _ => ShaderArrayLength::Dynamic,
    }
}

/// Reads the `naga::ImageClass` of image type `ty` of
/// `naga::Module::types`, as `module_types` holds it.
#[verifier::external_body]
pub(crate) fn image_class(module: &naga::Module, ty: usize) -> (r: ShaderImageClass)
    requires
        ty < module_types(*module).len(),
        module_types(*module)[ty as int] is Image,
    ensures
        module_types(*module)[ty as int] == ShaderTypeKind::Image(r),
{
    let (_, t) = module.types.iter().nth(ty).unwrap();
    match &t.inner {
        TypeInner::Image { class: ImageClass::Sampled { .. }, .. } => ShaderImageClass::Sampled,
        TypeInner::Image { class: ImageClass::Depth { .. }, .. } => ShaderImageClass::Depth,
        TypeInner::Image { class: ImageClass::Storage { .. }, .. } => ShaderImageClass::Storage,
        _ => ShaderImageClass::External,
    }
}

/// Calls `naga::proc::Layouter::update` on a module and reads the byte
/// size of every type; all `None` when the layouts cannot be computed.
#[verifier::external_body]
pub(crate) fn layout_sizes(module: &naga::Module) -> (r: Vec<Option<u32>>)
    ensures
        r@ == module_layouts(*module),
{
    let mut layouter = naga::proc::Layouter::default();
    match layouter.update(module.to_ctx()) {
        Ok(()) => module.types.iter().map(|(handle, _)| Some(layouter[handle].size)).collect(),
        Err(_) => module.types.iter().map(|_| None).collect(),
    }
}

/// Reads the number of members of struct type `ty` of
/// `naga::Module::types` (0 unless a struct), as `module_members` holds them.
#[verifier::external_body]
pub(crate) fn member_count(module: &naga::Module, ty: usize) -> (r: usize)
    requires
        ty < module_types(*module).len(),
    ensures
        r == module_members(*module)[ty as int].len(),
        !(module_types(*module)[ty as int] is Struct) ==> r == 0,
{
    let (_, t) = module.types.iter().nth(ty).unwrap();
    match &t.inner {
        TypeInner::Struct { members, .. } => members.len(),
        _ => 0,
    }
}

/// Reads member `k` of struct type `ty` of `naga::Module::types`: its name,
/// whether it has a binding and the location it binds, as `module_members`
/// holds it.
#[verifier::external_body]
pub(crate) fn member_at(module: &naga::Module, ty: usize, k: usize) -> (r: ShaderMember)
    requires
        ty < module_types(*module).len(),
        k < module_members(*module)[ty as int].len(),
    ensures
        r == module_members(*module)[ty as int][k as int],
{
    let (_, t) = module.types.iter().nth(ty).unwrap();
    match &t.inner {
        TypeInner::Struct { members, .. } => {
            let location = match members[k].binding {
                Some(naga::Binding::Location { location, .. }) => Some(location),
                _ => None,
            };
            ShaderMember { name: members[k].name.clone(), bound: members[k].binding.is_some(), location }
        },
        _ => ShaderMember { name: None, bound: false, location: None },
    }
}

/// Reads entry point `e` of `naga::Module::entry_points`: its name, stage,
/// workgroup size and overrides as `module_entries` holds them, and its
/// number of arguments as `module_inputs` holds them.
#[verifier::external_body]
pub(crate) fn entry_at(module: &naga::Module, e: usize) -> (r: (ShaderEntryPoint, usize))
    requires
        e < module_entries(*module).len(),
    ensures
        r.0 == module_entries(*module)[e as int],
        r.1 == module_inputs(*module)[e as int].len(),
{
    let ep = &module.entry_points[e];
    let stage = match ep.stage {
        ShaderStage::Vertex => ShaderStageKind::Vertex,
        ShaderStage::Fragment => ShaderStageKind::Fragment,
        ShaderStage::Compute => ShaderStageKind::Compute,
        _ => ShaderStageKind::Other,
    };
    let size_overrides = ep.workgroup_size_overrides.map(|o| [o[0].is_some(), o[1].is_some(), o[2].is_some()]);
    let entry = ShaderEntryPoint { name: ep.name.clone(), stage, workgroup_size: ep.workgroup_size, size_overrides };
    (entry, ep.function.arguments.len())
}

/// Reads argument `a` of the function of entry point `e` of
/// `naga::Module::entry_points`: whether it has a binding and its type
/// index, as `module_inputs` holds them.
#[verifier::external_body]
pub(crate) fn input_at(module: &naga::Module, e: usize, a: usize) -> (r: ShaderEntryInput)
    requires
        e < module_inputs(*module).len(),
        a < module_inputs(*module)[e as int].len(),
    ensures
        r == module_inputs(*module)[e as int][a as int],
{
    let argument = &module.entry_points[e].function.arguments[a];
    ShaderEntryInput { bound: argument.binding.is_some(), ty: argument.ty.index() }
}

/// Calls `naga::valid::ModuleInfo::get_entry_point` and reads the
/// `global_uses` of global `g`: whether entry point `e` uses it, as
/// `module_usage` holds it.
#[verifier::external_body]
pub(crate) fn entry_uses(info: &naga::valid::ModuleInfo, e: usize, g: usize) -> (r: bool)
    requires
        e < module_usage(*info).len(),
        g < module_usage(*info)[e as int].len(),
    ensures
        r == module_usage(*info)[e as int][g as int],
{
    !info.get_entry_point(e).global_uses[g].is_empty()
}

// ---------------------------------------------------------------------------
// Rewriting a module
// ---------------------------------------------------------------------------

/// The module after global `index` gets the binding `slot`.
pub uninterp spec fn with_global_binding(module: naga::Module, index: usize, slot: CustomBindingSlot) -> naga::Module;

/// The module after global `index` moves to address space `space`, loses
/// its binding and is named `name`.
pub uninterp spec fn as_unbound(module: naga::Module, index: usize, space: ShaderSpace, name: Seq<char>) -> naga::Module;

/// The module after global `index` moves to address space `space`.
pub uninterp spec fn in_space(module: naga::Module, index: usize, space: ShaderSpace) -> naga::Module;

/// The module after member `k` of struct type `ty` gets input location
/// `locations[k]` wherever that holds one.
pub uninterp spec fn with_member_locations(module: naga::Module, ty: usize, locations: Seq<Option<u32>>) -> naga::Module;

/// Whether the struct type `ty` with those member locations is already a
/// type of the module.
pub uninterp spec fn located_type_taken(module: naga::Module, ty: usize, locations: Seq<Option<u32>>) -> bool;

/// The shader compiler's address space for the uniform and handle spaces.
pub open spec fn settable_space(space: ShaderSpace) -> bool {
    space == ShaderSpace::Uniform || space == ShaderSpace::Handle
}

/// Sets the `binding` of global `index` of `naga::Module::global_variables`
/// (through `naga::Arena::iter_mut`) to `slot`, giving
/// `with_global_binding`; nothing else the names hold changes.
#[verifier::external_body]
pub(crate) fn bind_global(module: &mut naga::Module, index: usize, slot: CustomBindingSlot)
    requires
        index < module_globals(*old(module)).len(),
    ensures
        *final(module) == with_global_binding(*old(module), index, slot),
        module_globals(*final(module)) == module_globals(*old(module)).update(
            index as int,
            (ShaderGlobalVar { binding: Some(slot), ..module_globals(*old(module))[index as int] }),
        ),
        same_apart_from_globals(*final(module), *old(module)),
{
    let (_, var) = module.global_variables.iter_mut().nth(index).unwrap();
    var.binding = Some(naga::ResourceBinding { group: slot.group, binding: slot.binding });
}

/// Sets global `index` of `naga::Module::global_variables` (through
/// `naga::Arena::iter_mut`) to address space `space` (uniform or handle),
/// without binding, named `name`, giving `as_unbound`; nothing else the
/// names hold changes.
#[verifier::external_body]
pub(crate) fn unbind_global(module: &mut naga::Module, index: usize, space: ShaderSpace, name: String)
    requires
        index < module_globals(*old(module)).len(),
        settable_space(space),
    ensures
        *final(module) == as_unbound(*old(module), index, space, name@),
        module_globals(*final(module)) == module_globals(*old(module)).update(
            index as int,
            (ShaderGlobalVar { name: Some(name), space, binding: None, ty: module_globals(*old(module))[index as int].ty }),
        ),
        same_apart_from_globals(*final(module), *old(module)),
{
    let (_, var) = module.global_variables.iter_mut().nth(index).unwrap();
    var.space = match space {
        ShaderSpace::Uniform => AddressSpace::Uniform,
        _ => AddressSpace::Handle,
    };
    var.binding = None;
    var.name = Some(name);
}

/// Sets the address space of global `index` of
/// `naga::Module::global_variables` (through `naga::Arena::iter_mut`) to
/// `space` (uniform or handle), giving `in_space`; nothing else the names
/// hold changes.
#[verifier::external_body]
pub(crate) fn move_to_space(module: &mut naga::Module, index: usize, space: ShaderSpace)
    requires
        index < module_globals(*old(module)).len(),
        settable_space(space),
    ensures
        *final(module) == in_space(*old(module), index, space),
        module_globals(*final(module)) == module_globals(*old(module)).update(
            index as int,
            (ShaderGlobalVar { space, ..module_globals(*old(module))[index as int] }),
        ),
        same_apart_from_globals(*final(module), *old(module)),
{
    let (_, var) = module.global_variables.iter_mut().nth(index).unwrap();
    var.space = match space {
        ShaderSpace::Uniform => AddressSpace::Uniform,
        _ => AddressSpace::Handle,
    };
}

/// The members of a struct after member `k` gets input location
/// `locations[k]` wherever that holds one.
pub open spec fn located_members(members: Seq<ShaderMember>, locations: Seq<Option<u32>>) -> Seq<ShaderMember> {
    Seq::new(
        members.len(),
        |k: int|
            if k < locations.len() && locations[k] is Some {
                ShaderMember { name: members[k].name, bound: true, location: locations[k] }
            } else {
                members[k]
            },
    )
}

/// Builds struct type `ty` of `naga::Module::types` with member `k` bound
/// to input location `locations[k]` wherever that holds one, and calls
/// `naga::UniqueArena::get` on it: whether that type is already in the
/// module (`located_type_taken`).
#[verifier::external_body]
pub(crate) fn located_type_exists(module: &naga::Module, ty: usize, locations: &Vec<Option<u32>>) -> (r: bool)
    requires
        ty < module_types(*module).len(),
        module_types(*module)[ty as int] is Struct,
    ensures
        r == located_type_taken(*module, ty, locations@),
{
    let (_, t) = module.types.iter().nth(ty).unwrap();
    let mut located = t.clone();
    if let TypeInner::Struct { members, .. } = &mut located.inner {
        for (member, location) in members.iter_mut().zip(locations.iter()) {
            if let Some(location) = *location {
                member.binding = Some(naga::Binding::Location { location, interpolation: None, sampling: None, blend_src: None, per_primitive: false });
            }
        }
    }
    module.types.get(&located).is_some()
}

/// Builds the same located struct type and calls `naga::UniqueArena::replace`
/// to put it in the place of type `ty` (which keeps its index). That call
/// panics when the located type is already in the module, which the
/// requirement rules out. The module becomes `with_member_locations`, whose
/// members are the located ones.
#[verifier::external_body]
pub(crate) fn bind_members(module: &mut naga::Module, ty: usize, locations: &Vec<Option<u32>>)
    requires
        ty < module_types(*old(module)).len(),
        module_types(*old(module))[ty as int] is Struct,
        !located_type_taken(*old(module), ty, locations@),
    ensures
        *final(module) == with_member_locations(*old(module), ty, locations@),
        module_members(*final(module)) == module_members(*old(module)).update(
            ty as int,
            located_members(module_members(*old(module))[ty as int], locations@),
        ),
        module_globals(*final(module)) == module_globals(*old(module)),
        module_types(*final(module)) == module_types(*old(module)),
        module_layouts(*final(module)) == module_layouts(*old(module)),
        module_entries(*final(module)) == module_entries(*old(module)),
        module_inputs(*final(module)) == module_inputs(*old(module)),
{
    let (handle, t) = module.types.iter().nth(ty).unwrap();
    let mut located = t.clone();
    if let TypeInner::Struct { members, .. } = &mut located.inner {
        for (member, location) in members.iter_mut().zip(locations.iter()) {
            if let Some(location) = *location {
                member.binding = Some(naga::Binding::Location { location, interpolation: None, sampling: None, blend_src: None, per_primitive: false });
            }
        }
    }
    module.types.replace(handle, located);
}

// ---------------------------------------------------------------------------
// Writing device shading language
// ---------------------------------------------------------------------------

/// How the device language writer treats what the module leaves open.
#[derive(Debug, Clone, Copy, PartialEq, Eq, Structural)]
pub struct MslWriterSettings {
    /// Make up bindings for resources the options do not map.
    pub fake_missing_bindings: bool,
    /// Zero workgroup memory at the start of compute functions.
    pub zero_initialize_workgroup_memory: bool,
    /// Bound every loop so that none can run forever.
    pub force_loop_bounding: bool,
}

/// The writer options built from these arguments.
pub uninterp spec fn msl_options_for(
    lang: (u8, u8),
    entries: Seq<String>,
    targets: Seq<(CustomBindingSlot, BindTargetPlan)>,
    settings: MslWriterSettings,
) -> naga::back::msl::Options;

/// What writing a module as device shading language gives: the source and,
/// per entry point, its device function name or why it could not be
/// written; or the writer's message.
pub uninterp spec fn msl_written(
    module: naga::Module,
    info: naga::valid::ModuleInfo,
    options: naga::back::msl::Options,
    point_size: bool,
) -> Result<(String, Seq<Result<String, String>>), String>;

/// The writer's result with its name list as a sequence.
pub open spec fn written_view(r: Result<(String, Vec<Result<String, String>>), String>) -> Result<
    (String, Seq<Result<String, String>>),
    String,
> {
    match r {
        Ok((source, names)) => Ok((source, names@)),
        Err(message) => Err(message),
    }
}

/// Builds `naga::back::msl::Options` from the defaults: language version
/// `lang`, the writer settings `settings`, and for each entry point named
/// in `entries` the bind targets `targets`, inserted in order. The options
/// are `msl_options_for` of these arguments.
#[verifier::external_body]
pub(crate) fn msl_options(
    lang: (u8, u8),
    entries: &Vec<String>,
    targets: &Vec<(CustomBindingSlot, BindTargetPlan)>,
    settings: MslWriterSettings,
) -> (r: naga::back::msl::Options)
    ensures
        r == msl_options_for(lang, entries@, targets@, settings),
{
    let mut resources = msl::EntryPointResources::default();
    for (slot, t) in targets.iter() {
        let sampler = t.sampler.map(msl::BindSamplerTarget::Resource);
        let target = msl::BindTarget { buffer: t.buffer, texture: t.texture, sampler, mutable: t.mutable, ..Default::default() };
        resources.resources.insert(naga::ResourceBinding { group: slot.group, binding: slot.binding }, target);
    }
    let mut options = msl::Options { lang_version: lang, ..Default::default() };
    options.fake_missing_bindings = settings.fake_missing_bindings;
    options.zero_initialize_workgroup_memory = settings.zero_initialize_workgroup_memory;
    options.force_loop_bounding = settings.force_loop_bounding;
    for name in entries.iter() {
        options.per_entry_point_map.insert(name.clone(), resources.clone());
    }
    options
}

/// Calls `naga::back::msl::write_string` for all entry points, forcing the
/// point size when `point_size` holds. The result is `msl_written` of the
/// arguments: the source and, per entry point of the module in order, the
/// name of its device function or why it could not be written; or the
/// writer's message. The writer is meant for a module together with what
/// the validator found about that same module (as naga's own example
/// shows), so `info` must be the result of validating `module`; then it
/// refuses what it cannot write with an error. The validation settings of
/// this library grant no ray-tracing or mesh-shading capability, whose
/// stages and address spaces the writer does not implement.
#[verifier::external_body]
pub(crate) fn write_msl(
    module: &naga::Module,
    info: &naga::valid::ModuleInfo,
    options: &naga::back::msl::Options,
    point_size: bool,
) -> (r: Result<(String, Vec<Result<String, String>>), String>)
    requires
        exists|settings: ShaderValidation| module_validation(*module, settings) == Ok::<
            naga::valid::ModuleInfo,
            String,
        >(*info),
    ensures
        written_view(r) == msl_written(*module, *info, *options, point_size),
        r matches Ok(out) ==> out.1@.len() == module_entries(*module).len(),
{
    let pipeline = msl::PipelineOptions { allow_and_force_point_size: point_size, ..Default::default() };
    match msl::write_string(module, info, options, &pipeline) {
        Ok((source, written)) => {
            let names = written.entry_point_names.into_iter().map(|n| n.map_err(|err| format!("{err}")));
            Ok((source, names.collect()))
        },
        Err(err) => Err(format!("{err}")),
    }
}

} // verus!
