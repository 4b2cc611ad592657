//! Rewriting a parsed shader module for a pipeline: reading its globals,
//! turning its push constants block into a uniform, binding its resource
//! variables, assigning vertex input locations, and writing it out as
//! device shading language.
use vstd::prelude::*;
use crate::error::CustomDrawError;
use crate::naga_module::{
    ShaderEntryPoint, ShaderGlobalVar, ShaderMember, ShaderStageKind, ShaderTypeKind, ShaderTypeTag,
    array_length, bind_global, entry_at, entry_uses, global_at, image_class, layout_sizes, unbind_global,
    module_counts, module_entries, module_globals, module_layouts, module_types, module_usage,
    move_to_space, same_apart_from_globals, type_tag, as_unbound, with_global_binding, in_space,
    with_member_locations, located_type_taken, located_type_exists,
};
use crate::shader::{
    BindingMapsView, CustomBindingMaps, PushConstantsPlan, ShaderElementShape, ShaderGlobal, ShaderSpace, ShaderTypeShape,
    lemma_used_blocks_below, plan_push_constants, plan_resource_bindings, push_constants_outcome, resource_binding_plan, str_eq,
    is_resource_space, resource_binding_step,
};
use crate::locations::CustomAttributeLocations;
use crate::naga_module::{bind_members, input_at, located_members, member_at, member_count, module_inputs, module_members, ShaderEntryInput};
use crate::types::{
    CustomBindingSlot, CustomPushConstantsDesc, CustomVertexAttributeName, attribute_field_name, attribute_slot,
};

verus! {

// ---------------------------------------------------------------------------
// Reading the globals
// ---------------------------------------------------------------------------

/// The element shape of a binding array whose element type is `base`.
pub open spec fn element_shape_of(types: Seq<ShaderTypeKind>, base: usize) -> ShaderElementShape {
    if base < types.len() {
        match types[base as int] {
            ShaderTypeKind::Image(class) => ShaderElementShape::Image(class),
            _ => ShaderElementShape::Other,
        }
    } else {
        ShaderElementShape::Other
    }
}

/// The shape of type `ty` (`Other` for an index outside the type list).
pub open spec fn shape_of(types: Seq<ShaderTypeKind>, ty: usize) -> ShaderTypeShape {
    if ty < types.len() {
        match types[ty as int] {
            ShaderTypeKind::BindingArray { base, length } => ShaderTypeShape::BindingArray {
                element: element_shape_of(types, base),
                length,
            },
            ShaderTypeKind::Image(class) => ShaderTypeShape::Image(class),
            ShaderTypeKind::Sampler => ShaderTypeShape::Sampler,
            _ => ShaderTypeShape::Other,
        }
    } else {
        ShaderTypeShape::Other
    }
}

/// What binding checks read of a global variable.
pub open spec fn global_view(
    var: ShaderGlobalVar,
    types: Seq<ShaderTypeKind>,
    layouts: Seq<Option<u32>>,
) -> ShaderGlobal {
    ShaderGlobal {
        name: var.name,
        space: var.space,
        binding: var.binding,
        shape: shape_of(types, var.ty),
        layout_size: if var.ty < layouts.len() {
            layouts[var.ty as int]
        } else {
            None
        },
    }
}

/// What binding checks read of the global variables of a module.
pub open spec fn shader_globals(module: naga::Module) -> Seq<ShaderGlobal> {
    module_globals(module).map_values(
        |var: ShaderGlobalVar| global_view(var, module_types(module), module_layouts(module)),
    )
}

fn type_shape(module: &naga::Module, type_count: usize, ty: usize) -> (r: ShaderTypeShape)
    requires
        type_count == module_types(*module).len(),
    ensures
        r == shape_of(module_types(*module), ty),
{
    if ty >= type_count {
        return ShaderTypeShape::Other;
    }
    match type_tag(module, ty) {
        ShaderTypeTag::BindingArray { base } => {
            let length = array_length(module, ty);
            let element = if base < type_count {
                match type_tag(module, base) {
                    ShaderTypeTag::Image => ShaderElementShape::Image(image_class(module, base)),
                    _ => ShaderElementShape::Other,
                }
            } else {
                ShaderElementShape::Other
            };
            ShaderTypeShape::BindingArray { element, length }
        },
        ShaderTypeTag::Image => ShaderTypeShape::Image(image_class(module, ty)),
        ShaderTypeTag::Sampler => ShaderTypeShape::Sampler,
        _ => ShaderTypeShape::Other,
    }
}

/// Reads what binding checks need of every global variable of a module.
pub fn read_shader_globals(module: &naga::Module) -> (r: Vec<ShaderGlobal>)
    ensures
        r@ == shader_globals(*module),
{
    let (global_count, type_count, _) = module_counts(module);
    let layouts = layout_sizes(module);
    let ghost types = module_types(*module);
    let mut globals: Vec<ShaderGlobal> = Vec::new();
    let mut i: usize = 0;
    while i < global_count
        invariant
            i <= global_count,
            global_count == module_globals(*module).len(),
            type_count == types.len(),
            types == module_types(*module),
            layouts@ == module_layouts(*module),
            layouts@.len() == type_count,
            globals@.len() == i,
            forall|k: int| 0 <= k < i ==> #[trigger] globals@[k] == shader_globals(*module)[k],
        decreases global_count - i,
    {
        let var = global_at(module, i);
        let shape = type_shape(module, type_count, var.ty);
        let layout_size = if var.ty < layouts.len() {
            layouts[var.ty]
        } else {
            None
        };
        globals.push(ShaderGlobal { name: var.name, space: var.space, binding: var.binding, shape, layout_size });
        i += 1;
    }
    proof {
        assert(globals@ =~= shader_globals(*module));
    }
    globals
}

// ---------------------------------------------------------------------------
// Which globals entry points use
// ---------------------------------------------------------------------------

/// Whether any of the entry points `entries` uses global `g`.
pub open spec fn used_by_any(usage: Seq<Seq<bool>>, entries: Seq<usize>, g: int) -> bool {
    exists|k: int| 0 <= k < entries.len() && #[trigger] usage[entries[k] as int][g]
}

/// For each of `n` globals, whether any of the entry points uses it.
pub open spec fn usage_flags(usage: Seq<Seq<bool>>, entries: Seq<usize>, n: nat) -> Seq<bool> {
    Seq::new(n, |g: int| used_by_any(usage, entries, g))
}

/// Every usage list of a validated module covers `n` globals.
pub open spec fn usage_covers(usage: Seq<Seq<bool>>, n: nat) -> bool {
    forall|e: int| 0 <= e < usage.len() ==> #[trigger] usage[e].len() == n
}

/// Which of `global_count` globals any of the entry points `entries` uses.
fn globals_used_by(info: &naga::valid::ModuleInfo, entries: &[usize], global_count: usize) -> (r: Vec<bool>)
    requires
        forall|k: int| 0 <= k < entries@.len() ==> #[trigger] entries@[k] < module_usage(*info).len(),
        usage_covers(module_usage(*info), global_count as nat),
    ensures
        r@ == usage_flags(module_usage(*info), entries@, global_count as nat),
{
    let ghost usage = module_usage(*info);
    let mut flags: Vec<bool> = Vec::new();
    let mut g: usize = 0;
    while g < global_count
        invariant
            g <= global_count,
            usage == module_usage(*info),
            forall|k: int| 0 <= k < entries@.len() ==> #[trigger] entries@[k] < usage.len(),
            usage_covers(usage, global_count as nat),
            flags@.len() == g,
            forall|h: int| 0 <= h < g ==> #[trigger] flags@[h] == used_by_any(usage, entries@, h),
        decreases global_count - g,
    {
        let mut any = false;
        let mut k: usize = 0;
        while k < entries.len()
            invariant
                k <= entries@.len(),
                g < global_count,
                usage == module_usage(*info),
                forall|j: int| 0 <= j < entries@.len() ==> #[trigger] entries@[j] < usage.len(),
                usage_covers(usage, global_count as nat),
                any == exists|j: int| 0 <= j < k && #[trigger] usage[entries@[j] as int][g as int],
            decreases entries@.len() - k,
        {
            let e = entries[k];
            assert(usage[e as int].len() == global_count);
            let uses = entry_uses(info, e, g);
            any = any || uses;
            k += 1;
        }
        flags.push(any);
        g += 1;
    }
    proof {
        assert(flags@ =~= usage_flags(usage, entries@, global_count as nat));
    }
    flags
}

/// Which of `global_count` globals entry point `e` uses.
pub fn globals_used_by_entry(info: &naga::valid::ModuleInfo, e: usize, global_count: usize) -> (r: Vec<bool>)
    requires
        e < module_usage(*info).len(),
        module_usage(*info)[e as int].len() == global_count,
    ensures
        r@ == module_usage(*info)[e as int],
{
    let mut flags: Vec<bool> = Vec::new();
    let mut g: usize = 0;
    while g < global_count
        invariant
            g <= global_count,
            e < module_usage(*info).len(),
            module_usage(*info)[e as int].len() == global_count,
            flags@ == module_usage(*info)[e as int].take(g as int),
        decreases global_count - g,
    {
        let uses = entry_uses(info, e, g);
        flags.push(uses);
        g += 1;
        assert(flags@ =~= module_usage(*info)[e as int].take(g as int));
    }
    assert(module_usage(*info)[e as int].take(global_count as int) =~= module_usage(*info)[e as int]);
    flags
}

// ---------------------------------------------------------------------------
// Push constants
// ---------------------------------------------------------------------------

/// Turns the push constants block the entry points `entry_indices` use
/// into a uniform at `slot`: at most one used block; a block exactly when
/// push constants are declared, of the declared size. The block loses its
/// binding, becomes a uniform, and is named `push_constants` when it had
/// no name. On an error the module is unchanged.
pub fn apply_push_constants(
    module: &mut naga::Module,
    info: &naga::valid::ModuleInfo,
    entry_indices: &[usize],
    push_constants: Option<CustomPushConstantsDesc>,
    slot: CustomBindingSlot,
) -> (r: Result<Option<PushConstantsPlan>, CustomDrawError>)
    requires
        forall|k: int| 0 <= k < entry_indices@.len() ==> #[trigger] entry_indices@[k] < module_usage(*info).len(),
        usage_covers(module_usage(*info), module_globals(*old(module)).len()),
    ensures
        match push_constants_outcome(
            shader_globals(*old(module)),
            usage_flags(module_usage(*info), entry_indices@, module_globals(*old(module)).len()),
            push_constants,
        ) {
            Err(e) => r == Err::<Option<PushConstantsPlan>, CustomDrawError>(e) && *final(module) == *old(module),
            Ok(None) => r == Ok::<Option<PushConstantsPlan>, CustomDrawError>(None) && *final(module) == *old(
                module,
            ),
            Ok(Some(i)) => r matches Ok(Some(plan)) && plan.global == i && plan.slot == slot && plan.size
                == push_constants.unwrap().size && plan.name@ == (match module_globals(*old(module))[i].name {
                Some(n) => n@,
                None => "push_constants"@,
            }) && module_globals(*final(module)) == module_globals(*old(module)).update(
                i,
                (ShaderGlobalVar {
                    name: Some(plan.name),
                    space: ShaderSpace::Uniform,
                    binding: None,
                    ty: module_globals(*old(module))[i].ty,
                }),
            ) && same_apart_from_globals(*final(module), *old(module)) && *final(module) == as_unbound(
                *old(module),
                plan.global,
                ShaderSpace::Uniform,
                plan.name@,
            ),
        },
        module_globals(*final(module)).len() == module_globals(*old(module)).len(),
        same_apart_from_globals(*final(module), *old(module)),
{
    let globals = read_shader_globals(module);
    let used = globals_used_by(info, entry_indices, globals.len());
    let planned = plan_push_constants(&globals, &used, push_constants, slot);
    proof {
        lemma_used_blocks_below(globals@, used@, globals@.len() as int);
    }
    match planned {
        Ok(Some(plan)) => {
            let name = plan.name.clone();
            unbind_global(module, plan.global, ShaderSpace::Uniform, name);
            proof {
                assert(name == plan.name);
            }
            Ok(Some(plan))
        },
        other => other,
    }
}

// ---------------------------------------------------------------------------
// Resource bindings
// ---------------------------------------------------------------------------

/// The globals after giving each variable listed in `updates` its slot, in order.
pub open spec fn with_bindings(
    globals: Seq<ShaderGlobalVar>,
    updates: Seq<(usize, CustomBindingSlot)>,
) -> Seq<ShaderGlobalVar>
    decreases updates.len(),
{
    if updates.len() == 0 {
        globals
    } else {
        let earlier = with_bindings(globals, updates.drop_last());
        let (index, slot) = updates.last();
        if index < earlier.len() {
            earlier.update(index as int, (ShaderGlobalVar { binding: Some(slot), ..earlier[index as int] }))
        } else {
            earlier
        }
    }
}

/// The module after giving each variable listed in `updates` its slot, in order.
pub open spec fn rebound(module: naga::Module, updates: Seq<(usize, CustomBindingSlot)>) -> naga::Module
    decreases updates.len(),
{
    if updates.len() == 0 {
        module
    } else {
        let earlier = rebound(module, updates.drop_last());
        let (index, slot) = updates.last();
        if index < module_globals(earlier).len() {
            with_global_binding(earlier, index, slot)
        } else {
            earlier
        }
    }
}

proof fn lemma_with_bindings_len(globals: Seq<ShaderGlobalVar>, updates: Seq<(usize, CustomBindingSlot)>)
    ensures
        with_bindings(globals, updates).len() == globals.len(),
    decreases updates.len(),
{
    if updates.len() > 0 {
        lemma_with_bindings_len(globals, updates.drop_last());
    }
}

/// Binds the resource variables entry point `entry_point_index` uses to
/// the declared bindings, checking their kinds, and gives the variables
/// without an explicit slot the slot of their binding. On an error the
/// module is unchanged.
pub fn assign_resource_bindings(
    module: &mut naga::Module,
    info: &naga::valid::ModuleInfo,
    entry_point_name: &String,
    entry_point_index: usize,
    maps: &CustomBindingMaps,
) -> (r: Result<(), CustomDrawError>)
    requires
        entry_point_index < module_usage(*info).len(),
        module_usage(*info)[entry_point_index as int].len() == module_globals(*old(module)).len(),
    ensures
        match resource_binding_plan(
            shader_globals(*old(module)),
            module_usage(*info)[entry_point_index as int],
            *entry_point_name,
            maps@,
        ) {
            Err(e) => r == Err::<(), CustomDrawError>(e) && *final(module) == *old(module),
            Ok(updates) => r is Ok && module_globals(*final(module)) == with_bindings(
                module_globals(*old(module)),
                updates,
            ) && same_apart_from_globals(*final(module), *old(module)) && *final(module) == rebound(
                *old(module),
                updates,
            ),
        },
        module_globals(*final(module)).len() == module_globals(*old(module)).len(),
        same_apart_from_globals(*final(module), *old(module)),
{
    let ghost start = *module;
    let globals = read_shader_globals(module);
    let used = globals_used_by_entry(info, entry_point_index, globals.len());
    let updates = match plan_resource_bindings(&globals, &used, entry_point_name, maps) {
        Ok(updates) => updates,
        Err(e) => return Err(e),
    };
    let global_count = globals.len();
    let mut k: usize = 0;
    while k < updates.len()
        invariant
            k <= updates@.len(),
            global_count == module_globals(start).len(),
            module_globals(*module) == with_bindings(module_globals(start), updates@.take(k as int)),
            same_apart_from_globals(*module, start),
            *module == rebound(start, updates@.take(k as int)),
        decreases updates@.len() - k,
    {
        proof {
            assert(updates@.take(k + 1).drop_last() =~= updates@.take(k as int));
            lemma_with_bindings_len(module_globals(start), updates@.take(k as int));
        }
        let (index, slot) = updates[k];
        if index < global_count {
            bind_global(module, index, slot);
        }
        k += 1;
    }
    proof {
        assert(updates@.take(updates@.len() as int) =~= updates@);
        lemma_with_bindings_len(module_globals(start), updates@);
    }
    Ok(())
}

/// A variable that has a binding, or that an update names, has one after
/// the updates.
proof fn lemma_with_bindings_keeps_bound(
    globals: Seq<ShaderGlobalVar>,
    updates: Seq<(usize, CustomBindingSlot)>,
    i: int,
)
    requires
        0 <= i < globals.len(),
        globals[i].binding is Some || exists|k: int| 0 <= k < updates.len() && (#[trigger] updates[k]).0 == i,
    ensures
        with_bindings(globals, updates)[i].binding is Some,
    decreases updates.len(),
{
    lemma_with_bindings_len(globals, updates);
    if updates.len() > 0 {
        let earlier = updates.drop_last();
        lemma_with_bindings_len(globals, earlier);
        if updates.last().0 != i {
            if !(globals[i].binding is Some) {
                let k = choose|k: int| 0 <= k < updates.len() && (#[trigger] updates[k]).0 == i;
                assert(k < earlier.len());
                assert(earlier[k] == updates[k]);
            }
            lemma_with_bindings_keeps_bound(globals, earlier, i);
        }
    }
}

/// A used resource variable without a binding gets an update from the plan.
proof fn lemma_plan_updates_unbound(
    globals: Seq<ShaderGlobal>,
    used: Seq<bool>,
    entry: String,
    maps: BindingMapsView,
    i: int,
)
    requires
        resource_binding_plan(globals, used, entry, maps) is Ok,
        0 <= i < globals.len(),
        globals.len() <= usize::MAX,
        used[i],
        is_resource_space(globals[i].space),
        globals[i].binding is None,
    ensures
        exists|k: int|
            0 <= k < resource_binding_plan(globals, used, entry, maps).unwrap().len() && (#[trigger] resource_binding_plan(
                globals,
                used,
                entry,
                maps,
            ).unwrap()[k]).0 == i,
    decreases globals.len(),
{
    let updates = resource_binding_plan(globals, used, entry, maps).unwrap();
    let earlier = resource_binding_plan(globals.drop_last(), used, entry, maps);
    if i == globals.len() - 1 {
        assert(globals.last() == globals[i]);
        let step = resource_binding_step(globals.last(), used[globals.len() - 1], entry, maps);
        assert(earlier is Ok);
        assert(step is Ok);
        assert(step matches Ok(Some(_)));
        let slot = step.unwrap().unwrap();
        assert(updates == earlier.unwrap().push(((globals.len() - 1) as usize, slot)));
        assert(updates[updates.len() - 1].0 == i);
    } else {
        assert(globals.drop_last()[i] == globals[i]);
        lemma_plan_updates_unbound(globals.drop_last(), used, entry, maps, i);
        let prev = earlier.unwrap();
        let k = choose|k: int| 0 <= k < prev.len() && (#[trigger] prev[k]).0 == i;
        assert(updates[k] == prev[k]);
    }
}

/// Once the resource variables an entry point uses are bound, every one
/// of them has a group and binding.
pub proof fn lemma_used_resources_bound(
    module: naga::Module,
    used: Seq<bool>,
    entry: String,
    maps: BindingMapsView,
    i: int,
)
    requires
        resource_binding_plan(shader_globals(module), used, entry, maps) is Ok,
        0 <= i < module_globals(module).len(),
        module_globals(module).len() <= usize::MAX,
        used[i],
        is_resource_space(module_globals(module)[i].space),
    ensures
        with_bindings(
            module_globals(module),
            resource_binding_plan(shader_globals(module), used, entry, maps).unwrap(),
        )[i].binding is Some,
{
    let updates = resource_binding_plan(shader_globals(module), used, entry, maps).unwrap();
    if module_globals(module)[i].binding is None {
        lemma_plan_updates_unbound(shader_globals(module), used, entry, maps, i);
    }
    lemma_with_bindings_keeps_bound(module_globals(module), updates, i);
}

// ---------------------------------------------------------------------------
// Binding arrays and entry points
// ---------------------------------------------------------------------------

/// The globals after moving every binding-array variable to the handle space.
pub open spec fn normalized_globals(globals: Seq<ShaderGlobalVar>, types: Seq<ShaderTypeKind>) -> Seq<
    ShaderGlobalVar,
> {
    globals.map_values(
        |var: ShaderGlobalVar|
            if var.ty < types.len() && types[var.ty as int] is BindingArray {
                ShaderGlobalVar { space: ShaderSpace::Handle, ..var }
            } else {
                var
            },
    )
}

/// The module after moving the binding-array variables among its first
/// `n` globals to the handle space, in order.
pub open spec fn handle_spaces(module: naga::Module, n: int) -> naga::Module
    decreases n,
{
    if n <= 0 {
        module
    } else {
        let earlier = handle_spaces(module, n - 1);
        let var = module_globals(module)[n - 1];
        if var.ty < module_types(module).len() && module_types(module)[var.ty as int] is BindingArray {
            in_space(earlier, (n - 1) as usize, ShaderSpace::Handle)
        } else {
            earlier
        }
    }
}

/// The module after moving every binding-array variable to the handle space.
pub open spec fn normalized_module(module: naga::Module) -> naga::Module {
    handle_spaces(module, module_globals(module).len() as int)
}

/// Moves every binding-array variable of a module to the handle space.
pub fn normalize_binding_array_address_space(module: &mut naga::Module)
    ensures
        module_globals(*final(module)) == normalized_globals(module_globals(*old(module)), module_types(*old(module))),
        same_apart_from_globals(*final(module), *old(module)),
        *final(module) == normalized_module(*old(module)),
{
    let ghost start = *module;
    let (global_count, type_count, _) = module_counts(module);
    let mut i: usize = 0;
    while i < global_count
        invariant
            i <= global_count,
            global_count == module_globals(start).len(),
            type_count == module_types(start).len(),
            same_apart_from_globals(*module, start),
            module_globals(*module).len() == global_count,
            forall|k: int|
                0 <= k < i ==> #[trigger] module_globals(*module)[k] == normalized_globals(
                    module_globals(start),
                    module_types(start),
                )[k],
            forall|k: int| i <= k < global_count ==> #[trigger] module_globals(*module)[k] == module_globals(start)[k],
            *module == handle_spaces(start, i as int),
        decreases global_count - i,
    {
        let var = global_at(module, i);
        if var.ty < type_count {
            match type_tag(module, var.ty) {
                ShaderTypeTag::BindingArray { .. } => {
                    move_to_space(module, i, ShaderSpace::Handle);
                },
                _ => {},
            }
        }
        i += 1;
    }
    proof {
        assert(module_globals(*module) =~= normalized_globals(module_globals(start), module_types(start)));
    }
}

/// The first of the entry points from index `k` on whose name is `name`.
pub open spec fn entry_named_from(entries: Seq<ShaderEntryPoint>, name: Seq<char>, k: int) -> Option<usize>
    decreases entries.len() - k,
{
    if k < 0 || k >= entries.len() {
        None
    } else if entries[k].name@ == name {
        Some(k as usize)
    } else {
        entry_named_from(entries, name, k + 1)
    }
}

/// The index of the first entry point of a module named `name`.
pub fn find_entry_point(module: &naga::Module, name: &str) -> (r: Option<usize>)
    ensures
        r == entry_named_from(module_entries(*module), name@, 0),
        match r {
            Some(i) => i < module_entries(*module).len() && module_entries(*module)[i as int].name@ == name@
                && forall|j: int| 0 <= j < i ==> #[trigger] module_entries(*module)[j].name@ != name@,
            None => forall|j: int|
                0 <= j < module_entries(*module).len() ==> #[trigger] module_entries(*module)[j].name@ != name@,
        },
{
    let (_, _, entry_count) = module_counts(module);
    let mut i: usize = 0;
    while i < entry_count
        invariant
            i <= entry_count,
            entry_count == module_entries(*module).len(),
            forall|j: int| 0 <= j < i ==> #[trigger] module_entries(*module)[j].name@ != name@,
            entry_named_from(module_entries(*module), name@, 0) == entry_named_from(module_entries(*module), name@, i as int),
        decreases entry_count - i,
    {
        let (entry, _) = entry_at(module, i);
        if str_eq(entry.name.as_str(), name) {
            return Some(i);
        }
        i += 1;
    }
    None
}

// ---------------------------------------------------------------------------
// Vertex input locations
// ---------------------------------------------------------------------------

/// The input location of the attribute whose field name is `name`.
pub open spec fn location_named(locations: Seq<Option<u32>>, name: Seq<char>) -> Option<u32> {
    if name == attribute_field_name(CustomVertexAttributeName::A0) {
        locations[attribute_slot(CustomVertexAttributeName::A0) as int]
    } else if name == attribute_field_name(CustomVertexAttributeName::A1) {
        locations[attribute_slot(CustomVertexAttributeName::A1) as int]
    } else if name == attribute_field_name(CustomVertexAttributeName::A2) {
        locations[attribute_slot(CustomVertexAttributeName::A2) as int]
    } else if name == attribute_field_name(CustomVertexAttributeName::A3) {
        locations[attribute_slot(CustomVertexAttributeName::A3) as int]
    } else if name == attribute_field_name(CustomVertexAttributeName::A4) {
        locations[attribute_slot(CustomVertexAttributeName::A4) as int]
    } else if name == attribute_field_name(CustomVertexAttributeName::A5) {
        locations[attribute_slot(CustomVertexAttributeName::A5) as int]
    } else if name == attribute_field_name(CustomVertexAttributeName::A6) {
        locations[attribute_slot(CustomVertexAttributeName::A6) as int]
    } else if name == attribute_field_name(CustomVertexAttributeName::A7) {
        locations[attribute_slot(CustomVertexAttributeName::A7) as int]
    } else {
        None
    }
}

/// Looks up the input location of the attribute whose field name is `name`.
pub fn location_for_name(locations: &CustomAttributeLocations, name: &str) -> (r: Option<u32>)
    requires
        locations@.len() == 8,
    ensures
        r == location_named(locations@, name@),
{
    let names = [
        CustomVertexAttributeName::A0,
        CustomVertexAttributeName::A1,
        CustomVertexAttributeName::A2,
        CustomVertexAttributeName::A3,
        CustomVertexAttributeName::A4,
        CustomVertexAttributeName::A5,
        CustomVertexAttributeName::A6,
        CustomVertexAttributeName::A7,
    ];
    let mut i: usize = 0;
    while i < 8
        invariant
            i <= 8,
            locations@.len() == 8,
            names@ == seq![
                CustomVertexAttributeName::A0,
                CustomVertexAttributeName::A1,
                CustomVertexAttributeName::A2,
                CustomVertexAttributeName::A3,
                CustomVertexAttributeName::A4,
                CustomVertexAttributeName::A5,
                CustomVertexAttributeName::A6,
                CustomVertexAttributeName::A7,
            ],
            forall|j: int| 0 <= j < i ==> name@ != #[trigger] attribute_field_name(names@[j]),
        decreases 8 - i,
    {
        let candidate = names[i];
        if str_eq(name, candidate.as_str()) {
            return locations.get(candidate);
        }
        i += 1;
    }
    None
}

/// Where an unbound member of the vertex entry's input struct goes: it
/// needs a name, and the layout must give that attribute a location.
pub open spec fn target_member_location(member: ShaderMember, locations: Seq<Option<u32>>) -> Result<
    Option<u32>,
    CustomDrawError,
> {
    if member.bound {
        Ok(None)
    } else {
        match member.name {
            None => Err(CustomDrawError::VertexInputMemberUnnamed),
            Some(n) => match location_named(locations, n@) {
                None => Err(CustomDrawError::VertexInputNotInLayout { name: n }),
                Some(l) => Ok(Some(l)),
            },
        }
    }
}

/// The number of unbound members among the first `k`.
pub open spec fn unbound_count(members: Seq<ShaderMember>, k: int) -> nat
    decreases k,
{
    if k <= 0 {
        0
    } else {
        unbound_count(members, k - 1) + if members[k - 1].bound {
            0nat
        } else {
            1nat
        }
    }
}

/// New locations of the first `k` members of a vertex input struct (`None`
/// for members that keep their binding): from the layout for the vertex
/// entry's input, else numbered from 0 in member order.
pub open spec fn member_locations(
    members: Seq<ShaderMember>,
    target: bool,
    locations: Seq<Option<u32>>,
    k: int,
) -> Result<Seq<Option<u32>>, CustomDrawError>
    decreases k,
{
    if k <= 0 {
        Ok(Seq::empty())
    } else {
        match member_locations(members, target, locations, k - 1) {
            Err(e) => Err(e),
            Ok(earlier) => {
                let member = members[k - 1];
                if target {
                    match target_member_location(member, locations) {
                        Err(e) => Err(e),
                        Ok(l) => Ok(earlier.push(l)),
                    }
                } else if member.bound {
                    Ok(earlier.push(None))
                } else {
                    Ok(earlier.push(Some(unbound_count(members, k - 1) as u32)))
                }
            },
        }
    }
}

proof fn lemma_member_locations_error(
    members: Seq<ShaderMember>,
    target: bool,
    locations: Seq<Option<u32>>,
    k: int,
    n: int,
)
    requires
        0 <= k <= n,
        member_locations(members, target, locations, k) is Err,
    ensures
        member_locations(members, target, locations, n) == member_locations(members, target, locations, k),
    decreases n - k,
{
    if k < n {
        lemma_member_locations_error(members, target, locations, k, n - 1);
    }
}

/// Plans the new locations of the members of a vertex input struct.
fn plan_member_locations(
    members: &Vec<ShaderMember>,
    target: bool,
    locations: &CustomAttributeLocations,
) -> (r: Result<Vec<Option<u32>>, CustomDrawError>)
    requires
        locations@.len() == 8,
    ensures
        match member_locations(members@, target, locations@, members@.len() as int) {
            Ok(l) => r matches Ok(v) && v@ == l,
            Err(e) => r == Err::<Vec<Option<u32>>, CustomDrawError>(e),
        },
{
    let mut planned: Vec<Option<u32>> = Vec::new();
    let mut unbound: usize = 0;
    let mut k: usize = 0;
    while k < members.len()
        invariant
            k <= members@.len(),
            locations@.len() == 8,
            unbound == unbound_count(members@, k as int),
            unbound <= k,
            member_locations(members@, target, locations@, k as int) == Ok::<
                Seq<Option<u32>>,
                CustomDrawError,
            >(planned@),
        decreases members@.len() - k,
    {
        let member = &members[k];
        if target {
            if member.bound {
                planned.push(None);
            } else {
                let location = match &member.name {
                    None => {
                        proof {
                            lemma_member_locations_error(members@, target, locations@, k + 1, members@.len() as int);
                        }
                        return Err(CustomDrawError::VertexInputMemberUnnamed);
                    },
                    Some(n) => match location_for_name(locations, n.as_str()) {
                        None => {
                            proof {
                                lemma_member_locations_error(
                                    members@,
                                    target,
                                    locations@,
                                    k + 1,
                                    members@.len() as int,
                                );
                            }
                            return Err(CustomDrawError::VertexInputNotInLayout { name: n.clone() });
                        },
                        Some(l) => l,
                    },
                };
                planned.push(Some(location));
            }
        } else if member.bound {
            planned.push(None);
        } else {
            planned.push(Some(unbound as u32));
        }
        if !member.bound {
            unbound += 1;
        }
        k += 1;
    }
    Ok(planned)
}

/// Whether any member gets a new location.
fn any_located(planned: &Vec<Option<u32>>) -> (r: bool)
    ensures
        r == exists|k: int| 0 <= k < planned@.len() && #[trigger] planned@[k] is Some,
{
    let mut k: usize = 0;
    while k < planned.len()
        invariant
            k <= planned@.len(),
            forall|j: int| 0 <= j < k ==> !(#[trigger] planned@[j] is Some),
        decreases planned@.len() - k,
    {
        if planned[k].is_some() {
            return true;
        }
        k += 1;
    }
    false
}

/// The members of struct type `ty` of a module.
fn read_members(module: &naga::Module, ty: usize) -> (r: Vec<ShaderMember>)
    requires
        ty < module_types(*module).len(),
    ensures
        r@ == module_members(*module)[ty as int],
{
    let count = member_count(module, ty);
    let mut members: Vec<ShaderMember> = Vec::new();
    let mut k: usize = 0;
    while k < count
        invariant
            k <= count,
            ty < module_types(*module).len(),
            count == module_members(*module)[ty as int].len(),
            members@ == module_members(*module)[ty as int].take(k as int),
        decreases count - k,
    {
        let member = member_at(module, ty, k);
        members.push(member);
        k += 1;
        assert(members@ =~= module_members(*module)[ty as int].take(k as int));
    }
    assert(module_members(*module)[ty as int].take(count as int) =~= module_members(*module)[ty as int]);
    members
}

/// One input of a vertex entry point: bound inputs are left alone; the
/// others must be structs, whose members get their new locations.
pub open spec fn vertex_input_step(
    types: Seq<ShaderTypeKind>,
    members: Seq<Seq<ShaderMember>>,
    entry_name: String,
    target: bool,
    input: ShaderEntryInput,
    locations: Seq<Option<u32>>,
) -> Result<Seq<Seq<ShaderMember>>, CustomDrawError> {
    if input.bound {
        Ok(members)
    } else if !(input.ty < types.len() && types[input.ty as int] is Struct) {
        Err(CustomDrawError::VertexInputNotStruct { entry: entry_name })
    } else {
        let current = members[input.ty as int];
        match member_locations(current, target, locations, current.len() as int) {
            Err(e) => Err(e),
            Ok(planned) => Ok(members.update(input.ty as int, located_members(current, planned))),
        }
    }
}

/// The struct members after the first `n` inputs of one vertex entry point.
pub open spec fn vertex_inputs_fold(
    types: Seq<ShaderTypeKind>,
    members: Seq<Seq<ShaderMember>>,
    entry_name: String,
    target: bool,
    inputs: Seq<ShaderEntryInput>,
    locations: Seq<Option<u32>>,
    n: int,
) -> Result<Seq<Seq<ShaderMember>>, CustomDrawError>
    decreases n,
{
    if n <= 0 {
        Ok(members)
    } else {
        match vertex_inputs_fold(types, members, entry_name, target, inputs, locations, n - 1) {
            Err(e) => Err(e),
            Ok(earlier) => vertex_input_step(types, earlier, entry_name, target, inputs[n - 1], locations),
        }
    }
}

/// The struct members after the vertex entry points among the first `n`
/// entry points; `vertex_entry` takes its locations from the layout.
pub open spec fn vertex_locations_fold(
    types: Seq<ShaderTypeKind>,
    members: Seq<Seq<ShaderMember>>,
    entries: Seq<ShaderEntryPoint>,
    inputs: Seq<Seq<ShaderEntryInput>>,
    vertex_entry: usize,
    locations: Seq<Option<u32>>,
    n: int,
) -> Result<Seq<Seq<ShaderMember>>, CustomDrawError>
    decreases n,
{
    if n <= 0 {
        Ok(members)
    } else {
        match vertex_locations_fold(types, members, entries, inputs, vertex_entry, locations, n - 1) {
            Err(e) => Err(e),
            Ok(earlier) => if entries[n - 1].stage == ShaderStageKind::Vertex {
                vertex_inputs_fold(
                    types,
                    earlier,
                    entries[n - 1].name,
                    n - 1 == vertex_entry,
                    inputs[n - 1],
                    locations,
                    inputs[n - 1].len() as int,
                )
            } else {
                Ok(earlier)
            },
        }
    }
}

/// Where assigning vertex input locations to a module leads.
pub open spec fn vertex_locations_outcome(
    module: naga::Module,
    vertex_entry: usize,
    locations: Seq<Option<u32>>,
) -> Result<Seq<Seq<ShaderMember>>, CustomDrawError> {
    vertex_locations_fold(
        module_types(module),
        module_members(module),
        module_entries(module),
        module_inputs(module),
        vertex_entry,
        locations,
        module_entries(module).len() as int,
    )
}

/// One input of a vertex entry point, on the module itself: as
/// `vertex_input_step`, and a struct whose members get new locations is
/// refused when the located struct is already a type of the module.
pub open spec fn module_input_step(
    module: naga::Module,
    entry_name: String,
    target: bool,
    input: ShaderEntryInput,
    locations: Seq<Option<u32>>,
) -> Result<naga::Module, CustomDrawError> {
    if input.bound {
        Ok(module)
    } else if !(input.ty < module_types(module).len() && module_types(module)[input.ty as int] is Struct) {
        Err(CustomDrawError::VertexInputNotStruct { entry: entry_name })
    } else {
        let current = module_members(module)[input.ty as int];
        match member_locations(current, target, locations, current.len() as int) {
            Err(e) => Err(e),
            Ok(planned) => if exists|k: int| 0 <= k < planned.len() && #[trigger] planned[k] is Some {
                if located_type_taken(module, input.ty, planned) {
                    Err(CustomDrawError::VertexInputTypeConflict)
                } else {
                    Ok(with_member_locations(module, input.ty, planned))
                }
            } else {
                Ok(module)
            },
        }
    }
}

/// The module after the first `n` inputs of one vertex entry point.
pub open spec fn module_inputs_fold(
    module: naga::Module,
    entry_name: String,
    target: bool,
    inputs: Seq<ShaderEntryInput>,
    locations: Seq<Option<u32>>,
    n: int,
) -> Result<naga::Module, CustomDrawError>
    decreases n,
{
    if n <= 0 {
        Ok(module)
    } else {
        match module_inputs_fold(module, entry_name, target, inputs, locations, n - 1) {
            Err(e) => Err(e),
            Ok(earlier) => module_input_step(earlier, entry_name, target, inputs[n - 1], locations),
        }
    }
}

/// The module after the vertex entry points among the first `n` entry
/// points; `vertex_entry` takes its locations from the layout.
pub open spec fn module_locations_fold(
    module: naga::Module,
    entries: Seq<ShaderEntryPoint>,
    inputs: Seq<Seq<ShaderEntryInput>>,
    vertex_entry: usize,
    locations: Seq<Option<u32>>,
    n: int,
) -> Result<naga::Module, CustomDrawError>
    decreases n,
{
    if n <= 0 {
        Ok(module)
    } else {
        match module_locations_fold(module, entries, inputs, vertex_entry, locations, n - 1) {
            Err(e) => Err(e),
            Ok(earlier) => if entries[n - 1].stage == ShaderStageKind::Vertex {
                module_inputs_fold(
                    earlier,
                    entries[n - 1].name,
                    n - 1 == vertex_entry,
                    inputs[n - 1],
                    locations,
                    inputs[n - 1].len() as int,
                )
            } else {
                Ok(earlier)
            },
        }
    }
}

/// The module after assigning vertex input locations, or the error.
pub open spec fn located_module(
    module: naga::Module,
    vertex_entry: usize,
    locations: Seq<Option<u32>>,
) -> Result<naga::Module, CustomDrawError> {
    module_locations_fold(
        module,
        module_entries(module),
        module_inputs(module),
        vertex_entry,
        locations,
        module_entries(module).len() as int,
    )
}

proof fn lemma_module_inputs_fold_error(
    module: naga::Module,
    entry_name: String,
    target: bool,
    inputs: Seq<ShaderEntryInput>,
    locations: Seq<Option<u32>>,
    k: int,
    n: int,
)
    requires
        0 <= k <= n,
        module_inputs_fold(module, entry_name, target, inputs, locations, k) is Err,
    ensures
        module_inputs_fold(module, entry_name, target, inputs, locations, n) == module_inputs_fold(
            module,
            entry_name,
            target,
            inputs,
            locations,
            k,
        ),
    decreases n - k,
{
    if k < n {
        lemma_module_inputs_fold_error(module, entry_name, target, inputs, locations, k, n - 1);
    }
}

proof fn lemma_module_locations_fold_error(
    module: naga::Module,
    entries: Seq<ShaderEntryPoint>,
    inputs: Seq<Seq<ShaderEntryInput>>,
    vertex_entry: usize,
    locations: Seq<Option<u32>>,
    k: int,
    n: int,
)
    requires
        0 <= k <= n,
        module_locations_fold(module, entries, inputs, vertex_entry, locations, k) is Err,
    ensures
        module_locations_fold(module, entries, inputs, vertex_entry, locations, n) == module_locations_fold(
            module,
            entries,
            inputs,
            vertex_entry,
            locations,
            k,
        ),
    decreases n - k,
{
    if k < n {
        lemma_module_locations_fold_error(module, entries, inputs, vertex_entry, locations, k, n - 1);
    }
}

proof fn lemma_located_nothing(members: Seq<ShaderMember>, planned: Seq<Option<u32>>)
    requires
        forall|k: int| 0 <= k < planned.len() ==> !(#[trigger] planned[k] is Some),
    ensures
        located_members(members, planned) == members,
{
    assert(located_members(members, planned) =~= members);
}

/// The members of the struct type of an unbound entry input; inputs whose
/// type is not a struct are refused.
fn struct_input_members(
    module: &naga::Module,
    type_count: usize,
    input: ShaderEntryInput,
    entry_name: &String,
) -> (r: Result<Vec<ShaderMember>, CustomDrawError>)
    requires
        type_count == module_types(*module).len(),
    ensures
        if input.ty < type_count && module_types(*module)[input.ty as int] is Struct {
            r matches Ok(v) && v@ == module_members(*module)[input.ty as int]
        } else {
            r == Err::<Vec<ShaderMember>, CustomDrawError>(CustomDrawError::VertexInputNotStruct { entry: *entry_name })
        },
{
    if input.ty >= type_count {
        return Err(CustomDrawError::VertexInputNotStruct { entry: entry_name.clone() });
    }
    match type_tag(module, input.ty) {
        ShaderTypeTag::Struct => Ok(read_members(module, input.ty)),
        _ => Err(CustomDrawError::VertexInputNotStruct { entry: entry_name.clone() }),
    }
}

/// Gives every unbound member of the input structs of the vertex entry
/// points a location: members of the input of entry `vertex_entry_index`
/// take the layout's location of the attribute they name; those of other
/// vertex entry points are numbered from 0 in member order. Inputs that
/// are not structs are refused. Where the shader compiler's call would
/// panic because the rewritten struct equals another type, the error is
/// `VertexInputTypeConflict`.
pub fn assign_vertex_locations(
    module: &mut naga::Module,
    vertex_entry_index: usize,
    attribute_locations: &CustomAttributeLocations,
) -> (r: Result<(), CustomDrawError>)
    requires
        attribute_locations@.len() == 8,
    ensures
        match located_module(*old(module), vertex_entry_index, attribute_locations@) {
            Ok(m) => r is Ok && *final(module) == m,
            Err(e) => r == Err::<(), CustomDrawError>(e),
        },
        r is Ok ==> vertex_locations_outcome(*old(module), vertex_entry_index, attribute_locations@) == Ok::<
            Seq<Seq<ShaderMember>>,
            CustomDrawError,
        >(module_members(*final(module))),
        module_globals(*final(module)) == module_globals(*old(module)),
        module_types(*final(module)) == module_types(*old(module)),
        module_layouts(*final(module)) == module_layouts(*old(module)),
        module_entries(*final(module)) == module_entries(*old(module)),
        module_inputs(*final(module)) == module_inputs(*old(module)),
{
    let ghost start = *module;
    let ghost types = module_types(start);
    let ghost entries = module_entries(start);
    let ghost inputs = module_inputs(start);
    let ghost locations = attribute_locations@;
    let ghost outcome = located_module(start, vertex_entry_index, locations);
    let (_, type_count, entry_count) = module_counts(module);
    let mut failure: Option<CustomDrawError> = None;
    let mut e: usize = 0;
    while e < entry_count && failure.is_none()
        invariant
            e <= entry_count,
            entry_count == entries.len(),
            type_count == types.len(),
            inputs.len() == entries.len(),
            locations == attribute_locations@,
            locations.len() == 8,
            types == module_types(start),
            entries == module_entries(start),
            inputs == module_inputs(start),
            outcome == located_module(start, vertex_entry_index, locations),
            module_globals(*module) == module_globals(start),
            module_types(*module) == types,
            module_layouts(*module) == module_layouts(start),
            module_entries(*module) == entries,
            module_inputs(*module) == inputs,
            module_members(*module).len() == types.len(),
            failure is None ==> vertex_locations_fold(
                types,
                module_members(start),
                entries,
                inputs,
                vertex_entry_index,
                locations,
                e as int,
            ) == Ok::<Seq<Seq<ShaderMember>>, CustomDrawError>(module_members(*module)),
            failure is None ==> module_locations_fold(start, entries, inputs, vertex_entry_index, locations, e as int)
                == Ok::<naga::Module, CustomDrawError>(*module),
            failure matches Some(err) ==> outcome == Err::<naga::Module, CustomDrawError>(err),
        decreases entry_count - e,
    {
        let (entry, input_count) = entry_at(module, e);
        let ghost entry_members = module_members(*module);
        let ghost entry_module = *module;
        if entry.stage == ShaderStageKind::Vertex {
            let target = e == vertex_entry_index;
            let mut a: usize = 0;
            while a < input_count
                invariant_except_break
                    failure is None,
                    vertex_inputs_fold(types, entry_members, entry.name, target, inputs[e as int], locations, a as int)
                        == Ok::<Seq<Seq<ShaderMember>>, CustomDrawError>(module_members(*module)),
                    module_inputs_fold(entry_module, entry.name, target, inputs[e as int], locations, a as int)
                        == Ok::<naga::Module, CustomDrawError>(*module),
                invariant
                    a <= input_count,
                    e < entry_count,
                    entry_count == entries.len(),
                    type_count == types.len(),
                    inputs.len() == entries.len(),
                    input_count == inputs[e as int].len(),
                    entry == entries[e as int],
                    entry.stage == ShaderStageKind::Vertex,
                    target == (e == vertex_entry_index),
                    locations == attribute_locations@,
                    locations.len() == 8,
                    types == module_types(start),
                    entries == module_entries(start),
                    inputs == module_inputs(start),
                    outcome == located_module(start, vertex_entry_index, locations),
                    module_globals(*module) == module_globals(start),
                    module_types(*module) == types,
                    module_layouts(*module) == module_layouts(start),
                    module_entries(*module) == entries,
                    module_inputs(*module) == inputs,
                    module_members(*module).len() == types.len(),
                    vertex_locations_fold(types, module_members(start), entries, inputs, vertex_entry_index, locations, e as int)
                        == Ok::<Seq<Seq<ShaderMember>>, CustomDrawError>(entry_members),
                    module_locations_fold(start, entries, inputs, vertex_entry_index, locations, e as int)
                        == Ok::<naga::Module, CustomDrawError>(entry_module),
                ensures
                    failure is None ==> vertex_inputs_fold(
                        types,
                        entry_members,
                        entry.name,
                        target,
                        inputs[e as int],
                        locations,
                        input_count as int,
                    ) == Ok::<Seq<Seq<ShaderMember>>, CustomDrawError>(module_members(*module)),
                    failure is None ==> module_inputs_fold(
                        entry_module,
                        entry.name,
                        target,
                        inputs[e as int],
                        locations,
                        input_count as int,
                    ) == Ok::<naga::Module, CustomDrawError>(*module),
                    failure matches Some(err) ==> outcome == Err::<naga::Module, CustomDrawError>(err),
                decreases input_count - a,
            {
                let input = input_at(module, e, a);
                let step = locate_input(module, type_count, input, &entry.name, target, attribute_locations);
                proof {
                    assert(input == inputs[e as int][a as int]);
                }
                match step {
                    Ok(()) => {
                        a += 1;
                    },
                    Err(err) => {
                        proof {
                            lemma_module_inputs_fold_error(entry_module, entry.name, target, inputs[e as int], locations, a + 1, input_count as int);
                            lemma_module_locations_fold_error(start, entries, inputs, vertex_entry_index, locations, e + 1, entry_count as int);
                        }
                        failure = Some(err);
                        break;
                    },
                }
            }
        }
        e += 1;
    }
    match failure {
        Some(err) => Err(err),
        None => Ok(()),
    }
}

/// One input of a vertex entry point: see `module_input_step`.
fn locate_input(
    module: &mut naga::Module,
    type_count: usize,
    input: ShaderEntryInput,
    entry_name: &String,
    target: bool,
    attribute_locations: &CustomAttributeLocations,
) -> (r: Result<(), CustomDrawError>)
    requires
        type_count == module_types(*old(module)).len(),
        module_members(*old(module)).len() == type_count,
        attribute_locations@.len() == 8,
    ensures
        match module_input_step(*old(module), *entry_name, target, input, attribute_locations@) {
            Ok(m) => r is Ok && *final(module) == m,
            Err(e) => r == Err::<(), CustomDrawError>(e) && *final(module) == *old(module),
        },
        vertex_input_step(
            module_types(*old(module)),
            module_members(*old(module)),
            *entry_name,
            target,
            input,
            attribute_locations@,
        ) matches Ok(members) ==> (r is Ok ==> module_members(*final(module)) == members),
        module_globals(*final(module)) == module_globals(*old(module)),
        module_types(*final(module)) == module_types(*old(module)),
        module_layouts(*final(module)) == module_layouts(*old(module)),
        module_entries(*final(module)) == module_entries(*old(module)),
        module_inputs(*final(module)) == module_inputs(*old(module)),
        module_members(*final(module)).len() == type_count,
{
    if input.bound {
        return Ok(());
    }
    let members = match struct_input_members(module, type_count, input, entry_name) {
        Ok(members) => members,
        Err(err) => return Err(err),
    };
    let planned = match plan_member_locations(&members, target, attribute_locations) {
        Ok(planned) => planned,
        Err(err) => return Err(err),
    };
    if any_located(&planned) {
        if located_type_exists(module, input.ty, &planned) {
            return Err(CustomDrawError::VertexInputTypeConflict);
        }
        bind_members(module, input.ty, &planned);
    } else {
        proof {
            lemma_located_nothing(members@, planned@);
        }
    }
    Ok(())
}

} // verus!
