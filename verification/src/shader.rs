//! What pipeline creation reads of a parsed shader module, and the
//! checks and plans made from it: binding kinds against shader variables,
//! binding lookups, push constant blocks and device slot assignment.
use vstd::prelude::*;
use vstd::string::StringSliceAdditionalSpecFns;
use crate::error::CustomDrawError;
use crate::types::{
    CustomBindingDesc, CustomBindingKind, CustomBindingSlot, CustomPushConstantsDesc,
    binding_variable_name, resolved_slot,
};
use crate::naga_module::{MslWriterSettings, ShaderValidation};

verus! {

// ---------------------------------------------------------------------------
// The shader module model
// ---------------------------------------------------------------------------

/// Address space of a global shader variable.
#[derive(Debug, Clone, Copy, PartialEq, Eq, Structural)]
pub enum ShaderSpace {
    Uniform,
    Storage,
    Handle,
    /// Push constants ("immediate" data).
    Immediate,
    Other,
}

/// Class of an image type.
#[derive(Debug, Clone, Copy, PartialEq, Eq, Structural)]
pub enum ShaderImageClass {
    Sampled,
    Depth,
    Storage,
    External,
}

/// Length of a binding array type.
#[derive(Debug, Clone, Copy, PartialEq, Eq, Structural)]
pub enum ShaderArrayLength {
    Constant(u32),
    /// Given by an override expression.
    Pending,
    /// Runtime-sized.
    Dynamic,
}

/// Element type of a binding array.
#[derive(Debug, Clone, Copy, PartialEq, Eq, Structural)]
pub enum ShaderElementShape {
    Image(ShaderImageClass),
    Other,
}

/// Type of a global shader variable, as far as binding checks look.
#[derive(Debug, Clone, Copy, PartialEq, Eq, Structural)]
pub enum ShaderTypeShape {
    BindingArray { element: ShaderElementShape, length: ShaderArrayLength },
    Image(ShaderImageClass),
    Sampler,
    Other,
}

/// A global shader variable.
#[derive(Debug, Clone)]
pub struct ShaderGlobal {
    /// Variable name, if it has one.
    pub name: Option<String>,
    /// Address space.
    pub space: ShaderSpace,
    /// Explicit `@group`/`@binding`, if any.
    pub binding: Option<CustomBindingSlot>,
    /// Type shape.
    pub shape: ShaderTypeShape,
    /// Byte size of the variable's type, `None` when the module's layouts
    /// cannot be computed.
    pub layout_size: Option<u32>,
}

/// What a shader variable must be for a binding kind.
#[derive(Debug, Clone, Copy, PartialEq, Eq, Structural)]
pub enum ShaderResourceRequirement {
    StorageBufferArray,
    SampledTextureArray,
    StorageTextureArray,
    SampledTexture,
    StorageTexture,
    Sampler,
    Uniform,
    StorageBuffer,
}

/// A copy of an optional name.
fn clone_name(name: &Option<String>) -> (r: Option<String>)
    ensures
        r == *name,
{
    match name {
        Some(n) => Some(n.clone()),
        None => None,
    }
}

// ---------------------------------------------------------------------------
// Binding kinds against shader variables
// ---------------------------------------------------------------------------

/// Binding arrays must have a constant length equal to the declared count.
pub open spec fn array_length_error(
    length: ShaderArrayLength,
    expected: u32,
    entry: String,
    name: Option<String>,
) -> Option<CustomDrawError> {
    match length {
        ShaderArrayLength::Constant(actual) => if actual != expected {
            Some(CustomDrawError::BindingArrayLengthMismatch { name, expected, actual })
        } else {
            None
        },
        ShaderArrayLength::Pending => Some(CustomDrawError::BindingArrayLengthNotConstant { name, entry }),
        ShaderArrayLength::Dynamic => Some(CustomDrawError::BindingArrayRuntimeSized { name, entry }),
    }
}

/// Checks the length of a binding array against its declared count.
pub fn validate_binding_array_size(
    length: ShaderArrayLength,
    expected: u32,
    entry: &String,
    name: &Option<String>,
) -> (r: Result<(), CustomDrawError>)
    ensures
        r == (match array_length_error(length, expected, *entry, *name) {
            Some(e) => Err(e),
            None => Ok(()),
        }),
{
    let actual = match length {
        ShaderArrayLength::Constant(size) => size,
        ShaderArrayLength::Pending => {
            return Err(
                CustomDrawError::BindingArrayLengthNotConstant { name: clone_name(name), entry: entry.clone() },
            );
        },
        ShaderArrayLength::Dynamic => {
            return Err(
                CustomDrawError::BindingArrayRuntimeSized { name: clone_name(name), entry: entry.clone() },
            );
        },
    };
    if actual != expected {
        return Err(CustomDrawError::BindingArrayLengthMismatch { name: clone_name(name), expected, actual });
    }
    Ok(())
}

/// The error saying `global` is not what `expected` needs.
pub open spec fn mismatch(global: ShaderGlobal, entry: String, expected: ShaderResourceRequirement) -> CustomDrawError {
    CustomDrawError::BindingTypeMismatch { name: global.name, entry, expected }
}

/// Whether a shader variable fits a binding kind, and if not, why: storage
/// buffer (arrays) live in storage space, texture (arrays) are sampled or
/// storage images, samplers are samplers, uniforms live in uniform space
/// with the declared size, and array lengths match their counts.
pub open spec fn binding_kind_error(global: ShaderGlobal, kind: CustomBindingKind, entry: String) -> Option<
    CustomDrawError,
> {
    match kind {
        CustomBindingKind::BufferArray { count } => match global.shape {
            ShaderTypeShape::BindingArray { length, .. } => match array_length_error(length, count, entry, global.name) {
                Some(e) => Some(e),
                None => if global.space == ShaderSpace::Storage {
                    None
                } else {
                    Some(mismatch(global, entry, ShaderResourceRequirement::StorageBufferArray))
                },
            },
            _ => Some(mismatch(global, entry, ShaderResourceRequirement::StorageBufferArray)),
        },
        CustomBindingKind::TextureArray { count } => match global.shape {
            ShaderTypeShape::BindingArray {
                element: ShaderElementShape::Image(ShaderImageClass::Sampled),
                length,
            } => array_length_error(length, count, entry, global.name),
            _ => Some(mismatch(global, entry, ShaderResourceRequirement::SampledTextureArray)),
        },
        CustomBindingKind::StorageTextureArray { count } => match global.shape {
            ShaderTypeShape::BindingArray {
                element: ShaderElementShape::Image(ShaderImageClass::Storage),
                length,
            } => array_length_error(length, count, entry, global.name),
            _ => Some(mismatch(global, entry, ShaderResourceRequirement::StorageTextureArray)),
        },
        CustomBindingKind::Texture => match global.shape {
            ShaderTypeShape::Image(ShaderImageClass::Sampled) => None,
            _ => Some(mismatch(global, entry, ShaderResourceRequirement::SampledTexture)),
        },
        CustomBindingKind::StorageTexture => match global.shape {
            ShaderTypeShape::Image(ShaderImageClass::Storage) => None,
            _ => Some(mismatch(global, entry, ShaderResourceRequirement::StorageTexture)),
        },
        CustomBindingKind::Sampler => match global.shape {
            ShaderTypeShape::Sampler => None,
            _ => Some(mismatch(global, entry, ShaderResourceRequirement::Sampler)),
        },
        CustomBindingKind::Uniform { size } => if global.space != ShaderSpace::Uniform {
            Some(mismatch(global, entry, ShaderResourceRequirement::Uniform))
        } else {
            match global.layout_size {
                None => Some(CustomDrawError::UniformLayoutFailed),
                Some(actual) => if actual != size {
                    Some(CustomDrawError::UniformSizeMismatch { name: global.name, expected: size, actual })
                } else {
                    None
                },
            }
        },
        CustomBindingKind::Buffer => if global.space == ShaderSpace::Storage {
            None
        } else {
            Some(mismatch(global, entry, ShaderResourceRequirement::StorageBuffer))
        },
    }
}

fn mismatch_error(global: &ShaderGlobal, entry: &String, expected: ShaderResourceRequirement) -> (r:
    CustomDrawError)
    ensures
        r == mismatch(*global, *entry, expected),
{
    CustomDrawError::BindingTypeMismatch { name: clone_name(&global.name), entry: entry.clone(), expected }
}

/// Checks that a shader variable fits the kind it is bound as in entry point `entry`.
pub fn validate_binding_kind(global: &ShaderGlobal, kind: CustomBindingKind, entry: &String) -> (r: Result<
    (),
    CustomDrawError,
>)
    ensures
        r == (match binding_kind_error(*global, kind, *entry) {
            Some(e) => Err(e),
            None => Ok(()),
        }),
{
    match kind {
        CustomBindingKind::BufferArray { count } => match global.shape {
            ShaderTypeShape::BindingArray { length, .. } => {
                if let Err(e) = validate_binding_array_size(length, count, entry, &global.name) {
                    return Err(e);
                }
                match global.space {
                    ShaderSpace::Storage => Ok(()),
                    _ => Err(mismatch_error(global, entry, ShaderResourceRequirement::StorageBufferArray)),
                }
            },
            _ => Err(mismatch_error(global, entry, ShaderResourceRequirement::StorageBufferArray)),
        },
        CustomBindingKind::TextureArray { count } => match global.shape {
            ShaderTypeShape::BindingArray {
                element: ShaderElementShape::Image(ShaderImageClass::Sampled),
                length,
            } => validate_binding_array_size(length, count, entry, &global.name),
            _ => Err(mismatch_error(global, entry, ShaderResourceRequirement::SampledTextureArray)),
        },
        CustomBindingKind::StorageTextureArray { count } => match global.shape {
            ShaderTypeShape::BindingArray {
                element: ShaderElementShape::Image(ShaderImageClass::Storage),
                length,
            } => validate_binding_array_size(length, count, entry, &global.name),
            _ => Err(mismatch_error(global, entry, ShaderResourceRequirement::StorageTextureArray)),
        },
        CustomBindingKind::Texture => match global.shape {
            ShaderTypeShape::Image(ShaderImageClass::Sampled) => Ok(()),
            _ => Err(mismatch_error(global, entry, ShaderResourceRequirement::SampledTexture)),
        },
        CustomBindingKind::StorageTexture => match global.shape {
            ShaderTypeShape::Image(ShaderImageClass::Storage) => Ok(()),
            _ => Err(mismatch_error(global, entry, ShaderResourceRequirement::StorageTexture)),
        },
        CustomBindingKind::Sampler => match global.shape {
            ShaderTypeShape::Sampler => Ok(()),
            _ => Err(mismatch_error(global, entry, ShaderResourceRequirement::Sampler)),
        },
        CustomBindingKind::Uniform { size } => {
            match global.space {
                ShaderSpace::Uniform => {},
                _ => return Err(mismatch_error(global, entry, ShaderResourceRequirement::Uniform)),
            }
            match global.layout_size {
                None => Err(CustomDrawError::UniformLayoutFailed),
                Some(actual) => {
                    if actual != size {
                        Err(
                            CustomDrawError::UniformSizeMismatch {
                                name: clone_name(&global.name),
                                expected: size,
                                actual,
                            },
                        )
                    } else {
                        Ok(())
                    }
                },
            }
        },
        CustomBindingKind::Buffer => match global.space {
            ShaderSpace::Storage => Ok(()),
            _ => Err(mismatch_error(global, entry, ShaderResourceRequirement::StorageBuffer)),
        },
    }
}

// ---------------------------------------------------------------------------
// Looking bindings up by name and slot
// ---------------------------------------------------------------------------

/// What a shader variable is bound as: the binding's kind and its slot.
#[derive(Debug, Clone, Copy, PartialEq, Eq, Structural)]
pub struct BindingInfo {
    pub kind: CustomBindingKind,
    pub slot: CustomBindingSlot,
}

/// The binding information of a declared binding.
pub open spec fn info_of(binding: CustomBindingDesc) -> BindingInfo {
    BindingInfo { kind: binding.kind, slot: resolved_slot(binding) }
}

/// The last binding whose variable name is `name` (later bindings win).
pub open spec fn last_named(bindings: Seq<CustomBindingDesc>, name: Seq<char>) -> Option<BindingInfo>
    decreases bindings.len(),
{
    if bindings.len() == 0 {
        None
    } else if binding_variable_name(bindings.last().name) == name {
        Some(info_of(bindings.last()))
    } else {
        last_named(bindings.drop_last(), name)
    }
}

/// The last binding that occupies `slot` (later bindings win).
pub open spec fn last_at_slot(bindings: Seq<CustomBindingDesc>, slot: CustomBindingSlot) -> Option<BindingInfo>
    decreases bindings.len(),
{
    if bindings.len() == 0 {
        None
    } else if resolved_slot(bindings.last()) == slot {
        Some(info_of(bindings.last()))
    } else {
        last_at_slot(bindings.drop_last(), slot)
    }
}

/// Whether two strings hold the same characters.
pub fn str_eq(a: &str, b: &str) -> (r: bool)
    ensures
        r == (a@ == b@),
{
    broadcast use vstd::utf8::encode_utf8_decode_utf8;
    let x = a.as_bytes();
    let y = b.as_bytes();
    if x.len() != y.len() {
        proof {
            if a@ == b@ {
                assert(a.spec_bytes() == b.spec_bytes());
            }
        }
        return false;
    }
    let mut i: usize = 0;
    while i < x.len()
        invariant
            i <= x@.len(),
            x@.len() == y@.len(),
            x@ == a.spec_bytes(),
            y@ == b.spec_bytes(),
            forall|j: int| 0 <= j < i ==> x@[j] == y@[j],
        decreases x@.len() - i,
    {
        if x[i] != y[i] {
            proof {
                assert(x@ != y@);
                if a@ == b@ {
                    assert(a.spec_bytes() == b.spec_bytes());
                }
            }
            return false;
        }
        i += 1;
    }
    proof {
        assert(x@ =~= y@);
        assert(vstd::utf8::decode_utf8(x@) == a@);
        assert(vstd::utf8::decode_utf8(y@) == b@);
    }
    true
}

/// Bindings by variable name and by slot, plus the push constants block
/// once it is turned into a uniform binding.
#[derive(Debug, Clone)]
pub struct CustomBindingMaps {
    bindings: Vec<CustomBindingDesc>,
    push_constants: Option<(String, BindingInfo)>,
}

/// The declared bindings, and the push constants block's variable name and
/// binding once it is added.
pub type BindingMapsView = (Seq<CustomBindingDesc>, Option<(Seq<char>, BindingInfo)>);

/// The binding a variable named `name` is bound as: the push constants
/// block under its name, else the last binding of that name.
pub open spec fn maps_named(maps: BindingMapsView, name: Seq<char>) -> Option<BindingInfo> {
    match maps.1 {
        Some((n, info)) => if n == name {
            Some(info)
        } else {
            last_named(maps.0, name)
        },
        None => last_named(maps.0, name),
    }
}

/// The binding a variable at `slot` is bound as.
pub open spec fn maps_at_slot(maps: BindingMapsView, slot: CustomBindingSlot) -> Option<BindingInfo> {
    last_at_slot(maps.0, slot)
}

impl View for CustomBindingMaps {
    type V = BindingMapsView;

    open spec fn view(&self) -> BindingMapsView {
        (self.spec_bindings(), self.spec_push_constants())
    }
}

impl CustomBindingMaps {
    /// The declared bindings.
    pub closed spec fn spec_bindings(&self) -> Seq<CustomBindingDesc> {
        self.bindings@
    }

    /// The push constants entry: its variable name and binding.
    pub closed spec fn spec_push_constants(&self) -> Option<(Seq<char>, BindingInfo)> {
        match self.push_constants {
            Some((name, info)) => Some((name@, info)),
            None => None,
        }
    }

    /// The binding a variable named `name` is bound as.
    pub open spec fn named(&self, name: Seq<char>) -> Option<BindingInfo> {
        maps_named(self@, name)
    }

    /// The binding a variable at `slot` is bound as.
    pub open spec fn at_slot(&self, slot: CustomBindingSlot) -> Option<BindingInfo> {
        maps_at_slot(self@, slot)
    }

    /// Whether a binding (not the push constants block) uses variable name `name`.
    pub fn contains_name(&self, name: &str) -> (r: bool)
        ensures
            r == (last_named(self.spec_bindings(), name@) is Some),
    {
        let found = last_named_in(&self.bindings, name);
        found.is_some()
    }

    /// Adds the push constants block, bound as `info`, under variable name `name`.
    pub fn insert_push_constants(&mut self, name: String, info: BindingInfo)
        ensures
            final(self).spec_bindings() == old(self).spec_bindings(),
            final(self).spec_push_constants() == Some((name@, info)),
    {
        self.push_constants = Some((name, info));
    }

    /// The binding a variable named `name` is bound as.
    pub fn by_name(&self, name: &str) -> (r: Option<BindingInfo>)
        ensures
            r == self.named(name@),
    {
        if let Some((n, info)) = &self.push_constants {
            if str_eq(n.as_str(), name) {
                return Some(*info);
            }
        }
        last_named_in(&self.bindings, name)
    }

    /// The binding a variable at `slot` is bound as.
    pub fn by_slot(&self, slot: CustomBindingSlot) -> (r: Option<BindingInfo>)
        ensures
            r == self.at_slot(slot),
    {
        let mut found: Option<BindingInfo> = None;
        let mut i: usize = 0;
        proof {
            assert(self.bindings@.take(0) =~= Seq::<CustomBindingDesc>::empty());
        }
        while i < self.bindings.len()
            invariant
                i <= self.bindings@.len(),
                found == last_at_slot(self.bindings@.take(i as int), slot),
            decreases self.bindings@.len() - i,
        {
            proof {
                assert(self.bindings@.take(i + 1).drop_last() =~= self.bindings@.take(i as int));
            }
            let here = self.bindings[i].resolved_slot();
            if here == slot {
                found = Some(BindingInfo { kind: self.bindings[i].kind, slot: here });
            }
            i += 1;
        }
        proof {
            assert(self.bindings@.take(self.bindings@.len() as int) =~= self.bindings@);
        }
        found
    }
}

fn last_named_in(bindings: &Vec<CustomBindingDesc>, name: &str) -> (r: Option<BindingInfo>)
    ensures
        r == last_named(bindings@, name@),
{
    let mut found: Option<BindingInfo> = None;
    let mut i: usize = 0;
    proof {
        assert(bindings@.take(0) =~= Seq::<CustomBindingDesc>::empty());
    }
    while i < bindings.len()
        invariant
            i <= bindings@.len(),
            found == last_named(bindings@.take(i as int), name@),
        decreases bindings@.len() - i,
    {
        proof {
            assert(bindings@.take(i + 1).drop_last() =~= bindings@.take(i as int));
        }
        if str_eq(bindings[i].name.as_str(), name) {
            found = Some(BindingInfo { kind: bindings[i].kind, slot: bindings[i].resolved_slot() });
        }
        i += 1;
    }
    proof {
        assert(bindings@.take(bindings@.len() as int) =~= bindings@);
    }
    found
}

/// Indexes the declared bindings by variable name and by slot.
pub fn build_binding_maps(bindings: &[CustomBindingDesc]) -> (r: CustomBindingMaps)
    ensures
        r.spec_bindings() == bindings@,
        r.spec_push_constants() is None,
{
    let mut copy: Vec<CustomBindingDesc> = Vec::new();
    let mut i: usize = 0;
    while i < bindings.len()
        invariant
            i <= bindings@.len(),
            copy@ == bindings@.take(i as int),
        decreases bindings@.len() - i,
    {
        copy.push(bindings[i]);
        proof {
            assert(bindings@.take(i + 1) =~= bindings@.take(i as int).push(bindings@[i as int]));
        }
        i += 1;
    }
    proof {
        assert(bindings@.take(bindings@.len() as int) =~= bindings@);
    }
    CustomBindingMaps { bindings: copy, push_constants: None }
}

// ---------------------------------------------------------------------------
// Push constants
// ---------------------------------------------------------------------------

/// The highest bind group the bindings use (0 when there are none).
pub open spec fn max_group(bindings: Seq<CustomBindingDesc>) -> u32
    decreases bindings.len(),
{
    if bindings.len() == 0 {
        0
    } else {
        let g = resolved_slot(bindings.last()).group;
        let rest = max_group(bindings.drop_last());
        if g > rest { g } else { rest }
    }
}

/// Push constants go to binding 0 of the group after the highest used group
/// (saturating at `u32::MAX`).
pub fn push_constants_slot(bindings: &[CustomBindingDesc]) -> (r: CustomBindingSlot)
    ensures
        r == (CustomBindingSlot { group: max_group(bindings@).saturating_add(1), binding: 0 }),
{
    let mut max: u32 = 0;
    let mut i: usize = 0;
    proof {
        assert(bindings@.take(0) =~= Seq::<CustomBindingDesc>::empty());
    }
    while i < bindings.len()
        invariant
            i <= bindings@.len(),
            max == max_group(bindings@.take(i as int)),
        decreases bindings@.len() - i,
    {
        proof {
            assert(bindings@.take(i + 1).drop_last() =~= bindings@.take(i as int));
        }
        let slot = bindings[i].resolved_slot();
        if slot.group > max {
            max = slot.group;
        }
        i += 1;
    }
    proof {
        assert(bindings@.take(bindings@.len() as int) =~= bindings@);
    }
    CustomBindingSlot { group: max.saturating_add(1), binding: 0 }
}

/// How the shader's push constants block becomes a uniform binding.
#[derive(Debug, Clone)]
pub struct PushConstantsPlan {
    /// Index of the block's global variable.
    pub global: usize,
    /// Variable name of the block: its own, or `push_constants`.
    pub name: String,
    /// Whether the block had no name and receives `push_constants`.
    pub renamed: bool,
    /// Declared size in bytes.
    pub size: u32,
    /// Slot of the generated uniform binding.
    pub slot: CustomBindingSlot,
}

/// The push constants blocks the entry points use, up to index `n`.
pub open spec fn used_blocks(globals: Seq<ShaderGlobal>, used: Seq<bool>, n: int) -> Seq<int>
    decreases n,
{
    if n <= 0 {
        Seq::empty()
    } else {
        let rest = used_blocks(globals, used, n - 1);
        if globals[n - 1].space == ShaderSpace::Immediate && used[n - 1] {
            rest.push(n - 1)
        } else {
            rest
        }
    }
}

/// The outcome of turning the shader's push constants block into a uniform:
/// at most one used block; a block exactly when push constants are declared;
/// layouts computable and the block's size equal to the declared size.
pub open spec fn push_constants_outcome(
    globals: Seq<ShaderGlobal>,
    used: Seq<bool>,
    declared: Option<CustomPushConstantsDesc>,
) -> Result<Option<int>, CustomDrawError> {
    let blocks = used_blocks(globals, used, globals.len() as int);
    if blocks.len() > 1 {
        Err(CustomDrawError::MultiplePushConstantBlocks)
    } else if blocks.len() == 0 {
        if declared is Some {
            Err(CustomDrawError::UnexpectedPushConstants)
        } else {
            Ok(None)
        }
    } else {
        let g = globals[blocks[0]];
        match declared {
            None => Err(CustomDrawError::MissingPushConstants),
            Some(p) => match g.layout_size {
                None => Err(CustomDrawError::PushConstantsLayoutFailed),
                Some(actual) => if actual != p.size {
                    Err(CustomDrawError::PushConstantsSizeMismatch { expected: p.size, actual })
                } else {
                    Ok(Some(blocks[0]))
                },
            },
        }
    }
}

/// Finds the push constants block the entry points use (`used[i]` says
/// whether any of them uses global `i`) and plans its rewrite into a
/// uniform binding at `slot`.
pub fn plan_push_constants(
    globals: &Vec<ShaderGlobal>,
    used: &Vec<bool>,
    declared: Option<CustomPushConstantsDesc>,
    slot: CustomBindingSlot,
) -> (r: Result<Option<PushConstantsPlan>, CustomDrawError>)
    requires
        used@.len() == globals@.len(),
    ensures
        match push_constants_outcome(globals@, used@, declared) {
            Err(e) => r == Err::<Option<PushConstantsPlan>, CustomDrawError>(e),
            Ok(None) => r == Ok::<Option<PushConstantsPlan>, CustomDrawError>(None),
            Ok(Some(i)) => r matches Ok(Some(plan)) && plan.global == i && plan.slot == slot
                && plan.size == declared.unwrap().size && plan.renamed == (globals@[i].name is None)
                && plan.name@ == (match globals@[i].name {
                Some(n) => n@,
                None => "push_constants"@,
            }),
        },
{
    let mut found: Option<usize> = None;
    let mut i: usize = 0;
    while i < globals.len()
        invariant
            i <= globals@.len(),
            used@.len() == globals@.len(),
            used_blocks(globals@, used@, i as int).len() <= 1,
            found == (if used_blocks(globals@, used@, i as int).len() == 0 {
                None
            } else {
                Some(used_blocks(globals@, used@, i as int)[0] as usize)
            }),
            used_blocks(globals@, used@, i as int).len() == 1 ==> 0 <= used_blocks(globals@, used@, i as int)[0] < i,
        decreases globals@.len() - i,
    {
        let is_block = match globals[i].space {
            ShaderSpace::Immediate => true,
            _ => false,
        };
        if is_block && used[i] {
            if found.is_some() {
                proof {
                    lemma_used_blocks_grow(globals@, used@, (i + 1) as int, globals@.len() as int);
                }
                return Err(CustomDrawError::MultiplePushConstantBlocks);
            }
            found = Some(i);
        }
        i += 1;
    }
    let index = match found {
        None => {
            if declared.is_some() {
                return Err(CustomDrawError::UnexpectedPushConstants);
            }
            return Ok(None);
        },
        Some(index) => index,
    };
    let declared = match declared {
        None => return Err(CustomDrawError::MissingPushConstants),
        Some(p) => p,
    };
    let actual = match globals[index].layout_size {
        None => return Err(CustomDrawError::PushConstantsLayoutFailed),
        Some(actual) => actual,
    };
    if actual != declared.size {
        return Err(CustomDrawError::PushConstantsSizeMismatch { expected: declared.size, actual });
    }
    let (name, renamed) = match &globals[index].name {
        Some(n) => (n.clone(), false),
        None => {
            proof {
                reveal_strlit("push_constants");
            }
            ("push_constants".to_owned(), true)
        },
    };
    Ok(Some(PushConstantsPlan { global: index, name, renamed, size: declared.size, slot }))
}

/// The blocks found up to index `n` lie below `n`.
pub proof fn lemma_used_blocks_below(globals: Seq<ShaderGlobal>, used: Seq<bool>, n: int)
    ensures
        forall|k: int|
            0 <= k < used_blocks(globals, used, n).len() ==> 0 <= #[trigger] used_blocks(globals, used, n)[k] < n,
    decreases n,
{
    if n > 0 {
        lemma_used_blocks_below(globals, used, n - 1);
        let rest = used_blocks(globals, used, n - 1);
        assert forall|k: int| 0 <= k < used_blocks(globals, used, n).len() implies 0 <= #[trigger] used_blocks(
            globals,
            used,
            n,
        )[k] < n by {
            if k < rest.len() {
                assert(used_blocks(globals, used, n)[k] == rest[k]);
            }
        }
    }
}

/// The used blocks found up to an index are among those found up to a later one.
proof fn lemma_used_blocks_grow(globals: Seq<ShaderGlobal>, used: Seq<bool>, a: int, b: int)
    requires
        0 <= a <= b,
    ensures
        used_blocks(globals, used, a).len() <= used_blocks(globals, used, b).len(),
    decreases b - a,
{
    if a < b {
        lemma_used_blocks_grow(globals, used, a, b - 1);
    }
}

// ---------------------------------------------------------------------------
// Binding shader variables to declared bindings
// ---------------------------------------------------------------------------

/// Whether variables of this address space are resources that need a binding.
pub open spec fn is_resource_space(space: ShaderSpace) -> bool {
    space == ShaderSpace::Storage || space == ShaderSpace::Uniform || space == ShaderSpace::Handle
}

/// The name a variable is looked up under: its own, or `<unnamed>`.
pub open spec fn lookup_name(global: ShaderGlobal) -> Seq<char> {
    match global.name {
        Some(n) => n@,
        None => "<unnamed>"@,
    }
}

/// What binding one variable an entry point uses gets: nothing for unused
/// and non-resource variables; otherwise the declared binding at its
/// explicit slot, or under its name, which must exist and fit; the slot is
/// assigned only to variables without an explicit one.
pub open spec fn resource_binding_step(
    global: ShaderGlobal,
    used: bool,
    entry: String,
    maps: BindingMapsView,
) -> Result<Option<CustomBindingSlot>, CustomDrawError> {
    if !used || !is_resource_space(global.space) {
        Ok(None)
    } else {
        let info = match global.binding {
            Some(b) => maps_at_slot(maps, b),
            None => maps_named(maps, lookup_name(global)),
        };
        match info {
            None => match global.binding {
                Some(b) => Err(
                    CustomDrawError::UndeclaredExplicitBinding { group: b.group, binding: b.binding, name: global.name },
                ),
                None => Err(CustomDrawError::UndeclaredBinding { name: global.name }),
            },
            Some(info) => match binding_kind_error(global, info.kind, entry) {
                Some(e) => Err(e),
                None => if global.binding is None {
                    Ok(Some(info.slot))
                } else {
                    Ok(None)
                },
            },
        }
    }
}

/// The slot assignments for an entry point's variables, in variable order,
/// or the first variable's error.
pub open spec fn resource_binding_plan(
    globals: Seq<ShaderGlobal>,
    used: Seq<bool>,
    entry: String,
    maps: BindingMapsView,
) -> Result<Seq<(usize, CustomBindingSlot)>, CustomDrawError>
    decreases globals.len(),
{
    if globals.len() == 0 {
        Ok(Seq::empty())
    } else {
        match resource_binding_plan(globals.drop_last(), used, entry, maps) {
            Err(e) => Err(e),
            Ok(updates) => match resource_binding_step(
                globals.last(),
                used[globals.len() - 1],
                entry,
                maps,
            ) {
                Err(e) => Err(e),
                Ok(None) => Ok(updates),
                Ok(Some(slot)) => Ok(updates.push(((globals.len() - 1) as usize, slot))),
            },
        }
    }
}

proof fn lemma_resource_plan_error_prefix(
    globals: Seq<ShaderGlobal>,
    k: int,
    used: Seq<bool>,
    entry: String,
    maps: BindingMapsView,
)
    requires
        0 <= k <= globals.len(),
        resource_binding_plan(globals.take(k), used, entry, maps) is Err,
    ensures
        resource_binding_plan(globals, used, entry, maps) == resource_binding_plan(globals.take(k), used, entry, maps),
    decreases globals.len() - k,
{
    if k == globals.len() {
        assert(globals.take(k) =~= globals);
    } else {
        assert(globals.take(k + 1).drop_last() =~= globals.take(k));
        lemma_resource_plan_error_prefix(globals, k + 1, used, entry, maps);
    }
}

fn resource_binding_for(global: &ShaderGlobal, used: bool, entry: &String, maps: &CustomBindingMaps) -> (r: Result<
    Option<CustomBindingSlot>,
    CustomDrawError,
>)
    ensures
        r == resource_binding_step(*global, used, *entry, maps@),
{
    let resource = match global.space {
        ShaderSpace::Storage | ShaderSpace::Uniform | ShaderSpace::Handle => true,
        _ => false,
    };
    if !used || !resource {
        return Ok(None);
    }
    let info = match global.binding {
        Some(b) => maps.by_slot(b),
        None => match &global.name {
            Some(n) => maps.by_name(n.as_str()),
            None => {
                proof {
                    reveal_strlit("<unnamed>");
                }
                maps.by_name("<unnamed>")
            },
        },
    };
    match info {
        None => match global.binding {
            Some(b) => Err(
                CustomDrawError::UndeclaredExplicitBinding {
                    group: b.group,
                    binding: b.binding,
                    name: clone_name(&global.name),
                },
            ),
            None => Err(CustomDrawError::UndeclaredBinding { name: clone_name(&global.name) }),
        },
        Some(info) => {
            if let Err(e) = validate_binding_kind(global, info.kind, entry) {
                return Err(e);
            }
            if global.binding.is_none() {
                Ok(Some(info.slot))
            } else {
                Ok(None)
            }
        },
    }
}

/// Binds the resource variables entry point `entry` uses (`used[i]` for
/// global `i`) to the declared bindings, checking their kinds, and lists
/// the slots to give the variables that have none.
pub fn plan_resource_bindings(
    globals: &Vec<ShaderGlobal>,
    used: &Vec<bool>,
    entry: &String,
    maps: &CustomBindingMaps,
) -> (r: Result<Vec<(usize, CustomBindingSlot)>, CustomDrawError>)
    requires
        used@.len() == globals@.len(),
    ensures
        match resource_binding_plan(globals@, used@, *entry, maps@) {
            Ok(updates) => r matches Ok(v) && v@ == updates,
            Err(e) => r == Err::<Vec<(usize, CustomBindingSlot)>, CustomDrawError>(e),
        },
{
    let mut updates: Vec<(usize, CustomBindingSlot)> = Vec::new();
    let mut i: usize = 0;
    proof {
        assert(globals@.take(0) =~= Seq::<ShaderGlobal>::empty());
    }
    while i < globals.len()
        invariant
            i <= globals@.len(),
            used@.len() == globals@.len(),
            resource_binding_plan(globals@.take(i as int), used@, *entry, maps@) == Ok::<
                Seq<(usize, CustomBindingSlot)>,
                CustomDrawError,
            >(updates@),
        decreases globals@.len() - i,
    {
        proof {
            assert(globals@.take(i + 1).drop_last() =~= globals@.take(i as int));
        }
        match resource_binding_for(&globals[i], used[i], entry, maps) {
            Err(e) => {
                proof {
                    lemma_resource_plan_error_prefix(globals@, i + 1, used@, *entry, maps@);
                }
                return Err(e);
            },
            Ok(None) => {},
            Ok(Some(slot)) => {
                updates.push((i, slot));
            },
        }
        i += 1;
    }
    proof {
        assert(globals@.take(globals@.len() as int) =~= globals@);
    }
    Ok(updates)
}

// ---------------------------------------------------------------------------
// Device slots
// ---------------------------------------------------------------------------

/// Device bind targets of one binding: a buffer slot after the vertex
/// buffers, or a texture or sampler slot at the binding's position.
#[derive(Debug, Clone, Copy, PartialEq, Eq, Structural)]
pub struct BindTargetPlan {
    pub buffer: Option<u8>,
    pub texture: Option<u8>,
    pub sampler: Option<u8>,
    pub mutable: bool,
}

/// The bind target of a binding of `kind` at position `index` whose buffer
/// slot is `buffer_slot`.
pub open spec fn bind_target_of(kind: CustomBindingKind, index: u8, buffer_slot: u8) -> BindTargetPlan {
    match kind {
        CustomBindingKind::BufferArray { .. } => BindTargetPlan {
            buffer: Some(buffer_slot),
            texture: None,
            sampler: None,
            mutable: true,
        },
        CustomBindingKind::TextureArray { .. } | CustomBindingKind::StorageTextureArray { .. } => BindTargetPlan {
            buffer: Some(buffer_slot),
            texture: None,
            sampler: None,
            mutable: false,
        },
        CustomBindingKind::Texture | CustomBindingKind::StorageTexture => BindTargetPlan {
            buffer: None,
            texture: Some(index),
            sampler: None,
            mutable: false,
        },
        CustomBindingKind::Sampler => BindTargetPlan {
            buffer: None,
            texture: None,
            sampler: Some(index),
            mutable: false,
        },
        CustomBindingKind::Buffer => BindTargetPlan {
            buffer: Some(buffer_slot),
            texture: None,
            sampler: None,
            mutable: true,
        },
        CustomBindingKind::Uniform { .. } => BindTargetPlan {
            buffer: Some(buffer_slot),
            texture: None,
            sampler: None,
            mutable: false,
        },
    }
}

/// Positions and buffer slots are `u8`: `count` bindings after `base`
/// buffers fit when `base + count <= 256`; past that, the first position
/// that does not fit names the error.
pub open spec fn slot_numbering_error(count: nat, base: u8) -> Option<CustomDrawError> {
    if count + base > 256 {
        if base == 0 {
            Some(CustomDrawError::BindingSlotLimit)
        } else {
            Some(CustomDrawError::BufferSlotOverflow)
        }
    } else {
        None
    }
}

/// Assigns device slots to the bindings, buffers after the `base` vertex buffers.
pub fn build_entry_point_resources(bindings: &[CustomBindingDesc], base: u8) -> (r: Result<
    Vec<(CustomBindingSlot, BindTargetPlan)>,
    CustomDrawError,
>)
    ensures
        match slot_numbering_error(bindings@.len(), base) {
            Some(e) => r == Err::<Vec<(CustomBindingSlot, BindTargetPlan)>, CustomDrawError>(e),
            None => r matches Ok(v) && v@.len() == bindings@.len() && forall|i: int|
                0 <= i < bindings@.len() ==> #[trigger] v@[i] == (
                    resolved_slot(bindings@[i]),
                    bind_target_of(bindings@[i].kind, i as u8, (base + i) as u8),
                ),
        },
{
    let mut resources: Vec<(CustomBindingSlot, BindTargetPlan)> = Vec::new();
    let mut i: usize = 0;
    while i < bindings.len()
        invariant
            i <= bindings@.len(),
            i + base <= 256,
            resources@.len() == i,
            forall|j: int|
                0 <= j < i ==> #[trigger] resources@[j] == (
                    resolved_slot(bindings@[j]),
                    bind_target_of(bindings@[j].kind, j as u8, (base + j) as u8),
                ),
        decreases bindings@.len() - i,
    {
        if i > 255 {
            return Err(CustomDrawError::BindingSlotLimit);
        }
        let index = i as u8;
        let buffer_slot = match base.checked_add(index) {
            Some(slot) => slot,
            None => return Err(CustomDrawError::BufferSlotOverflow),
        };
        let binding = &bindings[i];
        let target = match binding.kind {
            CustomBindingKind::BufferArray { .. } => BindTargetPlan {
                buffer: Some(buffer_slot),
                texture: None,
                sampler: None,
                mutable: true,
            },
            CustomBindingKind::TextureArray { .. } | CustomBindingKind::StorageTextureArray { .. } => BindTargetPlan {
                buffer: Some(buffer_slot),
                texture: None,
                sampler: None,
                mutable: false,
            },
            CustomBindingKind::Texture | CustomBindingKind::StorageTexture => BindTargetPlan {
                buffer: None,
                texture: Some(index),
                sampler: None,
                mutable: false,
            },
            CustomBindingKind::Sampler => BindTargetPlan {
                buffer: None,
                texture: None,
                sampler: Some(index),
                mutable: false,
            },
            CustomBindingKind::Buffer => BindTargetPlan {
                buffer: Some(buffer_slot),
                texture: None,
                sampler: None,
                mutable: true,
            },
            CustomBindingKind::Uniform { .. } => BindTargetPlan {
                buffer: Some(buffer_slot),
                texture: None,
                sampler: None,
                mutable: false,
            },
        };
        resources.push((binding.resolved_slot(), target));
        i += 1;
    }
    Ok(resources)
}

/// The buffer slot of the push constants uniform: after the vertex buffers
/// and one slot per binding.
pub open spec fn push_constants_buffer_slot_of(base: u8, binding_count: nat) -> Result<u8, CustomDrawError> {
    if binding_count > 255 {
        Err(CustomDrawError::BindingSlotLimit)
    } else if base + binding_count > 255 {
        Err(CustomDrawError::PushConstantsSlotOverflow)
    } else {
        Ok((base + binding_count) as u8)
    }
}

/// Buffer slot of the push constants uniform.
pub fn push_constants_buffer_slot(base: u8, binding_count: usize) -> (r: Result<u8, CustomDrawError>)
    ensures
        r == push_constants_buffer_slot_of(base, binding_count as nat),
{
    if binding_count > 255 {
        return Err(CustomDrawError::BindingSlotLimit);
    }
    match base.checked_add(binding_count as u8) {
        Some(slot) => Ok(slot),
        None => Err(CustomDrawError::PushConstantsSlotOverflow),
    }
}

/// Buffer slots start after the vertex buffers, one per fetch.
pub fn buffer_binding_base(vertex_fetch_count: usize) -> (r: Result<u8, CustomDrawError>)
    ensures
        r == (if vertex_fetch_count > 255 {
            Err(CustomDrawError::TooManyVertexBuffers)
        } else {
            Ok(vertex_fetch_count as u8)
        }),
{
    if vertex_fetch_count > 255 {
        Err(CustomDrawError::TooManyVertexBuffers)
    } else {
        Ok(vertex_fetch_count as u8)
    }
}

/// Whether a binding kind is a binding array.
pub open spec fn is_array_kind(kind: CustomBindingKind) -> bool {
    kind is BufferArray || kind is TextureArray || kind is StorageTextureArray
}

/// Whether any binding is a binding array (these need argument buffers and
/// a newer shading language version).
pub fn has_binding_arrays(bindings: &[CustomBindingDesc]) -> (r: bool)
    ensures
        r == exists|i: int| 0 <= i < bindings@.len() && is_array_kind(#[trigger] bindings@[i].kind),
{
    let mut i: usize = 0;
    while i < bindings.len()
        invariant
            i <= bindings@.len(),
            forall|j: int| 0 <= j < i ==> !is_array_kind(#[trigger] bindings@[j].kind),
        decreases bindings@.len() - i,
    {
        match bindings[i].kind {
            CustomBindingKind::BufferArray { .. }
            | CustomBindingKind::TextureArray { .. }
            | CustomBindingKind::StorageTextureArray { .. } => {
                assert(is_array_kind(bindings@[i as int].kind));
                return true;
            },
            _ => {},
        }
        i += 1;
    }
    false
}

/// Shading language version: 2.0 with binding arrays, else 1.2.
pub fn msl_language_version(binding_arrays: bool) -> (r: (u8, u8))
    ensures
        r == (if binding_arrays { (2u8, 0u8) } else { (1u8, 2u8) }),
{
    if binding_arrays { (2, 0) } else { (1, 2) }
}

/// Whether any binding is a buffer array or a sampled texture array.
pub open spec fn uses_sampled_or_buffer_arrays(bindings: Seq<CustomBindingDesc>) -> bool {
    exists|i: int| 0 <= i < bindings.len() && ((#[trigger] bindings[i]).kind is BufferArray || bindings[i].kind is TextureArray)
}

/// Whether any binding is a storage texture array.
pub open spec fn uses_storage_texture_arrays(bindings: Seq<CustomBindingDesc>) -> bool {
    exists|i: int| 0 <= i < bindings.len() && (#[trigger] bindings[i]).kind is StorageTextureArray
}

/// How a pipeline's shader is validated: bindings are not checked against
/// address spaces (the pipeline assigns them), push constants are allowed,
/// buffer and texture arrays bring arrays of sampled textures, samplers and
/// storage buffers with non-uniform indexing, and storage texture arrays
/// bring arrays of storage textures with non-uniform indexing.
pub open spec fn validation_for(bindings: Seq<CustomBindingDesc>) -> ShaderValidation {
    let arrays = uses_sampled_or_buffer_arrays(bindings);
    let storage = uses_storage_texture_arrays(bindings);
    ShaderValidation {
        check_bindings: false,
        immediates: true,
        texture_and_sampler_arrays: arrays,
        texture_and_sampler_arrays_non_uniform: arrays,
        storage_buffer_arrays: arrays,
        storage_buffer_arrays_non_uniform: arrays,
        storage_texture_arrays: storage,
        storage_texture_arrays_non_uniform: storage,
    }
}

/// The validation settings the bindings need.
pub fn naga_capabilities(bindings: &[CustomBindingDesc]) -> (r: ShaderValidation)
    ensures
        r == validation_for(bindings@),
{
    let mut arrays = false;
    let mut storage = false;
    let mut i: usize = 0;
    while i < bindings.len()
        invariant
            i <= bindings@.len(),
            arrays == exists|j: int|
                0 <= j < i && ((#[trigger] bindings@[j]).kind is BufferArray || bindings@[j].kind is TextureArray),
            storage == exists|j: int| 0 <= j < i && (#[trigger] bindings@[j]).kind is StorageTextureArray,
        decreases bindings@.len() - i,
    {
        match bindings[i].kind {
            CustomBindingKind::BufferArray { .. } | CustomBindingKind::TextureArray { .. } => {
                arrays = true;
            },
            CustomBindingKind::StorageTextureArray { .. } => {
                storage = true;
            },
            _ => {},
        }
        proof {
            assert(bindings@[i as int] == bindings@[i as int]);
        }
        i += 1;
    }
    ShaderValidation {
        check_bindings: false,
        immediates: true,
        texture_and_sampler_arrays: arrays,
        texture_and_sampler_arrays_non_uniform: arrays,
        storage_buffer_arrays: arrays,
        storage_buffer_arrays_non_uniform: arrays,
        storage_texture_arrays: storage,
        storage_texture_arrays_non_uniform: storage,
    }
}

/// How the device language writer is set up: every binding comes from the
/// pipeline's map, workgroup memory is not zeroed and loops are not bounded.
pub open spec fn writer_settings_spec() -> MslWriterSettings {
    MslWriterSettings { fake_missing_bindings: false, zero_initialize_workgroup_memory: false, force_loop_bounding: false }
}

/// The device language writer settings of a pipeline.
pub fn writer_settings() -> (r: MslWriterSettings)
    ensures
        r == writer_settings_spec(),
{
    MslWriterSettings { fake_missing_bindings: false, zero_initialize_workgroup_memory: false, force_loop_bounding: false }
}

// ---------------------------------------------------------------------------
// Argument buffers of binding arrays
// ---------------------------------------------------------------------------

/// The last binding-array variable with explicit slot `slot`.
pub open spec fn binding_array_at(globals: Seq<ShaderGlobal>, slot: CustomBindingSlot) -> Option<nat>
    decreases globals.len(),
{
    if globals.len() == 0 {
        None
    } else if globals.last().binding == Some(slot) && globals.last().shape is BindingArray {
        Some((globals.len() - 1) as nat)
    } else {
        binding_array_at(globals.drop_last(), slot)
    }
}

/// Finds the binding-array variable at `slot`.
pub fn find_binding_array(globals: &Vec<ShaderGlobal>, slot: CustomBindingSlot) -> (r: Option<usize>)
    ensures
        r == (match binding_array_at(globals@, slot) {
            Some(i) => Some(i as usize),
            None => None,
        }),
{
    let mut found: Option<usize> = None;
    let mut i: usize = 0;
    proof {
        assert(globals@.take(0) =~= Seq::<ShaderGlobal>::empty());
    }
    while i < globals.len()
        invariant
            i <= globals@.len(),
            found == (match binding_array_at(globals@.take(i as int), slot) {
                Some(k) => Some(k as usize),
                None => None,
            }),
        decreases globals@.len() - i,
    {
        proof {
            assert(globals@.take(i + 1).drop_last() =~= globals@.take(i as int));
        }
        let is_array = match globals[i].shape {
            ShaderTypeShape::BindingArray { .. } => true,
            _ => false,
        };
        if globals[i].binding == Some(slot) && is_array {
            found = Some(i);
        }
        i += 1;
    }
    proof {
        assert(globals@.take(globals@.len() as int) =~= globals@);
    }
    found
}

/// Which entry point function encodes a binding array's argument buffer.
#[derive(Debug, Clone, Copy, PartialEq, Eq, Structural)]
pub enum ArgumentEncoderStage {
    /// The vertex (or compute) function.
    First,
    /// The fragment function.
    Second,
}

/// An argument buffer to create for a binding array.
#[derive(Debug, Clone, Copy, PartialEq, Eq, Structural)]
pub struct ArgumentBufferPlan {
    pub stage: ArgumentEncoderStage,
    pub buffer_slot: u64,
}

/// The argument buffer of binding `index`, or why there is none: binding
/// arrays need their variable in the shader and a stage that uses it (the
/// first stage preferred); other bindings need no argument buffer.
pub open spec fn argument_buffer_of(
    binding: CustomBindingDesc,
    index: nat,
    globals: Seq<ShaderGlobal>,
    first_used: Seq<bool>,
    second_used: Option<Seq<bool>>,
    base: u8,
) -> Result<Option<ArgumentBufferPlan>, CustomDrawError> {
    if !is_array_kind(binding.kind) {
        Ok(None)
    } else {
        match binding_array_at(globals, resolved_slot(binding)) {
            None => Err(CustomDrawError::BindingArrayNotFound { name: binding.name }),
            Some(g) => if first_used[g as int] {
                Ok(Some(ArgumentBufferPlan { stage: ArgumentEncoderStage::First, buffer_slot: (base + index) as u64 }))
            } else if second_used is Some && second_used.unwrap()[g as int] {
                Ok(Some(ArgumentBufferPlan { stage: ArgumentEncoderStage::Second, buffer_slot: (base + index) as u64 }))
            } else {
                Err(CustomDrawError::BindingArrayUnused { name: binding.name })
            },
        }
    }
}

/// The flags of an optional usage list.
pub open spec fn usage_view(usage: Option<&Vec<bool>>) -> Option<Seq<bool>> {
    match usage {
        Some(s) => Some(s@),
        None => None,
    }
}

/// What planning the argument buffers gives: one plan per binding, or the
/// error of the first binding that has none.
pub open spec fn argument_buffers_planned(
    r: Result<Vec<Option<ArgumentBufferPlan>>, CustomDrawError>,
    bindings: Seq<CustomBindingDesc>,
    globals: Seq<ShaderGlobal>,
    first_used: Seq<bool>,
    second_used: Option<Seq<bool>>,
    base: u8,
) -> bool {
    &&& r matches Ok(v) ==> v@.len() == bindings.len() && forall|i: int|
        0 <= i < bindings.len() ==> argument_buffer_of(bindings[i], i as nat, globals, first_used, second_used, base)
            == Ok::<Option<ArgumentBufferPlan>, CustomDrawError>(#[trigger] v@[i])
    &&& r matches Err(e) ==> exists|i: int|
        0 <= i < bindings.len() && (forall|j: int|
            0 <= j < i ==> #[trigger] argument_buffer_of(bindings[j], j as nat, globals, first_used, second_used, base)
                is Ok) && argument_buffer_of(bindings[i], i as nat, globals, first_used, second_used, base) == Err::<
            Option<ArgumentBufferPlan>,
            CustomDrawError,
        >(e)
}

/// Plans an argument buffer per binding (none for plain bindings), with
/// buffer slots after `base`; `first_used` and `second_used` say which
/// variables each stage uses.
pub fn plan_argument_buffers(
    bindings: &[CustomBindingDesc],
    globals: &Vec<ShaderGlobal>,
    first_used: &Vec<bool>,
    second_used: Option<&Vec<bool>>,
    base: u8,
) -> (r: Result<Vec<Option<ArgumentBufferPlan>>, CustomDrawError>)
    requires
        first_used@.len() == globals@.len(),
        second_used matches Some(s) ==> s@.len() == globals@.len(),
        bindings@.len() + 256 <= u64::MAX,
    ensures
        argument_buffers_planned(r, bindings@, globals@, first_used@, usage_view(second_used), base),
{
    let ghost second = usage_view(second_used);
    let mut plans: Vec<Option<ArgumentBufferPlan>> = Vec::new();
    let mut i: usize = 0;
    while i < bindings.len()
        invariant
            i <= bindings@.len(),
            first_used@.len() == globals@.len(),
            second_used matches Some(s) ==> s@.len() == globals@.len(),
            second == usage_view(second_used),
            bindings@.len() + 256 <= u64::MAX,
            plans@.len() == i,
            forall|j: int|
                0 <= j < i ==> argument_buffer_of(bindings@[j], j as nat, globals@, first_used@, second, base)
                    == Ok::<Option<ArgumentBufferPlan>, CustomDrawError>(#[trigger] plans@[j]),
        decreases bindings@.len() - i,
    {
        match argument_buffer_for(&bindings[i], i, globals, first_used, second_used, base) {
            Ok(plan) => plans.push(plan),
            Err(e) => {
                proof {
                    assert forall|j: int| 0 <= j < i implies #[trigger] argument_buffer_of(
                        bindings@[j],
                        j as nat,
                        globals@,
                        first_used@,
                        second,
                        base,
                    ) is Ok by {
                        assert(plans@[j] == plans@[j]);
                    }
                }
                return Err(e);
            },
        }
        i += 1;
    }
    Ok(plans)
}

fn argument_buffer_for(
    binding: &CustomBindingDesc,
    index: usize,
    globals: &Vec<ShaderGlobal>,
    first_used: &Vec<bool>,
    second_used: Option<&Vec<bool>>,
    base: u8,
) -> (r: Result<Option<ArgumentBufferPlan>, CustomDrawError>)
    requires
        first_used@.len() == globals@.len(),
        second_used matches Some(s) ==> s@.len() == globals@.len(),
        index + 256 <= u64::MAX,
    ensures
        r == argument_buffer_of(*binding, index as nat, globals@, first_used@, usage_view(second_used), base),
{
    let is_array = match binding.kind {
        CustomBindingKind::BufferArray { .. }
        | CustomBindingKind::TextureArray { .. }
        | CustomBindingKind::StorageTextureArray { .. } => true,
        _ => false,
    };
    if !is_array {
        return Ok(None);
    }
    let slot = binding.resolved_slot();
    proof {
        lemma_binding_array_at_bound(globals@, slot);
    }
    let g = match find_binding_array(globals, slot) {
        Some(g) => g,
        None => return Err(CustomDrawError::BindingArrayNotFound { name: binding.name }),
    };
    proof {
        let k = binding_array_at(globals@, slot).unwrap();
        assert(k < globals@.len());
        assert(globals@.len() == globals.len());
        assert(k == g as nat);
    }
    let buffer_slot = base as u64 + index as u64;
    if first_used[g] {
        return Ok(Some(ArgumentBufferPlan { stage: ArgumentEncoderStage::First, buffer_slot }));
    }
    let second_hit = match second_used {
        Some(s) => s[g],
        None => false,
    };
    if second_hit {
        Ok(Some(ArgumentBufferPlan { stage: ArgumentEncoderStage::Second, buffer_slot }))
    } else {
        Err(CustomDrawError::BindingArrayUnused { name: binding.name })
    }
}

proof fn lemma_binding_array_at_bound(globals: Seq<ShaderGlobal>, slot: CustomBindingSlot)
    ensures
        binding_array_at(globals, slot) matches Some(g) ==> g < globals.len(),
    decreases globals.len(),
{
    if globals.len() > 0 {
        lemma_binding_array_at_bound(globals.drop_last(), slot);
    }
}

} // verus!
