//! Validation of render and compute pipeline descriptions.
use vstd::prelude::*;
use crate::error::CustomDrawError;
use crate::texture::{CustomTextureFormat, format_is_compressed};
use crate::types::{
    CustomBindingDesc, CustomBindingKind, CustomBindingSlot, CustomComputePipelineDesc,
    CustomPipelineDesc, CustomPushConstantsDesc, CustomVertexAttribute, CustomVertexFetch,
    resolved_slot,
};

verus! {

/// Maximum number of resources in a binding array.
pub const MAX_BINDING_ARRAY_COUNT: u32 = 16;

/// Maximum number of color targets in a render pipeline.
pub const MAX_COLOR_TARGETS: usize = 8;

/// Maximum supported MSAA sample count for custom pipelines.
pub const MAX_SAMPLE_COUNT: u32 = 8;

/// Largest binding index a binding slot may use.
pub const MAX_BINDING_INDEX: u32 = 4096;

// ---------------------------------------------------------------------------
// Entry point names
// ---------------------------------------------------------------------------

/// Unicode `White_Space` characters, the ones `str::trim` removes.
pub open spec fn is_whitespace_char(c: char) -> bool {
    let v = c as u32;
    ||| 0x9 <= v <= 0xd
    ||| v == 0x20
    ||| v == 0x85
    ||| v == 0xa0
    ||| v == 0x1680
    ||| 0x2000 <= v <= 0x200a
    ||| v == 0x2028
    ||| v == 0x2029
    ||| v == 0x202f
    ||| v == 0x205f
    ||| v == 0x3000
}

/// A text is blank when trimming its whitespace leaves nothing.
pub open spec fn is_blank(s: Seq<char>) -> bool {
    forall|i: int| 0 <= i < s.len() ==> is_whitespace_char(#[trigger] s[i])
}

/// Whether `c` is a Unicode whitespace character.
pub fn is_whitespace(c: char) -> (r: bool)
    ensures
        r == is_whitespace_char(c),
{
    let v = c as u32;
    (0x9 <= v && v <= 0xd) || v == 0x20 || v == 0x85 || v == 0xa0 || v == 0x1680 || (0x2000 <= v
        && v <= 0x200a) || v == 0x2028 || v == 0x2029 || v == 0x202f || v == 0x205f || v == 0x3000
}

/// Whether `s` is empty once surrounding whitespace is trimmed.
pub fn text_is_blank(s: &str) -> (r: bool)
    ensures
        r == is_blank(s@),
{
    broadcast use vstd::string::axiom_spec_iter;
    let ghost text = s@;
    for c in it: s.chars()
        invariant
            it.seq() == text,
            text == s@,
            forall|j: int| 0 <= j < it.index() ==> is_whitespace_char(#[trigger] text[j]),
    {
        if !is_whitespace(c) {
            return false;
        }
    }
    true
}

// ---------------------------------------------------------------------------
// First failing check of a sequence
// ---------------------------------------------------------------------------

/// A check of one element given the elements before it.
pub type ElementCheck<T> = spec_fn(Seq<T>, T) -> Option<CustomDrawError>;

/// The error of the first element of `s` that fails `check`, scanning from
/// the front; `None` when every element passes.
pub open spec fn first_error<T>(s: Seq<T>, check: ElementCheck<T>) -> Option<CustomDrawError>
    decreases s.len(),
{
    if s.len() == 0 {
        None
    } else {
        match first_error(s.drop_last(), check) {
            Some(e) => Some(e),
            None => check(s.drop_last(), s.last()),
        }
    }
}

/// `a` when it holds an error, else `b`.
pub open spec fn either(a: Option<CustomDrawError>, b: Option<CustomDrawError>) -> Option<CustomDrawError> {
    match a {
        Some(e) => Some(e),
        None => b,
    }
}

/// The outcome of a validation whose first failure, if any, is `e`.
pub open spec fn outcome(e: Option<CustomDrawError>) -> Result<(), CustomDrawError> {
    match e {
        Some(e) => Err(e),
        None => Ok(()),
    }
}

/// One more element scanned: the prefix's error, else the new element's check.
pub proof fn lemma_first_error_step<T>(s: Seq<T>, i: int, check: ElementCheck<T>)
    requires
        0 <= i < s.len(),
    ensures
        first_error(s.take(i + 1), check) == either(
            first_error(s.take(i), check),
            check(s.take(i), s[i]),
        ),
{
    assert(s.take(i + 1).drop_last() =~= s.take(i));
}

/// Once a prefix fails, the whole sequence fails with the same error.
pub proof fn lemma_first_error_prefix<T>(s: Seq<T>, k: int, check: ElementCheck<T>)
    requires
        0 <= k <= s.len(),
        first_error(s.take(k), check) is Some,
    ensures
        first_error(s, check) == first_error(s.take(k), check),
    decreases s.len() - k,
{
    if k == s.len() {
        assert(s.take(k) =~= s);
    } else {
        lemma_first_error_step(s, k, check);
        lemma_first_error_prefix(s, k + 1, check);
    }
}

/// A scan that got through the whole sequence gives its result.
pub proof fn lemma_first_error_all<T>(s: Seq<T>, check: ElementCheck<T>)
    ensures
        first_error(s.take(s.len() as int), check) == first_error(s, check),
{
    assert(s.take(s.len() as int) =~= s);
}

// ---------------------------------------------------------------------------
// Push constants and sample counts
// ---------------------------------------------------------------------------

/// Push constant blocks are non-empty and a multiple of 16 bytes.
pub open spec fn push_constants_error(push: Option<CustomPushConstantsDesc>) -> Option<CustomDrawError> {
    match push {
        Some(p) => if p.size == 0 || p.size % 16 != 0 {
            Some(CustomDrawError::InvalidPushConstantsSize { size: p.size })
        } else {
            None
        },
        None => None,
    }
}

fn check_push_constants(push: Option<CustomPushConstantsDesc>) -> (r: Result<(), CustomDrawError>)
    ensures
        r == outcome(push_constants_error(push)),
{
    if let Some(p) = push {
        if p.size == 0 || p.size % 16 != 0 {
            return Err(CustomDrawError::InvalidPushConstantsSize { size: p.size });
        }
    }
    Ok(())
}

/// Powers of two: 1, 2, 4, 8, ...
pub open spec fn is_power_of_two(n: nat) -> bool
    decreases n,
{
    if n == 0 {
        false
    } else if n == 1 {
        true
    } else {
        n % 2 == 0 && is_power_of_two(n / 2)
    }
}

/// MSAA sample counts are powers of two between 1 and `MAX_SAMPLE_COUNT`.
pub open spec fn valid_sample_count(n: u32) -> bool {
    1 <= n <= MAX_SAMPLE_COUNT && is_power_of_two(n as nat)
}

/// Whether `n` is a supported MSAA sample count.
pub fn sample_count_is_valid(n: u32) -> (r: bool)
    ensures
        r == valid_sample_count(n),
{
    proof {
        reveal_with_fuel(is_power_of_two, 5);
    }
    n == 1 || n == 2 || n == 4 || n == 8
}

// ---------------------------------------------------------------------------
// Color targets
// ---------------------------------------------------------------------------

/// A render pipeline has at most `MAX_COLOR_TARGETS` color targets, none compressed.
pub open spec fn color_targets_error(targets: Seq<CustomTextureFormat>) -> Option<CustomDrawError> {
    if targets.len() > MAX_COLOR_TARGETS {
        Some(CustomDrawError::TooManyColorTargets { count: targets.len() as usize })
    } else if exists|i: int| 0 <= i < targets.len() && format_is_compressed(#[trigger] targets[i]) {
        Some(CustomDrawError::CompressedColorTarget)
    } else {
        None
    }
}

fn check_color_targets(targets: &Vec<CustomTextureFormat>) -> (r: Result<(), CustomDrawError>)
    ensures
        r == outcome(color_targets_error(targets@)),
{
    if targets.len() > MAX_COLOR_TARGETS {
        return Err(CustomDrawError::TooManyColorTargets { count: targets.len() });
    }
    let mut i: usize = 0;
    while i < targets.len()
        invariant
            i <= targets.len(),
            targets.len() <= MAX_COLOR_TARGETS,
            forall|j: int| 0 <= j < i ==> !format_is_compressed(#[trigger] targets@[j]),
        decreases targets.len() - i,
    {
        if targets[i].is_compressed() {
            assert(format_is_compressed(targets@[i as int]));
            return Err(CustomDrawError::CompressedColorTarget);
        }
        i += 1;
    }
    Ok(())
}

// ---------------------------------------------------------------------------
// Bindings
// ---------------------------------------------------------------------------

/// Uniform sizes are non-zero multiples of 16; array counts lie in
/// `1..=MAX_BINDING_ARRAY_COUNT`.
pub open spec fn binding_kind_error(kind: CustomBindingKind) -> Option<CustomDrawError> {
    match kind {
        CustomBindingKind::Uniform { size } => if size == 0 || size % 16 != 0 {
            Some(CustomDrawError::InvalidUniformSize { size })
        } else {
            None
        },
        CustomBindingKind::BufferArray { count } => array_count_error(count),
        CustomBindingKind::TextureArray { count } => array_count_error(count),
        CustomBindingKind::StorageTextureArray { count } => array_count_error(count),
        _ => None,
    }
}

/// Binding array counts lie in `1..=MAX_BINDING_ARRAY_COUNT`.
pub open spec fn array_count_error(count: u32) -> Option<CustomDrawError> {
    if count == 0 || count > MAX_BINDING_ARRAY_COUNT {
        Some(CustomDrawError::InvalidBindingArrayCount { count })
    } else {
        None
    }
}

/// The kind check, as an element check.
pub open spec fn kind_check() -> ElementCheck<CustomBindingDesc> {
    |prev: Seq<CustomBindingDesc>, b: CustomBindingDesc| binding_kind_error(b.kind)
}

/// A binding whose name an earlier binding already uses.
pub open spec fn name_check() -> ElementCheck<CustomBindingDesc> {
    |prev: Seq<CustomBindingDesc>, b: CustomBindingDesc|
        if exists|j: int| 0 <= j < prev.len() && (#[trigger] prev[j]).name == b.name {
            Some(CustomDrawError::DuplicateBindingName { name: b.name })
        } else {
            None
        }
}

/// A binding whose slot index is out of range, or whose slot an earlier
/// binding already occupies.
pub open spec fn slot_check() -> ElementCheck<CustomBindingDesc> {
    |prev: Seq<CustomBindingDesc>, b: CustomBindingDesc|
        if resolved_slot(b).binding > MAX_BINDING_INDEX {
            Some(CustomDrawError::BindingIndexOutOfRange { binding: resolved_slot(b).binding })
        } else if exists|j: int| 0 <= j < prev.len() && resolved_slot(#[trigger] prev[j]) == resolved_slot(b) {
            Some(CustomDrawError::DuplicateBindingSlot {
                group: resolved_slot(b).group,
                binding: resolved_slot(b).binding,
            })
        } else {
            None
        }
}

fn check_binding_kind(kind: CustomBindingKind) -> (r: Result<(), CustomDrawError>)
    ensures
        r == outcome(binding_kind_error(kind)),
{
    match kind {
        CustomBindingKind::Uniform { size } => {
            if size == 0 || size % 16 != 0 {
                return Err(CustomDrawError::InvalidUniformSize { size });
            }
        },
        CustomBindingKind::BufferArray { count }
        | CustomBindingKind::TextureArray { count }
        | CustomBindingKind::StorageTextureArray { count } => {
            if count == 0 || count > MAX_BINDING_ARRAY_COUNT {
                return Err(CustomDrawError::InvalidBindingArrayCount { count });
            }
        },
        _ => {},
    }
    Ok(())
}

fn check_binding_kinds(bindings: &Vec<CustomBindingDesc>) -> (r: Result<(), CustomDrawError>)
    ensures
        r == outcome(first_error(bindings@, kind_check())),
{
    let ghost s = bindings@;
    let mut i: usize = 0;
    while i < bindings.len()
        invariant
            i <= bindings.len(),
            s == bindings@,
            first_error(s.take(i as int), kind_check()) is None,
        decreases bindings.len() - i,
    {
        proof {
            lemma_first_error_step(s, i as int, kind_check());
        }
        let checked = check_binding_kind(bindings[i].kind);
        if checked.is_err() {
            proof {
                lemma_first_error_prefix(s, i + 1, kind_check());
            }
            return checked;
        }
        i += 1;
    }
    proof {
        lemma_first_error_all(s, kind_check());
    }
    Ok(())
}

fn check_binding_names(bindings: &Vec<CustomBindingDesc>) -> (r: Result<(), CustomDrawError>)
    ensures
        r == outcome(first_error(bindings@, name_check())),
{
    let ghost s = bindings@;
    let mut i: usize = 0;
    while i < bindings.len()
        invariant
            i <= bindings.len(),
            s == bindings@,
            first_error(s.take(i as int), name_check()) is None,
        decreases bindings.len() - i,
    {
        proof {
            lemma_first_error_step(s, i as int, name_check());
        }
        let name = bindings[i].name;
        let mut j: usize = 0;
        while j < i
            invariant
                j <= i < bindings.len(),
                s == bindings@,
                name == s[i as int].name,
                first_error(s.take(i as int), name_check()) is None,
                forall|k: int| 0 <= k < j ==> (#[trigger] s[k]).name != name,
            decreases i - j,
        {
            if bindings[j].name == name {
                proof {
                    lemma_first_error_step(s, i as int, name_check());
                    assert(s.take(i as int)[j as int] == s[j as int]);
                    lemma_first_error_prefix(s, i + 1, name_check());
                }
                return Err(CustomDrawError::DuplicateBindingName { name });
            }
            j += 1;
        }
        proof {
            assert forall|k: int| 0 <= k < s.take(i as int).len() implies (#[trigger] s.take(i as int)[k]).name != name by {
                assert(s.take(i as int)[k] == s[k]);
            }
        }
        i += 1;
    }
    proof {
        lemma_first_error_all(s, name_check());
    }
    Ok(())
}

fn check_binding_slots(bindings: &Vec<CustomBindingDesc>) -> (r: Result<(), CustomDrawError>)
    ensures
        r == outcome(first_error(bindings@, slot_check())),
{
    let ghost s = bindings@;
    let mut seen: Vec<CustomBindingSlot> = Vec::new();
    let mut i: usize = 0;
    while i < bindings.len()
        invariant
            i <= bindings.len(),
            s == bindings@,
            seen@.len() == i,
            forall|k: int| 0 <= k < i ==> #[trigger] seen@[k] == resolved_slot(s[k]),
            first_error(s.take(i as int), slot_check()) is None,
        decreases bindings.len() - i,
    {
        proof {
            lemma_first_error_step(s, i as int, slot_check());
        }
        let slot = bindings[i].resolved_slot();
        if slot.binding > MAX_BINDING_INDEX {
            proof {
                lemma_first_error_prefix(s, i + 1, slot_check());
            }
            return Err(CustomDrawError::BindingIndexOutOfRange { binding: slot.binding });
        }
        let mut j: usize = 0;
        while j < i
            invariant
                j <= i < bindings.len(),
                s == bindings@,
                seen@.len() == i,
                forall|k: int| 0 <= k < i ==> #[trigger] seen@[k] == resolved_slot(s[k]),
                slot == resolved_slot(s[i as int]),
                slot.binding <= MAX_BINDING_INDEX,
                first_error(s.take(i as int), slot_check()) is None,
                forall|k: int| 0 <= k < j ==> resolved_slot(#[trigger] s[k]) != slot,
            decreases i - j,
        {
            if seen[j] == slot {
                proof {
                    lemma_first_error_step(s, i as int, slot_check());
                    assert(s.take(i as int)[j as int] == s[j as int]);
                    assert(resolved_slot(s.take(i as int)[j as int]) == slot);
                    lemma_first_error_prefix(s, i + 1, slot_check());
                }
                return Err(
                    CustomDrawError::DuplicateBindingSlot { group: slot.group, binding: slot.binding },
                );
            }
            j += 1;
        }
        proof {
            assert forall|k: int| 0 <= k < s.take(i as int).len() implies resolved_slot(
                #[trigger] s.take(i as int)[k],
            ) != slot by {
                assert(s.take(i as int)[k] == s[k]);
            }
        }
        seen.push(slot);
        i += 1;
    }
    proof {
        lemma_first_error_all(s, slot_check());
    }
    Ok(())
}

// ---------------------------------------------------------------------------
// Vertex attribute locations
// ---------------------------------------------------------------------------

/// The attributes of all vertex fetches, in fetch order.
pub open spec fn fetch_attributes(fetches: Seq<CustomVertexFetch>) -> Seq<CustomVertexAttribute>
    decreases fetches.len(),
{
    if fetches.len() == 0 {
        Seq::empty()
    } else {
        fetch_attributes(fetches.drop_last()) + fetches.last().layout.attributes@
    }
}

/// An attribute whose explicit location an earlier attribute already uses.
pub open spec fn location_check() -> ElementCheck<CustomVertexAttribute> {
    |prev: Seq<CustomVertexAttribute>, a: CustomVertexAttribute|
        match a.location {
            Some(l) => if exists|j: int| 0 <= j < prev.len() && (#[trigger] prev[j]).location == Some(l) {
                Some(CustomDrawError::DuplicateVertexLocation { location: l })
            } else {
                None
            },
            None => None,
        }
}

/// Taking one more fetch appends its attributes.
pub proof fn lemma_fetch_attributes_step(fetches: Seq<CustomVertexFetch>, k: int)
    requires
        0 <= k < fetches.len(),
    ensures
        fetch_attributes(fetches.take(k + 1)) == fetch_attributes(fetches.take(k))
            + fetches[k].layout.attributes@,
{
    assert(fetches.take(k + 1).drop_last() =~= fetches.take(k));
}

/// The attributes of the first `k` fetches begin the attributes of all fetches.
pub proof fn lemma_fetch_attributes_prefix(fetches: Seq<CustomVertexFetch>, k: int)
    requires
        0 <= k <= fetches.len(),
    ensures
        fetch_attributes(fetches.take(k)).len() <= fetch_attributes(fetches).len(),
        fetch_attributes(fetches).take(fetch_attributes(fetches.take(k)).len() as int)
            == fetch_attributes(fetches.take(k)),
    decreases fetches.len() - k,
{
    if k == fetches.len() {
        assert(fetches.take(k) =~= fetches);
        assert(fetch_attributes(fetches).take(fetch_attributes(fetches).len() as int) =~= fetch_attributes(fetches));
    } else {
        lemma_fetch_attributes_step(fetches, k);
        lemma_fetch_attributes_prefix(fetches, k + 1);
        let a = fetch_attributes(fetches.take(k));
        let b = fetch_attributes(fetches.take(k + 1));
        let all = fetch_attributes(fetches);
        assert(all.take(a.len() as int) =~= b.take(a.len() as int));
        assert(b.take(a.len() as int) =~= a);
    }
}

/// A failing prefix decides the outcome of the whole sequence.
pub proof fn lemma_first_error_of_prefix<T>(s: Seq<T>, p: Seq<T>, check: ElementCheck<T>)
    requires
        p.len() <= s.len(),
        s.take(p.len() as int) == p,
        first_error(p, check) is Some,
    ensures
        first_error(s, check) == first_error(p, check),
{
    lemma_first_error_prefix(s, p.len() as int, check);
}

/// Appending one element: the earlier error, else the new element's check.
pub proof fn lemma_first_error_push<T>(s: Seq<T>, x: T, check: ElementCheck<T>)
    ensures
        first_error(s.push(x), check) == either(first_error(s, check), check(s, x)),
{
    assert(s.push(x).drop_last() =~= s);
}

/// Whether `x` occurs in `v`.
pub fn contains_u32(v: &Vec<u32>, x: u32) -> (r: bool)
    ensures
        r == v@.contains(x),
{
    let mut i: usize = 0;
    while i < v.len()
        invariant
            i <= v.len(),
            forall|j: int| 0 <= j < i ==> v@[j] != x,
        decreases v.len() - i,
    {
        if v[i] == x {
            assert(v@[i as int] == x);
            return true;
        }
        i += 1;
    }
    false
}

/// The explicit locations used by a sequence of attributes.
pub open spec fn uses_location(attrs: Seq<CustomVertexAttribute>, l: u32) -> bool {
    exists|j: int| 0 <= j < attrs.len() && (#[trigger] attrs[j]).location == Some(l)
}

fn check_vertex_locations(fetches: &Vec<CustomVertexFetch>) -> (r: Result<(), CustomDrawError>)
    ensures
        r == outcome(first_error(fetch_attributes(fetches@), location_check())),
{
    let ghost all = fetch_attributes(fetches@);
    let ghost mut done: Seq<CustomVertexAttribute> = Seq::empty();
    let mut seen: Vec<u32> = Vec::new();
    let mut fi: usize = 0;
    assert(fetches@.take(0) =~= Seq::<CustomVertexFetch>::empty());
    while fi < fetches.len()
        invariant
            fi <= fetches.len(),
            all == fetch_attributes(fetches@),
            done == fetch_attributes(fetches@.take(fi as int)),
            first_error(done, location_check()) is None,
            forall|l: u32| #[trigger] seen@.contains(l) <==> uses_location(done, l),
        decreases fetches.len() - fi,
    {
        let attrs = &fetches[fi].layout.attributes;
        let ghost base = done;
        let mut ai: usize = 0;
        assert(attrs@.take(0) =~= Seq::<CustomVertexAttribute>::empty());
        assert(done =~= base + attrs@.take(0));
        while ai < attrs.len()
            invariant
                fi < fetches.len(),
                ai <= attrs.len(),
                attrs@ == fetches@[fi as int].layout.attributes@,
                all == fetch_attributes(fetches@),
                base == fetch_attributes(fetches@.take(fi as int)),
                done == base + attrs@.take(ai as int),
                first_error(done, location_check()) is None,
                forall|l: u32| #[trigger] seen@.contains(l) <==> uses_location(done, l),
            decreases attrs.len() - ai,
        {
            let ghost next = done.push(attrs@[ai as int]);
            proof {
                lemma_first_error_push(done, attrs@[ai as int], location_check());
                assert(next =~= base + attrs@.take(ai + 1));
            }
            if let Some(l) = attrs[ai].location {
                if contains_u32(&seen, l) {
                    proof {
                        assert(uses_location(done, l));
                        lemma_fetch_attributes_step(fetches@, fi as int);
                        lemma_fetch_attributes_prefix(fetches@, fi + 1);
                        let upto = fetch_attributes(fetches@.take(fi + 1));
                        assert(upto =~= base + attrs@);
                        assert(all.take(next.len() as int) =~= upto.take(next.len() as int));
                        assert(upto.take(next.len() as int) =~= next);
                        lemma_first_error_of_prefix(all, next, location_check());
                    }
                    return Err(CustomDrawError::DuplicateVertexLocation { location: l });
                }
                proof {
                    assert(!uses_location(done, l));
                }
                let ghost before = seen@;
                seen.push(l);
                proof {
                    assert(seen@ == before.push(l));
                    assert forall|m: u32| #[trigger] seen@.contains(m) <==> uses_location(next, m) by {
                        assert(before.contains(m) <==> uses_location(done, m));
                        if seen@.contains(m) {
                            let k = choose|k: int| 0 <= k < seen@.len() && seen@[k] == m;
                            if k < before.len() {
                                assert(before[k] == m);
                                assert(before.contains(m));
                                let j = choose|j: int| 0 <= j < done.len() && (#[trigger] done[j]).location == Some(m);
                                assert(next[j] == done[j]);
                            } else {
                                assert(next[done.len() as int].location == Some(m));
                            }
                        }
                        if uses_location(next, m) {
                            let j = choose|j: int| 0 <= j < next.len() && (#[trigger] next[j]).location == Some(m);
                            if j < done.len() {
                                assert(done[j] == next[j]);
                                assert(uses_location(done, m));
                                let k = choose|k: int| 0 <= k < before.len() && before[k] == m;
                                assert(seen@[k] == m);
                            } else {
                                assert(seen@[seen@.len() - 1] == m);
                            }
                        }
                    }
                }
            } else {
                proof {
                    assert forall|m: u32| #[trigger] seen@.contains(m) <==> uses_location(next, m) by {
                        if uses_location(next, m) {
                            let j = choose|j: int| 0 <= j < next.len() && (#[trigger] next[j]).location == Some(m);
                            assert(j < done.len());
                            assert(done[j] == next[j]);
                        }
                        if uses_location(done, m) {
                            let j = choose|j: int| 0 <= j < done.len() && (#[trigger] done[j]).location == Some(m);
                            assert(done[j] == next[j]);
                        }
                    }
                }
            }
            proof {
                done = next;
            }
            ai += 1;
        }
        proof {
            lemma_fetch_attributes_step(fetches@, fi as int);
            assert(attrs@.take(attrs@.len() as int) =~= attrs@);
        }
        fi += 1;
    }
    proof {
        assert(fetches@.take(fetches@.len() as int) =~= fetches@);
    }
    Ok(())
}

// ---------------------------------------------------------------------------
// Whole descriptions
// ---------------------------------------------------------------------------

/// Sample counts must be valid MSAA sample counts.
pub open spec fn sample_count_error(count: u32) -> Option<CustomDrawError> {
    if valid_sample_count(count) {
        None
    } else {
        Some(CustomDrawError::InvalidSampleCount { count })
    }
}

/// The binding checks shared by render and compute pipelines, in order:
/// kinds, then name uniqueness.
pub open spec fn binding_kind_and_name_error(bindings: Seq<CustomBindingDesc>) -> Option<CustomDrawError> {
    either(first_error(bindings, kind_check()), first_error(bindings, name_check()))
}

/// The first reason a render pipeline description is refused, in the order
/// the checks run: entry names, push constants, sample count, color
/// targets, binding kinds, binding names, vertex locations, binding slots.
pub open spec fn pipeline_desc_error(desc: CustomPipelineDesc) -> Option<CustomDrawError> {
    if is_blank(desc.vertex_entry@) {
        Some(CustomDrawError::EmptyVertexEntry)
    } else if is_blank(desc.fragment_entry@) {
        Some(CustomDrawError::EmptyFragmentEntry)
    } else {
        either(
            push_constants_error(desc.push_constants),
            either(
                sample_count_error(desc.state.sample_count),
                either(
                    color_targets_error(desc.color_targets@),
                    either(
                        binding_kind_and_name_error(desc.bindings@),
                        either(
                            first_error(fetch_attributes(desc.vertex_fetches@), location_check()),
                            first_error(desc.bindings@, slot_check()),
                        ),
                    ),
                ),
            ),
        )
    }
}

/// The first reason a compute pipeline description is refused, in the order
/// the checks run: entry name, push constants, binding kinds, binding
/// names, binding slots.
pub open spec fn compute_pipeline_desc_error(desc: CustomComputePipelineDesc) -> Option<CustomDrawError> {
    if is_blank(desc.entry_point@) {
        Some(CustomDrawError::EmptyComputeEntry)
    } else {
        either(
            push_constants_error(desc.push_constants),
            either(
                binding_kind_and_name_error(desc.bindings@),
                first_error(desc.bindings@, slot_check()),
            ),
        )
    }
}

/// Checks a render pipeline description before any backend work.
pub fn validate_custom_pipeline_desc(desc: &CustomPipelineDesc) -> (r: Result<(), CustomDrawError>)
    ensures
        r == outcome(pipeline_desc_error(*desc)),
        r is Ok ==> forall|i: int| 0 <= i < desc.bindings@.len() ==> binding_kind_usable(#[trigger] desc.bindings@[i].kind),
{
    proof {
        if pipeline_desc_error(*desc) is None {
            assert forall|i: int| 0 <= i < desc.bindings@.len() implies binding_kind_usable(#[trigger] desc.bindings@[i].kind) by {
                lemma_accepted_pipeline_binding_kinds(*desc, i);
            }
        }
    }
    if text_is_blank(desc.vertex_entry.as_str()) {
        return Err(CustomDrawError::EmptyVertexEntry);
    }
    if text_is_blank(desc.fragment_entry.as_str()) {
        return Err(CustomDrawError::EmptyFragmentEntry);
    }
    if let Err(e) = check_push_constants(desc.push_constants) {
        return Err(e);
    }
    if !sample_count_is_valid(desc.state.sample_count) {
        return Err(CustomDrawError::InvalidSampleCount { count: desc.state.sample_count });
    }
    if let Err(e) = check_color_targets(&desc.color_targets) {
        return Err(e);
    }
    if let Err(e) = check_binding_kinds(&desc.bindings) {
        return Err(e);
    }
    if let Err(e) = check_binding_names(&desc.bindings) {
        return Err(e);
    }
    if let Err(e) = check_vertex_locations(&desc.vertex_fetches) {
        return Err(e);
    }
    check_binding_slots(&desc.bindings)
}

/// Checks a compute pipeline description before any backend work.
pub fn validate_custom_compute_pipeline_desc(desc: &CustomComputePipelineDesc) -> (r: Result<
    (),
    CustomDrawError,
>)
    ensures
        r == outcome(compute_pipeline_desc_error(*desc)),
        r is Ok ==> forall|i: int| 0 <= i < desc.bindings@.len() ==> binding_kind_usable(#[trigger] desc.bindings@[i].kind),
{
    proof {
        if compute_pipeline_desc_error(*desc) is None {
            assert forall|i: int| 0 <= i < desc.bindings@.len() implies binding_kind_usable(#[trigger] desc.bindings@[i].kind) by {
                lemma_accepted_compute_binding_kinds(*desc, i);
            }
        }
    }
    if text_is_blank(desc.entry_point.as_str()) {
        return Err(CustomDrawError::EmptyComputeEntry);
    }
    if let Err(e) = check_push_constants(desc.push_constants) {
        return Err(e);
    }
    if let Err(e) = check_binding_kinds(&desc.bindings) {
        return Err(e);
    }
    if let Err(e) = check_binding_names(&desc.bindings) {
        return Err(e);
    }
    check_binding_slots(&desc.bindings)
}

// ---------------------------------------------------------------------------
// What an accepted description guarantees
// ---------------------------------------------------------------------------

/// Every element of a sequence without a failing element passes its check.
pub proof fn lemma_first_error_none_at<T>(s: Seq<T>, check: ElementCheck<T>, i: int)
    requires
        first_error(s, check) is None,
        0 <= i < s.len(),
    ensures
        check(s.take(i), s[i]) is None,
    decreases s.len(),
{
    if i == s.len() - 1 {
        assert(s.take(i) =~= s.drop_last());
    } else {
        lemma_first_error_none_at(s.drop_last(), check, i);
        assert(s.drop_last().take(i) =~= s.take(i));
    }
}

/// Bindings that pass the name and slot checks have distinct names and
/// distinct slots.
proof fn lemma_checked_bindings_distinct(bindings: Seq<CustomBindingDesc>, i: int, j: int)
    requires
        first_error(bindings, name_check()) is None,
        first_error(bindings, slot_check()) is None,
        0 <= i < j < bindings.len(),
    ensures
        bindings[i].name != bindings[j].name,
        resolved_slot(bindings[i]) != resolved_slot(bindings[j]),
{
    lemma_first_error_none_at(bindings, name_check(), j);
    lemma_first_error_none_at(bindings, slot_check(), j);
    assert(bindings.take(j)[i] == bindings[i]);
}

/// An accepted render pipeline description declares every binding name
/// once and every binding slot once.
pub proof fn lemma_accepted_pipeline_bindings_distinct(desc: CustomPipelineDesc, i: int, j: int)
    requires
        pipeline_desc_error(desc) is None,
        0 <= i < j < desc.bindings@.len(),
    ensures
        desc.bindings@[i].name != desc.bindings@[j].name,
        resolved_slot(desc.bindings@[i]) != resolved_slot(desc.bindings@[j]),
{
    lemma_checked_bindings_distinct(desc.bindings@, i, j);
}

/// An accepted compute pipeline description declares every binding name
/// once and every binding slot once.
pub proof fn lemma_accepted_compute_bindings_distinct(desc: CustomComputePipelineDesc, i: int, j: int)
    requires
        compute_pipeline_desc_error(desc) is None,
        0 <= i < j < desc.bindings@.len(),
    ensures
        desc.bindings@[i].name != desc.bindings@[j].name,
        resolved_slot(desc.bindings@[i]) != resolved_slot(desc.bindings@[j]),
{
    lemma_checked_bindings_distinct(desc.bindings@, i, j);
}

/// In an accepted render pipeline description no two vertex attributes
/// share an explicit shader location.
pub proof fn lemma_accepted_pipeline_locations_distinct(desc: CustomPipelineDesc, i: int, j: int)
    requires
        pipeline_desc_error(desc) is None,
        0 <= i < j < fetch_attributes(desc.vertex_fetches@).len(),
        fetch_attributes(desc.vertex_fetches@)[i].location is Some,
    ensures
        fetch_attributes(desc.vertex_fetches@)[i].location != fetch_attributes(desc.vertex_fetches@)[j].location,
{
    let all = fetch_attributes(desc.vertex_fetches@);
    lemma_first_error_none_at(all, location_check(), j);
    assert(all.take(j)[i] == all[i]);
}

/// A binding kind that a pipeline can use: uniform buffers hold a non-zero
/// multiple of 16 bytes, and binding arrays hold 1 to 16 elements.
pub open spec fn binding_kind_usable(kind: CustomBindingKind) -> bool {
    match kind {
        CustomBindingKind::Uniform { size } => size > 0 && size % 16 == 0,
        CustomBindingKind::BufferArray { count } => 1 <= count && count <= 16,
        CustomBindingKind::TextureArray { count } => 1 <= count && count <= 16,
        CustomBindingKind::StorageTextureArray { count } => 1 <= count && count <= 16,
        _ => true,
    }
}

/// A binding kind that passes the kind check is usable.
proof fn lemma_kind_check_usable(bindings: Seq<CustomBindingDesc>, i: int)
    requires
        first_error(bindings, kind_check()) is None,
        0 <= i < bindings.len(),
    ensures
        binding_kind_usable(bindings[i].kind),
{
    lemma_first_error_none_at(bindings, kind_check(), i);
}

/// Every binding of an accepted render pipeline description has a usable
/// kind: uniform sizes are non-zero multiples of 16 and array counts lie in
/// 1..=16.
pub proof fn lemma_accepted_pipeline_binding_kinds(desc: CustomPipelineDesc, i: int)
    requires
        pipeline_desc_error(desc) is None,
        0 <= i < desc.bindings@.len(),
    ensures
        binding_kind_usable(desc.bindings@[i].kind),
{
    lemma_kind_check_usable(desc.bindings@, i);
}

/// Every binding of an accepted compute pipeline description has a usable
/// kind, exactly as for render pipelines.
pub proof fn lemma_accepted_compute_binding_kinds(desc: CustomComputePipelineDesc, i: int)
    requires
        compute_pipeline_desc_error(desc) is None,
        0 <= i < desc.bindings@.len(),
    ensures
        binding_kind_usable(desc.bindings@[i].kind),
{
    lemma_kind_check_usable(desc.bindings@, i);
}

} // verus!
