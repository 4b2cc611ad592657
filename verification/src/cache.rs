//! The cache of render pipelines by request: a request whose key equals an
//! earlier one's gets the pipeline created for that one.
use vstd::prelude::*;
use crate::keys::{
    BindingKey, PipelineCacheKey, PipelineSourceKey, PipelineStateKey, VertexAttributeKey, VertexFetchKey,
    is_cache_key, source_key_of,
};
use crate::shader::str_eq;
use crate::types::{CustomPipelineDesc, CustomPipelineId};
use crate::keys::PipelineLibrarySource;

verus! {

/// The shader source part of a key as a value: a tag, the source text, and
/// the hash and length of a device library.
pub open spec fn source_key_view(key: PipelineSourceKey) -> (u8, Seq<char>, u64, usize) {
    match key {
        PipelineSourceKey::Wgsl(text) => (0u8, text@, 0u64, 0usize),
        PipelineSourceKey::Msl(text) => (1u8, text@, 0u64, 0usize),
        PipelineSourceKey::Metallib { hash, len } => (2u8, Seq::empty(), hash, len),
    }
}

/// A vertex fetch key as a value.
pub open spec fn fetch_key_view(key: VertexFetchKey) -> (u32, bool, Seq<VertexAttributeKey>) {
    (key.stride, key.instanced, key.attributes@)
}

/// A render pipeline request key as a value: two requests share a pipeline
/// exactly when their keys have the same value.
pub open spec fn cache_key_view(key: PipelineCacheKey) -> (
    (u8, Seq<char>, u64, usize),
    Seq<char>,
    Seq<char>,
    u8,
    Seq<u64>,
    PipelineStateKey,
    Seq<(u32, bool, Seq<VertexAttributeKey>)>,
    Option<u32>,
    Seq<BindingKey>,
) {
    (
        source_key_view(key.source),
        key.vertex_entry@,
        key.fragment_entry@,
        key.primitive,
        key.color_formats@,
        key.state,
        key.vertex_fetches@.map_values(|f: VertexFetchKey| fetch_key_view(f)),
        key.push_constants,
        key.bindings@,
    )
}

/// Two request keys agree in every field: the same kind of shader source
/// with the same text (or the same device library hash and length), the
/// same entry point names, primitive, color formats, state, vertex fetches
/// (stride, step and attributes), push constants size and bindings.
pub open spec fn keys_agree(a: PipelineCacheKey, b: PipelineCacheKey) -> bool {
    &&& match (a.source, b.source) {
        (PipelineSourceKey::Wgsl(x), PipelineSourceKey::Wgsl(y)) => x@ == y@,
        (PipelineSourceKey::Msl(x), PipelineSourceKey::Msl(y)) => x@ == y@,
        (
            PipelineSourceKey::Metallib { hash: h1, len: l1 },
            PipelineSourceKey::Metallib { hash: h2, len: l2 },
        ) => h1 == h2 && l1 == l2,
        _ => false,
    }
    &&& a.vertex_entry@ == b.vertex_entry@
    &&& a.fragment_entry@ == b.fragment_entry@
    &&& a.primitive == b.primitive
    &&& a.color_formats@ == b.color_formats@
    &&& a.state == b.state
    &&& a.vertex_fetches@.len() == b.vertex_fetches@.len()
    &&& forall|i: int|
        0 <= i < a.vertex_fetches@.len() ==> (#[trigger] a.vertex_fetches@[i]).stride == b.vertex_fetches@[i].stride
            && a.vertex_fetches@[i].instanced == b.vertex_fetches@[i].instanced
            && a.vertex_fetches@[i].attributes@ == b.vertex_fetches@[i].attributes@
    &&& a.push_constants == b.push_constants
    &&& a.bindings@ == b.bindings@
}

/// Two request keys have the same value exactly when they agree in every
/// field; in particular keys with different color formats, entry points,
/// sources or bindings never share a pipeline.
pub proof fn lemma_same_key_value_iff_fields_agree(a: PipelineCacheKey, b: PipelineCacheKey)
    ensures
        (cache_key_view(a) == cache_key_view(b)) <==> keys_agree(a, b),
{
    let fa = a.vertex_fetches@.map_values(|f: VertexFetchKey| fetch_key_view(f));
    let fb = b.vertex_fetches@.map_values(|f: VertexFetchKey| fetch_key_view(f));
    if cache_key_view(a) == cache_key_view(b) {
        assert(fa == fb);
        assert(fa.len() == a.vertex_fetches@.len());
        assert forall|i: int| 0 <= i < a.vertex_fetches@.len() implies (#[trigger] a.vertex_fetches@[i]).stride
            == b.vertex_fetches@[i].stride && a.vertex_fetches@[i].instanced == b.vertex_fetches@[i].instanced
            && a.vertex_fetches@[i].attributes@ == b.vertex_fetches@[i].attributes@ by {
            assert(fa[i] == fb[i]);
        }
        assert(source_key_view(a.source) == source_key_view(b.source));
    }
    if keys_agree(a, b) {
        assert forall|i: int| 0 <= i < fa.len() implies fa[i] == fb[i] by {
            assert(a.vertex_fetches@[i].stride == b.vertex_fetches@[i].stride);
        }
        assert(fa =~= fb);
    }
}

/// Whether two shader source keys are the same.
fn same_source_key(a: &PipelineSourceKey, b: &PipelineSourceKey) -> (r: bool)
    ensures
        r == (source_key_view(*a) == source_key_view(*b)),
{
    match (a, b) {
        (PipelineSourceKey::Wgsl(x), PipelineSourceKey::Wgsl(y)) => str_eq(x.as_str(), y.as_str()),
        (PipelineSourceKey::Msl(x), PipelineSourceKey::Msl(y)) => str_eq(x.as_str(), y.as_str()),
        (
            PipelineSourceKey::Metallib { hash: h1, len: l1 },
            PipelineSourceKey::Metallib { hash: h2, len: l2 },
        ) => *h1 == *h2 && *l1 == *l2,
        _ => false,
    }
}

/// Whether two lists of numbers are the same.
fn same_numbers(a: &Vec<u64>, b: &Vec<u64>) -> (r: bool)
    ensures
        r == (a@ == b@),
{
    if a.len() != b.len() {
        return false;
    }
    let mut i: usize = 0;
    while i < a.len()
        invariant
            i <= a@.len(),
            a@.len() == b@.len(),
            forall|j: int| 0 <= j < i ==> a@[j] == b@[j],
        decreases a@.len() - i,
    {
        if a[i] != b[i] {
            return false;
        }
        i += 1;
    }
    assert(a@ =~= b@);
    true
}

/// Whether two lists of attribute keys are the same.
fn same_attribute_keys(a: &Vec<VertexAttributeKey>, b: &Vec<VertexAttributeKey>) -> (r: bool)
    ensures
        r == (a@ == b@),
{
    if a.len() != b.len() {
        return false;
    }
    let mut i: usize = 0;
    while i < a.len()
        invariant
            i <= a@.len(),
            a@.len() == b@.len(),
            forall|j: int| 0 <= j < i ==> a@[j] == b@[j],
        decreases a@.len() - i,
    {
        if a[i] != b[i] {
            return false;
        }
        i += 1;
    }
    assert(a@ =~= b@);
    true
}

/// Whether two lists of binding keys are the same.
fn same_binding_keys(a: &Vec<BindingKey>, b: &Vec<BindingKey>) -> (r: bool)
    ensures
        r == (a@ == b@),
{
    if a.len() != b.len() {
        return false;
    }
    let mut i: usize = 0;
    while i < a.len()
        invariant
            i <= a@.len(),
            a@.len() == b@.len(),
            forall|j: int| 0 <= j < i ==> a@[j] == b@[j],
        decreases a@.len() - i,
    {
        if a[i] != b[i] {
            return false;
        }
        i += 1;
    }
    assert(a@ =~= b@);
    true
}

/// Whether two lists of vertex fetch keys are the same.
fn same_fetch_keys(a: &Vec<VertexFetchKey>, b: &Vec<VertexFetchKey>) -> (r: bool)
    ensures
        r == (a@.map_values(|f: VertexFetchKey| fetch_key_view(f)) == b@.map_values(
            |f: VertexFetchKey| fetch_key_view(f),
        )),
{
    let ghost va = a@.map_values(|f: VertexFetchKey| fetch_key_view(f));
    let ghost vb = b@.map_values(|f: VertexFetchKey| fetch_key_view(f));
    if a.len() != b.len() {
        assert(va.len() != vb.len());
        return false;
    }
    let mut i: usize = 0;
    while i < a.len()
        invariant
            i <= a@.len(),
            a@.len() == b@.len(),
            va == a@.map_values(|f: VertexFetchKey| fetch_key_view(f)),
            vb == b@.map_values(|f: VertexFetchKey| fetch_key_view(f)),
            forall|j: int| 0 <= j < i ==> va[j] == vb[j],
        decreases a@.len() - i,
    {
        let x = &a[i];
        let y = &b[i];
        if x.stride != y.stride || x.instanced != y.instanced || !same_attribute_keys(&x.attributes, &y.attributes) {
            assert(va[i as int] != vb[i as int]);
            return false;
        }
        i += 1;
    }
    assert(va =~= vb);
    true
}

/// Whether two render pipeline request keys are the same.
pub fn same_cache_key(a: &PipelineCacheKey, b: &PipelineCacheKey) -> (r: bool)
    ensures
        r == (cache_key_view(*a) == cache_key_view(*b)),
        r == keys_agree(*a, *b),
{
    proof {
        lemma_same_key_value_iff_fields_agree(*a, *b);
    }
    same_source_key(&a.source, &b.source) && str_eq(a.vertex_entry.as_str(), b.vertex_entry.as_str()) && str_eq(
        a.fragment_entry.as_str(),
        b.fragment_entry.as_str(),
    ) && a.primitive == b.primitive && same_numbers(&a.color_formats, &b.color_formats) && a.state == b.state
        && same_fetch_keys(&a.vertex_fetches, &b.vertex_fetches) && a.push_constants == b.push_constants
        && same_binding_keys(&a.bindings, &b.bindings)
}

/// The pipeline each key value leads to, later entries winning.
pub open spec fn entries_map(entries: Seq<(PipelineCacheKey, CustomPipelineId)>) -> Map<
    (
        (u8, Seq<char>, u64, usize),
        Seq<char>,
        Seq<char>,
        u8,
        Seq<u64>,
        PipelineStateKey,
        Seq<(u32, bool, Seq<VertexAttributeKey>)>,
        Option<u32>,
        Seq<BindingKey>,
    ),
    CustomPipelineId,
>
    decreases entries.len(),
{
    if entries.len() == 0 {
        Map::empty()
    } else {
        entries_map(entries.drop_last()).insert(cache_key_view(entries.last().0), entries.last().1)
    }
}

/// Render pipelines already created, by request key.
pub struct PipelineCache {
    entries: Vec<(PipelineCacheKey, CustomPipelineId)>,
}

impl View for PipelineCache {
    type V = Map<
        (
            (u8, Seq<char>, u64, usize),
            Seq<char>,
            Seq<char>,
            u8,
            Seq<u64>,
            PipelineStateKey,
            Seq<(u32, bool, Seq<VertexAttributeKey>)>,
            Option<u32>,
            Seq<BindingKey>,
        ),
        CustomPipelineId,
    >;

    closed spec fn view(&self) -> Self::V {
        entries_map(self.entries@)
    }
}

/// Of the entries from `i` on, none has a key of value `k`, so the map of
/// all entries gives for `k` what the first `i` entries give.
proof fn lemma_entries_suffix(entries: Seq<(PipelineCacheKey, CustomPipelineId)>, i: int, k: (
    (u8, Seq<char>, u64, usize),
    Seq<char>,
    Seq<char>,
    u8,
    Seq<u64>,
    PipelineStateKey,
    Seq<(u32, bool, Seq<VertexAttributeKey>)>,
    Option<u32>,
    Seq<BindingKey>,
))
    requires
        0 <= i <= entries.len(),
        forall|j: int| i <= j < entries.len() ==> cache_key_view(#[trigger] entries[j].0) != k,
    ensures
        entries_map(entries).contains_key(k) == entries_map(entries.take(i)).contains_key(k),
        entries_map(entries)[k] == entries_map(entries.take(i))[k],
    decreases entries.len() - i,
{
    if i == entries.len() {
        assert(entries.take(i) =~= entries);
    } else {
        let shorter = entries.drop_last();
        assert(cache_key_view(entries[entries.len() - 1].0) != k);
        assert forall|j: int| i <= j < shorter.len() implies cache_key_view(#[trigger] shorter[j].0) != k by {
            assert(shorter[j] == entries[j]);
        }
        lemma_entries_suffix(shorter, i, k);
        assert(shorter.take(i) =~= entries.take(i));
    }
}

impl PipelineCache {
    /// The request keys recorded so far, in order.
    pub closed spec fn recorded(&self) -> Seq<PipelineCacheKey> {
        self.entries@.map_values(|e: (PipelineCacheKey, CustomPipelineId)| e.0)
    }

    /// An empty cache.
    pub fn new() -> (r: PipelineCache)
        ensures
            r@ == Map::<
                (
                    (u8, Seq<char>, u64, usize),
                    Seq<char>,
                    Seq<char>,
                    u8,
                    Seq<u64>,
                    PipelineStateKey,
                    Seq<(u32, bool, Seq<VertexAttributeKey>)>,
                    Option<u32>,
                    Seq<BindingKey>,
                ),
                CustomPipelineId,
            >::empty(),
            r.recorded() == Seq::<PipelineCacheKey>::empty(),
    {
        let r = PipelineCache { entries: Vec::new() };
        assert(r.recorded() =~= Seq::<PipelineCacheKey>::empty());
        r
    }

    /// The pipeline created for a request with key `key`, if any.
    pub fn get(&self, key: &PipelineCacheKey) -> (r: Option<CustomPipelineId>)
        ensures
            r == (if self@.contains_key(cache_key_view(*key)) {
                Some(self@[cache_key_view(*key)])
            } else {
                None
            }),
            r is Some <==> exists|i: int| 0 <= i < self.recorded().len() && keys_agree(#[trigger] self.recorded()[i], *key),
    {
        let ghost k = cache_key_view(*key);
        let mut i: usize = self.entries.len();
        while i > 0
            invariant
                i <= self.entries@.len(),
                k == cache_key_view(*key),
                forall|j: int| i <= j < self.entries@.len() ==> cache_key_view(#[trigger] self.entries@[j].0) != k,
                forall|j: int| i <= j < self.entries@.len() ==> !keys_agree(#[trigger] self.recorded()[j], *key),
                self.recorded().len() == self.entries@.len(),
            decreases i,
        {
            let entry = &self.entries[i - 1];
            if same_cache_key(&entry.0, key) {
                proof {
                    assert(self.recorded()[i - 1] == self.entries@[i - 1].0);
                    assert(keys_agree(self.recorded()[i - 1], *key));
                    lemma_entries_suffix(self.entries@, i as int, k);
                    assert(self.entries@.take(i as int).drop_last() =~= self.entries@.take(i - 1));
                }
                return Some(entry.1);
            }
            proof {
                assert(self.recorded()[i - 1] == self.entries@[i - 1].0);
            }
            i -= 1;
        }
        proof {
            lemma_entries_suffix(self.entries@, 0, k);
            assert(self.entries@.take(0) =~= Seq::<(PipelineCacheKey, CustomPipelineId)>::empty());
        }
        None
    }

    /// Records that requests with key `key` get pipeline `id`.
    pub fn insert(&mut self, key: PipelineCacheKey, id: CustomPipelineId)
        ensures
            final(self)@ == old(self)@.insert(cache_key_view(key), id),
            final(self).recorded() == old(self).recorded().push(key),
    {
        let ghost k = key;
        self.entries.push((key, id));
        proof {
            assert(self.entries@.drop_last() =~= old(self).entries@);
            assert(self.recorded() =~= old(self).recorded().push(k));
        }
    }
}

/// A render pipeline request whose description agrees with an earlier one
/// in everything the key holds (shader source, entry points, primitive,
/// resolved color formats, state, vertex fetches, push constants size and
/// bindings) has the same key value, so it finds the earlier pipeline in a
/// cache that recorded it.
pub proof fn lemma_identical_request_hits_cache(
    cache: Map<
        (
            (u8, Seq<char>, u64, usize),
            Seq<char>,
            Seq<char>,
            u8,
            Seq<u64>,
            PipelineStateKey,
            Seq<(u32, bool, Seq<VertexAttributeKey>)>,
            Option<u32>,
            Seq<BindingKey>,
        ),
        CustomPipelineId,
    >,
    first: CustomPipelineDesc,
    second: CustomPipelineDesc,
    source: PipelineLibrarySource,
    color_formats: Seq<u64>,
    first_key: PipelineCacheKey,
    second_key: PipelineCacheKey,
    id: CustomPipelineId,
)
    requires
        is_cache_key(first_key, first, source_key_of(first, source), color_formats),
        is_cache_key(second_key, second, source_key_of(second, source), color_formats),
        source_key_of(first, source) == source_key_of(second, source),
        first.vertex_entry@ == second.vertex_entry@,
        first.fragment_entry@ == second.fragment_entry@,
        first.primitive == second.primitive,
        first.state == second.state,
        first.vertex_fetches@ == second.vertex_fetches@,
        first.push_constants == second.push_constants,
        first.bindings@ == second.bindings@,
    ensures
        cache_key_view(first_key) == cache_key_view(second_key),
        cache.insert(cache_key_view(first_key), id).contains_key(cache_key_view(second_key)),
        cache.insert(cache_key_view(first_key), id)[cache_key_view(second_key)] == id,
{
    let a = first_key.vertex_fetches@.map_values(|f: VertexFetchKey| fetch_key_view(f));
    let b = second_key.vertex_fetches@.map_values(|f: VertexFetchKey| fetch_key_view(f));
    assert forall|i: int| 0 <= i < a.len() implies a[i] == b[i] by {
        assert(first.vertex_fetches@[i] == second.vertex_fetches@[i]);
    }
    assert(a =~= b);
    assert(first_key.bindings@ =~= second_key.bindings@);
}

} // verus!
