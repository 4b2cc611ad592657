//! Shader input locations of vertex attributes: explicit locations are
//! kept, the other attributes take the free locations in order.
use vstd::prelude::*;
use crate::error::CustomDrawError;
use crate::keys::vertex_attribute_name_key;
use crate::types::{
    CustomVertexAttribute, CustomVertexAttributeName, CustomVertexFetch, CustomVertexFormat, attribute_slot,
};
use crate::validate::{
    contains_u32, fetch_attributes, first_error, lemma_first_error_none_at, lemma_fetch_attributes_step, lemma_first_error_all,
    lemma_fetch_attributes_prefix, lemma_first_error_prefix, lemma_first_error_step, location_check, uses_location,
};

verus! {

/// The location of the last attribute named `name` that has an explicit one.
pub open spec fn explicit_location(attrs: Seq<CustomVertexAttribute>, name: CustomVertexAttributeName) -> Option<u32>
    decreases attrs.len(),
{
    if attrs.len() == 0 {
        None
    } else if attrs.last().name == name && attrs.last().location is Some {
        attrs.last().location
    } else {
        explicit_location(attrs.drop_last(), name)
    }
}

/// The names in `attrs` that no attribute of `all` gives an explicit
/// location, in order of first appearance.
pub open spec fn implicit_order(all: Seq<CustomVertexAttribute>, attrs: Seq<CustomVertexAttribute>) -> Seq<
    CustomVertexAttributeName,
>
    decreases attrs.len(),
{
    if attrs.len() == 0 {
        Seq::empty()
    } else {
        let earlier = implicit_order(all, attrs.drop_last());
        let name = attrs.last().name;
        if explicit_location(all, name) is None && !earlier.contains(name) {
            earlier.push(name)
        } else {
            earlier
        }
    }
}

/// `v` is the first location after `prev` (from 0 when `None`) that no
/// attribute of `all` uses explicitly.
pub open spec fn next_free_location(all: Seq<CustomVertexAttribute>, prev: Option<u32>, v: u32) -> bool {
    &&& !uses_location(all, v)
    &&& match prev {
        None => forall|w: u32| w < v ==> uses_location(all, w),
        Some(p) => p < v && forall|w: u32| p < w < v ==> uses_location(all, w),
    }
}

/// The location of each attribute name (indexed by slot number): explicit
/// names keep their last explicit location; the other names that occur
/// take the free locations in order of first appearance; names that do
/// not occur have none.
pub open spec fn locations_assigned(all: Seq<CustomVertexAttribute>, locs: Seq<Option<u32>>) -> bool {
    let order = implicit_order(all, all);
    &&& locs.len() == 8
    &&& forall|n: CustomVertexAttributeName|
        #![trigger locs[attribute_slot(n) as int]]
        explicit_location(all, n) is Some ==> locs[attribute_slot(n) as int] == explicit_location(all, n)
    &&& forall|n: CustomVertexAttributeName|
        #![trigger locs[attribute_slot(n) as int]]
        explicit_location(all, n) is None && !order.contains(n) ==> locs[attribute_slot(n) as int] is None
    &&& forall|k: int|
        #![trigger order[k]]
        0 <= k < order.len() ==> locs[attribute_slot(order[k]) as int] is Some && next_free_location(
            all,
            if k == 0 {
                None
            } else {
                locs[attribute_slot(order[k - 1]) as int]
            },
            locs[attribute_slot(order[k]) as int].unwrap(),
        )
}

/// Shader input location of each vertex attribute name.
#[derive(Debug, Clone)]
pub struct CustomAttributeLocations {
    by_slot: Vec<Option<u32>>,
}

impl View for CustomAttributeLocations {
    type V = Seq<Option<u32>>;

    closed spec fn view(&self) -> Seq<Option<u32>> {
        self.by_slot@
    }
}

impl CustomAttributeLocations {
    /// The location of attribute `name`, if it has one.
    pub fn get(&self, name: CustomVertexAttributeName) -> (r: Option<u32>)
        requires
            self@.len() == 8,
        ensures
            r == self@[attribute_slot(name) as int],
    {
        self.by_slot[vertex_attribute_name_key(name) as usize]
    }
}

/// The attributes of all fetches, in order.
pub fn flatten_attributes(fetches: &Vec<CustomVertexFetch>) -> (r: Vec<CustomVertexAttribute>)
    ensures
        r@ == fetch_attributes(fetches@),
{
    let mut out: Vec<CustomVertexAttribute> = Vec::new();
    let mut f: usize = 0;
    proof {
        assert(fetches@.take(0) =~= Seq::<CustomVertexFetch>::empty());
    }
    while f < fetches.len()
        invariant
            f <= fetches@.len(),
            out@ == fetch_attributes(fetches@.take(f as int)),
        decreases fetches@.len() - f,
    {
        proof {
            lemma_fetch_attributes_step(fetches@, f as int);
        }
        let attrs = &fetches[f].layout.attributes;
        let ghost base = out@;
        let mut a: usize = 0;
        proof {
            assert(base + attrs@.take(0) =~= base);
        }
        while a < attrs.len()
            invariant
                a <= attrs@.len(),
                out@ == base + attrs@.take(a as int),
            decreases attrs@.len() - a,
        {
            out.push(attrs[a]);
            proof {
                assert(base + attrs@.take(a + 1) =~= (base + attrs@.take(a as int)).push(attrs@[a as int]));
            }
            a += 1;
        }
        proof {
            assert(attrs@.take(attrs@.len() as int) =~= attrs@);
        }
        f += 1;
    }
    proof {
        assert(fetches@.take(fetches@.len() as int) =~= fetches@);
    }
    out
}

/// A list holding every number below `n` has at least `n` entries.
proof fn lemma_covering_list_len(s: Seq<u32>, n: nat)
    requires
        forall|w: u32| (w as nat) < n ==> s.contains(w),
        n <= u32::MAX as nat + 1,
    ensures
        n <= s.len(),
    decreases n,
{
    if n > 0 {
        let top = (n - 1) as u32;
        assert(s.contains(top));
        let idx = choose|i: int| 0 <= i < s.len() && s[i] == top;
        let rest = s.remove(idx);
        assert forall|w: u32| (w as nat) < n - 1 implies rest.contains(w) by {
            assert(s.contains(w));
            let j = choose|j: int| 0 <= j < s.len() && s[j] == w;
            if j < idx {
                assert(rest[j] == w);
            } else {
                assert(j != idx);
                assert(rest[j - 1] == w);
            }
        }
        lemma_covering_list_len(rest, (n - 1) as nat);
    }
}

proof fn lemma_explicit_location_step(attrs: Seq<CustomVertexAttribute>, i: int, n: CustomVertexAttributeName)
    requires
        0 <= i < attrs.len(),
    ensures
        explicit_location(attrs.take(i + 1), n) == (if attrs[i].name == n && attrs[i].location is Some {
            attrs[i].location
        } else {
            explicit_location(attrs.take(i), n)
        }),
{
    assert(attrs.take(i + 1).drop_last() =~= attrs.take(i));
}

proof fn lemma_implicit_order_step(all: Seq<CustomVertexAttribute>, i: int)
    requires
        0 <= i < all.len(),
    ensures
        implicit_order(all, all.take(i + 1)) == (if explicit_location(all, all[i].name) is None
            && !implicit_order(all, all.take(i)).contains(all[i].name) {
            implicit_order(all, all.take(i)).push(all[i].name)
        } else {
            implicit_order(all, all.take(i))
        }),
{
    assert(all.take(i + 1).drop_last() =~= all.take(i));
}

/// Implicit names are distinct.
proof fn lemma_implicit_order_distinct(all: Seq<CustomVertexAttribute>, attrs: Seq<CustomVertexAttribute>)
    ensures
        forall|a: int, b: int|
            0 <= a < b < implicit_order(all, attrs).len() ==> implicit_order(all, attrs)[a] != implicit_order(
                all,
                attrs,
            )[b],
        forall|k: int|
            0 <= k < implicit_order(all, attrs).len() ==> explicit_location(
                all,
                #[trigger] implicit_order(all, attrs)[k],
            ) is None,
    decreases attrs.len(),
{
    if attrs.len() > 0 {
        lemma_implicit_order_distinct(all, attrs.drop_last());
    }
}

/// Distinct attribute names number at most eight.
proof fn lemma_distinct_names_len(s: Seq<CustomVertexAttributeName>, bound: nat)
    requires
        forall|a: int, b: int| 0 <= a < b < s.len() ==> s[a] != s[b],
        forall|k: int| 0 <= k < s.len() ==> attribute_slot(#[trigger] s[k]) < bound,
    ensures
        s.len() <= bound,
    decreases bound,
{
    if bound > 0 && s.len() > 0 {
        let top = (bound - 1) as nat;
        if exists|k: int| 0 <= k < s.len() && attribute_slot(s[k]) == top {
            let idx = choose|k: int| 0 <= k < s.len() && attribute_slot(s[k]) == top;
            let rest = s.remove(idx);
            assert forall|k: int| 0 <= k < rest.len() implies attribute_slot(#[trigger] rest[k]) < top by {
                let j = if k < idx { k } else { k + 1 };
                assert(rest[k] == s[j]);
                assert(j != idx);
                if attribute_slot(s[j]) == top {
                    assert(s[j] == s[idx]);
                }
            }
            assert forall|a: int, b: int| 0 <= a < b < rest.len() implies rest[a] != rest[b] by {
                let ja = if a < idx { a } else { a + 1 };
                let jb = if b < idx { b } else { b + 1 };
                assert(rest[a] == s[ja] && rest[b] == s[jb]);
            }
            lemma_distinct_names_len(rest, top);
        } else {
            lemma_distinct_names_len(s, top);
        }
    } else if bound == 0 && s.len() > 0 {
        assert(attribute_slot(s[0]) < 0);
    }
}

/// Explicit locations: unique, and the last one of each name wins.
fn explicit_locations(attrs: &Vec<CustomVertexAttribute>) -> (r: Result<
    (Vec<Option<u32>>, Vec<u32>),
    CustomDrawError,
>)
    ensures
        match first_error(attrs@, location_check()) {
            Some(e) => r == Err::<(Vec<Option<u32>>, Vec<u32>), CustomDrawError>(e),
            None => r matches Ok((locs, used)) && {
                &&& locs@.len() == 8
                &&& used@.len() <= attrs@.len()
                &&& forall|l: u32| #[trigger] used@.contains(l) <==> uses_location(attrs@, l)
                &&& forall|n: CustomVertexAttributeName|
                    #![trigger locs@[attribute_slot(n) as int]]
                    locs@[attribute_slot(n) as int] == explicit_location(attrs@, n)
            },
        },
{
    let ghost all = attrs@;
    let mut locs: Vec<Option<u32>> = vec![None, None, None, None, None, None, None, None];
    let mut used: Vec<u32> = Vec::new();
    let mut i: usize = 0;
    proof {
        assert(all.take(0) =~= Seq::<CustomVertexAttribute>::empty());
    }
    while i < attrs.len()
        invariant
            i <= attrs@.len(),
            all == attrs@,
            locs@.len() == 8,
            first_error(all.take(i as int), location_check()) is None,
            forall|l: u32| #[trigger] used@.contains(l) <==> uses_location(all.take(i as int), l),
            used@.len() <= i,
            forall|n: CustomVertexAttributeName|
                #![trigger locs@[attribute_slot(n) as int]]
                locs@[attribute_slot(n) as int] == explicit_location(all.take(i as int), n),
        decreases attrs@.len() - i,
    {
        let ghost done = all.take(i as int);
        let ghost next = all.take(i + 1);
        proof {
            lemma_first_error_step(all, i as int, location_check());
            assert(next =~= done.push(all[i as int]));
        }
        let attr = attrs[i];
        if let Some(l) = attr.location {
            if contains_u32(&used, l) {
                proof {
                    let j = choose|j: int| 0 <= j < done.len() && (#[trigger] done[j]).location == Some(l);
                    assert(done[j] == done[j]);
                    lemma_first_error_prefix(all, i + 1, location_check());
                }
                return Err(CustomDrawError::DuplicateVertexLocation { location: l });
            }
            let ghost before = used@;
            used.push(l);
            let slot = vertex_attribute_name_key(attr.name) as usize;
            locs.set(slot, Some(l));
            proof {
                assert forall|m: u32| #[trigger] used@.contains(m) <==> uses_location(next, m) by {
                    if used@.contains(m) {
                        let k = choose|k: int| 0 <= k < used@.len() && used@[k] == m;
                        if k < before.len() {
                            assert(before[k] == m);
                            assert(before.contains(m));
                            let j = choose|j: int| 0 <= j < done.len() && (#[trigger] done[j]).location == Some(m);
                            assert(next[j] == done[j]);
                        } else {
                            assert(next[i as int].location == Some(m));
                        }
                    }
                    if uses_location(next, m) {
                        let j = choose|j: int| 0 <= j < next.len() && (#[trigger] next[j]).location == Some(m);
                        if j < done.len() {
                            assert(done[j] == next[j]);
                            assert(uses_location(done, m));
                            assert(before.contains(m));
                            let k = choose|k: int| 0 <= k < before.len() && before[k] == m;
                            assert(used@[k] == m);
                        } else {
                            assert(used@[used@.len() - 1] == m);
                        }
                    }
                }
                assert forall|n: CustomVertexAttributeName| true implies #[trigger] locs@[attribute_slot(n) as int]
                    == explicit_location(next, n) by {
                    lemma_explicit_location_step(all, i as int, n);
                    if attribute_slot(n) == attribute_slot(attr.name) {
                        assert(n == attr.name);
                    }
                }
            }
        } else {
            proof {
                assert forall|m: u32| #[trigger] used@.contains(m) <==> uses_location(next, m) by {
                    if uses_location(next, m) {
                        let j = choose|j: int| 0 <= j < next.len() && (#[trigger] next[j]).location == Some(m);
                        assert(j < done.len());
                        assert(done[j] == next[j]);
                    }
                    if uses_location(done, m) {
                        let j = choose|j: int| 0 <= j < done.len() && (#[trigger] done[j]).location == Some(m);
                        assert(done[j] == next[j]);
                    }
                }
                assert forall|n: CustomVertexAttributeName| true implies #[trigger] locs@[attribute_slot(n) as int]
                    == explicit_location(next, n) by {
                    lemma_explicit_location_step(all, i as int, n);
                }
            }
        }
        i += 1;
    }
    proof {
        lemma_first_error_all(all, location_check());
        assert(all.take(all.len() as int) =~= all);
    }
    Ok((locs, used))
}

/// Takes the first number from `start` that `used` lacks, and records it.
fn take_free_location(used: &mut Vec<u32>, start: u32) -> (v: u32)
    requires
        forall|w: u32| w < start ==> #[trigger] old(used)@.contains(w),
        old(used)@.len() < u32::MAX,
    ensures
        start <= v,
        !old(used)@.contains(v),
        forall|w: u32| start <= w < v ==> #[trigger] old(used)@.contains(w),
        final(used)@ == old(used)@.push(v),
        v < u32::MAX,
{
    let mut next = start;
    while contains_u32(used, next)
        invariant
            start <= next,
            used@ == old(used)@,
            used@.len() < u32::MAX,
            forall|w: u32| w < next ==> #[trigger] used@.contains(w),
            forall|w: u32| start <= w < next ==> #[trigger] used@.contains(w),
        decreases u32::MAX - next,
    {
        proof {
            assert forall|w: u32| (w as nat) < (next + 1) as nat implies used@.contains(w) by {
                if w < next {
                } else {
                    assert(w == next);
                }
            }
            lemma_covering_list_len(used@, (next + 1) as nat);
        }
        next = next + 1;
    }
    proof {
        lemma_covering_list_len(used@, next as nat);
    }
    used.push(next);
    next
}

/// The invariant of the implicit pass after `i` attributes.
spec fn implicit_pass_inv(
    all: Seq<CustomVertexAttribute>,
    i: int,
    locs: Seq<Option<u32>>,
    used: Seq<u32>,
    next: u32,
) -> bool {
    let order = implicit_order(all, all.take(i));
    &&& locs.len() == 8
    &&& forall|n: CustomVertexAttributeName|
        #![trigger locs[attribute_slot(n) as int]]
        explicit_location(all, n) is Some ==> locs[attribute_slot(n) as int] == explicit_location(all, n)
    &&& forall|n: CustomVertexAttributeName|
        #![trigger locs[attribute_slot(n) as int]]
        explicit_location(all, n) is None ==> (locs[attribute_slot(n) as int] is Some <==> order.contains(n))
    &&& forall|k: int|
        #![trigger order[k]]
        0 <= k < order.len() ==> {
            &&& locs[attribute_slot(order[k]) as int] is Some
            &&& locs[attribute_slot(order[k]) as int].unwrap() < next
            &&& next_free_location(
                all,
                if k == 0 {
                    None
                } else {
                    locs[attribute_slot(order[k - 1]) as int]
                },
                locs[attribute_slot(order[k]) as int].unwrap(),
            )
        }
    &&& order.len() == 0 ==> next == 0
    &&& order.len() > 0 ==> next == locs[attribute_slot(order.last()) as int].unwrap() + 1
    &&& forall|w: u32| w < next ==> #[trigger] used.contains(w)
    &&& forall|w: u32| #[trigger] used.contains(w) ==> uses_location(all, w) || w < next
    &&& forall|w: u32| uses_location(all, w) ==> #[trigger] used.contains(w)
}

/// One step of the implicit pass for an attribute whose name has no location yet.
#[verifier::spinoff_prover]
#[verifier::rlimit(40)]
proof fn lemma_implicit_assign(
    all: Seq<CustomVertexAttribute>,
    i: int,
    locs: Seq<Option<u32>>,
    used: Seq<u32>,
    next: u32,
    v: u32,
    new_used: Seq<u32>,
)
    requires
        0 <= i < all.len(),
        implicit_pass_inv(all, i, locs, used, next),
        locs[attribute_slot(all[i].name) as int] is None,
        next <= v < u32::MAX,
        !used.contains(v),
        forall|w: u32| next <= w < v ==> #[trigger] used.contains(w),
        new_used == used.push(v),
    ensures
        implicit_pass_inv(all, i + 1, locs.update(attribute_slot(all[i].name) as int, Some(v)), new_used, (v + 1) as u32),
{
    let name = all[i].name;
    let order = implicit_order(all, all.take(i));
    let new_locs = locs.update(attribute_slot(name) as int, Some(v));
    let new_order = order.push(name);
    lemma_implicit_order_step(all, i);
    lemma_implicit_order_distinct(all, all.take(i));
    assert(explicit_location(all, name) is None);
    assert(!order.contains(name));
    assert(implicit_order(all, all.take(i + 1)) == new_order);
    assert(!uses_location(all, v));
    assert forall|k: int| #![trigger new_order[k]] 0 <= k < new_order.len() implies {
        &&& new_locs[attribute_slot(new_order[k]) as int] is Some
        &&& new_locs[attribute_slot(new_order[k]) as int].unwrap() < v + 1
        &&& next_free_location(
            all,
            if k == 0 {
                None
            } else {
                new_locs[attribute_slot(new_order[k - 1]) as int]
            },
            new_locs[attribute_slot(new_order[k]) as int].unwrap(),
        )
    } by {
        if k < order.len() {
            assert(new_order[k] == order[k]);
            assert(order[k] != name);
            assert(attribute_slot(order[k]) != attribute_slot(name));
            if k > 0 {
                assert(new_order[k - 1] == order[k - 1]);
                assert(order[k - 1] != name);
                assert(attribute_slot(order[k - 1]) != attribute_slot(name));
            }
        } else {
            assert(new_order[k] == name);
            if k == 0 {
                assert forall|w: u32| w < v implies uses_location(all, w) by {
                    assert(used.contains(w));
                }
            } else {
                let p = locs[attribute_slot(order[k - 1]) as int].unwrap();
                assert(new_order[k - 1] == order[k - 1]);
                assert(order[k - 1] != name);
                assert(attribute_slot(order[k - 1]) != attribute_slot(name));
                assert(order.last() == order[k - 1]);
                assert(p + 1 == next);
                assert forall|w: u32| p < w < v implies uses_location(all, w) by {
                    assert(used.contains(w));
                }
            }
        }
    }
    assert forall|n: CustomVertexAttributeName| explicit_location(all, n) is None implies (
    #[trigger] new_locs[attribute_slot(n) as int] is Some <==> new_order.contains(n)) by {
        if n == name {
            assert(new_order[new_order.len() - 1] == name);
        } else {
            assert(attribute_slot(n) != attribute_slot(name));
            if order.contains(n) {
                let k = choose|k: int| 0 <= k < order.len() && order[k] == n;
                assert(new_order[k] == n);
            }
            if new_order.contains(n) {
                let k = choose|k: int| 0 <= k < new_order.len() && new_order[k] == n;
                assert(k < order.len());
                assert(order[k] == n);
            }
        }
    }
    assert forall|n: CustomVertexAttributeName| explicit_location(all, n) is Some implies #[trigger] new_locs[attribute_slot(
        n,
    ) as int] == explicit_location(all, n) by {
        if n != name {
            assert(attribute_slot(n) != attribute_slot(name));
        }
    }
    assert(new_order.last() == name);
    assert forall|w: u32| w < v + 1 implies #[trigger] new_used.contains(w) by {
        if w < v {
            assert(used.contains(w));
            let k = choose|k: int| 0 <= k < used.len() && used[k] == w;
            assert(new_used[k] == w);
        } else {
            assert(new_used[new_used.len() - 1] == w);
        }
    }
    assert forall|w: u32| #[trigger] new_used.contains(w) implies uses_location(all, w) || w < v + 1 by {
        let k = choose|k: int| 0 <= k < new_used.len() && new_used[k] == w;
        if k < used.len() {
            assert(used[k] == w);
            assert(used.contains(w));
        }
    }
    assert forall|w: u32| uses_location(all, w) implies #[trigger] new_used.contains(w) by {
        assert(used.contains(w));
        let k = choose|k: int| 0 <= k < used.len() && used[k] == w;
        assert(new_used[k] == w);
    }
}

/// Assigns a shader input location to every attribute name that occurs:
/// explicit locations must be unique and are kept; the other names take
/// the free locations in order of first appearance.
pub fn build_attribute_locations(fetches: &Vec<CustomVertexFetch>) -> (r: Result<
    CustomAttributeLocations,
    CustomDrawError,
>)
    requires
        fetch_attributes(fetches@).len() + 8 < u32::MAX,
    ensures
        match first_error(fetch_attributes(fetches@), location_check()) {
            Some(e) => r == Err::<CustomAttributeLocations, CustomDrawError>(e),
            None => r matches Ok(l) && locations_assigned(fetch_attributes(fetches@), l@),
        },
{
    let attrs = flatten_attributes(fetches);
    let ghost all = attrs@;
    let (mut locs, mut used) = match explicit_locations(&attrs) {
        Ok(pair) => pair,
        Err(e) => return Err(e),
    };
    let ghost explicit_count = used@.len();
    let mut next: u32 = 0;
    let mut i: usize = 0;
    proof {
        assert(all.take(0) =~= Seq::<CustomVertexAttribute>::empty());
        assert forall|w: u32| #[trigger] used@.contains(w) implies uses_location(all, w) || w < next by {
        }
    }
    while i < attrs.len()
        invariant
            i <= attrs@.len(),
            all == attrs@,
            all.len() + 8 < u32::MAX,
            explicit_count <= all.len(),
            used@.len() == explicit_count + implicit_order(all, all.take(i as int)).len(),
            implicit_pass_inv(all, i as int, locs@, used@, next),
        decreases attrs@.len() - i,
    {
        proof {
            lemma_implicit_order_step(all, i as int);
            lemma_implicit_order_distinct(all, all.take(i as int));
            lemma_distinct_names_len(implicit_order(all, all.take(i as int)), 8);
        }
        let name = attrs[i].name;
        let slot = vertex_attribute_name_key(name) as usize;
        if locs[slot].is_none() {
            let ghost before_locs = locs@;
            let ghost before_used = used@;
            let v = take_free_location(&mut used, next);
            proof {
                assert(!implicit_order(all, all.take(i as int)).contains(name));
                assert(explicit_location(all, name) is None);
                lemma_implicit_assign(all, i as int, before_locs, before_used, next, v, used@);
            }
            locs.set(slot, Some(v));
            next = v + 1;
        } else {
            proof {
                let order = implicit_order(all, all.take(i as int));
                assert(explicit_location(all, name) is Some || order.contains(name));
                assert(implicit_order(all, all.take(i + 1)) == order);
            }
        }
        i += 1;
    }
    proof {
        assert(all.take(all.len() as int) =~= all);
    }
    Ok(CustomAttributeLocations { by_slot: locs })
}

// ---------------------------------------------------------------------------
// What an assignment guarantees
// ---------------------------------------------------------------------------

/// An explicit location comes from an attribute of that name.
proof fn lemma_explicit_location_witness(attrs: Seq<CustomVertexAttribute>, n: CustomVertexAttributeName)
    ensures
        explicit_location(attrs, n) matches Some(l) ==> exists|i: int|
            0 <= i < attrs.len() && (#[trigger] attrs[i]).name == n && attrs[i].location == Some(l),
    decreases attrs.len(),
{
    if attrs.len() > 0 {
        lemma_explicit_location_witness(attrs.drop_last(), n);
        if !(attrs.last().name == n && attrs.last().location is Some) {
            if let Some(l) = explicit_location(attrs, n) {
                let i = choose|i: int|
                    0 <= i < attrs.drop_last().len() && (#[trigger] attrs.drop_last()[i]).name == n
                        && attrs.drop_last()[i].location == Some(l);
                assert(attrs[i] == attrs.drop_last()[i]);
            }
        } else {
            assert(attrs[attrs.len() - 1] == attrs.last());
        }
    }
}

/// A name without an explicit location that occurs in `attrs` is in their
/// implicit order.
proof fn lemma_implicit_order_has(
    all: Seq<CustomVertexAttribute>,
    attrs: Seq<CustomVertexAttribute>,
    i: int,
)
    requires
        0 <= i < attrs.len(),
        explicit_location(all, attrs[i].name) is None,
    ensures
        implicit_order(all, attrs).contains(attrs[i].name),
    decreases attrs.len(),
{
    let name = attrs[i].name;
    let earlier = implicit_order(all, attrs.drop_last());
    if i == attrs.len() - 1 {
        if earlier.contains(name) {
            let k = choose|k: int| 0 <= k < earlier.len() && earlier[k] == name;
            assert(implicit_order(all, attrs)[k] == name);
        } else {
            assert(implicit_order(all, attrs) == earlier.push(name));
            assert(implicit_order(all, attrs)[earlier.len() as int] == name);
        }
    } else {
        assert(attrs.drop_last()[i].name == name);
        lemma_implicit_order_has(all, attrs.drop_last(), i);
        let k = choose|k: int| 0 <= k < earlier.len() && earlier[k] == name;
        assert(implicit_order(all, attrs)[k] == name);
    }
}

/// Later names of the implicit order get higher locations.
proof fn lemma_implicit_locations_increase(all: Seq<CustomVertexAttribute>, locs: Seq<Option<u32>>, a: int, b: int)
    requires
        locations_assigned(all, locs),
        0 <= a < b < implicit_order(all, all).len(),
    ensures
        locs[attribute_slot(implicit_order(all, all)[a]) as int].unwrap() < locs[attribute_slot(
            implicit_order(all, all)[b],
        ) as int].unwrap(),
    decreases b - a,
{
    let order = implicit_order(all, all);
    assert(next_free_location(
        all,
        locs[attribute_slot(order[b - 1]) as int],
        locs[attribute_slot(order[b]) as int].unwrap(),
    ));
    if a < b - 1 {
        lemma_implicit_locations_increase(all, locs, a, b - 1);
    }
}

/// Every attribute name that occurs gets a shader input location.
pub proof fn lemma_every_attribute_located(all: Seq<CustomVertexAttribute>, locs: Seq<Option<u32>>, k: int)
    requires
        locations_assigned(all, locs),
        0 <= k < all.len(),
    ensures
        locs[attribute_slot(all[k].name) as int] is Some,
{
    let name = all[k].name;
    if explicit_location(all, name) is None {
        lemma_implicit_order_has(all, all, k);
        let order = implicit_order(all, all);
        let j = choose|j: int| 0 <= j < order.len() && order[j] == name;
        assert(locs[attribute_slot(order[j]) as int] is Some);
    }
}

/// When explicit locations are unique, no two attribute names share a
/// shader input location.
pub proof fn lemma_attribute_locations_distinct(
    all: Seq<CustomVertexAttribute>,
    locs: Seq<Option<u32>>,
    a: CustomVertexAttributeName,
    b: CustomVertexAttributeName,
)
    requires
        locations_assigned(all, locs),
        first_error(all, location_check()) is None,
        a != b,
        locs[attribute_slot(a) as int] is Some,
        locs[attribute_slot(b) as int] is Some,
    ensures
        locs[attribute_slot(a) as int] != locs[attribute_slot(b) as int],
{
    let order = implicit_order(all, all);
    lemma_explicit_location_witness(all, a);
    lemma_explicit_location_witness(all, b);
    lemma_implicit_order_distinct(all, all);
    let la = locs[attribute_slot(a) as int].unwrap();
    let lb = locs[attribute_slot(b) as int].unwrap();
    match (explicit_location(all, a), explicit_location(all, b)) {
        (Some(xa), Some(xb)) => {
            let ia = choose|i: int| 0 <= i < all.len() && (#[trigger] all[i]).name == a && all[i].location == Some(xa);
            let ib = choose|i: int| 0 <= i < all.len() && (#[trigger] all[i]).name == b && all[i].location == Some(xb);
            if xa == xb {
                if ia < ib {
                    lemma_first_error_none_at(all, location_check(), ib);
                    assert(all.take(ib)[ia] == all[ia]);
                } else {
                    lemma_first_error_none_at(all, location_check(), ia);
                    assert(all.take(ia)[ib] == all[ib]);
                }
            }
        },
        (Some(xa), None) => {
            let ia = choose|i: int| 0 <= i < all.len() && (#[trigger] all[i]).name == a && all[i].location == Some(xa);
            assert(order.contains(b));
            let kb = choose|k: int| 0 <= k < order.len() && order[k] == b;
            assert(!uses_location(all, locs[attribute_slot(order[kb]) as int].unwrap()));
            assert(all[ia].location == Some(xa));
        },
        (None, Some(xb)) => {
            let ib = choose|i: int| 0 <= i < all.len() && (#[trigger] all[i]).name == b && all[i].location == Some(xb);
            assert(order.contains(a));
            let ka = choose|k: int| 0 <= k < order.len() && order[k] == a;
            assert(!uses_location(all, locs[attribute_slot(order[ka]) as int].unwrap()));
            assert(all[ib].location == Some(xb));
        },
        (None, None) => {
            assert(order.contains(a));
            assert(order.contains(b));
            let ka = choose|k: int| 0 <= k < order.len() && order[k] == a;
            let kb = choose|k: int| 0 <= k < order.len() && order[k] == b;
            if ka < kb {
                lemma_implicit_locations_increase(all, locs, ka, kb);
            } else {
                lemma_implicit_locations_increase(all, locs, kb, ka);
            }
        },
    }
}

// ---------------------------------------------------------------------------
// Vertex descriptor
// ---------------------------------------------------------------------------

/// Where the device reads one vertex attribute from.
#[derive(Debug, Clone, Copy, PartialEq, Eq, Structural)]
pub struct VertexAttributePlan {
    /// Shader input location.
    pub location: u32,
    /// Attribute format.
    pub format: CustomVertexFormat,
    /// Byte offset within the vertex.
    pub offset: u32,
}

/// The plan of an attribute whose name has a location.
pub open spec fn attribute_plan(attribute: CustomVertexAttribute, locs: Seq<Option<u32>>) -> VertexAttributePlan {
    VertexAttributePlan {
        location: locs[attribute_slot(attribute.name) as int].unwrap(),
        format: attribute.format,
        offset: attribute.offset,
    }
}

/// The attributes of fetch `f` sit in the flattened list after those of the
/// earlier fetches.
proof fn lemma_fetch_attribute_index(fetches: Seq<CustomVertexFetch>, f: int, a: int)
    requires
        0 <= f < fetches.len(),
        0 <= a < fetches[f].layout.attributes@.len(),
    ensures
        fetch_attributes(fetches.take(f)).len() + a < fetch_attributes(fetches).len(),
        fetch_attributes(fetches)[fetch_attributes(fetches.take(f)).len() + a] == fetches[f].layout.attributes@[a],
{
    lemma_fetch_attributes_step(fetches, f);
    lemma_fetch_attributes_prefix(fetches, f + 1);
    let before = fetch_attributes(fetches.take(f));
    let upto = fetch_attributes(fetches.take(f + 1));
    assert(upto[before.len() + a] == fetches[f].layout.attributes@[a]);
    assert(fetch_attributes(fetches).take(upto.len() as int)[before.len() + a] == upto[before.len() + a]);
}

/// The device layout of each vertex buffer's attributes: every attribute
/// reads from its buffer at its offset, in its format, into the location
/// its name was assigned. Every attribute has a location, as every name
/// that occurs gets one.
pub fn plan_vertex_attributes(fetches: &Vec<CustomVertexFetch>, locations: &CustomAttributeLocations) -> (r: Vec<
    Vec<VertexAttributePlan>,
>)
    requires
        locations_assigned(fetch_attributes(fetches@), locations@),
    ensures
        r@.len() == fetches@.len(),
        forall|f: int|
            #![trigger r@[f]]
            0 <= f < fetches@.len() ==> r@[f]@.len() == fetches@[f].layout.attributes@.len() && forall|a: int|
                0 <= a < fetches@[f].layout.attributes@.len() ==> #[trigger] r@[f]@[a] == attribute_plan(
                    fetches@[f].layout.attributes@[a],
                    locations@,
                ),
{
    let ghost all = fetch_attributes(fetches@);
    let mut plans: Vec<Vec<VertexAttributePlan>> = Vec::new();
    let mut f: usize = 0;
    while f < fetches.len()
        invariant
            f <= fetches@.len(),
            all == fetch_attributes(fetches@),
            locations_assigned(all, locations@),
            plans@.len() == f,
            forall|g: int|
                #![trigger plans@[g]]
                0 <= g < f ==> plans@[g]@.len() == fetches@[g].layout.attributes@.len() && forall|a: int|
                    0 <= a < fetches@[g].layout.attributes@.len() ==> #[trigger] plans@[g]@[a] == attribute_plan(
                        fetches@[g].layout.attributes@[a],
                        locations@,
                    ),
        decreases fetches@.len() - f,
    {
        let attributes = &fetches[f].layout.attributes;
        let mut row: Vec<VertexAttributePlan> = Vec::new();
        let mut a: usize = 0;
        while a < attributes.len()
            invariant
                f < fetches@.len(),
                a <= attributes@.len(),
                attributes@ == fetches@[f as int].layout.attributes@,
                all == fetch_attributes(fetches@),
                locations_assigned(all, locations@),
                row@.len() == a,
                forall|b: int| 0 <= b < a ==> #[trigger] row@[b] == attribute_plan(attributes@[b], locations@),
            decreases attributes@.len() - a,
        {
            let attribute = attributes[a];
            proof {
                lemma_fetch_attribute_index(fetches@, f as int, a as int);
                lemma_every_attribute_located(
                    all,
                    locations@,
                    fetch_attributes(fetches@.take(f as int)).len() + a,
                );
            }
            let location = locations.get(attribute.name).unwrap();
            row.push(VertexAttributePlan { location, format: attribute.format, offset: attribute.offset });
            a += 1;
        }
        plans.push(row);
        f += 1;
    }
    plans
}

/// Two locations that are both the next free one after the same previous
/// location are the same.
proof fn lemma_next_free_unique(all: Seq<CustomVertexAttribute>, prev: Option<u32>, a: u32, b: u32)
    requires
        next_free_location(all, prev, a),
        next_free_location(all, prev, b),
    ensures
        a == b,
{
}

proof fn lemma_assigned_order_agree(
    all: Seq<CustomVertexAttribute>,
    l1: Seq<Option<u32>>,
    l2: Seq<Option<u32>>,
    k: int,
)
    requires
        locations_assigned(all, l1),
        locations_assigned(all, l2),
        0 <= k < implicit_order(all, all).len(),
    ensures
        l1[attribute_slot(implicit_order(all, all)[k]) as int] == l2[attribute_slot(implicit_order(all, all)[k]) as int],
    decreases k,
{
    let order = implicit_order(all, all);
    if k > 0 {
        lemma_assigned_order_agree(all, l1, l2, k - 1);
    }
    let prev1 = if k == 0 { None } else { l1[attribute_slot(order[k - 1]) as int] };
    assert(l1[attribute_slot(order[k]) as int] is Some);
    assert(l2[attribute_slot(order[k]) as int] is Some);
    lemma_next_free_unique(
        all,
        prev1,
        l1[attribute_slot(order[k]) as int].unwrap(),
        l2[attribute_slot(order[k]) as int].unwrap(),
    );
}

/// The locations of a list of attributes are determined: two assignments
/// that both follow the rules are equal.
pub proof fn lemma_locations_assigned_unique(
    all: Seq<CustomVertexAttribute>,
    l1: Seq<Option<u32>>,
    l2: Seq<Option<u32>>,
)
    requires
        locations_assigned(all, l1),
        locations_assigned(all, l2),
    ensures
        l1 == l2,
{
    let order = implicit_order(all, all);
    assert forall|n: CustomVertexAttributeName| #[trigger] l1[attribute_slot(n) as int] == l2[attribute_slot(n) as int] by {
        if explicit_location(all, n) is None && order.contains(n) {
            let k = choose|k: int| 0 <= k < order.len() && order[k] == n;
            lemma_assigned_order_agree(all, l1, l2, k);
        }
    }
    assert forall|j: int| 0 <= j < 8 implies l1[j] == l2[j] by {
        let n = if j == 0 {
            CustomVertexAttributeName::A0
        } else if j == 1 {
            CustomVertexAttributeName::A1
        } else if j == 2 {
            CustomVertexAttributeName::A2
        } else if j == 3 {
            CustomVertexAttributeName::A3
        } else if j == 4 {
            CustomVertexAttributeName::A4
        } else if j == 5 {
            CustomVertexAttributeName::A5
        } else if j == 6 {
            CustomVertexAttributeName::A6
        } else {
            CustomVertexAttributeName::A7
        };
        assert(attribute_slot(n) == j);
        assert(l1[attribute_slot(n) as int] == l2[attribute_slot(n) as int]);
    }
    assert(l1 =~= l2);
}

} // verus!
