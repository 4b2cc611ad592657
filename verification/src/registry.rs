//! Backend-independent bookkeeping of a custom draw registry: slot tables
//! that hand out resource ids, per-frame capture state, and resource totals.
use vstd::prelude::*;
use crate::draw::CustomDrawResourceStats;
use crate::resources::{CustomTextureInfo, texture_info_wf};
use crate::sizing::{
    depth_bytes, depth_target_estimate_bytes, level_bytes, mip_chain_bytes, sat_add, sat_mul,
    saturating_mul_u64, texture_level_estimate_bytes, texture_mip_chain_estimate_bytes,
};

verus! {

// ---------------------------------------------------------------------------
// Slot tables
// ---------------------------------------------------------------------------

/// Resources stored by id; removing a resource frees its slot for reuse.
pub struct CustomSlotTable<T> {
    slots: Vec<Option<T>>,
}

impl<T> View for CustomSlotTable<T> {
    type V = Seq<Option<T>>;

    closed spec fn view(&self) -> Seq<Option<T>> {
        self.slots@
    }
}

/// Index of the first free slot of `slots`, or its length when all are taken.
pub open spec fn first_free<T>(slots: Seq<Option<T>>) -> nat
    decreases slots.len(),
{
    if slots.len() == 0 {
        0
    } else if first_free(slots.drop_last()) < slots.len() - 1 {
        first_free(slots.drop_last())
    } else if slots.last() is None {
        (slots.len() - 1) as nat
    } else {
        slots.len()
    }
}

/// The slots after storing `value`: in the first free slot, else appended.
pub open spec fn slots_after_alloc<T>(slots: Seq<Option<T>>, value: T) -> Seq<Option<T>> {
    if first_free(slots) < slots.len() {
        slots.update(first_free(slots) as int, Some(value))
    } else {
        slots.push(Some(value))
    }
}

/// The resource stored under `id`, if any.
pub open spec fn slot_value<T>(slots: Seq<Option<T>>, id: u32) -> Option<T> {
    if id < slots.len() {
        slots[id as int]
    } else {
        None
    }
}

/// The slots after removing whatever is stored under `id`.
pub open spec fn slots_after_remove<T>(slots: Seq<Option<T>>, id: u32) -> Seq<Option<T>> {
    if id < slots.len() {
        slots.update(id as int, None)
    } else {
        slots
    }
}

/// Number of occupied slots.
pub open spec fn occupied_count<T>(slots: Seq<Option<T>>) -> nat
    decreases slots.len(),
{
    if slots.len() == 0 {
        0
    } else {
        occupied_count(slots.drop_last()) + if slots.last() is Some { 1nat } else { 0nat }
    }
}

/// The first free slot is free, and every slot before it is taken.
pub proof fn lemma_first_free<T>(slots: Seq<Option<T>>)
    ensures
        first_free(slots) <= slots.len(),
        first_free(slots) < slots.len() ==> slots[first_free(slots) as int] is None,
        forall|i: int| 0 <= i < first_free(slots) ==> (#[trigger] slots[i]) is Some,
    decreases slots.len(),
{
    if slots.len() > 0 {
        lemma_first_free(slots.drop_last());
        assert forall|i: int| 0 <= i < first_free(slots) implies (#[trigger] slots[i]) is Some by {
            if i < slots.len() - 1 {
                assert(slots[i] == slots.drop_last()[i]);
            }
        }
    }
}

impl<T> CustomSlotTable<T> {
    /// An empty table.
    pub fn new() -> (r: Self)
        ensures
            r@ == Seq::<Option<T>>::empty(),
    {
        CustomSlotTable { slots: Vec::new() }
    }

    /// Number of slots, taken or free.
    pub fn slot_count(&self) -> (r: usize)
        ensures
            r == self@.len(),
    {
        self.slots.len()
    }

    /// Stores `value` in the first free slot, or in a new slot after the
    /// last, and returns the slot's index as the id (truncated to 32 bits).
    pub fn alloc_slot(&mut self, value: T) -> (id: u32)
        ensures
            final(self)@ == slots_after_alloc(old(self)@, value),
            id == first_free(old(self)@) as u32,
    {
        let ghost before = self.slots@;
        let mut i: usize = 0;
        while i < self.slots.len()
            invariant
                i <= self.slots.len(),
                self.slots@ == before,
                before == old(self)@,
                forall|j: int| 0 <= j < i ==> (#[trigger] before[j]) is Some,
            decreases self.slots.len() - i,
        {
            if self.slots[i].is_none() {
                proof {
                    lemma_first_free(before);
                    lemma_first_free_is_first(before, i as nat);
                }
                self.slots.set(i, Some(value));
                return #[verifier::truncate] (i as u32);
            }
            i += 1;
        }
        proof {
            lemma_first_free(before);
            lemma_first_free_full(before);
        }
        self.slots.push(Some(value));
        #[verifier::truncate] ((self.slots.len() - 1) as u32)
    }

    /// The resource stored under `id`, if any.
    pub fn get(&self, id: u32) -> (r: Option<&T>)
        ensures
            r == (match slot_value(self@, id) {
                Some(v) => Some(&v),
                None => None,
            }),
    {
        if (id as usize) < self.slots.len() {
            match &self.slots[id as usize] {
                Some(v) => Some(v),
                None => None,
            }
        } else {
            None
        }
    }

    /// Whether a resource is stored under `id`.
    pub fn contains(&self, id: u32) -> (r: bool)
        ensures
            r == (slot_value(self@, id) is Some),
    {
        (id as usize) < self.slots.len() && self.slots[id as usize].is_some()
    }

    /// Replaces the resource stored under `id`, which must be taken.
    pub fn replace(&mut self, id: u32, value: T)
        requires
            slot_value(old(self)@, id) is Some,
        ensures
            final(self)@ == old(self)@.update(id as int, Some(value)),
    {
        self.slots.set(id as usize, Some(value));
    }

    /// Frees the slot of `id`; nothing happens when it is out of range.
    pub fn remove(&mut self, id: u32)
        ensures
            final(self)@ == slots_after_remove(old(self)@, id),
    {
        if (id as usize) < self.slots.len() {
            self.slots.set(id as usize, None);
        }
    }

    /// Number of taken slots (truncated to 32 bits).
    pub fn count(&self) -> (r: u32)
        ensures
            r == occupied_count(self@) as u32,
    {
        let mut n: usize = 0;
        let mut i: usize = 0;
        proof {
            assert(self.slots@.take(0) =~= Seq::<Option<T>>::empty());
        }
        while i < self.slots.len()
            invariant
                i <= self.slots.len(),
                n == occupied_count(self.slots@.take(i as int)),
                n <= i,
            decreases self.slots.len() - i,
        {
            proof {
                assert(self.slots@.take(i + 1).drop_last() =~= self.slots@.take(i as int));
            }
            if self.slots[i].is_some() {
                n += 1;
            }
            i += 1;
        }
        proof {
            assert(self.slots@.take(self.slots@.len() as int) =~= self.slots@);
        }
        #[verifier::truncate] (n as u32)
    }

    /// The resource in slot `index`, if taken (for walking the table).
    pub fn get_at(&self, index: usize) -> (r: Option<&T>)
        ensures
            r == (if index < self@.len() {
                match self@[index as int] {
                    Some(v) => Some(&v),
                    None => None,
                }
            } else {
                None
            }),
    {
        if index < self.slots.len() {
            match &self.slots[index] {
                Some(v) => Some(v),
                None => None,
            }
        } else {
            None
        }
    }
}

/// A free slot found by a front-to-back scan is the first free slot.
proof fn lemma_first_free_is_first<T>(slots: Seq<Option<T>>, i: nat)
    requires
        i < slots.len(),
        slots[i as int] is None,
        forall|j: int| 0 <= j < i ==> (#[trigger] slots[j]) is Some,
    ensures
        first_free(slots) == i,
{
    lemma_first_free(slots);
}

/// A table with no free slot allocates past its end.
proof fn lemma_first_free_full<T>(slots: Seq<Option<T>>)
    requires
        forall|j: int| 0 <= j < slots.len() ==> (#[trigger] slots[j]) is Some,
    ensures
        first_free(slots) == slots.len(),
{
    lemma_first_free(slots);
}

/// Storing a resource then reading its id gives the resource back, and
/// every other id reads what it read before.
/// Counting occupied slots after one slot changes.
proof fn lemma_occupied_update<T>(slots: Seq<Option<T>>, i: int, value: Option<T>)
    requires
        0 <= i < slots.len(),
    ensures
        occupied_count(slots.update(i, value)) + (if slots[i] is Some { 1int } else { 0int }) == occupied_count(slots)
            + (if value is Some { 1int } else { 0int }),
    decreases slots.len(),
{
    let updated = slots.update(i, value);
    if i < slots.len() - 1 {
        lemma_occupied_update(slots.drop_last(), i, value);
        assert(updated.drop_last() =~= slots.drop_last().update(i, value));
    } else {
        assert(updated.drop_last() =~= slots.drop_last());
    }
}

/// Storing a resource adds one to the number of occupied slots.
pub proof fn lemma_alloc_counts_one_more<T>(slots: Seq<Option<T>>, value: T)
    ensures
        occupied_count(slots_after_alloc(slots, value)) == occupied_count(slots) + 1,
{
    lemma_first_free(slots);
    if first_free(slots) < slots.len() {
        lemma_occupied_update(slots, first_free(slots) as int, Some(value));
    } else {
        assert(slots.push(Some(value)).drop_last() =~= slots);
    }
}

/// Removing an id takes one from the number of occupied slots when it held
/// a resource, and changes nothing otherwise.
pub proof fn lemma_remove_counts_one_less<T>(slots: Seq<Option<T>>, id: u32)
    ensures
        occupied_count(slots_after_remove(slots, id)) + (if slot_value(slots, id) is Some { 1int } else { 0int })
            == occupied_count(slots),
{
    if id < slots.len() {
        lemma_occupied_update(slots, id as int, None);
    }
}

pub proof fn lemma_alloc_then_get<T>(slots: Seq<Option<T>>, value: T, other: u32)
    requires
        slots.len() < u32::MAX,
    ensures
        slot_value(slots_after_alloc(slots, value), first_free(slots) as u32) == Some(value),
        other != first_free(slots) as u32 ==> slot_value(slots_after_alloc(slots, value), other)
            == slot_value(slots, other),
{
    lemma_first_free(slots);
}

/// Allocation takes a free slot: the id was not in use before.
pub proof fn lemma_alloc_takes_free_slot<T>(slots: Seq<Option<T>>, value: T)
    requires
        slots.len() < u32::MAX,
    ensures
        slot_value(slots, first_free(slots) as u32) is None,
        forall|i: int| 0 <= i < first_free(slots) ==> (#[trigger] slots[i]) is Some,
{
    lemma_first_free(slots);
}

/// After removing an id, reading it gives nothing; other ids are untouched.
pub proof fn lemma_remove_then_get<T>(slots: Seq<Option<T>>, id: u32, other: u32)
    ensures
        slot_value(slots_after_remove(slots, id), id) is None,
        other != id ==> slot_value(slots_after_remove(slots, id), other) == slot_value(slots, other),
{
}

/// Removing an id frees it for the next allocation when it is the lowest free id.
pub proof fn lemma_remove_then_alloc_reuses<T>(slots: Seq<Option<T>>, id: u32, value: T)
    requires
        id < slots.len(),
        forall|i: int| 0 <= i < id ==> (#[trigger] slots[i]) is Some,
    ensures
        first_free(slots_after_remove(slots, id)) == id,
{
    let s = slots_after_remove(slots, id);
    assert forall|j: int| 0 <= j < id implies (#[trigger] s[j]) is Some by {
        assert(s[j] == slots[j]);
    }
    lemma_first_free_is_first(s, id as nat);
}

// ---------------------------------------------------------------------------
// Per-frame capture (GPU profiles, frame diagnostics)
// ---------------------------------------------------------------------------

/// Whether a per-frame record is being captured, and the last one captured.
pub struct CustomCaptureState<T> {
    enabled: bool,
    last: Option<T>,
}

impl<T> CustomCaptureState<T> {
    /// Whether capture is on.
    pub closed spec fn spec_enabled(&self) -> bool {
        self.enabled
    }

    /// The last captured record not yet taken.
    pub closed spec fn spec_last(&self) -> Option<T> {
        self.last
    }

    /// Capture off, nothing captured.
    pub fn new() -> (r: Self)
        ensures
            !r.spec_enabled(),
            r.spec_last() is None,
    {
        CustomCaptureState { enabled: false, last: None }
    }

    /// Whether capture is on.
    pub fn is_enabled(&self) -> (r: bool)
        ensures
            r == self.spec_enabled(),
    {
        self.enabled
    }

    /// Turns capture on or off; turning it off drops the captured record.
    pub fn set_enabled(&mut self, enabled: bool)
        ensures
            final(self).spec_enabled() == enabled,
            final(self).spec_last() == (if enabled {
                old(self).spec_last()
            } else {
                None
            }),
    {
        self.enabled = enabled;
        if !enabled {
            self.last = None;
        }
    }

    /// Keeps `record` as the last one when capture is on; ignores it otherwise.
    pub fn record(&mut self, record: T)
        ensures
            final(self).spec_enabled() == old(self).spec_enabled(),
            final(self).spec_last() == (if old(self).spec_enabled() {
                Some(record)
            } else {
                old(self).spec_last()
            }),
    {
        if self.enabled {
            self.last = Some(record);
        }
    }

    /// Hands out the last captured record and forgets it.
    pub fn take_last(&mut self) -> (r: Option<T>)
        ensures
            r == old(self).spec_last(),
            final(self).spec_last() is None,
            final(self).spec_enabled() == old(self).spec_enabled(),
    {
        self.last.take()
    }
}

// ---------------------------------------------------------------------------
// Resource totals
// ---------------------------------------------------------------------------

/// What the registry records of a depth target besides its device objects.
#[derive(Debug, Clone, Copy, PartialEq, Eq, Structural)]
pub struct CustomDepthTargetInfo {
    pub width: u32,
    pub height: u32,
    pub sample_count: u32,
}

/// Total of buffer sizes, saturating at `u64::MAX`.
pub open spec fn buffer_bytes_total(sizes: Seq<u64>) -> nat
    decreases sizes.len(),
{
    if sizes.len() == 0 {
        0
    } else {
        sat_add(buffer_bytes_total(sizes.drop_last()), sizes.last() as nat)
    }
}

/// Total estimated texture bytes, saturating at `u64::MAX` after each texture's parts.
pub open spec fn texture_bytes_total(textures: Seq<CustomTextureInfo>) -> nat
    decreases textures.len(),
{
    if textures.len() == 0 {
        0
    } else {
        let info = textures.last();
        let with_chain = sat_add(
            texture_bytes_total(textures.drop_last()),
            mip_chain_bytes(
                info.width as nat,
                info.height as nat,
                info.array_layer_count as nat,
                info.mip_level_count as nat,
                info.block_width as nat,
                info.block_height as nat,
                info.bytes_per_block as nat,
            ),
        );
        if info.has_msaa_texture && info.sample_count > 1 {
            sat_add(
                with_chain,
                sat_mul(
                    level_bytes(
                        info.width as nat,
                        info.height as nat,
                        info.array_layer_count as nat,
                        info.block_width as nat,
                        info.block_height as nat,
                        info.bytes_per_block as nat,
                    ),
                    info.sample_count as nat,
                ),
            )
        } else {
            with_chain
        }
    }
}

/// Number of render targets among the textures.
pub open spec fn render_target_total(textures: Seq<CustomTextureInfo>) -> nat
    decreases textures.len(),
{
    if textures.len() == 0 {
        0
    } else {
        render_target_total(textures.drop_last()) + if textures.last().is_render_target {
            1nat
        } else {
            0nat
        }
    }
}

/// Total estimated depth target bytes, saturating at `u64::MAX`.
pub open spec fn depth_bytes_total(targets: Seq<CustomDepthTargetInfo>) -> nat
    decreases targets.len(),
{
    if targets.len() == 0 {
        0
    } else {
        let t = targets.last();
        sat_add(
            depth_bytes_total(targets.drop_last()),
            depth_bytes(t.width as nat, t.height as nat, t.sample_count as nat),
        )
    }
}

/// The totals the registry reports for its live resources.
pub open spec fn resource_stats_of(
    pipeline_count: u32,
    compute_pipeline_count: u32,
    buffer_sizes: Seq<u64>,
    textures: Seq<CustomTextureInfo>,
    depth_targets: Seq<CustomDepthTargetInfo>,
    sampler_count: u32,
) -> CustomDrawResourceStats {
    CustomDrawResourceStats {
        pipeline_count,
        compute_pipeline_count,
        buffer_count: buffer_sizes.len() as u32,
        buffer_bytes: buffer_bytes_total(buffer_sizes) as u64,
        texture_count: textures.len() as u32,
        texture_bytes: texture_bytes_total(textures) as u64,
        render_target_count: render_target_total(textures) as u32,
        depth_target_count: depth_targets.len() as u32,
        depth_target_bytes: depth_bytes_total(depth_targets) as u64,
        sampler_count,
    }
}

/// Sums up the live resources of a registry: the sizes of its buffers, the
/// records of its textures and depth targets, and its other counts (each
/// count truncated to 32 bits).
pub fn summarize_resources(
    pipeline_count: u32,
    compute_pipeline_count: u32,
    buffer_sizes: &Vec<u64>,
    textures: &Vec<CustomTextureInfo>,
    depth_targets: &Vec<CustomDepthTargetInfo>,
    sampler_count: u32,
) -> (r: CustomDrawResourceStats)
    requires
        forall|i: int| 0 <= i < textures@.len() ==> texture_info_wf(#[trigger] textures@[i]),
    ensures
        r == resource_stats_of(
            pipeline_count,
            compute_pipeline_count,
            buffer_sizes@,
            textures@,
            depth_targets@,
            sampler_count,
        ),
{
    let mut buffer_bytes: u64 = 0;
    let mut i: usize = 0;
    proof {
        assert(buffer_sizes@.take(0) =~= Seq::<u64>::empty());
    }
    while i < buffer_sizes.len()
        invariant
            i <= buffer_sizes.len(),
            buffer_bytes == buffer_bytes_total(buffer_sizes@.take(i as int)),
        decreases buffer_sizes.len() - i,
    {
        proof {
            assert(buffer_sizes@.take(i + 1).drop_last() =~= buffer_sizes@.take(i as int));
        }
        buffer_bytes = buffer_bytes.saturating_add(buffer_sizes[i]);
        i += 1;
    }
    proof {
        assert(buffer_sizes@.take(buffer_sizes@.len() as int) =~= buffer_sizes@);
    }

    let mut texture_total: u64 = 0;
    let mut render_targets: usize = 0;
    let mut t: usize = 0;
    proof {
        assert(textures@.take(0) =~= Seq::<CustomTextureInfo>::empty());
    }
    while t < textures.len()
        invariant
            t <= textures.len(),
            forall|k: int| 0 <= k < textures@.len() ==> texture_info_wf(#[trigger] textures@[k]),
            texture_total == texture_bytes_total(textures@.take(t as int)),
            render_targets == render_target_total(textures@.take(t as int)),
            render_targets <= t,
        decreases textures.len() - t,
    {
        proof {
            assert(textures@.take(t + 1).drop_last() =~= textures@.take(t as int));
        }
        let info = &textures[t];
        assert(texture_info_wf(textures@[t as int]));
        let chain = texture_mip_chain_estimate_bytes(
            info.width,
            info.height,
            info.array_layer_count,
            info.mip_level_count,
            info.block_width,
            info.block_height,
            info.bytes_per_block,
        );
        let mut bytes = texture_total.saturating_add(chain);
        if info.has_msaa_texture && info.sample_count > 1 {
            let level = texture_level_estimate_bytes(
                info.width,
                info.height,
                info.array_layer_count,
                info.block_width,
                info.block_height,
                info.bytes_per_block,
            );
            bytes = bytes.saturating_add(saturating_mul_u64(level, info.sample_count as u64));
        }
        texture_total = bytes;
        if info.is_render_target {
            render_targets = render_targets + 1;
        }
        t += 1;
    }
    proof {
        assert(textures@.take(textures@.len() as int) =~= textures@);
    }

    let mut depth_total: u64 = 0;
    let mut d: usize = 0;
    proof {
        assert(depth_targets@.take(0) =~= Seq::<CustomDepthTargetInfo>::empty());
    }
    while d < depth_targets.len()
        invariant
            d <= depth_targets.len(),
            depth_total == depth_bytes_total(depth_targets@.take(d as int)),
        decreases depth_targets.len() - d,
    {
        proof {
            assert(depth_targets@.take(d + 1).drop_last() =~= depth_targets@.take(d as int));
        }
        let target = depth_targets[d];
        depth_total = depth_total.saturating_add(
            depth_target_estimate_bytes(target.width, target.height, target.sample_count),
        );
        d += 1;
    }
    proof {
        assert(depth_targets@.take(depth_targets@.len() as int) =~= depth_targets@);
    }

    CustomDrawResourceStats {
        pipeline_count,
        compute_pipeline_count,
        buffer_count: buffer_sizes.len() as u32,
        buffer_bytes,
        texture_count: textures.len() as u32,
        texture_bytes: texture_total,
        render_target_count: render_targets as u32,
        depth_target_count: depth_targets.len() as u32,
        depth_target_bytes: depth_total,
        sampler_count,
    }
}

} // verus!
