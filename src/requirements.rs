//! Slots: placeholders for the resources a bind group needs and the values
//! a dispatch needs, each handed to the caller to fill once and then taken.
use vstd::prelude::*;

use crate::bind_group::BindGroupError;
use crate::layout::{BindGroupLayoutEntry, BindingType, BufferBindingType, PushConstantRange, ShaderStages};

verus! {

/// A place for one binding of a bind group. `B` is a buffer binding, `T` a
/// texture view and `S` a sampler, as the graphics API gives them; the array
/// forms take one per element of a binding array of `entry_count`.
#[derive(Debug)]
pub enum BindSlot<B, T, S> {
    StorageBuffer { loc: (u32, u32), slot: Option<B> },
    UniformBuffer { loc: (u32, u32), slot: Option<B> },
    StorageBufferArray { loc: (u32, u32), slots: Option<Vec<B>>, entry_count: u32 },
    UniformBufferArray { loc: (u32, u32), slots: Option<Vec<B>>, entry_count: u32 },
    Texture { loc: (u32, u32), slot: Option<T> },
    TextureArray { loc: (u32, u32), slots: Option<Vec<T>>, entry_count: u32 },
    Sampler { loc: (u32, u32), slot: Option<S> },
    SamplerArray { loc: (u32, u32), slots: Option<Vec<S>>, entry_count: u32 },
}

/// The kind of resource a slot takes.
#[derive(Clone, Copy, Debug, PartialEq, Eq, Structural)]
pub enum SlotKind {
    StorageBuffer,
    UniformBuffer,
    Texture,
    Sampler,
}

/// A resource taken from a filled slot.
#[derive(Debug)]
pub enum BindingResource<B, T, S> {
    Buffer(B),
    BufferArray(Vec<B>),
    TextureView(T),
    TextureViewArray(Vec<T>),
    Sampler(S),
    SamplerArray(Vec<S>),
}

/// One resource of a bind group, at binding `binding`.
#[derive(Debug)]
pub struct BindGroupEntry<B, T, S> {
    pub binding: u32,
    pub resource: BindingResource<B, T, S>,
}

/// What a slot asks for, whatever it holds: its kind, its location, and its
/// element count where it is an array.
pub open spec fn slot_shape_for(set: u32, entry: BindGroupLayoutEntry) -> (SlotKind, (u32, u32), Option<u32>) {
    let kind = match entry.ty {
        BindingType::Buffer { ty: BufferBindingType::Uniform, .. } => SlotKind::UniformBuffer,
        BindingType::Buffer { ty: BufferBindingType::Storage { .. }, .. } => SlotKind::StorageBuffer,
        BindingType::Sampler(_) => SlotKind::Sampler,
        _ => SlotKind::Texture,
    };
    (kind, (set, entry.binding), entry.count)
}

impl<B, T, S> BindSlot<B, T, S> {
    pub open spec fn spec_loc(&self) -> (u32, u32) {
        match *self {
            BindSlot::StorageBuffer { loc, .. } => loc,
            BindSlot::UniformBuffer { loc, .. } => loc,
            BindSlot::StorageBufferArray { loc, .. } => loc,
            BindSlot::UniformBufferArray { loc, .. } => loc,
            BindSlot::Texture { loc, .. } => loc,
            BindSlot::TextureArray { loc, .. } => loc,
            BindSlot::Sampler { loc, .. } => loc,
            BindSlot::SamplerArray { loc, .. } => loc,
        }
    }

    pub open spec fn shape(&self) -> (SlotKind, (u32, u32), Option<u32>) {
        match *self {
            BindSlot::StorageBuffer { loc, .. } => (SlotKind::StorageBuffer, loc, None),
            BindSlot::UniformBuffer { loc, .. } => (SlotKind::UniformBuffer, loc, None),
            BindSlot::StorageBufferArray { loc, entry_count, .. } => (
                SlotKind::StorageBuffer,
                loc,
                Some(entry_count),
            ),
            BindSlot::UniformBufferArray { loc, entry_count, .. } => (
                SlotKind::UniformBuffer,
                loc,
                Some(entry_count),
            ),
            BindSlot::Texture { loc, .. } => (SlotKind::Texture, loc, None),
            BindSlot::TextureArray { loc, entry_count, .. } => (
                SlotKind::Texture,
                loc,
                Some(entry_count),
            ),
            BindSlot::Sampler { loc, .. } => (SlotKind::Sampler, loc, None),
            BindSlot::SamplerArray { loc, entry_count, .. } => (
                SlotKind::Sampler,
                loc,
                Some(entry_count),
            ),
        }
    }

    /// The resource the slot holds, if it was filled.
    pub open spec fn spec_resource(self) -> Option<BindingResource<B, T, S>> {
        match self {
            BindSlot::StorageBuffer { slot, .. } => match slot {
                Some(b) => Some(BindingResource::Buffer(b)),
                None => None,
            },
            BindSlot::UniformBuffer { slot, .. } => match slot {
                Some(b) => Some(BindingResource::Buffer(b)),
                None => None,
            },
            BindSlot::StorageBufferArray { slots, .. } => match slots {
                Some(v) => Some(BindingResource::BufferArray(v)),
                None => None,
            },
            BindSlot::UniformBufferArray { slots, .. } => match slots {
                Some(v) => Some(BindingResource::BufferArray(v)),
                None => None,
            },
            BindSlot::Texture { slot, .. } => match slot {
                Some(t) => Some(BindingResource::TextureView(t)),
                None => None,
            },
            BindSlot::TextureArray { slots, .. } => match slots {
                Some(v) => Some(BindingResource::TextureViewArray(v)),
                None => None,
            },
            BindSlot::Sampler { slot, .. } => match slot {
                Some(s) => Some(BindingResource::Sampler(s)),
                None => None,
            },
            BindSlot::SamplerArray { slots, .. } => match slots {
                Some(v) => Some(BindingResource::SamplerArray(v)),
                None => None,
            },
        }
    }

    pub open spec fn is_filled(&self) -> bool {
        self.spec_resource() is Some
    }

    fn single(kind: SlotKind, loc: (u32, u32)) -> (r: Self)
        ensures
            r.shape() == (kind, loc, None::<u32>),
            !r.is_filled(),
    {
        match kind {
            SlotKind::StorageBuffer => BindSlot::StorageBuffer { loc, slot: None },
            SlotKind::UniformBuffer => BindSlot::UniformBuffer { loc, slot: None },
            SlotKind::Texture => BindSlot::Texture { loc, slot: None },
            SlotKind::Sampler => BindSlot::Sampler { loc, slot: None },
        }
    }

    fn array(kind: SlotKind, loc: (u32, u32), entry_count: u32) -> (r: Self)
        ensures
            r.shape() == (kind, loc, Some(entry_count)),
            !r.is_filled(),
    {
        match kind {
            SlotKind::StorageBuffer => BindSlot::StorageBufferArray { loc, slots: None, entry_count },
            SlotKind::UniformBuffer => BindSlot::UniformBufferArray { loc, slots: None, entry_count },
            SlotKind::Texture => BindSlot::TextureArray { loc, slots: None, entry_count },
            SlotKind::Sampler => BindSlot::SamplerArray { loc, slots: None, entry_count },
        }
    }

    /// An empty slot for `entry` of group `set`: a buffer slot for a buffer,
    /// a sampler slot for a sampler, a texture slot for a sampled or storage
    /// texture; the array form where the entry has a count.
    pub fn from_entry(set: u32, entry: &BindGroupLayoutEntry) -> (r: Self)
        requires
            !(entry.ty is AccelerationStructure),
        ensures
            r.shape() == slot_shape_for(set, *entry),
            !r.is_filled(),
    {
        let kind = match entry.ty {
            BindingType::Buffer { ty: BufferBindingType::Uniform, .. } => SlotKind::UniformBuffer,
            BindingType::Buffer { ty: BufferBindingType::Storage { .. }, .. } => SlotKind::StorageBuffer,
            BindingType::Sampler(_) => SlotKind::Sampler,
            _ => SlotKind::Texture,
        };
        match entry.count {
            Some(ct) => BindSlot::array(kind, (set, entry.binding), ct),
            None => BindSlot::single(kind, (set, entry.binding)),
        }
    }

    /// The binding index the slot stands for.
    pub fn binding(&self) -> (r: u32)
        ensures
            r == self.spec_loc().1,
    {
        match self {
            BindSlot::StorageBuffer { loc, .. }
            | BindSlot::UniformBuffer { loc, .. }
            | BindSlot::Texture { loc, .. }
            | BindSlot::Sampler { loc, .. }
            | BindSlot::StorageBufferArray { loc, .. }
            | BindSlot::UniformBufferArray { loc, .. }
            | BindSlot::TextureArray { loc, .. }
            | BindSlot::SamplerArray { loc, .. } => loc.1,
        }
    }

    /// Whether the slot was filled.
    pub fn is_some(&self) -> (r: bool)
        ensures
            r == self.is_filled(),
    {
        match self {
            BindSlot::StorageBuffer { slot, .. } | BindSlot::UniformBuffer { slot, .. } => slot.is_some(),
            BindSlot::Texture { slot, .. } => slot.is_some(),
            BindSlot::Sampler { slot, .. } => slot.is_some(),
            BindSlot::StorageBufferArray { slots, .. }
            | BindSlot::UniformBufferArray { slots, .. } => slots.is_some(),
            BindSlot::TextureArray { slots, .. } => slots.is_some(),
            BindSlot::SamplerArray { slots, .. } => slots.is_some(),
        }
    }
}

impl<B, T, S> BindingResource<B, T, S> {
    /// Takes the resource out of a slot; an error naming the slot's location
    /// where it was left empty.
    pub fn try_from(value: BindSlot<B, T, S>) -> (r: Result<Self, BindGroupError>)
        ensures
            match value.spec_resource() {
                Some(res) => r == Ok::<Self, BindGroupError>(res),
                None => r == Err::<Self, BindGroupError>(
                    BindGroupError::MissingBindGroupEntry(value.spec_loc().0, value.spec_loc().1),
                ),
            },
    {
        match value {
            BindSlot::StorageBuffer { loc, slot } | BindSlot::UniformBuffer { loc, slot } => match slot {
                Some(b) => Ok(BindingResource::Buffer(b)),
                None => Err(BindGroupError::MissingBindGroupEntry(loc.0, loc.1)),
            },
            BindSlot::Texture { loc, slot } => match slot {
                Some(t) => Ok(BindingResource::TextureView(t)),
                None => Err(BindGroupError::MissingBindGroupEntry(loc.0, loc.1)),
            },
            BindSlot::Sampler { loc, slot } => match slot {
                Some(s) => Ok(BindingResource::Sampler(s)),
                None => Err(BindGroupError::MissingBindGroupEntry(loc.0, loc.1)),
            },
            BindSlot::StorageBufferArray { loc, slots, .. }
            | BindSlot::UniformBufferArray { loc, slots, .. } => match slots {
                Some(v) => Ok(BindingResource::BufferArray(v)),
                None => Err(BindGroupError::MissingBindGroupEntry(loc.0, loc.1)),
            },
            BindSlot::TextureArray { loc, slots, .. } => match slots {
                Some(v) => Ok(BindingResource::TextureViewArray(v)),
                None => Err(BindGroupError::MissingBindGroupEntry(loc.0, loc.1)),
            },
            BindSlot::SamplerArray { loc, slots, .. } => match slots {
                Some(v) => Ok(BindingResource::SamplerArray(v)),
                None => Err(BindGroupError::MissingBindGroupEntry(loc.0, loc.1)),
            },
        }
    }
}

/// Whether every slot was filled.
pub open spec fn all_filled<B, T, S>(slots: Seq<BindSlot<B, T, S>>) -> bool {
    forall|i: int| 0 <= i < slots.len() ==> (#[trigger] slots[i]).is_filled()
}

/// Whether slot `k` is the first that was left empty.
pub open spec fn is_first_unfilled<B, T, S>(slots: Seq<BindSlot<B, T, S>>, k: int) -> bool {
    &&& 0 <= k < slots.len()
    &&& !slots[k].is_filled()
    &&& forall|i: int| 0 <= i < k ==> (#[trigger] slots[i]).is_filled()
}

/// The index of the first slot left empty.
pub open spec fn first_unfilled<B, T, S>(slots: Seq<BindSlot<B, T, S>>) -> int {
    choose|k: int| is_first_unfilled(slots, k)
}

proof fn lemma_first_unfilled_unique<B, T, S>(slots: Seq<BindSlot<B, T, S>>, k: int)
    requires
        is_first_unfilled(slots, k),
    ensures
        first_unfilled(slots) == k,
{
    let j = first_unfilled(slots);
    assert(is_first_unfilled(slots, j));
    if j < k {
        assert(slots[j].is_filled());
    } else if j > k {
        assert(slots[k].is_filled());
    }
}

/// Whether `entries` holds, in order, the binding and the resource of each
/// of `slots`.
pub open spec fn taken_from<B, T, S>(
    entries: Seq<BindGroupEntry<B, T, S>>,
    slots: Seq<BindSlot<B, T, S>>,
) -> bool {
    &&& entries.len() == slots.len()
    &&& forall|i: int|
        0 <= i < entries.len() ==> (#[trigger] entries[i]).binding == slots[i].spec_loc().1 && Some(
            entries[i].resource,
        ) == slots[i].spec_resource()
}

/// Takes the resources out of the slots of one bind group, in order. Stops
/// at the first slot left empty, with an error naming its location.
pub fn create_bind_group_entries<B, T, S>(slots: Vec<BindSlot<B, T, S>>) -> (r: Result<
    Vec<BindGroupEntry<B, T, S>>,
    BindGroupError,
>)
    ensures
        all_filled(slots@) ==> (r matches Ok(v) && taken_from(v@, slots@)),
        !all_filled(slots@) ==> r == Err::<Vec<BindGroupEntry<B, T, S>>, BindGroupError>(
            BindGroupError::MissingBindGroupEntry(
                slots@[first_unfilled(slots@)].spec_loc().0,
                slots@[first_unfilled(slots@)].spec_loc().1,
            ),
        ),
{
    let ghost orig = slots@;
    let mut remaining = slots;
    let mut entries: Vec<BindGroupEntry<B, T, S>> = Vec::new();
    let n = remaining.len();
    let mut i: usize = 0;
    while i < n
        invariant
            orig == slots@,
            n == orig.len(),
            i <= n,
            remaining@ == orig.subrange(i as int, n as int),
            entries@.len() == i,
            forall|j: int| 0 <= j < i ==> (#[trigger] orig[j]).is_filled(),
            forall|j: int|
                0 <= j < i ==> (#[trigger] entries@[j]).binding == orig[j].spec_loc().1 && Some(
                    entries@[j].resource,
                ) == orig[j].spec_resource(),
        decreases n - i,
    {
        let slot = remaining.remove(0);
        assert(slot == orig[i as int]);
        let binding = slot.binding();
        match BindingResource::try_from(slot) {
            Ok(resource) => {
                entries.push(BindGroupEntry { binding, resource });
            },
            Err(e) => {
                proof {
                    assert(is_first_unfilled(orig, i as int));
                    lemma_first_unfilled_unique(orig, i as int);
                }
                return Err(e);
            },
        }
        assert(remaining@ =~= orig.subrange(i + 1, n as int));
        i = i + 1;
    }
    Ok(entries)
}

/// A bind group built from slots made for its layout, with every slot
/// before slot `k` filled and slot `k` left empty, fails with the location
/// of entry `k` of the layout: the group and that entry's binding.
pub proof fn lemma_missing_slot_named<B, T, S>(
    set: u32,
    entries: Seq<BindGroupLayoutEntry>,
    slots: Seq<BindSlot<B, T, S>>,
    k: int,
)
    requires
        slots.len() == entries.len(),
        forall|i: int|
            0 <= i < slots.len() ==> (#[trigger] slots[i]).shape() == slot_shape_for(set, entries[i]),
        0 <= k < slots.len(),
        !slots[k].is_filled(),
        forall|i: int| 0 <= i < k ==> (#[trigger] slots[i]).is_filled(),
    ensures
        !all_filled(slots),
        slots[first_unfilled(slots)].spec_loc() == (set, entries[k].binding),
{
    assert(is_first_unfilled(slots, k));
    lemma_first_unfilled_unique(slots, k);
    assert(slots[k].shape() == slot_shape_for(set, entries[k]));
}

/// A place for one value a dispatch needs: the dynamic offset of the
/// binding at `loc`, or the bytes of a push-constant range.
#[derive(Debug)]
pub enum PassSlot<P> {
    DynamicOffset { loc: (u32, u32), offset: Option<u32> },
    PushConstantRange { visibility: ShaderStages, start: u64, end: u64, buffer: Option<P> },
}

impl<P> PassSlot<P> {
    /// An empty slot for the bytes of `value`.
    pub fn from(value: &PushConstantRange) -> (r: Self)
        ensures
            r == (PassSlot::<P>::PushConstantRange {
                visibility: value.stages,
                start: value.start,
                end: value.end,
                buffer: None,
            }),
    {
        PassSlot::PushConstantRange {
            visibility: value.stages,
            start: value.start,
            end: value.end,
            buffer: None,
        }
    }

    /// The start of the range and the bytes it was filled with.
    pub fn push_const_slice(self) -> (r: Option<(u64, P)>)
        ensures
            r == match self {
                PassSlot::PushConstantRange { start, buffer: Some(b), .. } => Some((start, b)),
                _ => None,
            },
    {
        match self {
            PassSlot::PushConstantRange { buffer, start, .. } => match buffer {
                Some(b) => Some((start, b)),
                None => None,
            },
            _ => None,
        }
    }

    /// An empty slot for the dynamic offset of `(set, binding)`.
    pub fn offset_for(set: u32, binding: u32) -> (r: Self)
        ensures
            r == (PassSlot::<P>::DynamicOffset { loc: (set, binding), offset: None }),
    {
        PassSlot::DynamicOffset { loc: (set, binding), offset: None }
    }

    /// The offset the slot was filled with.
    pub fn offset(self) -> (r: Option<u32>)
        ensures
            r == match self {
                PassSlot::DynamicOffset { offset, .. } => offset,
                _ => None,
            },
    {
        match self {
            PassSlot::DynamicOffset { offset, .. } => offset,
            _ => None,
        }
    }
}

} // verus!
