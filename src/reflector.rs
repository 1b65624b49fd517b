//! The reflection context of a compute shader: its binding table, the
//! module it was built from, and the checks that a bind group or a dispatch
//! has every value it needs.
use vstd::prelude::*;

use crate::bind_group::{
    entries_of, spec_bind_group_count, spec_build, work_groups_of, BindGroupError, BindGroups,
    LayoutState, entry_at,
};
use crate::layout::{BindGroupLayoutEntry, PushConstantRange, ShaderStages};
use crate::preprocessing::{Directives, PreprocessingError};
use crate::requirements::{slot_shape_for, BindSlot, PassSlot};
use crate::shader::ShaderModule;

verus! {

#[derive(Debug)]
pub enum Error {
    /// The graphics device ran out of memory.
    Oom,
    /// The graphics API refused a call as invalid.
    Validation(String),
    /// The graphics API failed internally.
    Wgpu(String),
    /// The shader source is neither Wgsl nor Glsl.
    UnsupportedSourceType,
    WgslCompilationError(String),
    GlslCompilationError(String),
    BindGroupError(BindGroupError),
    PreprocessingError(PreprocessingError),
    /// A dispatch was missing the dynamic offsets of these locations and the
    /// push constants for these stages.
    PassConstruction(Vec<(u32, u32)>, Vec<ShaderStages>),
}

/// The description of one bind group layout.
#[derive(Debug)]
pub struct BindGroupLayoutDescriptor<'a> {
    pub label: Option<&'a str>,
    pub entries: &'a [BindGroupLayoutEntry],
}

// ---------------------------------------------------------------------------
// What a dispatch asks for

/// Empty offset slots for the entries of `entries` that take a dynamic
/// offset, in order.
pub open spec fn offset_slots_in<P>(entries: Seq<BindGroupLayoutEntry>, set: u32) -> Seq<PassSlot<P>>
    decreases entries.len(),
{
    if entries.len() == 0 {
        Seq::empty()
    } else {
        let rest = offset_slots_in(entries.drop_last(), set);
        if entries.last().ty.spec_has_dynamic_offset() {
            rest.push(PassSlot::DynamicOffset { loc: (set, entries.last().binding), offset: None })
        } else {
            rest
        }
    }
}

/// Empty offset slots for the groups below `n`, group by group.
pub open spec fn offset_slots_upto<P>(s: LayoutState, n: int) -> Seq<PassSlot<P>>
    decreases n,
{
    if n <= 0 {
        Seq::empty()
    } else {
        offset_slots_upto(s, n - 1) + offset_slots_in(entries_of(s, (n - 1) as u32), (n - 1) as u32)
    }
}

/// The slots a dispatch asks to be filled: one for the push-constant range,
/// where there is one, then one per entry that takes a dynamic offset.
pub open spec fn expected_pass_slots<P>(s: LayoutState) -> Seq<PassSlot<P>> {
    let pc = match s.push_constant_range {
        Some(r) => seq![
            PassSlot::PushConstantRange {
                visibility: r.stages,
                start: r.start,
                end: r.end,
                buffer: None,
            },
        ],
        None => Seq::empty(),
    };
    pc + offset_slots_upto(s, spec_bind_group_count(s) + 1int)
}

/// The locations of the offset slots left empty, in order.
pub open spec fn missing_offsets<P>(s: Seq<PassSlot<P>>) -> Seq<(u32, u32)>
    decreases s.len(),
{
    if s.len() == 0 {
        Seq::empty()
    } else {
        let rest = missing_offsets(s.drop_last());
        match s.last() {
            PassSlot::DynamicOffset { loc, offset: None } => rest.push(loc),
            _ => rest,
        }
    }
}

/// The stages of the push-constant slots left empty, in order.
pub open spec fn missing_stages<P>(s: Seq<PassSlot<P>>) -> Seq<ShaderStages>
    decreases s.len(),
{
    if s.len() == 0 {
        Seq::empty()
    } else {
        let rest = missing_stages(s.drop_last());
        match s.last() {
            PassSlot::PushConstantRange { visibility, buffer: None, .. } => rest.push(visibility),
            _ => rest,
        }
    }
}

/// The start and the bytes of each filled push-constant slot, in order.
pub open spec fn supplied_push_constants<P>(s: Seq<PassSlot<P>>) -> Seq<(u64, P)>
    decreases s.len(),
{
    if s.len() == 0 {
        Seq::empty()
    } else {
        let rest = supplied_push_constants(s.drop_last());
        match s.last() {
            PassSlot::PushConstantRange { start, buffer: Some(b), .. } => rest.push((start, b)),
            _ => rest,
        }
    }
}

/// The location and the value of each filled offset slot, in order.
pub open spec fn supplied_offsets<P>(s: Seq<PassSlot<P>>) -> Seq<((u32, u32), u32)>
    decreases s.len(),
{
    if s.len() == 0 {
        Seq::empty()
    } else {
        let rest = supplied_offsets(s.drop_last());
        match s.last() {
            PassSlot::DynamicOffset { loc, offset: Some(o) } => rest.push((loc, o)),
            _ => rest,
        }
    }
}

/// The offsets of group `set`, in order.
pub open spec fn offsets_in_set(s: Seq<((u32, u32), u32)>, set: u32) -> Seq<u32>
    decreases s.len(),
{
    if s.len() == 0 {
        Seq::empty()
    } else {
        let rest = offsets_in_set(s.drop_last(), set);
        if s.last().0.0 == set {
            rest.push(s.last().1)
        } else {
            rest
        }
    }
}

/// What a dispatch sets: the push-constant bytes by start offset, and the
/// dynamic offsets by location.
#[derive(Debug)]
pub struct PassPlan<P> {
    pub push_constants: Vec<(u64, P)>,
    pub dynamic_offsets: Vec<((u32, u32), u32)>,
}

impl<P> PassPlan<P> {
    /// The dynamic offsets of group `set`, in the order of its entries.
    pub fn offsets_for(&self, set: u32) -> (r: Vec<u32>)
        ensures
            r@ == offsets_in_set(self.dynamic_offsets@, set),
    {
        let mut out: Vec<u32> = Vec::new();
        let mut i: usize = 0;
        while i < self.dynamic_offsets.len()
            invariant
                i <= self.dynamic_offsets@.len(),
                out@ == offsets_in_set(self.dynamic_offsets@.take(i as int), set),
            decreases self.dynamic_offsets@.len() - i,
        {
            let (loc, offset) = self.dynamic_offsets[i];
            assert(self.dynamic_offsets@.take(i + 1).drop_last() =~= self.dynamic_offsets@.take(
                i as int,
            ));
            if loc.0 == set {
                out.push(offset);
            }
            i = i + 1;
        }
        assert(self.dynamic_offsets@.take(i as int) =~= self.dynamic_offsets@);
        out
    }
}

/// Takes the values out of a dispatch's slots. Every slot is looked at
/// before failing: the error lists every offset location and every
/// push-constant stage set whose slot was left empty.
pub fn resolve_pass<P>(slots: Vec<PassSlot<P>>) -> (r: Result<PassPlan<P>, Error>)
    ensures
        missing_offsets(slots@).len() == 0 && missing_stages(slots@).len() == 0 ==> (r matches Ok(
            plan,
        ) && plan.push_constants@ == supplied_push_constants(slots@) && plan.dynamic_offsets@
            == supplied_offsets(slots@)),
        missing_offsets(slots@).len() > 0 || missing_stages(slots@).len() > 0 ==> (r matches Err(
            Error::PassConstruction(offsets, stages),
        ) && offsets@ == missing_offsets(slots@) && stages@ == missing_stages(slots@)),
{
    let ghost orig = slots@;
    let mut remaining = slots;
    let n = remaining.len();
    let mut push_constants: Vec<(u64, P)> = Vec::new();
    let mut dynamic_offsets: Vec<((u32, u32), u32)> = Vec::new();
    let mut offset_errors: Vec<(u32, u32)> = Vec::new();
    let mut push_constant_errors: Vec<ShaderStages> = Vec::new();
    let mut i: usize = 0;
    while i < n
        invariant
            orig == slots@,
            n == orig.len(),
            i <= n,
            remaining@ == orig.subrange(i as int, n as int),
            push_constants@ == supplied_push_constants(orig.take(i as int)),
            dynamic_offsets@ == supplied_offsets(orig.take(i as int)),
            offset_errors@ == missing_offsets(orig.take(i as int)),
            push_constant_errors@ == missing_stages(orig.take(i as int)),
        decreases n - i,
    {
        let slot = remaining.remove(0);
        proof {
            assert(slot == orig[i as int]);
            assert(orig.take(i + 1).drop_last() =~= orig.take(i as int));
            assert(orig.take(i + 1).last() == orig[i as int]);
        }
        match slot {
            PassSlot::PushConstantRange { visibility, start, buffer, .. } => match buffer {
                Some(b) => push_constants.push((start, b)),
                None => push_constant_errors.push(visibility),
            },
            PassSlot::DynamicOffset { loc, offset } => match offset {
                Some(o) => dynamic_offsets.push((loc, o)),
                None => offset_errors.push(loc),
            },
        }
        assert(remaining@ =~= orig.subrange(i + 1, n as int));
        i = i + 1;
    }
    assert(orig.take(n as int) =~= orig);
    if offset_errors.len() > 0 || push_constant_errors.len() > 0 {
        return Err(Error::PassConstruction(offset_errors, push_constant_errors));
    }
    Ok(PassPlan { push_constants, dynamic_offsets })
}

/// An offset slot left empty.
pub open spec fn is_empty_offset<P>(slot: PassSlot<P>) -> bool {
    slot matches PassSlot::DynamicOffset { offset: None, .. }
}

/// A push-constant slot left empty.
pub open spec fn is_empty_push_constant<P>(slot: PassSlot<P>) -> bool {
    slot matches PassSlot::PushConstantRange { buffer: None, .. }
}

proof fn lemma_missing_offsets_lists<P>(s: Seq<PassSlot<P>>, i: int)
    requires
        0 <= i < s.len(),
        is_empty_offset(s[i]),
    ensures
        missing_offsets(s).contains(s[i]->DynamicOffset_loc),
    decreases s.len(),
{
    if i == s.len() - 1 {
        assert(missing_offsets(s).last() == s[i]->DynamicOffset_loc);
    } else {
        lemma_missing_offsets_lists(s.drop_last(), i);
        let k = choose|k: int|
            0 <= k < missing_offsets(s.drop_last()).len() && missing_offsets(s.drop_last())[k]
                == s[i]->DynamicOffset_loc;
        assert(missing_offsets(s)[k] == s[i]->DynamicOffset_loc);
    }
}

proof fn lemma_missing_stages_lists<P>(s: Seq<PassSlot<P>>, i: int)
    requires
        0 <= i < s.len(),
        is_empty_push_constant(s[i]),
    ensures
        missing_stages(s).contains(s[i]->PushConstantRange_visibility),
    decreases s.len(),
{
    if i == s.len() - 1 {
        assert(missing_stages(s).last() == s[i]->PushConstantRange_visibility);
    } else {
        lemma_missing_stages_lists(s.drop_last(), i);
        let k = choose|k: int|
            0 <= k < missing_stages(s.drop_last()).len() && missing_stages(s.drop_last())[k]
                == s[i]->PushConstantRange_visibility;
        assert(missing_stages(s)[k] == s[i]->PushConstantRange_visibility);
    }
}

/// Leaving any slots of a dispatch empty makes one error that names them
/// all together: the location of every empty offset slot and the stages of
/// every empty push-constant slot.
pub proof fn lemma_pass_reports_every_omission<P>(s: Seq<PassSlot<P>>)
    ensures
        forall|i: int|
            0 <= i < s.len() && is_empty_offset(#[trigger] s[i]) ==> missing_offsets(s).contains(
                s[i]->DynamicOffset_loc,
            ),
        forall|i: int|
            0 <= i < s.len() && is_empty_push_constant(#[trigger] s[i]) ==> missing_stages(
                s,
            ).contains(s[i]->PushConstantRange_visibility),
{
    assert forall|i: int|
        0 <= i < s.len() && is_empty_offset(#[trigger] s[i]) implies missing_offsets(s).contains(
            s[i]->DynamicOffset_loc,
        ) by {
        lemma_missing_offsets_lists(s, i);
    }
    assert forall|i: int|
        0 <= i < s.len() && is_empty_push_constant(#[trigger] s[i]) implies missing_stages(
            s,
        ).contains(s[i]->PushConstantRange_visibility) by {
        lemma_missing_stages_lists(s, i);
    }
}

// ---------------------------------------------------------------------------
// The reflection context

/// The binding table of a compute shader together with the module it was
/// inferred from, kept for building the pipeline.
pub struct ComputeReflector<M> {
    bind_groups: BindGroups,
    naga_mod: M,
}

impl<M> ComputeReflector<M> {
    /// What the binding table holds.
    pub closed spec fn state(&self) -> LayoutState {
        self.bind_groups.state()
    }

    /// The module kept for building the pipeline.
    pub closed spec fn spec_module(&self) -> M {
        self.naga_mod
    }

    /// Infers the binding table of `module` under `directives`, and keeps
    /// `naga_mod`, the same module in the form the pipeline is built from.
    pub fn new_compute(module: &ShaderModule, naga_mod: M, directives: &Directives) -> (r: Result<
        Self,
        Error,
    >)
        ensures
            match spec_build(module, directives) {
                Ok(s) => r matches Ok(c) && c.state() == s && c.spec_module() == naga_mod,
                Err(e) => r matches Err(Error::BindGroupError(e2)) && e2 == e,
            },
    {
        match BindGroups::new(module, directives) {
            Ok(bind_groups) => Ok(ComputeReflector { bind_groups, naga_mod }),
            Err(e) => Err(Error::BindGroupError(e)),
        }
    }

    /// The module kept for building the pipeline.
    pub fn module(&self) -> (r: &M)
        ensures
            *r == self.spec_module(),
    {
        &self.naga_mod
    }

    /// The workgroup size of the entry point named `entry_point`; `None`
    /// where there is no such entry point or an axis was declared as 0.
    pub fn work_group_size(&self, entry_point: &str) -> (r: Option<[u32; 3]>)
        ensures
            r == work_groups_of(self.state(), entry_point@),
    {
        self.bind_groups.work_group_size(entry_point)
    }

    /// The names of the entry points, each once, in the order first declared.
    pub fn entry_points(&self) -> (r: Vec<String>)
        ensures
            r@.len() == self.state().entry_points.len(),
            forall|i: int| 0 <= i < r@.len() ==> r@[i] == #[trigger] self.state().entry_points[i].0,
    {
        self.bind_groups.entry_points()
    }

    /// The push-constant range, where the module declares a push-constant
    /// block.
    pub fn push_constant_range(&self) -> (r: Option<PushConstantRange>)
        ensures
            r == self.state().push_constant_range,
    {
        self.bind_groups.push_constant_range()
    }

    /// The highest group index that holds an entry, or 0 where none does.
    pub fn bind_group_count(&self) -> (r: usize)
        ensures
            r == spec_bind_group_count(self.state()),
            r <= u32::MAX,
    {
        self.bind_groups.bind_group_count()
    }

    /// The number of entries of group `set`.
    pub fn bind_group_entries_count(&self, set: u32) -> (r: usize)
        ensures
            r == entries_of(self.state(), set).len(),
    {
        self.bind_groups.bind_group_entries_count(set)
    }

    /// The entries of group `set` in the order they were found; empty for a
    /// group past the last one.
    pub fn iter_bind_group_entries(&self, set: u32) -> (r: &[BindGroupLayoutEntry])
        ensures
            r@ == entries_of(self.state(), set),
    {
        self.bind_groups.get_bind_group_layout_entries(set)
    }

    /// The entry recorded for `(set, binding)`, if any.
    pub fn get_bind_group_layout_entry(&self, set: u32, binding: u32) -> (r: Option<
        BindGroupLayoutEntry,
    >)
        ensures
            r == entry_at(self.state(), crate::shader::ResourceLocation { group: set, binding }),
            r matches Some(e) ==> e.binding == binding,
    {
        self.bind_groups.get_bind_group_layout_entry(set, binding)
    }

    /// The layout description of group `set`, without a label.
    pub fn get_bind_group_layout_descriptor(&self, set: u32) -> (r: BindGroupLayoutDescriptor<'_>)
        ensures
            r.label is None,
            r.entries@ == entries_of(self.state(), set),
    {
        let entries = self.bind_groups.get_bind_group_layout_entries(set);
        BindGroupLayoutDescriptor { label: None, entries }
    }

    /// One empty slot for each entry of group `set`, in entry order.
    pub fn bind_slots<B, T, S>(&self, set: u32) -> (r: Vec<BindSlot<B, T, S>>)
        requires
            forall|i: int|
                0 <= i < entries_of(self.state(), set).len() ==> !((#[trigger] entries_of(
                    self.state(),
                    set,
                )[i]).ty is AccelerationStructure),
        ensures
            r@.len() == entries_of(self.state(), set).len(),
            forall|i: int|
                0 <= i < r@.len() ==> (#[trigger] r@[i]).shape() == slot_shape_for(
                    set,
                    entries_of(self.state(), set)[i],
                ) && !r@[i].is_filled(),
    {
        let entries = self.bind_groups.get_bind_group_layout_entries(set);
        let mut slots: Vec<BindSlot<B, T, S>> = Vec::new();
        let mut i: usize = 0;
        while i < entries.len()
            invariant
                entries@ == entries_of(self.state(), set),
                forall|k: int| 0 <= k < entries@.len() ==> !((#[trigger] entries@[k]).ty is AccelerationStructure),
                i <= entries@.len(),
                slots@.len() == i,
                forall|k: int|
                    0 <= k < i ==> (#[trigger] slots@[k]).shape() == slot_shape_for(set, entries@[k])
                        && !slots@[k].is_filled(),
            decreases entries@.len() - i,
        {
            slots.push(BindSlot::from_entry(set, &entries[i]));
            i = i + 1;
        }
        slots
    }

    /// The slots a dispatch asks to be filled: one for the push-constant
    /// range, where there is one, then one for each entry that takes a
    /// dynamic offset, group by group in entry order.
    pub fn pass_slots<P>(&self) -> (r: Vec<PassSlot<P>>)
        ensures
            r@ == expected_pass_slots::<P>(self.state()),
    {
        let ghost s = self.state();
        let mut slots: Vec<PassSlot<P>> = Vec::new();
        if let Some(range) = self.push_constant_range() {
            slots.push(PassSlot::from(&range));
        }
        let ghost pc = slots@;
        assert(pc + offset_slots_upto::<P>(s, 0) =~= slots@);
        let count = self.bind_group_count() as u64;
        let mut set: u64 = 0;
        while set <= count
            invariant
                s == self.state(),
                count == spec_bind_group_count(s),
                count <= u32::MAX,
                set <= count + 1,
                pc == match s.push_constant_range {
                    Some(r) => seq![
                        PassSlot::<P>::PushConstantRange {
                            visibility: r.stages,
                            start: r.start,
                            end: r.end,
                            buffer: None,
                        },
                    ],
                    None => Seq::empty(),
                },
                slots@ == pc + offset_slots_upto::<P>(s, set as int),
            decreases count + 1 - set,
        {
            let entries = self.bind_groups.get_bind_group_layout_entries(set as u32);
            let ghost before = slots@;
            let mut j: usize = 0;
            assert(entries@.take(0) =~= Seq::<BindGroupLayoutEntry>::empty());
            while j < entries.len()
                invariant
                    j <= entries@.len(),
                    slots@ == before + offset_slots_in::<P>(entries@.take(j as int), set as u32),
                decreases entries@.len() - j,
            {
                let entry = entries[j];
                assert(entries@.take(j + 1).drop_last() =~= entries@.take(j as int));
                if entry.ty.has_dynamic_offset() {
                    slots.push(PassSlot::offset_for(set as u32, entry.binding));
                }
                proof {
                    let grown = offset_slots_in::<P>(entries@.take(j + 1), set as u32);
                    assert(slots@ =~= before + grown);
                }
                j = j + 1;
            }
            assert(entries@.take(j as int) =~= entries@);
            assert(slots@ =~= pc + offset_slots_upto::<P>(s, set + 1));
            set = set + 1;
        }
        slots
    }
}

} // verus!
