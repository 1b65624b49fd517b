//! Binding inference: walks a module's entry points and global variables
//! once and builds the table of bind group layouts and the push-constant
//! range.
use vstd::prelude::*;

use crate::ir_utils::{
    get_image_information, image_dim, image_information_of, is_image, is_image_type, sample_kind,
    spec_image_dim, spec_sample_kind, spec_storage_access, spec_texture_fmt, spec_type_array_ct,
    spec_type_size, storage_access, texture_fmt, type_array_ct, type_size,
};
use crate::layout::{
    BindGroupLayoutEntry, BindingType, BufferBindingType, PushConstantRange, SamplerBindingType,
    ShaderStages, TextureSampleType,
};
use crate::preprocessing::{last_at, Directives, FilterMode, UniformHint};
use crate::shader::{
    AddressSpace, ArraySize, GlobalVariable, ImageClass, ResourceLocation, ShaderModule, ShaderStage,
    StorageAccess, TypeInner,
};

verus! {

#[derive(Clone, Copy, Debug, PartialEq, Eq)]
pub enum BindGroupError {
    /// Wrong or ambiguous stage in the module.
    Stage,
    /// A global of a type that cannot be bound.
    GlobalType(&'static str),
    /// A type that should never stand in the uniform address space.
    UniformAddressMismatch(&'static str),
    /// A type handle that the module's type table does not hold.
    MissingTypeHandle,
    /// A type that its address space cannot hold.
    UnexpectedType,
    /// The module has no entry point.
    NoEntryPoint,
    /// The module has more entry points than one.
    TooManyEntryPoints,
    /// The binding at `(group, binding)` was not supplied.
    MissingBindGroupEntry(u32, u32),
}

/// A layout entry made for a global variable, with the variable's location
/// and declared name.
#[derive(Debug)]
pub struct BindingInfo {
    pub entry: BindGroupLayoutEntry,
    pub binding: ResourceLocation,
    pub name: Option<String>,
}

/// What one global variable contributes to the table.
#[derive(Debug)]
pub enum GlobalVar {
    PushConstant(PushConstantRange),
    Uniform(BindingInfo),
}

/// Where the entry for one location stands in the table.
#[derive(Debug)]
pub struct EntryMetaData {
    pub set_idx: usize,
    pub entry_idx: usize,
    pub name: Option<String>,
}

/// What the table records of an entry point. `work_groups` is `None` where
/// an axis of the declared workgroup size is 0.
#[derive(Clone, Copy, Debug)]
pub struct EntryPointMetaData {
    pub stage: ShaderStage,
    pub work_groups: Option<[u32; 3]>,
}

/// The contents of a binding table.
pub struct LayoutState {
    /// Entries of each group, in the order they were found.
    pub groups: Seq<Seq<BindGroupLayoutEntry>>,
    /// Where the entry of each location stands; a later record for the same
    /// location takes the place of an earlier one.
    pub locations: Seq<(ResourceLocation, EntryMetaData)>,
    pub push_constant_range: Option<PushConstantRange>,
    /// Entry points by name, each name once, in the order first declared.
    pub entry_points: Seq<(String, EntryPointMetaData)>,
}

// ---------------------------------------------------------------------------
// What inference computes

pub open spec fn has_stage(module: &ShaderModule, n: int, stage: ShaderStage) -> bool {
    exists|i: int| 0 <= i < n && (#[trigger] module.entry_points@[i]).stage == stage
}

/// The stages of the first `n` entry points.
pub open spec fn stages_upto(module: &ShaderModule, n: int) -> ShaderStages {
    ShaderStages {
        vertex: has_stage(module, n, ShaderStage::Vertex),
        fragment: has_stage(module, n, ShaderStage::Fragment),
        compute: has_stage(module, n, ShaderStage::Compute),
    }
}

/// The stages of all entry points: the visibility of every entry.
pub open spec fn stage_mask(module: &ShaderModule) -> ShaderStages {
    stages_upto(module, module.entry_points@.len() as int)
}

pub open spec fn spec_work_groups(size: [u32; 3]) -> Option<[u32; 3]> {
    if size@[0] == 0 || size@[1] == 0 || size@[2] == 0 {
        None
    } else {
        Some(size)
    }
}

/// Index of the record named `name`, if any.
pub open spec fn ep_index(t: Seq<(String, EntryPointMetaData)>, name: Seq<char>) -> Option<int>
    decreases t.len(),
{
    if t.len() == 0 {
        None
    } else if t.last().0@ == name {
        Some(t.len() - 1)
    } else {
        ep_index(t.drop_last(), name)
    }
}

pub open spec fn ep_insert(
    t: Seq<(String, EntryPointMetaData)>,
    name: String,
    meta: EntryPointMetaData,
) -> Seq<(String, EntryPointMetaData)> {
    match ep_index(t, name@) {
        Some(k) => t.update(k, (t[k].0, meta)),
        None => t.push((name, meta)),
    }
}

/// The entry-point records of the first `n` entry points.
pub open spec fn ep_table(module: &ShaderModule, n: int) -> Seq<(String, EntryPointMetaData)>
    decreases n,
{
    if n <= 0 {
        Seq::empty()
    } else {
        let ep = module.entry_points@[n - 1];
        ep_insert(
            ep_table(module, n - 1),
            ep.name,
            EntryPointMetaData { stage: ep.stage, work_groups: spec_work_groups(ep.workgroup_size) },
        )
    }
}

pub open spec fn is_acceleration_structure(module: &ShaderModule, ty: usize) -> bool {
    match module.type_at(ty) {
        Some(t) => t.inner is AccelerationStructure,
        None => false,
    }
}

pub open spec fn spec_min_binding_size(module: &ShaderModule, ty: usize, hint: UniformHint) -> Option<
    u64,
> {
    if hint.calculate_min_binding_size {
        spec_type_size(module, ty)
    } else {
        None
    }
}

pub open spec fn spec_infer_uniform(
    module: &ShaderModule,
    global: GlobalVariable,
    hint: UniformHint,
) -> BindingType {
    if is_acceleration_structure(module, global.ty) {
        BindingType::AccelerationStructure
    } else {
        BindingType::Buffer {
            ty: BufferBindingType::Uniform,
            has_dynamic_offset: hint.dynamic_offset,
            min_binding_size: spec_min_binding_size(module, global.ty, hint),
        }
    }
}

pub open spec fn spec_infer_storage(
    access: StorageAccess,
    hint: UniformHint,
    module: &ShaderModule,
    ty: usize,
) -> Result<BindingType, BindGroupError> {
    match module.type_at(ty) {
        None => Err(BindGroupError::MissingTypeHandle),
        Some(t) => if is_image_type(t.inner) {
            match image_information_of(t.inner) {
                Some((format, view_dimension)) => Ok(
                    BindingType::StorageTexture {
                        access: spec_storage_access(access),
                        format,
                        view_dimension,
                    },
                ),
                None => Err(BindGroupError::MissingTypeHandle),
            }
        } else {
            Ok(
                BindingType::Buffer {
                    ty: BufferBindingType::Storage { read_only: access.load && !access.store },
                    has_dynamic_offset: hint.dynamic_offset,
                    min_binding_size: spec_min_binding_size(module, ty, hint),
                },
            )
        },
    }
}

pub open spec fn spec_infer_handle_inner(
    directives: &Directives,
    binding: ResourceLocation,
    t: TypeInner,
) -> Result<BindingType, BindGroupError>
    decreases t,
{
    match t {
        TypeInner::Sampler { comparison } => if comparison {
            Ok(BindingType::Sampler(SamplerBindingType::Comparison))
        } else {
            match directives.sampler_hint(binding).filter {
                FilterMode::Nearest => Ok(BindingType::Sampler(SamplerBindingType::NonFiltering)),
                FilterMode::Linear => Ok(BindingType::Sampler(SamplerBindingType::Filtering)),
            }
        },
        TypeInner::Image { dim, class, .. } => match class {
            ImageClass::Sampled { kind, multi } => Ok(
                BindingType::Texture {
                    view_dimension: spec_image_dim(dim),
                    sample_type: spec_sample_kind(kind),
                    multisampled: multi,
                },
            ),
            ImageClass::Depth { multi } => Ok(
                BindingType::Texture {
                    view_dimension: spec_image_dim(dim),
                    sample_type: TextureSampleType::Depth,
                    multisampled: multi,
                },
            ),
            ImageClass::Storage { format, access } => Ok(
                BindingType::StorageTexture {
                    access: spec_storage_access(access),
                    format: spec_texture_fmt(format),
                    view_dimension: spec_image_dim(dim),
                },
            ),
        },
        TypeInner::BindingArray { base, .. } => spec_infer_handle_inner(directives, binding, *base),
        _ => Err(BindGroupError::UnexpectedType),
    }
}

pub open spec fn spec_infer_handle(
    directives: &Directives,
    binding: ResourceLocation,
    module: &ShaderModule,
    ty: usize,
) -> Result<BindingType, BindGroupError> {
    match module.type_at(ty) {
        None => Err(BindGroupError::MissingTypeHandle),
        Some(t) => spec_infer_handle_inner(directives, binding, t.inner),
    }
}

/// The least multiple of 4 that is at least `n`.
pub open spec fn round_up_to_4(n: nat) -> nat {
    if n % 4 == 0 {
        n
    } else {
        (n + (4 - n % 4)) as nat
    }
}

pub open spec fn spec_push_constant(stages: ShaderStages, module: &ShaderModule, ty: usize) -> Result<
    GlobalVar,
    BindGroupError,
> {
    match module.type_at(ty) {
        None => Err(BindGroupError::MissingTypeHandle),
        Some(t) => Ok(
            GlobalVar::PushConstant(
                PushConstantRange { stages, start: 0, end: round_up_to_4(t.size as nat) as u64 },
            ),
        ),
    }
}

pub open spec fn spec_new_uniform(
    ty: BindingType,
    global: GlobalVariable,
    module: &ShaderModule,
    visibility: ShaderStages,
) -> Option<GlobalVar> {
    match global.binding {
        Some(b) => Some(
            GlobalVar::Uniform(
                BindingInfo {
                    entry: BindGroupLayoutEntry {
                        binding: b.binding,
                        visibility,
                        ty,
                        count: spec_type_array_ct(module, global.ty),
                    },
                    binding: b,
                    name: global.name,
                },
            ),
        ),
        None => None,
    }
}

/// What one global variable contributes to the table.
pub open spec fn spec_process_global(
    directives: &Directives,
    module: &ShaderModule,
    global: GlobalVariable,
    visibility: ShaderStages,
) -> Result<Option<GlobalVar>, BindGroupError> {
    match global.space {
        AddressSpace::Function | AddressSpace::Private | AddressSpace::WorkGroup => Ok(None),
        AddressSpace::Uniform => match global.binding {
            None => Ok(None),
            Some(b) => Ok(
                spec_new_uniform(
                    spec_infer_uniform(module, global, directives.uniform_hint(b)),
                    global,
                    module,
                    visibility,
                ),
            ),
        },
        AddressSpace::Storage { access } => match global.binding {
            None => Ok(None),
            Some(b) => match spec_infer_storage(
                access,
                directives.uniform_hint(b),
                module,
                global.ty,
            ) {
                Ok(ty) => Ok(spec_new_uniform(ty, global, module, visibility)),
                Err(e) => Err(e),
            },
        },
        AddressSpace::Handle => match global.binding {
            None => Ok(None),
            Some(b) => match spec_infer_handle(directives, b, module, global.ty) {
                Ok(ty) => Ok(spec_new_uniform(ty, global, module, visibility)),
                Err(e) => Err(e),
            },
        },
        AddressSpace::PushConstant => match spec_push_constant(visibility, module, global.ty) {
            Ok(g) => Ok(Some(g)),
            Err(e) => Err(e),
        },
    }
}

/// Adds `info`'s entry to the end of its group, growing the list of groups
/// with empty ones as far as needed, and records where it stands.
pub open spec fn spec_update(s: LayoutState, info: BindingInfo) -> LayoutState {
    let g = info.binding.group as int;
    let grown = if s.groups.len() > g {
        s.groups
    } else {
        s.groups + Seq::new((g + 1 - s.groups.len()) as nat, |i: int| Seq::<BindGroupLayoutEntry>::empty())
    };
    let groups = grown.update(g, grown[g].push(info.entry));
    LayoutState {
        groups,
        locations: s.locations.push(
            (
                info.binding,
                EntryMetaData {
                    set_idx: g as usize,
                    entry_idx: grown[g].len() as usize,
                    name: info.name,
                },
            ),
        ),
        push_constant_range: s.push_constant_range,
        entry_points: s.entry_points,
    }
}

/// The table after the first `n` global variables, or the first error.
pub open spec fn fold_globals(module: &ShaderModule, directives: &Directives, n: int) -> Result<
    LayoutState,
    BindGroupError,
>
    decreases n,
{
    if n <= 0 {
        Ok(
            LayoutState {
                groups: Seq::empty(),
                locations: Seq::empty(),
                push_constant_range: None,
                entry_points: ep_table(module, module.entry_points@.len() as int),
            },
        )
    } else {
        match fold_globals(module, directives, n - 1) {
            Err(e) => Err(e),
            Ok(s) => match spec_process_global(
                directives,
                module,
                module.global_variables@[n - 1],
                stage_mask(module),
            ) {
                Err(e) => Err(e),
                Ok(None) => Ok(s),
                Ok(Some(GlobalVar::PushConstant(pc))) => Ok(
                    LayoutState { push_constant_range: Some(pc), ..s },
                ),
                Ok(Some(GlobalVar::Uniform(info))) => Ok(spec_update(s, info)),
            },
        }
    }
}

/// The table that inference builds from `module`, or the error it stops on.
pub open spec fn spec_build(module: &ShaderModule, directives: &Directives) -> Result<
    LayoutState,
    BindGroupError,
> {
    if module.entry_points@.len() == 0 {
        Err(BindGroupError::NoEntryPoint)
    } else {
        fold_globals(module, directives, module.global_variables@.len() as int)
    }
}

/// Every recorded location points at an entry of that location, and the
/// last group, where there is one, is not empty.
pub open spec fn layout_wf(s: LayoutState) -> bool {
    &&& forall|k: int|
        0 <= k < s.locations.len() ==> {
            let (loc, m) = #[trigger] s.locations[k];
            &&& m.set_idx == loc.group
            &&& m.set_idx < s.groups.len()
            &&& m.entry_idx < s.groups[m.set_idx as int].len()
            &&& s.groups[m.set_idx as int][m.entry_idx as int].binding == loc.binding
        }
    &&& s.groups.len() > 0 ==> s.groups.last().len() > 0
    &&& s.groups.len() <= u32::MAX + 1
}

/// The entries of group `set`; empty for a group the table does not have.
pub open spec fn entries_of(s: LayoutState, set: u32) -> Seq<BindGroupLayoutEntry> {
    if (set as int) < s.groups.len() {
        s.groups[set as int]
    } else {
        Seq::empty()
    }
}

/// The entry recorded for `loc`, if any.
pub open spec fn entry_at(s: LayoutState, loc: ResourceLocation) -> Option<BindGroupLayoutEntry> {
    match last_at(s.locations, loc) {
        Some(m) => Some(s.groups[m.set_idx as int][m.entry_idx as int]),
        None => None,
    }
}

/// The highest group index that holds an entry, or 0 where none does.
pub open spec fn spec_bind_group_count(s: LayoutState) -> nat {
    if s.groups.len() == 0 {
        0
    } else {
        (s.groups.len() - 1) as nat
    }
}

/// The workgroup size recorded for the entry point named `name`.
pub open spec fn work_groups_of(s: LayoutState, name: Seq<char>) -> Option<[u32; 3]> {
    match ep_index(s.entry_points, name) {
        Some(k) => s.entry_points[k].1.work_groups,
        None => None,
    }
}

proof fn lemma_update_wf(s: LayoutState, info: BindingInfo)
    requires
        layout_wf(s),
        info.entry.binding == info.binding.binding,
        (info.binding.group as int) < s.groups.len() ==> s.groups[info.binding.group as int].len()
            < usize::MAX,
    ensures
        layout_wf(spec_update(s, info)),
{
    let t = spec_update(s, info);
    let g = info.binding.group as int;
    let grown = if s.groups.len() > g {
        s.groups
    } else {
        s.groups + Seq::new((g + 1 - s.groups.len()) as nat, |i: int| Seq::<BindGroupLayoutEntry>::empty())
    };
    assert(forall|j: int| 0 <= j < s.groups.len() ==> grown[j] == s.groups[j]);
    assert forall|k: int| 0 <= k < t.locations.len() implies {
        let (loc, m) = #[trigger] t.locations[k];
        &&& m.set_idx == loc.group
        &&& m.set_idx < t.groups.len()
        &&& m.entry_idx < t.groups[m.set_idx as int].len()
        &&& t.groups[m.set_idx as int][m.entry_idx as int].binding == loc.binding
    } by {
        if k < s.locations.len() {
            assert(t.locations[k] == s.locations[k]);
            let (loc, m) = s.locations[k];
            let j = m.set_idx as int;
            if j == g {
                assert(t.groups[j] == s.groups[j].push(info.entry));
                assert(t.groups[j][m.entry_idx as int] == s.groups[j][m.entry_idx as int]);
            } else {
                assert(t.groups[j] == s.groups[j]);
            }
        } else {
            assert(t.groups[g] == grown[g].push(info.entry));
        }
    }
    if t.groups.len() > 0 {
        if g == t.groups.len() - 1 {
            assert(t.groups.last() == grown[g].push(info.entry));
        } else {
            assert(grown.len() == s.groups.len());
            assert(t.groups.last() == s.groups.last());
        }
    }
}

proof fn lemma_ep_index_in_range(t: Seq<(String, EntryPointMetaData)>, name: Seq<char>)
    ensures
        ep_index(t, name) matches Some(k) ==> 0 <= k < t.len() && t[k].0@ == name,
    decreases t.len(),
{
    if t.len() > 0 && t.last().0@ != name {
        lemma_ep_index_in_range(t.drop_last(), name);
    }
}

proof fn lemma_fold_err_stays(module: &ShaderModule, directives: &Directives, k: int, n: int)
    requires
        0 <= k <= n,
        fold_globals(module, directives, k) is Err,
    ensures
        fold_globals(module, directives, n) == fold_globals(module, directives, k),
    decreases n - k,
{
    if k < n {
        lemma_fold_err_stays(module, directives, k, n - 1);
    }
}

pub open spec fn groups_view(bindings: Seq<Vec<BindGroupLayoutEntry>>) -> Seq<Seq<BindGroupLayoutEntry>> {
    bindings.map_values(|g: Vec<BindGroupLayoutEntry>| g@)
}

pub open spec fn layout_of(
    bindings: Seq<Vec<BindGroupLayoutEntry>>,
    locations: Seq<(ResourceLocation, EntryMetaData)>,
    push_constant_range: Option<PushConstantRange>,
    entry_points: Seq<(String, EntryPointMetaData)>,
) -> LayoutState {
    LayoutState { groups: groups_view(bindings), locations, push_constant_range, entry_points }
}

// ---------------------------------------------------------------------------
// Classifying one global variable

fn clone_name(name: &Option<String>) -> (r: Option<String>)
    ensures
        r == *name,
{
    match name {
        Some(s) => Some(s.clone()),
        None => None,
    }
}

/// The binding type of a uniform-space global: an acceleration structure
/// where its type is one, else a uniform buffer.
fn infer_uniform_binding_type(
    module: &ShaderModule,
    global: &GlobalVariable,
    uniform_hint: &UniformHint,
) -> (r: BindingType)
    ensures
        r == spec_infer_uniform(module, *global, *uniform_hint),
{
    let min_binding_size = if uniform_hint.calculate_min_binding_size {
        type_size(module, global.ty)
    } else {
        None
    };
    let is_acc_struct = global.ty < module.types.len() && match module.types[global.ty].inner {
        TypeInner::AccelerationStructure => true,
        _ => false,
    };
    if is_acc_struct {
        BindingType::AccelerationStructure
    } else {
        BindingType::Buffer {
            ty: BufferBindingType::Uniform,
            has_dynamic_offset: uniform_hint.dynamic_offset,
            min_binding_size,
        }
    }
}

/// The binding type of a storage-space global: a storage texture where its
/// type is an image, else a storage buffer that is read-only exactly when
/// the access is load without store.
fn infer_storage_binding_type(
    access: StorageAccess,
    uniform_hint: UniformHint,
    module: &ShaderModule,
    ty: &usize,
) -> (r: Result<BindingType, BindGroupError>)
    ensures
        r == spec_infer_storage(access, uniform_hint, module, *ty),
{
    let is_image = match is_image(module, *ty) {
        Ok(b) => b,
        Err(_) => return Err(BindGroupError::MissingTypeHandle),
    };
    if is_image {
        let access = storage_access(&access);
        match get_image_information(module, *ty) {
            Some((fmt, view_dimension)) => Ok(
                BindingType::StorageTexture { access, format: fmt, view_dimension },
            ),
            None => Err(BindGroupError::MissingTypeHandle),
        }
    } else {
        let min_binding_size = if uniform_hint.calculate_min_binding_size {
            type_size(module, *ty)
        } else {
            None
        };
        Ok(
            BindingType::Buffer {
                ty: BufferBindingType::Storage { read_only: access.load && !access.store },
                has_dynamic_offset: uniform_hint.dynamic_offset,
                min_binding_size,
            },
        )
    }
}

fn infer_handle_inner(directives: &Directives, binding: &ResourceLocation, t: &TypeInner) -> (r:
    Result<BindingType, BindGroupError>)
    ensures
        r == spec_infer_handle_inner(directives, *binding, *t),
    decreases t,
{
    match t {
        TypeInner::Sampler { comparison } => {
            let sampler_hint = directives.get_sampler_hint(binding);
            if *comparison {
                Ok(BindingType::Sampler(SamplerBindingType::Comparison))
            } else {
                match sampler_hint.filter {
                    FilterMode::Nearest => Ok(BindingType::Sampler(SamplerBindingType::NonFiltering)),
                    FilterMode::Linear => Ok(BindingType::Sampler(SamplerBindingType::Filtering)),
                }
            }
        },
        TypeInner::Image { dim, class, .. } => match class {
            ImageClass::Sampled { kind, multi } => Ok(
                BindingType::Texture {
                    view_dimension: image_dim(dim),
                    sample_type: sample_kind(kind),
                    multisampled: *multi,
                },
            ),
            ImageClass::Depth { multi } => Ok(
                BindingType::Texture {
                    view_dimension: image_dim(dim),
                    sample_type: TextureSampleType::Depth,
                    multisampled: *multi,
                },
            ),
            ImageClass::Storage { format, access } => Ok(
                BindingType::StorageTexture {
                    access: storage_access(access),
                    format: texture_fmt(format),
                    view_dimension: image_dim(dim),
                },
            ),
        },
        TypeInner::BindingArray { base, .. } => infer_handle_inner(directives, binding, &**base),
        _ => Err(BindGroupError::UnexpectedType),
    }
}

/// The binding type of a handle-space global: a sampler, texture or storage
/// texture, looking through binding arrays.
fn infer_handle_binding_type(
    directives: &Directives,
    binding: &ResourceLocation,
    module: &ShaderModule,
    ty: &usize,
) -> (r: Result<BindingType, BindGroupError>)
    ensures
        r == spec_infer_handle(directives, *binding, module, *ty),
{
    if *ty < module.types.len() {
        infer_handle_inner(directives, binding, &module.types[*ty].inner)
    } else {
        Err(BindGroupError::MissingTypeHandle)
    }
}

/// The push-constant range of a block of type `ty`: its byte size rounded
/// up to a multiple of 4, visible to `stages`.
fn push_constant_ranges(stages: ShaderStages, module: &ShaderModule, ty: &usize) -> (r: Result<
    GlobalVar,
    BindGroupError,
>)
    ensures
        r == spec_push_constant(stages, module, *ty),
        r matches Ok(GlobalVar::PushConstant(pc)) ==> pc.start == 0 && pc.end % 4 == 0
            && module.types@[*ty as int].size <= pc.end < module.types@[*ty as int].size + 4,
{
    if *ty >= module.types.len() {
        return Err(BindGroupError::MissingTypeHandle);
    }
    let size = module.types[*ty].size as u64;
    let end = if size % 4 == 0 {
        size
    } else {
        size + (4 - size % 4)
    };
    Ok(GlobalVar::PushConstant(PushConstantRange { stages, start: 0, end }))
}

impl GlobalVar {
    /// Classifies one global variable: `None` where it is not bound from
    /// outside (function, private and workgroup variables, and variables
    /// without a location), a push-constant range for a push-constant
    /// block, else a layout entry.
    pub fn process_global_var(
        directives: &Directives,
        module: &ShaderModule,
        global: &GlobalVariable,
        visibility: ShaderStages,
    ) -> (r: Result<Option<GlobalVar>, BindGroupError>)
        ensures
            r == spec_process_global(directives, module, *global, visibility),
    {
        match global.space {
            AddressSpace::Function | AddressSpace::Private | AddressSpace::WorkGroup => Ok(None),
            AddressSpace::Uniform => {
                let binding = match &global.binding {
                    Some(b) => b,
                    None => return Ok(None),
                };
                let uniform_hint = directives.get_uniform_hint(binding);
                let ty = infer_uniform_binding_type(module, global, &uniform_hint);
                Ok(GlobalVar::new_uniform(ty, global, module, visibility))
            },
            AddressSpace::Storage { access } => {
                let binding = match &global.binding {
                    Some(b) => b,
                    None => return Ok(None),
                };
                let uniform_hint = directives.get_uniform_hint(binding);
                let ty = match infer_storage_binding_type(access, uniform_hint, module, &global.ty) {
                    Ok(ty) => ty,
                    Err(e) => return Err(e),
                };
                Ok(GlobalVar::new_uniform(ty, global, module, visibility))
            },
            AddressSpace::Handle => {
                let binding = match &global.binding {
                    Some(b) => b,
                    None => return Ok(None),
                };
                let ty = match infer_handle_binding_type(directives, binding, module, &global.ty) {
                    Ok(ty) => ty,
                    Err(e) => return Err(e),
                };
                Ok(GlobalVar::new_uniform(ty, global, module, visibility))
            },
            AddressSpace::PushConstant => match push_constant_ranges(visibility, module, &global.ty) {
                Ok(g) => Ok(Some(g)),
                Err(e) => Err(e),
            },
        }
    }

    /// The layout entry of a global with binding type `ty`, or `None` where
    /// the global has no location.
    pub fn new_uniform(
        ty: BindingType,
        global: &GlobalVariable,
        module: &ShaderModule,
        visibility: ShaderStages,
    ) -> (r: Option<GlobalVar>)
        ensures
            r == spec_new_uniform(ty, *global, module, visibility),
    {
        let count = type_array_ct(module, &global.ty);
        match global.binding {
            Some(binding) => {
                let entry = BindGroupLayoutEntry { binding: binding.binding, visibility, ty, count };
                Some(GlobalVar::Uniform(BindingInfo { entry, binding, name: clone_name(&global.name) }))
            },
            None => None,
        }
    }
}

// ---------------------------------------------------------------------------
// The table

/// Adds `info`'s entry to the end of its group, growing the list of groups
/// with empty ones as far as needed, and records where it stands.
fn update_entry_map(
    info: BindingInfo,
    bindings: &mut Vec<Vec<BindGroupLayoutEntry>>,
    map: &mut Vec<(ResourceLocation, EntryMetaData)>,
)
    requires
        info.entry.binding == info.binding.binding,
        layout_wf(layout_of(old(bindings)@, old(map)@, None, Seq::empty())),
    ensures
        groups_view(final(bindings)@) == spec_update(
            layout_of(old(bindings)@, old(map)@, None, Seq::empty()),
            info,
        ).groups,
        final(map)@ == spec_update(layout_of(old(bindings)@, old(map)@, None, Seq::empty()), info).locations,
        layout_wf(layout_of(final(bindings)@, final(map)@, None, Seq::empty())),
{
    let ghost s = layout_of(old(bindings)@, old(map)@, None, Seq::empty());
    let ghost t = spec_update(s, info);
    let BindingInfo { entry, binding, name } = info;
    let g = binding.group as usize;
    if bindings.len() <= g {
        while bindings.len() <= g
            invariant
                old(bindings)@.len() <= bindings@.len() <= g + 1,
                forall|j: int| 0 <= j < old(bindings)@.len() ==> bindings@[j] == old(bindings)@[j],
                forall|j: int|
                    old(bindings)@.len() <= j < bindings@.len() ==> (#[trigger] bindings@[j])@
                        == Seq::<BindGroupLayoutEntry>::empty(),
            decreases g + 1 - bindings@.len(),
        {
            bindings.push(Vec::new());
        }
    }
    let ghost grown = bindings@;
    assert(groups_view(grown) =~= (if s.groups.len() > g as int {
        s.groups
    } else {
        s.groups + Seq::new((g + 1 - s.groups.len()) as nat, |i: int| Seq::<BindGroupLayoutEntry>::empty())
    }));
    bindings[g].push(entry);
    let entry_idx = bindings[g].len() - 1;
    map.push((binding, EntryMetaData { set_idx: g, entry_idx, name }));
    proof {
        assert(groups_view(bindings@) =~= t.groups);
        assert(map@ =~= t.locations);
        lemma_update_wf(s, info);
    }
}

/// Finds the record named `name`, from the last one down.
fn find_entry_point(table: &Vec<(String, EntryPointMetaData)>, name: &String) -> (r: Option<usize>)
    ensures
        match r {
            Some(k) => k < table@.len() && ep_index(table@, name@) == Some(k as int),
            None => ep_index(table@, name@) is None,
        },
{
    proof {
        lemma_ep_index_in_range(table@, name@);
    }
    let mut i: usize = table.len();
    assert(table@.take(i as int) =~= table@);
    while i > 0
        invariant
            i <= table@.len(),
            ep_index(table@, name@) == ep_index(table@.take(i as int), name@),
        decreases i,
    {
        assert(table@.take(i as int).drop_last() =~= table@.take(i - 1));
        assert(table@.take(i as int).last() == table@[i - 1]);
        if table[i - 1].0 == *name {
            return Some(i - 1);
        }
        i = i - 1;
    }
    None
}

/// Finds the record for `loc`, from the last one down.
fn find_location(map: &Vec<(ResourceLocation, EntryMetaData)>, loc: ResourceLocation) -> (r: Option<
    usize,
>)
    ensures
        match r {
            Some(k) => k < map@.len() && map@[k as int].0 == loc && last_at(map@, loc) == Some(
                map@[k as int].1,
            ),
            None => last_at(map@, loc) is None,
        },
{
    let mut i: usize = map.len();
    assert(map@.take(i as int) =~= map@);
    while i > 0
        invariant
            i <= map@.len(),
            last_at(map@, loc) == last_at(map@.take(i as int), loc),
        decreases i,
    {
        assert(map@.take(i as int).drop_last() =~= map@.take(i - 1));
        if map[i - 1].0 == loc {
            return Some(i - 1);
        }
        i = i - 1;
    }
    None
}

/// The binding table of a module: the entries of each group in the order
/// they were found, where each location's entry stands, the push-constant
/// range and the entry points.
pub struct BindGroups {
    entry_map: Vec<(ResourceLocation, EntryMetaData)>,
    entry_points: Vec<(String, EntryPointMetaData)>,
    bindings: Vec<Vec<BindGroupLayoutEntry>>,
    push_constant_range: Option<PushConstantRange>,
}

impl BindGroups {
    /// What the table holds.
    pub closed spec fn state(&self) -> LayoutState {
        layout_of(self.bindings@, self.entry_map@, self.push_constant_range, self.entry_points@)
    }

    #[verifier::type_invariant]
    spec fn inv(&self) -> bool {
        layout_wf(self.state())
    }

    /// Builds the table of `module`: the visibility of every entry is the
    /// set of stages of all entry points, and the global variables are
    /// classified in order, stopping at the first error.
    pub fn new(module: &ShaderModule, directives: &Directives) -> (r: Result<Self, BindGroupError>)
        ensures
            match spec_build(module, directives) {
                Ok(s) => r matches Ok(t) && t.state() == s,
                Err(e) => r matches Err(e2) && e2 == e,
            },
    {
        if module.entry_points.len() == 0 {
            return Err(BindGroupError::NoEntryPoint);
        }
        let mut visibility = ShaderStages::none();
        let mut entry_points: Vec<(String, EntryPointMetaData)> = Vec::new();
        let mut i: usize = 0;
        while i < module.entry_points.len()
            invariant
                i <= module.entry_points@.len(),
                visibility == stages_upto(module, i as int),
                entry_points@ == ep_table(module, i as int),
            decreases module.entry_points@.len() - i,
        {
            let ep = &module.entry_points[i];
            match ep.stage {
                ShaderStage::Vertex => visibility.vertex = true,
                ShaderStage::Fragment => visibility.fragment = true,
                ShaderStage::Compute => visibility.compute = true,
            }
            let size = ep.workgroup_size;
            let work_groups = if size[0] == 0 || size[1] == 0 || size[2] == 0 {
                None
            } else {
                Some(size)
            };
            let meta = EntryPointMetaData { stage: ep.stage, work_groups };
            assert(meta == EntryPointMetaData {
                stage: ep.stage,
                work_groups: spec_work_groups(ep.workgroup_size),
            });
            let name = ep.name.clone();
            let ghost before = entry_points@;
            assert(ep_table(module, i + 1) == ep_insert(before, ep.name, meta));
            match find_entry_point(&entry_points, &name) {
                Some(k) => {
                    entry_points[k].1 = meta;
                    assert(entry_points@ =~= before.update(k as int, (before[k as int].0, meta)));
                },
                None => {
                    entry_points.push((name, meta));
                    assert(entry_points@ =~= before.push((ep.name, meta)));
                },
            }
            i = i + 1;
        }

        let mut entry_map: Vec<(ResourceLocation, EntryMetaData)> = Vec::new();
        let mut bindings: Vec<Vec<BindGroupLayoutEntry>> = Vec::new();
        let mut push_constant_range: Option<PushConstantRange> = None;
        let mut j: usize = 0;
        assert(groups_view(bindings@) =~= Seq::empty());
        while j < module.global_variables.len()
            invariant
                j <= module.global_variables@.len(),
                module.entry_points@.len() > 0,
                visibility == stage_mask(module),
                fold_globals(module, directives, j as int) == Ok::<LayoutState, BindGroupError>(
                    layout_of(bindings@, entry_map@, push_constant_range, entry_points@),
                ),
                layout_wf(layout_of(bindings@, entry_map@, None, Seq::empty())),
            decreases module.global_variables@.len() - j,
        {
            let global = &module.global_variables[j];
            let processed = GlobalVar::process_global_var(directives, module, global, visibility);
            assert(fold_globals(module, directives, j + 1) == match processed {
                Err(e) => Err(e),
                Ok(None) => Ok(layout_of(bindings@, entry_map@, push_constant_range, entry_points@)),
                Ok(Some(GlobalVar::PushConstant(pc))) => Ok(
                    layout_of(bindings@, entry_map@, Some(pc), entry_points@),
                ),
                Ok(Some(GlobalVar::Uniform(info))) => Ok(
                    spec_update(layout_of(bindings@, entry_map@, push_constant_range, entry_points@), info),
                ),
            });
            match processed {
                Err(e) => {
                    proof {
                        lemma_fold_err_stays(
                            module,
                            directives,
                            j + 1,
                            module.global_variables@.len() as int,
                        );
                    }
                    return Err(e);
                },
                Ok(None) => {},
                Ok(Some(GlobalVar::PushConstant(pc))) => {
                    push_constant_range = Some(pc);
                },
                Ok(Some(GlobalVar::Uniform(info))) => {
                    update_entry_map(info, &mut bindings, &mut entry_map);
                },
            }
            j = j + 1;
        }
        Ok(BindGroups { entry_map, entry_points, bindings, push_constant_range })
    }

    /// The names of the entry points, each once, in the order first declared.
    pub fn entry_points(&self) -> (r: Vec<String>)
        ensures
            r@.len() == self.state().entry_points.len(),
            forall|i: int| 0 <= i < r@.len() ==> r@[i] == #[trigger] self.state().entry_points[i].0,
    {
        let mut names: Vec<String> = Vec::new();
        let mut i: usize = 0;
        while i < self.entry_points.len()
            invariant
                i <= self.entry_points@.len(),
                names@.len() == i,
                forall|k: int| 0 <= k < i ==> names@[k] == self.entry_points@[k].0,
            decreases self.entry_points@.len() - i,
        {
            names.push(self.entry_points[i].0.clone());
            i = i + 1;
        }
        names
    }

    /// The workgroup size of the entry point named `entry_point`; `None`
    /// where there is no such entry point or an axis was declared as 0.
    pub fn work_group_size(&self, entry_point: &str) -> (r: Option<[u32; 3]>)
        ensures
            r == work_groups_of(self.state(), entry_point@),
    {
        let name = entry_point.to_owned();
        match find_entry_point(&self.entry_points, &name) {
            Some(k) => self.entry_points[k].1.work_groups,
            None => None,
        }
    }

    /// The entries of group `set` in the order they were found; empty for
    /// a group past the last one.
    pub fn get_bind_group_layout_entries(&self, set: u32) -> (r: &[BindGroupLayoutEntry])
        ensures
            r@ == entries_of(self.state(), set),
    {
        if (set as usize) < self.bindings.len() {
            self.bindings[set as usize].as_slice()
        } else {
            &[]
        }
    }

    /// The number of entries of group `set`.
    pub fn bind_group_entries_count(&self, set: u32) -> (r: usize)
        ensures
            r == entries_of(self.state(), set).len(),
    {
        if (set as usize) < self.bindings.len() {
            self.bindings[set as usize].len()
        } else {
            0
        }
    }

    /// The highest group index that holds an entry, or 0 where none does.
    pub fn bind_group_count(&self) -> (r: usize)
        ensures
            r == spec_bind_group_count(self.state()),
            self.state().groups.len() <= r + 1,
            r <= u32::MAX,
            self.state().groups.len() > 0 ==> self.state().groups[r as int].len() > 0,
    {
        proof {
            use_type_invariant(self);
        }
        if self.bindings.len() == 0 {
            0
        } else {
            self.bindings.len() - 1
        }
    }

    /// The entry recorded for `(set, binding)`, if any.
    pub fn get_bind_group_layout_entry(&self, set: u32, binding: u32) -> (r: Option<
        BindGroupLayoutEntry,
    >)
        ensures
            r == entry_at(self.state(), ResourceLocation { group: set, binding }),
            r matches Some(e) ==> e.binding == binding,
    {
        proof {
            use_type_invariant(self);
        }
        let loc = ResourceLocation { group: set, binding };
        match find_location(&self.entry_map, loc) {
            Some(k) => {
                let meta = &self.entry_map[k].1;
                proof {
                    assert(self.state().locations[k as int] == self.entry_map@[k as int]);
                }
                Some(self.bindings[meta.set_idx][meta.entry_idx])
            },
            None => None,
        }
    }

    /// The push-constant range, where the module declares a push-constant
    /// block.
    pub fn push_constant_range(&self) -> (r: Option<PushConstantRange>)
        ensures
            r == self.state().push_constant_range,
    {
        self.push_constant_range
    }
}

// ---------------------------------------------------------------------------
// Facts about inference

/// A module whose one global variable is a uniform buffer at (0, 0), with
/// no hint that changes the defaults there, gets a uniform-buffer entry at
/// (0, 0) without a dynamic offset and without a minimum binding size.
pub proof fn lemma_lone_uniform_buffer(module: &ShaderModule, directives: &Directives)
    requires
        module.entry_points@.len() > 0,
        module.global_variables@.len() == 1,
        module.global_variables@[0].space == AddressSpace::Uniform,
        module.global_variables@[0].binding == Some(ResourceLocation { group: 0, binding: 0 }),
        !is_acceleration_structure(module, module.global_variables@[0].ty),
        directives.uniform_hint(ResourceLocation { group: 0, binding: 0 }) == UniformHint::spec_default(),
    ensures
        spec_build(module, directives) matches Ok(s) && entry_at(
            s,
            ResourceLocation { group: 0, binding: 0 },
        ) matches Some(e) && e.binding == 0 && e.ty == (BindingType::Buffer {
            ty: BufferBindingType::Uniform,
            has_dynamic_offset: false,
            min_binding_size: None,
        }),
{
    let loc = ResourceLocation { group: 0, binding: 0 };
    let s0 = fold_globals(module, directives, 0)->Ok_0;
    assert(s0.groups.len() == 0);
    let s1 = fold_globals(module, directives, 1)->Ok_0;
    assert(s1.locations.len() == 1);
    assert(s1.locations.last().0 == loc);
    assert(last_at(s1.locations, loc) == Some(s1.locations[0].1));
}

proof fn lemma_fold_push_constant_aligned(module: &ShaderModule, directives: &Directives, n: int)
    ensures
        fold_globals(module, directives, n) matches Ok(s) ==> (s.push_constant_range matches Some(
            pc,
        ) ==> pc.start == 0 && pc.end % 4 == 0),
    decreases n,
{
    if n > 0 {
        lemma_fold_push_constant_aligned(module, directives, n - 1);
    }
}

/// Whatever block size a module declares, the push-constant range that
/// inference records starts at 0 and ends on a multiple of 4.
pub proof fn lemma_push_constant_end_aligned(module: &ShaderModule, directives: &Directives)
    ensures
        spec_build(module, directives) matches Ok(s) ==> (s.push_constant_range matches Some(pc)
            ==> pc.start == 0 && pc.end % 4 == 0),
{
    lemma_fold_push_constant_aligned(module, directives, module.global_variables@.len() as int);
}

/// A storage buffer is read-only exactly when its declared access is load
/// without store.
pub proof fn lemma_storage_buffer_read_only(
    directives: &Directives,
    module: &ShaderModule,
    global: GlobalVariable,
    visibility: ShaderStages,
)
    requires
        global.space is Storage,
        global.binding is Some,
        module.type_at(global.ty) matches Some(t) && !is_image_type(t.inner),
    ensures
        spec_process_global(directives, module, global, visibility) matches Ok(
            Some(GlobalVar::Uniform(info)),
        ) && info.entry.ty matches BindingType::Buffer {
            ty: BufferBindingType::Storage { read_only },
            ..
        } && (read_only <==> (global.space->access.load && !global.space->access.store)),
{
}

/// Whether `binding`, where present, lies in a group below `group`.
pub open spec fn location_below(binding: Option<ResourceLocation>, group: u32) -> bool {
    match binding {
        Some(b) => b.group < group,
        None => true,
    }
}

proof fn lemma_fold_groups_below(module: &ShaderModule, directives: &Directives, group: u32, n: int)
    requires
        n <= module.global_variables@.len(),
        forall|i: int|
            0 <= i < module.global_variables@.len() ==> location_below(
                #[trigger] module.global_variables@[i].binding,
                group,
            ),
    ensures
        fold_globals(module, directives, n) matches Ok(s) ==> s.groups.len() <= group,
    decreases n,
{
    if n > 0 {
        lemma_fold_groups_below(module, directives, group, n - 1);
        let g = module.global_variables@[n - 1];
        assert(location_below(g.binding, group));
    }
}

/// For any group past every group that a global variable of the module
/// declares, the table holds no entry.
pub proof fn lemma_entries_past_last_group(module: &ShaderModule, directives: &Directives, group: u32)
    requires
        forall|i: int|
            0 <= i < module.global_variables@.len() ==> location_below(
                #[trigger] module.global_variables@[i].binding,
                group,
            ),
    ensures
        spec_build(module, directives) matches Ok(s) ==> entries_of(s, group) == Seq::<
            BindGroupLayoutEntry,
        >::empty(),
{
    lemma_fold_groups_below(module, directives, group, module.global_variables@.len() as int);
}

/// The type that a type binds as, looking through binding arrays.
pub open spec fn binding_base(t: TypeInner) -> TypeInner
    decreases t,
{
    match t {
        TypeInner::BindingArray { base, .. } => binding_base(*base),
        _ => t,
    }
}

/// A sampler whose type, looking through binding arrays, is a comparison
/// sampler binds as a comparison sampler, whatever sampler hint holds.
pub proof fn lemma_comparison_sampler_ignores_hint(
    directives: &Directives,
    binding: ResourceLocation,
    t: TypeInner,
)
    requires
        binding_base(t) == (TypeInner::Sampler { comparison: true }),
    ensures
        spec_infer_handle_inner(directives, binding, t) == Ok::<BindingType, BindGroupError>(
            BindingType::Sampler(SamplerBindingType::Comparison),
        ),
    decreases t,
{
    if let TypeInner::BindingArray { base, .. } = t {
        lemma_comparison_sampler_ignores_hint(directives, binding, *base);
    }
}

/// Whether `t` is a binding array of `n` sampled or depth images.
pub open spec fn is_texture_array(t: TypeInner, n: u32) -> bool {
    match t {
        TypeInner::BindingArray { base, size } => size == ArraySize::Constant(n) && match *base {
            TypeInner::Image { class, .. } => !(class is Storage),
            _ => false,
        },
        _ => false,
    }
}

/// A handle-space global whose type is a binding array of `n` sampled or
/// depth textures gets a texture entry with count `n`.
pub proof fn lemma_texture_array_count(
    directives: &Directives,
    module: &ShaderModule,
    global: GlobalVariable,
    visibility: ShaderStages,
    n: u32,
)
    requires
        global.space == AddressSpace::Handle,
        global.binding is Some,
        module.type_at(global.ty) matches Some(t) && is_texture_array(t.inner, n),
    ensures
        spec_process_global(directives, module, global, visibility) matches Ok(
            Some(GlobalVar::Uniform(info)),
        ) && info.entry.ty is Texture && info.entry.count == Some(n),
{
    let b = global.binding->Some_0;
    let t = module.type_at(global.ty)->Some_0;
    if let TypeInner::BindingArray { base, .. } = t.inner {
        assert(spec_infer_handle_inner(directives, b, t.inner) == spec_infer_handle_inner(
            directives,
            b,
            *base,
        ));
        assert(spec_infer_handle_inner(directives, b, *base) matches Ok(BindingType::Texture { .. }));
    }
}

} // verus!
