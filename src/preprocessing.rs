//! Per-binding hints that settle what the shader module alone leaves open,
//! laid over defaults that hold for a whole inference run.
use vstd::prelude::*;

use crate::shader::ResourceLocation;

verus! {

#[derive(Clone, Debug, PartialEq, Eq)]
pub enum PreprocessingError {
    ParsingError(String),
    UnsupportedSource,
}

#[derive(Debug)]
pub struct TextureHint {}

#[derive(Debug)]
pub struct ImageHint {}

/// The language a shader source is written in.
#[derive(Clone, Copy, Debug, PartialEq, Eq, Structural)]
pub enum SourceLanguage {
    Wgsl,
    Glsl,
    /// A source that is not text in either language (for instance an
    /// already-built module or a binary form).
    Other,
}

/// Hints for a uniform or storage buffer binding.
#[derive(Clone, Copy, Debug, PartialEq, Eq, Structural)]
pub struct UniformHint {
    pub dynamic_offset: bool,
    pub calculate_min_binding_size: bool,
}

/// A partial [`UniformHint`]: each field that is set replaces the hint's own.
#[derive(Clone, Copy, Debug, PartialEq, Eq, Structural)]
pub struct UniformHintPatch {
    pub dynamic_offset: Option<bool>,
    pub calculate_min_binding_size: Option<bool>,
}

#[derive(Clone, Copy, Debug, PartialEq, Eq, Structural)]
pub enum FilterMode {
    Nearest,
    Linear,
}

#[derive(Clone, Copy, Debug, PartialEq, Eq, Structural)]
pub enum AddressMode {
    ClampToEdge,
    Repeat,
    MirrorRepeat,
    ClampToBorder,
}

#[derive(Clone, Copy, Debug, PartialEq, Eq, Structural)]
pub enum CompareFunction {
    Never,
    Less,
    Equal,
    LessEqual,
    Greater,
    NotEqual,
    GreaterEqual,
    Always,
}

/// Hints for a sampler binding.
#[derive(Clone, Copy, Debug, PartialEq, Eq, Structural)]
pub struct SamplerHint {
    pub filter: FilterMode,
    pub wrap: AddressMode,
    pub comparison: Option<CompareFunction>,
}

/// A partial [`SamplerHint`]: each field that is set replaces the hint's own.
#[derive(Clone, Copy, Debug, PartialEq, Eq, Structural)]
pub struct SamplerHintPatch {
    pub filter: Option<FilterMode>,
    pub wrap: Option<AddressMode>,
    pub comparison: Option<Option<CompareFunction>>,
}

impl UniformHint {
    pub open spec fn spec_default() -> UniformHint {
        UniformHint { dynamic_offset: false, calculate_min_binding_size: false }
    }

    pub open spec fn patched(self, patch: UniformHintPatch) -> UniformHint {
        UniformHint {
            dynamic_offset: match patch.dynamic_offset {
                Some(v) => v,
                None => self.dynamic_offset,
            },
            calculate_min_binding_size: match patch.calculate_min_binding_size {
                Some(v) => v,
                None => self.calculate_min_binding_size,
            },
        }
    }

    /// Replaces each field that `patch` sets.
    pub fn apply(&mut self, patch: UniformHintPatch)
        ensures
            *final(self) == old(self).patched(patch),
    {
        if let Some(v) = patch.dynamic_offset {
            self.dynamic_offset = v;
        }
        if let Some(v) = patch.calculate_min_binding_size {
            self.calculate_min_binding_size = v;
        }
    }
}

impl Default for UniformHint {
    fn default() -> (r: UniformHint)
        ensures
            r == UniformHint::spec_default(),
    {
        UniformHint { dynamic_offset: false, calculate_min_binding_size: false }
    }
}

impl UniformHintPatch {
    /// The patch that sets nothing.
    pub fn empty() -> (r: UniformHintPatch)
        ensures
            r.dynamic_offset is None && r.calculate_min_binding_size is None,
    {
        UniformHintPatch { dynamic_offset: None, calculate_min_binding_size: None }
    }
}

impl SamplerHint {
    pub open spec fn spec_default() -> SamplerHint {
        SamplerHint { filter: FilterMode::Nearest, wrap: AddressMode::ClampToEdge, comparison: None }
    }

    pub open spec fn patched(self, patch: SamplerHintPatch) -> SamplerHint {
        SamplerHint {
            filter: match patch.filter {
                Some(v) => v,
                None => self.filter,
            },
            wrap: match patch.wrap {
                Some(v) => v,
                None => self.wrap,
            },
            comparison: match patch.comparison {
                Some(v) => v,
                None => self.comparison,
            },
        }
    }

    /// Replaces each field that `patch` sets.
    pub fn apply(&mut self, patch: SamplerHintPatch)
        ensures
            *final(self) == old(self).patched(patch),
    {
        if let Some(v) = patch.filter {
            self.filter = v;
        }
        if let Some(v) = patch.wrap {
            self.wrap = v;
        }
        if let Some(v) = patch.comparison {
            self.comparison = v;
        }
    }
}

impl Default for SamplerHint {
    fn default() -> (r: SamplerHint)
        ensures
            r == SamplerHint::spec_default(),
    {
        SamplerHint { filter: FilterMode::Nearest, wrap: AddressMode::ClampToEdge, comparison: None }
    }
}

impl SamplerHintPatch {
    /// The patch that sets nothing.
    pub fn empty() -> (r: SamplerHintPatch)
        ensures
            r.filter is None && r.wrap is None && r.comparison is None,
    {
        SamplerHintPatch { filter: None, wrap: None, comparison: None }
    }
}

/// The value stored last for `loc`, if any.
pub open spec fn last_at<P>(s: Seq<(ResourceLocation, P)>, loc: ResourceLocation) -> Option<P>
    decreases s.len(),
{
    if s.len() == 0 {
        None
    } else if s.last().0 == loc {
        Some(s.last().1)
    } else {
        last_at(s.drop_last(), loc)
    }
}

fn find_patch<P: Copy>(patches: &Vec<(ResourceLocation, P)>, loc: ResourceLocation) -> (r: Option<P>)
    ensures
        r == last_at(patches@, loc),
{
    let mut i: usize = patches.len();
    assert(patches@.take(i as int) =~= patches@);
    while i > 0
        invariant
            i <= patches@.len(),
            last_at(patches@, loc) == last_at(patches@.take(i as int), loc),
        decreases i,
    {
        let ghost prefix = patches@.take(i as int);
        assert(prefix.drop_last() =~= patches@.take(i - 1));
        if patches[i - 1].0 == loc {
            return Some(patches[i - 1].1);
        }
        i = i - 1;
    }
    None
}

/// Uniform and sampler hints: one default patch each for every binding, and
/// patches for single locations laid over it.
#[derive(Debug)]
pub struct Directives {
    uniform_hint_base: UniformHintPatch,
    uniform_hints: Vec<(ResourceLocation, UniformHintPatch)>,
    sampler_hint_base: SamplerHintPatch,
    sampler_hints: Vec<(ResourceLocation, SamplerHintPatch)>,
}

impl Directives {
    /// The uniform hint that holds where no location-specific patch does.
    pub closed spec fn uniform_base(&self) -> UniformHint {
        UniformHint::spec_default().patched(self.uniform_hint_base)
    }

    /// The uniform patch set for `loc`, if any.
    pub closed spec fn uniform_patch_at(&self, loc: ResourceLocation) -> Option<UniformHintPatch> {
        last_at(self.uniform_hints@, loc)
    }

    /// The uniform hint that holds at `loc`.
    pub open spec fn uniform_hint(&self, loc: ResourceLocation) -> UniformHint {
        match self.uniform_patch_at(loc) {
            Some(p) => self.uniform_base().patched(p),
            None => self.uniform_base(),
        }
    }

    /// The sampler hint that holds where no location-specific patch does.
    pub closed spec fn sampler_base(&self) -> SamplerHint {
        SamplerHint::spec_default().patched(self.sampler_hint_base)
    }

    /// The sampler patch set for `loc`, if any.
    pub closed spec fn sampler_patch_at(&self, loc: ResourceLocation) -> Option<SamplerHintPatch> {
        last_at(self.sampler_hints@, loc)
    }

    /// The sampler hint that holds at `loc`.
    pub open spec fn sampler_hint(&self, loc: ResourceLocation) -> SamplerHint {
        match self.sampler_patch_at(loc) {
            Some(p) => self.sampler_base().patched(p),
            None => self.sampler_base(),
        }
    }

    /// Directives that hold no hint: every lookup gives the defaults.
    pub fn new() -> (r: Directives)
        ensures
            r.uniform_base() == UniformHint::spec_default(),
            r.sampler_base() == SamplerHint::spec_default(),
            forall|loc: ResourceLocation| #[trigger] r.uniform_patch_at(loc) is None,
            forall|loc: ResourceLocation| #[trigger] r.sampler_patch_at(loc) is None,
    {
        Directives {
            uniform_hint_base: UniformHintPatch::empty(),
            uniform_hints: Vec::new(),
            sampler_hint_base: SamplerHintPatch::empty(),
            sampler_hints: Vec::new(),
        }
    }

    /// Sets the patch that every uniform lookup starts from.
    pub fn set_uniform_base(&mut self, patch: UniformHintPatch)
        ensures
            final(self).uniform_base() == UniformHint::spec_default().patched(patch),
            final(self).sampler_base() == old(self).sampler_base(),
            forall|l: ResourceLocation| #[trigger] final(self).uniform_patch_at(l) == old(self).uniform_patch_at(l),
            forall|l: ResourceLocation| #[trigger] final(self).sampler_patch_at(l) == old(self).sampler_patch_at(l),
    {
        self.uniform_hint_base = patch;
    }

    /// Lays `patch` over the uniform hint at `loc`, in place of any patch
    /// set there before.
    pub fn set_uniform_hint(&mut self, loc: ResourceLocation, patch: UniformHintPatch)
        ensures
            final(self).uniform_base() == old(self).uniform_base(),
            final(self).sampler_base() == old(self).sampler_base(),
            final(self).uniform_patch_at(loc) == Some(patch),
            forall|l: ResourceLocation|
                l != loc ==> #[trigger] final(self).uniform_patch_at(l) == old(self).uniform_patch_at(l),
            forall|l: ResourceLocation| #[trigger] final(self).sampler_patch_at(l) == old(self).sampler_patch_at(l),
    {
        self.uniform_hints.push((loc, patch));
        proof {
            assert(self.uniform_hints@.drop_last() =~= old(self).uniform_hints@);
        }
    }

    /// Sets the patch that every sampler lookup starts from.
    pub fn set_sampler_base(&mut self, patch: SamplerHintPatch)
        ensures
            final(self).sampler_base() == SamplerHint::spec_default().patched(patch),
            final(self).uniform_base() == old(self).uniform_base(),
            forall|l: ResourceLocation| #[trigger] final(self).uniform_patch_at(l) == old(self).uniform_patch_at(l),
            forall|l: ResourceLocation| #[trigger] final(self).sampler_patch_at(l) == old(self).sampler_patch_at(l),
    {
        self.sampler_hint_base = patch;
    }

    /// Lays `patch` over the sampler hint at `loc`, in place of any patch
    /// set there before.
    pub fn set_sampler_hint(&mut self, loc: ResourceLocation, patch: SamplerHintPatch)
        ensures
            final(self).uniform_base() == old(self).uniform_base(),
            final(self).sampler_base() == old(self).sampler_base(),
            final(self).sampler_patch_at(loc) == Some(patch),
            forall|l: ResourceLocation|
                l != loc ==> #[trigger] final(self).sampler_patch_at(l) == old(self).sampler_patch_at(l),
            forall|l: ResourceLocation| #[trigger] final(self).uniform_patch_at(l) == old(self).uniform_patch_at(l),
    {
        self.sampler_hints.push((loc, patch));
        proof {
            assert(self.sampler_hints@.drop_last() =~= old(self).sampler_hints@);
        }
    }

    /// Returns the uniform hint at `binding`: the defaults, patched by the
    /// base patch, then by the patch set for `binding`.
    pub fn get_uniform_hint(&self, binding: &ResourceLocation) -> (r: UniformHint)
        ensures
            r == self.uniform_hint(*binding),
    {
        let mut hint = UniformHint::default();
        hint.apply(self.uniform_hint_base);
        if let Some(p) = find_patch(&self.uniform_hints, *binding) {
            hint.apply(p);
        }
        hint
    }

    /// Returns the sampler hint at `binding`: the defaults, patched by the
    /// base patch, then by the patch set for `binding`.
    pub fn get_sampler_hint(&self, binding: &ResourceLocation) -> (r: SamplerHint)
        ensures
            r == self.sampler_hint(*binding),
    {
        let mut hint = SamplerHint::default();
        hint.apply(self.sampler_hint_base);
        if let Some(p) = find_patch(&self.sampler_hints, *binding) {
            hint.apply(p);
        }
        hint
    }
}

/// Reads the directives of a shader source. Wgsl and Glsl sources are
/// accepted; the hint syntax is read elsewhere, so every hint keeps its default;
/// any other source is refused.
pub fn process(language: SourceLanguage) -> (r: Result<Directives, PreprocessingError>)
    ensures
        r is Err <==> language == SourceLanguage::Other,
        r matches Err(e) ==> e == PreprocessingError::UnsupportedSource,
        r matches Ok(d) ==> {
            &&& d.uniform_base() == UniformHint::spec_default()
            &&& d.sampler_base() == SamplerHint::spec_default()
            &&& forall|loc: ResourceLocation| #[trigger] d.uniform_patch_at(loc) is None
            &&& forall|loc: ResourceLocation| #[trigger] d.sampler_patch_at(loc) is None
        },
{
    match language {
        SourceLanguage::Wgsl | SourceLanguage::Glsl => Ok(Directives::new()),
        SourceLanguage::Other => Err(PreprocessingError::UnsupportedSource),
    }
}

} // verus!
