//! A plain-value description of a compiled shader module: its entry points,
//! its global variables and the types they are declared with.
use vstd::prelude::*;

verus! {

/// The `(group, binding)` pair that identifies one externally bound resource.
#[derive(Clone, Copy, Debug, PartialEq, Eq, Hash, Structural)]
pub struct ResourceLocation {
    pub group: u32,
    pub binding: u32,
}

/// The pipeline stage an entry point runs in.
#[derive(Clone, Copy, Debug, PartialEq, Eq, Structural)]
pub enum ShaderStage {
    Vertex,
    Fragment,
    Compute,
}

/// One entry point of a module. An axis of `workgroup_size` that is 0 is
/// supplied when the pipeline is created.
#[derive(Clone, Debug)]
pub struct EntryPoint {
    pub name: String,
    pub stage: ShaderStage,
    pub workgroup_size: [u32; 3],
}

/// Read and write permissions of a storage declaration.
#[derive(Clone, Copy, Debug, PartialEq, Eq, Structural)]
pub struct StorageAccess {
    pub load: bool,
    pub store: bool,
}

/// Where a global variable lives.
#[derive(Clone, Copy, Debug, PartialEq, Eq, Structural)]
pub enum AddressSpace {
    Function,
    Private,
    WorkGroup,
    Uniform,
    Storage { access: StorageAccess },
    Handle,
    PushConstant,
}

/// Scalar kind of the texels of a sampled image.
#[derive(Clone, Copy, Debug, PartialEq, Eq, Structural)]
pub enum ScalarKind {
    Sint,
    Uint,
    Float,
    Bool,
}

#[derive(Clone, Copy, Debug, PartialEq, Eq, Structural)]
pub enum ImageDimension {
    D1,
    D2,
    D3,
    Cube,
}

/// Texel format that a storage image is declared with.
#[derive(Clone, Copy, Debug, PartialEq, Eq, Structural)]
pub enum StorageFormat {
    R8Unorm,
    R8Snorm,
    R8Uint,
    R8Sint,
    R16Uint,
    R16Sint,
    R16Float,
    Rg8Unorm,
    Rg8Snorm,
    Rg8Uint,
    Rg8Sint,
    R32Uint,
    R32Sint,
    R32Float,
    Rg16Uint,
    Rg16Sint,
    Rg16Float,
    Rgba8Unorm,
    Rgba8Snorm,
    Rgba8Uint,
    Rgba8Sint,
    Bgra8Unorm,
    Rgb10a2Uint,
    Rgb10a2Unorm,
    Rg11b10Float,
    Rg32Uint,
    Rg32Sint,
    Rg32Float,
    Rgba16Uint,
    Rgba16Sint,
    Rgba16Float,
    Rgba32Uint,
    Rgba32Sint,
    Rgba32Float,
    R16Unorm,
    R16Snorm,
    Rg16Unorm,
    Rg16Snorm,
    Rgba16Unorm,
    Rgba16Snorm,
}

/// How an image is accessed.
#[derive(Clone, Copy, Debug, PartialEq, Eq, Structural)]
pub enum ImageClass {
    Sampled { kind: ScalarKind, multi: bool },
    Depth { multi: bool },
    Storage { format: StorageFormat, access: StorageAccess },
}

/// Element count of a binding array: a constant, which a front end never
/// gives as 0, or unbounded.
#[derive(Clone, Copy, Debug, PartialEq, Eq, Structural)]
pub enum ArraySize {
    Constant(u32),
    Dynamic,
}

/// The shape of a type, as far as resource binding is concerned.
#[derive(Debug)]
pub enum TypeInner {
    AccelerationStructure,
    Sampler { comparison: bool },
    Image { dim: ImageDimension, arrayed: bool, class: ImageClass },
    /// An array of bindings, each of type `base`.
    BindingArray { base: Box<TypeInner>, size: ArraySize },
    /// Any type that holds plain data: scalars, vectors, matrices, arrays,
    /// structures, pointers and the like.
    Other,
}

/// One entry of a module's type table, with the byte size the front end
/// computed for it.
#[derive(Debug)]
pub struct ShaderType {
    pub inner: TypeInner,
    pub size: u32,
}

/// A global variable. `ty` is an index into the module's type table.
#[derive(Clone, Debug)]
pub struct GlobalVariable {
    pub name: Option<String>,
    pub space: AddressSpace,
    pub binding: Option<ResourceLocation>,
    pub ty: usize,
}

/// A parsed shader module.
#[derive(Debug)]
pub struct ShaderModule {
    pub types: Vec<ShaderType>,
    pub global_variables: Vec<GlobalVariable>,
    pub entry_points: Vec<EntryPoint>,
}

impl ShaderModule {
    /// The type that handle `ty` names, if the table holds it.
    pub open spec fn type_at(&self, ty: usize) -> Option<ShaderType> {
        if ty < self.types@.len() {
            Some(self.types@[ty as int])
        } else {
            None
        }
    }
}

} // verus!
