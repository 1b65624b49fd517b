//! Queries on a module's type table, and the mapping of shader-side image
//! properties to their binding-layout counterparts.
use vstd::prelude::*;

use crate::layout::{StorageTextureAccess, TextureFormat, TextureSampleType, TextureViewDimension};
use crate::shader::{
    ArraySize, ImageClass, ImageDimension, ScalarKind, ShaderModule, StorageAccess, StorageFormat,
    TypeInner,
};

verus! {

#[derive(Clone, Copy, Debug, PartialEq, Eq, Structural)]
pub enum Error {
    /// A type handle that the module's type table does not hold.
    NoSuchHandle,
}

pub open spec fn spec_type_size(module: &ShaderModule, ty: usize) -> Option<u64> {
    match module.type_at(ty) {
        Some(t) => if t.size == 0 {
            None
        } else {
            Some(t.size as u64)
        },
        None => None,
    }
}

/// The byte size of type `ty`, where the table holds it and it is not 0.
pub fn type_size(module: &ShaderModule, ty: usize) -> (r: Option<u64>)
    ensures
        r == spec_type_size(module, ty),
{
    if ty < module.types.len() {
        let size = module.types[ty].size;
        if size == 0 {
            None
        } else {
            Some(size as u64)
        }
    } else {
        None
    }
}

pub open spec fn spec_type_array_ct(module: &ShaderModule, ty: usize) -> Option<u32> {
    match module.type_at(ty) {
        Some(t) => match t.inner {
            TypeInner::BindingArray { size, .. } => match size {
                ArraySize::Constant(n) => Some(n),
                ArraySize::Dynamic => Some(1),
            },
            _ => None,
        },
        None => None,
    }
}

/// The element count of type `ty` where it is a binding array: its declared
/// size, or 1 where it is unbounded. `None` for any other type.
pub fn type_array_ct(module: &ShaderModule, ty: &usize) -> (r: Option<u32>)
    ensures
        r == spec_type_array_ct(module, *ty),
{
    if *ty < module.types.len() {
        match &module.types[*ty].inner {
            TypeInner::BindingArray { size, .. } => match size {
                ArraySize::Constant(n) => Some(*n),
                ArraySize::Dynamic => Some(1),
            },
            _ => None,
        }
    } else {
        None
    }
}

/// The format and view dimension of a storage image, looking through
/// binding arrays.
pub open spec fn image_information_of(t: TypeInner) -> Option<(TextureFormat, TextureViewDimension)>
    decreases t,
{
    match t {
        TypeInner::Image { class: ImageClass::Storage { format, .. }, dim, .. } => Some(
            (spec_texture_fmt(format), spec_image_dim(dim)),
        ),
        TypeInner::BindingArray { base, .. } => image_information_of(*base),
        _ => None,
    }
}

fn image_information_in(t: &TypeInner) -> (r: Option<(TextureFormat, TextureViewDimension)>)
    ensures
        r == image_information_of(*t),
    decreases t,
{
    match t {
        TypeInner::Image { class: ImageClass::Storage { format, .. }, dim, .. } => Some(
            (texture_fmt(format), image_dim(dim)),
        ),
        TypeInner::BindingArray { base, .. } => image_information_in(&**base),
        _ => None,
    }
}

pub open spec fn spec_get_image_information(module: &ShaderModule, ty: usize) -> Option<
    (TextureFormat, TextureViewDimension),
> {
    match module.type_at(ty) {
        Some(t) => image_information_of(t.inner),
        None => None,
    }
}

/// The format and view dimension of type `ty` where it is a storage image,
/// or a binding array of them.
pub fn get_image_information(module: &ShaderModule, ty: usize) -> (r: Option<
    (TextureFormat, TextureViewDimension),
>)
    ensures
        r == spec_get_image_information(module, ty),
{
    if ty < module.types.len() {
        image_information_in(&module.types[ty].inner)
    } else {
        None
    }
}

/// Whether a type is an image, looking through binding arrays.
pub open spec fn is_image_type(t: TypeInner) -> bool
    decreases t,
{
    match t {
        TypeInner::Image { .. } => true,
        TypeInner::BindingArray { base, .. } => is_image_type(*base),
        _ => false,
    }
}

fn is_image_inner(t: &TypeInner) -> (r: bool)
    ensures
        r == is_image_type(*t),
    decreases t,
{
    match t {
        TypeInner::Image { .. } => true,
        TypeInner::BindingArray { base, .. } => is_image_inner(&**base),
        _ => false,
    }
}

/// Whether type `ty` is an image or a binding array of images; an error
/// where the table does not hold `ty`.
pub fn is_image(module: &ShaderModule, ty: usize) -> (r: Result<bool, Error>)
    ensures
        match module.type_at(ty) {
            Some(t) => r == Ok::<bool, Error>(is_image_type(t.inner)),
            None => r == Err::<bool, Error>(Error::NoSuchHandle),
        },
{
    if ty < module.types.len() {
        Ok(is_image_inner(&module.types[ty].inner))
    } else {
        Err(Error::NoSuchHandle)
    }
}

pub open spec fn spec_storage_access(access: StorageAccess) -> StorageTextureAccess {
    if access.load && access.store {
        StorageTextureAccess::ReadWrite
    } else if access.store {
        StorageTextureAccess::WriteOnly
    } else {
        StorageTextureAccess::ReadOnly
    }
}

/// Read and write together give read-write, write alone write-only, and
/// read alone, or neither, read-only.
pub fn storage_access(access: &StorageAccess) -> (r: StorageTextureAccess)
    ensures
        r == spec_storage_access(*access),
{
    let r = access.load;
    let w = access.store;
    match (r, w) {
        (true, true) => StorageTextureAccess::ReadWrite,
        (false, true) => StorageTextureAccess::WriteOnly,
        (_, false) => StorageTextureAccess::ReadOnly,
    }
}

pub open spec fn spec_sample_kind(kind: ScalarKind) -> TextureSampleType {
    match kind {
        ScalarKind::Sint => TextureSampleType::Sint,
        ScalarKind::Uint => TextureSampleType::Uint,
        ScalarKind::Float => TextureSampleType::Float { filterable: true },
        ScalarKind::Bool => TextureSampleType::Uint,
    }
}

/// The sample type of a sampled image with texels of `kind`.
pub fn sample_kind(kind: &ScalarKind) -> (r: TextureSampleType)
    ensures
        r == spec_sample_kind(*kind),
{
    match kind {
        ScalarKind::Sint => TextureSampleType::Sint,
        ScalarKind::Uint => TextureSampleType::Uint,
        ScalarKind::Float => TextureSampleType::Float { filterable: true },
        ScalarKind::Bool => TextureSampleType::Uint,
    }
}

pub open spec fn spec_image_dim(dim: ImageDimension) -> TextureViewDimension {
    match dim {
        ImageDimension::D1 => TextureViewDimension::D1,
        ImageDimension::D2 => TextureViewDimension::D2,
        ImageDimension::D3 => TextureViewDimension::D3,
        ImageDimension::Cube => TextureViewDimension::Cube,
    }
}

/// The view dimension that matches an image dimension.
pub fn image_dim(dim: &ImageDimension) -> (r: TextureViewDimension)
    ensures
        r == spec_image_dim(*dim),
{
    match dim {
        ImageDimension::D1 => TextureViewDimension::D1,
        ImageDimension::D2 => TextureViewDimension::D2,
        ImageDimension::D3 => TextureViewDimension::D3,
        ImageDimension::Cube => TextureViewDimension::Cube,
    }
}

/// The texture format of the same name as a storage format.
pub open spec fn spec_texture_fmt(fmt: StorageFormat) -> TextureFormat {
    match fmt {
        StorageFormat::R8Unorm => TextureFormat::R8Unorm,
        StorageFormat::R8Snorm => TextureFormat::R8Snorm,
        StorageFormat::R8Uint => TextureFormat::R8Uint,
        StorageFormat::R8Sint => TextureFormat::R8Sint,
        StorageFormat::R16Uint => TextureFormat::R16Uint,
        StorageFormat::R16Sint => TextureFormat::R16Sint,
        StorageFormat::R16Float => TextureFormat::R16Float,
        StorageFormat::Rg8Unorm => TextureFormat::Rg8Unorm,
        StorageFormat::Rg8Snorm => TextureFormat::Rg8Snorm,
        StorageFormat::Rg8Uint => TextureFormat::Rg8Uint,
        StorageFormat::Rg8Sint => TextureFormat::Rg8Sint,
        StorageFormat::R32Uint => TextureFormat::R32Uint,
        StorageFormat::R32Sint => TextureFormat::R32Sint,
        StorageFormat::R32Float => TextureFormat::R32Float,
        StorageFormat::Rg16Uint => TextureFormat::Rg16Uint,
        StorageFormat::Rg16Sint => TextureFormat::Rg16Sint,
        StorageFormat::Rg16Float => TextureFormat::Rg16Float,
        StorageFormat::Rgba8Unorm => TextureFormat::Rgba8Unorm,
        StorageFormat::Rgba8Snorm => TextureFormat::Rgba8Snorm,
        StorageFormat::Rgba8Uint => TextureFormat::Rgba8Uint,
        StorageFormat::Rgba8Sint => TextureFormat::Rgba8Sint,
        StorageFormat::Bgra8Unorm => TextureFormat::Bgra8Unorm,
        StorageFormat::Rgb10a2Uint => TextureFormat::Rgb10a2Uint,
        StorageFormat::Rgb10a2Unorm => TextureFormat::Rgb10a2Unorm,
        StorageFormat::Rg11b10Float => TextureFormat::Rg11b10Float,
        StorageFormat::Rg32Uint => TextureFormat::Rg32Uint,
        StorageFormat::Rg32Sint => TextureFormat::Rg32Sint,
        StorageFormat::Rg32Float => TextureFormat::Rg32Float,
        StorageFormat::Rgba16Uint => TextureFormat::Rgba16Uint,
        StorageFormat::Rgba16Sint => TextureFormat::Rgba16Sint,
        StorageFormat::Rgba16Float => TextureFormat::Rgba16Float,
        StorageFormat::Rgba32Uint => TextureFormat::Rgba32Uint,
        StorageFormat::Rgba32Sint => TextureFormat::Rgba32Sint,
        StorageFormat::Rgba32Float => TextureFormat::Rgba32Float,
        StorageFormat::R16Unorm => TextureFormat::R16Unorm,
        StorageFormat::R16Snorm => TextureFormat::R16Snorm,
        StorageFormat::Rg16Unorm => TextureFormat::Rg16Unorm,
        StorageFormat::Rg16Snorm => TextureFormat::Rg16Snorm,
        StorageFormat::Rgba16Unorm => TextureFormat::Rgba16Unorm,
        StorageFormat::Rgba16Snorm => TextureFormat::Rgba16Snorm,
    }
}

/// The texture format that a storage image of format `fmt` is bound as.
pub fn texture_fmt(fmt: &StorageFormat) -> (r: TextureFormat)
    ensures
        r == spec_texture_fmt(*fmt),
{
    match fmt {
        StorageFormat::R8Unorm => TextureFormat::R8Unorm,
        StorageFormat::R8Snorm => TextureFormat::R8Snorm,
        StorageFormat::R8Uint => TextureFormat::R8Uint,
        StorageFormat::R8Sint => TextureFormat::R8Sint,
        StorageFormat::R16Uint => TextureFormat::R16Uint,
        StorageFormat::R16Sint => TextureFormat::R16Sint,
        StorageFormat::R16Float => TextureFormat::R16Float,
        StorageFormat::Rg8Unorm => TextureFormat::Rg8Unorm,
        StorageFormat::Rg8Snorm => TextureFormat::Rg8Snorm,
        StorageFormat::Rg8Uint => TextureFormat::Rg8Uint,
        StorageFormat::Rg8Sint => TextureFormat::Rg8Sint,
        StorageFormat::R32Uint => TextureFormat::R32Uint,
        StorageFormat::R32Sint => TextureFormat::R32Sint,
        StorageFormat::R32Float => TextureFormat::R32Float,
        StorageFormat::Rg16Uint => TextureFormat::Rg16Uint,
        StorageFormat::Rg16Sint => TextureFormat::Rg16Sint,
        StorageFormat::Rg16Float => TextureFormat::Rg16Float,
        StorageFormat::Rgba8Unorm => TextureFormat::Rgba8Unorm,
        StorageFormat::Rgba8Snorm => TextureFormat::Rgba8Snorm,
        StorageFormat::Rgba8Uint => TextureFormat::Rgba8Uint,
        StorageFormat::Rgba8Sint => TextureFormat::Rgba8Sint,
        StorageFormat::Bgra8Unorm => TextureFormat::Bgra8Unorm,
        StorageFormat::Rgb10a2Uint => TextureFormat::Rgb10a2Uint,
        StorageFormat::Rgb10a2Unorm => TextureFormat::Rgb10a2Unorm,
        StorageFormat::Rg11b10Float => TextureFormat::Rg11b10Float,
        StorageFormat::Rg32Uint => TextureFormat::Rg32Uint,
        StorageFormat::Rg32Sint => TextureFormat::Rg32Sint,
        StorageFormat::Rg32Float => TextureFormat::Rg32Float,
        StorageFormat::Rgba16Uint => TextureFormat::Rgba16Uint,
        StorageFormat::Rgba16Sint => TextureFormat::Rgba16Sint,
        StorageFormat::Rgba16Float => TextureFormat::Rgba16Float,
        StorageFormat::Rgba32Uint => TextureFormat::Rgba32Uint,
        StorageFormat::Rgba32Sint => TextureFormat::Rgba32Sint,
        StorageFormat::Rgba32Float => TextureFormat::Rgba32Float,
        StorageFormat::R16Unorm => TextureFormat::R16Unorm,
        StorageFormat::R16Snorm => TextureFormat::R16Snorm,
        StorageFormat::Rg16Unorm => TextureFormat::Rg16Unorm,
        StorageFormat::Rg16Snorm => TextureFormat::Rg16Snorm,
        StorageFormat::Rgba16Unorm => TextureFormat::Rgba16Unorm,
        StorageFormat::Rgba16Snorm => TextureFormat::Rgba16Snorm,
    }
}

} // verus!
