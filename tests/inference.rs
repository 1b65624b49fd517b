use kinnara::bind_group::{BindGroupError, BindGroups};
use kinnara::ir_utils::{image_dim, sample_kind, storage_access, texture_fmt, type_array_ct, type_size};
use kinnara::layout::{
    BindGroupLayoutEntry, BindingType, BufferBindingType, PushConstantRange, SamplerBindingType,
    ShaderStages, StorageTextureAccess, TextureFormat, TextureSampleType, TextureViewDimension,
};
use kinnara::preprocessing::{
    process, Directives, FilterMode, PreprocessingError, SamplerHintPatch, SourceLanguage,
    UniformHint, UniformHintPatch,
};
use kinnara::shader::{
    AddressSpace, ArraySize, EntryPoint, GlobalVariable, ImageClass, ImageDimension,
    ResourceLocation, ScalarKind, ShaderModule, ShaderStage, ShaderType, StorageAccess,
    StorageFormat, TypeInner,
};
use kinnara::traits::PushConstant;
use kinnara::{ComputeReflector, Error};

fn entry(name: &str, stage: ShaderStage, size: [u32; 3]) -> EntryPoint {
    EntryPoint { name: name.to_string(), stage, workgroup_size: size }
}

fn global(space: AddressSpace, group: u32, binding: u32, ty: usize) -> GlobalVariable {
    GlobalVariable { name: None, space, binding: Some(ResourceLocation { group, binding }), ty }
}

fn data(size: u32) -> ShaderType {
    ShaderType { inner: TypeInner::Other, size }
}

fn module(types: Vec<ShaderType>, globals: Vec<GlobalVariable>) -> ShaderModule {
    ShaderModule {
        types,
        global_variables: globals,
        entry_points: vec![entry("main", ShaderStage::Compute, [8, 8, 1])],
    }
}

fn loc(group: u32, binding: u32) -> ResourceLocation {
    ResourceLocation { group, binding }
}

fn build(m: &ShaderModule, d: &Directives) -> BindGroups {
    match BindGroups::new(m, d) {
        Ok(t) => t,
        Err(e) => panic!("inference failed: {:?}", e),
    }
}

fn build_err(m: &ShaderModule, d: &Directives) -> BindGroupError {
    match BindGroups::new(m, d) {
        Ok(_) => panic!("inference was expected to fail"),
        Err(e) => e,
    }
}

fn push_constant_end(size: u32) -> u64 {
    let m = module(vec![data(size)], vec![GlobalVariable {
        name: None,
        space: AddressSpace::PushConstant,
        binding: None,
        ty: 0,
    }]);
    build(&m, &Directives::new()).push_constant_range().unwrap().end
}

fn storage_buffer_read_only(load: bool, store: bool) -> bool {
    let m = module(vec![data(16)], vec![global(
        AddressSpace::Storage { access: StorageAccess { load, store } },
        0,
        0,
        0,
    )]);
    match build(&m, &Directives::new()).get_bind_group_layout_entry(0, 0).unwrap().ty {
        BindingType::Buffer { ty: BufferBindingType::Storage { read_only }, .. } => read_only,
        other => panic!("not a storage buffer: {:?}", other),
    }
}

fn sampler_type(comparison: bool, filter: Option<FilterMode>) -> BindingType {
    let mut d = Directives::new();
    if let Some(f) = filter {
        let mut patch = SamplerHintPatch::empty();
        patch.filter = Some(f);
        d.set_sampler_hint(loc(0, 0), patch);
    }
    let m = module(
        vec![ShaderType { inner: TypeInner::Sampler { comparison }, size: 0 }],
        vec![global(AddressSpace::Handle, 0, 0, 0)],
    );
    build(&m, &d).get_bind_group_layout_entry(0, 0).unwrap().ty
}

fn sampled_image(kind: ScalarKind) -> TypeInner {
    TypeInner::Image {
        dim: ImageDimension::D2,
        arrayed: false,
        class: ImageClass::Sampled { kind, multi: false },
    }
}

#[test]
fn lone_uniform_buffer_has_default_entry() {
    let m = module(vec![data(64)], vec![global(AddressSpace::Uniform, 0, 0, 0)]);
    let t = build(&m, &Directives::new());
    let e = t.get_bind_group_layout_entry(0, 0).unwrap();
    assert_eq!(
        e,
        BindGroupLayoutEntry {
            binding: 0,
            visibility: ShaderStages::compute_only(),
            ty: BindingType::Buffer {
                ty: BufferBindingType::Uniform,
                has_dynamic_offset: false,
                min_binding_size: None,
            },
            count: None,
        }
    );
    assert_eq!(t.bind_group_count(), 0);
    assert_eq!(t.bind_group_entries_count(0), 1);
}

#[test]
fn push_constant_size_rounds_up_to_four() {
    assert_eq!(push_constant_end(8), 8);
    assert_eq!(push_constant_end(5), 8);
    assert_eq!(push_constant_end(1), 4);
    assert_eq!(push_constant_end(0), 0);
    assert_eq!(push_constant_end(4294967295), 4294967296);
    for size in 0..40u32 {
        let end = push_constant_end(size);
        assert_eq!(end % 4, 0);
        assert!(end >= size as u64 && end < size as u64 + 4);
    }
}

#[test]
fn second_push_constant_block_replaces_first() {
    let m = module(vec![data(4), data(12)], vec![
        GlobalVariable { name: None, space: AddressSpace::PushConstant, binding: None, ty: 0 },
        GlobalVariable { name: None, space: AddressSpace::PushConstant, binding: None, ty: 1 },
    ]);
    let t = build(&m, &Directives::new());
    assert_eq!(
        t.push_constant_range(),
        Some(PushConstantRange { stages: ShaderStages::compute_only(), start: 0, end: 12 })
    );
}

#[test]
fn storage_buffer_read_only_follows_access() {
    assert!(storage_buffer_read_only(true, false));
    assert!(!storage_buffer_read_only(true, true));
    assert!(!storage_buffer_read_only(false, true));
    assert!(!storage_buffer_read_only(false, false));
}

#[test]
fn entries_past_last_group_are_empty() {
    let m = module(vec![data(16)], vec![
        global(AddressSpace::Uniform, 0, 0, 0),
        global(AddressSpace::Uniform, 2, 3, 0),
    ]);
    let t = build(&m, &Directives::new());
    assert_eq!(t.bind_group_count(), 2);
    assert!(t.get_bind_group_layout_entries(1).is_empty());
    assert_eq!(t.get_bind_group_layout_entries(2).len(), 1);
    assert!(t.get_bind_group_layout_entries(3).is_empty());
    assert!(t.get_bind_group_layout_entries(4000).is_empty());
    assert_eq!(t.bind_group_entries_count(3), 0);
    assert_eq!(t.get_bind_group_layout_entry(2, 3).unwrap().binding, 3);
}

#[test]
fn empty_module_has_no_groups() {
    let m = module(Vec::new(), Vec::new());
    let t = build(&m, &Directives::new());
    assert_eq!(t.bind_group_count(), 0);
    assert!(t.get_bind_group_layout_entries(0).is_empty());
    assert!(t.push_constant_range().is_none());
}

#[test]
fn comparison_sampler_ignores_filter_hint() {
    let comparison = BindingType::Sampler(SamplerBindingType::Comparison);
    assert_eq!(sampler_type(true, None), comparison);
    assert_eq!(sampler_type(true, Some(FilterMode::Linear)), comparison);
    assert_eq!(sampler_type(true, Some(FilterMode::Nearest)), comparison);
    assert_eq!(sampler_type(false, None), BindingType::Sampler(SamplerBindingType::NonFiltering));
    assert_eq!(
        sampler_type(false, Some(FilterMode::Linear)),
        BindingType::Sampler(SamplerBindingType::Filtering)
    );
}

#[test]
fn texture_array_has_count() {
    let array = |size| ShaderType {
        inner: TypeInner::BindingArray { base: Box::new(sampled_image(ScalarKind::Float)), size },
        size: 0,
    };
    let m = module(vec![array(ArraySize::Constant(4)), array(ArraySize::Dynamic)], vec![
        global(AddressSpace::Handle, 0, 0, 0),
        global(AddressSpace::Handle, 0, 1, 1),
    ]);
    let t = build(&m, &Directives::new());
    let fixed = t.get_bind_group_layout_entry(0, 0).unwrap();
    assert_eq!(fixed.count, Some(4));
    assert_eq!(
        fixed.ty,
        BindingType::Texture {
            sample_type: TextureSampleType::Float { filterable: true },
            view_dimension: TextureViewDimension::D2,
            multisampled: false,
        }
    );
    assert_eq!(t.get_bind_group_layout_entry(0, 1).unwrap().count, Some(1));
    assert_eq!(type_array_ct(&m, &0), Some(4));
    assert_eq!(type_array_ct(&m, &7), None);
}

#[test]
fn depth_and_integer_textures() {
    let m = module(
        vec![
            ShaderType {
                inner: TypeInner::Image {
                    dim: ImageDimension::Cube,
                    arrayed: false,
                    class: ImageClass::Depth { multi: true },
                },
                size: 0,
            },
            ShaderType { inner: sampled_image(ScalarKind::Sint), size: 0 },
            ShaderType { inner: sampled_image(ScalarKind::Bool), size: 0 },
        ],
        vec![
            global(AddressSpace::Handle, 0, 0, 0),
            global(AddressSpace::Handle, 0, 1, 1),
            global(AddressSpace::Handle, 0, 2, 2),
        ],
    );
    let t = build(&m, &Directives::new());
    assert_eq!(
        t.get_bind_group_layout_entry(0, 0).unwrap().ty,
        BindingType::Texture {
            sample_type: TextureSampleType::Depth,
            view_dimension: TextureViewDimension::Cube,
            multisampled: true,
        }
    );
    assert_eq!(
        t.get_bind_group_layout_entry(0, 1).unwrap().ty,
        BindingType::Texture {
            sample_type: TextureSampleType::Sint,
            view_dimension: TextureViewDimension::D2,
            multisampled: false,
        }
    );
    assert_eq!(
        t.get_bind_group_layout_entry(0, 2).unwrap().ty,
        BindingType::Texture {
            sample_type: TextureSampleType::Uint,
            view_dimension: TextureViewDimension::D2,
            multisampled: false,
        }
    );
}

#[test]
fn storage_image_in_storage_space() {
    let image = TypeInner::Image {
        dim: ImageDimension::D3,
        arrayed: false,
        class: ImageClass::Storage {
            format: StorageFormat::Rg16Float,
            access: StorageAccess { load: true, store: true },
        },
    };
    let m = module(vec![ShaderType { inner: image, size: 0 }], vec![global(
        AddressSpace::Storage { access: StorageAccess { load: false, store: true } },
        1,
        0,
        0,
    )]);
    let t = build(&m, &Directives::new());
    assert_eq!(
        t.get_bind_group_layout_entry(1, 0).unwrap().ty,
        BindingType::StorageTexture {
            access: StorageTextureAccess::WriteOnly,
            format: TextureFormat::Rg16Float,
            view_dimension: TextureViewDimension::D3,
        }
    );
}

#[test]
fn acceleration_structure_in_uniform_space() {
    let m = module(vec![ShaderType { inner: TypeInner::AccelerationStructure, size: 0 }], vec![
        global(AddressSpace::Uniform, 0, 0, 0),
    ]);
    let t = build(&m, &Directives::new());
    assert_eq!(t.get_bind_group_layout_entry(0, 0).unwrap().ty, BindingType::AccelerationStructure);
}

#[test]
fn unbound_spaces_are_skipped() {
    let m = module(vec![data(16)], vec![
        global(AddressSpace::Function, 0, 0, 0),
        global(AddressSpace::Private, 0, 1, 0),
        global(AddressSpace::WorkGroup, 0, 2, 0),
        GlobalVariable { name: None, space: AddressSpace::Uniform, binding: None, ty: 0 },
    ]);
    let t = build(&m, &Directives::new());
    assert!(t.get_bind_group_layout_entries(0).is_empty());
    assert!(t.get_bind_group_layout_entry(0, 0).is_none());
}

#[test]
fn no_entry_point_is_an_error() {
    let m = ShaderModule { types: vec![data(4)], global_variables: Vec::new(), entry_points: Vec::new() };
    assert_eq!(build_err(&m, &Directives::new()), BindGroupError::NoEntryPoint);
    match ComputeReflector::new_compute(&m, (), &Directives::new()) {
        Err(Error::BindGroupError(BindGroupError::NoEntryPoint)) => {},
        other => panic!("unexpected: {:?}", other.err()),
    }
}

#[test]
fn missing_type_handle_is_an_error() {
    let storage = module(vec![data(4)], vec![global(
        AddressSpace::Storage { access: StorageAccess { load: true, store: false } },
        0,
        0,
        3,
    )]);
    assert_eq!(build_err(&storage, &Directives::new()), BindGroupError::MissingTypeHandle);
    let handle = module(vec![data(4)], vec![global(AddressSpace::Handle, 0, 0, 9)]);
    assert_eq!(build_err(&handle, &Directives::new()), BindGroupError::MissingTypeHandle);
    let push = module(Vec::new(), vec![GlobalVariable {
        name: None,
        space: AddressSpace::PushConstant,
        binding: None,
        ty: 0,
    }]);
    assert_eq!(build_err(&push, &Directives::new()), BindGroupError::MissingTypeHandle);
    let sampled_in_storage = module(vec![ShaderType { inner: sampled_image(ScalarKind::Float), size: 0 }], vec![
        global(AddressSpace::Storage { access: StorageAccess { load: true, store: true } }, 0, 0, 0),
    ]);
    assert_eq!(build_err(&sampled_in_storage, &Directives::new()), BindGroupError::MissingTypeHandle);
}

#[test]
fn unexpected_type_is_an_error() {
    let m = module(vec![data(4)], vec![
        global(AddressSpace::Uniform, 0, 0, 0),
        global(AddressSpace::Handle, 0, 1, 0),
    ]);
    assert_eq!(build_err(&m, &Directives::new()), BindGroupError::UnexpectedType);
}

#[test]
fn uniform_hints_set_dynamic_offset_and_size() {
    let mut d = Directives::new();
    d.set_uniform_hint(loc(0, 1), UniformHintPatch {
        dynamic_offset: Some(true),
        calculate_min_binding_size: Some(true),
    });
    let m = module(vec![data(48)], vec![
        global(AddressSpace::Uniform, 0, 0, 0),
        global(AddressSpace::Uniform, 0, 1, 0),
    ]);
    let t = build(&m, &d);
    assert_eq!(
        t.get_bind_group_layout_entry(0, 0).unwrap().ty,
        BindingType::Buffer { ty: BufferBindingType::Uniform, has_dynamic_offset: false, min_binding_size: None }
    );
    assert_eq!(
        t.get_bind_group_layout_entry(0, 1).unwrap().ty,
        BindingType::Buffer {
            ty: BufferBindingType::Uniform,
            has_dynamic_offset: true,
            min_binding_size: Some(48),
        }
    );
}

#[test]
fn hint_lookup_layers_defaults_base_and_location() {
    let mut d = Directives::new();
    assert_eq!(d.get_uniform_hint(&loc(3, 3)), UniformHint::default());
    d.set_uniform_base(UniformHintPatch { dynamic_offset: Some(true), calculate_min_binding_size: None });
    d.set_uniform_hint(loc(1, 2), UniformHintPatch { dynamic_offset: Some(false), calculate_min_binding_size: None });
    d.set_uniform_hint(loc(1, 2), UniformHintPatch { dynamic_offset: None, calculate_min_binding_size: Some(true) });
    assert_eq!(d.get_uniform_hint(&loc(3, 3)), UniformHint { dynamic_offset: true, calculate_min_binding_size: false });
    assert_eq!(d.get_uniform_hint(&loc(1, 2)), UniformHint { dynamic_offset: true, calculate_min_binding_size: true });
    let mut s = SamplerHintPatch::empty();
    s.filter = Some(FilterMode::Linear);
    d.set_sampler_base(s);
    assert_eq!(d.get_sampler_hint(&loc(0, 0)).filter, FilterMode::Linear);
    assert!(d.get_sampler_hint(&loc(0, 0)).comparison.is_none());
}

#[test]
fn min_binding_size_zero_is_omitted() {
    assert_eq!(type_size(&module(vec![data(0)], Vec::new()), 0), None);
    assert_eq!(type_size(&module(vec![data(12)], Vec::new()), 0), Some(12));
    assert_eq!(type_size(&module(vec![data(12)], Vec::new()), 1), None);
}

#[test]
fn visibility_joins_every_entry_point_stage() {
    let m = ShaderModule {
        types: vec![data(16)],
        global_variables: vec![global(AddressSpace::Uniform, 0, 0, 0)],
        entry_points: vec![
            entry("vs", ShaderStage::Vertex, [0, 0, 0]),
            entry("fs", ShaderStage::Fragment, [0, 0, 0]),
        ],
    };
    let t = build(&m, &Directives::new());
    assert_eq!(
        t.get_bind_group_layout_entry(0, 0).unwrap().visibility,
        ShaderStages { vertex: true, fragment: true, compute: false }
    );
}

#[test]
fn workgroup_sizes_by_entry_point() {
    let m = ShaderModule {
        types: Vec::new(),
        global_variables: Vec::new(),
        entry_points: vec![
            entry("main", ShaderStage::Compute, [16, 16, 1]),
            entry("late", ShaderStage::Compute, [64, 0, 1]),
            entry("main", ShaderStage::Compute, [32, 1, 1]),
        ],
    };
    let refl = match ComputeReflector::new_compute(&m, (), &Directives::new()) {
        Ok(r) => r,
        Err(e) => panic!("{:?}", e),
    };
    assert_eq!(refl.work_group_size("main"), Some([32, 1, 1]));
    assert_eq!(refl.work_group_size("late"), None);
    assert_eq!(refl.work_group_size("absent"), None);
    assert_eq!(refl.entry_points(), vec!["main".to_string(), "late".to_string()]);
}

#[test]
fn process_accepts_text_sources_only() {
    assert!(process(SourceLanguage::Wgsl).is_ok());
    assert!(process(SourceLanguage::Glsl).is_ok());
    match process(SourceLanguage::Other) {
        Err(e) => assert_eq!(e, PreprocessingError::UnsupportedSource),
        Ok(_) => panic!("accepted a binary source"),
    }
}

#[test]
fn format_and_kind_mappings() {
    assert_eq!(texture_fmt(&StorageFormat::Rgba8Unorm), TextureFormat::Rgba8Unorm);
    assert_eq!(texture_fmt(&StorageFormat::Rgb10a2Uint), TextureFormat::Rgb10a2Uint);
    assert_eq!(texture_fmt(&StorageFormat::Rgba16Snorm), TextureFormat::Rgba16Snorm);
    assert_eq!(texture_fmt(&StorageFormat::Bgra8Unorm), TextureFormat::Bgra8Unorm);
    assert_eq!(sample_kind(&ScalarKind::Uint), TextureSampleType::Uint);
    assert_eq!(sample_kind(&ScalarKind::Float), TextureSampleType::Float { filterable: true });
    assert_eq!(image_dim(&ImageDimension::D1), TextureViewDimension::D1);
    assert_eq!(storage_access(&StorageAccess { load: false, store: false }), StorageTextureAccess::ReadOnly);
    assert_eq!(storage_access(&StorageAccess { load: true, store: true }), StorageTextureAccess::ReadWrite);
}

#[test]
fn unit_push_constant_is_empty() {
    let (offset, bytes) = ().range();
    assert_eq!(offset, 0);
    assert!(bytes.is_empty());
}
