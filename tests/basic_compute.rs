use kinnara::layout::{
    BindGroupLayoutEntry, BindingType, BufferBindingType, PushConstantRange, SamplerBindingType,
    ShaderStages, StorageTextureAccess, TextureFormat, TextureSampleType, TextureViewDimension,
};
use kinnara::preprocessing::Directives;
use kinnara::shader::{
    AddressSpace, EntryPoint, GlobalVariable, ImageClass, ImageDimension, ResourceLocation,
    ScalarKind, ShaderModule, ShaderStage, ShaderType, StorageAccess, StorageFormat, TypeInner,
};
use kinnara::ComputeReflector;

fn compute_entry(x: u32, y: u32, z: u32) -> EntryPoint {
    EntryPoint { name: "main".to_string(), stage: ShaderStage::Compute, workgroup_size: [x, y, z] }
}

fn global(name: &str, space: AddressSpace, binding: Option<(u32, u32)>, ty: usize) -> GlobalVariable {
    GlobalVariable {
        name: Some(name.to_string()),
        space,
        binding: binding.map(|(group, binding)| ResourceLocation { group, binding }),
        ty,
    }
}

fn data(size: u32) -> ShaderType {
    ShaderType { inner: TypeInner::Other, size }
}

fn read_write() -> StorageAccess {
    StorageAccess { load: true, store: true }
}

fn reflect(module: ShaderModule) -> ComputeReflector<()> {
    let directives = Directives::new();
    match ComputeReflector::new_compute(&module, (), &directives) {
        Ok(refl) => refl,
        Err(e) => panic!("reflection failed: {:?}", e),
    }
}

// layout(set=0, binding=0) uniform Base name;
// layout(push_constant) uniform Base next;
// with struct Base { float a; float b; };
fn basic_src() -> ShaderModule {
    ShaderModule {
        types: vec![data(8)],
        global_variables: vec![
            global("name", AddressSpace::Uniform, Some((0, 0)), 0),
            global("next", AddressSpace::PushConstant, None, 0),
        ],
        entry_points: vec![compute_entry(16, 16, 1)],
    }
}

#[test]
fn basic_reflection() {
    let refl = reflect(basic_src());

    let binding_0 = BindGroupLayoutEntry {
        binding: 0,
        visibility: ShaderStages::compute_only(),
        ty: BindingType::Buffer {
            ty: BufferBindingType::Uniform,
            has_dynamic_offset: false,
            min_binding_size: None,
        },
        count: None,
    };

    let pc_range = PushConstantRange { stages: ShaderStages::compute_only(), start: 0, end: 8 };

    let desc = refl.get_bind_group_layout_entry(0, 0).unwrap();
    let ranges = refl.push_constant_range().unwrap();
    let not_desc = refl.get_bind_group_layout_entry(0, 1);

    assert_eq!(pc_range, ranges);
    assert_eq!(binding_0, desc);
    assert!(not_desc.is_none());

    let bind_group = refl.get_bind_group_layout_descriptor(0);
    let bind_group_2 = refl.get_bind_group_layout_descriptor(1);

    assert_eq!(bind_group.entries, &[binding_0][..]);
    assert!(bind_group_2.entries.is_empty());
    assert!(bind_group_2.label.is_none());
}

// struct Data { float values[4]; };
// layout(set=0, binding=0) buffer DataBuffer { Data data[]; } buf;
fn storage_buffer_src() -> ShaderModule {
    ShaderModule {
        types: vec![data(16), data(0), data(0)],
        global_variables: vec![global(
            "buf",
            AddressSpace::Storage { access: read_write() },
            Some((0, 0)),
            2,
        )],
        entry_points: vec![compute_entry(16, 1, 1)],
    }
}

#[test]
fn storage_buffer_reflection() {
    let refl = reflect(storage_buffer_src());

    let binding_0 = BindGroupLayoutEntry {
        binding: 0,
        visibility: ShaderStages::compute_only(),
        ty: BindingType::Buffer {
            ty: BufferBindingType::Storage { read_only: false },
            has_dynamic_offset: false,
            min_binding_size: None,
        },
        count: None,
    };

    let desc = refl.get_bind_group_layout_entry(0, 0).unwrap();
    assert_eq!(binding_0, desc);

    let bind_group = refl.get_bind_group_layout_descriptor(0);
    assert_eq!(bind_group.entries, &[binding_0][..]);

    let pc_range = refl.push_constant_range();
    assert!(pc_range.is_none());
}

// layout(set=0, binding=0) uniform texture2D tex1;
// layout(set=0, binding=1) uniform texture2D tex2;
// layout(set=0, binding=2) uniform sampler samp;
// layout(set=1, binding=0) uniform UniformBuffer { vec4 color; } ubo;
fn multiple_bindings_src() -> ShaderModule {
    ShaderModule {
        types: vec![
            ShaderType {
                inner: TypeInner::Image {
                    dim: ImageDimension::D2,
                    arrayed: false,
                    class: ImageClass::Sampled { kind: ScalarKind::Float, multi: false },
                },
                size: 0,
            },
            ShaderType { inner: TypeInner::Sampler { comparison: false }, size: 0 },
            data(16),
        ],
        global_variables: vec![
            global("tex1", AddressSpace::Handle, Some((0, 0)), 0),
            global("tex2", AddressSpace::Handle, Some((0, 1)), 0),
            global("samp", AddressSpace::Handle, Some((0, 2)), 1),
            global("ubo", AddressSpace::Uniform, Some((1, 0)), 2),
        ],
        entry_points: vec![compute_entry(16, 16, 1)],
    }
}

#[test]
fn multiple_bindings_reflection() {
    let refl = reflect(multiple_bindings_src());

    let binding_0 = BindGroupLayoutEntry {
        binding: 0,
        visibility: ShaderStages::compute_only(),
        ty: BindingType::Texture {
            sample_type: TextureSampleType::Float { filterable: true },
            view_dimension: TextureViewDimension::D2,
            multisampled: false,
        },
        count: None,
    };
    let binding_1 = BindGroupLayoutEntry {
        binding: 1,
        visibility: ShaderStages::compute_only(),
        ty: BindingType::Texture {
            sample_type: TextureSampleType::Float { filterable: true },
            view_dimension: TextureViewDimension::D2,
            multisampled: false,
        },
        count: None,
    };
    let binding_2 = BindGroupLayoutEntry {
        binding: 2,
        visibility: ShaderStages::compute_only(),
        ty: BindingType::Sampler(SamplerBindingType::NonFiltering),
        count: None,
    };

    let desc_0 = refl.get_bind_group_layout_entry(0, 0).unwrap();
    let desc_1 = refl.get_bind_group_layout_entry(0, 1).unwrap();
    let desc_2 = refl.get_bind_group_layout_entry(0, 2).unwrap();
    assert_eq!(binding_0, desc_0);
    assert_eq!(binding_1, desc_1);
    assert_eq!(binding_2, desc_2);

    let binding_3 = BindGroupLayoutEntry {
        binding: 0,
        visibility: ShaderStages::compute_only(),
        ty: BindingType::Buffer {
            ty: BufferBindingType::Uniform,
            has_dynamic_offset: false,
            min_binding_size: None,
        },
        count: None,
    };

    let desc_3 = refl.get_bind_group_layout_entry(1, 0).unwrap();
    assert_eq!(binding_3, desc_3);

    let bind_group_0 = refl.get_bind_group_layout_descriptor(0);
    let bind_group_1 = refl.get_bind_group_layout_descriptor(1);

    assert_eq!(bind_group_0.entries.len(), 3);
    assert_eq!(bind_group_1.entries.len(), 1);

    let pc_range = refl.push_constant_range();
    assert!(pc_range.is_none());
}

fn storage_image(format: StorageFormat, load: bool, store: bool) -> ShaderType {
    ShaderType {
        inner: TypeInner::Image {
            dim: ImageDimension::D2,
            arrayed: false,
            class: ImageClass::Storage { format, access: StorageAccess { load, store } },
        },
        size: 0,
    }
}

// layout(set=0, binding=0, rgba8) writeonly uniform image2D writeOnlyImage;
// layout(set=0, binding=1, r32f)  readonly uniform image2D readOnlyImage;
// layout(set=0, binding=2, rgba32f) uniform image2D readWriteImage;
fn storage_texture_src() -> ShaderModule {
    ShaderModule {
        types: vec![
            storage_image(StorageFormat::Rgba8Unorm, false, true),
            storage_image(StorageFormat::R32Float, true, false),
            storage_image(StorageFormat::Rgba32Float, true, true),
        ],
        global_variables: vec![
            global("writeOnlyImage", AddressSpace::Handle, Some((0, 0)), 0),
            global("readOnlyImage", AddressSpace::Handle, Some((0, 1)), 1),
            global("readWriteImage", AddressSpace::Handle, Some((0, 2)), 2),
        ],
        entry_points: vec![compute_entry(16, 16, 1)],
    }
}

#[test]
fn storage_texture_reflection() {
    let refl = reflect(storage_texture_src());

    let binding_0 = BindGroupLayoutEntry {
        binding: 0,
        visibility: ShaderStages::compute_only(),
        ty: BindingType::StorageTexture {
            access: StorageTextureAccess::WriteOnly,
            format: TextureFormat::Rgba8Unorm,
            view_dimension: TextureViewDimension::D2,
        },
        count: None,
    };

    let binding_1 = BindGroupLayoutEntry {
        binding: 1,
        visibility: ShaderStages::compute_only(),
        ty: BindingType::StorageTexture {
            access: StorageTextureAccess::ReadOnly,
            format: TextureFormat::R32Float,
            view_dimension: TextureViewDimension::D2,
        },
        count: None,
    };

    let binding_2 = BindGroupLayoutEntry {
        binding: 2,
        visibility: ShaderStages::compute_only(),
        ty: BindingType::StorageTexture {
            access: StorageTextureAccess::ReadWrite,
            format: TextureFormat::Rgba32Float,
            view_dimension: TextureViewDimension::D2,
        },
        count: None,
    };

    let desc_0 = refl.get_bind_group_layout_entry(0, 0).unwrap();
    let desc_1 = refl.get_bind_group_layout_entry(0, 1).unwrap();
    let desc_2 = refl.get_bind_group_layout_entry(0, 2).unwrap();

    assert_eq!(binding_0, desc_0);
    assert_eq!(binding_1, desc_1);
    assert_eq!(binding_2, desc_2);

    let bind_group = refl.get_bind_group_layout_descriptor(0);
    assert_eq!(bind_group.entries, &[binding_0, binding_1, binding_2][..]);
}

// layout(set = 0, binding = 0) readonly buffer InputBuffer { InputData inputs[]; } input_buf;
// layout(set = 0, binding = 1) buffer OutputBuffer { OutputData outputs[]; } output_buf;
fn storage_buffer_test_src() -> ShaderModule {
    ShaderModule {
        types: vec![data(16), data(0), data(32), data(0)],
        global_variables: vec![
            global(
                "input_buf",
                AddressSpace::Storage { access: StorageAccess { load: true, store: false } },
                Some((0, 0)),
                1,
            ),
            global("output_buf", AddressSpace::Storage { access: read_write() }, Some((0, 1)), 3),
        ],
        entry_points: vec![compute_entry(16, 1, 1)],
    }
}

#[test]
fn storage_buffer_reflection_test() {
    let refl = reflect(storage_buffer_test_src());

    let input_binding = BindGroupLayoutEntry {
        binding: 0,
        visibility: ShaderStages::compute_only(),
        ty: BindingType::Buffer {
            ty: BufferBindingType::Storage { read_only: true },
            has_dynamic_offset: false,
            min_binding_size: None,
        },
        count: None,
    };

    let output_binding = BindGroupLayoutEntry {
        binding: 1,
        visibility: ShaderStages::compute_only(),
        ty: BindingType::Buffer {
            ty: BufferBindingType::Storage { read_only: false },
            has_dynamic_offset: false,
            min_binding_size: None,
        },
        count: None,
    };

    let desc_0 = refl.get_bind_group_layout_entry(0, 0).unwrap();
    let desc_1 = refl.get_bind_group_layout_entry(0, 1).unwrap();

    assert_eq!(input_binding, desc_0, "Input buffer binding mismatch");
    assert_eq!(output_binding, desc_1, "Output buffer binding mismatch");

    let bind_group = refl.get_bind_group_layout_descriptor(0);
    assert_eq!(bind_group.entries, &[input_binding, output_binding][..], "Bind group layout mismatch");

    let pc_range = refl.push_constant_range();
    assert!(pc_range.is_none(), "Unexpected push constant range");
}
