use wgpu_native::conv::{
    CompareFunction, IndexFormat, NativeStencilFaceState, PrimitiveTopology, StencilOperation,
    TextureViewDimension,
    VertexFormat,
};
use wgpu_native::device::{
    map_adapter_type, map_backend_type, map_backend_type_request,
    map_bind_group_layout_entries, map_bind_group_layout_entry, map_color_target_state,
    map_depth_stencil_state, map_device_descriptor, map_multisample_state,
    map_power_preference, map_primitive_state, map_pipeline_layout_descriptor, map_request_device,
    map_vertex_buffer_layouts, map_color_target_states, map_bind_group_entry, BindGroupEntry,
    BindGroupEntryError, BindingResource, ColorTargetState, NativeBindGroupEntry,
    NativeDeviceDescriptor, NativePipelineLayoutExtras, NativeVertexBufferLayout,
    map_request_adapter_failure, map_request_adapter_options, map_vertex_attributes,
    map_vertex_step_mode, Backend, BackendRequestError, Backends, BindGroupLayoutEntryError,
    BindingType, BufferBindingType, DeviceType, Face, FrontFace, NativeBindGroupLayoutEntry,
    NativeBufferBindingLayout, NativeColorTargetState, NativeDepthStencilState,
    NativeMultisampleState, NativePrimitiveState,
    NativeRequestAdapterOptions, NativeSamplerBindingLayout, NativeStorageTextureBindingLayout,
    NativeTextureBindingLayout, NativeVertexAttribute,
    PowerPreference, RequestAdapterFailure, SamplerBindingType, 
    StorageTextureAccess, TextureSampleType, VertexStepMode,
};
use wgpu_native::features::Features;
use wgpu_native::format::TextureFormat;
use wgpu_native::limits::{get_base_device_limits_from_adapter_limits, Limits, NativeLimits, NativeLimitsExtras};
use wgpu_native::native;

fn empty_entry() -> NativeBindGroupLayoutEntry {
    NativeBindGroupLayoutEntry {
        binding: 0,
        visibility: native::WGPUShaderStage_Vertex,
        buffer: NativeBufferBindingLayout { type_: 0, has_dynamic_offset: false, min_binding_size: 0 },
        sampler: NativeSamplerBindingLayout { type_: 0 },
        texture: NativeTextureBindingLayout { sample_type: 0, view_dimension: 0, multisampled: false },
        storage_texture: NativeStorageTextureBindingLayout { access: 0, format: 0, view_dimension: 0 },
    }
}

fn zero_limits() -> NativeLimits {
    NativeLimits {
        max_texture_dimension_1d: 0,
        max_texture_dimension_2d: 0,
        max_texture_dimension_3d: 0,
        max_texture_array_layers: 0,
        max_bind_groups: 0,
        max_dynamic_uniform_buffers_per_pipeline_layout: 0,
        max_dynamic_storage_buffers_per_pipeline_layout: 0,
        max_sampled_textures_per_shader_stage: 0,
        max_samplers_per_shader_stage: 0,
        max_storage_buffers_per_shader_stage: 0,
        max_storage_textures_per_shader_stage: 0,
        max_uniform_buffers_per_shader_stage: 0,
        max_uniform_buffer_binding_size: 0,
        max_storage_buffer_binding_size: 0,
        min_uniform_buffer_offset_alignment: 0,
        min_storage_buffer_offset_alignment: 0,
        max_vertex_buffers: 0,
        max_buffer_size: 0,
        max_vertex_attributes: 0,
        max_vertex_buffer_array_stride: 0,
        max_inter_stage_shader_components: 0,
        max_compute_workgroup_storage_size: 0,
        max_compute_invocations_per_workgroup: 0,
        max_compute_workgroup_size_x: 0,
        max_compute_workgroup_size_y: 0,
        max_compute_workgroup_size_z: 0,
        max_compute_workgroups_per_dimension: 0,
    }
}

#[test]
fn backend_requests_pick_backends() {
    assert_eq!(map_backend_type_request(native::WGPUBackendType_Undefined), Ok(Backends::all()));
    assert_eq!(map_backend_type_request(native::WGPUBackendType_Null), Ok(Backends::empty()));
    assert_eq!(
        map_backend_type_request(native::WGPUBackendType_Vulkan),
        Ok(Backends { vulkan: true, ..Backends::empty() }),
    );
    assert_eq!(
        map_backend_type_request(native::WGPUBackendType_OpenGLES),
        Ok(Backends { gl: true, ..Backends::empty() }),
    );
    assert_eq!(map_backend_type_request(native::WGPUBackendType_D3D11), Err(BackendRequestError::UnsupportedD3D11));
    let refused = BackendRequestError::UnsupportedD3D11;
    assert_eq!(refused.status(), native::WGPURequestAdapterStatus_Error);
    assert_eq!(refused.message(), "unsupported backend type: d3d11");
}

#[test]
fn adapter_requests_and_answers_convert() {
    assert_eq!(map_power_preference(native::WGPUPowerPreference_HighPerformance), PowerPreference::HighPerformance);
    assert_eq!(map_power_preference(native::WGPUPowerPreference_LowPower), PowerPreference::LowPower);
    assert_eq!(map_power_preference(42), PowerPreference::NoPreference);
    let none = map_request_adapter_options(None).unwrap();
    let options = NativeRequestAdapterOptions {
        power_preference: native::WGPUPowerPreference_LowPower,
        force_fallback_adapter: 1,
        backend_type: native::WGPUBackendType_Metal,
    };
    let mapped = map_request_adapter_options(Some(&options)).unwrap();
    assert_eq!(mapped.power_preference, PowerPreference::LowPower);
    assert!(mapped.force_fallback_adapter);
    assert_eq!(mapped.backends, Backends { metal: true, ..Backends::empty() });
    assert_eq!(none.backends, Backends::all());
    assert_eq!(
        map_request_adapter_options(Some(&NativeRequestAdapterOptions { backend_type: native::WGPUBackendType_D3D11, ..options })),
        Err(BackendRequestError::UnsupportedD3D11),
    );
    assert_eq!(map_request_adapter_failure(RequestAdapterFailure::NotFound), native::WGPURequestAdapterStatus_Unavailable);
    assert_eq!(map_adapter_type(DeviceType::Cpu), native::WGPUAdapterType_CPU);
    assert_eq!(map_backend_type(Backend::Vulkan), native::WGPUBackendType_Vulkan);
}

#[test]
fn bind_group_entries_take_the_first_given_binding() {
    let mut texture = empty_entry();
    texture.texture.sample_type = native::WGPUTextureSampleType_UnfilterableFloat;
    texture.texture.view_dimension = native::WGPUTextureViewDimension_2D;
    texture.sampler.type_ = native::WGPUSamplerBindingType_Filtering;
    let mapped = map_bind_group_layout_entry(&texture, false).unwrap();
    assert_eq!(
        mapped.ty,
        BindingType::Texture {
            sample_type: TextureSampleType::Float { filterable: false },
            view_dimension: TextureViewDimension::D2,
            multisampled: false,
        },
    );

    let mut sampler = empty_entry();
    sampler.sampler.type_ = native::WGPUSamplerBindingType_Comparison;
    assert_eq!(
        map_bind_group_layout_entry(&sampler, false).unwrap().ty,
        BindingType::Sampler(SamplerBindingType::Comparison),
    );

    let mut storage = empty_entry();
    storage.storage_texture.access = native::WGPUStorageTextureAccess_WriteOnly;
    storage.storage_texture.format = native::WGPUTextureFormat_RGBA8Unorm;
    storage.storage_texture.view_dimension = native::WGPUTextureViewDimension_2DArray;
    assert_eq!(
        map_bind_group_layout_entry(&storage, false).unwrap().ty,
        BindingType::StorageTexture {
            access: StorageTextureAccess::WriteOnly,
            format: TextureFormat::Rgba8Unorm,
            view_dimension: TextureViewDimension::D2Array,
        },
    );

    let mut buffer = empty_entry();
    buffer.buffer.type_ = native::WGPUBufferBindingType_ReadOnlyStorage;
    buffer.buffer.min_binding_size = 16;
    assert_eq!(
        map_bind_group_layout_entry(&buffer, false).unwrap().ty,
        BindingType::Buffer {
            ty: BufferBindingType::Storage { read_only: true },
            has_dynamic_offset: false,
            min_binding_size: Some(16),
        },
    );
}

#[test]
fn bind_group_entries_report_what_is_wrong() {
    assert_eq!(map_bind_group_layout_entry(&empty_entry(), false), Err(BindGroupLayoutEntryError::NoEntryType));
    let mut bad_sample = empty_entry();
    bad_sample.texture.sample_type = 99;
    assert_eq!(map_bind_group_layout_entry(&bad_sample, false), Err(BindGroupLayoutEntryError::UnknownSampleType(99)));
    let mut bad_visibility = empty_entry();
    bad_visibility.sampler.type_ = native::WGPUSamplerBindingType_Filtering;
    bad_visibility.visibility = 0x8000;
    assert_eq!(
        map_bind_group_layout_entry(&bad_visibility, false),
        Err(BindGroupLayoutEntryError::InvalidVisibility(0x8000)),
    );
    let mut sampler = empty_entry();
    sampler.sampler.type_ = native::WGPUSamplerBindingType_NonFiltering;
    let entries = vec![(sampler, false), (bad_sample, false), (empty_entry(), false)];
    assert_eq!(map_bind_group_layout_entries(&entries), Err(BindGroupLayoutEntryError::UnknownSampleType(99)));
    let all = map_bind_group_layout_entries(&vec![(sampler, false), (empty_entry(), true)]).unwrap();
    assert_eq!(all.len(), 2);
    assert_eq!(all[0].visibility, native::WGPUShaderStage_Vertex);
    assert_eq!(all[1].ty, BindingType::ExternalTexture);
    assert_eq!(
        map_bind_group_layout_entries(&vec![(sampler, false), (empty_entry(), false)]),
        Err(BindGroupLayoutEntryError::NoEntryType),
    );
}

#[test]
fn vertex_state_converts() {
    assert_eq!(map_vertex_step_mode(native::WGPUVertexStepMode_Instance), VertexStepMode::Instance);
    assert_eq!(map_vertex_step_mode(native::WGPUVertexStepMode_Vertex), VertexStepMode::Vertex);
    let attributes = vec![
        NativeVertexAttribute { format: native::WGPUVertexFormat_Float32x2, offset: 0, shader_location: 0 },
        NativeVertexAttribute { format: native::WGPUVertexFormat_Uint32, offset: 8, shader_location: 1 },
    ];
    let mapped = map_vertex_attributes(&attributes);
    assert_eq!(mapped[0].format, VertexFormat::Float32x2);
    assert_eq!(mapped[1].format, VertexFormat::Uint32);
    assert_eq!(mapped[1].offset, 8);
    assert_eq!(mapped[1].shader_location, 1);
    let buffers = vec![
        NativeVertexBufferLayout { array_stride: 12, step_mode: native::WGPUVertexStepMode_Vertex, attributes },
        NativeVertexBufferLayout {
            array_stride: 4,
            step_mode: native::WGPUVertexStepMode_Instance,
            attributes: vec![NativeVertexAttribute { format: native::WGPUVertexFormat_Float32, offset: 0, shader_location: 2 }],
        },
    ];
    let layouts = map_vertex_buffer_layouts(&buffers);
    assert_eq!(layouts.len(), 2);
    assert_eq!(layouts[0].array_stride, 12);
    assert_eq!(layouts[0].step_mode, VertexStepMode::Vertex);
    assert_eq!(layouts[0].attributes.len(), 2);
    assert_eq!(layouts[1].step_mode, VertexStepMode::Instance);
    assert_eq!(layouts[1].attributes[0].format, VertexFormat::Float32);
    assert_eq!(layouts[1].attributes[0].shader_location, 2);
}

#[test]
fn primitive_state_converts() {
    let native_state = NativePrimitiveState {
        topology: native::WGPUPrimitiveTopology_TriangleStrip,
        strip_index_format: native::WGPUIndexFormat_Uint16,
        front_face: native::WGPUFrontFace_CW,
        cull_mode: native::WGPUCullMode_Back,
    };
    let mapped = map_primitive_state(&native_state, true);
    assert_eq!(mapped.topology, PrimitiveTopology::TriangleStrip);
    assert_eq!(mapped.strip_index_format, Some(IndexFormat::Uint16));
    assert_eq!(mapped.front_face, FrontFace::Cw);
    assert_eq!(mapped.cull_mode, Some(Face::Back));
    assert!(mapped.unclipped_depth);
    let unstripped = NativePrimitiveState {
        strip_index_format: native::WGPUIndexFormat_Undefined,
        front_face: native::WGPUFrontFace_CCW,
        cull_mode: native::WGPUCullMode_None,
        ..native_state
    };
    let plain = map_primitive_state(&unstripped, false);
    assert_eq!(plain.strip_index_format, None);
    assert_eq!(plain.front_face, FrontFace::Ccw);
    assert_eq!(plain.cull_mode, None);
}

#[test]
fn depth_stencil_state_converts() {
    let face = NativeStencilFaceState {
        compare: native::WGPUCompareFunction_Always,
        fail_op: native::WGPUStencilOperation_Keep,
        depth_fail_op: native::WGPUStencilOperation_Keep,
        pass_op: native::WGPUStencilOperation_IncrementClamp,
    };
    let native_state = NativeDepthStencilState {
        format: native::WGPUTextureFormat_Depth24PlusStencil8,
        depth_write_enabled: 1,
        depth_compare: native::WGPUCompareFunction_Less,
        stencil_front: face,
        stencil_back: NativeStencilFaceState { pass_op: native::WGPUStencilOperation_Invert, ..face },
        stencil_read_mask: 0xFF,
        stencil_write_mask: 0x0F,
        depth_bias: -2,
    };
    let mapped = map_depth_stencil_state(&native_state);
    assert_eq!(mapped.format, TextureFormat::Depth24PlusStencil8);
    assert!(mapped.depth_write_enabled);
    assert_eq!(mapped.depth_compare, CompareFunction::Less);
    assert_eq!(mapped.stencil_front.pass_op, StencilOperation::IncrementClamp);
    assert_eq!(mapped.stencil_back.pass_op, StencilOperation::Invert);
    assert_eq!(mapped.stencil_write_mask, 0x0F);
    assert_eq!(mapped.depth_bias, -2);
}

#[test]
fn multisample_and_color_targets_convert() {
    let ms = map_multisample_state(&NativeMultisampleState { count: 4, mask: 0xFFFF_FFFF, alpha_to_coverage_enabled: 0 });
    assert_eq!(ms.count, 4);
    assert_eq!(ms.mask, 0xFFFF_FFFFu64);
    assert!(!ms.alpha_to_coverage_enabled);
    let target = map_color_target_state(&NativeColorTargetState {
        format: native::WGPUTextureFormat_BGRA8Unorm,
        write_mask: 0xF,
    })
    .unwrap();
    assert_eq!(target.format, TextureFormat::Bgra8Unorm);
    assert_eq!(target.write_mask, wgpu_types::ColorWrites::ALL.bits());
    // A target without a format is an empty slot, whatever its mask.
    assert_eq!(map_color_target_state(&NativeColorTargetState { format: 0, write_mask: 0x10 }), None);
    let targets = vec![
        NativeColorTargetState { format: native::WGPUTextureFormat_RGBA8Unorm, write_mask: 0x1 },
        NativeColorTargetState { format: native::WGPUTextureFormat_Undefined, write_mask: 0 },
        NativeColorTargetState { format: native::WGPUTextureFormat_R8Unorm, write_mask: 0xF },
    ];
    let slots = map_color_target_states(&targets);
    assert_eq!(slots.len(), 3);
    assert_eq!(slots[0], Some(ColorTargetState { format: TextureFormat::Rgba8Unorm, write_mask: 0x1 }));
    assert_eq!(slots[1], None);
    assert_eq!(slots[2], Some(ColorTargetState { format: TextureFormat::R8Unorm, write_mask: 0xF }));
}

#[test]
fn device_descriptors_take_defaults_where_nothing_is_asked() {
    let plain = map_device_descriptor(&zero_limits(), None, None);
    assert_eq!(plain.features, Features::empty());
    assert_eq!(plain.limits, Limits::defaults());

    let mut required = zero_limits();
    required.max_bind_groups = 8;
    required.max_buffer_size = 12; // the requirement cannot carry this one
    let extras = NativeLimitsExtras { max_immediate_size: 128 };
    let asked = map_device_descriptor(&required, Some(&extras), Some(native::WGPUNativeFeature_Immediates));
    assert!(asked.features.immediates);
    assert_eq!(asked.limits.max_bind_groups, 8);
    assert_eq!(asked.limits.max_buffer_size, Limits::defaults().max_buffer_size);
    assert_eq!(asked.limits.max_immediate_size, 128);
}

#[test]
fn pipeline_layouts_take_one_immediate_size() {
    let extras = NativePipelineLayoutExtras { immediate_data_size: 4 };
    assert_eq!(map_pipeline_layout_descriptor(Some(&extras)).immediate_size, 4);
    assert_eq!(map_pipeline_layout_descriptor(None).immediate_size, 0);
}

#[test]
fn a_device_request_without_description_takes_the_base_limits() {
    let adapter = Limits { max_texture_dimension_2d: 4096, ..Limits::defaults() };
    let plain = map_request_device(&adapter, None);
    assert_eq!(plain.features, Features::empty());
    assert_eq!(plain.limits, get_base_device_limits_from_adapter_limits(&adapter));
    assert_eq!(plain.limits.max_texture_dimension_2d, 4096);
    let mut required = zero_limits();
    required.max_bind_groups = 6;
    let described = NativeDeviceDescriptor { required_limits: required, limits_extras: None, device_features: Some(0) };
    let asked = map_request_device(&adapter, Some(&described));
    assert_eq!(asked.limits.max_bind_groups, 6);
    assert_eq!(asked.limits.max_texture_dimension_2d, Limits::defaults().max_texture_dimension_2d);
}

#[test]
fn bind_group_entries_choose_their_resource() {
    let entry = NativeBindGroupEntry {
        binding: 3,
        has_buffer: true,
        offset: 64,
        size: native::WGPU_WHOLE_SIZE,
        has_sampler: true,
        has_texture_view: false,
    };
    assert_eq!(
        map_bind_group_entry(&entry),
        Ok(BindGroupEntry { binding: 3, resource: BindingResource::Buffer { offset: 64, size: None } }),
    );
    assert_eq!(
        map_bind_group_entry(&NativeBindGroupEntry { size: 16, ..entry }).unwrap().resource,
        BindingResource::Buffer { offset: 64, size: Some(16) },
    );
    assert_eq!(map_bind_group_entry(&NativeBindGroupEntry { size: 0, ..entry }), Err(BindGroupEntryError::ZeroSize));
    let sampler = NativeBindGroupEntry { has_buffer: false, ..entry };
    assert_eq!(map_bind_group_entry(&sampler).unwrap().resource, BindingResource::Sampler);
    let view = NativeBindGroupEntry { has_sampler: false, has_texture_view: true, ..sampler };
    assert_eq!(map_bind_group_entry(&view).unwrap().resource, BindingResource::TextureView);
    let none = NativeBindGroupEntry { has_texture_view: false, ..view };
    assert_eq!(map_bind_group_entry(&none), Err(BindGroupEntryError::NoResource));
}

#[test]
fn atomic_storage_textures_bind() {
    let mut storage = empty_entry();
    storage.storage_texture.access = native::WGPUStorageTextureAccess_Atomic;
    storage.storage_texture.format = native::WGPUTextureFormat_R32Uint;
    storage.storage_texture.view_dimension = native::WGPUTextureViewDimension_2D;
    assert_eq!(
        map_bind_group_layout_entry(&storage, false).unwrap().ty,
        BindingType::StorageTexture {
            access: StorageTextureAccess::Atomic,
            format: TextureFormat::R32Uint,
            view_dimension: TextureViewDimension::D2,
        },
    );
    storage.storage_texture.access = 0x77;
    assert_eq!(
        map_bind_group_layout_entry(&storage, false),
        Err(BindGroupLayoutEntryError::UnknownStorageTextureAccess(0x77)),
    );
}
