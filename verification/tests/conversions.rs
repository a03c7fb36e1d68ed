use wgpu_native::conv::{
    map_adapter_options, map_blend_component, map_compare_function, map_extent3d,
    map_hub_report, map_image_copy_buffer, map_image_copy_texture, map_load_op,
    map_mipmap_filter_mode, map_origin3d, map_present_mode, map_stencil_face_state,
    map_storage_report, map_texture_data_layout, map_texture_dimension,
    map_texture_view_dimension, map_vertex_format, BlendFactor, BlendOperation, CompareFunction,
    Extent3d, FilterMode, HubReport, LoadOp, NativeBlendComponent, NativeImageCopyTexture,
    NativeStencilFaceState, NativeTextureDataLayout, Origin3d, PresentMode, StencilOperation,
    StorageReport, TextureAspect, TextureDimension, TextureViewDimension, VertexFormat,
};
use wgpu_native::format::{map_texture_format, to_native_texture_format, TextureFormat};
use wgpu_native::native;

#[test]
fn every_texture_format_number_round_trips() {
    let mut named = 0;
    for code in 0u32..0x80 {
        if let Some(format) = map_texture_format(code) {
            named += 1;
            assert_eq!(to_native_texture_format(format), Some(code));
        }
    }
    // Every number from R8Unorm to ASTC12x12UnormSrgb names a format, but for three that the
    // graphics library does not take from the C interface; the undefined one names none.
    assert_eq!(named, 0x5F - 3);
    assert_eq!(map_texture_format(native::WGPUTextureFormat_Stencil8), None);
    assert_eq!(map_texture_format(native::WGPUTextureFormat_Depth16Unorm), None);
    assert_eq!(map_texture_format(native::WGPUTextureFormat_BC6HRGBFloat), None);
    assert_eq!(map_texture_format(native::WGPUTextureFormat_Undefined), None);
    assert_eq!(map_texture_format(0x60), None);
}

#[test]
fn texture_formats_name_the_expected_variants() {
    assert_eq!(map_texture_format(native::WGPUTextureFormat_RGBA8Unorm), Some(TextureFormat::Rgba8Unorm));
    assert_eq!(map_texture_format(native::WGPUTextureFormat_BGRA8UnormSrgb), Some(TextureFormat::Bgra8UnormSrgb));
    assert_eq!(
        map_texture_format(native::WGPUTextureFormat_Depth24UnormStencil8),
        Some(TextureFormat::Depth24UnormStencil8),
    );
    assert_eq!(to_native_texture_format(TextureFormat::Depth32Float), Some(native::WGPUTextureFormat_Depth32Float));
    // Formats that the C interface has no number for.
    assert_eq!(to_native_texture_format(TextureFormat::R16Unorm), None);
    assert_eq!(to_native_texture_format(TextureFormat::Rg16Snorm), None);
}

#[test]
fn simple_enumerations_convert_or_hand_the_number_back() {
    assert_eq!(map_load_op(native::WGPULoadOp_Clear), Ok(LoadOp::Clear));
    assert_eq!(map_load_op(native::WGPULoadOp_Undefined), Err(native::WGPULoadOp_Undefined));
    assert_eq!(map_compare_function(native::WGPUCompareFunction_LessEqual), Ok(CompareFunction::LessEqual));
    assert_eq!(map_compare_function(native::WGPUCompareFunction_Undefined), Err(0));
    assert_eq!(map_mipmap_filter_mode(native::WGPUMipmapFilterMode_Linear), Ok(FilterMode::Linear));
    assert_eq!(map_present_mode(native::WGPUPresentMode_Mailbox), Ok(PresentMode::Mailbox));
    assert_eq!(map_vertex_format(native::WGPUVertexFormat_Float32x3), Ok(VertexFormat::Float32x3));
    assert_eq!(map_vertex_format(native::WGPUVertexFormat_Undefined), Err(0));
    assert_eq!(map_texture_dimension(native::WGPUTextureDimension_3D), Ok(TextureDimension::D3));
    assert_eq!(map_texture_dimension(9), Err(9));
    assert_eq!(map_texture_view_dimension(native::WGPUTextureViewDimension_CubeArray), Some(TextureViewDimension::CubeArray));
    assert_eq!(map_texture_view_dimension(native::WGPUTextureViewDimension_Undefined), None);
}

#[test]
fn sizes_positions_and_layouts_are_copied() {
    assert_eq!(map_extent3d(4, 5, 6), Extent3d { width: 4, height: 5, depth_or_array_layers: 6 });
    assert_eq!(map_origin3d(1, 2, 3), Origin3d { x: 1, y: 2, z: 3 });
    let layout = map_texture_data_layout(&NativeTextureDataLayout { offset: 64, bytes_per_row: 0, rows_per_image: 8 });
    assert_eq!(layout.offset, 64);
    assert_eq!(layout.bytes_per_row, None);
    assert_eq!(layout.rows_per_image, Some(8));
    let buffer = map_image_copy_buffer(&NativeTextureDataLayout { offset: 0, bytes_per_row: 256, rows_per_image: 0 });
    assert_eq!(buffer.bytes_per_row, Some(256));
    assert_eq!(buffer.rows_per_image, None);
}

#[test]
fn a_copy_texture_needs_an_aspect() {
    let origin = Origin3d { x: 1, y: 0, z: 0 };
    let ok = map_image_copy_texture(&NativeImageCopyTexture {
        mip_level: 2,
        origin,
        aspect: native::WGPUTextureAspect_DepthOnly,
    })
    .unwrap();
    assert_eq!(ok.mip_level, 2);
    assert_eq!(ok.origin, origin);
    assert_eq!(ok.aspect, TextureAspect::DepthOnly);
    assert_eq!(map_image_copy_texture(&NativeImageCopyTexture { mip_level: 0, origin, aspect: 17 }), Err(17));
}

#[test]
fn blend_components_report_the_first_bad_number() {
    let good = NativeBlendComponent {
        src_factor: native::WGPUBlendFactor_SrcAlpha,
        dst_factor: native::WGPUBlendFactor_OneMinusSrcAlpha,
        operation: native::WGPUBlendOperation_Add,
    };
    let mapped = map_blend_component(&good).unwrap();
    assert_eq!(mapped.src_factor, BlendFactor::SrcAlpha);
    assert_eq!(mapped.dst_factor, BlendFactor::OneMinusSrcAlpha);
    assert_eq!(mapped.operation, BlendOperation::Add);
    assert_eq!(map_blend_component(&NativeBlendComponent { dst_factor: 40, operation: 50, ..good }), Err(40));
    assert_eq!(map_blend_component(&NativeBlendComponent { operation: 50, ..good }), Err(50));
}

#[test]
fn stencil_faces_report_the_first_bad_number() {
    let good = NativeStencilFaceState {
        compare: native::WGPUCompareFunction_Always,
        fail_op: native::WGPUStencilOperation_Keep,
        depth_fail_op: native::WGPUStencilOperation_Zero,
        pass_op: native::WGPUStencilOperation_Replace,
    };
    let mapped = map_stencil_face_state(&good).unwrap();
    assert_eq!(mapped.compare, CompareFunction::Always);
    assert_eq!(mapped.fail_op, StencilOperation::Keep);
    assert_eq!(mapped.depth_fail_op, StencilOperation::Zero);
    assert_eq!(mapped.pass_op, StencilOperation::Replace);
    assert_eq!(map_stencil_face_state(&NativeStencilFaceState { compare: 0, fail_op: 30, ..good }), Err(0));
    assert_eq!(map_stencil_face_state(&NativeStencilFaceState { depth_fail_op: 30, pass_op: 31, ..good }), Err(30));
    assert_eq!(map_stencil_face_state(&NativeStencilFaceState { pass_op: 31, ..good }), Err(31));
}

#[test]
fn adapter_options_default_to_the_null_backend() {
    assert_eq!(map_adapter_options(None), native::WGPUBackendType_Null);
    assert_eq!(map_adapter_options(Some(native::WGPUBackendType_Vulkan)), native::WGPUBackendType_Vulkan);
}

#[test]
fn storage_reports_carry_the_error_count_as_vacant() {
    let report = StorageReport { num_occupied: 3, num_vacant: 9, num_error: 2, element_size: 48 };
    let native = map_storage_report(&report);
    assert_eq!(native.num_occupied, 3);
    assert_eq!(native.num_vacant, 2);
    assert_eq!(native.num_error, 2);
    assert_eq!(native.element_size, 48);
    let hub = HubReport {
        adapters: report,
        devices: StorageReport { num_occupied: 1, ..report },
        pipeline_layouts: report,
        shader_modules: report,
        bind_group_layouts: report,
        bind_groups: report,
        command_buffers: report,
        render_bundles: report,
        render_pipelines: report,
        compute_pipelines: report,
        query_sets: report,
        buffers: report,
        textures: report,
        texture_views: report,
        samplers: StorageReport { element_size: 8, ..report },
    };
    let native_hub = map_hub_report(&hub);
    assert_eq!(native_hub.adapters, native);
    assert_eq!(native_hub.devices.num_occupied, 1);
    assert_eq!(native_hub.samplers.element_size, 8);
    assert_eq!(native_hub.samplers.num_vacant, 2);
}
