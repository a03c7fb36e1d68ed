use wgpu_native::conv::{
    AddressMode, CompareFunction, Extent3d, FilterMode, LoadOp, StoreOp, TextureAspect,
    TextureDimension, TextureViewDimension,
};
use wgpu_native::format::TextureFormat;
use wgpu_native::native;
use wgpu_native::resource::{
    map_buffer_access_outcome, map_buffer_descriptor, map_buffer_size, map_color_attachments,
    map_color_channel, NativeColorAttachment,
    map_depth_stencil_channel, map_host_map, map_maintain, map_mapped_range_size,
    map_query_set_index, map_render_bundle_formats, map_sampler_descriptor,
    map_texture_descriptor, map_texture_view_descriptor, texture_format_has_depth,
    texture_release, BufferAccessOutcome, BufferDescriptor, HostMap, Maintain,
    NativeSamplerDescriptor, NativeTextureDescriptor, NativeTextureViewDescriptor,
    TextureDescriptorError, TextureRelease, TextureViewDescriptorError,
};

#[test]
fn buffer_descriptors_need_known_usages() {
    let usage = (wgpu_types::BufferUsages::MAP_READ | wgpu_types::BufferUsages::COPY_DST).bits();
    assert_eq!(
        map_buffer_descriptor(256, usage, 1),
        Ok(BufferDescriptor { size: 256, usage, mapped_at_creation: true }),
    );
    assert_eq!(map_buffer_descriptor(4, 0x1_0000, 0), Err(0x1_0000));
}

#[test]
fn buffer_mapping_modes_and_outcomes() {
    assert_eq!(map_host_map(native::WGPUMapMode_Read), HostMap::Read);
    assert_eq!(map_host_map(native::WGPUMapMode_Write), HostMap::Write);
    assert_eq!(map_buffer_access_outcome(BufferAccessOutcome::Success), native::WGPUBufferMapAsyncStatus_Success);
    assert_eq!(map_buffer_access_outcome(BufferAccessOutcome::DeviceFailed), native::WGPUBufferMapAsyncStatus_DeviceLost);
    assert_eq!(
        map_buffer_access_outcome(BufferAccessOutcome::InvalidBuffer),
        native::WGPUBufferMapAsyncStatus_DestroyedBeforeCallback,
    );
    assert_eq!(map_buffer_access_outcome(BufferAccessOutcome::OtherFailure), native::WGPUBufferMapAsyncStatus_ValidationError);
}

#[test]
fn whole_size_sentinels_become_none() {
    assert_eq!(map_mapped_range_size(native::WGPU_WHOLE_MAP_SIZE), None);
    assert_eq!(map_mapped_range_size(64), Some(64));
    assert_eq!(map_buffer_size(native::WGPU_WHOLE_SIZE), Ok(None));
    assert_eq!(map_buffer_size(32), Ok(Some(32)));
    assert_eq!(map_buffer_size(0), Err(()));
    assert_eq!(map_query_set_index(native::WGPU_QUERY_SET_INDEX_UNDEFINED), None);
    assert_eq!(map_query_set_index(3), Some(3));
}

#[test]
fn polls_wait_only_when_asked() {
    assert_eq!(map_maintain(false, Some(4)), Maintain::Poll);
    assert_eq!(map_maintain(true, Some(4)), Maintain::WaitForSubmissionIndex(4));
    assert_eq!(map_maintain(true, None), Maintain::Wait);
}

#[test]
fn depth_formats_are_recognised() {
    assert!(texture_format_has_depth(TextureFormat::Depth32Float));
    assert!(texture_format_has_depth(TextureFormat::Depth24PlusStencil8));
    assert!(!texture_format_has_depth(TextureFormat::Stencil8));
    assert!(!texture_format_has_depth(TextureFormat::Rgba8Unorm));
}

fn texture(view_formats: Vec<u32>) -> NativeTextureDescriptor {
    NativeTextureDescriptor {
        size: Extent3d { width: 64, height: 32, depth_or_array_layers: 1 },
        mip_level_count: 3,
        sample_count: 1,
        dimension: native::WGPUTextureDimension_2D,
        format: native::WGPUTextureFormat_RGBA8Unorm,
        usage: (wgpu_types::TextureUsages::TEXTURE_BINDING | wgpu_types::TextureUsages::COPY_DST).bits(),
        view_formats,
    }
}

#[test]
fn texture_descriptors_convert_in_order() {
    let mapped = map_texture_descriptor(&texture(vec![native::WGPUTextureFormat_RGBA8UnormSrgb])).unwrap();
    assert_eq!(mapped.size, Extent3d { width: 64, height: 32, depth_or_array_layers: 1 });
    assert_eq!(mapped.mip_level_count, 3);
    assert_eq!(mapped.dimension, TextureDimension::D2);
    assert_eq!(mapped.format, TextureFormat::Rgba8Unorm);
    assert_eq!(mapped.view_formats, vec![TextureFormat::Rgba8UnormSrgb]);

    let mut bad_dimension = texture(vec![]);
    bad_dimension.dimension = 9;
    bad_dimension.format = 0;
    assert_eq!(map_texture_descriptor(&bad_dimension).unwrap_err(), TextureDescriptorError::UnknownDimension(9));
    let mut bad_format = texture(vec![]);
    bad_format.format = 0;
    assert_eq!(map_texture_descriptor(&bad_format).unwrap_err(), TextureDescriptorError::InvalidFormat(0));
    let mut bad_usage = texture(vec![]);
    bad_usage.usage = 0x8000_0000;
    assert_eq!(map_texture_descriptor(&bad_usage).unwrap_err(), TextureDescriptorError::InvalidUsage(0x8000_0000));
    assert_eq!(
        map_texture_descriptor(&texture(vec![native::WGPUTextureFormat_R8Unorm, 0])).unwrap_err(),
        TextureDescriptorError::InvalidViewFormat(0),
    );
}

fn view() -> NativeTextureViewDescriptor {
    NativeTextureViewDescriptor {
        format: native::WGPUTextureFormat_Undefined,
        dimension: native::WGPUTextureViewDimension_Undefined,
        base_mip_level: 1,
        mip_level_count: native::WGPU_MIP_LEVEL_COUNT_UNDEFINED,
        base_array_layer: 0,
        array_layer_count: 2,
        aspect: native::WGPUTextureAspect_All,
    }
}

#[test]
fn texture_views_take_what_is_left_undefined_from_the_texture() {
    let mapped = map_texture_view_descriptor(&view()).unwrap();
    assert_eq!(mapped.format, None);
    assert_eq!(mapped.dimension, None);
    assert_eq!(mapped.aspect, TextureAspect::All);
    assert_eq!(mapped.base_mip_level, 1);
    assert_eq!(mapped.mip_level_count, None);
    assert_eq!(mapped.array_layer_count, Some(2));
    let explicit = map_texture_view_descriptor(&NativeTextureViewDescriptor {
        format: native::WGPUTextureFormat_R8Unorm,
        dimension: native::WGPUTextureViewDimension_Cube,
        mip_level_count: 4,
        ..view()
    })
    .unwrap();
    assert_eq!(explicit.format, Some(TextureFormat::R8Unorm));
    assert_eq!(explicit.dimension, Some(TextureViewDimension::Cube));
    assert_eq!(explicit.mip_level_count, Some(4));
}

#[test]
fn texture_views_refuse_zero_counts() {
    assert_eq!(
        map_texture_view_descriptor(&NativeTextureViewDescriptor { aspect: 9, mip_level_count: 0, ..view() }),
        Err(TextureViewDescriptorError::UnknownAspect(9)),
    );
    assert_eq!(
        map_texture_view_descriptor(&NativeTextureViewDescriptor { mip_level_count: 0, array_layer_count: 0, ..view() }),
        Err(TextureViewDescriptorError::ZeroMipLevelCount),
    );
    assert_eq!(
        map_texture_view_descriptor(&NativeTextureViewDescriptor { array_layer_count: 0, ..view() }),
        Err(TextureViewDescriptorError::ZeroArrayLayerCount),
    );
}

#[test]
fn releasing_a_texture_depends_on_its_surface() {
    assert_eq!(texture_release(false, false), TextureRelease::DropTexture);
    assert_eq!(texture_release(true, true), TextureRelease::KeepPresented);
    assert_eq!(texture_release(true, false), TextureRelease::DiscardSurfaceTexture);
}

#[test]
fn render_bundle_formats_skip_unnamed_slots() {
    let formats = map_render_bundle_formats(
        &vec![native::WGPUTextureFormat_BGRA8Unorm, native::WGPUTextureFormat_Undefined],
        native::WGPUTextureFormat_Depth32Float,
        1,
        0,
    );
    assert_eq!(formats.color_formats, vec![Some(TextureFormat::Bgra8Unorm), None]);
    let ds = formats.depth_stencil.unwrap();
    assert_eq!(ds.format, TextureFormat::Depth32Float);
    assert!(ds.depth_read_only);
    assert!(!ds.stencil_read_only);
    assert!(map_render_bundle_formats(&vec![], 0, 1, 1).depth_stencil.is_none());
}

#[test]
fn samplers_default_and_convert() {
    let default = map_sampler_descriptor(None).unwrap();
    assert_eq!(default.address_mode_u, AddressMode::ClampToEdge);
    assert_eq!(default.mag_filter, FilterMode::Nearest);
    assert_eq!(default.compare, None);
    assert_eq!(default.anisotropy_clamp, 1);
    let native_sampler = NativeSamplerDescriptor {
        address_mode_u: native::WGPUAddressMode_Repeat,
        address_mode_v: native::WGPUAddressMode_MirrorRepeat,
        address_mode_w: native::WGPUAddressMode_ClampToEdge,
        mag_filter: native::WGPUFilterMode_Linear,
        min_filter: native::WGPUFilterMode_Nearest,
        mipmap_filter: native::WGPUMipmapFilterMode_Linear,
        compare: native::WGPUCompareFunction_Greater,
        max_anisotropy: 16,
    };
    let mapped = map_sampler_descriptor(Some(&native_sampler)).unwrap();
    assert_eq!(mapped.address_mode_u, AddressMode::Repeat);
    assert_eq!(mapped.address_mode_v, AddressMode::MirrorRepeat);
    assert_eq!(mapped.mag_filter, FilterMode::Linear);
    assert_eq!(mapped.mipmap_filter, FilterMode::Linear);
    assert_eq!(mapped.compare, Some(CompareFunction::Greater));
    assert_eq!(mapped.anisotropy_clamp, 16);
    let uncompared = NativeSamplerDescriptor { compare: native::WGPUCompareFunction_Undefined, ..native_sampler };
    assert_eq!(map_sampler_descriptor(Some(&uncompared)).unwrap().compare, None);
    let bad = NativeSamplerDescriptor { address_mode_v: 12, ..native_sampler };
    assert_eq!(map_sampler_descriptor(Some(&bad)), Err(12));
}

#[test]
fn pass_channels_default_or_refuse() {
    let depth = map_depth_stencil_channel(native::WGPULoadOp_Undefined, native::WGPUStoreOp_Discard, 1);
    assert_eq!(depth.load_op, LoadOp::Load);
    assert_eq!(depth.store_op, StoreOp::Discard);
    assert!(depth.read_only);
    let color = map_color_channel(native::WGPULoadOp_Clear, native::WGPUStoreOp_Store);
    assert_eq!(color.load_op, LoadOp::Clear);
    assert_eq!(color.store_op, StoreOp::Store);
    assert!(!color.read_only);
    let attachments = vec![
        NativeColorAttachment {
            has_view: true,
            has_resolve_target: true,
            load_op: native::WGPULoadOp_Load,
            store_op: native::WGPUStoreOp_Discard,
        },
        // Without a view the slot is empty, whatever its operations.
        NativeColorAttachment { has_view: false, has_resolve_target: false, load_op: 0, store_op: 0 },
    ];
    let slots = map_color_attachments(&attachments);
    assert_eq!(slots.len(), 2);
    let first = slots[0].unwrap();
    assert!(first.has_resolve_target);
    assert_eq!(first.ops.load_op, LoadOp::Load);
    assert_eq!(first.ops.store_op, StoreOp::Discard);
    assert!(!first.ops.read_only);
    assert_eq!(slots[1], None);
}
