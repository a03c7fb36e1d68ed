use wgpu_native::conv::Extent3d;
use wgpu_native::features::{
    features_to_slice, has_feature, map_feature, map_requested_features, to_native_feature,
    Feature, Features,
};
use wgpu_native::format::TextureFormat;
use wgpu_native::native;
use wgpu_native::surface::{
    map_surface_status, native_present_modes, native_texture_formats, surface_error_of_status,
    surface_texture_data, to_native_present_mode, SurfaceError, SurfacePresentMode,
    SurfaceStatus,
};
use wgpu_native::utils::{string_view_read, StringViewRead};

#[test]
fn surface_failures_have_messages() {
    assert_eq!(surface_error_of_status(SurfaceStatus::Timeout), Some(SurfaceError::Timeout));
    assert_eq!(surface_error_of_status(SurfaceStatus::Good), None);
    assert_eq!(SurfaceError::Timeout.message(), "Surface timed out");
    assert_eq!(SurfaceError::Outdated.message(), "Surface is outdated");
    assert_eq!(SurfaceError::Lost.message(), "Surface was lost");
}

#[test]
fn surface_statuses_convert() {
    let good = map_surface_status(SurfaceStatus::Good).unwrap();
    assert_eq!(good.status, native::WGPUSurfaceGetCurrentTextureStatus_Success);
    assert!(!good.suboptimal);
    let suboptimal = map_surface_status(SurfaceStatus::Suboptimal).unwrap();
    assert_eq!(suboptimal.status, native::WGPUSurfaceGetCurrentTextureStatus_Success);
    assert!(suboptimal.suboptimal);
    assert_eq!(map_surface_status(SurfaceStatus::Lost).unwrap().status, native::WGPUSurfaceGetCurrentTextureStatus_Lost);
    let occluded = map_surface_status(SurfaceStatus::Occluded).unwrap();
    assert_eq!(occluded.status, native::WGPUSurfaceGetCurrentTextureStatus_Occluded);
    assert!(!occluded.suboptimal);
    assert_eq!(map_surface_status(SurfaceStatus::Validation), None);
}

#[test]
fn surface_capabilities_list_only_formats_with_numbers() {
    let formats = vec![TextureFormat::Bgra8UnormSrgb, TextureFormat::R16Unorm, TextureFormat::Rgba16Float];
    assert_eq!(
        native_texture_formats(&formats),
        vec![native::WGPUTextureFormat_BGRA8UnormSrgb, native::WGPUTextureFormat_RGBA16Float],
    );
    let modes = vec![SurfacePresentMode::AutoVsync, SurfacePresentMode::Fifo, SurfacePresentMode::Mailbox];
    assert_eq!(native_present_modes(&modes), vec![native::WGPUPresentMode_Fifo, native::WGPUPresentMode_Mailbox]);
    assert_eq!(to_native_present_mode(SurfacePresentMode::FifoRelaxed), None);
    assert_eq!(to_native_present_mode(SurfacePresentMode::Immediate), Some(native::WGPUPresentMode_Immediate));
}

#[test]
fn surface_textures_are_recorded_as_configured() {
    let data = surface_texture_data(0x10, native::WGPUTextureFormat_BGRA8Unorm, 800, 600);
    assert_eq!(data.usage, 0x10);
    assert_eq!(data.dimension, native::WGPUTextureDimension_2D);
    assert_eq!(data.size, Extent3d { width: 800, height: 600, depth_or_array_layers: 1 });
    assert_eq!(data.format, native::WGPUTextureFormat_BGRA8Unorm);
    assert_eq!(data.mip_level_count, 1);
    assert_eq!(data.sample_count, 1);
}

#[test]
fn features_are_listed_in_order_and_exactly() {
    let mut features = Features::empty();
    assert!(features_to_slice(&features).is_empty());
    features.immediates = true;
    features.depth_clip_control = true;
    features.texture_compression_bc = true;
    let listed = features_to_slice(&features);
    assert_eq!(
        listed,
        vec![
            native::WGPUFeatureName_DepthClipControl,
            native::WGPUFeatureName_TextureCompressionBC,
            native::WGPUNativeFeature_Immediates,
        ],
    );
    for code in &listed {
        assert!(has_feature(&features, *code));
    }
    assert!(!has_feature(&features, native::WGPUFeatureName_TimestampQuery));
    assert!(!has_feature(&features, 0x1234));
}

#[test]
fn features_convert_both_ways() {
    assert_eq!(map_feature(native::WGPUFeatureName_TimestampQuery), Some(Feature::TimestampQuery));
    assert_eq!(map_feature(native::WGPUFeatureName_Undefined), None);
    assert_eq!(map_feature(native::WGPUFeatureName_PrimitiveIndex), Some(Feature::PrimitiveIndex));
    assert_eq!(to_native_feature(Feature::PrimitiveIndex), native::WGPUFeatureName_PrimitiveIndex);
    assert_eq!(to_native_feature(Feature::TextureCompressionAstc), native::WGPUFeatureName_TextureCompressionASTC);
    for f in [Feature::DepthClipControl, Feature::Immediates, Feature::TextureAdapterSpecificFormatFeatures] {
        assert_eq!(map_feature(to_native_feature(f)), Some(f));
        assert!(Features { depth_clip_control: true, immediates: true, texture_adapter_specific_format_features: true, ..Features::empty() }.contains(f));
    }
}

#[test]
fn device_feature_flags_ask_for_native_features() {
    let none = map_requested_features(0);
    assert_eq!(none, Features::empty());
    let push = map_requested_features(native::WGPUNativeFeature_Immediates);
    assert!(push.immediates);
    assert!(!push.texture_compression_bc);
    // Both native feature numbers share their high bits, so each asks for both.
    assert!(push.texture_adapter_specific_format_features);
}

#[test]
fn string_views_are_read_by_pointer_and_length() {
    assert_eq!(string_view_read(true, native::WGPU_STRLEN), StringViewRead::Absent);
    assert_eq!(string_view_read(true, 0), StringViewRead::Empty);
    assert_eq!(string_view_read(false, native::WGPU_STRLEN), StringViewRead::NulTerminated);
    assert_eq!(string_view_read(false, 5), StringViewRead::Bytes(5));
}

#[test]
fn listed_features_are_distinct_and_read_back() {
    let features = Features {
        depth_clip_control: true,
        timestamp_query: true,
        primitive_index: true,
        immediates: true,
        texture_adapter_specific_format_features: true,
        ..Features::empty()
    };
    let listed = features_to_slice(&features);
    assert_eq!(listed.len(), 5);
    for (i, a) in listed.iter().enumerate() {
        for b in &listed[i + 1..] {
            assert_ne!(a, b);
        }
        let f = map_feature(*a).unwrap();
        assert!(features.contains(f));
    }
}
