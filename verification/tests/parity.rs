use wgpu_native::flags::{BUFFER_USAGES_ALL, COLOR_WRITES_ALL, SHADER_STAGES_ALL, TEXTURE_USAGES_ALL};
use wgpu_native::device::{
    map_bind_group_layout_entry, BindingType, NativeBindGroupLayoutEntry, NativeBufferBindingLayout,
    NativeSamplerBindingLayout, NativeStorageTextureBindingLayout, NativeTextureBindingLayout,
};
use wgpu_native::conv::buffer_usages_from_u64_bits;
use wgpu_native::device::{map_storage_texture_access, StorageTextureAccess};
use wgpu_native::format::{map_texture_format, to_native_texture_format, TextureFormat};
use wgpu_native::native;
use wgpu_native::surface::{map_presentation_timestamp, INVALID_TIMESTAMP};

fn zeroed_entry() -> NativeBindGroupLayoutEntry {
    NativeBindGroupLayoutEntry {
        binding: 0,
        visibility: 0,
        buffer: NativeBufferBindingLayout { type_: 0, has_dynamic_offset: false, min_binding_size: 0 },
        sampler: NativeSamplerBindingLayout { type_: 0 },
        texture: NativeTextureBindingLayout { sample_type: 0, view_dimension: 0, multisampled: false },
        storage_texture: NativeStorageTextureBindingLayout { access: 0, format: 0, view_dimension: 0 },
    }
}

#[test]
fn external_texture_layout_maps_without_an_ordinary_binding() {
    let mut entry = zeroed_entry();
    entry.binding = 7;
    entry.visibility = native::WGPUShaderStage_Fragment;
    let mapped = map_bind_group_layout_entry(&entry, true).unwrap();
    assert_eq!(mapped.binding, 7);
    assert_eq!(mapped.visibility, wgpu_types::ShaderStages::FRAGMENT.bits());
    assert_eq!(mapped.ty, BindingType::ExternalTexture);
    assert_eq!(mapped.count, None);
}

#[test]
fn unavailable_presentation_timestamp_is_a_sentinel() {
    assert_eq!(
        map_presentation_timestamp(wgpu_types::PresentationTimestamp::INVALID_TIMESTAMP.0).nanoseconds,
        u64::MAX,
    );
    assert_eq!(INVALID_TIMESTAMP, wgpu_types::PresentationTimestamp::INVALID_TIMESTAMP.0);
}

#[test]
fn presentation_timestamp_overflow_does_not_wrap() {
    assert_eq!(
        map_presentation_timestamp(wgpu_types::PresentationTimestamp(u64::MAX as u128 + 1).0).nanoseconds,
        u64::MAX,
    );
}

#[test]
fn valid_presentation_timestamps_preserve_nanoseconds() {
    for timestamp in [0, 1, 16_666_667, u64::MAX - 1] {
        assert_eq!(
            map_presentation_timestamp(wgpu_types::PresentationTimestamp(timestamp as u128).0).nanoseconds,
            timestamp,
        );
    }
}

#[test]
fn acceleration_structure_buffer_usages_match_public_wgpu_flags() {
    for (native_usage, expected) in [
        (native::WGPUBufferUsage_BlasInput, wgpu_types::BufferUsages::BLAS_INPUT),
        (native::WGPUBufferUsage_TlasInput, wgpu_types::BufferUsages::TLAS_INPUT),
    ] {
        assert_eq!(buffer_usages_from_u64_bits(native_usage), Some(expected.bits()));
    }
}

#[test]
fn atomic_texture_symbols_are_available_to_c_callers() {
    assert_eq!(
        map_storage_texture_access(native::WGPUStorageTextureAccess_Atomic),
        Some(StorageTextureAccess::Atomic),
    );
    let format = native::WGPUNativeTextureFormat_R64Uint;
    assert_eq!(map_texture_format(format), Some(TextureFormat::R64Uint));
    assert_eq!(to_native_texture_format(TextureFormat::R64Uint), Some(format));
}

#[test]
fn flag_tables_match_the_graphics_library() {
    assert_eq!(SHADER_STAGES_ALL, wgpu_types::ShaderStages::all().bits());
    assert_eq!(BUFFER_USAGES_ALL, wgpu_types::BufferUsages::all().bits());
    assert_eq!(TEXTURE_USAGES_ALL, wgpu_types::TextureUsages::all().bits());
    assert_eq!(COLOR_WRITES_ALL, wgpu_types::ColorWrites::all().bits());
}
