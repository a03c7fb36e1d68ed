//! The decisions behind the creation and use of buffers, textures, samplers and surfaces.
use vstd::prelude::*;
use vstd::pervasive::unreached;

use crate::conv::{
    map_address_mode, map_compare_function, map_filter_mode, map_load_op,
    map_mipmap_filter_mode, map_store_op, map_texture_aspect, map_texture_dimension,
    map_texture_view_dimension, address_mode_code, compare_function_code, filter_mode_code,
    load_op_code, mipmap_filter_mode_code, store_op_code, texture_aspect_code,
    texture_dimension_code, texture_view_dimension_code, AddressMode, CompareFunction, Extent3d,
    FilterMode, LoadOp, StoreOp, TextureAspect, TextureDimension, TextureViewDimension,
};
use crate::flags::{
    buffer_usages_from_bits, only_known_bits, texture_usages_from_bits, BUFFER_USAGES_ALL,
    TEXTURE_USAGES_ALL,
};
use crate::format::{map_texture_format, texture_format_code, TextureFormat};
use crate::native;

verus! {

// ---------------------------------------------------------------------------------------------
// Buffers
// ---------------------------------------------------------------------------------------------

/// A buffer to create: its size, the bits of its usages, and whether it starts mapped.
#[derive(Clone, Copy, Debug, PartialEq, Eq, Structural)]
pub struct BufferDescriptor {
    pub size: u64,
    pub usage: u32,
    pub mapped_at_creation: bool,
}

/// Converts the description of a buffer; usage bits that name no usage are handed back as the
/// error.
pub fn map_buffer_descriptor(size: u64, usage: u32, mapped_at_creation: u32) -> (r: Result<BufferDescriptor, u32>)
    ensures
        r == if only_known_bits(usage, BUFFER_USAGES_ALL) {
            Ok::<BufferDescriptor, u32>(BufferDescriptor { size, usage, mapped_at_creation: mapped_at_creation != 0 })
        } else {
            Err(usage)
        },
{
    match buffer_usages_from_bits(usage) {
        Some(usage) => Ok(BufferDescriptor { size, usage, mapped_at_creation: mapped_at_creation != 0 }),
        None => Err(usage),
    }
}

/// How a buffer is mapped for the host.
#[derive(Clone, Copy, Debug, PartialEq, Eq, Structural)]
pub enum HostMap {
    Read,
    Write,
}

/// Converts the C map mode, which must be exactly one of reading and writing.
pub fn map_host_map(mode: u32) -> (r: HostMap)
    requires
        mode == native::WGPUMapMode_Write || mode == native::WGPUMapMode_Read,
    ensures
        r == (if mode == native::WGPUMapMode_Write { HostMap::Write } else { HostMap::Read }),
{
    if mode == native::WGPUMapMode_Write {
        HostMap::Write
    } else {
        HostMap::Read
    }
}

/// How mapping a buffer ended.
#[derive(Clone, Copy, Debug, PartialEq, Eq, Structural)]
pub enum BufferAccessOutcome {
    Success,
    DeviceFailed,
    MapAlreadyPending,
    InvalidBuffer,
    DestroyedResource,
    OtherFailure,
}

/// The C status of how mapping a buffer ended: a device failure reads as a lost device, an
/// invalid or destroyed buffer as destroyed before the callback, and every other failure as a
/// validation error.
pub fn map_buffer_access_outcome(outcome: BufferAccessOutcome) -> (r: u32)
    ensures
        r == match outcome {
            BufferAccessOutcome::Success => native::WGPUBufferMapAsyncStatus_Success,
            BufferAccessOutcome::DeviceFailed => native::WGPUBufferMapAsyncStatus_DeviceLost,
            BufferAccessOutcome::MapAlreadyPending => native::WGPUBufferMapAsyncStatus_MappingAlreadyPending,
            BufferAccessOutcome::InvalidBuffer => native::WGPUBufferMapAsyncStatus_DestroyedBeforeCallback,
            BufferAccessOutcome::DestroyedResource => native::WGPUBufferMapAsyncStatus_DestroyedBeforeCallback,
            BufferAccessOutcome::OtherFailure => native::WGPUBufferMapAsyncStatus_ValidationError,
        },
{
    match outcome {
        BufferAccessOutcome::Success => native::WGPUBufferMapAsyncStatus_Success,
        BufferAccessOutcome::DeviceFailed => native::WGPUBufferMapAsyncStatus_DeviceLost,
        BufferAccessOutcome::MapAlreadyPending => native::WGPUBufferMapAsyncStatus_MappingAlreadyPending,
        BufferAccessOutcome::InvalidBuffer => native::WGPUBufferMapAsyncStatus_DestroyedBeforeCallback,
        BufferAccessOutcome::DestroyedResource => native::WGPUBufferMapAsyncStatus_DestroyedBeforeCallback,
        BufferAccessOutcome::OtherFailure => native::WGPUBufferMapAsyncStatus_ValidationError,
    }
}

/// The size of a mapped range: the whole rest of the buffer for the whole-map sentinel.
pub fn map_mapped_range_size(size: usize) -> (r: Option<u64>)
    ensures
        r == if size == native::WGPU_WHOLE_MAP_SIZE { None::<u64> } else { Some(size as u64) },
{
    if size == native::WGPU_WHOLE_MAP_SIZE {
        None
    } else {
        Some(size as u64)
    }
}

/// The size of a buffer range to clear or to bind as index or vertex data: the whole rest of
/// the buffer for the whole-size sentinel; a size of zero is refused (`Err`).
pub fn map_buffer_size(size: u64) -> (r: Result<Option<u64>, ()>)
    ensures
        r == if size == 0 {
            Err::<Option<u64>, ()>(())
        } else if size == native::WGPU_WHOLE_SIZE {
            Ok(None)
        } else {
            Ok(Some(size))
        },
{
    if size == 0 {
        Err(())
    } else if size == native::WGPU_WHOLE_SIZE {
        Ok(None)
    } else {
        Ok(Some(size))
    }
}

/// A query index, where the undefined sentinel means "none".
pub fn map_query_set_index(index: u32) -> (r: Option<u32>)
    ensures
        r == if index == native::WGPU_QUERY_SET_INDEX_UNDEFINED { None::<u32> } else { Some(index) },
{
    if index == native::WGPU_QUERY_SET_INDEX_UNDEFINED {
        None
    } else {
        Some(index)
    }
}

/// How long a poll of a device waits.
#[derive(Clone, Copy, Debug, PartialEq, Eq, Structural)]
pub enum Maintain {
    /// Wait for the submission with this index.
    WaitForSubmissionIndex(u64),
    /// Wait for all submitted work.
    Wait,
    /// Do not wait.
    Poll,
}

/// Chooses how long a poll waits: not at all unless asked to wait; then for the given
/// submission, or for all work where none is given.
pub fn map_maintain(wait: bool, submission_index: Option<u64>) -> (r: Maintain)
    ensures
        r == if !wait {
            Maintain::Poll
        } else {
            match submission_index {
                Some(i) => Maintain::WaitForSubmissionIndex(i),
                None => Maintain::Wait,
            }
        },
{
    if wait {
        match submission_index {
            Some(index) => Maintain::WaitForSubmissionIndex(index),
            None => Maintain::Wait,
        }
    } else {
        Maintain::Poll
    }
}

// ---------------------------------------------------------------------------------------------
// Textures and views
// ---------------------------------------------------------------------------------------------

/// Whether a texture format has a depth aspect.
pub open spec fn format_has_depth(format: TextureFormat) -> bool {
    ||| format == TextureFormat::Depth16Unorm
    ||| format == TextureFormat::Depth24Plus
    ||| format == TextureFormat::Depth24PlusStencil8
    ||| format == TextureFormat::Depth32Float
    ||| format == TextureFormat::Depth32FloatStencil8
}

/// Whether a texture format has a depth aspect.
pub fn texture_format_has_depth(format: TextureFormat) -> (r: bool)
    ensures
        r == format_has_depth(format),
{
    match format {
        TextureFormat::Depth16Unorm => true,
        TextureFormat::Depth24Plus => true,
        TextureFormat::Depth24PlusStencil8 => true,
        TextureFormat::Depth32Float => true,
        TextureFormat::Depth32FloatStencil8 => true,
        _ => false,
    }
}

/// A texture to create, as the C interface gives it.
#[derive(Clone, Debug)]
pub struct NativeTextureDescriptor {
    pub size: Extent3d,
    pub mip_level_count: u32,
    pub sample_count: u32,
    pub dimension: u32,
    pub format: u32,
    pub usage: u32,
    pub view_formats: Vec<u32>,
}

/// A texture to create; `usage` holds the bits of its usages.
#[derive(Clone, Debug)]
pub struct TextureDescriptor {
    pub size: Extent3d,
    pub mip_level_count: u32,
    pub sample_count: u32,
    pub dimension: TextureDimension,
    pub format: TextureFormat,
    pub usage: u32,
    pub view_formats: Vec<TextureFormat>,
}

/// Why a texture description cannot be converted.
#[derive(Clone, Copy, Debug, PartialEq, Eq, Structural)]
pub enum TextureDescriptorError {
    UnknownDimension(u32),
    InvalidFormat(u32),
    InvalidUsage(u32),
    InvalidViewFormat(u32),
}

/// Whether a number names a converted texture format.
pub open spec fn is_texture_format(v: u32) -> bool {
    exists|f: TextureFormat| texture_format_code(f) == Some(v)
}

/// Converts the description of a texture: its dimension, its format, its usages and each of its
/// view formats must name something, checked in that order.
pub fn map_texture_descriptor(native: &NativeTextureDescriptor) -> (r: Result<TextureDescriptor, TextureDescriptorError>)
    ensures
        match r {
            Ok(d) => {
                &&& d.size == native.size
                &&& d.mip_level_count == native.mip_level_count
                &&& d.sample_count == native.sample_count
                &&& texture_dimension_code(d.dimension) == native.dimension
                &&& texture_format_code(d.format) == Some(native.format)
                &&& d.usage == native.usage && only_known_bits(native.usage, TEXTURE_USAGES_ALL)
                &&& d.view_formats@.len() == native.view_formats@.len()
                &&& forall|i: int| 0 <= i < d.view_formats@.len()
                    ==> texture_format_code(#[trigger] d.view_formats@[i]) == Some(native.view_formats@[i])
            },
            Err(e) => if forall|x: TextureDimension| texture_dimension_code(x) != native.dimension {
                e == TextureDescriptorError::UnknownDimension(native.dimension)
            } else if !is_texture_format(native.format) {
                e == TextureDescriptorError::InvalidFormat(native.format)
            } else if !only_known_bits(native.usage, TEXTURE_USAGES_ALL) {
                e == TextureDescriptorError::InvalidUsage(native.usage)
            } else {
                exists|i: int| 0 <= i < native.view_formats@.len() && !is_texture_format(native.view_formats@[i])
                    && e == TextureDescriptorError::InvalidViewFormat(native.view_formats@[i])
                    && forall|j: int| 0 <= j < i ==> is_texture_format(#[trigger] native.view_formats@[j])
            },
        },
{
    let dimension = match map_texture_dimension(native.dimension) {
        Ok(d) => d,
        Err(v) => return Err(TextureDescriptorError::UnknownDimension(v)),
    };
    assert(texture_dimension_code(dimension) == native.dimension);
    let format = match map_texture_format(native.format) {
        Some(f) => f,
        None => return Err(TextureDescriptorError::InvalidFormat(native.format)),
    };
    assert(texture_format_code(format) == Some(native.format));
    let usage = match texture_usages_from_bits(native.usage) {
        Some(u) => u,
        None => return Err(TextureDescriptorError::InvalidUsage(native.usage)),
    };
    let mut view_formats: Vec<TextureFormat> = Vec::new();
    let mut i: usize = 0;
    while i < native.view_formats.len()
        invariant
            i <= native.view_formats@.len(),
            view_formats@.len() == i,
            forall|k: int| 0 <= k < i ==> texture_format_code(#[trigger] view_formats@[k]) == Some(native.view_formats@[k]),
            texture_dimension_code(dimension) == native.dimension,
            texture_format_code(format) == Some(native.format),
            usage == native.usage,
            only_known_bits(native.usage, TEXTURE_USAGES_ALL),
        decreases native.view_formats.len() - i,
    {
        match map_texture_format(native.view_formats[i]) {
            Some(f) => view_formats.push(f),
            None => {
                assert(!is_texture_format(native.view_formats@[i as int]));
                assert forall|j: int| 0 <= j < i implies is_texture_format(#[trigger] native.view_formats@[j]) by {
                    assert(texture_format_code(view_formats@[j]) == Some(native.view_formats@[j]));
                }
                return Err(TextureDescriptorError::InvalidViewFormat(native.view_formats[i]));
            },
        }
        i = i + 1;
    }
    Ok(TextureDescriptor {
        size: native.size,
        mip_level_count: native.mip_level_count,
        sample_count: native.sample_count,
        dimension,
        format,
        usage,
        view_formats,
    })
}

/// A view of a texture to create, as the C interface gives it.
#[derive(Clone, Copy, Debug, PartialEq, Eq, Structural)]
pub struct NativeTextureViewDescriptor {
    pub format: u32,
    pub dimension: u32,
    pub base_mip_level: u32,
    pub mip_level_count: u32,
    pub base_array_layer: u32,
    pub array_layer_count: u32,
    pub aspect: u32,
}

/// A view of a texture to create: a format or dimension that the caller leaves undefined is
/// taken from the texture, and so is a count given as "undefined".
#[derive(Clone, Copy, Debug, PartialEq, Eq, Structural)]
pub struct TextureViewDescriptor {
    pub format: Option<TextureFormat>,
    pub dimension: Option<TextureViewDimension>,
    pub aspect: TextureAspect,
    pub base_mip_level: u32,
    pub mip_level_count: Option<u32>,
    pub base_array_layer: u32,
    pub array_layer_count: Option<u32>,
}

/// Why a view description cannot be converted.
#[derive(Clone, Copy, Debug, PartialEq, Eq, Structural)]
pub enum TextureViewDescriptorError {
    UnknownAspect(u32),
    ZeroMipLevelCount,
    ZeroArrayLayerCount,
}

/// A count where zero is refused and the undefined sentinel stands for "the rest".
pub open spec fn view_count(v: u32) -> Option<u32> {
    if v == native::WGPU_MIP_LEVEL_COUNT_UNDEFINED { None } else { Some(v) }
}

/// Converts the description of a view: an aspect that names none, a zero mip level count and a
/// zero array layer count are refused, checked in that order.
pub fn map_texture_view_descriptor(native: &NativeTextureViewDescriptor) -> (r: Result<TextureViewDescriptor, TextureViewDescriptorError>)
    ensures
        match r {
            Ok(d) => {
                &&& d.format == crate::format::texture_format_of_code(native.format)
                &&& (forall|x: TextureViewDimension| (d.dimension == Some(x)) <==> texture_view_dimension_code(x) == native.dimension)
                &&& texture_aspect_code(d.aspect) == native.aspect
                &&& d.base_mip_level == native.base_mip_level
                &&& native.mip_level_count != 0 && d.mip_level_count == view_count(native.mip_level_count)
                &&& d.base_array_layer == native.base_array_layer
                &&& native.array_layer_count != 0 && d.array_layer_count == view_count(native.array_layer_count)
            },
            Err(e) => if forall|a: TextureAspect| texture_aspect_code(a) != native.aspect {
                e == TextureViewDescriptorError::UnknownAspect(native.aspect)
            } else if native.mip_level_count == 0 {
                e == TextureViewDescriptorError::ZeroMipLevelCount
            } else {
                e == TextureViewDescriptorError::ZeroArrayLayerCount && native.array_layer_count == 0
            },
        },
{
    let format = map_texture_format(native.format);
    let dimension = map_texture_view_dimension(native.dimension);
    let aspect = match map_texture_aspect(native.aspect) {
        Ok(a) => a,
        Err(v) => return Err(TextureViewDescriptorError::UnknownAspect(v)),
    };
    assert(texture_aspect_code(aspect) == native.aspect);
    let mip_level_count = match native.mip_level_count {
        0 => return Err(TextureViewDescriptorError::ZeroMipLevelCount),
        native::WGPU_MIP_LEVEL_COUNT_UNDEFINED => None,
        n => Some(n),
    };
    let array_layer_count = match native.array_layer_count {
        0 => return Err(TextureViewDescriptorError::ZeroArrayLayerCount),
        native::WGPU_ARRAY_LAYER_COUNT_UNDEFINED => None,
        n => Some(n),
    };
    Ok(TextureViewDescriptor {
        format,
        dimension,
        aspect,
        base_mip_level: native.base_mip_level,
        mip_level_count,
        base_array_layer: native.base_array_layer,
        array_layer_count,
    })
}

/// What releasing a texture does to it.
#[derive(Clone, Copy, Debug, PartialEq, Eq, Structural)]
pub enum TextureRelease {
    /// Hand an unpresented surface texture back to its surface.
    DiscardSurfaceTexture,
    /// Nothing: the surface texture was presented, and presenting took it back.
    KeepPresented,
    /// Drop an ordinary texture.
    DropTexture,
}

/// Decides what releasing a texture does: a surface texture is handed back to its surface
/// unless it was presented; any other texture is dropped.
pub fn texture_release(is_surface_texture: bool, has_surface_presented: bool) -> (r: TextureRelease)
    ensures
        r == if !is_surface_texture {
            TextureRelease::DropTexture
        } else if has_surface_presented {
            TextureRelease::KeepPresented
        } else {
            TextureRelease::DiscardSurfaceTexture
        },
{
    if !is_surface_texture {
        TextureRelease::DropTexture
    } else if has_surface_presented {
        TextureRelease::KeepPresented
    } else {
        TextureRelease::DiscardSurfaceTexture
    }
}

/// The depth-stencil part of the formats of a render bundle encoder.
#[derive(Clone, Copy, Debug, PartialEq, Eq, Structural)]
pub struct RenderBundleDepthStencil {
    pub format: TextureFormat,
    pub depth_read_only: bool,
    pub stencil_read_only: bool,
}

/// The formats that a render bundle encoder renders to: a color format that names none is an
/// unused slot, and without a depth-stencil format that names one there is no depth-stencil
/// part.
#[derive(Clone, Debug)]
pub struct RenderBundleFormats {
    pub color_formats: Vec<Option<TextureFormat>>,
    pub depth_stencil: Option<RenderBundleDepthStencil>,
}

/// Converts the formats of a render bundle encoder.
pub fn map_render_bundle_formats(
    color_formats: &Vec<u32>,
    depth_stencil_format: u32,
    depth_read_only: u32,
    stencil_read_only: u32,
) -> (r: RenderBundleFormats)
    ensures
        r.color_formats@.len() == color_formats@.len(),
        forall|i: int| 0 <= i < color_formats@.len()
            ==> #[trigger] r.color_formats@[i] == crate::format::texture_format_of_code(color_formats@[i]),
        r.depth_stencil == match crate::format::texture_format_of_code(depth_stencil_format) {
            Some(format) => Some(RenderBundleDepthStencil {
                format,
                depth_read_only: depth_read_only != 0,
                stencil_read_only: stencil_read_only != 0,
            }),
            None => None,
        },
{
    let mut out: Vec<Option<TextureFormat>> = Vec::new();
    let mut i: usize = 0;
    while i < color_formats.len()
        invariant
            i <= color_formats@.len(),
            out@.len() == i,
            forall|k: int| 0 <= k < i ==> #[trigger] out@[k] == crate::format::texture_format_of_code(color_formats@[k]),
        decreases color_formats.len() - i,
    {
        out.push(map_texture_format(color_formats[i]));
        i = i + 1;
    }
    let depth_stencil = match map_texture_format(depth_stencil_format) {
        Some(format) => Some(RenderBundleDepthStencil {
            format,
            depth_read_only: depth_read_only != 0,
            stencil_read_only: stencil_read_only != 0,
        }),
        None => None,
    };
    RenderBundleFormats { color_formats: out, depth_stencil }
}

// ---------------------------------------------------------------------------------------------
// Samplers
// ---------------------------------------------------------------------------------------------

/// A sampler to create, as the C interface gives it, without its floating-point level-of-detail
/// clamps.
#[derive(Clone, Copy, Debug, PartialEq, Eq, Structural)]
pub struct NativeSamplerDescriptor {
    pub address_mode_u: u32,
    pub address_mode_v: u32,
    pub address_mode_w: u32,
    pub mag_filter: u32,
    pub min_filter: u32,
    pub mipmap_filter: u32,
    pub compare: u32,
    pub max_anisotropy: u16,
}

/// A sampler to create, without its level-of-detail clamps; it never has a border color.
#[derive(Clone, Copy, Debug, PartialEq, Eq, Structural)]
pub struct SamplerDescriptor {
    pub address_mode_u: AddressMode,
    pub address_mode_v: AddressMode,
    pub address_mode_w: AddressMode,
    pub mag_filter: FilterMode,
    pub min_filter: FilterMode,
    pub mipmap_filter: FilterMode,
    pub compare: Option<CompareFunction>,
    pub anisotropy_clamp: u16,
}

/// The sampler of the standard's defaults: clamped addresses, nearest filtering, no comparison,
/// no anisotropy.
pub open spec fn default_sampler() -> SamplerDescriptor {
    SamplerDescriptor {
        address_mode_u: AddressMode::ClampToEdge,
        address_mode_v: AddressMode::ClampToEdge,
        address_mode_w: AddressMode::ClampToEdge,
        mag_filter: FilterMode::Nearest,
        min_filter: FilterMode::Nearest,
        mipmap_filter: FilterMode::Nearest,
        compare: None,
        anisotropy_clamp: 1,
    }
}

/// Whether a number names an address mode.
pub open spec fn is_address_mode(v: u32) -> bool {
    exists|a: AddressMode| address_mode_code(a) == v
}

/// Whether a number names a filter mode.
pub open spec fn is_filter_mode(v: u32) -> bool {
    exists|f: FilterMode| filter_mode_code(f) == v
}

/// Whether a number names a mipmap filter mode.
pub open spec fn is_mipmap_filter_mode(v: u32) -> bool {
    exists|f: FilterMode| mipmap_filter_mode_code(f) == v
}

/// The first address mode or filter of a C sampler description that names nothing, if any, in
/// the order u, v, w, magnification, minification, mipmaps.
pub open spec fn sampler_descriptor_error(n: NativeSamplerDescriptor) -> Option<u32> {
    if !is_address_mode(n.address_mode_u) {
        Some(n.address_mode_u)
    } else if !is_address_mode(n.address_mode_v) {
        Some(n.address_mode_v)
    } else if !is_address_mode(n.address_mode_w) {
        Some(n.address_mode_w)
    } else if !is_filter_mode(n.mag_filter) {
        Some(n.mag_filter)
    } else if !is_filter_mode(n.min_filter) {
        Some(n.min_filter)
    } else if !is_mipmap_filter_mode(n.mipmap_filter) {
        Some(n.mipmap_filter)
    } else {
        None
    }
}

/// Converts the description of a sampler, or gives the default sampler where there is none;
/// the first address mode or filter that names nothing is handed back as the error, and a
/// comparison that names none means no comparison.
pub fn map_sampler_descriptor(native: Option<&NativeSamplerDescriptor>) -> (r: Result<SamplerDescriptor, u32>)
    ensures
        match native {
            None => r == Ok::<SamplerDescriptor, u32>(default_sampler()),
            Some(n) => match r {
                Ok(d) => {
                    &&& sampler_descriptor_error(*n) is None
                    &&& address_mode_code(d.address_mode_u) == n.address_mode_u
                    &&& address_mode_code(d.address_mode_v) == n.address_mode_v
                    &&& address_mode_code(d.address_mode_w) == n.address_mode_w
                    &&& filter_mode_code(d.mag_filter) == n.mag_filter
                    &&& filter_mode_code(d.min_filter) == n.min_filter
                    &&& mipmap_filter_mode_code(d.mipmap_filter) == n.mipmap_filter
                    &&& (forall|c: CompareFunction| (d.compare == Some(c)) <==> compare_function_code(c) == n.compare)
                    &&& d.anisotropy_clamp == n.max_anisotropy
                },
                Err(v) => sampler_descriptor_error(*n) == Some(v),
            },
        },
{
    match native {
        None => Ok(SamplerDescriptor {
            address_mode_u: AddressMode::ClampToEdge,
        address_mode_v: AddressMode::ClampToEdge,
        address_mode_w: AddressMode::ClampToEdge,
            mag_filter: FilterMode::Nearest,
            min_filter: FilterMode::Nearest,
            mipmap_filter: FilterMode::Nearest,
            compare: None,
            anisotropy_clamp: 1,
        }),
        Some(n) => {
            let u = map_address_mode(n.address_mode_u)?;
            assert(address_mode_code(u) == n.address_mode_u);
            let v = map_address_mode(n.address_mode_v)?;
            assert(address_mode_code(v) == n.address_mode_v);
            let w = map_address_mode(n.address_mode_w)?;
            assert(address_mode_code(w) == n.address_mode_w);
            let mag_filter = map_filter_mode(n.mag_filter)?;
            assert(filter_mode_code(mag_filter) == n.mag_filter);
            let min_filter = map_filter_mode(n.min_filter)?;
            assert(filter_mode_code(min_filter) == n.min_filter);
            let mipmap_filter = map_mipmap_filter_mode(n.mipmap_filter)?;
            assert(mipmap_filter_mode_code(mipmap_filter) == n.mipmap_filter);
            assert(is_address_mode(n.address_mode_u) && is_address_mode(n.address_mode_v)
                && is_address_mode(n.address_mode_w) && is_filter_mode(n.mag_filter)
                && is_filter_mode(n.min_filter) && is_mipmap_filter_mode(n.mipmap_filter));
            let compare = match map_compare_function(n.compare) {
                Ok(c) => Some(c),
                Err(_) => None,
            };
            proof {
                if let Some(c) = compare {
                    assert(compare_function_code(c) == n.compare);
                }
            }
            Ok(SamplerDescriptor {
                address_mode_u: u,
                address_mode_v: v,
                address_mode_w: w,
                mag_filter,
                min_filter,
                mipmap_filter,
                compare,
                anisotropy_clamp: n.max_anisotropy,
            })
        },
    }
}

// ---------------------------------------------------------------------------------------------
// Render pass attachments
// ---------------------------------------------------------------------------------------------

/// What happens to one channel of an attachment at the start and end of a render pass.
#[derive(Clone, Copy, Debug, PartialEq, Eq, Structural)]
pub struct PassChannelOps {
    pub load_op: LoadOp,
    pub store_op: StoreOp,
    pub read_only: bool,
}

/// The operations on the depth or stencil channel of a depth-stencil attachment: an operation
/// that names none defaults to loading and storing.
pub fn map_depth_stencil_channel(load_op: u32, store_op: u32, read_only: u32) -> (r: PassChannelOps)
    ensures
        (exists|l: LoadOp| load_op_code(l) == load_op) ==> load_op_code(r.load_op) == load_op,
        (forall|l: LoadOp| load_op_code(l) != load_op) ==> r.load_op == LoadOp::Load,
        (exists|s: StoreOp| store_op_code(s) == store_op) ==> store_op_code(r.store_op) == store_op,
        (forall|s: StoreOp| store_op_code(s) != store_op) ==> r.store_op == StoreOp::Store,
        r.read_only == (read_only != 0),
{
    let load = match map_load_op(load_op) {
        Ok(l) => {
            assert(load_op_code(l) == load_op);
            l
        },
        Err(_) => LoadOp::Load,
    };
    let store = match map_store_op(store_op) {
        Ok(s) => {
            assert(store_op_code(s) == store_op);
            s
        },
        Err(_) => StoreOp::Store,
    };
    PassChannelOps { load_op: load, store_op: store, read_only: read_only != 0 }
}

/// Whether a number names a load operation.
pub open spec fn is_load_op(v: u32) -> bool {
    exists|l: LoadOp| load_op_code(l) == v
}

/// Whether a number names a store operation.
pub open spec fn is_store_op(v: u32) -> bool {
    exists|s: StoreOp| store_op_code(s) == v
}

/// The operations on a color attachment, both of which must name an operation; a color
/// attachment is never read-only.
pub fn map_color_channel(load_op: u32, store_op: u32) -> (r: PassChannelOps)
    requires
        is_load_op(load_op),
        is_store_op(store_op),
    ensures
        load_op_code(r.load_op) == load_op,
        store_op_code(r.store_op) == store_op,
        !r.read_only,
{
    let load = match map_load_op(load_op) {
        Ok(l) => l,
        Err(_) => unreached(),
    };
    let store = match map_store_op(store_op) {
        Ok(s) => s,
        Err(_) => unreached(),
    };
    PassChannelOps { load_op: load, store_op: store, read_only: false }
}

/// A color attachment of a render pass, as the C interface gives it: whether it has a view and
/// a resolve target, and its operations.
#[derive(Clone, Copy, Debug, PartialEq, Eq, Structural)]
pub struct NativeColorAttachment {
    pub has_view: bool,
    pub has_resolve_target: bool,
    pub load_op: u32,
    pub store_op: u32,
}

/// A color attachment of a render pass: whether it resolves, and the operations on its channel.
#[derive(Clone, Copy, Debug, PartialEq, Eq, Structural)]
pub struct ColorAttachment {
    pub has_resolve_target: bool,
    pub ops: PassChannelOps,
}

/// Whether a C color attachment with a view names both of its operations.
pub open spec fn color_attachment_valid(a: NativeColorAttachment) -> bool {
    a.has_view ==> is_load_op(a.load_op) && is_store_op(a.store_op)
}

/// Whether a converted color attachment slot is the one a C color attachment stands for: empty
/// exactly where it has no view.
pub open spec fn color_attachment_matches(r: Option<ColorAttachment>, a: NativeColorAttachment) -> bool {
    match r {
        None => !a.has_view,
        Some(c) => a.has_view && c.has_resolve_target == a.has_resolve_target
            && load_op_code(c.ops.load_op) == a.load_op && store_op_code(c.ops.store_op) == a.store_op
            && !c.ops.read_only,
    }
}

/// Converts the color attachments of a render pass, in order: slot `i` is empty exactly where
/// attachment `i` has no view; an attachment with a view must name both its operations.
pub fn map_color_attachments(attachments: &Vec<NativeColorAttachment>) -> (r: Vec<Option<ColorAttachment>>)
    requires
        forall|i: int| 0 <= i < attachments@.len() ==> color_attachment_valid(#[trigger] attachments@[i]),
    ensures
        r@.len() == attachments@.len(),
        forall|i: int| 0 <= i < attachments@.len() ==> color_attachment_matches(#[trigger] r@[i], attachments@[i]),
{
    let mut out: Vec<Option<ColorAttachment>> = Vec::new();
    let mut i: usize = 0;
    while i < attachments.len()
        invariant
            i <= attachments@.len(),
            forall|k: int| 0 <= k < attachments@.len() ==> color_attachment_valid(#[trigger] attachments@[k]),
            out@.len() == i,
            forall|k: int| 0 <= k < i ==> color_attachment_matches(#[trigger] out@[k], attachments@[k]),
        decreases attachments.len() - i,
    {
        let a = &attachments[i];
        assert(color_attachment_valid(attachments@[i as int]));
        if a.has_view {
            let ops = map_color_channel(a.load_op, a.store_op);
            out.push(Some(ColorAttachment { has_resolve_target: a.has_resolve_target, ops }));
        } else {
            out.push(None);
        }
        i = i + 1;
    }
    out
}

} // verus!
