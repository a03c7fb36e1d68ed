//! The decisions that the operations on instances, adapters and devices make about what the
//! caller of the C interface handed in.
use vstd::prelude::*;
use vstd::pervasive::unreached;

use crate::conv::{
    map_compare_function, map_index_format, map_primitive_topology, map_stencil_face_state,
    map_texture_view_dimension, map_vertex_format, compare_function_code, is_compare_function, is_vertex_format, stencil_face_error,
    stencil_face_matches, index_format_code,
    primitive_topology_code, texture_view_dimension_code, vertex_format_code, CompareFunction,
    IndexFormat, NativeStencilFaceState, PrimitiveTopology, StencilFaceState,
    TextureViewDimension, VertexFormat,
};
use crate::features::{map_requested_features, no_features, requested_features, Features};
use crate::format::{map_texture_format, texture_format_code, TextureFormat};
use crate::limits::{
    base_device_limits, get_base_device_limits_from_adapter_limits, map_required_limits,
    required_limits, spec_defaults, Limits, NativeLimits, NativeLimitsExtras,
};
use crate::flags::{only_known_bits, shader_stages_from_bits, SHADER_STAGES_ALL};
use crate::native;

verus! {

// ---------------------------------------------------------------------------------------------
// Instances and adapters
// ---------------------------------------------------------------------------------------------

/// The graphics backends that an adapter may be looked for on.
#[derive(Clone, Copy, Debug, PartialEq, Eq, Structural)]
pub struct Backends {
    pub noop: bool,
    pub vulkan: bool,
    pub metal: bool,
    pub dx12: bool,
    pub gl: bool,
    pub browser_webgpu: bool,
}

/// Every backend.
pub open spec fn all_backends() -> Backends {
    Backends { noop: true, vulkan: true, metal: true, dx12: true, gl: true, browser_webgpu: true }
}

/// No backend.
pub open spec fn no_backends() -> Backends {
    Backends { noop: false, vulkan: false, metal: false, dx12: false, gl: false, browser_webgpu: false }
}

/// Why an adapter cannot be looked for with the backend type the caller asked for.
#[derive(Clone, Copy, Debug, PartialEq, Eq, Structural)]
pub enum BackendRequestError {
    /// Direct3D 11 is named by the C interface but not offered: the request fails with an
    /// error status.
    UnsupportedD3D11,
}

/// The text of a refused backend request.
pub open spec fn backend_request_error_message(e: BackendRequestError) -> Seq<char> {
    match e {
        BackendRequestError::UnsupportedD3D11 => "unsupported backend type: d3d11"@,
    }
}

impl BackendRequestError {
    /// The C status with which the request is answered.
    pub fn status(&self) -> (r: u32)
        ensures
            r == native::WGPURequestAdapterStatus_Error,
    {
        native::WGPURequestAdapterStatus_Error
    }

    /// The text with which the request is answered.
    pub fn message(&self) -> (r: String)
        ensures
            r@ == backend_request_error_message(*self),
    {
        match self {
            BackendRequestError::UnsupportedD3D11 => String::from_str("unsupported backend type: d3d11"),
        }
    }
}

/// Whether a number names a backend type of the C interface.
pub open spec fn is_backend_type(v: u32) -> bool {
    ||| v == native::WGPUBackendType_Undefined
    ||| v == native::WGPUBackendType_Null
    ||| v == native::WGPUBackendType_WebGPU
    ||| v == native::WGPUBackendType_D3D11
    ||| v == native::WGPUBackendType_D3D12
    ||| v == native::WGPUBackendType_Metal
    ||| v == native::WGPUBackendType_Vulkan
    ||| v == native::WGPUBackendType_OpenGL
    ||| v == native::WGPUBackendType_OpenGLES
}

/// The backends that an adapter is looked for on, for a requested C backend type.
pub open spec fn requested_backends(backend_type: u32) -> Result<Backends, BackendRequestError> {
    if backend_type == native::WGPUBackendType_Undefined {
        Ok(all_backends())
    } else if backend_type == native::WGPUBackendType_Null {
        Ok(no_backends())
    } else if backend_type == native::WGPUBackendType_WebGPU {
        Ok(Backends { browser_webgpu: true, ..no_backends() })
    } else if backend_type == native::WGPUBackendType_D3D12 {
        Ok(Backends { dx12: true, ..no_backends() })
    } else if backend_type == native::WGPUBackendType_Metal {
        Ok(Backends { metal: true, ..no_backends() })
    } else if backend_type == native::WGPUBackendType_Vulkan {
        Ok(Backends { vulkan: true, ..no_backends() })
    } else if backend_type == native::WGPUBackendType_OpenGL
        || backend_type == native::WGPUBackendType_OpenGLES {
        Ok(Backends { gl: true, ..no_backends() })
    } else {
        Err(BackendRequestError::UnsupportedD3D11)
    }
}

impl Backends {
    /// Every backend.
    pub fn all() -> (r: Backends)
        ensures
            r == all_backends(),
    {
        Backends { noop: true, vulkan: true, metal: true, dx12: true, gl: true, browser_webgpu: true }
    }

    /// No backend.
    pub fn empty() -> (r: Backends)
        ensures
            r == no_backends(),
    {
        Backends { noop: false, vulkan: false, metal: false, dx12: false, gl: false, browser_webgpu: false }
    }
}

/// Finds the backends that an adapter is looked for on from the backend type the caller asked
/// for.
pub fn map_backend_type_request(backend_type: u32) -> (r: Result<Backends, BackendRequestError>)
    requires
        is_backend_type(backend_type),
    ensures
        r == requested_backends(backend_type),
{
    match backend_type {
        native::WGPUBackendType_Undefined => Ok(Backends::all()),
        native::WGPUBackendType_Null => Ok(Backends::empty()),
        native::WGPUBackendType_WebGPU => Ok(Backends { browser_webgpu: true, ..Backends::empty() }),
        native::WGPUBackendType_D3D12 => Ok(Backends { dx12: true, ..Backends::empty() }),
        native::WGPUBackendType_Metal => Ok(Backends { metal: true, ..Backends::empty() }),
        native::WGPUBackendType_Vulkan => Ok(Backends { vulkan: true, ..Backends::empty() }),
        native::WGPUBackendType_OpenGL => Ok(Backends { gl: true, ..Backends::empty() }),
        native::WGPUBackendType_OpenGLES => Ok(Backends { gl: true, ..Backends::empty() }),
        _ => Err(BackendRequestError::UnsupportedD3D11),
    }
}

/// An adapter request looks on exactly the backends that its C backend type names: an undefined
/// type looks on every backend, the null type on none, OpenGL and OpenGL ES both on the GL
/// backend, and each other type on its own backend alone. Direct3D 11, and every number that
/// names no backend type, is refused.
pub proof fn backend_requests_look_on_the_named_backends(backend_type: u32)
    ensures
        requested_backends(backend_type) is Ok <==> (
            backend_type == native::WGPUBackendType_Undefined || backend_type == native::WGPUBackendType_Null || backend_type == native::WGPUBackendType_WebGPU
                || backend_type == native::WGPUBackendType_D3D12 || backend_type == native::WGPUBackendType_Metal || backend_type == native::WGPUBackendType_Vulkan
                || backend_type == native::WGPUBackendType_OpenGL || backend_type == native::WGPUBackendType_OpenGLES),
        match requested_backends(backend_type) {
            Ok(b) => {
                &&& b.noop <==> backend_type == native::WGPUBackendType_Undefined
                &&& b.vulkan <==> (backend_type == native::WGPUBackendType_Vulkan || backend_type == native::WGPUBackendType_Undefined)
                &&& b.metal <==> (backend_type == native::WGPUBackendType_Metal || backend_type == native::WGPUBackendType_Undefined)
                &&& b.dx12 <==> (backend_type == native::WGPUBackendType_D3D12 || backend_type == native::WGPUBackendType_Undefined)
                &&& b.gl <==> (backend_type == native::WGPUBackendType_OpenGL || backend_type == native::WGPUBackendType_OpenGLES
                    || backend_type == native::WGPUBackendType_Undefined)
                &&& b.browser_webgpu <==> (backend_type == native::WGPUBackendType_WebGPU || backend_type == native::WGPUBackendType_Undefined)
            },
            Err(e) => e == BackendRequestError::UnsupportedD3D11,
        },
{
}

/// The preference between low power use and high performance when an adapter is chosen.
#[derive(Clone, Copy, Debug, PartialEq, Eq, Structural)]
pub enum PowerPreference {
    NoPreference,
    LowPower,
    HighPerformance,
}

/// Converts the C power preference: the two preferences it names, and no preference for any
/// other number.
pub fn map_power_preference(value: u32) -> (r: PowerPreference)
    ensures
        r == if value == native::WGPUPowerPreference_LowPower {
            PowerPreference::LowPower
        } else if value == native::WGPUPowerPreference_HighPerformance {
            PowerPreference::HighPerformance
        } else {
            PowerPreference::NoPreference
        },
{
    match value {
        native::WGPUPowerPreference_LowPower => PowerPreference::LowPower,
        native::WGPUPowerPreference_HighPerformance => PowerPreference::HighPerformance,
        _ => PowerPreference::NoPreference,
    }
}

/// The options of an adapter request as the C interface gives them, without the surface handle.
#[derive(Clone, Copy, Debug, PartialEq, Eq, Structural)]
pub struct NativeRequestAdapterOptions {
    pub power_preference: u32,
    pub force_fallback_adapter: u32,
    pub backend_type: u32,
}

/// The options of an adapter request.
#[derive(Clone, Copy, Debug, PartialEq, Eq, Structural)]
pub struct RequestAdapterOptions {
    pub power_preference: PowerPreference,
    pub force_fallback_adapter: bool,
    pub backends: Backends,
}

/// Converts the options of an adapter request; without options, no preference, no fallback
/// adapter, and every backend.
pub fn map_request_adapter_options(options: Option<&NativeRequestAdapterOptions>) -> (r: Result<RequestAdapterOptions, BackendRequestError>)
    requires
        options matches Some(o) ==> is_backend_type(o.backend_type),
    ensures
        match options {
            None => r == Ok::<RequestAdapterOptions, BackendRequestError>(RequestAdapterOptions {
                power_preference: PowerPreference::NoPreference,
                force_fallback_adapter: false,
                backends: all_backends(),
            }),
            Some(o) => match requested_backends(o.backend_type) {
                Err(e) => r == Err::<RequestAdapterOptions, BackendRequestError>(e),
                Ok(b) => r matches Ok(opts) && opts.backends == b
                    && opts.force_fallback_adapter == (o.force_fallback_adapter != 0)
                    && opts.power_preference == (if o.power_preference == native::WGPUPowerPreference_LowPower {
                        PowerPreference::LowPower
                    } else if o.power_preference == native::WGPUPowerPreference_HighPerformance {
                        PowerPreference::HighPerformance
                    } else {
                        PowerPreference::NoPreference
                    }),
            },
        },
{
    match options {
        None => Ok(RequestAdapterOptions {
            power_preference: PowerPreference::NoPreference,
            force_fallback_adapter: false,
            backends: Backends::all(),
        }),
        Some(options) => {
            let backends = map_backend_type_request(options.backend_type)?;
            Ok(RequestAdapterOptions {
                power_preference: map_power_preference(options.power_preference),
                force_fallback_adapter: options.force_fallback_adapter != 0,
                backends,
            })
        },
    }
}

/// Why no adapter was found.
#[derive(Clone, Copy, Debug, PartialEq, Eq, Structural)]
pub enum RequestAdapterFailure {
    NotFound,
    InvalidSurface,
    Other,
}

/// The C status of a failed adapter request: unavailable where no adapter matched, an error for
/// an invalid surface, unknown otherwise.
pub fn map_request_adapter_failure(failure: RequestAdapterFailure) -> (r: u32)
    ensures
        r == match failure {
            RequestAdapterFailure::NotFound => native::WGPURequestAdapterStatus_Unavailable,
            RequestAdapterFailure::InvalidSurface => native::WGPURequestAdapterStatus_Error,
            RequestAdapterFailure::Other => native::WGPURequestAdapterStatus_Unknown,
        },
{
    match failure {
        RequestAdapterFailure::NotFound => native::WGPURequestAdapterStatus_Unavailable,
        RequestAdapterFailure::InvalidSurface => native::WGPURequestAdapterStatus_Error,
        RequestAdapterFailure::Other => native::WGPURequestAdapterStatus_Unknown,
    }
}

/// The kind of device behind an adapter.
#[derive(Clone, Copy, Debug, PartialEq, Eq, Structural)]
pub enum DeviceType {
    Other,
    IntegratedGpu,
    DiscreteGpu,
    VirtualGpu,
    Cpu,
}

/// The C adapter type of a kind of device: a virtual GPU counts as a CPU.
pub fn map_adapter_type(device_type: DeviceType) -> (r: u32)
    ensures
        r == match device_type {
            DeviceType::Other => native::WGPUAdapterType_Unknown,
            DeviceType::IntegratedGpu => native::WGPUAdapterType_IntegratedGPU,
            DeviceType::DiscreteGpu => native::WGPUAdapterType_DiscreteGPU,
            DeviceType::VirtualGpu => native::WGPUAdapterType_CPU,
            DeviceType::Cpu => native::WGPUAdapterType_CPU,
        },
{
    match device_type {
        DeviceType::Other => native::WGPUAdapterType_Unknown,
        DeviceType::IntegratedGpu => native::WGPUAdapterType_IntegratedGPU,
        DeviceType::DiscreteGpu => native::WGPUAdapterType_DiscreteGPU,
        DeviceType::VirtualGpu => native::WGPUAdapterType_CPU,
        DeviceType::Cpu => native::WGPUAdapterType_CPU,
    }
}

/// The backend that an adapter runs on.
#[derive(Clone, Copy, Debug, PartialEq, Eq, Structural)]
pub enum Backend {
    Noop,
    Vulkan,
    Metal,
    Dx12,
    Gl,
    BrowserWebGpu,
}

/// The C backend type of a backend: the browser's WebGPU is reported as OpenGL ES.
pub fn map_backend_type(backend: Backend) -> (r: u32)
    ensures
        r == match backend {
            Backend::Noop => native::WGPUBackendType_Null,
            Backend::Vulkan => native::WGPUBackendType_Vulkan,
            Backend::Metal => native::WGPUBackendType_Metal,
            Backend::Dx12 => native::WGPUBackendType_D3D12,
            Backend::Gl => native::WGPUBackendType_OpenGL,
            Backend::BrowserWebGpu => native::WGPUBackendType_OpenGLES,
        },
{
    match backend {
        Backend::Noop => native::WGPUBackendType_Null,
        Backend::Vulkan => native::WGPUBackendType_Vulkan,
        Backend::Metal => native::WGPUBackendType_Metal,
        Backend::Dx12 => native::WGPUBackendType_D3D12,
        Backend::Gl => native::WGPUBackendType_OpenGL,
        Backend::BrowserWebGpu => native::WGPUBackendType_OpenGLES,
    }
}

// ---------------------------------------------------------------------------------------------
// Bind group layouts
// ---------------------------------------------------------------------------------------------

/// How a buffer binding is laid out, as the C interface gives it.
#[derive(Clone, Copy, Debug, PartialEq, Eq, Structural)]
pub struct NativeBufferBindingLayout {
    pub type_: u32,
    pub has_dynamic_offset: bool,
    pub min_binding_size: u64,
}

/// How a sampler binding is laid out, as the C interface gives it.
#[derive(Clone, Copy, Debug, PartialEq, Eq, Structural)]
pub struct NativeSamplerBindingLayout {
    pub type_: u32,
}

/// How a sampled texture binding is laid out, as the C interface gives it.
#[derive(Clone, Copy, Debug, PartialEq, Eq, Structural)]
pub struct NativeTextureBindingLayout {
    pub sample_type: u32,
    pub view_dimension: u32,
    pub multisampled: bool,
}

/// How a storage texture binding is laid out, as the C interface gives it.
#[derive(Clone, Copy, Debug, PartialEq, Eq, Structural)]
pub struct NativeStorageTextureBindingLayout {
    pub access: u32,
    pub format: u32,
    pub view_dimension: u32,
}

/// One entry of a bind group layout, as the C interface gives it: of the four layouts, those
/// that the caller does not use are left with their undefined type.
#[derive(Clone, Copy, Debug, PartialEq, Eq, Structural)]
pub struct NativeBindGroupLayoutEntry {
    pub binding: u32,
    pub visibility: u32,
    pub buffer: NativeBufferBindingLayout,
    pub sampler: NativeSamplerBindingLayout,
    pub texture: NativeTextureBindingLayout,
    pub storage_texture: NativeStorageTextureBindingLayout,
}

/// What a sampled texture holds.
#[derive(Clone, Copy, Debug, PartialEq, Eq, Structural)]
pub enum TextureSampleType {
    Float { filterable: bool },
    Depth,
    Sint,
    Uint,
}

/// How a sampler is used.
#[derive(Clone, Copy, Debug, PartialEq, Eq, Structural)]
pub enum SamplerBindingType {
    Filtering,
    NonFiltering,
    Comparison,
}

/// How a storage texture is accessed.
#[derive(Clone, Copy, Debug, PartialEq, Eq, Structural)]
pub enum StorageTextureAccess {
    WriteOnly,
    Atomic,
}

/// How a buffer is bound.
#[derive(Clone, Copy, Debug, PartialEq, Eq, Structural)]
pub enum BufferBindingType {
    Uniform,
    Storage { read_only: bool },
}

/// What a binding of a bind group is.
#[derive(Clone, Copy, Debug, PartialEq, Eq, Structural)]
pub enum BindingType {
    Buffer { ty: BufferBindingType, has_dynamic_offset: bool, min_binding_size: Option<u64> },
    Sampler(SamplerBindingType),
    Texture { sample_type: TextureSampleType, view_dimension: TextureViewDimension, multisampled: bool },
    StorageTexture { access: StorageTextureAccess, format: TextureFormat, view_dimension: TextureViewDimension },
    ExternalTexture,
}

/// One entry of a bind group layout. `visibility` holds the bits of the shader stages.
#[derive(Clone, Copy, Debug, PartialEq, Eq, Structural)]
pub struct BindGroupLayoutEntry {
    pub binding: u32,
    pub visibility: u32,
    pub ty: BindingType,
    pub count: Option<u32>,
}

/// Why an entry of a bind group layout cannot be converted.
#[derive(Clone, Copy, Debug, PartialEq, Eq, Structural)]
pub enum BindGroupLayoutEntryError {
    UnknownSampleType(u32),
    UnknownViewDimension(u32),
    UnknownSamplerType(u32),
    UnknownStorageTextureAccess(u32),
    StorageTextureFormatMissing(u32),
    UnknownBufferType(u32),
    WholeSizeMinBindingSize,
    NoEntryType,
    InvalidVisibility(u32),
}

/// The sample type that a C number names.
pub open spec fn sample_type_of(v: u32) -> Option<TextureSampleType> {
    if v == native::WGPUTextureSampleType_Float {
        Some(TextureSampleType::Float { filterable: true })
    } else if v == native::WGPUTextureSampleType_UnfilterableFloat {
        Some(TextureSampleType::Float { filterable: false })
    } else if v == native::WGPUTextureSampleType_Depth {
        Some(TextureSampleType::Depth)
    } else if v == native::WGPUTextureSampleType_Sint {
        Some(TextureSampleType::Sint)
    } else if v == native::WGPUTextureSampleType_Uint {
        Some(TextureSampleType::Uint)
    } else {
        None
    }
}

/// The sampler binding type that a C number names.
pub open spec fn sampler_type_of(v: u32) -> Option<SamplerBindingType> {
    if v == native::WGPUSamplerBindingType_Filtering {
        Some(SamplerBindingType::Filtering)
    } else if v == native::WGPUSamplerBindingType_NonFiltering {
        Some(SamplerBindingType::NonFiltering)
    } else if v == native::WGPUSamplerBindingType_Comparison {
        Some(SamplerBindingType::Comparison)
    } else {
        None
    }
}

/// The storage texture access that a C number names.
pub open spec fn storage_access_of(v: u32) -> Option<StorageTextureAccess> {
    if v == native::WGPUStorageTextureAccess_WriteOnly {
        Some(StorageTextureAccess::WriteOnly)
    } else if v == native::WGPUStorageTextureAccess_Atomic {
        Some(StorageTextureAccess::Atomic)
    } else {
        None
    }
}

/// Converts the C number of a storage texture access; `None` for a number that names none.
pub fn map_storage_texture_access(v: u32) -> (r: Option<StorageTextureAccess>)
    ensures
        r == storage_access_of(v),
{
    match v {
        native::WGPUStorageTextureAccess_WriteOnly => Some(StorageTextureAccess::WriteOnly),
        native::WGPUStorageTextureAccess_Atomic => Some(StorageTextureAccess::Atomic),
        _ => None,
    }
}

/// The buffer binding type that a C number names.
pub open spec fn buffer_type_of(v: u32) -> Option<BufferBindingType> {
    if v == native::WGPUBufferBindingType_Uniform {
        Some(BufferBindingType::Uniform)
    } else if v == native::WGPUBufferBindingType_Storage {
        Some(BufferBindingType::Storage { read_only: false })
    } else if v == native::WGPUBufferBindingType_ReadOnlyStorage {
        Some(BufferBindingType::Storage { read_only: true })
    } else {
        None
    }
}

/// The view dimension that a C number names.
pub open spec fn view_dimension_of(v: u32) -> Option<TextureViewDimension> {
    if exists|d: TextureViewDimension| texture_view_dimension_code(d) == v {
        Some(choose|d: TextureViewDimension| texture_view_dimension_code(d) == v)
    } else {
        None
    }
}

/// What an entry's binding is: the first of a sampled texture, a sampler, a storage texture and
/// a buffer whose type the caller gave, else an external texture where the caller chained one.
pub open spec fn binding_type_of(entry: NativeBindGroupLayoutEntry, external_texture: bool) -> Result<BindingType, BindGroupLayoutEntryError> {
    if entry.texture.sample_type != native::WGPUTextureSampleType_Undefined {
        match sample_type_of(entry.texture.sample_type) {
            None => Err(BindGroupLayoutEntryError::UnknownSampleType(entry.texture.sample_type)),
            Some(sample_type) => match view_dimension_of(entry.texture.view_dimension) {
                None => Err(BindGroupLayoutEntryError::UnknownViewDimension(entry.texture.view_dimension)),
                Some(view_dimension) => Ok(BindingType::Texture {
                    sample_type,
                    view_dimension,
                    multisampled: entry.texture.multisampled,
                }),
            },
        }
    } else if entry.sampler.type_ != native::WGPUSamplerBindingType_Undefined {
        match sampler_type_of(entry.sampler.type_) {
            None => Err(BindGroupLayoutEntryError::UnknownSamplerType(entry.sampler.type_)),
            Some(t) => Ok(BindingType::Sampler(t)),
        }
    } else if entry.storage_texture.access != native::WGPUStorageTextureAccess_Undefined {
        match storage_access_of(entry.storage_texture.access) {
            None => Err(BindGroupLayoutEntryError::UnknownStorageTextureAccess(entry.storage_texture.access)),
            Some(access) => match texture_format_of(entry.storage_texture.format) {
                None => Err(BindGroupLayoutEntryError::StorageTextureFormatMissing(entry.storage_texture.format)),
                Some(format) => match view_dimension_of(entry.storage_texture.view_dimension) {
                    None => Err(BindGroupLayoutEntryError::UnknownViewDimension(entry.storage_texture.view_dimension)),
                    Some(view_dimension) => Ok(BindingType::StorageTexture { access, format, view_dimension }),
                },
            },
        }
    } else if entry.buffer.type_ != native::WGPUBufferBindingType_Undefined {
        match buffer_type_of(entry.buffer.type_) {
            None => Err(BindGroupLayoutEntryError::UnknownBufferType(entry.buffer.type_)),
            Some(ty) => if entry.buffer.min_binding_size == native::WGPU_WHOLE_SIZE {
                Err(BindGroupLayoutEntryError::WholeSizeMinBindingSize)
            } else {
                Ok(BindingType::Buffer {
                    ty,
                    has_dynamic_offset: entry.buffer.has_dynamic_offset,
                    min_binding_size: if entry.buffer.min_binding_size == 0 {
                        None
                    } else {
                        Some(entry.buffer.min_binding_size)
                    },
                })
            },
        }
    } else if external_texture {
        Ok(BindingType::ExternalTexture)
    } else {
        Err(BindGroupLayoutEntryError::NoEntryType)
    }
}

/// The texture format that a C number names.
pub open spec fn texture_format_of(v: u32) -> Option<TextureFormat> {
    crate::format::texture_format_of_code(v)
}

/// The converted entry: its binding type, then its visibility, which must name only shader
/// stages; the entry never counts an array of bindings.
#[verifier::opaque]
pub open spec fn bind_group_layout_entry_of(entry: NativeBindGroupLayoutEntry, external_texture: bool) -> Result<BindGroupLayoutEntry, BindGroupLayoutEntryError> {
    match binding_type_of(entry, external_texture) {
        Err(e) => Err(e),
        Ok(ty) => if only_known_bits(entry.visibility, SHADER_STAGES_ALL) {
            Ok(BindGroupLayoutEntry { binding: entry.binding, visibility: entry.visibility, ty, count: None })
        } else {
            Err(BindGroupLayoutEntryError::InvalidVisibility(entry.visibility))
        },
    }
}

fn map_sample_type(v: u32) -> (r: Option<TextureSampleType>)
    ensures
        r == sample_type_of(v),
{
    match v {
        native::WGPUTextureSampleType_Float => Some(TextureSampleType::Float { filterable: true }),
        native::WGPUTextureSampleType_UnfilterableFloat => Some(TextureSampleType::Float { filterable: false }),
        native::WGPUTextureSampleType_Depth => Some(TextureSampleType::Depth),
        native::WGPUTextureSampleType_Sint => Some(TextureSampleType::Sint),
        native::WGPUTextureSampleType_Uint => Some(TextureSampleType::Uint),
        _ => None,
    }
}

fn map_sampler_type(v: u32) -> (r: Option<SamplerBindingType>)
    ensures
        r == sampler_type_of(v),
{
    match v {
        native::WGPUSamplerBindingType_Filtering => Some(SamplerBindingType::Filtering),
        native::WGPUSamplerBindingType_NonFiltering => Some(SamplerBindingType::NonFiltering),
        native::WGPUSamplerBindingType_Comparison => Some(SamplerBindingType::Comparison),
        _ => None,
    }
}

fn map_buffer_type(v: u32) -> (r: Option<BufferBindingType>)
    ensures
        r == buffer_type_of(v),
{
    match v {
        native::WGPUBufferBindingType_Uniform => Some(BufferBindingType::Uniform),
        native::WGPUBufferBindingType_Storage => Some(BufferBindingType::Storage { read_only: false }),
        native::WGPUBufferBindingType_ReadOnlyStorage => Some(BufferBindingType::Storage { read_only: true }),
        _ => None,
    }
}

fn map_view_dimension(v: u32) -> (r: Option<TextureViewDimension>)
    ensures
        r == view_dimension_of(v),
{
    let r = map_texture_view_dimension(v);
    proof {
        if let Some(d) = r {
            assert(texture_view_dimension_code(d) == v);
            assert(forall|e: TextureViewDimension| texture_view_dimension_code(e) == v ==> Some(e) == r);
        }
    }
    r
}

fn map_binding_type(entry: &NativeBindGroupLayoutEntry, external_texture: bool) -> (r: Result<BindingType, BindGroupLayoutEntryError>)
    ensures
        r == binding_type_of(*entry, external_texture),
{
    if entry.texture.sample_type != native::WGPUTextureSampleType_Undefined {
        let sample_type = match map_sample_type(entry.texture.sample_type) {
            Some(t) => t,
            None => return Err(BindGroupLayoutEntryError::UnknownSampleType(entry.texture.sample_type)),
        };
        let view_dimension = match map_view_dimension(entry.texture.view_dimension) {
            Some(d) => d,
            None => return Err(BindGroupLayoutEntryError::UnknownViewDimension(entry.texture.view_dimension)),
        };
        Ok(BindingType::Texture { sample_type, view_dimension, multisampled: entry.texture.multisampled })
    } else if entry.sampler.type_ != native::WGPUSamplerBindingType_Undefined {
        match map_sampler_type(entry.sampler.type_) {
            Some(t) => Ok(BindingType::Sampler(t)),
            None => Err(BindGroupLayoutEntryError::UnknownSamplerType(entry.sampler.type_)),
        }
    } else if entry.storage_texture.access != native::WGPUStorageTextureAccess_Undefined {
        let access = match map_storage_texture_access(entry.storage_texture.access) {
            Some(a) => a,
            None => return Err(BindGroupLayoutEntryError::UnknownStorageTextureAccess(entry.storage_texture.access)),
        };
        let format = match map_texture_format(entry.storage_texture.format) {
            Some(f) => f,
            None => return Err(BindGroupLayoutEntryError::StorageTextureFormatMissing(entry.storage_texture.format)),
        };
        let view_dimension = match map_view_dimension(entry.storage_texture.view_dimension) {
            Some(d) => d,
            None => return Err(BindGroupLayoutEntryError::UnknownViewDimension(entry.storage_texture.view_dimension)),
        };
        Ok(BindingType::StorageTexture { access, format, view_dimension })
    } else if entry.buffer.type_ != native::WGPUBufferBindingType_Undefined {
        let ty = match map_buffer_type(entry.buffer.type_) {
            Some(t) => t,
            None => return Err(BindGroupLayoutEntryError::UnknownBufferType(entry.buffer.type_)),
        };
        if entry.buffer.min_binding_size == native::WGPU_WHOLE_SIZE {
            return Err(BindGroupLayoutEntryError::WholeSizeMinBindingSize);
        }
        let min_binding_size = if entry.buffer.min_binding_size == 0 {
            None
        } else {
            Some(entry.buffer.min_binding_size)
        };
        Ok(BindingType::Buffer { ty, has_dynamic_offset: entry.buffer.has_dynamic_offset, min_binding_size })
    } else if external_texture {
        Ok(BindingType::ExternalTexture)
    } else {
        Err(BindGroupLayoutEntryError::NoEntryType)
    }
}

/// Converts one entry of a bind group layout. `external_texture` tells whether the caller
/// chained an external texture layout to the entry.
pub fn map_bind_group_layout_entry(entry: &NativeBindGroupLayoutEntry, external_texture: bool) -> (r: Result<BindGroupLayoutEntry, BindGroupLayoutEntryError>)
    ensures
        r == bind_group_layout_entry_of(*entry, external_texture),
{
    proof {
        reveal(bind_group_layout_entry_of);
    }
    let ty = map_binding_type(entry, external_texture)?;
    match shader_stages_from_bits(entry.visibility) {
        Some(visibility) => Ok(BindGroupLayoutEntry { binding: entry.binding, visibility, ty, count: None }),
        None => Err(BindGroupLayoutEntryError::InvalidVisibility(entry.visibility)),
    }
}

/// Each C sample type number names the sample type of the same name, a float that can be
/// filtered for `Float` and one that cannot for `UnfilterableFloat`; every other number, the
/// undefined one among them, names none.
pub proof fn sample_types_are_named_by_their_header_constants(v: u32)
    ensures
        sample_type_of(v) == Some(TextureSampleType::Float { filterable: true }) <==> v == native::WGPUTextureSampleType_Float,
        sample_type_of(v) == Some(TextureSampleType::Float { filterable: false }) <==> v == native::WGPUTextureSampleType_UnfilterableFloat,
        sample_type_of(v) == Some(TextureSampleType::Depth) <==> v == native::WGPUTextureSampleType_Depth,
        sample_type_of(v) == Some(TextureSampleType::Sint) <==> v == native::WGPUTextureSampleType_Sint,
        sample_type_of(v) == Some(TextureSampleType::Uint) <==> v == native::WGPUTextureSampleType_Uint,
        sample_type_of(v) is None <==> !(v == native::WGPUTextureSampleType_Float || v == native::WGPUTextureSampleType_UnfilterableFloat || v == native::WGPUTextureSampleType_Depth
            || v == native::WGPUTextureSampleType_Sint || v == native::WGPUTextureSampleType_Uint),
{
}

/// Each C sampler binding type number names the sampler binding type of the same name; every
/// other number, the undefined one among them, names none.
pub proof fn sampler_types_are_named_by_their_header_constants(v: u32)
    ensures
        sampler_type_of(v) == Some(SamplerBindingType::Filtering) <==> v == native::WGPUSamplerBindingType_Filtering,
        sampler_type_of(v) == Some(SamplerBindingType::NonFiltering) <==> v == native::WGPUSamplerBindingType_NonFiltering,
        sampler_type_of(v) == Some(SamplerBindingType::Comparison) <==> v == native::WGPUSamplerBindingType_Comparison,
        sampler_type_of(v) is None <==> !(v == native::WGPUSamplerBindingType_Filtering
            || v == native::WGPUSamplerBindingType_NonFiltering || v == native::WGPUSamplerBindingType_Comparison),
{
}

/// Each C storage texture access number names the access of the same name; every other number,
/// the undefined one among them, names none.
pub proof fn storage_accesses_are_named_by_their_header_constants(v: u32)
    ensures
        storage_access_of(v) == Some(StorageTextureAccess::WriteOnly) <==> v == native::WGPUStorageTextureAccess_WriteOnly,
        storage_access_of(v) == Some(StorageTextureAccess::Atomic) <==> v == native::WGPUStorageTextureAccess_Atomic,
        storage_access_of(v) is None <==> !(v == native::WGPUStorageTextureAccess_WriteOnly
            || v == native::WGPUStorageTextureAccess_Atomic),
{
}

/// Each C buffer binding type number names the buffer binding of the same name: a uniform buffer,
/// a storage buffer that can be written, or one that is read only; every other number, the
/// undefined one among them, names none.
pub proof fn buffer_types_are_named_by_their_header_constants(v: u32)
    ensures
        buffer_type_of(v) == Some(BufferBindingType::Uniform) <==> v == native::WGPUBufferBindingType_Uniform,
        buffer_type_of(v) == Some(BufferBindingType::Storage { read_only: false }) <==> v == native::WGPUBufferBindingType_Storage,
        buffer_type_of(v) == Some(BufferBindingType::Storage { read_only: true }) <==> v == native::WGPUBufferBindingType_ReadOnlyStorage,
        buffer_type_of(v) is None <==> !(v == native::WGPUBufferBindingType_Uniform
            || v == native::WGPUBufferBindingType_Storage || v == native::WGPUBufferBindingType_ReadOnlyStorage),
{
}

/// An entry that gives a sample type is converted to a texture binding with the sample type,
/// view dimension and multisampling that its C numbers name, and keeps its binding number and
/// visibility; it is refused exactly when its sample type or view dimension names none, or its
/// visibility holds a bit that names no shader stage.
pub proof fn texture_entries_keep_their_sample_type(entry: NativeBindGroupLayoutEntry, external_texture: bool)
    requires
        entry.texture.sample_type != native::WGPUTextureSampleType_Undefined,
    ensures
        bind_group_layout_entry_of(entry, external_texture) is Ok <==> (
            sample_type_of(entry.texture.sample_type) is Some
                && view_dimension_of(entry.texture.view_dimension) is Some
                && only_known_bits(entry.visibility, SHADER_STAGES_ALL)),
        match bind_group_layout_entry_of(entry, external_texture) {
            Ok(e) => {
                &&& e.binding == entry.binding
                &&& e.visibility == entry.visibility
                &&& e.count is None
                &&& e.ty == BindingType::Texture {
                    sample_type: sample_type_of(entry.texture.sample_type)->0,
                    view_dimension: view_dimension_of(entry.texture.view_dimension)->0,
                    multisampled: entry.texture.multisampled,
                }
            },
            Err(_) => true,
        },
{
    reveal(bind_group_layout_entry_of);
}

/// Converts the entries of a bind group layout, each with whether the caller chained an
/// external texture layout to it; the first entry that cannot be converted makes the whole
/// layout fail with its error.
pub fn map_bind_group_layout_entries(entries: &Vec<(NativeBindGroupLayoutEntry, bool)>) -> (r: Result<Vec<BindGroupLayoutEntry>, BindGroupLayoutEntryError>)
    ensures
        match r {
            Ok(v) => v@.len() == entries@.len() && forall|i: int| 0 <= i < entries@.len()
                ==> bind_group_layout_entry_of(entries@[i].0, entries@[i].1) == Ok::<BindGroupLayoutEntry, BindGroupLayoutEntryError>(#[trigger] v@[i]),
            Err(e) => exists|i: int| 0 <= i < entries@.len()
                && bind_group_layout_entry_of(entries@[i].0, entries@[i].1) == Err::<BindGroupLayoutEntry, BindGroupLayoutEntryError>(e)
                && forall|j: int| 0 <= j < i ==> bind_group_layout_entry_of(entries@[j].0, entries@[j].1) is Ok,
        },
{
    let mut out: Vec<BindGroupLayoutEntry> = Vec::new();
    let mut i: usize = 0;
    while i < entries.len()
        invariant
            i <= entries@.len(),
            out@.len() == i,
            forall|k: int| 0 <= k < i ==> bind_group_layout_entry_of(entries@[k].0, entries@[k].1) == Ok::<BindGroupLayoutEntry, BindGroupLayoutEntryError>(#[trigger] out@[k]),
        decreases entries.len() - i,
    {
        let pair = &entries[i];
        let r = map_bind_group_layout_entry(&pair.0, pair.1);
        assert(r == bind_group_layout_entry_of(entries@[i as int].0, entries@[i as int].1));
        match r {
            Ok(e) => out.push(e),
            Err(e) => {
                assert(forall|j: int| 0 <= j < i ==> bind_group_layout_entry_of(entries@[j].0, entries@[j].1) == Ok::<BindGroupLayoutEntry, BindGroupLayoutEntryError>(out@[j]));
                assert forall|j: int| 0 <= j < i implies bind_group_layout_entry_of(entries@[j].0, entries@[j].1) is Ok by {
                    assert(bind_group_layout_entry_of(entries@[j].0, entries@[j].1) == Ok::<BindGroupLayoutEntry, BindGroupLayoutEntryError>(out@[j]));
                }
                let ghost k = i as int;
                assert(0 <= k < entries@.len()
                    && bind_group_layout_entry_of(entries@[k].0, entries@[k].1) == Err::<BindGroupLayoutEntry, BindGroupLayoutEntryError>(e)
                    && forall|j: int| 0 <= j < k ==> bind_group_layout_entry_of(entries@[j].0, entries@[j].1) is Ok);
                return Err(e);
            },
        }
        i = i + 1;
    }
    Ok(out)
}

// ---------------------------------------------------------------------------------------------
// Bind groups
// ---------------------------------------------------------------------------------------------

/// One entry of a bind group, as the C interface gives it: which of a buffer, a sampler and a
/// texture view it points at, and the range of the buffer.
#[derive(Clone, Copy, Debug, PartialEq, Eq, Structural)]
pub struct NativeBindGroupEntry {
    pub binding: u32,
    pub has_buffer: bool,
    pub offset: u64,
    pub size: u64,
    pub has_sampler: bool,
    pub has_texture_view: bool,
}

/// The resource that an entry of a bind group binds; a buffer range without a size runs to the
/// end of the buffer.
#[derive(Clone, Copy, Debug, PartialEq, Eq, Structural)]
pub enum BindingResource {
    Buffer { offset: u64, size: Option<u64> },
    Sampler,
    TextureView,
}

/// One entry of a bind group.
#[derive(Clone, Copy, Debug, PartialEq, Eq, Structural)]
pub struct BindGroupEntry {
    pub binding: u32,
    pub resource: BindingResource,
}

/// Why an entry of a bind group cannot be converted.
#[derive(Clone, Copy, Debug, PartialEq, Eq, Structural)]
pub enum BindGroupEntryError {
    /// The entry points at no resource.
    NoResource,
    /// The buffer range is empty.
    ZeroSize,
}

/// What an entry of a bind group binds: its buffer where it has one, else its sampler, else its
/// texture view.
pub open spec fn bind_group_entry_of(e: NativeBindGroupEntry) -> Result<BindGroupEntry, BindGroupEntryError> {
    if e.has_buffer {
        if e.size == 0 {
            Err(BindGroupEntryError::ZeroSize)
        } else {
            Ok(BindGroupEntry {
                binding: e.binding,
                resource: BindingResource::Buffer {
                    offset: e.offset,
                    size: if e.size == native::WGPU_WHOLE_SIZE { None } else { Some(e.size) },
                },
            })
        }
    } else if e.has_sampler {
        Ok(BindGroupEntry { binding: e.binding, resource: BindingResource::Sampler })
    } else if e.has_texture_view {
        Ok(BindGroupEntry { binding: e.binding, resource: BindingResource::TextureView })
    } else {
        Err(BindGroupEntryError::NoResource)
    }
}

/// Converts one entry of a bind group.
pub fn map_bind_group_entry(e: &NativeBindGroupEntry) -> (r: Result<BindGroupEntry, BindGroupEntryError>)
    ensures
        r == bind_group_entry_of(*e),
{
    if e.has_buffer {
        if e.size == 0 {
            Err(BindGroupEntryError::ZeroSize)
        } else {
            let size = if e.size == native::WGPU_WHOLE_SIZE { None } else { Some(e.size) };
            Ok(BindGroupEntry { binding: e.binding, resource: BindingResource::Buffer { offset: e.offset, size } })
        }
    } else if e.has_sampler {
        Ok(BindGroupEntry { binding: e.binding, resource: BindingResource::Sampler })
    } else if e.has_texture_view {
        Ok(BindGroupEntry { binding: e.binding, resource: BindingResource::TextureView })
    } else {
        Err(BindGroupEntryError::NoResource)
    }
}

// ---------------------------------------------------------------------------------------------
// Render pipelines
// ---------------------------------------------------------------------------------------------

/// How vertices are stepped through a vertex buffer.
#[derive(Clone, Copy, Debug, PartialEq, Eq, Structural)]
pub enum VertexStepMode {
    Vertex,
    Instance,
}

/// Which winding of a triangle faces the front.
#[derive(Clone, Copy, Debug, PartialEq, Eq, Structural)]
pub enum FrontFace {
    Ccw,
    Cw,
}

/// A face of a triangle.
#[derive(Clone, Copy, Debug, PartialEq, Eq, Structural)]
pub enum Face {
    Front,
    Back,
}

/// Whether a number names a vertex step mode.
pub open spec fn is_vertex_step_mode(v: u32) -> bool {
    v == native::WGPUVertexStepMode_Vertex || v == native::WGPUVertexStepMode_Instance
}

/// The vertex step mode that a C number names.
pub open spec fn vertex_step_mode_of(v: u32) -> VertexStepMode {
    if v == native::WGPUVertexStepMode_Vertex { VertexStepMode::Vertex } else { VertexStepMode::Instance }
}

/// A vertex buffer layout whose C step mode names one steps per vertex or per instance as the
/// header constant of that name says.
pub proof fn vertex_step_modes_are_named_by_their_header_constants(v: u32)
    requires
        is_vertex_step_mode(v),
    ensures
        vertex_step_mode_of(v) == VertexStepMode::Vertex <==> v == native::WGPUVertexStepMode_Vertex,
        vertex_step_mode_of(v) == VertexStepMode::Instance <==> v == native::WGPUVertexStepMode_Instance,
{
}

/// Converts the C vertex step mode, which must name one.
pub fn map_vertex_step_mode(value: u32) -> (r: VertexStepMode)
    requires
        is_vertex_step_mode(value),
    ensures
        r == vertex_step_mode_of(value),
{
    if value == native::WGPUVertexStepMode_Vertex {
        VertexStepMode::Vertex
    } else {
        VertexStepMode::Instance
    }
}

/// One attribute of a vertex buffer, as the C interface gives it.
#[derive(Clone, Copy, Debug, PartialEq, Eq, Structural)]
pub struct NativeVertexAttribute {
    pub format: u32,
    pub offset: u64,
    pub shader_location: u32,
}

/// One attribute of a vertex buffer.
#[derive(Clone, Copy, Debug, PartialEq, Eq, Structural)]
pub struct VertexAttribute {
    pub format: VertexFormat,
    pub offset: u64,
    pub shader_location: u32,
}

/// Whether every attribute of a list names a vertex format.
pub open spec fn attributes_valid(attributes: Seq<NativeVertexAttribute>) -> bool {
    forall|i: int| 0 <= i < attributes.len() ==> is_vertex_format(#[trigger] attributes[i].format)
}

/// Whether converted attributes are the given ones, one for one and in order.
pub open spec fn attributes_match(v: Seq<VertexAttribute>, attributes: Seq<NativeVertexAttribute>) -> bool {
    &&& v.len() == attributes.len()
    &&& forall|i: int| 0 <= i < v.len() ==> {
        &&& vertex_format_code((#[trigger] v[i]).format) == attributes[i].format
        &&& v[i].offset == attributes[i].offset
        &&& v[i].shader_location == attributes[i].shader_location
    }
}

/// Converts the attributes of a vertex buffer, each of which must name a vertex format.
pub fn map_vertex_attributes(attributes: &Vec<NativeVertexAttribute>) -> (r: Vec<VertexAttribute>)
    requires
        attributes_valid(attributes@),
    ensures
        attributes_match(r@, attributes@),
{
    let mut out: Vec<VertexAttribute> = Vec::new();
    let mut i: usize = 0;
    while i < attributes.len()
        invariant
            i <= attributes@.len(),
            attributes_valid(attributes@),
            out@.len() == i,
            forall|k: int| 0 <= k < i ==> {
                &&& vertex_format_code((#[trigger] out@[k]).format) == attributes@[k].format
                &&& out@[k].offset == attributes@[k].offset
                &&& out@[k].shader_location == attributes@[k].shader_location
            },
        decreases attributes.len() - i,
    {
        let a = &attributes[i];
        assert(is_vertex_format(attributes@[i as int].format));
        let format = match map_vertex_format(a.format) {
            Ok(f) => f,
            Err(_) => unreached(),
        };
        out.push(VertexAttribute { format, offset: a.offset, shader_location: a.shader_location });
        i = i + 1;
    }
    out
}

/// One vertex buffer of a render pipeline, as the C interface gives it.
#[derive(Clone, Debug)]
pub struct NativeVertexBufferLayout {
    pub array_stride: u64,
    pub step_mode: u32,
    pub attributes: Vec<NativeVertexAttribute>,
}

/// One vertex buffer of a render pipeline.
#[derive(Clone, Debug)]
pub struct VertexBufferLayout {
    pub array_stride: u64,
    pub step_mode: VertexStepMode,
    pub attributes: Vec<VertexAttribute>,
}

/// Whether a vertex buffer names its step mode and the formats of all its attributes.
pub open spec fn vertex_buffer_valid(b: NativeVertexBufferLayout) -> bool {
    is_vertex_step_mode(b.step_mode) && attributes_valid(b.attributes@)
}

/// Whether a converted vertex buffer is the given one.
pub open spec fn vertex_buffer_matches(v: VertexBufferLayout, b: NativeVertexBufferLayout) -> bool {
    &&& v.array_stride == b.array_stride
    &&& v.step_mode == vertex_step_mode_of(b.step_mode)
    &&& attributes_match(v.attributes@, b.attributes@)
}

/// Converts the vertex buffers of a render pipeline, in order; each must name its step mode and
/// its attributes' formats.
pub fn map_vertex_buffer_layouts(buffers: &Vec<NativeVertexBufferLayout>) -> (r: Vec<VertexBufferLayout>)
    requires
        forall|i: int| 0 <= i < buffers@.len() ==> vertex_buffer_valid(#[trigger] buffers@[i]),
    ensures
        r@.len() == buffers@.len(),
        forall|i: int| 0 <= i < buffers@.len() ==> vertex_buffer_matches(#[trigger] r@[i], buffers@[i]),
{
    let mut out: Vec<VertexBufferLayout> = Vec::new();
    let mut i: usize = 0;
    while i < buffers.len()
        invariant
            i <= buffers@.len(),
            forall|k: int| 0 <= k < buffers@.len() ==> vertex_buffer_valid(#[trigger] buffers@[k]),
            out@.len() == i,
            forall|k: int| 0 <= k < i ==> vertex_buffer_matches(#[trigger] out@[k], buffers@[k]),
        decreases buffers.len() - i,
    {
        let b = &buffers[i];
        assert(vertex_buffer_valid(buffers@[i as int]));
        let step_mode = map_vertex_step_mode(b.step_mode);
        let attributes = map_vertex_attributes(&b.attributes);
        out.push(VertexBufferLayout { array_stride: b.array_stride, step_mode, attributes });
        i = i + 1;
    }
    out
}

/// How primitives are assembled, as the C interface gives it.
#[derive(Clone, Copy, Debug, PartialEq, Eq, Structural)]
pub struct NativePrimitiveState {
    pub topology: u32,
    pub strip_index_format: u32,
    pub front_face: u32,
    pub cull_mode: u32,
}

/// How primitives are assembled. Polygons are always filled and rasterization is never
/// conservative.
#[derive(Clone, Copy, Debug, PartialEq, Eq, Structural)]
pub struct PrimitiveState {
    pub topology: PrimitiveTopology,
    pub strip_index_format: Option<IndexFormat>,
    pub front_face: FrontFace,
    pub cull_mode: Option<Face>,
    pub unclipped_depth: bool,
}

/// Whether a number names a primitive topology.
pub open spec fn is_primitive_topology(v: u32) -> bool {
    exists|t: PrimitiveTopology| primitive_topology_code(t) == v
}

/// Whether the topology, front face and cull mode of a C primitive state each name one.
pub open spec fn primitive_state_valid(native: NativePrimitiveState) -> bool {
    &&& is_primitive_topology(native.topology)
    &&& (native.front_face == native::WGPUFrontFace_CCW || native.front_face == native::WGPUFrontFace_CW)
    &&& (native.cull_mode == native::WGPUCullMode_None || native.cull_mode == native::WGPUCullMode_Front
        || native.cull_mode == native::WGPUCullMode_Back)
}

/// Converts how primitives are assembled, whose topology, front face and cull mode must each
/// name one: an index format that names none means that strips are not cut; `unclipped_depth`
/// comes from the depth clip control the caller chained.
pub fn map_primitive_state(native: &NativePrimitiveState, unclipped_depth: bool) -> (r: PrimitiveState)
    requires
        primitive_state_valid(*native),
    ensures
        primitive_topology_code(r.topology) == native.topology,
        r.strip_index_format == (if exists|f: IndexFormat| index_format_code(f) == native.strip_index_format {
            Some(choose|f: IndexFormat| index_format_code(f) == native.strip_index_format)
        } else {
            None
        }),
        r.front_face == (if native.front_face == native::WGPUFrontFace_CCW { FrontFace::Ccw } else { FrontFace::Cw }),
        r.cull_mode == (if native.cull_mode == native::WGPUCullMode_None {
            None
        } else if native.cull_mode == native::WGPUCullMode_Front {
            Some(Face::Front)
        } else {
            Some(Face::Back)
        }),
        r.unclipped_depth == unclipped_depth,
{
    let topology = match map_primitive_topology(native.topology) {
        Ok(t) => t,
        Err(_) => unreached(),
    };
    let strip_index_format = match map_index_format(native.strip_index_format) {
        Ok(f) => {
            assert(index_format_code(f) == native.strip_index_format);
            assert(forall|g: IndexFormat| index_format_code(g) == native.strip_index_format ==> Ok::<IndexFormat, u32>(g) == Ok::<IndexFormat, u32>(f));
            Some(f)
        },
        Err(_) => None,
    };
    let front_face = if native.front_face == native::WGPUFrontFace_CCW { FrontFace::Ccw } else { FrontFace::Cw };
    let cull_mode = if native.cull_mode == native::WGPUCullMode_None {
        None
    } else if native.cull_mode == native::WGPUCullMode_Front {
        Some(Face::Front)
    } else {
        Some(Face::Back)
    };
    PrimitiveState { topology, strip_index_format, front_face, cull_mode, unclipped_depth }
}

/// The depth and stencil test of a render pipeline, as the C interface gives it, without the
/// floating-point depth bias factors.
#[derive(Clone, Copy, Debug, PartialEq, Eq, Structural)]
pub struct NativeDepthStencilState {
    pub format: u32,
    pub depth_write_enabled: u32,
    pub depth_compare: u32,
    pub stencil_front: NativeStencilFaceState,
    pub stencil_back: NativeStencilFaceState,
    pub stencil_read_mask: u32,
    pub stencil_write_mask: u32,
    pub depth_bias: i32,
}

/// The depth and stencil test of a render pipeline, without the floating-point depth bias
/// factors.
#[derive(Clone, Copy, Debug, PartialEq, Eq, Structural)]
pub struct DepthStencilState {
    pub format: TextureFormat,
    pub depth_write_enabled: bool,
    pub depth_compare: CompareFunction,
    pub stencil_front: StencilFaceState,
    pub stencil_back: StencilFaceState,
    pub stencil_read_mask: u32,
    pub stencil_write_mask: u32,
    pub depth_bias: i32,
}

/// Whether the format, the comparison and both stencil faces of a C depth and stencil test
/// each name something.
pub open spec fn depth_stencil_valid(native: NativeDepthStencilState) -> bool {
    &&& exists|f: TextureFormat| texture_format_code(f) == Some(native.format)
    &&& is_compare_function(native.depth_compare)
    &&& stencil_face_error(native.stencil_front) is None
    &&& stencil_face_error(native.stencil_back) is None
}

/// Converts the depth and stencil test, whose format, comparison and stencil faces must each
/// name something.
pub fn map_depth_stencil_state(native: &NativeDepthStencilState) -> (r: DepthStencilState)
    requires
        depth_stencil_valid(*native),
    ensures
        texture_format_code(r.format) == Some(native.format),
        r.depth_write_enabled == (native.depth_write_enabled != 0),
        compare_function_code(r.depth_compare) == native.depth_compare,
        stencil_face_matches(r.stencil_front, native.stencil_front),
        stencil_face_matches(r.stencil_back, native.stencil_back),
        r.stencil_read_mask == native.stencil_read_mask,
        r.stencil_write_mask == native.stencil_write_mask,
        r.depth_bias == native.depth_bias,
{
    let format = match map_texture_format(native.format) {
        Some(f) => f,
        None => unreached(),
    };
    let depth_compare = match map_compare_function(native.depth_compare) {
        Ok(c) => c,
        Err(_) => unreached(),
    };
    let stencil_front = match map_stencil_face_state(&native.stencil_front) {
        Ok(f) => f,
        Err(_) => unreached(),
    };
    let stencil_back = match map_stencil_face_state(&native.stencil_back) {
        Ok(f) => f,
        Err(_) => unreached(),
    };
    DepthStencilState {
        format,
        depth_write_enabled: native.depth_write_enabled != 0,
        depth_compare,
        stencil_front,
        stencil_back,
        stencil_read_mask: native.stencil_read_mask,
        stencil_write_mask: native.stencil_write_mask,
        depth_bias: native.depth_bias,
    }
}

/// How a render pipeline samples, as the C interface gives it.
#[derive(Clone, Copy, Debug, PartialEq, Eq, Structural)]
pub struct NativeMultisampleState {
    pub count: u32,
    pub mask: u32,
    pub alpha_to_coverage_enabled: u32,
}

/// How a render pipeline samples: the sample mask is widened to 64 bits.
#[derive(Clone, Copy, Debug, PartialEq, Eq, Structural)]
pub struct MultisampleState {
    pub count: u32,
    pub mask: u64,
    pub alpha_to_coverage_enabled: bool,
}

/// Converts how a render pipeline samples.
pub fn map_multisample_state(native: &NativeMultisampleState) -> (r: MultisampleState)
    ensures
        r.count == native.count,
        r.mask == native.mask as u64,
        r.alpha_to_coverage_enabled == (native.alpha_to_coverage_enabled != 0),
{
    MultisampleState {
        count: native.count,
        mask: native.mask as u64,
        alpha_to_coverage_enabled: native.alpha_to_coverage_enabled != 0,
    }
}

/// The color target of a fragment stage, as the C interface gives it, without its blend state.
#[derive(Clone, Copy, Debug, PartialEq, Eq, Structural)]
pub struct NativeColorTargetState {
    pub format: u32,
    pub write_mask: u32,
}

/// A color target of a fragment stage, without its blend state; `write_mask` holds the bits of
/// the written channels.
#[derive(Clone, Copy, Debug, PartialEq, Eq, Structural)]
pub struct ColorTargetState {
    pub format: TextureFormat,
    pub write_mask: u32,
}

/// Whether a C color target that names a format has a write mask of color channels only.
pub open spec fn color_target_valid(native: NativeColorTargetState) -> bool {
    crate::format::texture_format_of_code(native.format) is Some
        ==> only_known_bits(native.write_mask, crate::flags::COLOR_WRITES_ALL)
}

/// The color target a C color target stands for: none where its format names none.
pub open spec fn color_target_of(native: NativeColorTargetState) -> Option<ColorTargetState> {
    match crate::format::texture_format_of_code(native.format) {
        Some(format) => Some(ColorTargetState { format, write_mask: native.write_mask }),
        None => None,
    }
}

/// Converts a color target: a target whose format names none is left out (`None`); a target
/// with a format must have a write mask of color channels only.
pub fn map_color_target_state(native: &NativeColorTargetState) -> (r: Option<ColorTargetState>)
    requires
        color_target_valid(*native),
    ensures
        r == color_target_of(*native),
{
    match map_texture_format(native.format) {
        None => None,
        Some(format) => match crate::flags::color_writes_from_bits(native.write_mask) {
            Some(write_mask) => Some(ColorTargetState { format, write_mask }),
            None => unreached(),
        },
    }
}

/// Converts the color targets of a fragment stage, in order: slot `i` is empty exactly where
/// target `i` names no format.
pub fn map_color_target_states(targets: &Vec<NativeColorTargetState>) -> (r: Vec<Option<ColorTargetState>>)
    requires
        forall|i: int| 0 <= i < targets@.len() ==> color_target_valid(#[trigger] targets@[i]),
    ensures
        r@.len() == targets@.len(),
        forall|i: int| 0 <= i < targets@.len() ==> #[trigger] r@[i] == color_target_of(targets@[i]),
{
    let mut out: Vec<Option<ColorTargetState>> = Vec::new();
    let mut i: usize = 0;
    while i < targets.len()
        invariant
            i <= targets@.len(),
            forall|k: int| 0 <= k < targets@.len() ==> color_target_valid(#[trigger] targets@[k]),
            out@.len() == i,
            forall|k: int| 0 <= k < i ==> #[trigger] out@[k] == color_target_of(targets@[k]),
        decreases targets.len() - i,
    {
        assert(color_target_valid(targets@[i as int]));
        out.push(map_color_target_state(&targets[i]));
        i = i + 1;
    }
    out
}

// ---------------------------------------------------------------------------------------------
// Devices, pipeline layouts and shader modules
// ---------------------------------------------------------------------------------------------

/// What a device is created with.
#[derive(Clone, Copy, Debug, PartialEq, Eq, Structural)]
pub struct DeviceDescriptor {
    pub features: Features,
    pub limits: Limits,
}

/// The features and limits a device is asked for. Without the device extension, no feature and
/// the default limits; with it, the features its flags ask for and the required limits, each
/// limit given as zero keeping its default.
pub open spec fn device_descriptor_of(
    required: NativeLimits,
    limits_extras: Option<NativeLimitsExtras>,
    device_features: Option<u32>,
) -> DeviceDescriptor {
    match device_features {
        Some(flags) => DeviceDescriptor {
            features: requested_features(flags),
            limits: required_limits(required, limits_extras),
        },
        None => DeviceDescriptor {
            features: requested_features(0),
            limits: spec_defaults(),
        },
    }
}

/// Finds the features and limits of a device to create. `device_features` holds the feature
/// flags of the device extension, where the caller chained one.
pub fn map_device_descriptor(
    required: &NativeLimits,
    limits_extras: Option<&NativeLimitsExtras>,
    device_features: Option<u32>,
) -> (r: DeviceDescriptor)
    ensures
        r == device_descriptor_of(
            *required,
            match limits_extras { Some(e) => Some(*e), None => None },
            device_features,
        ),
{
    match device_features {
        Some(flags) => DeviceDescriptor {
            features: map_requested_features(flags),
            limits: map_required_limits(required, limits_extras),
        },
        None => DeviceDescriptor { features: map_requested_features(0), limits: Limits::defaults() },
    }
}

/// A device description as the C interface gives it: the required limits, the extension of
/// those limits, and the feature flags of the device extension, where the caller chained them.
#[derive(Clone, Copy, Debug, PartialEq, Eq, Structural)]
pub struct NativeDeviceDescriptor {
    pub required_limits: NativeLimits,
    pub limits_extras: Option<NativeLimitsExtras>,
    pub device_features: Option<u32>,
}

/// The features and limits of the device that a request asks for: those of the description the
/// caller gave, or, without a description, no feature and the base limits of the adapter.
pub open spec fn requested_device_of(adapter_limits: Limits, descriptor: Option<NativeDeviceDescriptor>) -> DeviceDescriptor {
    match descriptor {
        Some(d) => device_descriptor_of(d.required_limits, d.limits_extras, d.device_features),
        None => DeviceDescriptor { features: no_features(), limits: base_device_limits(adapter_limits) },
    }
}

/// Finds the features and limits of the device that a request asks for from the limits of the
/// adapter and the description the caller gave, if any.
pub fn map_request_device(adapter_limits: &Limits, descriptor: Option<&NativeDeviceDescriptor>) -> (r: DeviceDescriptor)
    ensures
        r == requested_device_of(*adapter_limits, match descriptor { Some(d) => Some(*d), None => None }),
{
    match descriptor {
        Some(d) => map_device_descriptor(&d.required_limits, d.limits_extras.as_ref(), d.device_features),
        None => DeviceDescriptor {
            features: Features::empty(),
            limits: get_base_device_limits_from_adapter_limits(adapter_limits),
        },
    }
}

/// The extension of a pipeline layout descriptor that carries the library's own settings: the
/// total size in bytes of the immediate data.
#[derive(Clone, Copy, Debug, PartialEq, Eq, Structural)]
pub struct NativePipelineLayoutExtras {
    pub immediate_data_size: u32,
}

/// What a pipeline layout is created with besides its bind group layouts: the total size in
/// bytes of its immediate data.
#[derive(Clone, Copy, Debug, PartialEq, Eq, Structural)]
pub struct PipelineLayoutDescriptor {
    pub immediate_size: u32,
}

/// Converts the settings of a pipeline layout: the immediate data size of the extension the
/// caller chained, and none without one.
pub fn map_pipeline_layout_descriptor(extras: Option<&NativePipelineLayoutExtras>) -> (r: PipelineLayoutDescriptor)
    ensures
        r.immediate_size == match extras {
            Some(e) => e.immediate_data_size,
            None => 0,
        },
{
    match extras {
        Some(e) => PipelineLayoutDescriptor { immediate_size: e.immediate_data_size },
        None => PipelineLayoutDescriptor { immediate_size: 0 },
    }
}

} // verus!
