//! Numeric values of the enumerations of the C interface (webgpu.h and wgpu.h).
#![allow(non_upper_case_globals)]

use vstd::prelude::*;

verus! {

// WGPULoadOp
pub const WGPULoadOp_Undefined: u32 = 0x00000000;
pub const WGPULoadOp_Clear: u32 = 0x00000001;
pub const WGPULoadOp_Load: u32 = 0x00000002;

// WGPUStoreOp
pub const WGPUStoreOp_Undefined: u32 = 0x00000000;
pub const WGPUStoreOp_Store: u32 = 0x00000001;
pub const WGPUStoreOp_Discard: u32 = 0x00000002;

// WGPUAddressMode
pub const WGPUAddressMode_Repeat: u32 = 0x00000000;
pub const WGPUAddressMode_MirrorRepeat: u32 = 0x00000001;
pub const WGPUAddressMode_ClampToEdge: u32 = 0x00000002;

// WGPUFilterMode
pub const WGPUFilterMode_Nearest: u32 = 0x00000000;
pub const WGPUFilterMode_Linear: u32 = 0x00000001;

// WGPUMipmapFilterMode
pub const WGPUMipmapFilterMode_Nearest: u32 = 0x00000000;
pub const WGPUMipmapFilterMode_Linear: u32 = 0x00000001;

// WGPUCompareFunction
pub const WGPUCompareFunction_Undefined: u32 = 0x00000000;
pub const WGPUCompareFunction_Never: u32 = 0x00000001;
pub const WGPUCompareFunction_Less: u32 = 0x00000002;
pub const WGPUCompareFunction_LessEqual: u32 = 0x00000003;
pub const WGPUCompareFunction_Greater: u32 = 0x00000004;
pub const WGPUCompareFunction_GreaterEqual: u32 = 0x00000005;
pub const WGPUCompareFunction_Equal: u32 = 0x00000006;
pub const WGPUCompareFunction_NotEqual: u32 = 0x00000007;
pub const WGPUCompareFunction_Always: u32 = 0x00000008;

// WGPUTextureAspect
pub const WGPUTextureAspect_All: u32 = 0x00000000;
pub const WGPUTextureAspect_StencilOnly: u32 = 0x00000001;
pub const WGPUTextureAspect_DepthOnly: u32 = 0x00000002;

// WGPUPresentMode
pub const WGPUPresentMode_Immediate: u32 = 0x00000000;
pub const WGPUPresentMode_Mailbox: u32 = 0x00000001;
pub const WGPUPresentMode_Fifo: u32 = 0x00000002;

// WGPUPrimitiveTopology
pub const WGPUPrimitiveTopology_PointList: u32 = 0x00000000;
pub const WGPUPrimitiveTopology_LineList: u32 = 0x00000001;
pub const WGPUPrimitiveTopology_LineStrip: u32 = 0x00000002;
pub const WGPUPrimitiveTopology_TriangleList: u32 = 0x00000003;
pub const WGPUPrimitiveTopology_TriangleStrip: u32 = 0x00000004;

// WGPUIndexFormat
pub const WGPUIndexFormat_Undefined: u32 = 0x00000000;
pub const WGPUIndexFormat_Uint16: u32 = 0x00000001;
pub const WGPUIndexFormat_Uint32: u32 = 0x00000002;

// WGPUBlendFactor
pub const WGPUBlendFactor_Zero: u32 = 0x00000000;
pub const WGPUBlendFactor_One: u32 = 0x00000001;
pub const WGPUBlendFactor_Src: u32 = 0x00000002;
pub const WGPUBlendFactor_OneMinusSrc: u32 = 0x00000003;
pub const WGPUBlendFactor_SrcAlpha: u32 = 0x00000004;
pub const WGPUBlendFactor_OneMinusSrcAlpha: u32 = 0x00000005;
pub const WGPUBlendFactor_Dst: u32 = 0x00000006;
pub const WGPUBlendFactor_OneMinusDst: u32 = 0x00000007;
pub const WGPUBlendFactor_DstAlpha: u32 = 0x00000008;
pub const WGPUBlendFactor_OneMinusDstAlpha: u32 = 0x00000009;
pub const WGPUBlendFactor_SrcAlphaSaturated: u32 = 0x0000000A;
pub const WGPUBlendFactor_Constant: u32 = 0x0000000B;
pub const WGPUBlendFactor_OneMinusConstant: u32 = 0x0000000C;

// WGPUBlendOperation
pub const WGPUBlendOperation_Add: u32 = 0x00000000;
pub const WGPUBlendOperation_Subtract: u32 = 0x00000001;
pub const WGPUBlendOperation_ReverseSubtract: u32 = 0x00000002;
pub const WGPUBlendOperation_Min: u32 = 0x00000003;
pub const WGPUBlendOperation_Max: u32 = 0x00000004;

// WGPUStencilOperation
pub const WGPUStencilOperation_Keep: u32 = 0x00000000;
pub const WGPUStencilOperation_Zero: u32 = 0x00000001;
pub const WGPUStencilOperation_Replace: u32 = 0x00000002;
pub const WGPUStencilOperation_Invert: u32 = 0x00000003;
pub const WGPUStencilOperation_IncrementClamp: u32 = 0x00000004;
pub const WGPUStencilOperation_DecrementClamp: u32 = 0x00000005;
pub const WGPUStencilOperation_IncrementWrap: u32 = 0x00000006;
pub const WGPUStencilOperation_DecrementWrap: u32 = 0x00000007;

// WGPUVertexFormat
pub const WGPUVertexFormat_Undefined: u32 = 0x00000000;
pub const WGPUVertexFormat_Uint8x2: u32 = 0x00000001;
pub const WGPUVertexFormat_Uint8x4: u32 = 0x00000002;
pub const WGPUVertexFormat_Sint8x2: u32 = 0x00000003;
pub const WGPUVertexFormat_Sint8x4: u32 = 0x00000004;
pub const WGPUVertexFormat_Unorm8x2: u32 = 0x00000005;
pub const WGPUVertexFormat_Unorm8x4: u32 = 0x00000006;
pub const WGPUVertexFormat_Snorm8x2: u32 = 0x00000007;
pub const WGPUVertexFormat_Snorm8x4: u32 = 0x00000008;
pub const WGPUVertexFormat_Uint16x2: u32 = 0x00000009;
pub const WGPUVertexFormat_Uint16x4: u32 = 0x0000000A;
pub const WGPUVertexFormat_Sint16x2: u32 = 0x0000000B;
pub const WGPUVertexFormat_Sint16x4: u32 = 0x0000000C;
pub const WGPUVertexFormat_Unorm16x2: u32 = 0x0000000D;
pub const WGPUVertexFormat_Unorm16x4: u32 = 0x0000000E;
pub const WGPUVertexFormat_Snorm16x2: u32 = 0x0000000F;
pub const WGPUVertexFormat_Snorm16x4: u32 = 0x00000010;
pub const WGPUVertexFormat_Float16x2: u32 = 0x00000011;
pub const WGPUVertexFormat_Float16x4: u32 = 0x00000012;
pub const WGPUVertexFormat_Float32: u32 = 0x00000013;
pub const WGPUVertexFormat_Float32x2: u32 = 0x00000014;
pub const WGPUVertexFormat_Float32x3: u32 = 0x00000015;
pub const WGPUVertexFormat_Float32x4: u32 = 0x00000016;
pub const WGPUVertexFormat_Uint32: u32 = 0x00000017;
pub const WGPUVertexFormat_Uint32x2: u32 = 0x00000018;
pub const WGPUVertexFormat_Uint32x3: u32 = 0x00000019;
pub const WGPUVertexFormat_Uint32x4: u32 = 0x0000001A;
pub const WGPUVertexFormat_Sint32: u32 = 0x0000001B;
pub const WGPUVertexFormat_Sint32x2: u32 = 0x0000001C;
pub const WGPUVertexFormat_Sint32x3: u32 = 0x0000001D;
pub const WGPUVertexFormat_Sint32x4: u32 = 0x0000001E;

// WGPUShaderStage
pub const WGPUShaderStage_None: u32 = 0x00000000;
pub const WGPUShaderStage_Vertex: u32 = 0x00000001;
pub const WGPUShaderStage_Fragment: u32 = 0x00000002;
pub const WGPUShaderStage_Compute: u32 = 0x00000004;

// WGPUErrorType
pub const WGPUErrorType_NoError: u32 = 0x00000000;
pub const WGPUErrorType_Validation: u32 = 0x00000001;
pub const WGPUErrorType_OutOfMemory: u32 = 0x00000002;
pub const WGPUErrorType_Unknown: u32 = 0x00000003;
pub const WGPUErrorType_DeviceLost: u32 = 0x00000004;

// WGPUErrorFilter
pub const WGPUErrorFilter_Validation: u32 = 0x00000000;
pub const WGPUErrorFilter_OutOfMemory: u32 = 0x00000001;

// WGPUDeviceLostReason
pub const WGPUDeviceLostReason_Undefined: u32 = 0x00000000;
pub const WGPUDeviceLostReason_Destroyed: u32 = 0x00000001;

// WGPUTextureViewDimension
pub const WGPUTextureViewDimension_Undefined: u32 = 0x00000000;
pub const WGPUTextureViewDimension_1D: u32 = 0x00000001;
pub const WGPUTextureViewDimension_2D: u32 = 0x00000002;
pub const WGPUTextureViewDimension_2DArray: u32 = 0x00000003;
pub const WGPUTextureViewDimension_Cube: u32 = 0x00000004;
pub const WGPUTextureViewDimension_CubeArray: u32 = 0x00000005;
pub const WGPUTextureViewDimension_3D: u32 = 0x00000006;

// WGPUTextureDimension
pub const WGPUTextureDimension_1D: u32 = 0x00000000;
pub const WGPUTextureDimension_2D: u32 = 0x00000001;
pub const WGPUTextureDimension_3D: u32 = 0x00000002;

// WGPUFeatureName
pub const WGPUFeatureName_Undefined: u32 = 0x00000000;
pub const WGPUFeatureName_DepthClipControl: u32 = 0x00000001;
pub const WGPUFeatureName_Depth24UnormStencil8: u32 = 0x00000002;
pub const WGPUFeatureName_Depth32FloatStencil8: u32 = 0x00000003;
pub const WGPUFeatureName_TimestampQuery: u32 = 0x00000004;
pub const WGPUFeatureName_PipelineStatisticsQuery: u32 = 0x00000005;
pub const WGPUFeatureName_TextureCompressionBC: u32 = 0x00000006;
pub const WGPUFeatureName_TextureCompressionETC2: u32 = 0x00000007;
pub const WGPUFeatureName_TextureCompressionASTC: u32 = 0x00000008;
pub const WGPUFeatureName_IndirectFirstInstance: u32 = 0x00000009;
pub const WGPUFeatureName_PrimitiveIndex: u32 = 0x0000000A;

// WGPUNativeFeature (wgpu.h)
pub const WGPUNativeFeature_Immediates: u32 = 0x60000001;
pub const WGPUNativeFeature_TEXTURE_ADAPTER_SPECIFIC_FORMAT_FEATURES: u32 = 0x60000002;

// WGPULogLevel (wgpu.h)
pub const WGPULogLevel_Off: u32 = 0x00000000;
pub const WGPULogLevel_Error: u32 = 0x00000001;
pub const WGPULogLevel_Warn: u32 = 0x00000002;
pub const WGPULogLevel_Info: u32 = 0x00000003;
pub const WGPULogLevel_Debug: u32 = 0x00000004;
pub const WGPULogLevel_Trace: u32 = 0x00000005;

// WGPUPowerPreference
pub const WGPUPowerPreference_Undefined: u32 = 0x00000000;
pub const WGPUPowerPreference_LowPower: u32 = 0x00000001;
pub const WGPUPowerPreference_HighPerformance: u32 = 0x00000002;

// WGPUBackendType
pub const WGPUBackendType_Undefined: u32 = 0x00000000;
pub const WGPUBackendType_Null: u32 = 0x00000001;
pub const WGPUBackendType_WebGPU: u32 = 0x00000002;
pub const WGPUBackendType_D3D11: u32 = 0x00000003;
pub const WGPUBackendType_D3D12: u32 = 0x00000004;
pub const WGPUBackendType_Metal: u32 = 0x00000005;
pub const WGPUBackendType_Vulkan: u32 = 0x00000006;
pub const WGPUBackendType_OpenGL: u32 = 0x00000007;
pub const WGPUBackendType_OpenGLES: u32 = 0x00000008;

// WGPUAdapterType
pub const WGPUAdapterType_DiscreteGPU: u32 = 0x00000000;
pub const WGPUAdapterType_IntegratedGPU: u32 = 0x00000001;
pub const WGPUAdapterType_CPU: u32 = 0x00000002;
pub const WGPUAdapterType_Unknown: u32 = 0x00000003;

// WGPURequestAdapterStatus
pub const WGPURequestAdapterStatus_Success: u32 = 0x00000000;
pub const WGPURequestAdapterStatus_Unavailable: u32 = 0x00000001;
pub const WGPURequestAdapterStatus_Error: u32 = 0x00000002;
pub const WGPURequestAdapterStatus_Unknown: u32 = 0x00000003;

// WGPUBufferBindingType
pub const WGPUBufferBindingType_Undefined: u32 = 0x00000000;
pub const WGPUBufferBindingType_Uniform: u32 = 0x00000001;
pub const WGPUBufferBindingType_Storage: u32 = 0x00000002;
pub const WGPUBufferBindingType_ReadOnlyStorage: u32 = 0x00000003;

// WGPUSamplerBindingType
pub const WGPUSamplerBindingType_Undefined: u32 = 0x00000000;
pub const WGPUSamplerBindingType_Filtering: u32 = 0x00000001;
pub const WGPUSamplerBindingType_NonFiltering: u32 = 0x00000002;
pub const WGPUSamplerBindingType_Comparison: u32 = 0x00000003;

// WGPUTextureSampleType
pub const WGPUTextureSampleType_Undefined: u32 = 0x00000000;
pub const WGPUTextureSampleType_Float: u32 = 0x00000001;
pub const WGPUTextureSampleType_UnfilterableFloat: u32 = 0x00000002;
pub const WGPUTextureSampleType_Depth: u32 = 0x00000003;
pub const WGPUTextureSampleType_Sint: u32 = 0x00000004;
pub const WGPUTextureSampleType_Uint: u32 = 0x00000005;

// WGPUStorageTextureAccess
pub const WGPUStorageTextureAccess_Undefined: u32 = 0x00000000;
pub const WGPUStorageTextureAccess_WriteOnly: u32 = 0x00000001;

// WGPUVertexStepMode
pub const WGPUVertexStepMode_Vertex: u32 = 0x00000000;
pub const WGPUVertexStepMode_Instance: u32 = 0x00000001;

// WGPUFrontFace
pub const WGPUFrontFace_CCW: u32 = 0x00000000;
pub const WGPUFrontFace_CW: u32 = 0x00000001;

// WGPUCullMode
pub const WGPUCullMode_None: u32 = 0x00000000;
pub const WGPUCullMode_Front: u32 = 0x00000001;
pub const WGPUCullMode_Back: u32 = 0x00000002;

// WGPUSurfaceGetCurrentTextureStatus
pub const WGPUSurfaceGetCurrentTextureStatus_Success: u32 = 0x00000000;
pub const WGPUSurfaceGetCurrentTextureStatus_Timeout: u32 = 0x00000001;
pub const WGPUSurfaceGetCurrentTextureStatus_Outdated: u32 = 0x00000002;
pub const WGPUSurfaceGetCurrentTextureStatus_Lost: u32 = 0x00000003;

// WGPUBufferMapAsyncStatus
pub const WGPUBufferMapAsyncStatus_Success: u32 = 0x00000000;
pub const WGPUBufferMapAsyncStatus_ValidationError: u32 = 0x00000001;
pub const WGPUBufferMapAsyncStatus_Unknown: u32 = 0x00000002;
pub const WGPUBufferMapAsyncStatus_DeviceLost: u32 = 0x00000003;
pub const WGPUBufferMapAsyncStatus_DestroyedBeforeCallback: u32 = 0x00000004;
pub const WGPUBufferMapAsyncStatus_UnmappedBeforeCallback: u32 = 0x00000005;
pub const WGPUBufferMapAsyncStatus_MappingAlreadyPending: u32 = 0x00000006;

// WGPUMapMode
pub const WGPUMapMode_None: u32 = 0x00000000;
pub const WGPUMapMode_Read: u32 = 0x00000001;
pub const WGPUMapMode_Write: u32 = 0x00000002;

// Sentinel values
pub const WGPU_WHOLE_SIZE: u64 = 0xFFFF_FFFF_FFFF_FFFF;
pub const WGPU_WHOLE_MAP_SIZE: usize = usize::MAX;
pub const WGPU_STRLEN: usize = usize::MAX;
pub const WGPU_MIP_LEVEL_COUNT_UNDEFINED: u32 = 0xFFFF_FFFF;
pub const WGPU_ARRAY_LAYER_COUNT_UNDEFINED: u32 = 0xFFFF_FFFF;
pub const WGPU_QUERY_SET_INDEX_UNDEFINED: u32 = 0xFFFF_FFFF;
pub const WGPU_DEPTH_SLICE_UNDEFINED: u32 = 0xFFFF_FFFF;

// WGPUTextureFormat
pub const WGPUTextureFormat_Undefined: u32 = 0x00;
pub const WGPUTextureFormat_R8Unorm: u32 = 0x01;
pub const WGPUTextureFormat_R8Snorm: u32 = 0x02;
pub const WGPUTextureFormat_R8Uint: u32 = 0x03;
pub const WGPUTextureFormat_R8Sint: u32 = 0x04;
pub const WGPUTextureFormat_R16Uint: u32 = 0x05;
pub const WGPUTextureFormat_R16Sint: u32 = 0x06;
pub const WGPUTextureFormat_R16Float: u32 = 0x07;
pub const WGPUTextureFormat_RG8Unorm: u32 = 0x08;
pub const WGPUTextureFormat_RG8Snorm: u32 = 0x09;
pub const WGPUTextureFormat_RG8Uint: u32 = 0x0A;
pub const WGPUTextureFormat_RG8Sint: u32 = 0x0B;
pub const WGPUTextureFormat_R32Float: u32 = 0x0C;
pub const WGPUTextureFormat_R32Uint: u32 = 0x0D;
pub const WGPUTextureFormat_R32Sint: u32 = 0x0E;
pub const WGPUTextureFormat_RG16Uint: u32 = 0x0F;
pub const WGPUTextureFormat_RG16Sint: u32 = 0x10;
pub const WGPUTextureFormat_RG16Float: u32 = 0x11;
pub const WGPUTextureFormat_RGBA8Unorm: u32 = 0x12;
pub const WGPUTextureFormat_RGBA8UnormSrgb: u32 = 0x13;
pub const WGPUTextureFormat_RGBA8Snorm: u32 = 0x14;
pub const WGPUTextureFormat_RGBA8Uint: u32 = 0x15;
pub const WGPUTextureFormat_RGBA8Sint: u32 = 0x16;
pub const WGPUTextureFormat_BGRA8Unorm: u32 = 0x17;
pub const WGPUTextureFormat_BGRA8UnormSrgb: u32 = 0x18;
pub const WGPUTextureFormat_RGB10A2Unorm: u32 = 0x19;
pub const WGPUTextureFormat_RG11B10Ufloat: u32 = 0x1A;
pub const WGPUTextureFormat_RGB9E5Ufloat: u32 = 0x1B;
pub const WGPUTextureFormat_RG32Float: u32 = 0x1C;
pub const WGPUTextureFormat_RG32Uint: u32 = 0x1D;
pub const WGPUTextureFormat_RG32Sint: u32 = 0x1E;
pub const WGPUTextureFormat_RGBA16Uint: u32 = 0x1F;
pub const WGPUTextureFormat_RGBA16Sint: u32 = 0x20;
pub const WGPUTextureFormat_RGBA16Float: u32 = 0x21;
pub const WGPUTextureFormat_RGBA32Float: u32 = 0x22;
pub const WGPUTextureFormat_RGBA32Uint: u32 = 0x23;
pub const WGPUTextureFormat_RGBA32Sint: u32 = 0x24;
pub const WGPUTextureFormat_Stencil8: u32 = 0x25;
pub const WGPUTextureFormat_Depth16Unorm: u32 = 0x26;
pub const WGPUTextureFormat_Depth24Plus: u32 = 0x27;
pub const WGPUTextureFormat_Depth24PlusStencil8: u32 = 0x28;
pub const WGPUTextureFormat_Depth24UnormStencil8: u32 = 0x29;
pub const WGPUTextureFormat_Depth32Float: u32 = 0x2A;
pub const WGPUTextureFormat_Depth32FloatStencil8: u32 = 0x2B;
pub const WGPUTextureFormat_BC1RGBAUnorm: u32 = 0x2C;
pub const WGPUTextureFormat_BC1RGBAUnormSrgb: u32 = 0x2D;
pub const WGPUTextureFormat_BC2RGBAUnorm: u32 = 0x2E;
pub const WGPUTextureFormat_BC2RGBAUnormSrgb: u32 = 0x2F;
pub const WGPUTextureFormat_BC3RGBAUnorm: u32 = 0x30;
pub const WGPUTextureFormat_BC3RGBAUnormSrgb: u32 = 0x31;
pub const WGPUTextureFormat_BC4RUnorm: u32 = 0x32;
pub const WGPUTextureFormat_BC4RSnorm: u32 = 0x33;
pub const WGPUTextureFormat_BC5RGUnorm: u32 = 0x34;
pub const WGPUTextureFormat_BC5RGSnorm: u32 = 0x35;
pub const WGPUTextureFormat_BC6HRGBUfloat: u32 = 0x36;
pub const WGPUTextureFormat_BC6HRGBFloat: u32 = 0x37;
pub const WGPUTextureFormat_BC7RGBAUnorm: u32 = 0x38;
pub const WGPUTextureFormat_BC7RGBAUnormSrgb: u32 = 0x39;
pub const WGPUTextureFormat_ETC2RGB8Unorm: u32 = 0x3A;
pub const WGPUTextureFormat_ETC2RGB8UnormSrgb: u32 = 0x3B;
pub const WGPUTextureFormat_ETC2RGB8A1Unorm: u32 = 0x3C;
pub const WGPUTextureFormat_ETC2RGB8A1UnormSrgb: u32 = 0x3D;
pub const WGPUTextureFormat_ETC2RGBA8Unorm: u32 = 0x3E;
pub const WGPUTextureFormat_ETC2RGBA8UnormSrgb: u32 = 0x3F;
pub const WGPUTextureFormat_EACR11Unorm: u32 = 0x40;
pub const WGPUTextureFormat_EACR11Snorm: u32 = 0x41;
pub const WGPUTextureFormat_EACRG11Unorm: u32 = 0x42;
pub const WGPUTextureFormat_EACRG11Snorm: u32 = 0x43;
pub const WGPUTextureFormat_ASTC4x4Unorm: u32 = 0x44;
pub const WGPUTextureFormat_ASTC4x4UnormSrgb: u32 = 0x45;
pub const WGPUTextureFormat_ASTC5x4Unorm: u32 = 0x46;
pub const WGPUTextureFormat_ASTC5x4UnormSrgb: u32 = 0x47;
pub const WGPUTextureFormat_ASTC5x5Unorm: u32 = 0x48;
pub const WGPUTextureFormat_ASTC5x5UnormSrgb: u32 = 0x49;
pub const WGPUTextureFormat_ASTC6x5Unorm: u32 = 0x4A;
pub const WGPUTextureFormat_ASTC6x5UnormSrgb: u32 = 0x4B;
pub const WGPUTextureFormat_ASTC6x6Unorm: u32 = 0x4C;
pub const WGPUTextureFormat_ASTC6x6UnormSrgb: u32 = 0x4D;
pub const WGPUTextureFormat_ASTC8x5Unorm: u32 = 0x4E;
pub const WGPUTextureFormat_ASTC8x5UnormSrgb: u32 = 0x4F;
pub const WGPUTextureFormat_ASTC8x6Unorm: u32 = 0x50;
pub const WGPUTextureFormat_ASTC8x6UnormSrgb: u32 = 0x51;
pub const WGPUTextureFormat_ASTC8x8Unorm: u32 = 0x52;
pub const WGPUTextureFormat_ASTC8x8UnormSrgb: u32 = 0x53;
pub const WGPUTextureFormat_ASTC10x5Unorm: u32 = 0x54;
pub const WGPUTextureFormat_ASTC10x5UnormSrgb: u32 = 0x55;
pub const WGPUTextureFormat_ASTC10x6Unorm: u32 = 0x56;
pub const WGPUTextureFormat_ASTC10x6UnormSrgb: u32 = 0x57;
pub const WGPUTextureFormat_ASTC10x8Unorm: u32 = 0x58;
pub const WGPUTextureFormat_ASTC10x8UnormSrgb: u32 = 0x59;
pub const WGPUTextureFormat_ASTC10x10Unorm: u32 = 0x5A;
pub const WGPUTextureFormat_ASTC10x10UnormSrgb: u32 = 0x5B;
pub const WGPUTextureFormat_ASTC12x10Unorm: u32 = 0x5C;
pub const WGPUTextureFormat_ASTC12x10UnormSrgb: u32 = 0x5D;
pub const WGPUTextureFormat_ASTC12x12Unorm: u32 = 0x5E;
pub const WGPUTextureFormat_ASTC12x12UnormSrgb: u32 = 0x5F;

// WGPUNativeTextureFormat
pub const WGPUNativeTextureFormat_R64Uint: u32 = 0x0003_0009;

// WGPUStorageTextureAccess, native extension
pub const WGPUStorageTextureAccess_Atomic: u32 = 0x0003_0001;

// WGPUSurfaceGetCurrentTextureStatus, native extension
pub const WGPUSurfaceGetCurrentTextureStatus_Occluded: u32 = 0x0003_0001;

// WGPUBufferUsage (64-bit flags)
pub const WGPUBufferUsage_BlasInput: u64 = 0x0000_0000_0000_0400;
pub const WGPUBufferUsage_TlasInput: u64 = 0x0000_0000_0000_0800;

} // verus!
