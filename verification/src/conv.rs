//! Conversions from the numbers of the C interface to the enumerations of the graphics library.
use vstd::prelude::*;

use crate::flags::{buffer_usages_from_bits, only_known_bits, BUFFER_USAGES_ALL};
use crate::native;

verus! {

/// A load operation of a render pass attachment.
#[derive(Clone, Copy, Debug, PartialEq, Eq, Structural)]
pub enum LoadOp {
    Clear,
    Load,
}

/// The C number of each load operation of a render pass attachment.
pub open spec fn load_op_code(x: LoadOp) -> u32 {
    match x {
        LoadOp::Clear => native::WGPULoadOp_Clear,
        LoadOp::Load => native::WGPULoadOp_Load,
    }
}

/// Converts the C number of a load operation of a render pass attachment; a number that names none is handed back as the error.
pub fn map_load_op(value: u32) -> (r: Result<LoadOp, u32>)
    ensures
        forall|x: LoadOp| (r == Ok::<LoadOp, u32>(x)) <==> load_op_code(x) == value,
        r is Err ==> r == Err::<LoadOp, u32>(value),
{
    match value {
        native::WGPULoadOp_Clear => Ok(LoadOp::Clear),
        native::WGPULoadOp_Load => Ok(LoadOp::Load),
        x => Err(x),
    }
}

/// A store operation of a render pass attachment.
#[derive(Clone, Copy, Debug, PartialEq, Eq, Structural)]
pub enum StoreOp {
    Discard,
    Store,
}

/// The C number of each store operation of a render pass attachment.
pub open spec fn store_op_code(x: StoreOp) -> u32 {
    match x {
        StoreOp::Discard => native::WGPUStoreOp_Discard,
        StoreOp::Store => native::WGPUStoreOp_Store,
    }
}

/// Converts the C number of a store operation of a render pass attachment; a number that names none is handed back as the error.
pub fn map_store_op(value: u32) -> (r: Result<StoreOp, u32>)
    ensures
        forall|x: StoreOp| (r == Ok::<StoreOp, u32>(x)) <==> store_op_code(x) == value,
        r is Err ==> r == Err::<StoreOp, u32>(value),
{
    match value {
        native::WGPUStoreOp_Discard => Ok(StoreOp::Discard),
        native::WGPUStoreOp_Store => Ok(StoreOp::Store),
        x => Err(x),
    }
}

/// A sampler address mode.
#[derive(Clone, Copy, Debug, PartialEq, Eq, Structural)]
pub enum AddressMode {
    ClampToEdge,
    Repeat,
    MirrorRepeat,
}

/// The C number of each sampler address mode.
pub open spec fn address_mode_code(x: AddressMode) -> u32 {
    match x {
        AddressMode::ClampToEdge => native::WGPUAddressMode_ClampToEdge,
        AddressMode::Repeat => native::WGPUAddressMode_Repeat,
        AddressMode::MirrorRepeat => native::WGPUAddressMode_MirrorRepeat,
    }
}

/// Converts the C number of a sampler address mode; a number that names none is handed back as the error.
pub fn map_address_mode(value: u32) -> (r: Result<AddressMode, u32>)
    ensures
        forall|x: AddressMode| (r == Ok::<AddressMode, u32>(x)) <==> address_mode_code(x) == value,
        r is Err ==> r == Err::<AddressMode, u32>(value),
{
    match value {
        native::WGPUAddressMode_ClampToEdge => Ok(AddressMode::ClampToEdge),
        native::WGPUAddressMode_Repeat => Ok(AddressMode::Repeat),
        native::WGPUAddressMode_MirrorRepeat => Ok(AddressMode::MirrorRepeat),
        x => Err(x),
    }
}

/// A sampler filter mode.
#[derive(Clone, Copy, Debug, PartialEq, Eq, Structural)]
pub enum FilterMode {
    Nearest,
    Linear,
}

/// The C number of each sampler filter mode.
pub open spec fn filter_mode_code(x: FilterMode) -> u32 {
    match x {
        FilterMode::Nearest => native::WGPUFilterMode_Nearest,
        FilterMode::Linear => native::WGPUFilterMode_Linear,
    }
}

/// Converts the C number of a sampler filter mode; a number that names none is handed back as the error.
pub fn map_filter_mode(value: u32) -> (r: Result<FilterMode, u32>)
    ensures
        forall|x: FilterMode| (r == Ok::<FilterMode, u32>(x)) <==> filter_mode_code(x) == value,
        r is Err ==> r == Err::<FilterMode, u32>(value),
{
    match value {
        native::WGPUFilterMode_Nearest => Ok(FilterMode::Nearest),
        native::WGPUFilterMode_Linear => Ok(FilterMode::Linear),
        x => Err(x),
    }
}

/// The C number of each sampler mipmap filter mode.
pub open spec fn mipmap_filter_mode_code(x: FilterMode) -> u32 {
    match x {
        FilterMode::Nearest => native::WGPUMipmapFilterMode_Nearest,
        FilterMode::Linear => native::WGPUMipmapFilterMode_Linear,
    }
}

/// Converts the C number of a sampler mipmap filter mode; a number that names none is handed back as the error.
pub fn map_mipmap_filter_mode(value: u32) -> (r: Result<FilterMode, u32>)
    ensures
        forall|x: FilterMode| (r == Ok::<FilterMode, u32>(x)) <==> mipmap_filter_mode_code(x) == value,
        r is Err ==> r == Err::<FilterMode, u32>(value),
{
    match value {
        native::WGPUMipmapFilterMode_Nearest => Ok(FilterMode::Nearest),
        native::WGPUMipmapFilterMode_Linear => Ok(FilterMode::Linear),
        x => Err(x),
    }
}

/// A comparison function.
#[derive(Clone, Copy, Debug, PartialEq, Eq, Structural)]
pub enum CompareFunction {
    Never,
    Less,
    Equal,
    LessEqual,
    Greater,
    NotEqual,
    GreaterEqual,
    Always,
}

/// The C number of each comparison function.
pub open spec fn compare_function_code(x: CompareFunction) -> u32 {
    match x {
        CompareFunction::Never => native::WGPUCompareFunction_Never,
        CompareFunction::Less => native::WGPUCompareFunction_Less,
        CompareFunction::Equal => native::WGPUCompareFunction_Equal,
        CompareFunction::LessEqual => native::WGPUCompareFunction_LessEqual,
        CompareFunction::Greater => native::WGPUCompareFunction_Greater,
        CompareFunction::NotEqual => native::WGPUCompareFunction_NotEqual,
        CompareFunction::GreaterEqual => native::WGPUCompareFunction_GreaterEqual,
        CompareFunction::Always => native::WGPUCompareFunction_Always,
    }
}

/// Converts the C number of a comparison function; a number that names none is handed back as the error.
pub fn map_compare_function(value: u32) -> (r: Result<CompareFunction, u32>)
    ensures
        forall|x: CompareFunction| (r == Ok::<CompareFunction, u32>(x)) <==> compare_function_code(x) == value,
        r is Err ==> r == Err::<CompareFunction, u32>(value),
{
    match value {
        native::WGPUCompareFunction_Never => Ok(CompareFunction::Never),
        native::WGPUCompareFunction_Less => Ok(CompareFunction::Less),
        native::WGPUCompareFunction_Equal => Ok(CompareFunction::Equal),
        native::WGPUCompareFunction_LessEqual => Ok(CompareFunction::LessEqual),
        native::WGPUCompareFunction_Greater => Ok(CompareFunction::Greater),
        native::WGPUCompareFunction_NotEqual => Ok(CompareFunction::NotEqual),
        native::WGPUCompareFunction_GreaterEqual => Ok(CompareFunction::GreaterEqual),
        native::WGPUCompareFunction_Always => Ok(CompareFunction::Always),
        x => Err(x),
    }
}

/// A texture aspect.
#[derive(Clone, Copy, Debug, PartialEq, Eq, Structural)]
pub enum TextureAspect {
    All,
    StencilOnly,
    DepthOnly,
}

/// The C number of each texture aspect.
pub open spec fn texture_aspect_code(x: TextureAspect) -> u32 {
    match x {
        TextureAspect::All => native::WGPUTextureAspect_All,
        TextureAspect::StencilOnly => native::WGPUTextureAspect_StencilOnly,
        TextureAspect::DepthOnly => native::WGPUTextureAspect_DepthOnly,
    }
}

/// Converts the C number of a texture aspect; a number that names none is handed back as the error.
pub fn map_texture_aspect(value: u32) -> (r: Result<TextureAspect, u32>)
    ensures
        forall|x: TextureAspect| (r == Ok::<TextureAspect, u32>(x)) <==> texture_aspect_code(x) == value,
        r is Err ==> r == Err::<TextureAspect, u32>(value),
{
    match value {
        native::WGPUTextureAspect_All => Ok(TextureAspect::All),
        native::WGPUTextureAspect_StencilOnly => Ok(TextureAspect::StencilOnly),
        native::WGPUTextureAspect_DepthOnly => Ok(TextureAspect::DepthOnly),
        x => Err(x),
    }
}

/// A presentation mode.
#[derive(Clone, Copy, Debug, PartialEq, Eq, Structural)]
pub enum PresentMode {
    Immediate,
    Mailbox,
    Fifo,
}

/// The C number of each presentation mode.
pub open spec fn present_mode_code(x: PresentMode) -> u32 {
    match x {
        PresentMode::Immediate => native::WGPUPresentMode_Immediate,
        PresentMode::Mailbox => native::WGPUPresentMode_Mailbox,
        PresentMode::Fifo => native::WGPUPresentMode_Fifo,
    }
}

/// Converts the C number of a presentation mode; a number that names none is handed back as the error.
pub fn map_present_mode(value: u32) -> (r: Result<PresentMode, u32>)
    ensures
        forall|x: PresentMode| (r == Ok::<PresentMode, u32>(x)) <==> present_mode_code(x) == value,
        r is Err ==> r == Err::<PresentMode, u32>(value),
{
    match value {
        native::WGPUPresentMode_Immediate => Ok(PresentMode::Immediate),
        native::WGPUPresentMode_Mailbox => Ok(PresentMode::Mailbox),
        native::WGPUPresentMode_Fifo => Ok(PresentMode::Fifo),
        x => Err(x),
    }
}

/// A primitive topology.
#[derive(Clone, Copy, Debug, PartialEq, Eq, Structural)]
pub enum PrimitiveTopology {
    PointList,
    LineList,
    LineStrip,
    TriangleList,
    TriangleStrip,
}

/// The C number of each primitive topology.
pub open spec fn primitive_topology_code(x: PrimitiveTopology) -> u32 {
    match x {
        PrimitiveTopology::PointList => native::WGPUPrimitiveTopology_PointList,
        PrimitiveTopology::LineList => native::WGPUPrimitiveTopology_LineList,
        PrimitiveTopology::LineStrip => native::WGPUPrimitiveTopology_LineStrip,
        PrimitiveTopology::TriangleList => native::WGPUPrimitiveTopology_TriangleList,
        PrimitiveTopology::TriangleStrip => native::WGPUPrimitiveTopology_TriangleStrip,
    }
}

/// Converts the C number of a primitive topology; a number that names none is handed back as the error.
pub fn map_primitive_topology(value: u32) -> (r: Result<PrimitiveTopology, u32>)
    ensures
        forall|x: PrimitiveTopology| (r == Ok::<PrimitiveTopology, u32>(x)) <==> primitive_topology_code(x) == value,
        r is Err ==> r == Err::<PrimitiveTopology, u32>(value),
{
    match value {
        native::WGPUPrimitiveTopology_PointList => Ok(PrimitiveTopology::PointList),
        native::WGPUPrimitiveTopology_LineList => Ok(PrimitiveTopology::LineList),
        native::WGPUPrimitiveTopology_LineStrip => Ok(PrimitiveTopology::LineStrip),
        native::WGPUPrimitiveTopology_TriangleList => Ok(PrimitiveTopology::TriangleList),
        native::WGPUPrimitiveTopology_TriangleStrip => Ok(PrimitiveTopology::TriangleStrip),
        x => Err(x),
    }
}

/// A index format.
#[derive(Clone, Copy, Debug, PartialEq, Eq, Structural)]
pub enum IndexFormat {
    Uint16,
    Uint32,
}

/// The C number of each index format.
pub open spec fn index_format_code(x: IndexFormat) -> u32 {
    match x {
        IndexFormat::Uint16 => native::WGPUIndexFormat_Uint16,
        IndexFormat::Uint32 => native::WGPUIndexFormat_Uint32,
    }
}

/// Converts the C number of a index format; a number that names none is handed back as the error.
pub fn map_index_format(value: u32) -> (r: Result<IndexFormat, u32>)
    ensures
        forall|x: IndexFormat| (r == Ok::<IndexFormat, u32>(x)) <==> index_format_code(x) == value,
        r is Err ==> r == Err::<IndexFormat, u32>(value),
{
    match value {
        native::WGPUIndexFormat_Uint16 => Ok(IndexFormat::Uint16),
        native::WGPUIndexFormat_Uint32 => Ok(IndexFormat::Uint32),
        x => Err(x),
    }
}

/// A blend factor.
#[derive(Clone, Copy, Debug, PartialEq, Eq, Structural)]
pub enum BlendFactor {
    Zero,
    One,
    Src,
    OneMinusSrc,
    SrcAlpha,
    OneMinusSrcAlpha,
    Dst,
    OneMinusDst,
    DstAlpha,
    OneMinusDstAlpha,
    SrcAlphaSaturated,
    Constant,
    OneMinusConstant,
}

/// The C number of each blend factor.
pub open spec fn blend_factor_code(x: BlendFactor) -> u32 {
    match x {
        BlendFactor::Zero => native::WGPUBlendFactor_Zero,
        BlendFactor::One => native::WGPUBlendFactor_One,
        BlendFactor::Src => native::WGPUBlendFactor_Src,
        BlendFactor::OneMinusSrc => native::WGPUBlendFactor_OneMinusSrc,
        BlendFactor::SrcAlpha => native::WGPUBlendFactor_SrcAlpha,
        BlendFactor::OneMinusSrcAlpha => native::WGPUBlendFactor_OneMinusSrcAlpha,
        BlendFactor::Dst => native::WGPUBlendFactor_Dst,
        BlendFactor::OneMinusDst => native::WGPUBlendFactor_OneMinusDst,
        BlendFactor::DstAlpha => native::WGPUBlendFactor_DstAlpha,
        BlendFactor::OneMinusDstAlpha => native::WGPUBlendFactor_OneMinusDstAlpha,
        BlendFactor::SrcAlphaSaturated => native::WGPUBlendFactor_SrcAlphaSaturated,
        BlendFactor::Constant => native::WGPUBlendFactor_Constant,
        BlendFactor::OneMinusConstant => native::WGPUBlendFactor_OneMinusConstant,
    }
}

/// Converts the C number of a blend factor; a number that names none is handed back as the error.
pub fn map_blend_factor(value: u32) -> (r: Result<BlendFactor, u32>)
    ensures
        forall|x: BlendFactor| (r == Ok::<BlendFactor, u32>(x)) <==> blend_factor_code(x) == value,
        r is Err ==> r == Err::<BlendFactor, u32>(value),
{
    match value {
        native::WGPUBlendFactor_Zero => Ok(BlendFactor::Zero),
        native::WGPUBlendFactor_One => Ok(BlendFactor::One),
        native::WGPUBlendFactor_Src => Ok(BlendFactor::Src),
        native::WGPUBlendFactor_OneMinusSrc => Ok(BlendFactor::OneMinusSrc),
        native::WGPUBlendFactor_SrcAlpha => Ok(BlendFactor::SrcAlpha),
        native::WGPUBlendFactor_OneMinusSrcAlpha => Ok(BlendFactor::OneMinusSrcAlpha),
        native::WGPUBlendFactor_Dst => Ok(BlendFactor::Dst),
        native::WGPUBlendFactor_OneMinusDst => Ok(BlendFactor::OneMinusDst),
        native::WGPUBlendFactor_DstAlpha => Ok(BlendFactor::DstAlpha),
        native::WGPUBlendFactor_OneMinusDstAlpha => Ok(BlendFactor::OneMinusDstAlpha),
        native::WGPUBlendFactor_SrcAlphaSaturated => Ok(BlendFactor::SrcAlphaSaturated),
        native::WGPUBlendFactor_Constant => Ok(BlendFactor::Constant),
        native::WGPUBlendFactor_OneMinusConstant => Ok(BlendFactor::OneMinusConstant),
        x => Err(x),
    }
}

/// A blend operation.
#[derive(Clone, Copy, Debug, PartialEq, Eq, Structural)]
pub enum BlendOperation {
    Add,
    Subtract,
    ReverseSubtract,
    Min,
    Max,
}

/// The C number of each blend operation.
pub open spec fn blend_operation_code(x: BlendOperation) -> u32 {
    match x {
        BlendOperation::Add => native::WGPUBlendOperation_Add,
        BlendOperation::Subtract => native::WGPUBlendOperation_Subtract,
        BlendOperation::ReverseSubtract => native::WGPUBlendOperation_ReverseSubtract,
        BlendOperation::Min => native::WGPUBlendOperation_Min,
        BlendOperation::Max => native::WGPUBlendOperation_Max,
    }
}

/// Converts the C number of a blend operation; a number that names none is handed back as the error.
pub fn map_blend_operation(value: u32) -> (r: Result<BlendOperation, u32>)
    ensures
        forall|x: BlendOperation| (r == Ok::<BlendOperation, u32>(x)) <==> blend_operation_code(x) == value,
        r is Err ==> r == Err::<BlendOperation, u32>(value),
{
    match value {
        native::WGPUBlendOperation_Add => Ok(BlendOperation::Add),
        native::WGPUBlendOperation_Subtract => Ok(BlendOperation::Subtract),
        native::WGPUBlendOperation_ReverseSubtract => Ok(BlendOperation::ReverseSubtract),
        native::WGPUBlendOperation_Min => Ok(BlendOperation::Min),
        native::WGPUBlendOperation_Max => Ok(BlendOperation::Max),
        x => Err(x),
    }
}

/// A stencil operation.
#[derive(Clone, Copy, Debug, PartialEq, Eq, Structural)]
pub enum StencilOperation {
    Keep,
    Zero,
    Replace,
    Invert,
    IncrementClamp,
    DecrementClamp,
    IncrementWrap,
    DecrementWrap,
}

/// The C number of each stencil operation.
pub open spec fn stencil_operation_code(x: StencilOperation) -> u32 {
    match x {
        StencilOperation::Keep => native::WGPUStencilOperation_Keep,
        StencilOperation::Zero => native::WGPUStencilOperation_Zero,
        StencilOperation::Replace => native::WGPUStencilOperation_Replace,
        StencilOperation::Invert => native::WGPUStencilOperation_Invert,
        StencilOperation::IncrementClamp => native::WGPUStencilOperation_IncrementClamp,
        StencilOperation::DecrementClamp => native::WGPUStencilOperation_DecrementClamp,
        StencilOperation::IncrementWrap => native::WGPUStencilOperation_IncrementWrap,
        StencilOperation::DecrementWrap => native::WGPUStencilOperation_DecrementWrap,
    }
}

/// Converts the C number of a stencil operation; a number that names none is handed back as the error.
pub fn map_stencil_operation(value: u32) -> (r: Result<StencilOperation, u32>)
    ensures
        forall|x: StencilOperation| (r == Ok::<StencilOperation, u32>(x)) <==> stencil_operation_code(x) == value,
        r is Err ==> r == Err::<StencilOperation, u32>(value),
{
    match value {
        native::WGPUStencilOperation_Keep => Ok(StencilOperation::Keep),
        native::WGPUStencilOperation_Zero => Ok(StencilOperation::Zero),
        native::WGPUStencilOperation_Replace => Ok(StencilOperation::Replace),
        native::WGPUStencilOperation_Invert => Ok(StencilOperation::Invert),
        native::WGPUStencilOperation_IncrementClamp => Ok(StencilOperation::IncrementClamp),
        native::WGPUStencilOperation_DecrementClamp => Ok(StencilOperation::DecrementClamp),
        native::WGPUStencilOperation_IncrementWrap => Ok(StencilOperation::IncrementWrap),
        native::WGPUStencilOperation_DecrementWrap => Ok(StencilOperation::DecrementWrap),
        x => Err(x),
    }
}

/// A vertex attribute format.
#[derive(Clone, Copy, Debug, PartialEq, Eq, Structural)]
pub enum VertexFormat {
    Uint8x2,
    Uint8x4,
    Sint8x2,
    Sint8x4,
    Unorm8x2,
    Unorm8x4,
    Snorm8x2,
    Snorm8x4,
    Uint16x2,
    Uint16x4,
    Sint16x2,
    Sint16x4,
    Unorm16x2,
    Unorm16x4,
    Snorm16x2,
    Snorm16x4,
    Float16x2,
    Float16x4,
    Float32,
    Float32x2,
    Float32x3,
    Float32x4,
    Uint32,
    Uint32x2,
    Uint32x3,
    Uint32x4,
    Sint32,
    Sint32x2,
    Sint32x3,
    Sint32x4,
}

/// The C number of each vertex attribute format.
pub open spec fn vertex_format_code(x: VertexFormat) -> u32 {
    match x {
        VertexFormat::Uint8x2 => native::WGPUVertexFormat_Uint8x2,
        VertexFormat::Uint8x4 => native::WGPUVertexFormat_Uint8x4,
        VertexFormat::Sint8x2 => native::WGPUVertexFormat_Sint8x2,
        VertexFormat::Sint8x4 => native::WGPUVertexFormat_Sint8x4,
        VertexFormat::Unorm8x2 => native::WGPUVertexFormat_Unorm8x2,
        VertexFormat::Unorm8x4 => native::WGPUVertexFormat_Unorm8x4,
        VertexFormat::Snorm8x2 => native::WGPUVertexFormat_Snorm8x2,
        VertexFormat::Snorm8x4 => native::WGPUVertexFormat_Snorm8x4,
        VertexFormat::Uint16x2 => native::WGPUVertexFormat_Uint16x2,
        VertexFormat::Uint16x4 => native::WGPUVertexFormat_Uint16x4,
        VertexFormat::Sint16x2 => native::WGPUVertexFormat_Sint16x2,
        VertexFormat::Sint16x4 => native::WGPUVertexFormat_Sint16x4,
        VertexFormat::Unorm16x2 => native::WGPUVertexFormat_Unorm16x2,
        VertexFormat::Unorm16x4 => native::WGPUVertexFormat_Unorm16x4,
        VertexFormat::Snorm16x2 => native::WGPUVertexFormat_Snorm16x2,
        VertexFormat::Snorm16x4 => native::WGPUVertexFormat_Snorm16x4,
        VertexFormat::Float16x2 => native::WGPUVertexFormat_Float16x2,
        VertexFormat::Float16x4 => native::WGPUVertexFormat_Float16x4,
        VertexFormat::Float32 => native::WGPUVertexFormat_Float32,
        VertexFormat::Float32x2 => native::WGPUVertexFormat_Float32x2,
        VertexFormat::Float32x3 => native::WGPUVertexFormat_Float32x3,
        VertexFormat::Float32x4 => native::WGPUVertexFormat_Float32x4,
        VertexFormat::Uint32 => native::WGPUVertexFormat_Uint32,
        VertexFormat::Uint32x2 => native::WGPUVertexFormat_Uint32x2,
        VertexFormat::Uint32x3 => native::WGPUVertexFormat_Uint32x3,
        VertexFormat::Uint32x4 => native::WGPUVertexFormat_Uint32x4,
        VertexFormat::Sint32 => native::WGPUVertexFormat_Sint32,
        VertexFormat::Sint32x2 => native::WGPUVertexFormat_Sint32x2,
        VertexFormat::Sint32x3 => native::WGPUVertexFormat_Sint32x3,
        VertexFormat::Sint32x4 => native::WGPUVertexFormat_Sint32x4,
    }
}

/// Converts the C number of a vertex attribute format; a number that names none is handed back as the error.
pub fn map_vertex_format(value: u32) -> (r: Result<VertexFormat, u32>)
    ensures
        forall|x: VertexFormat| (r == Ok::<VertexFormat, u32>(x)) <==> vertex_format_code(x) == value,
        r is Err ==> r == Err::<VertexFormat, u32>(value),
{
    match value {
        native::WGPUVertexFormat_Uint8x2 => Ok(VertexFormat::Uint8x2),
        native::WGPUVertexFormat_Uint8x4 => Ok(VertexFormat::Uint8x4),
        native::WGPUVertexFormat_Sint8x2 => Ok(VertexFormat::Sint8x2),
        native::WGPUVertexFormat_Sint8x4 => Ok(VertexFormat::Sint8x4),
        native::WGPUVertexFormat_Unorm8x2 => Ok(VertexFormat::Unorm8x2),
        native::WGPUVertexFormat_Unorm8x4 => Ok(VertexFormat::Unorm8x4),
        native::WGPUVertexFormat_Snorm8x2 => Ok(VertexFormat::Snorm8x2),
        native::WGPUVertexFormat_Snorm8x4 => Ok(VertexFormat::Snorm8x4),
        native::WGPUVertexFormat_Uint16x2 => Ok(VertexFormat::Uint16x2),
        native::WGPUVertexFormat_Uint16x4 => Ok(VertexFormat::Uint16x4),
        native::WGPUVertexFormat_Sint16x2 => Ok(VertexFormat::Sint16x2),
        native::WGPUVertexFormat_Sint16x4 => Ok(VertexFormat::Sint16x4),
        native::WGPUVertexFormat_Unorm16x2 => Ok(VertexFormat::Unorm16x2),
        native::WGPUVertexFormat_Unorm16x4 => Ok(VertexFormat::Unorm16x4),
        native::WGPUVertexFormat_Snorm16x2 => Ok(VertexFormat::Snorm16x2),
        native::WGPUVertexFormat_Snorm16x4 => Ok(VertexFormat::Snorm16x4),
        native::WGPUVertexFormat_Float16x2 => Ok(VertexFormat::Float16x2),
        native::WGPUVertexFormat_Float16x4 => Ok(VertexFormat::Float16x4),
        native::WGPUVertexFormat_Float32 => Ok(VertexFormat::Float32),
        native::WGPUVertexFormat_Float32x2 => Ok(VertexFormat::Float32x2),
        native::WGPUVertexFormat_Float32x3 => Ok(VertexFormat::Float32x3),
        native::WGPUVertexFormat_Float32x4 => Ok(VertexFormat::Float32x4),
        native::WGPUVertexFormat_Uint32 => Ok(VertexFormat::Uint32),
        native::WGPUVertexFormat_Uint32x2 => Ok(VertexFormat::Uint32x2),
        native::WGPUVertexFormat_Uint32x3 => Ok(VertexFormat::Uint32x3),
        native::WGPUVertexFormat_Uint32x4 => Ok(VertexFormat::Uint32x4),
        native::WGPUVertexFormat_Sint32 => Ok(VertexFormat::Sint32),
        native::WGPUVertexFormat_Sint32x2 => Ok(VertexFormat::Sint32x2),
        native::WGPUVertexFormat_Sint32x3 => Ok(VertexFormat::Sint32x3),
        native::WGPUVertexFormat_Sint32x4 => Ok(VertexFormat::Sint32x4),
        x => Err(x),
    }
}

/// A shader stage.
#[derive(Clone, Copy, Debug, PartialEq, Eq, Structural)]
pub enum ShaderStage {
    Vertex,
    Fragment,
    Compute,
}

/// The C number of each shader stage.
pub open spec fn shader_stage_code(x: ShaderStage) -> u32 {
    match x {
        ShaderStage::Vertex => native::WGPUShaderStage_Vertex,
        ShaderStage::Fragment => native::WGPUShaderStage_Fragment,
        ShaderStage::Compute => native::WGPUShaderStage_Compute,
    }
}

/// Converts the C number of a shader stage; a number that names none is handed back as the error.
pub fn map_shader_stage(value: u32) -> (r: Result<ShaderStage, u32>)
    ensures
        forall|x: ShaderStage| (r == Ok::<ShaderStage, u32>(x)) <==> shader_stage_code(x) == value,
        r is Err ==> r == Err::<ShaderStage, u32>(value),
{
    match value {
        native::WGPUShaderStage_Vertex => Ok(ShaderStage::Vertex),
        native::WGPUShaderStage_Fragment => Ok(ShaderStage::Fragment),
        native::WGPUShaderStage_Compute => Ok(ShaderStage::Compute),
        x => Err(x),
    }
}

/// The dimension of a texture view.
#[derive(Clone, Copy, Debug, PartialEq, Eq, Structural)]
pub enum TextureViewDimension {
    D1,
    D2,
    D2Array,
    Cube,
    CubeArray,
    D3,
}

/// The C number of each texture view dimension.
pub open spec fn texture_view_dimension_code(x: TextureViewDimension) -> u32 {
    match x {
        TextureViewDimension::D1 => native::WGPUTextureViewDimension_1D,
        TextureViewDimension::D2 => native::WGPUTextureViewDimension_2D,
        TextureViewDimension::D2Array => native::WGPUTextureViewDimension_2DArray,
        TextureViewDimension::Cube => native::WGPUTextureViewDimension_Cube,
        TextureViewDimension::CubeArray => native::WGPUTextureViewDimension_CubeArray,
        TextureViewDimension::D3 => native::WGPUTextureViewDimension_3D,
    }
}

/// Converts the C number of a texture view dimension; `None` for the undefined dimension and
/// for any number that names none.
pub fn map_texture_view_dimension(value: u32) -> (r: Option<TextureViewDimension>)
    ensures
        forall|x: TextureViewDimension| (r == Some(x)) <==> texture_view_dimension_code(x) == value,
{
    match value {
        native::WGPUTextureViewDimension_1D => Some(TextureViewDimension::D1),
        native::WGPUTextureViewDimension_2D => Some(TextureViewDimension::D2),
        native::WGPUTextureViewDimension_2DArray => Some(TextureViewDimension::D2Array),
        native::WGPUTextureViewDimension_Cube => Some(TextureViewDimension::Cube),
        native::WGPUTextureViewDimension_CubeArray => Some(TextureViewDimension::CubeArray),
        native::WGPUTextureViewDimension_3D => Some(TextureViewDimension::D3),
        _ => None,
    }
}

/// The dimension of a texture.
#[derive(Clone, Copy, Debug, PartialEq, Eq, Structural)]
pub enum TextureDimension {
    D1,
    D2,
    D3,
}

/// The C number of each texture dimension.
pub open spec fn texture_dimension_code(x: TextureDimension) -> u32 {
    match x {
        TextureDimension::D1 => native::WGPUTextureDimension_1D,
        TextureDimension::D2 => native::WGPUTextureDimension_2D,
        TextureDimension::D3 => native::WGPUTextureDimension_3D,
    }
}

/// Converts the C number of a texture dimension; a number that names none is handed back as
/// the error.
pub fn map_texture_dimension(value: u32) -> (r: Result<TextureDimension, u32>)
    ensures
        forall|x: TextureDimension| (r == Ok::<TextureDimension, u32>(x)) <==> texture_dimension_code(x) == value,
        r is Err ==> r == Err::<TextureDimension, u32>(value),
{
    match value {
        native::WGPUTextureDimension_1D => Ok(TextureDimension::D1),
        native::WGPUTextureDimension_2D => Ok(TextureDimension::D2),
        native::WGPUTextureDimension_3D => Ok(TextureDimension::D3),
        x => Err(x),
    }
}

/// The size of a texture or of a copy (`WGPUExtent3D`).
#[derive(Clone, Copy, Debug, PartialEq, Eq, Structural)]
pub struct Extent3d {
    pub width: u32,
    pub height: u32,
    pub depth_or_array_layers: u32,
}

/// A position in a texture (`WGPUOrigin3D`).
#[derive(Clone, Copy, Debug, PartialEq, Eq, Structural)]
pub struct Origin3d {
    pub x: u32,
    pub y: u32,
    pub z: u32,
}

/// Copies a C size.
pub fn map_extent3d(width: u32, height: u32, depth_or_array_layers: u32) -> (r: Extent3d)
    ensures
        r == (Extent3d { width, height, depth_or_array_layers }),
{
    Extent3d { width, height, depth_or_array_layers }
}

/// Copies a C position.
pub fn map_origin3d(x: u32, y: u32, z: u32) -> (r: Origin3d)
    ensures
        r == (Origin3d { x, y, z }),
{
    Origin3d { x, y, z }
}

/// The part of a texture that a copy reads or writes, as the C interface gives it
/// (`WGPUImageCopyTexture`, without the texture handle).
#[derive(Clone, Copy, Debug, PartialEq, Eq, Structural)]
pub struct NativeImageCopyTexture {
    pub mip_level: u32,
    pub origin: Origin3d,
    pub aspect: u32,
}

/// The part of a texture that a copy reads or writes.
#[derive(Clone, Copy, Debug, PartialEq, Eq, Structural)]
pub struct ImageCopyTexture {
    pub mip_level: u32,
    pub origin: Origin3d,
    pub aspect: TextureAspect,
}

/// Converts the part of a texture that a copy touches; the aspect number is handed back as the
/// error where it names no aspect.
pub fn map_image_copy_texture(native: &NativeImageCopyTexture) -> (r: Result<ImageCopyTexture, u32>)
    ensures
        match r {
            Ok(t) => t.mip_level == native.mip_level && t.origin == native.origin
                && texture_aspect_code(t.aspect) == native.aspect,
            Err(v) => v == native.aspect && forall|a: TextureAspect| texture_aspect_code(a) != native.aspect,
        },
{
    match map_texture_aspect(native.aspect) {
        Ok(aspect) => Ok(ImageCopyTexture { mip_level: native.mip_level, origin: native.origin, aspect }),
        Err(v) => Err(v),
    }
}

/// The layout of texture data in a buffer, as the C interface gives it
/// (`WGPUTextureDataLayout`): zero stands for "not given".
#[derive(Clone, Copy, Debug, PartialEq, Eq, Structural)]
pub struct NativeTextureDataLayout {
    pub offset: u64,
    pub bytes_per_row: u32,
    pub rows_per_image: u32,
}

/// The layout of texture data in a buffer.
#[derive(Clone, Copy, Debug, PartialEq, Eq, Structural)]
pub struct TextureDataLayout {
    pub offset: u64,
    pub bytes_per_row: Option<u32>,
    pub rows_per_image: Option<u32>,
}

/// A number that the C interface gives as zero where it is not given.
pub open spec fn nonzero(v: u32) -> Option<u32> {
    if v == 0 { None } else { Some(v) }
}

/// Converts a C layout of texture data: a zero row pitch or zero rows per image means that it
/// is not given.
pub fn map_texture_data_layout(native: &NativeTextureDataLayout) -> (r: TextureDataLayout)
    ensures
        r.offset == native.offset,
        r.bytes_per_row == nonzero(native.bytes_per_row),
        r.rows_per_image == nonzero(native.rows_per_image),
{
    TextureDataLayout {
        offset: native.offset,
        bytes_per_row: if native.bytes_per_row == 0 { None } else { Some(native.bytes_per_row) },
        rows_per_image: if native.rows_per_image == 0 { None } else { Some(native.rows_per_image) },
    }
}

/// A buffer-side copy location (`WGPUImageCopyBuffer`, without the buffer handle).
pub fn map_image_copy_buffer(layout: &NativeTextureDataLayout) -> (r: TextureDataLayout)
    ensures
        r.offset == layout.offset,
        r.bytes_per_row == nonzero(layout.bytes_per_row),
        r.rows_per_image == nonzero(layout.rows_per_image),
{
    map_texture_data_layout(layout)
}

/// How a color or alpha channel is blended, as the C interface gives it.
#[derive(Clone, Copy, Debug, PartialEq, Eq, Structural)]
pub struct NativeBlendComponent {
    pub src_factor: u32,
    pub dst_factor: u32,
    pub operation: u32,
}

/// How a color or alpha channel is blended.
#[derive(Clone, Copy, Debug, PartialEq, Eq, Structural)]
pub struct BlendComponent {
    pub src_factor: BlendFactor,
    pub dst_factor: BlendFactor,
    pub operation: BlendOperation,
}

/// Whether a number names a blend factor.
pub open spec fn is_blend_factor(v: u32) -> bool {
    exists|f: BlendFactor| blend_factor_code(f) == v
}

/// Whether a number names a comparison function.
pub open spec fn is_compare_function(v: u32) -> bool {
    exists|c: CompareFunction| compare_function_code(c) == v
}

/// Whether a number names a vertex format.
pub open spec fn is_vertex_format(v: u32) -> bool {
    exists|f: VertexFormat| vertex_format_code(f) == v
}

/// Whether a number names a stencil operation.
pub open spec fn is_stencil_operation(v: u32) -> bool {
    exists|o: StencilOperation| stencil_operation_code(o) == v
}

/// Converts a C blend component; the first number that names nothing is handed back as the
/// error.
pub fn map_blend_component(native: &NativeBlendComponent) -> (r: Result<BlendComponent, u32>)
    ensures
        match r {
            Ok(b) => blend_factor_code(b.src_factor) == native.src_factor
                && blend_factor_code(b.dst_factor) == native.dst_factor
                && blend_operation_code(b.operation) == native.operation,
            Err(v) => if !is_blend_factor(native.src_factor) {
                v == native.src_factor
            } else if !is_blend_factor(native.dst_factor) {
                v == native.dst_factor
            } else {
                v == native.operation && forall|o: BlendOperation| blend_operation_code(o) != native.operation
            },
        },
{
    let src_factor = map_blend_factor(native.src_factor)?;
    assert(blend_factor_code(src_factor) == native.src_factor);
    let dst_factor = map_blend_factor(native.dst_factor)?;
    assert(blend_factor_code(dst_factor) == native.dst_factor);
    let operation = map_blend_operation(native.operation)?;
    Ok(BlendComponent { src_factor, dst_factor, operation })
}

/// The stencil test of one face, as the C interface gives it.
#[derive(Clone, Copy, Debug, PartialEq, Eq, Structural)]
pub struct NativeStencilFaceState {
    pub compare: u32,
    pub fail_op: u32,
    pub depth_fail_op: u32,
    pub pass_op: u32,
}

/// The stencil test of one face.
#[derive(Clone, Copy, Debug, PartialEq, Eq, Structural)]
pub struct StencilFaceState {
    pub compare: CompareFunction,
    pub fail_op: StencilOperation,
    pub depth_fail_op: StencilOperation,
    pub pass_op: StencilOperation,
}

/// Whether a stencil test of one face is the one the C numbers name.
pub open spec fn stencil_face_matches(st: StencilFaceState, native: NativeStencilFaceState) -> bool {
    &&& compare_function_code(st.compare) == native.compare
    &&& stencil_operation_code(st.fail_op) == native.fail_op
    &&& stencil_operation_code(st.depth_fail_op) == native.depth_fail_op
    &&& stencil_operation_code(st.pass_op) == native.pass_op
}

/// The first number of a C stencil test of one face that names nothing, if any.
pub open spec fn stencil_face_error(native: NativeStencilFaceState) -> Option<u32> {
    if !is_compare_function(native.compare) {
        Some(native.compare)
    } else if !is_stencil_operation(native.fail_op) {
        Some(native.fail_op)
    } else if !is_stencil_operation(native.depth_fail_op) {
        Some(native.depth_fail_op)
    } else if !is_stencil_operation(native.pass_op) {
        Some(native.pass_op)
    } else {
        None
    }
}

/// Converts the C stencil test of one face; the first number that names nothing is handed back
/// as the error.
pub fn map_stencil_face_state(native: &NativeStencilFaceState) -> (r: Result<StencilFaceState, u32>)
    ensures
        match r {
            Ok(st) => stencil_face_error(*native) is None && stencil_face_matches(st, *native),
            Err(v) => stencil_face_error(*native) == Some(v),
        },
{
    let compare = map_compare_function(native.compare)?;
    assert(compare_function_code(compare) == native.compare);
    let fail_op = map_stencil_operation(native.fail_op)?;
    assert(stencil_operation_code(fail_op) == native.fail_op);
    let depth_fail_op = map_stencil_operation(native.depth_fail_op)?;
    assert(stencil_operation_code(depth_fail_op) == native.depth_fail_op);
    let pass_op = map_stencil_operation(native.pass_op)?;
    assert(stencil_operation_code(pass_op) == native.pass_op);
    assert(is_compare_function(native.compare) && is_stencil_operation(native.fail_op)
        && is_stencil_operation(native.depth_fail_op) && is_stencil_operation(native.pass_op));
    Ok(StencilFaceState { compare, fail_op, depth_fail_op, pass_op })
}

/// The backend that an adapter is asked for: the one named by the adapter extension, or the
/// null backend where the caller chained no extension.
pub fn map_adapter_options(extras_backend: Option<u32>) -> (r: u32)
    ensures
        r == match extras_backend {
            Some(b) => b,
            None => native::WGPUBackendType_Null,
        },
{
    match extras_backend {
        Some(backend) => backend,
        None => native::WGPUBackendType_Null,
    }
}

/// How many elements of one kind the registry of the graphics library holds.
#[derive(Clone, Copy, Debug, PartialEq, Eq, Structural)]
pub struct StorageReport {
    pub num_occupied: usize,
    pub num_vacant: usize,
    pub num_error: usize,
    pub element_size: usize,
}

/// The counts of one kind of element as the C interface reports them.
#[derive(Clone, Copy, Debug, PartialEq, Eq, Structural)]
pub struct NativeStorageReport {
    pub num_occupied: usize,
    pub num_vacant: usize,
    pub num_error: usize,
    pub element_size: usize,
}

/// Converts the counts of one kind of element. The vacant count that the C interface receives
/// is the count of elements in error, not the count of vacant ones.
pub fn map_storage_report(report: &StorageReport) -> (r: NativeStorageReport)
    ensures
        r == (NativeStorageReport {
            num_occupied: report.num_occupied,
            num_vacant: report.num_error,
            num_error: report.num_error,
            element_size: report.element_size,
        }),
{
    NativeStorageReport {
        num_occupied: report.num_occupied,
        num_vacant: report.num_error,
        num_error: report.num_error,
        element_size: report.element_size,
    }
}

/// The counts of every kind of element of one backend.
#[derive(Clone, Copy, Debug, PartialEq, Eq, Structural)]
pub struct HubReport {
    pub adapters: StorageReport,
    pub devices: StorageReport,
    pub pipeline_layouts: StorageReport,
    pub shader_modules: StorageReport,
    pub bind_group_layouts: StorageReport,
    pub bind_groups: StorageReport,
    pub command_buffers: StorageReport,
    pub render_bundles: StorageReport,
    pub render_pipelines: StorageReport,
    pub compute_pipelines: StorageReport,
    pub query_sets: StorageReport,
    pub buffers: StorageReport,
    pub textures: StorageReport,
    pub texture_views: StorageReport,
    pub samplers: StorageReport,
}

/// The counts of every kind of element of one backend as the C interface reports them.
#[derive(Clone, Copy, Debug, PartialEq, Eq, Structural)]
pub struct NativeHubReport {
    pub adapters: NativeStorageReport,
    pub devices: NativeStorageReport,
    pub pipeline_layouts: NativeStorageReport,
    pub shader_modules: NativeStorageReport,
    pub bind_group_layouts: NativeStorageReport,
    pub bind_groups: NativeStorageReport,
    pub command_buffers: NativeStorageReport,
    pub render_bundles: NativeStorageReport,
    pub render_pipelines: NativeStorageReport,
    pub compute_pipelines: NativeStorageReport,
    pub query_sets: NativeStorageReport,
    pub buffers: NativeStorageReport,
    pub textures: NativeStorageReport,
    pub texture_views: NativeStorageReport,
    pub samplers: NativeStorageReport,
}

/// Converts the counts of every kind of element of one backend, kind by kind.
pub fn map_hub_report(report: &HubReport) -> (r: NativeHubReport)
    ensures
        r.adapters == map_storage_report_spec(report.adapters),
        r.devices == map_storage_report_spec(report.devices),
        r.pipeline_layouts == map_storage_report_spec(report.pipeline_layouts),
        r.shader_modules == map_storage_report_spec(report.shader_modules),
        r.bind_group_layouts == map_storage_report_spec(report.bind_group_layouts),
        r.bind_groups == map_storage_report_spec(report.bind_groups),
        r.command_buffers == map_storage_report_spec(report.command_buffers),
        r.render_bundles == map_storage_report_spec(report.render_bundles),
        r.render_pipelines == map_storage_report_spec(report.render_pipelines),
        r.compute_pipelines == map_storage_report_spec(report.compute_pipelines),
        r.query_sets == map_storage_report_spec(report.query_sets),
        r.buffers == map_storage_report_spec(report.buffers),
        r.textures == map_storage_report_spec(report.textures),
        r.texture_views == map_storage_report_spec(report.texture_views),
        r.samplers == map_storage_report_spec(report.samplers),
{
    NativeHubReport {
        adapters: map_storage_report(&report.adapters),
        devices: map_storage_report(&report.devices),
        pipeline_layouts: map_storage_report(&report.pipeline_layouts),
        shader_modules: map_storage_report(&report.shader_modules),
        bind_group_layouts: map_storage_report(&report.bind_group_layouts),
        bind_groups: map_storage_report(&report.bind_groups),
        command_buffers: map_storage_report(&report.command_buffers),
        render_bundles: map_storage_report(&report.render_bundles),
        render_pipelines: map_storage_report(&report.render_pipelines),
        compute_pipelines: map_storage_report(&report.compute_pipelines),
        query_sets: map_storage_report(&report.query_sets),
        buffers: map_storage_report(&report.buffers),
        textures: map_storage_report(&report.textures),
        texture_views: map_storage_report(&report.texture_views),
        samplers: map_storage_report(&report.samplers),
    }
}

/// The counts of one kind of element as the C interface receives them.
pub open spec fn map_storage_report_spec(report: StorageReport) -> NativeStorageReport {
    NativeStorageReport {
        num_occupied: report.num_occupied,
        num_vacant: report.num_error,
        num_error: report.num_error,
        element_size: report.element_size,
    }
}

/// Reads the 64-bit buffer usage flags of the C interface as the graphics library's buffer
/// usages: `None` where a bit is set that names no usage, the bits above the 32nd included.
pub fn buffer_usages_from_u64_bits(bits: u64) -> (r: Option<u32>)
    ensures
        r == if bits <= 0xFFFF_FFFF && only_known_bits(bits as u32, BUFFER_USAGES_ALL) {
            Some(bits as u32)
        } else {
            None::<u32>
        },
{
    if bits > 0xFFFF_FFFF {
        None
    } else {
        buffer_usages_from_bits(bits as u32)
    }
}

/// Each load operation of a render pass attachment is numbered by the header constant of the same name.
pub proof fn load_op_numbers_are_the_header_constants()
    ensures
        load_op_code(LoadOp::Clear) == native::WGPULoadOp_Clear,
        load_op_code(LoadOp::Load) == native::WGPULoadOp_Load,
{
}

/// Each store operation of a render pass attachment is numbered by the header constant of the same name.
pub proof fn store_op_numbers_are_the_header_constants()
    ensures
        store_op_code(StoreOp::Discard) == native::WGPUStoreOp_Discard,
        store_op_code(StoreOp::Store) == native::WGPUStoreOp_Store,
{
}

/// Each sampler address mode is numbered by the header constant of the same name.
pub proof fn address_mode_numbers_are_the_header_constants()
    ensures
        address_mode_code(AddressMode::ClampToEdge) == native::WGPUAddressMode_ClampToEdge,
        address_mode_code(AddressMode::Repeat) == native::WGPUAddressMode_Repeat,
        address_mode_code(AddressMode::MirrorRepeat) == native::WGPUAddressMode_MirrorRepeat,
{
}

/// Each sampler filter mode is numbered by the header constant of the same name.
pub proof fn filter_mode_numbers_are_the_header_constants()
    ensures
        filter_mode_code(FilterMode::Nearest) == native::WGPUFilterMode_Nearest,
        filter_mode_code(FilterMode::Linear) == native::WGPUFilterMode_Linear,
{
}

/// Each sampler mipmap filter mode is numbered by the header constant of the same name.
pub proof fn mipmap_filter_mode_numbers_are_the_header_constants()
    ensures
        mipmap_filter_mode_code(FilterMode::Nearest) == native::WGPUMipmapFilterMode_Nearest,
        mipmap_filter_mode_code(FilterMode::Linear) == native::WGPUMipmapFilterMode_Linear,
{
}

/// Each comparison function is numbered by the header constant of the same name.
pub proof fn compare_function_numbers_are_the_header_constants()
    ensures
        compare_function_code(CompareFunction::Never) == native::WGPUCompareFunction_Never,
        compare_function_code(CompareFunction::Less) == native::WGPUCompareFunction_Less,
        compare_function_code(CompareFunction::Equal) == native::WGPUCompareFunction_Equal,
        compare_function_code(CompareFunction::LessEqual) == native::WGPUCompareFunction_LessEqual,
        compare_function_code(CompareFunction::Greater) == native::WGPUCompareFunction_Greater,
        compare_function_code(CompareFunction::NotEqual) == native::WGPUCompareFunction_NotEqual,
        compare_function_code(CompareFunction::GreaterEqual) == native::WGPUCompareFunction_GreaterEqual,
        compare_function_code(CompareFunction::Always) == native::WGPUCompareFunction_Always,
{
}

/// Each texture aspect is numbered by the header constant of the same name.
pub proof fn texture_aspect_numbers_are_the_header_constants()
    ensures
        texture_aspect_code(TextureAspect::All) == native::WGPUTextureAspect_All,
        texture_aspect_code(TextureAspect::StencilOnly) == native::WGPUTextureAspect_StencilOnly,
        texture_aspect_code(TextureAspect::DepthOnly) == native::WGPUTextureAspect_DepthOnly,
{
}

/// Each presentation mode is numbered by the header constant of the same name.
pub proof fn present_mode_numbers_are_the_header_constants()
    ensures
        present_mode_code(PresentMode::Immediate) == native::WGPUPresentMode_Immediate,
        present_mode_code(PresentMode::Mailbox) == native::WGPUPresentMode_Mailbox,
        present_mode_code(PresentMode::Fifo) == native::WGPUPresentMode_Fifo,
{
}

/// Each primitive topology is numbered by the header constant of the same name.
pub proof fn primitive_topology_numbers_are_the_header_constants()
    ensures
        primitive_topology_code(PrimitiveTopology::PointList) == native::WGPUPrimitiveTopology_PointList,
        primitive_topology_code(PrimitiveTopology::LineList) == native::WGPUPrimitiveTopology_LineList,
        primitive_topology_code(PrimitiveTopology::LineStrip) == native::WGPUPrimitiveTopology_LineStrip,
        primitive_topology_code(PrimitiveTopology::TriangleList) == native::WGPUPrimitiveTopology_TriangleList,
        primitive_topology_code(PrimitiveTopology::TriangleStrip) == native::WGPUPrimitiveTopology_TriangleStrip,
{
}

/// Each index format is numbered by the header constant of the same name.
pub proof fn index_format_numbers_are_the_header_constants()
    ensures
        index_format_code(IndexFormat::Uint16) == native::WGPUIndexFormat_Uint16,
        index_format_code(IndexFormat::Uint32) == native::WGPUIndexFormat_Uint32,
{
}

/// Each blend factor is numbered by the header constant of the same name.
pub proof fn blend_factor_numbers_are_the_header_constants()
    ensures
        blend_factor_code(BlendFactor::Zero) == native::WGPUBlendFactor_Zero,
        blend_factor_code(BlendFactor::One) == native::WGPUBlendFactor_One,
        blend_factor_code(BlendFactor::Src) == native::WGPUBlendFactor_Src,
        blend_factor_code(BlendFactor::OneMinusSrc) == native::WGPUBlendFactor_OneMinusSrc,
        blend_factor_code(BlendFactor::SrcAlpha) == native::WGPUBlendFactor_SrcAlpha,
        blend_factor_code(BlendFactor::OneMinusSrcAlpha) == native::WGPUBlendFactor_OneMinusSrcAlpha,
        blend_factor_code(BlendFactor::Dst) == native::WGPUBlendFactor_Dst,
        blend_factor_code(BlendFactor::OneMinusDst) == native::WGPUBlendFactor_OneMinusDst,
        blend_factor_code(BlendFactor::DstAlpha) == native::WGPUBlendFactor_DstAlpha,
        blend_factor_code(BlendFactor::OneMinusDstAlpha) == native::WGPUBlendFactor_OneMinusDstAlpha,
        blend_factor_code(BlendFactor::SrcAlphaSaturated) == native::WGPUBlendFactor_SrcAlphaSaturated,
        blend_factor_code(BlendFactor::Constant) == native::WGPUBlendFactor_Constant,
        blend_factor_code(BlendFactor::OneMinusConstant) == native::WGPUBlendFactor_OneMinusConstant,
{
}

/// Each blend operation is numbered by the header constant of the same name.
pub proof fn blend_operation_numbers_are_the_header_constants()
    ensures
        blend_operation_code(BlendOperation::Add) == native::WGPUBlendOperation_Add,
        blend_operation_code(BlendOperation::Subtract) == native::WGPUBlendOperation_Subtract,
        blend_operation_code(BlendOperation::ReverseSubtract) == native::WGPUBlendOperation_ReverseSubtract,
        blend_operation_code(BlendOperation::Min) == native::WGPUBlendOperation_Min,
        blend_operation_code(BlendOperation::Max) == native::WGPUBlendOperation_Max,
{
}

/// Each stencil operation is numbered by the header constant of the same name.
pub proof fn stencil_operation_numbers_are_the_header_constants()
    ensures
        stencil_operation_code(StencilOperation::Keep) == native::WGPUStencilOperation_Keep,
        stencil_operation_code(StencilOperation::Zero) == native::WGPUStencilOperation_Zero,
        stencil_operation_code(StencilOperation::Replace) == native::WGPUStencilOperation_Replace,
        stencil_operation_code(StencilOperation::Invert) == native::WGPUStencilOperation_Invert,
        stencil_operation_code(StencilOperation::IncrementClamp) == native::WGPUStencilOperation_IncrementClamp,
        stencil_operation_code(StencilOperation::DecrementClamp) == native::WGPUStencilOperation_DecrementClamp,
        stencil_operation_code(StencilOperation::IncrementWrap) == native::WGPUStencilOperation_IncrementWrap,
        stencil_operation_code(StencilOperation::DecrementWrap) == native::WGPUStencilOperation_DecrementWrap,
{
}

/// Each vertex attribute format is numbered by the header constant of the same name.
pub proof fn vertex_format_numbers_are_the_header_constants()
    ensures
        vertex_format_code(VertexFormat::Uint8x2) == native::WGPUVertexFormat_Uint8x2,
        vertex_format_code(VertexFormat::Uint8x4) == native::WGPUVertexFormat_Uint8x4,
        vertex_format_code(VertexFormat::Sint8x2) == native::WGPUVertexFormat_Sint8x2,
        vertex_format_code(VertexFormat::Sint8x4) == native::WGPUVertexFormat_Sint8x4,
        vertex_format_code(VertexFormat::Unorm8x2) == native::WGPUVertexFormat_Unorm8x2,
        vertex_format_code(VertexFormat::Unorm8x4) == native::WGPUVertexFormat_Unorm8x4,
        vertex_format_code(VertexFormat::Snorm8x2) == native::WGPUVertexFormat_Snorm8x2,
        vertex_format_code(VertexFormat::Snorm8x4) == native::WGPUVertexFormat_Snorm8x4,
        vertex_format_code(VertexFormat::Uint16x2) == native::WGPUVertexFormat_Uint16x2,
        vertex_format_code(VertexFormat::Uint16x4) == native::WGPUVertexFormat_Uint16x4,
        vertex_format_code(VertexFormat::Sint16x2) == native::WGPUVertexFormat_Sint16x2,
        vertex_format_code(VertexFormat::Sint16x4) == native::WGPUVertexFormat_Sint16x4,
        vertex_format_code(VertexFormat::Unorm16x2) == native::WGPUVertexFormat_Unorm16x2,
        vertex_format_code(VertexFormat::Unorm16x4) == native::WGPUVertexFormat_Unorm16x4,
        vertex_format_code(VertexFormat::Snorm16x2) == native::WGPUVertexFormat_Snorm16x2,
        vertex_format_code(VertexFormat::Snorm16x4) == native::WGPUVertexFormat_Snorm16x4,
        vertex_format_code(VertexFormat::Float16x2) == native::WGPUVertexFormat_Float16x2,
        vertex_format_code(VertexFormat::Float16x4) == native::WGPUVertexFormat_Float16x4,
        vertex_format_code(VertexFormat::Float32) == native::WGPUVertexFormat_Float32,
        vertex_format_code(VertexFormat::Float32x2) == native::WGPUVertexFormat_Float32x2,
        vertex_format_code(VertexFormat::Float32x3) == native::WGPUVertexFormat_Float32x3,
        vertex_format_code(VertexFormat::Float32x4) == native::WGPUVertexFormat_Float32x4,
        vertex_format_code(VertexFormat::Uint32) == native::WGPUVertexFormat_Uint32,
        vertex_format_code(VertexFormat::Uint32x2) == native::WGPUVertexFormat_Uint32x2,
        vertex_format_code(VertexFormat::Uint32x3) == native::WGPUVertexFormat_Uint32x3,
        vertex_format_code(VertexFormat::Uint32x4) == native::WGPUVertexFormat_Uint32x4,
        vertex_format_code(VertexFormat::Sint32) == native::WGPUVertexFormat_Sint32,
        vertex_format_code(VertexFormat::Sint32x2) == native::WGPUVertexFormat_Sint32x2,
        vertex_format_code(VertexFormat::Sint32x3) == native::WGPUVertexFormat_Sint32x3,
        vertex_format_code(VertexFormat::Sint32x4) == native::WGPUVertexFormat_Sint32x4,
{
}

/// Each shader stage is numbered by the header constant of the same name.
pub proof fn shader_stage_numbers_are_the_header_constants()
    ensures
        shader_stage_code(ShaderStage::Vertex) == native::WGPUShaderStage_Vertex,
        shader_stage_code(ShaderStage::Fragment) == native::WGPUShaderStage_Fragment,
        shader_stage_code(ShaderStage::Compute) == native::WGPUShaderStage_Compute,
{
}

/// Each texture view dimension is numbered by the header constant of the same name.
pub proof fn texture_view_dimension_numbers_are_the_header_constants()
    ensures
        texture_view_dimension_code(TextureViewDimension::D1) == native::WGPUTextureViewDimension_1D,
        texture_view_dimension_code(TextureViewDimension::D2) == native::WGPUTextureViewDimension_2D,
        texture_view_dimension_code(TextureViewDimension::D2Array) == native::WGPUTextureViewDimension_2DArray,
        texture_view_dimension_code(TextureViewDimension::Cube) == native::WGPUTextureViewDimension_Cube,
        texture_view_dimension_code(TextureViewDimension::CubeArray) == native::WGPUTextureViewDimension_CubeArray,
        texture_view_dimension_code(TextureViewDimension::D3) == native::WGPUTextureViewDimension_3D,
{
}

/// Each texture dimension is numbered by the header constant of the same name.
pub proof fn texture_dimension_numbers_are_the_header_constants()
    ensures
        texture_dimension_code(TextureDimension::D1) == native::WGPUTextureDimension_1D,
        texture_dimension_code(TextureDimension::D2) == native::WGPUTextureDimension_2D,
        texture_dimension_code(TextureDimension::D3) == native::WGPUTextureDimension_3D,
{
}

} // verus!
