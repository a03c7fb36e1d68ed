//! Surfaces: the status of their textures, their capabilities, and presentation timestamps.
use vstd::prelude::*;

use crate::conv::{Extent3d, PresentMode, present_mode_code};
use crate::format::{texture_format_code, to_native_texture_format, TextureFormat};
use crate::native;

verus! {

/// How acquiring the next texture of a surface went.
#[derive(Clone, Copy, Debug, PartialEq, Eq, Structural)]
pub enum SurfaceStatus {
    Good,
    Suboptimal,
    Timeout,
    Occluded,
    Outdated,
    Lost,
    Validation,
}

/// A failure to acquire the next texture of a surface.
#[derive(Clone, Copy, Debug, PartialEq, Eq, Structural)]
pub enum SurfaceError {
    Timeout,
    Outdated,
    Lost,
}

/// The text of a surface failure.
pub open spec fn surface_error_message(e: SurfaceError) -> Seq<char> {
    match e {
        SurfaceError::Timeout => "Surface timed out"@,
        SurfaceError::Outdated => "Surface is outdated"@,
        SurfaceError::Lost => "Surface was lost"@,
    }
}

impl SurfaceError {
    /// The text of the failure.
    pub fn message(&self) -> (r: String)
        ensures
            r@ == surface_error_message(*self),
    {
        match self {
            SurfaceError::Timeout => String::from_str("Surface timed out"),
            SurfaceError::Outdated => String::from_str("Surface is outdated"),
            SurfaceError::Lost => String::from_str("Surface was lost"),
        }
    }
}

/// The failure that a status of a swap chain's texture reports, if it is one of those the
/// swap chain reports.
pub fn surface_error_of_status(status: SurfaceStatus) -> (r: Option<SurfaceError>)
    ensures
        r == match status {
            SurfaceStatus::Timeout => Some(SurfaceError::Timeout),
            SurfaceStatus::Outdated => Some(SurfaceError::Outdated),
            SurfaceStatus::Lost => Some(SurfaceError::Lost),
            _ => None,
        },
{
    match status {
        SurfaceStatus::Timeout => Some(SurfaceError::Timeout),
        SurfaceStatus::Outdated => Some(SurfaceError::Outdated),
        SurfaceStatus::Lost => Some(SurfaceError::Lost),
        _ => None,
    }
}

/// The C status of an acquired surface texture, and whether it is suboptimal.
#[derive(Clone, Copy, Debug, PartialEq, Eq, Structural)]
pub struct SurfaceTextureStatus {
    pub status: u32,
    pub suboptimal: bool,
}

/// The C status of an acquired surface texture: a good or suboptimal texture is a success,
/// only the latter suboptimal; an occluded window gives its own status, with no texture and the
/// surface left as configured; the statuses that the C interface has no number for give `None`.
pub fn map_surface_status(status: SurfaceStatus) -> (r: Option<SurfaceTextureStatus>)
    ensures
        r == match status {
            SurfaceStatus::Good => Some(SurfaceTextureStatus { status: native::WGPUSurfaceGetCurrentTextureStatus_Success, suboptimal: false }),
            SurfaceStatus::Suboptimal => Some(SurfaceTextureStatus { status: native::WGPUSurfaceGetCurrentTextureStatus_Success, suboptimal: true }),
            SurfaceStatus::Timeout => Some(SurfaceTextureStatus { status: native::WGPUSurfaceGetCurrentTextureStatus_Timeout, suboptimal: false }),
            SurfaceStatus::Outdated => Some(SurfaceTextureStatus { status: native::WGPUSurfaceGetCurrentTextureStatus_Outdated, suboptimal: false }),
            SurfaceStatus::Lost => Some(SurfaceTextureStatus { status: native::WGPUSurfaceGetCurrentTextureStatus_Lost, suboptimal: false }),
            SurfaceStatus::Occluded => Some(SurfaceTextureStatus { status: native::WGPUSurfaceGetCurrentTextureStatus_Occluded, suboptimal: false }),
            _ => None,
        },
{
    match status {
        SurfaceStatus::Good => Some(SurfaceTextureStatus { status: native::WGPUSurfaceGetCurrentTextureStatus_Success, suboptimal: false }),
        SurfaceStatus::Suboptimal => Some(SurfaceTextureStatus { status: native::WGPUSurfaceGetCurrentTextureStatus_Success, suboptimal: true }),
        SurfaceStatus::Timeout => Some(SurfaceTextureStatus { status: native::WGPUSurfaceGetCurrentTextureStatus_Timeout, suboptimal: false }),
        SurfaceStatus::Outdated => Some(SurfaceTextureStatus { status: native::WGPUSurfaceGetCurrentTextureStatus_Outdated, suboptimal: false }),
        SurfaceStatus::Lost => Some(SurfaceTextureStatus { status: native::WGPUSurfaceGetCurrentTextureStatus_Lost, suboptimal: false }),
        SurfaceStatus::Occluded => Some(SurfaceTextureStatus { status: native::WGPUSurfaceGetCurrentTextureStatus_Occluded, suboptimal: false }),
        _ => None,
    }
}

/// The C numbers of those formats of a list that the C interface has numbers for, in order.
pub open spec fn native_formats_of(formats: Seq<TextureFormat>) -> Seq<u32>
    decreases formats.len(),
{
    if formats.len() == 0 {
        Seq::empty()
    } else {
        let rest = native_formats_of(formats.drop_last());
        match texture_format_code(formats.last()) {
            Some(c) => rest.push(c),
            None => rest,
        }
    }
}

/// Lists the formats of a surface as C numbers, leaving out those the C interface has no
/// number for.
pub fn native_texture_formats(formats: &Vec<TextureFormat>) -> (r: Vec<u32>)
    ensures
        r@ == native_formats_of(formats@),
{
    let mut out: Vec<u32> = Vec::new();
    let mut i: usize = 0;
    while i < formats.len()
        invariant
            i <= formats@.len(),
            out@ == native_formats_of(formats@.subrange(0, i as int)),
        decreases formats.len() - i,
    {
        assert(formats@.subrange(0, i + 1).drop_last() == formats@.subrange(0, i as int));
        if let Some(code) = to_native_texture_format(formats[i]) {
            out.push(code);
        }
        i = i + 1;
    }
    assert(formats@.subrange(0, i as int) == formats@);
    out
}

/// Every number listed for a surface's formats names one of its formats, and every format of
/// it that the C interface has a number for is listed.
pub proof fn native_formats_are_exact(formats: Seq<TextureFormat>, c: u32)
    ensures
        native_formats_of(formats).contains(c) <==> exists|i: int|
            0 <= i < formats.len() && texture_format_code(#[trigger] formats[i]) == Some(c),
    decreases formats.len(),
{
    if formats.len() > 0 {
        let prefix = formats.drop_last();
        native_formats_are_exact(prefix, c);
        let rest = native_formats_of(prefix);
        let all = native_formats_of(formats);
        if exists|i: int| 0 <= i < prefix.len() && texture_format_code(#[trigger] prefix[i]) == Some(c) {
            let i = choose|i: int| 0 <= i < prefix.len() && texture_format_code(#[trigger] prefix[i]) == Some(c);
            assert(formats[i] == prefix[i]);
            let k = choose|k: int| 0 <= k < rest.len() && rest[k] == c;
            assert(all[k] == c);
        }
        if exists|i: int| 0 <= i < formats.len() && texture_format_code(#[trigger] formats[i]) == Some(c) {
            let i = choose|i: int| 0 <= i < formats.len() && texture_format_code(#[trigger] formats[i]) == Some(c);
            if i < formats.len() - 1 {
                assert(prefix[i] == formats[i]);
            } else {
                assert(all == rest.push(c));
                assert(all[rest.len() as int] == c);
            }
        }
        if all.contains(c) {
            let k = choose|k: int| 0 <= k < all.len() && all[k] == c;
            if k < rest.len() {
                assert(rest[k] == c);
            } else {
                assert(texture_format_code(formats[formats.len() - 1]) == Some(c));
            }
        }
    }
}

/// The modes of presentation that a surface can offer.
#[derive(Clone, Copy, Debug, PartialEq, Eq, Structural)]
pub enum SurfacePresentMode {
    AutoVsync,
    AutoNoVsync,
    Fifo,
    FifoRelaxed,
    Immediate,
    Mailbox,
}

/// The C number of a presentation mode, where the C interface has one.
pub open spec fn surface_present_mode_code(m: SurfacePresentMode) -> Option<u32> {
    match m {
        SurfacePresentMode::Fifo => Some(present_mode_code(PresentMode::Fifo)),
        SurfacePresentMode::Immediate => Some(present_mode_code(PresentMode::Immediate)),
        SurfacePresentMode::Mailbox => Some(present_mode_code(PresentMode::Mailbox)),
        _ => None,
    }
}

/// Converts a presentation mode to its C number, where the C interface has one.
pub fn to_native_present_mode(mode: SurfacePresentMode) -> (r: Option<u32>)
    ensures
        r == surface_present_mode_code(mode),
{
    match mode {
        SurfacePresentMode::Fifo => Some(native::WGPUPresentMode_Fifo),
        SurfacePresentMode::Immediate => Some(native::WGPUPresentMode_Immediate),
        SurfacePresentMode::Mailbox => Some(native::WGPUPresentMode_Mailbox),
        _ => None,
    }
}

/// The C numbers of those presentation modes of a list that the C interface has numbers for.
pub open spec fn native_present_modes_of(modes: Seq<SurfacePresentMode>) -> Seq<u32>
    decreases modes.len(),
{
    if modes.len() == 0 {
        Seq::empty()
    } else {
        let rest = native_present_modes_of(modes.drop_last());
        match surface_present_mode_code(modes.last()) {
            Some(c) => rest.push(c),
            None => rest,
        }
    }
}

/// Lists the presentation modes of a surface as C numbers, leaving out those the C interface
/// has no number for.
pub fn native_present_modes(modes: &Vec<SurfacePresentMode>) -> (r: Vec<u32>)
    ensures
        r@ == native_present_modes_of(modes@),
{
    let mut out: Vec<u32> = Vec::new();
    let mut i: usize = 0;
    while i < modes.len()
        invariant
            i <= modes@.len(),
            out@ == native_present_modes_of(modes@.subrange(0, i as int)),
        decreases modes.len() - i,
    {
        assert(modes@.subrange(0, i + 1).drop_last() == modes@.subrange(0, i as int));
        if let Some(code) = to_native_present_mode(modes[i]) {
            out.push(code);
        }
        i = i + 1;
    }
    assert(modes@.subrange(0, i as int) == modes@);
    out
}

/// What a configured surface records of the textures it hands out: a two-dimensional texture of
/// the configured size, usage and format, with one mip level, one layer and one sample.
#[derive(Clone, Copy, Debug, PartialEq, Eq, Structural)]
pub struct TextureData {
    pub usage: u32,
    pub dimension: u32,
    pub size: Extent3d,
    pub format: u32,
    pub mip_level_count: u32,
    pub sample_count: u32,
}

/// Records the textures that a surface configured with these values hands out.
pub fn surface_texture_data(usage: u32, format: u32, width: u32, height: u32) -> (r: TextureData)
    ensures
        r == (TextureData {
            usage,
            dimension: native::WGPUTextureDimension_2D,
            size: Extent3d { width, height, depth_or_array_layers: 1 },
            format,
            mip_level_count: 1,
            sample_count: 1,
        }),
{
    TextureData {
        usage,
        dimension: native::WGPUTextureDimension_2D,
        size: Extent3d { width, height, depth_or_array_layers: 1 },
        format,
        mip_level_count: 1,
        sample_count: 1,
    }
}

/// A presentation time as the C interface gives it: nanoseconds, with the largest value
/// standing for "not available".
#[derive(Clone, Copy, Debug, PartialEq, Eq, Structural)]
pub struct NativePresentationTimestamp {
    pub nanoseconds: u64,
}

/// The timestamp of the graphics library that stands for "not available".
pub const INVALID_TIMESTAMP: u128 = 0xFFFF_FFFF_FFFF_FFFF_FFFF_FFFF_FFFF_FFFF;

/// Converts a presentation time in nanoseconds: the unavailable timestamp, and any time too
/// large for 64 bits, become the largest value instead of wrapping; every other time is kept.
pub fn map_presentation_timestamp(timestamp: u128) -> (r: NativePresentationTimestamp)
    ensures
        r.nanoseconds == if timestamp == INVALID_TIMESTAMP || timestamp > u64::MAX {
            u64::MAX
        } else {
            timestamp as u64
        },
{
    if timestamp == INVALID_TIMESTAMP || timestamp > 0xFFFF_FFFF_FFFF_FFFFu128 {
        NativePresentationTimestamp { nanoseconds: 0xFFFF_FFFF_FFFF_FFFFu64 }
    } else {
        NativePresentationTimestamp { nanoseconds: timestamp as u64 }
    }
}

/// The presentation modes that the C interface names are numbered by the header constants of the
/// same names; the automatic modes and relaxed FIFO have no number.
pub proof fn surface_present_mode_numbers_are_the_header_constants()
    ensures
        surface_present_mode_code(SurfacePresentMode::Fifo) == Some(native::WGPUPresentMode_Fifo),
        surface_present_mode_code(SurfacePresentMode::Immediate) == Some(native::WGPUPresentMode_Immediate),
        surface_present_mode_code(SurfacePresentMode::Mailbox) == Some(native::WGPUPresentMode_Mailbox),
        surface_present_mode_code(SurfacePresentMode::AutoVsync) is None,
        surface_present_mode_code(SurfacePresentMode::AutoNoVsync) is None,
        surface_present_mode_code(SurfacePresentMode::FifoRelaxed) is None,
{
}

} // verus!
