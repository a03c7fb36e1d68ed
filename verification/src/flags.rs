//! Flag sets of the graphics library that the C interface hands over as plain bits.
use vstd::prelude::*;

verus! {

/// The bits of every shader stage that the graphics library defines (vertex, fragment,
/// compute, task, mesh, ray generation, any hit, closest hit, miss).
pub const SHADER_STAGES_ALL: u32 = 0x1FF;

/// The bits of every buffer usage that the graphics library defines.
pub const BUFFER_USAGES_ALL: u32 = 0xFFF;

/// The bits of every texture usage that the graphics library defines.
pub const TEXTURE_USAGES_ALL: u32 = 0x1003F;

/// The bits of every color channel of a write mask.
pub const COLOR_WRITES_ALL: u32 = 0xF;

/// Whether every set bit of `bits` is one of `all`.
pub open spec fn only_known_bits(bits: u32, all: u32) -> bool {
    bits | all == all
}

/// Calls `wgpu_types::ShaderStages::from_bits`, which gives the flags back where every set bit
/// is a defined shader stage, and `None` otherwise; the flags are handed on as their bits.
#[verifier::external_body]
pub(crate) fn shader_stages_from_bits(bits: u32) -> (r: Option<u32>)
    ensures
        r == if only_known_bits(bits, SHADER_STAGES_ALL) { Some(bits) } else { None::<u32> },
{
    match wgpu_types::ShaderStages::from_bits(bits) {
        Some(stages) => Some(stages.bits()),
        None => None,
    }
}

/// Calls `wgpu_types::BufferUsages::from_bits`, which gives the flags back where every set bit
/// is a defined buffer usage, and `None` otherwise; the flags are handed on as their bits.
#[verifier::external_body]
pub(crate) fn buffer_usages_from_bits(bits: u32) -> (r: Option<u32>)
    ensures
        r == if only_known_bits(bits, BUFFER_USAGES_ALL) { Some(bits) } else { None::<u32> },
{
    match wgpu_types::BufferUsages::from_bits(bits) {
        Some(usages) => Some(usages.bits()),
        None => None,
    }
}

/// Calls `wgpu_types::TextureUsages::from_bits`, which gives the flags back where every set bit
/// is a defined texture usage, and `None` otherwise; the flags are handed on as their bits.
#[verifier::external_body]
pub(crate) fn texture_usages_from_bits(bits: u32) -> (r: Option<u32>)
    ensures
        r == if only_known_bits(bits, TEXTURE_USAGES_ALL) { Some(bits) } else { None::<u32> },
{
    match wgpu_types::TextureUsages::from_bits(bits) {
        Some(usages) => Some(usages.bits()),
        None => None,
    }
}

/// Calls `wgpu_types::ColorWrites::from_bits`, which gives the flags back where every set bit
/// is a color channel, and `None` otherwise; the flags are handed on as their bits.
#[verifier::external_body]
pub(crate) fn color_writes_from_bits(bits: u32) -> (r: Option<u32>)
    ensures
        r == if only_known_bits(bits, COLOR_WRITES_ALL) { Some(bits) } else { None::<u32> },
{
    match wgpu_types::ColorWrites::from_bits(bits) {
        Some(writes) => Some(writes.bits()),
        None => None,
    }
}

} // verus!
