//! Shader modules: which of the sources a caller chained is compiled, and what the graphics
//! library is handed to compile it.
use vstd::prelude::*;

use crate::conv::{map_shader_stage, shader_stage_code, ShaderStage};

verus! {

/// A GLSL source as the C interface gives it: the number of its stage, its text, and its
/// preprocessor definitions as (name, value) pairs.
pub struct GlslSource {
    pub stage: u32,
    pub code: String,
    pub defines: Vec<(String, String)>,
}

/// What a shader module is created from, which the graphics library compiles: WGSL text, SPIR-V
/// words with the options to read them with, or GLSL text for a shader stage with its
/// preprocessor definitions as (name, value) pairs.
#[derive(Clone, Debug)]
pub enum ShaderModuleSource {
    Wgsl(String),
    SpirV { words: Vec<u32>, adjust_coordinate_space: bool, strict_capabilities: bool },
    Glsl { code: String, stage: ShaderStage, defines: Vec<(String, String)> },
}

/// Why no shader module source could be made.
#[derive(Clone, Debug)]
pub enum ShaderModuleError {
    /// The caller chained no source.
    NoSource,
    /// The stage of a GLSL source names no shader stage.
    UnknownGlslStage(u32),
}

/// A copy of preprocessor definitions.
fn clone_defines(defines: &Vec<(String, String)>) -> (r: Vec<(String, String)>)
    ensures
        r.deep_view() == defines.deep_view(),
{
    let mut out: Vec<(String, String)> = Vec::new();
    let mut i: usize = 0;
    while i < defines.len()
        invariant
            i <= defines@.len(),
            out@.len() == i,
            forall|k: int| 0 <= k < i ==> (#[trigger] out@[k]).0@ == defines@[k].0@ && out@[k].1@ == defines@[k].1@,
        decreases defines.len() - i,
    {
        let name = defines[i].0.clone();
        let value = defines[i].1.clone();
        out.push((name, value));
        i = i + 1;
    }
    assert(out.deep_view() =~= defines.deep_view());
    out
}

/// Whether a shader module is made from the sources a caller chained, and of what kind: WGSL
/// is taken as it is; else SPIR-V words are handed on to be read without flipping coordinates
/// and with only the known capabilities; else GLSL is handed on with its stage, which must name
/// one, and its definitions.
pub open spec fn shader_module_outcome(
    spirv: Option<Seq<u32>>,
    wgsl: Option<Seq<char>>,
    glsl: Option<(u32, Seq<(Seq<char>, Seq<char>)>, Seq<char>)>,
    r: Result<ShaderModuleSource, ShaderModuleError>,
) -> bool {
    match wgsl {
        Some(code) => r matches Ok(ShaderModuleSource::Wgsl(c)) && c@ == code,
        None => match spirv {
            Some(words) => r matches Ok(ShaderModuleSource::SpirV { words: w, adjust_coordinate_space, strict_capabilities })
                && w@ == words && !adjust_coordinate_space && strict_capabilities,
            None => match glsl {
                Some((stage_code, defines, code)) => if forall|s: ShaderStage| shader_stage_code(s) != stage_code {
                    r matches Err(ShaderModuleError::UnknownGlslStage(v)) && v == stage_code
                } else {
                    r matches Ok(ShaderModuleSource::Glsl { code: c, stage, defines: d })
                        && c@ == code && shader_stage_code(stage) == stage_code && d.deep_view() == defines
                },
                None => r matches Err(ShaderModuleError::NoSource),
            },
        },
    }
}

/// Makes the source of a shader module from the sources the caller chained: WGSL before SPIR-V
/// before GLSL. SPIR-V is handed on to be read without flipping coordinates and with only the
/// known capabilities; GLSL is handed on with its stage and its definitions.
pub fn map_shader_module(
    spirv: Option<&Vec<u32>>,
    wgsl: Option<&String>,
    glsl: Option<&GlslSource>,
) -> (r: Result<ShaderModuleSource, ShaderModuleError>)
    ensures
        shader_module_outcome(
            match spirv { Some(w) => Some(w@), None => None },
            match wgsl { Some(c) => Some(c@), None => None },
            match glsl { Some(g) => Some((g.stage, g.defines.deep_view(), g.code@)), None => None },
            r,
        ),
{
    if let Some(code) = wgsl {
        return Ok(ShaderModuleSource::Wgsl(code.clone()));
    }
    if let Some(words) = spirv {
        return Ok(ShaderModuleSource::SpirV {
            words: words.clone(),
            adjust_coordinate_space: false,
            strict_capabilities: true,
        });
    }
    match glsl {
        Some(source) => {
            let stage = match map_shader_stage(source.stage) {
                Ok(s) => s,
                Err(v) => return Err(ShaderModuleError::UnknownGlslStage(v)),
            };
            assert(shader_stage_code(stage) == source.stage);
            assert(forall|s: ShaderStage| shader_stage_code(s) == source.stage ==> s == stage);
            Ok(ShaderModuleSource::Glsl { code: source.code.clone(), stage, defines: clone_defines(&source.defines) })
        },
        None => Err(ShaderModuleError::NoSource),
    }
}

} // verus!
