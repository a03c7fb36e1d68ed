use wgpu_native::conv::ShaderStage;
use wgpu_native::native;
use wgpu_native::shader::{map_shader_module, GlslSource, ShaderModuleError, ShaderModuleSource};

const VERTEX_GLSL: &str = "#version 450\nvoid main() { gl_Position = vec4(SCALE); }\n";

fn minimal_spirv() -> Vec<u32> {
    vec![
        0x0723_0203, // magic number
        0x0001_0000, // version 1.0
        0,           // generator
        1,           // bound
        0,           // schema
        0x0002_0011, // OpCapability
        1,           //   Shader
        0x0003_000E, // OpMemoryModel
        0,           //   Logical
        1,           //   GLSL450
    ]
}

fn glsl(stage: u32, defines: Vec<(String, String)>) -> GlslSource {
    GlslSource { stage, code: String::from(VERTEX_GLSL), defines }
}

#[test]
fn wgsl_is_taken_first_and_unchanged() {
    let wgsl = String::from("@vertex fn main() -> @builtin(position) vec4<f32> { return vec4<f32>(); }");
    let words = minimal_spirv();
    match map_shader_module(Some(&words), Some(&wgsl), None) {
        Ok(ShaderModuleSource::Wgsl(code)) => assert_eq!(code, wgsl),
        _ => panic!("the WGSL source was not chosen"),
    }
}

#[test]
fn spirv_is_handed_on_before_glsl() {
    let words = minimal_spirv();
    let source = glsl(native::WGPUShaderStage_Vertex, vec![]);
    match map_shader_module(Some(&words), None, Some(&source)) {
        Ok(ShaderModuleSource::SpirV { words: w, adjust_coordinate_space, strict_capabilities }) => {
            assert_eq!(w, words);
            assert!(!adjust_coordinate_space);
            assert!(strict_capabilities);
        }
        _ => panic!("the SPIR-V source was not chosen"),
    }
}

#[test]
fn glsl_is_handed_on_with_its_stage_and_definitions() {
    let defines = vec![(String::from("SCALE"), String::from("1.0")), (String::from("N"), String::from("4"))];
    let source = glsl(native::WGPUShaderStage_Fragment, defines.clone());
    match map_shader_module(None, None, Some(&source)) {
        Ok(ShaderModuleSource::Glsl { code, stage, defines: d }) => {
            assert_eq!(code, VERTEX_GLSL);
            assert_eq!(stage, ShaderStage::Fragment);
            assert_eq!(d, defines);
        }
        _ => panic!("the GLSL source was not chosen"),
    }
}

#[test]
fn glsl_needs_a_known_stage() {
    let source = glsl(0x40, vec![(String::from("SCALE"), String::from("1.0"))]);
    assert!(matches!(map_shader_module(None, None, Some(&source)), Err(ShaderModuleError::UnknownGlslStage(0x40))));
}

#[test]
fn a_module_needs_a_source() {
    assert!(matches!(map_shader_module(None, None, None), Err(ShaderModuleError::NoSource)));
}
