use tickfork::animation::{AnimationMeta, AnimationStorage};
use tickfork::dither::DitherMode;
use tickfork::palette_lighting::{
    AlphaFunction, DitherCoordFunction, DitherFunction, PaletteCoordFunction, PaletteFunction,
    PaletteLightingShader, SdfGeometryFunction,
};
use tickfork::sdf_3d::{PositionFunction, Sdf3dModule, UvFunction};
use tickfork::shader_composer::{EmplaceError, ShaderStage, Source, SourceEx};
use tickfork::stack_machine::{Opcode, PCode, StackMachine, StackMachineUniform};

#[test]
fn builders_set_one_function_each() {
    let s = PaletteLightingShader::new()
        .with_dither_function(DitherFunction("return 0.5;".to_string()))
        .with_alpha_function(AlphaFunction("return a;".to_string()))
        .with_sdf_3d_module(Sdf3dModule::default());
    assert_eq!(s.function_dither.as_ref().unwrap().0, "return 0.5;");
    assert_eq!(s.function_alpha.as_ref().unwrap().0, "return a;");
    assert!(s.module_sdf.is_some());
    assert!(s.function_palette.is_none());
    let s = s
        .with_sdf_geometry_function(SdfGeometryFunction("g".to_string()))
        .with_dither_coord_function(DitherCoordFunction("d".to_string()))
        .with_palette_coord_function(PaletteCoordFunction("c".to_string()))
        .with_palette_function(PaletteFunction("p".to_string()));
    assert_eq!(s.function_palette.unwrap().0, "p");
    assert_eq!(s.function_palette_coord.unwrap().0, "c");
}

#[test]
fn function_text_and_emplacement() {
    let def = DitherFunction("return 1.0;".to_string()).definition();
    let (_, text) = def.pattern_and_text();
    assert_eq!(
        text,
        "fn dither_impl(\n    in: FragmentInput,\n    dither_uv: vec2<f32>,\n) -> f32 {\nreturn 1.0;\n}"
    );
    let mut src = Source::Wgsl(
        "a\n#[function]\nfn dither_impl(in: FragmentInput, dither_uv: vec2<f32>) -> f32 { return 0.0; }\nb"
            .to_string(),
    );
    assert_eq!(def.emplace(&mut src), Ok(()));
    match src {
        Source::Wgsl(t) => assert_eq!(t, format!("a\n{}\nb", text)),
        _ => panic!("language changed"),
    }
}

#[test]
fn emplacement_errors() {
    let def = UvFunction("return p.xy;".to_string()).definition();
    let mut src = Source::Glsl("void main() {}".to_string(), ShaderStage::Fragment);
    assert_eq!(def.emplace(&mut src), Err(EmplaceError::MissingEmplacement));
    let mut spirv = Source::SpirV(vec![1, 2, 3]);
    assert_eq!(def.emplace(&mut spirv), Err(EmplaceError::SpirV));
    assert_eq!(SourceEx::emplace(&mut src, "(", "x"), Err(EmplaceError::InvalidPattern));
}

#[test]
fn plain_emplacement_keeps_the_stage() {
    let mut src = Source::Glsl("module!(sdf_3d) rest".to_string(), ShaderStage::Vertex);
    assert_eq!(src.emplace(r"module!\(sdf_3d\)", "MODULE"), Ok(()));
    match src {
        Source::Glsl(t, stage) => {
            assert_eq!(t, "MODULE rest");
            assert_eq!(stage, ShaderStage::Vertex);
        }
        _ => panic!("language changed"),
    }
}

#[test]
fn dither_mode_definitions() {
    assert_eq!(DitherMode::default(), DitherMode::Disabled);
    assert_eq!(DitherMode::Disabled.shader_def(), Err(()));
    assert_eq!(DitherMode::Perlin.shader_def(), Ok("DITHER_PERLIN"));
    assert_eq!(DitherMode::Radial.shader_def(), Ok("DITHER_RADIAL"));
    assert_eq!(DitherMode::Manhattan.shader_def(), Ok("DITHER_MANHATTAN"));
    assert_eq!(DitherMode::Chebyshev.shader_def(), Ok("DITHER_CHEBYSHEV"));
}

#[test]
fn animation_storage_access() {
    let mut s = AnimationStorage::new(3u32);
    assert_eq!(*s.value(), 3);
    *s.value_mut() = 9;
    assert_eq!(s.into_value(), 9);
}

#[test]
fn stack_machine_push_and_pop() {
    let mut sm: StackMachine<i32> = StackMachine::default();
    sm.push(2);
    sm.push(4);
    assert_eq!(sm.read(), 4);
    *sm.write() = 5;
    assert_eq!(sm.pop2(), (5, 2));
    assert_eq!(sm.stack_pointer, -1);
    assert_eq!(sm.stack[0], 0);
    sm.push(7);
    assert_eq!(sm.pop(), 7);
}

#[test]
fn opcode_numbers() {
    let p: PCode<f32> = PCode(vec![
        Opcode::Literal(2.0),
        Opcode::Literal(4.0),
        Opcode::Mul,
        Opcode::Context(3),
        Opcode::Max,
        Opcode::Nop,
    ]);
    assert_eq!(p.codes(), vec![1, 1, 6, 2, 11, 0]);
}

#[test]
fn program_layout_for_the_shader() {
    let p: PCode<f32> = PCode(vec![
        Opcode::Literal(2.0),
        Opcode::Literal(4.0),
        Opcode::Mul,
        Opcode::Context(5),
        Opcode::Literal(0.5),
        Opcode::Div,
    ]);
    let u = StackMachineUniform::from_pcode(&p, 0.0);
    assert_eq!(u.pcode.len(), 16);
    assert_eq!(u.pcode[0], [1, 1, 6, 2]);
    assert_eq!(u.pcode[1], [1, 7, 0, 0]);
    assert_eq!(u.pcode[15], [0, 0, 0, 0]);
    assert_eq!(u.push_buf[0], [2.0, 4.0, 0.5, 0.0]);
    assert_eq!(u.push_buf[1], [0.0; 4]);
    assert_eq!(u.context_idx_buf[0], [5, 0, 0, 0]);
}

#[test]
fn module_composition() {
    let mut m = Sdf3dModule::default();
    m.function_position = Some(PositionFunction("return length(p) - 1.0;".to_string()));
    let base = Source::Wgsl(
        "head #[function]\nfn sdf_3d_position(p: vec3<f32>) -> f32 { return 0.0; }\nblock!(x) end".to_string(),
    );
    let out = m.compose(base).unwrap();
    assert_eq!(
        out.text().unwrap(),
        "head fn sdf_3d_position(\n    p: vec3<f32>,\n) -> f32 {\nreturn length(p) - 1.0;\n}\n end"
    );
}

#[test]
fn composition_without_overrides_strips_tags() {
    let m = Sdf3dModule::default();
    let out = m.compose(Source::Wgsl("a\n#[function]\nfn x() {}\nmodule!(foo) b".to_string())).unwrap();
    assert_eq!(out.text().unwrap(), "a\nfn x() {}\n b");
    assert_eq!(m.compose(Source::SpirV(vec![0])).unwrap_err(), EmplaceError::SpirV);
}

#[test]
fn shader_emplaces_module_then_functions() {
    let s = PaletteLightingShader::new()
        .with_sdf_3d_module(Sdf3dModule::default())
        .with_alpha_function(AlphaFunction("return 1.0;".to_string()));
    let mut src = Source::Wgsl(
        "module!(sdf_3d)\n#[function]\nfn alpha_impl(in: FragmentInput, sdf_out: SdfOutput, a: f32) -> f32 { return a; }"
            .to_string(),
    );
    assert_eq!(s.emplace(&mut src, "MOD"), Ok(()));
    assert_eq!(
        src.text().unwrap(),
        "MOD\nfn alpha_impl(\n    in: FragmentInput,\n    sdf_out: SdfOutput,\n    a: f32,\n) -> f32 {\nreturn 1.0;\n}"
    );
    let mut missing = Source::Wgsl("nothing to replace".to_string());
    let only_dither = PaletteLightingShader::new().with_dither_function(DitherFunction("x".to_string()));
    assert_eq!(only_dither.emplace(&mut missing, ""), Err(EmplaceError::MissingEmplacement));
    let mut untouched = Source::Wgsl("same".to_string());
    assert_eq!(PaletteLightingShader::new().emplace(&mut untouched, ""), Ok(()));
    assert_eq!(untouched.text().unwrap(), "same");
}

#[test]
fn animation_start_stop_toggle() {
    let mut meta = AnimationMeta::new();
    assert!(!meta.contains(1));
    meta.start(1);
    meta.start(1);
    assert!(meta.is_active(1));
    assert_eq!(meta.active, vec![1]);
    meta.stop(2);
    assert!(meta.contains(2) && !meta.is_active(2));
    meta.toggle(1);
    assert!(!meta.is_active(1) && meta.contains(1));
    meta.toggle(2);
    assert!(meta.is_active(2));
    assert!(meta.remove(1));
    assert!(!meta.remove(1));
    assert!(!meta.contains(1));
    assert_eq!(meta.active, vec![2]);
    assert!(meta.inactive.is_empty());
}
