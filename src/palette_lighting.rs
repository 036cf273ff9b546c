use vstd::prelude::*;
use vstd::string::StringExecFns;

use crate::shader_composer::{
    composed, emplace_all, emplace_all_post, function_pattern, function_text, input_views, step_views,
    step_of, strip_tags,
    text_of, EmplaceError, ShaderFunctionDef, Source,
};

use crate::sdf_3d::Sdf3dModule;

verus! {

/// The body of the geometry function of a signed-distance surface.
#[derive(Debug, Clone)]
pub struct SdfGeometryFunction(pub String);

/// The body of the function that places the dither pattern.
#[derive(Debug, Clone)]
pub struct DitherCoordFunction(pub String);

/// The body of the function that samples the dither pattern.
#[derive(Debug, Clone)]
pub struct DitherFunction(pub String);

/// The body of the function that picks a palette coordinate.
#[derive(Debug, Clone)]
pub struct PaletteCoordFunction(pub String);

/// The body of the function that samples the palette.
#[derive(Debug, Clone)]
pub struct PaletteFunction(pub String);

/// The body of the function that computes a fragment's alpha.
#[derive(Debug, Clone)]
pub struct AlphaFunction(pub String);

/// The palette-lighting shader, with each function it lets a user
/// override either set or left at its default.
#[derive(Debug, Clone)]
pub struct PaletteLightingShader {
    pub module_sdf: Option<Sdf3dModule>,
    pub function_sdf_geometry: Option<SdfGeometryFunction>,
    pub function_dither_coord: Option<DitherCoordFunction>,
    pub function_dither: Option<DitherFunction>,
    pub function_palette_coord: Option<PaletteCoordFunction>,
    pub function_palette: Option<PaletteFunction>,
    pub function_alpha: Option<AlphaFunction>,
}

impl PaletteLightingShader {
    /// A shader that overrides nothing.
    pub fn new() -> (r: PaletteLightingShader)
        ensures
            r.module_sdf.is_none(),
            r.function_sdf_geometry.is_none(),
            r.function_dither_coord.is_none(),
            r.function_dither.is_none(),
            r.function_palette_coord.is_none(),
            r.function_palette.is_none(),
            r.function_alpha.is_none(),
    {
        PaletteLightingShader {
            module_sdf: None,
            function_sdf_geometry: None,
            function_dither_coord: None,
            function_dither: None,
            function_palette_coord: None,
            function_palette: None,
            function_alpha: None,
        }
    }

    /// This shader with `m` set in place of its `module_sdf`.
    pub fn with_sdf_3d_module(self, m: Sdf3dModule) -> (r: PaletteLightingShader)
        ensures
            r.module_sdf == Some(m),
            r.function_sdf_geometry == self.function_sdf_geometry,
            r.function_dither_coord == self.function_dither_coord,
            r.function_dither == self.function_dither,
            r.function_palette_coord == self.function_palette_coord,
            r.function_palette == self.function_palette,
            r.function_alpha == self.function_alpha,
    {
        let mut s = self;
        s.module_sdf = Some(m);
        s
    }

    /// This shader with `f` set in place of its `function_sdf_geometry`.
    pub fn with_sdf_geometry_function(self, f: SdfGeometryFunction) -> (r: PaletteLightingShader)
        ensures
            r.module_sdf == self.module_sdf,
            r.function_sdf_geometry == Some(f),
            r.function_dither_coord == self.function_dither_coord,
            r.function_dither == self.function_dither,
            r.function_palette_coord == self.function_palette_coord,
            r.function_palette == self.function_palette,
            r.function_alpha == self.function_alpha,
    {
        let mut s = self;
        s.function_sdf_geometry = Some(f);
        s
    }

    /// This shader with `f` set in place of its `function_dither_coord`.
    pub fn with_dither_coord_function(self, f: DitherCoordFunction) -> (r: PaletteLightingShader)
        ensures
            r.module_sdf == self.module_sdf,
            r.function_sdf_geometry == self.function_sdf_geometry,
            r.function_dither_coord == Some(f),
            r.function_dither == self.function_dither,
            r.function_palette_coord == self.function_palette_coord,
            r.function_palette == self.function_palette,
            r.function_alpha == self.function_alpha,
    {
        let mut s = self;
        s.function_dither_coord = Some(f);
        s
    }

    /// This shader with `f` set in place of its `function_dither`.
    pub fn with_dither_function(self, f: DitherFunction) -> (r: PaletteLightingShader)
        ensures
            r.module_sdf == self.module_sdf,
            r.function_sdf_geometry == self.function_sdf_geometry,
            r.function_dither_coord == self.function_dither_coord,
            r.function_dither == Some(f),
            r.function_palette_coord == self.function_palette_coord,
            r.function_palette == self.function_palette,
            r.function_alpha == self.function_alpha,
    {
        let mut s = self;
        s.function_dither = Some(f);
        s
    }

    /// This shader with `f` set in place of its `function_palette_coord`.
    pub fn with_palette_coord_function(self, f: PaletteCoordFunction) -> (r: PaletteLightingShader)
        ensures
            r.module_sdf == self.module_sdf,
            r.function_sdf_geometry == self.function_sdf_geometry,
            r.function_dither_coord == self.function_dither_coord,
            r.function_dither == self.function_dither,
            r.function_palette_coord == Some(f),
            r.function_palette == self.function_palette,
            r.function_alpha == self.function_alpha,
    {
        let mut s = self;
        s.function_palette_coord = Some(f);
        s
    }

    /// This shader with `f` set in place of its `function_palette`.
    pub fn with_palette_function(self, f: PaletteFunction) -> (r: PaletteLightingShader)
        ensures
            r.module_sdf == self.module_sdf,
            r.function_sdf_geometry == self.function_sdf_geometry,
            r.function_dither_coord == self.function_dither_coord,
            r.function_dither == self.function_dither,
            r.function_palette_coord == self.function_palette_coord,
            r.function_palette == Some(f),
            r.function_alpha == self.function_alpha,
    {
        let mut s = self;
        s.function_palette = Some(f);
        s
    }

    /// This shader with `f` set in place of its `function_alpha`.
    pub fn with_alpha_function(self, f: AlphaFunction) -> (r: PaletteLightingShader)
        ensures
            r.module_sdf == self.module_sdf,
            r.function_sdf_geometry == self.function_sdf_geometry,
            r.function_dither_coord == self.function_dither_coord,
            r.function_dither == self.function_dither,
            r.function_palette_coord == self.function_palette_coord,
            r.function_palette == self.function_palette,
            r.function_alpha == Some(f),
    {
        let mut s = self;
        s.function_alpha = Some(f);
        s
    }
}

impl Default for PaletteLightingShader {
    fn default() -> (r: PaletteLightingShader)
        ensures
            r.module_sdf.is_none(),
            r.function_sdf_geometry.is_none(),
            r.function_dither_coord.is_none(),
            r.function_dither.is_none(),
            r.function_palette_coord.is_none(),
            r.function_palette.is_none(),
            r.function_alpha.is_none(),
    {
        PaletteLightingShader::new()
    }
}

impl SdfGeometryFunction {
    /// The signature of `sdf_geometry_impl`, with this body.
    pub fn definition(&self) -> (r: ShaderFunctionDef)
        ensures
            r.name@ == "sdf_geometry_impl"@,
            r.inputs@.len() == 1,
            r.inputs@[0].0@ == "in"@,
            r.inputs@[0].1@ == "ptr<function, FragmentInput>"@,
            r.output.is_some() && r.output.unwrap()@ == "SdfOutput"@,
            r.body@ == self.0@,
    {
        let mut inputs: Vec<(String, String)> = Vec::new();
        inputs.push((String::from_str("in"), String::from_str("ptr<function, FragmentInput>")));
        ShaderFunctionDef {
            name: String::from_str("sdf_geometry_impl"),
            inputs,
            output: Some(String::from_str("SdfOutput")),
            body: self.0.clone(),
        }
    }
}

impl DitherCoordFunction {
    /// The signature of `dither_coord_impl`, with this body.
    pub fn definition(&self) -> (r: ShaderFunctionDef)
        ensures
            r.name@ == "dither_coord_impl"@,
            r.inputs@.len() == 1,
            r.inputs@[0].0@ == "in"@,
            r.inputs@[0].1@ == "FragmentInput"@,
            r.output.is_some() && r.output.unwrap()@ == "vec2<f32>"@,
            r.body@ == self.0@,
    {
        let mut inputs: Vec<(String, String)> = Vec::new();
        inputs.push((String::from_str("in"), String::from_str("FragmentInput")));
        ShaderFunctionDef {
            name: String::from_str("dither_coord_impl"),
            inputs,
            output: Some(String::from_str("vec2<f32>")),
            body: self.0.clone(),
        }
    }
}

impl DitherFunction {
    /// The signature of `dither_impl`, with this body.
    pub fn definition(&self) -> (r: ShaderFunctionDef)
        ensures
            r.name@ == "dither_impl"@,
            r.inputs@.len() == 2,
            r.inputs@[0].0@ == "in"@,
            r.inputs@[0].1@ == "FragmentInput"@,
            r.inputs@[1].0@ == "dither_uv"@,
            r.inputs@[1].1@ == "vec2<f32>"@,
            r.output.is_some() && r.output.unwrap()@ == "f32"@,
            r.body@ == self.0@,
    {
        let mut inputs: Vec<(String, String)> = Vec::new();
        inputs.push((String::from_str("in"), String::from_str("FragmentInput")));
        inputs.push((String::from_str("dither_uv"), String::from_str("vec2<f32>")));
        ShaderFunctionDef {
            name: String::from_str("dither_impl"),
            inputs,
            output: Some(String::from_str("f32")),
            body: self.0.clone(),
        }
    }
}

impl PaletteCoordFunction {
    /// The signature of `palette_coord_impl`, with this body.
    pub fn definition(&self) -> (r: ShaderFunctionDef)
        ensures
            r.name@ == "palette_coord_impl"@,
            r.inputs@.len() == 1,
            r.inputs@[0].0@ == "in"@,
            r.inputs@[0].1@ == "FragmentInput"@,
            r.output.is_some() && r.output.unwrap()@ == "vec3<f32>"@,
            r.body@ == self.0@,
    {
        let mut inputs: Vec<(String, String)> = Vec::new();
        inputs.push((String::from_str("in"), String::from_str("FragmentInput")));
        ShaderFunctionDef {
            name: String::from_str("palette_coord_impl"),
            inputs,
            output: Some(String::from_str("vec3<f32>")),
            body: self.0.clone(),
        }
    }
}

impl PaletteFunction {
    /// The signature of `palette_impl`, with this body.
    pub fn definition(&self) -> (r: ShaderFunctionDef)
        ensures
            r.name@ == "palette_impl"@,
            r.inputs@.len() == 3,
            r.inputs@[0].0@ == "in"@,
            r.inputs@[0].1@ == "FragmentInput"@,
            r.inputs@[1].0@ == "palette_uv"@,
            r.inputs@[1].1@ == "vec2<f32>"@,
            r.inputs@[2].0@ == "dither"@,
            r.inputs@[2].1@ == "vec2<f32>"@,
            r.output.is_some() && r.output.unwrap()@ == "vec4<f32>"@,
            r.body@ == self.0@,
    {
        let mut inputs: Vec<(String, String)> = Vec::new();
        inputs.push((String::from_str("in"), String::from_str("FragmentInput")));
        inputs.push((String::from_str("palette_uv"), String::from_str("vec2<f32>")));
        inputs.push((String::from_str("dither"), String::from_str("vec2<f32>")));
        ShaderFunctionDef {
            name: String::from_str("palette_impl"),
            inputs,
            output: Some(String::from_str("vec4<f32>")),
            body: self.0.clone(),
        }
    }
}

impl AlphaFunction {
    /// The signature of `alpha_impl`, with this body.
    pub fn definition(&self) -> (r: ShaderFunctionDef)
        ensures
            r.name@ == "alpha_impl"@,
            r.inputs@.len() == 3,
            r.inputs@[0].0@ == "in"@,
            r.inputs@[0].1@ == "FragmentInput"@,
            r.inputs@[1].0@ == "sdf_out"@,
            r.inputs@[1].1@ == "SdfOutput"@,
            r.inputs@[2].0@ == "a"@,
            r.inputs@[2].1@ == "f32"@,
            r.output.is_some() && r.output.unwrap()@ == "f32"@,
            r.body@ == self.0@,
    {
        let mut inputs: Vec<(String, String)> = Vec::new();
        inputs.push((String::from_str("in"), String::from_str("FragmentInput")));
        inputs.push((String::from_str("sdf_out"), String::from_str("SdfOutput")));
        inputs.push((String::from_str("a"), String::from_str("f32")));
        ShaderFunctionDef {
            name: String::from_str("alpha_impl"),
            inputs,
            output: Some(String::from_str("f32")),
            body: self.0.clone(),
        }
    }
}

/// The placeholder of the signed-distance module.
pub const MODULE_SDF_PATTERN: &'static str = "module!\\(sdf_3d\\)";

impl SdfGeometryFunction {
    /// The pattern that finds this function's placeholder, and its text.
    pub open spec fn spec_step(&self) -> (Seq<char>, Seq<char>) {
        (
            function_pattern("sdf_geometry_impl"@, seq![("in"@, "ptr<function, FragmentInput>"@)]),
            function_text("sdf_geometry_impl"@, seq![("in"@, "ptr<function, FragmentInput>"@)], Some("SdfOutput"@), self.0@),
        )
    }

    pub fn step(&self) -> (r: (String, String))
        ensures
            (r.0@, r.1@) == self.spec_step(),
    {
        let d = self.definition();
        proof {
            assert(input_views(d.inputs@) =~= seq![("in"@, "ptr<function, FragmentInput>"@)]);
        }
        d.pattern_and_text()
    }
}
impl DitherCoordFunction {
    /// The pattern that finds this function's placeholder, and its text.
    pub open spec fn spec_step(&self) -> (Seq<char>, Seq<char>) {
        (
            function_pattern("dither_coord_impl"@, seq![("in"@, "FragmentInput"@)]),
            function_text("dither_coord_impl"@, seq![("in"@, "FragmentInput"@)], Some("vec2<f32>"@), self.0@),
        )
    }

    pub fn step(&self) -> (r: (String, String))
        ensures
            (r.0@, r.1@) == self.spec_step(),
    {
        let d = self.definition();
        proof {
            assert(input_views(d.inputs@) =~= seq![("in"@, "FragmentInput"@)]);
        }
        d.pattern_and_text()
    }
}
impl DitherFunction {
    /// The pattern that finds this function's placeholder, and its text.
    pub open spec fn spec_step(&self) -> (Seq<char>, Seq<char>) {
        (
            function_pattern("dither_impl"@, seq![("in"@, "FragmentInput"@), ("dither_uv"@, "vec2<f32>"@)]),
            function_text("dither_impl"@, seq![("in"@, "FragmentInput"@), ("dither_uv"@, "vec2<f32>"@)], Some("f32"@), self.0@),
        )
    }

    pub fn step(&self) -> (r: (String, String))
        ensures
            (r.0@, r.1@) == self.spec_step(),
    {
        let d = self.definition();
        proof {
            assert(input_views(d.inputs@) =~= seq![("in"@, "FragmentInput"@), ("dither_uv"@, "vec2<f32>"@)]);
        }
        d.pattern_and_text()
    }
}
impl PaletteCoordFunction {
    /// The pattern that finds this function's placeholder, and its text.
    pub open spec fn spec_step(&self) -> (Seq<char>, Seq<char>) {
        (
            function_pattern("palette_coord_impl"@, seq![("in"@, "FragmentInput"@)]),
            function_text("palette_coord_impl"@, seq![("in"@, "FragmentInput"@)], Some("vec3<f32>"@), self.0@),
        )
    }

    pub fn step(&self) -> (r: (String, String))
        ensures
            (r.0@, r.1@) == self.spec_step(),
    {
        let d = self.definition();
        proof {
            assert(input_views(d.inputs@) =~= seq![("in"@, "FragmentInput"@)]);
        }
        d.pattern_and_text()
    }
}
impl PaletteFunction {
    /// The pattern that finds this function's placeholder, and its text.
    pub open spec fn spec_step(&self) -> (Seq<char>, Seq<char>) {
        (
            function_pattern("palette_impl"@, seq![("in"@, "FragmentInput"@), ("palette_uv"@, "vec2<f32>"@), ("dither"@, "vec2<f32>"@)]),
            function_text("palette_impl"@, seq![("in"@, "FragmentInput"@), ("palette_uv"@, "vec2<f32>"@), ("dither"@, "vec2<f32>"@)], Some("vec4<f32>"@), self.0@),
        )
    }

    pub fn step(&self) -> (r: (String, String))
        ensures
            (r.0@, r.1@) == self.spec_step(),
    {
        let d = self.definition();
        proof {
            assert(input_views(d.inputs@) =~= seq![("in"@, "FragmentInput"@), ("palette_uv"@, "vec2<f32>"@), ("dither"@, "vec2<f32>"@)]);
        }
        d.pattern_and_text()
    }
}
impl AlphaFunction {
    /// The pattern that finds this function's placeholder, and its text.
    pub open spec fn spec_step(&self) -> (Seq<char>, Seq<char>) {
        (
            function_pattern("alpha_impl"@, seq![("in"@, "FragmentInput"@), ("sdf_out"@, "SdfOutput"@), ("a"@, "f32"@)]),
            function_text("alpha_impl"@, seq![("in"@, "FragmentInput"@), ("sdf_out"@, "SdfOutput"@), ("a"@, "f32"@)], Some("f32"@), self.0@),
        )
    }

    pub fn step(&self) -> (r: (String, String))
        ensures
            (r.0@, r.1@) == self.spec_step(),
    {
        let d = self.definition();
        proof {
            assert(input_views(d.inputs@) =~= seq![("in"@, "FragmentInput"@), ("sdf_out"@, "SdfOutput"@), ("a"@, "f32"@)]);
        }
        d.pattern_and_text()
    }
}

impl PaletteLightingShader {
    /// The emplacements this shader makes, in order: one for each function it
    /// overrides, after the module when it has one.
    pub open spec fn spec_steps(&self, sdf_module: Seq<char>) -> Seq<(Seq<char>, Seq<char>)> {
        step_of(self.module_sdf.is_some(), (MODULE_SDF_PATTERN@, sdf_module))
            + step_of(self.function_sdf_geometry.is_some(), self.function_sdf_geometry.unwrap().spec_step())
            + step_of(self.function_dither_coord.is_some(), self.function_dither_coord.unwrap().spec_step())
            + step_of(self.function_dither.is_some(), self.function_dither.unwrap().spec_step())
            + step_of(self.function_palette_coord.is_some(), self.function_palette_coord.unwrap().spec_step())
            + step_of(self.function_palette.is_some(), self.function_palette.unwrap().spec_step())
            + step_of(self.function_alpha.is_some(), self.function_alpha.unwrap().spec_step())
    }

    #[verifier::rlimit(50)]
    pub fn steps(&self, sdf_module: &str) -> (r: Vec<(String, String)>)
        ensures
            step_views(r@) == self.spec_steps(sdf_module@),
    {
        let mut r: Vec<(String, String)> = Vec::new();
        let ghost mut expect: Seq<(Seq<char>, Seq<char>)> = Seq::empty();
        if self.module_sdf.is_some() {
            r.push((String::from_str(MODULE_SDF_PATTERN), String::from_str(sdf_module)));
        }
        proof {
            expect = expect + step_of(self.module_sdf.is_some(), (MODULE_SDF_PATTERN@, sdf_module@));
        }
        assert(step_views(r@) =~= expect);
        if let Some(f) = &self.function_sdf_geometry {
            r.push(f.step());
        }
        proof {
            expect = expect + step_of(self.function_sdf_geometry.is_some(), self.function_sdf_geometry.unwrap().spec_step());
        }
        assert(step_views(r@) =~= expect);
        if let Some(f) = &self.function_dither_coord {
            r.push(f.step());
        }
        proof {
            expect = expect + step_of(self.function_dither_coord.is_some(), self.function_dither_coord.unwrap().spec_step());
        }
        assert(step_views(r@) =~= expect);
        if let Some(f) = &self.function_dither {
            r.push(f.step());
        }
        proof {
            expect = expect + step_of(self.function_dither.is_some(), self.function_dither.unwrap().spec_step());
        }
        assert(step_views(r@) =~= expect);
        if let Some(f) = &self.function_palette_coord {
            r.push(f.step());
        }
        proof {
            expect = expect + step_of(self.function_palette_coord.is_some(), self.function_palette_coord.unwrap().spec_step());
        }
        assert(step_views(r@) =~= expect);
        if let Some(f) = &self.function_palette {
            r.push(f.step());
        }
        proof {
            expect = expect + step_of(self.function_palette.is_some(), self.function_palette.unwrap().spec_step());
        }
        assert(step_views(r@) =~= expect);
        if let Some(f) = &self.function_alpha {
            r.push(f.step());
        }
        proof {
            expect = expect + step_of(self.function_alpha.is_some(), self.function_alpha.unwrap().spec_step());
        }
        assert(step_views(r@) =~= expect);
        assert(expect =~= self.spec_steps(sdf_module@));
        r
    }

    /// Writes each overridden function, and the module, in place of its placeholder.
    pub fn emplace(&self, source: &mut Source, sdf_module: &str) -> (r: Result<(), EmplaceError>)
        ensures
            emplace_all_post(*old(source), self.spec_steps(sdf_module@), *final(source), r),
    {
        let steps = self.steps(sdf_module);
        emplace_all(source, &steps)
    }

    /// The base source with every override emplaced and the unused
    /// placeholders taken out.
    pub fn compose(&self, base: Source, sdf_module: &str) -> (r: Result<Source, EmplaceError>)
        ensures
            r is Ok <==> composed(base, self.spec_steps(sdf_module@)).is_some(),
            r is Ok ==> text_of(r.unwrap()) == composed(base, self.spec_steps(sdf_module@)),
    {
        let mut source = base;
        let steps = self.steps(sdf_module);
        match emplace_all(&mut source, &steps) {
            Ok(()) => {},
            Err(e) => return Err(e),
        }
        match strip_tags(&mut source) {
            Ok(()) => Ok(source),
            Err(e) => Err(e),
        }
    }
}

} // verus!
