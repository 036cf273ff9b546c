use vstd::prelude::*;
use vstd::string::StringExecFns;

use crate::shader_composer::{
    composed, emplace_all, emplace_all_post, function_pattern, function_text, input_views, step_views,
    step_of, strip_tags,
    text_of, EmplaceError, ShaderFunctionDef, Source,
};

verus! {

/// The body of the signed-distance function at a point.
#[derive(Debug, Clone)]
pub struct PositionFunction(pub String);

/// The body of the surface normal function.
#[derive(Debug, Clone)]
pub struct NormalFunction(pub String);

/// The body of the surface texture coordinate function.
#[derive(Debug, Clone)]
pub struct UvFunction(pub String);

/// The body of the ray marching function.
#[derive(Debug, Clone)]
pub struct RaymarchFunction(pub String);

/// The signed-distance module, with each function it lets a user override
/// either set or left at its default.
#[derive(Debug, Clone)]
pub struct Sdf3dModule {
    pub function_position: Option<PositionFunction>,
    pub function_normal: Option<NormalFunction>,
    pub function_uv: Option<UvFunction>,
    pub function_raymarch: Option<RaymarchFunction>,
}

impl Default for Sdf3dModule {
    fn default() -> (r: Sdf3dModule)
        ensures
            r.function_position.is_none(),
            r.function_normal.is_none(),
            r.function_uv.is_none(),
            r.function_raymarch.is_none(),
    {
        Sdf3dModule {
            function_position: None,
            function_normal: None,
            function_uv: None,
            function_raymarch: None,
        }
    }
}

impl PositionFunction {
    /// The signature of `sdf_3d_position`, with this body.
    pub fn definition(&self) -> (r: ShaderFunctionDef)
        ensures
            r.name@ == "sdf_3d_position"@,
            r.inputs@.len() == 1,
            r.inputs@[0].0@ == "p"@,
            r.inputs@[0].1@ == "vec3<f32>"@,
            r.output.is_some() && r.output.unwrap()@ == "f32"@,
            r.body@ == self.0@,
    {
        let mut inputs: Vec<(String, String)> = Vec::new();
        inputs.push((String::from_str("p"), String::from_str("vec3<f32>")));
        ShaderFunctionDef {
            name: String::from_str("sdf_3d_position"),
            inputs,
            output: Some(String::from_str("f32")),
            body: self.0.clone(),
        }
    }
}

impl NormalFunction {
    /// The signature of `sdf_3d_normal`, with this body.
    pub fn definition(&self) -> (r: ShaderFunctionDef)
        ensures
            r.name@ == "sdf_3d_normal"@,
            r.inputs@.len() == 1,
            r.inputs@[0].0@ == "p"@,
            r.inputs@[0].1@ == "vec3<f32>"@,
            r.output.is_some() && r.output.unwrap()@ == "vec3<f32>"@,
            r.body@ == self.0@,
    {
        let mut inputs: Vec<(String, String)> = Vec::new();
        inputs.push((String::from_str("p"), String::from_str("vec3<f32>")));
        ShaderFunctionDef {
            name: String::from_str("sdf_3d_normal"),
            inputs,
            output: Some(String::from_str("vec3<f32>")),
            body: self.0.clone(),
        }
    }
}

impl UvFunction {
    /// The signature of `sdf_3d_uv`, with this body.
    pub fn definition(&self) -> (r: ShaderFunctionDef)
        ensures
            r.name@ == "sdf_3d_uv"@,
            r.inputs@.len() == 2,
            r.inputs@[0].0@ == "p"@,
            r.inputs@[0].1@ == "vec3<f32>"@,
            r.inputs@[1].0@ == "n"@,
            r.inputs@[1].1@ == "vec3<f32>"@,
            r.output.is_some() && r.output.unwrap()@ == "vec2<f32>"@,
            r.body@ == self.0@,
    {
        let mut inputs: Vec<(String, String)> = Vec::new();
        inputs.push((String::from_str("p"), String::from_str("vec3<f32>")));
        inputs.push((String::from_str("n"), String::from_str("vec3<f32>")));
        ShaderFunctionDef {
            name: String::from_str("sdf_3d_uv"),
            inputs,
            output: Some(String::from_str("vec2<f32>")),
            body: self.0.clone(),
        }
    }
}

impl RaymarchFunction {
    /// The signature of `sdf_3d_raymarch`, with this body.
    pub fn definition(&self) -> (r: ShaderFunctionDef)
        ensures
            r.name@ == "sdf_3d_raymarch"@,
            r.inputs@.len() == 4,
            r.inputs@[0].0@ == "start"@,
            r.inputs@[0].1@ == "f32"@,
            r.inputs@[1].0@ == "end"@,
            r.inputs@[1].1@ == "f32"@,
            r.inputs@[2].0@ == "eye"@,
            r.inputs@[2].1@ == "vec3<f32>"@,
            r.inputs@[3].0@ == "dir"@,
            r.inputs@[3].1@ == "vec3<f32>"@,
            r.output.is_some() && r.output.unwrap()@ == "SdfOutput"@,
            r.body@ == self.0@,
    {
        let mut inputs: Vec<(String, String)> = Vec::new();
        inputs.push((String::from_str("start"), String::from_str("f32")));
        inputs.push((String::from_str("end"), String::from_str("f32")));
        inputs.push((String::from_str("eye"), String::from_str("vec3<f32>")));
        inputs.push((String::from_str("dir"), String::from_str("vec3<f32>")));
        ShaderFunctionDef {
            name: String::from_str("sdf_3d_raymarch"),
            inputs,
            output: Some(String::from_str("SdfOutput")),
            body: self.0.clone(),
        }
    }
}

impl PositionFunction {
    /// The pattern that finds this function's placeholder, and its text.
    pub open spec fn spec_step(&self) -> (Seq<char>, Seq<char>) {
        (
            function_pattern("sdf_3d_position"@, seq![("p"@, "vec3<f32>"@)]),
            function_text("sdf_3d_position"@, seq![("p"@, "vec3<f32>"@)], Some("f32"@), self.0@),
        )
    }

    pub fn step(&self) -> (r: (String, String))
        ensures
            (r.0@, r.1@) == self.spec_step(),
    {
        let d = self.definition();
        proof {
            assert(input_views(d.inputs@) =~= seq![("p"@, "vec3<f32>"@)]);
        }
        d.pattern_and_text()
    }
}
impl NormalFunction {
    /// The pattern that finds this function's placeholder, and its text.
    pub open spec fn spec_step(&self) -> (Seq<char>, Seq<char>) {
        (
            function_pattern("sdf_3d_normal"@, seq![("p"@, "vec3<f32>"@)]),
            function_text("sdf_3d_normal"@, seq![("p"@, "vec3<f32>"@)], Some("vec3<f32>"@), self.0@),
        )
    }

    pub fn step(&self) -> (r: (String, String))
        ensures
            (r.0@, r.1@) == self.spec_step(),
    {
        let d = self.definition();
        proof {
            assert(input_views(d.inputs@) =~= seq![("p"@, "vec3<f32>"@)]);
        }
        d.pattern_and_text()
    }
}
impl UvFunction {
    /// The pattern that finds this function's placeholder, and its text.
    pub open spec fn spec_step(&self) -> (Seq<char>, Seq<char>) {
        (
            function_pattern("sdf_3d_uv"@, seq![("p"@, "vec3<f32>"@), ("n"@, "vec3<f32>"@)]),
            function_text("sdf_3d_uv"@, seq![("p"@, "vec3<f32>"@), ("n"@, "vec3<f32>"@)], Some("vec2<f32>"@), self.0@),
        )
    }

    pub fn step(&self) -> (r: (String, String))
        ensures
            (r.0@, r.1@) == self.spec_step(),
    {
        let d = self.definition();
        proof {
            assert(input_views(d.inputs@) =~= seq![("p"@, "vec3<f32>"@), ("n"@, "vec3<f32>"@)]);
        }
        d.pattern_and_text()
    }
}
impl RaymarchFunction {
    /// The pattern that finds this function's placeholder, and its text.
    pub open spec fn spec_step(&self) -> (Seq<char>, Seq<char>) {
        (
            function_pattern("sdf_3d_raymarch"@, seq![("start"@, "f32"@), ("end"@, "f32"@), ("eye"@, "vec3<f32>"@), ("dir"@, "vec3<f32>"@)]),
            function_text("sdf_3d_raymarch"@, seq![("start"@, "f32"@), ("end"@, "f32"@), ("eye"@, "vec3<f32>"@), ("dir"@, "vec3<f32>"@)], Some("SdfOutput"@), self.0@),
        )
    }

    pub fn step(&self) -> (r: (String, String))
        ensures
            (r.0@, r.1@) == self.spec_step(),
    {
        let d = self.definition();
        proof {
            assert(input_views(d.inputs@) =~= seq![("start"@, "f32"@), ("end"@, "f32"@), ("eye"@, "vec3<f32>"@), ("dir"@, "vec3<f32>"@)]);
        }
        d.pattern_and_text()
    }
}

impl Sdf3dModule {
    /// The emplacements this module makes, in order: one for each function it
    /// overrides.
    pub open spec fn spec_steps(&self) -> Seq<(Seq<char>, Seq<char>)> {
        step_of(self.function_position.is_some(), self.function_position.unwrap().spec_step())
            + step_of(self.function_normal.is_some(), self.function_normal.unwrap().spec_step())
            + step_of(self.function_uv.is_some(), self.function_uv.unwrap().spec_step())
            + step_of(self.function_raymarch.is_some(), self.function_raymarch.unwrap().spec_step())
    }

    pub fn steps(&self) -> (r: Vec<(String, String)>)
        ensures
            step_views(r@) == self.spec_steps(),
    {
        let mut r: Vec<(String, String)> = Vec::new();
        let ghost mut expect: Seq<(Seq<char>, Seq<char>)> = Seq::empty();
        if let Some(f) = &self.function_position {
            r.push(f.step());
        }
        proof {
            expect = expect + step_of(self.function_position.is_some(), self.function_position.unwrap().spec_step());
        }
        assert(step_views(r@) =~= expect);
        if let Some(f) = &self.function_normal {
            r.push(f.step());
        }
        proof {
            expect = expect + step_of(self.function_normal.is_some(), self.function_normal.unwrap().spec_step());
        }
        assert(step_views(r@) =~= expect);
        if let Some(f) = &self.function_uv {
            r.push(f.step());
        }
        proof {
            expect = expect + step_of(self.function_uv.is_some(), self.function_uv.unwrap().spec_step());
        }
        assert(step_views(r@) =~= expect);
        if let Some(f) = &self.function_raymarch {
            r.push(f.step());
        }
        proof {
            expect = expect + step_of(self.function_raymarch.is_some(), self.function_raymarch.unwrap().spec_step());
        }
        assert(step_views(r@) =~= expect);
        assert(expect =~= self.spec_steps());
        r
    }

    /// Writes each overridden function in place of its placeholder.
    pub fn emplace(&self, source: &mut Source) -> (r: Result<(), EmplaceError>)
        ensures
            emplace_all_post(*old(source), self.spec_steps(), *final(source), r),
    {
        let steps = self.steps();
        emplace_all(source, &steps)
    }

    /// The base source with every override emplaced and the unused
    /// placeholders taken out.
    pub fn compose(&self, base: Source) -> (r: Result<Source, EmplaceError>)
        ensures
            r is Ok <==> composed(base, self.spec_steps()).is_some(),
            r is Ok ==> text_of(r.unwrap()) == composed(base, self.spec_steps()),
    {
        let mut source = base;
        let steps = self.steps();
        match emplace_all(&mut source, &steps) {
            Ok(()) => {},
            Err(e) => return Err(e),
        }
        match strip_tags(&mut source) {
            Ok(()) => Ok(source),
            Err(e) => Err(e),
        }
    }
}

} // verus!
