use vstd::prelude::*;
use vstd::string::StringExecFns;

verus! {

#[verifier::external_type_specification]
#[verifier::external_body]
pub struct ExRegex(regex::Regex);

/// Whether `regex` accepts `pattern` (with its default size limit).
pub uninterp spec fn regex_compiles(pattern: Seq<char>) -> bool;

/// Whether `pattern` matches somewhere in `haystack`.
pub uninterp spec fn regex_finds(pattern: Seq<char>, haystack: Seq<char>) -> bool;

/// `haystack` with the leftmost-first match of `pattern` replaced by
/// `replacement`, its `$` group references expanded.
pub uninterp spec fn regex_replace_first(pattern: Seq<char>, haystack: Seq<char>, replacement: Seq<char>) -> Seq<char>;

/// A compiled regular expression, with the pattern it was compiled from.
pub struct Pattern {
    source: String,
    regex: regex::Regex,
}

impl Pattern {
    pub closed spec fn spec_source(&self) -> Seq<char> {
        self.source@
    }
}

/// Relies on `regex::Regex::new`: it succeeds exactly on the patterns it accepts.
#[verifier::external_body]
fn compile(pattern: &str) -> (r: Option<Pattern>)
    ensures
        r.is_some() == regex_compiles(pattern@),
        r.is_some() ==> r.unwrap().spec_source() == pattern@,
{
    match regex::Regex::new(pattern) {
        Ok(regex) => Some(Pattern { source: pattern.to_string(), regex }),
        Err(_) => None,
    }
}

/// Relies on `regex::Regex::is_match`: whether the pattern matches anywhere.
#[verifier::external_body]
fn is_match(p: &Pattern, haystack: &str) -> (r: bool)
    ensures
        r == regex_finds(p.spec_source(), haystack@),
{
    p.regex.is_match(haystack)
}

/// Relies on `regex::Regex::replace`: the first match replaced; where nothing
/// matches, the haystack comes back unchanged.
#[verifier::external_body]
fn replace_first(p: &Pattern, haystack: &str, replacement: &str) -> (r: String)
    ensures
        r@ == regex_replace_first(p.spec_source(), haystack@, replacement@),
        !regex_finds(p.spec_source(), haystack@) ==> r@ == haystack@,
{
    p.regex.replace(haystack, replacement).into_owned()
}

/// The pipeline stage a GLSL shader is written for.
#[derive(Debug, Copy, Clone, PartialEq, Eq)]
pub enum ShaderStage {
    Vertex,
    Fragment,
    Compute,
}

/// Shader source text, or compiled SPIR-V.
#[derive(Debug, Clone)]
pub enum Source {
    Wgsl(String),
    Glsl(String, ShaderStage),
    SpirV(Vec<u8>),
}

/// Why an emplacement could not be made.
#[derive(Debug, Copy, Clone, PartialEq, Eq)]
pub enum EmplaceError {
    /// The pattern to look for is not a valid regular expression.
    InvalidPattern,
    /// The source holds no match of the pattern.
    MissingEmplacement,
    /// SPIR-V cannot be edited as text.
    SpirV,
}

/// The text of a source, none for SPIR-V.
pub open spec fn text_of(s: Source) -> Option<Seq<char>> {
    match s {
        Source::Wgsl(t) => Some(t@),
        Source::Glsl(t, _) => Some(t@),
        Source::SpirV(_) => None,
    }
}

/// The outcome of replacing the first match of `from` in `s0` by `to`: an
/// error, with the source untouched, when `s0` is SPIR-V, when `from` is no
/// valid pattern, or when nothing matches; otherwise the replaced text, in the
/// same language and stage.
pub open spec fn emplace_post(s0: Source, from: Seq<char>, to: Seq<char>, s1: Source, r: Result<(), EmplaceError>) -> bool {
    match text_of(s0) {
        None => r == Err::<(), EmplaceError>(EmplaceError::SpirV) && s1 == s0,
        Some(t) => if !regex_compiles(from) {
            r == Err::<(), EmplaceError>(EmplaceError::InvalidPattern) && s1 == s0
        } else if !regex_finds(from, t) {
            r == Err::<(), EmplaceError>(EmplaceError::MissingEmplacement) && s1 == s0
        } else {
            &&& r is Ok
            &&& text_of(s1) == Some(regex_replace_first(from, t, to))
            &&& (s0 is Wgsl <==> s1 is Wgsl)
            &&& (s0 is Glsl ==> s1 is Glsl && s1->Glsl_1 == s0->Glsl_1)
        },
    }
}

impl Source {
    /// Replaces the first match of the pattern `from` in the text by `to`.
    pub fn emplace(&mut self, from: &str, to: &str) -> (r: Result<(), EmplaceError>)
        ensures
            emplace_post(*old(self), from@, to@, *final(self), r),
    {
        match self {
            Source::SpirV(_) => Err(EmplaceError::SpirV),
            Source::Wgsl(text) => {
                let p = match compile(from) {
                    Some(p) => p,
                    None => return Err(EmplaceError::InvalidPattern),
                };
                if !is_match(&p, text.as_str()) {
                    return Err(EmplaceError::MissingEmplacement);
                }
                let replaced = replace_first(&p, text.as_str(), to);
                *text = replaced;
                Ok(())
            },
            Source::Glsl(text, _) => {
                let p = match compile(from) {
                    Some(p) => p,
                    None => return Err(EmplaceError::InvalidPattern),
                };
                if !is_match(&p, text.as_str()) {
                    return Err(EmplaceError::MissingEmplacement);
                }
                let replaced = replace_first(&p, text.as_str(), to);
                *text = replaced;
                Ok(())
            },
        }
    }
}

/// Text replacement inside shader sources.
pub trait SourceEx {
    fn emplace(&mut self, from: &str, to: &str) -> Result<(), EmplaceError>;
}

impl SourceEx for Source {
    fn emplace(&mut self, from: &str, to: &str) -> Result<(), EmplaceError> {
        Source::emplace(self, from, to)
    }
}

/// A shader function that a user may override: its name, its parameters as
/// `(name, type)` pairs, its return type if any, and its body.
#[derive(Debug, Clone)]
pub struct ShaderFunctionDef {
    pub name: String,
    pub inputs: Vec<(String, String)>,
    pub output: Option<String>,
    pub body: String,
}

/// Any run of whitespace, in pattern syntax.
pub open spec fn ws() -> Seq<char> {
    "[\\s\\r\\n]*"@
}

/// The parameters, as plain text pairs.
pub open spec fn input_views(inputs: Seq<(String, String)>) -> Seq<(Seq<char>, Seq<char>)> {
    inputs.map_values(|p: (String, String)| (p.0@, p.1@))
}

/// The pattern that matches a parameter list, whatever its spacing.
pub open spec fn inputs_pattern(inputs: Seq<(Seq<char>, Seq<char>)>) -> Seq<char>
    decreases inputs.len(),
{
    if inputs.len() == 0 {
        Seq::empty()
    } else {
        inputs_pattern(inputs.drop_last()) + ws() + inputs.last().0 + ":"@ + ws() + inputs.last().1
            + ",?"@ + ws()
    }
}

/// The parameter list as it is written out, one parameter per line.
pub open spec fn inputs_text(inputs: Seq<(Seq<char>, Seq<char>)>) -> Seq<char>
    decreases inputs.len(),
{
    if inputs.len() == 0 {
        Seq::empty()
    } else {
        inputs_text(inputs.drop_last()) + "    "@ + inputs.last().0 + ": "@ + inputs.last().1 + ",\n"@
    }
}

/// The pattern that finds the placeholder of function `name` with these
/// parameters, tagged `#[function]`, whatever its return type and body.
pub open spec fn function_pattern(name: Seq<char>, inputs: Seq<(Seq<char>, Seq<char>)>) -> Seq<char> {
    "#\\[function\\]"@ + ws() + "fn"@ + ws() + name + ws() + "\\("@ + inputs_pattern(inputs) + "\\)"@
        + ws() + "(->)?"@ + ws() + "[\\w<>]*"@ + ws() + "\\{"@ + ws() + "(.*?)"@ + ws() + "\\}"@
}

/// The function as it is written in place of its placeholder.
pub open spec fn function_text(
    name: Seq<char>,
    inputs: Seq<(Seq<char>, Seq<char>)>,
    output: Option<Seq<char>>,
    body: Seq<char>,
) -> Seq<char> {
    "fn "@ + name + "(\n"@ + inputs_text(inputs) + ") "@ + match output {
        Some(o) => "-> "@ + o,
        None => Seq::empty(),
    } + " {\n"@ + body + "\n}"@
}

/// Appends the pattern and the text of each parameter, in order.
fn build_inputs(inputs: &Vec<(String, String)>) -> (r: (String, String))
    ensures
        r.0@ == inputs_pattern(input_views(inputs@)),
        r.1@ == inputs_text(input_views(inputs@)),
{
    let mut pattern = String::new();
    let mut text = String::new();
    let mut i: usize = 0;
    while i < inputs.len()
        invariant
            i <= inputs@.len(),
            pattern@ == inputs_pattern(input_views(inputs@.subrange(0, i as int))),
            text@ == inputs_text(input_views(inputs@.subrange(0, i as int))),
        decreases inputs@.len() - i,
    {
        let name = inputs[i].0.as_str();
        let ty = inputs[i].1.as_str();
        pattern.append("[\\s\\r\\n]*");
        pattern.append(name);
        pattern.append(":");
        pattern.append("[\\s\\r\\n]*");
        pattern.append(ty);
        pattern.append(",?");
        pattern.append("[\\s\\r\\n]*");
        text.append("    ");
        text.append(name);
        text.append(": ");
        text.append(ty);
        text.append(",\n");
        proof {
            let pre = input_views(inputs@.subrange(0, i as int));
            let post = input_views(inputs@.subrange(0, i + 1));
            assert(post.drop_last() =~= pre);
            assert(post.last() == (inputs@[i as int].0@, inputs@[i as int].1@));
        }
        i = i + 1;
    }
    assert(inputs@.subrange(0, inputs@.len() as int) =~= inputs@);
    (pattern, text)
}

impl ShaderFunctionDef {
    pub open spec fn spec_pattern(&self) -> Seq<char> {
        function_pattern(self.name@, input_views(self.inputs@))
    }

    pub open spec fn spec_text(&self) -> Seq<char> {
        function_text(
            self.name@,
            input_views(self.inputs@),
            match self.output {
                Some(o) => Some(o@),
                None => None,
            },
            self.body@,
        )
    }

    /// The pattern that finds this function's placeholder, and the text that replaces it.
    pub fn pattern_and_text(&self) -> (r: (String, String))
        ensures
            r.0@ == self.spec_pattern(),
            r.1@ == self.spec_text(),
    {
        let (ins_pattern, ins_text) = build_inputs(&self.inputs);
        let mut pattern = String::new();
        pattern.append("#\\[function\\]");
        pattern.append("[\\s\\r\\n]*");
        pattern.append("fn");
        pattern.append("[\\s\\r\\n]*");
        pattern.append(self.name.as_str());
        pattern.append("[\\s\\r\\n]*");
        pattern.append("\\(");
        pattern.append(ins_pattern.as_str());
        pattern.append("\\)");
        pattern.append("[\\s\\r\\n]*");
        pattern.append("(->)?");
        pattern.append("[\\s\\r\\n]*");
        pattern.append("[\\w<>]*");
        pattern.append("[\\s\\r\\n]*");
        pattern.append("\\{");
        pattern.append("[\\s\\r\\n]*");
        pattern.append("(.*?)");
        pattern.append("[\\s\\r\\n]*");
        pattern.append("\\}");
        let mut text = String::new();
        text.append("fn ");
        text.append(self.name.as_str());
        text.append("(\n");
        text.append(ins_text.as_str());
        text.append(") ");
        match &self.output {
            Some(o) => {
                text.append("-> ");
                text.append(o.as_str());
            },
            None => {},
        }
        text.append(" {\n");
        text.append(self.body.as_str());
        text.append("\n}");
        (pattern, text)
    }

    /// Writes this function in place of its placeholder in `source`.
    pub fn emplace(&self, source: &mut Source) -> (r: Result<(), EmplaceError>)
        ensures
            emplace_post(*old(source), self.spec_pattern(), self.spec_text(), *final(source), r),
    {
        let (pattern, text) = self.pattern_and_text();
        source.emplace(pattern.as_str(), text.as_str())
    }
}

/// A single step when `present`, else none.
pub open spec fn step_of(present: bool, step: (Seq<char>, Seq<char>)) -> Seq<(Seq<char>, Seq<char>)> {
    if present {
        seq![step]
    } else {
        Seq::empty()
    }
}

/// The steps as plain text pairs.
pub open spec fn step_views(steps: Seq<(String, String)>) -> Seq<(Seq<char>, Seq<char>)> {
    steps.map_values(|p: (String, String)| (p.0@, p.1@))
}

/// The text after each `(pattern, replacement)` step in turn, the first match
/// of each pattern replaced; none when a pattern is invalid or finds nothing.
pub open spec fn emplaced_all(t: Seq<char>, steps: Seq<(Seq<char>, Seq<char>)>) -> Option<Seq<char>>
    decreases steps.len(),
{
    if steps.len() == 0 {
        Some(t)
    } else {
        match emplaced_all(t, steps.drop_last()) {
            None => None,
            Some(u) => {
                let (p, r) = steps.last();
                if regex_compiles(p) && regex_finds(p, u) {
                    Some(regex_replace_first(p, u, r))
                } else {
                    None
                }
            },
        }
    }
}

/// A step that fails makes every longer run of steps fail.
pub proof fn lemma_emplaced_prefix_fails(t: Seq<char>, steps: Seq<(Seq<char>, Seq<char>)>, i: int)
    requires
        0 <= i <= steps.len(),
        emplaced_all(t, steps.subrange(0, i)).is_none(),
    ensures
        emplaced_all(t, steps).is_none(),
    decreases steps.len(),
{
    if i == steps.len() {
        assert(steps.subrange(0, i) =~= steps);
    } else {
        assert(steps.drop_last().subrange(0, i) =~= steps.subrange(0, i));
        lemma_emplaced_prefix_fails(t, steps.drop_last(), i);
    }
}

/// Whether `s1` is `s0` with its text replaced: same language and stage.
pub open spec fn same_kind(s0: Source, s1: Source) -> bool {
    &&& (s0 is Wgsl <==> s1 is Wgsl)
    &&& (s0 is Glsl <==> s1 is Glsl)
    &&& (s0 is Glsl ==> s1->Glsl_1 == s0->Glsl_1)
}

/// The outcome of a run of emplacements: with no steps nothing changes; on
/// SPIR-V the run fails; otherwise it succeeds exactly when every step finds
/// its pattern, and the text is then the text after all the steps.
pub open spec fn emplace_all_post(
    s0: Source,
    steps: Seq<(Seq<char>, Seq<char>)>,
    s1: Source,
    r: Result<(), EmplaceError>,
) -> bool {
    if steps.len() == 0 {
        r is Ok && s1 == s0
    } else {
        match text_of(s0) {
            None => r == Err::<(), EmplaceError>(EmplaceError::SpirV),
            Some(t) => {
                &&& (r is Ok <==> emplaced_all(t, steps).is_some())
                &&& r is Ok ==> text_of(s1) == emplaced_all(t, steps) && same_kind(s0, s1)
            },
        }
    }
}

/// Applies each `(pattern, replacement)` step to `source` in turn, stopping at
/// the first that fails.
pub fn emplace_all(source: &mut Source, steps: &Vec<(String, String)>) -> (r: Result<(), EmplaceError>)
    ensures
        emplace_all_post(*old(source), step_views(steps@), *final(source), r),
{
    let ghost s0 = *source;
    let ghost views = step_views(steps@);
    let mut i: usize = 0;
    while i < steps.len()
        invariant
            i <= steps@.len(),
            views == step_views(steps@),
            s0 == *old(source),
            i == 0 ==> *source == s0,
            i > 0 ==> text_of(s0).is_some() && same_kind(s0, *source) && text_of(*source) == emplaced_all(
                text_of(s0).unwrap(),
                views.subrange(0, i as int),
            ),
        decreases steps@.len() - i,
    {
        let ghost before = *source;
        let step = source.emplace(steps[i].0.as_str(), steps[i].1.as_str());
        proof {
            let pre = views.subrange(0, i as int);
            let post = views.subrange(0, i + 1);
            assert(post.drop_last() =~= pre);
            assert(post.last() == views[i as int]);
            if i == 0 {
                assert(pre =~= Seq::<(Seq<char>, Seq<char>)>::empty());
            }
        }
        match step {
            Ok(()) => {},
            Err(e) => {
                proof {
                    if text_of(s0).is_some() {
                        let t0 = text_of(s0).unwrap();
                        let pre = views.subrange(0, i as int);
                        let post = views.subrange(0, i + 1);
                        let u = text_of(before).unwrap();
                        assert(emplaced_all(t0, pre) == Some(u));
                        assert(post.last() == (steps@[i as int].0@, steps@[i as int].1@));
                        assert(emplaced_all(t0, post).is_none());
                        lemma_emplaced_prefix_fails(t0, views, i + 1);
                    }
                }
                return Err(e);
            },
        }
        i = i + 1;
    }
    proof {
        assert(views.subrange(0, steps@.len() as int) =~= views);
    }
    Ok(())
}

/// A literal text, replaced everywhere in a haystack.
pub uninterp spec fn str_replace_all(haystack: Seq<char>, from: Seq<char>, to: Seq<char>) -> Seq<char>;

/// Relies on `str::replace`: every non-overlapping occurrence of `from`
/// replaced by `to`.
#[verifier::external_body]
fn replace_all_literal(haystack: &str, from: &str, to: &str) -> (r: String)
    ensures
        r@ == str_replace_all(haystack@, from@, to@),
{
    haystack.replace(from, to)
}

/// The text with the unused placeholders taken out: the first module tag,
/// the first block tag, and every `#[function]` tag line.
pub open spec fn stripped(t: Seq<char>) -> Seq<char> {
    let a = regex_replace_first("module!\\([\\S]*\\)"@, t, ""@);
    let b = regex_replace_first("block!\\([\\S]*\\)"@, a, ""@);
    str_replace_all(b, "#[function]\n"@, ""@)
}

/// Takes the placeholders that nothing replaced out of a source's text.
pub fn strip_tags(source: &mut Source) -> (r: Result<(), EmplaceError>)
    ensures
        text_of(*old(source)).is_none() ==> r == Err::<(), EmplaceError>(EmplaceError::SpirV),
        text_of(*old(source)).is_some() ==> (r is Ok <==> regex_compiles("module!\\([\\S]*\\)"@)
            && regex_compiles("block!\\([\\S]*\\)"@)),
        r is Ok ==> text_of(*final(source)) == Some(stripped(text_of(*old(source)).unwrap()))
            && same_kind(*old(source), *final(source)),
{
    let module_tag = match compile("module!\\([\\S]*\\)") {
        Some(p) => p,
        None => {
            return match source {
                Source::SpirV(_) => Err(EmplaceError::SpirV),
                _ => Err(EmplaceError::InvalidPattern),
            };
        },
    };
    let block_tag = match compile("block!\\([\\S]*\\)") {
        Some(p) => p,
        None => {
            return match source {
                Source::SpirV(_) => Err(EmplaceError::SpirV),
                _ => Err(EmplaceError::InvalidPattern),
            };
        },
    };
    match source {
        Source::SpirV(_) => Err(EmplaceError::SpirV),
        Source::Wgsl(text) => {
            let a = replace_first(&module_tag, text.as_str(), "");
            let b = replace_first(&block_tag, a.as_str(), "");
            *text = replace_all_literal(b.as_str(), "#[function]\n", "");
            Ok(())
        },
        Source::Glsl(text, _) => {
            let a = replace_first(&module_tag, text.as_str(), "");
            let b = replace_first(&block_tag, a.as_str(), "");
            *text = replace_all_literal(b.as_str(), "#[function]\n", "");
            Ok(())
        },
    }
}

/// The text that composing `base` with these steps gives: every step
/// emplaced, then the unused placeholders taken out; none for SPIR-V or when a
/// step or the tag patterns fail.
pub open spec fn composed(base: Source, steps: Seq<(Seq<char>, Seq<char>)>) -> Option<Seq<char>> {
    match text_of(base) {
        None => None,
        Some(t) => match emplaced_all(t, steps) {
            None => None,
            Some(u) => if regex_compiles("module!\\([\\S]*\\)"@) && regex_compiles("block!\\([\\S]*\\)"@) {
                Some(stripped(u))
            } else {
                None
            },
        },
    }
}

impl Source {
    pub fn is_spirv(&self) -> (b: bool)
        ensures
            b == text_of(*self).is_none(),
    {
        match self {
            Source::SpirV(_) => true,
            _ => false,
        }
    }

    /// The text of a WGSL or GLSL source.
    pub fn text(&self) -> (r: Option<&String>)
        ensures
            r.is_some() == text_of(*self).is_some(),
            r.is_some() ==> Some(r.unwrap()@) == text_of(*self),
    {
        match self {
            Source::Wgsl(t) => Some(t),
            Source::Glsl(t, _) => Some(t),
            Source::SpirV(_) => None,
        }
    }
}

} // verus!
