//! Assembling shader source text before it is handed to a compiler.
//!
//! A shader stage's source is its shared library files concatenated in
//! order, each followed by a line-counter reset so diagnostics point into
//! the right file, then the stage's own file. Before compiling for a driver
//! that does not understand explicit descriptor-set qualifiers, those
//! qualifiers are stripped from the text; the GLSL version preamble is
//! prepended either way. Stage names also live here, both the long form for
//! diagnostics and the short form used as a file extension.

use vstd::prelude::*;

use crate::resources::ShaderStage;

verus! {

/// The result of rewriting `layout(set = N,` qualifiers to plain `layout(`.
pub uninterp spec fn strip_set_bindings(s: Seq<char>) -> Seq<char>;

/// Relies on regex's `Regex::replace_all` with a constant pattern: the
/// rewritten text depends on the input text alone.
#[verifier::external_body]
fn replace_set_bindings(glsl: &str) -> (r: String)
    ensures
        r@ == strip_set_bindings(glsl@),
{
    let re = regex::Regex::new(r"layout\s*\(set\s+=\s+\d+,").unwrap();
    re.replace_all(glsl, "layout(").to_string()
}

/// A stage source with its version preamble, rewritten for an old driver
/// when asked: such a driver does not understand explicit descriptor-set
/// qualifiers, so they are stripped; a current driver instead gets the
/// extension that defines them enabled.
pub fn preprocess_glsl(glsl: &str, old_driver: bool) -> (r: String)
    ensures
        old_driver ==> r@ == "#version 450 core\n"@ + strip_set_bindings(glsl@),
        !old_driver ==> r@ == "#version 450 core\n#extension GL_KHR_vulkan_glsl : enable\n"@
            + glsl@,
{
    if old_driver {
        let mut out: String = "#version 450 core\n".to_owned();
        let stripped = replace_set_bindings(glsl);
        out.append(stripped.as_str());
        out
    } else {
        let mut out: String = "#version 450 core\n#extension GL_KHR_vulkan_glsl : enable\n"
            .to_owned();
        out.append(glsl);
        out
    }
}

/// The concatenation of the shared library sources, each followed by a
/// line-counter reset.
pub open spec fn spec_library_concat(libs: Seq<Seq<char>>) -> Seq<char>
    decreases libs.len(),
{
    if libs.len() == 0 {
        Seq::empty()
    } else {
        spec_library_concat(libs.drop_last()) + libs.last() + "\n#line 1\n"@
    }
}

/// One stage's full source: the shared library files in order, each followed
/// by a line-counter reset, then the stage's own source.
pub fn concat_sources(lib_sources: &Vec<String>, source: &str) -> (r: String)
    ensures
        r@ == spec_library_concat(lib_sources.deep_view()) + source@,
{
    let mut out: String = String::new();
    let n = lib_sources.len();
    let mut i: usize = 0;
    while i < n
        invariant
            i <= n,
            n == lib_sources@.len(),
            out@ == spec_library_concat(lib_sources.deep_view().take(i as int)),
        decreases n - i,
    {
        out.append(lib_sources[i].as_str());
        out.append("\n#line 1\n");
        proof {
            let dv = lib_sources.deep_view();
            assert(dv.take(i + 1).drop_last() =~= dv.take(i as int));
            assert(dv.take(i + 1).last() == dv[i as int]);
            assert(dv[i as int] == lib_sources@[i as int]@);
        }
        i = i + 1;
    }
    proof {
        assert(lib_sources.deep_view().take(n as int) =~= lib_sources.deep_view());
    }
    out.append(source);
    out
}

/// Whether a stage's bytecode must be rebuilt: some input is newer than the
/// oldest output. Timestamps are seconds of a monotonic file clock.
pub fn rebuild_needed(input_times: &Vec<u64>, output_time: u64) -> (r: bool)
    ensures
        r == exists|i: int| 0 <= i < input_times@.len() && #[trigger] input_times@[i] > output_time,
{
    let n = input_times.len();
    let mut i: usize = 0;
    while i < n
        invariant
            i <= n,
            n == input_times@.len(),
            forall|t: int| 0 <= t < i ==> #[trigger] input_times@[t] <= output_time,
        decreases n - i,
    {
        if input_times[i] > output_time {
            return true;
        }
        i = i + 1;
    }
    false
}

/// The long stage name used in diagnostics.
pub fn shader_stage_name(shader_stage: ShaderStage) -> (r: &'static str)
    ensures
        shader_stage == ShaderStage::VertexShader ==> r@ == "vertex"@,
        shader_stage == ShaderStage::TessControlShader ==> r@ == "tesselation control"@,
        shader_stage == ShaderStage::TessEvalShader ==> r@ == "tesselation evaluation"@,
        shader_stage == ShaderStage::GeometryShader ==> r@ == "geometry"@,
        shader_stage == ShaderStage::FragmentShader ==> r@ == "fragment"@,
{
    match shader_stage {
        ShaderStage::VertexShader => "vertex",
        ShaderStage::TessControlShader => "tesselation control",
        ShaderStage::TessEvalShader => "tesselation evaluation",
        ShaderStage::GeometryShader => "geometry",
        ShaderStage::FragmentShader => "fragment",
    }
}

/// The short stage name used as a file extension and compiler argument.
pub fn shader_extension_name(shader_stage: ShaderStage) -> (r: &'static str)
    ensures
        shader_stage == ShaderStage::VertexShader ==> r@ == "vert"@,
        shader_stage == ShaderStage::TessControlShader ==> r@ == "tesc"@,
        shader_stage == ShaderStage::TessEvalShader ==> r@ == "tese"@,
        shader_stage == ShaderStage::GeometryShader ==> r@ == "geom"@,
        shader_stage == ShaderStage::FragmentShader ==> r@ == "frag"@,
{
    match shader_stage {
        ShaderStage::VertexShader => "vert",
        ShaderStage::TessControlShader => "tesc",
        ShaderStage::TessEvalShader => "tese",
        ShaderStage::GeometryShader => "geom",
        ShaderStage::FragmentShader => "frag",
    }
}

} // verus!
