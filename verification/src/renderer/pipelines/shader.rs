use vstd::prelude::*;

use crate::error::HobbyError;
use crate::path::{extension, spec_extension};
use crate::text::str_eq;

verus! {

/// The shader programs a pipeline can be built from.
#[derive(PartialEq, Eq, Structural, Debug, Clone, Copy)]
pub enum ShaderSet {
    Basic,
}

/// The stage a shader source is compiled for.
#[derive(PartialEq, Eq, Structural, Debug, Clone, Copy)]
pub enum ShaderKind {
    Vertex,
    Fragment,
}

/// The stage named by a file extension: `vert` and `frag` name one, anything else none.
pub open spec fn spec_shader_kind(ext: Seq<char>) -> Option<ShaderKind> {
    if ext == "vert"@ {
        Some(ShaderKind::Vertex)
    } else if ext == "frag"@ {
        Some(ShaderKind::Fragment)
    } else {
        None
    }
}

/// The stage a shader file with this extension is compiled for, if any.
pub fn shader_kind_from_extension(ext: &str) -> (r: Option<ShaderKind>)
    ensures
        r == spec_shader_kind(ext@),
{
    if str_eq(ext, "vert") {
        Some(ShaderKind::Vertex)
    } else if str_eq(ext, "frag") {
        Some(ShaderKind::Fragment)
    } else {
        None
    }
}

/// The source files of a shader set, vertex stage first.
pub fn shader_file_names(shader_set: ShaderSet) -> (r: Vec<String>)
    ensures
        r@.len() == 2,
        r@[0]@ == "basic.vert"@,
        r@[1]@ == "basic.frag"@,
{
    let mut names: Vec<String> = Vec::new();
    match shader_set {
        ShaderSet::Basic => {
            names.push(String::from_str("basic.vert"));
            names.push(String::from_str("basic.frag"));
        },
    }
    names
}

/// A shader source file and the stage it is compiled for.
pub struct ShaderSource {
    pub file_name: String,
    pub kind: ShaderKind,
}

/// The stage a shader file is compiled for, from its extension; a file whose extension
/// names no stage is refused.
pub fn shader_kind_for_file(file_name: &str) -> (r: Result<ShaderKind, HobbyError>)
    requires
        spec_extension(file_name@) is Some,
    ensures
        match spec_shader_kind(spec_extension(file_name@).unwrap()) {
            Some(kind) => r == Ok::<ShaderKind, HobbyError>(kind),
            None => r matches Err(HobbyError::UnknownShaderType { shader_type, file_name: f }) && (
            shader_type@ == spec_extension(file_name@).unwrap() && f@ == file_name@),
        },
{
    let ext = extension(file_name).unwrap();
    match shader_kind_from_extension(ext.as_str()) {
        Some(kind) => Ok(kind),
        None => Err(
            HobbyError::UnknownShaderType { shader_type: ext, file_name: file_name.to_owned() },
        ),
    }
}

/// The sources of a shader set with their stages, in order; the first file whose
/// stage is unknown makes the whole set fail.
pub fn get_shader_sources(shader_set: ShaderSet) -> (r: Result<Vec<ShaderSource>, HobbyError>)
    ensures
        r matches Ok(sources) && sources@.len() == 2
            && sources@[0].file_name@ == "basic.vert"@ && sources@[0].kind == ShaderKind::Vertex
            && sources@[1].file_name@ == "basic.frag"@ && sources@[1].kind
            == ShaderKind::Fragment,
{
    let names = shader_file_names(shader_set);
    proof {
        lemma_basic_extensions();
    }
    let mut sources: Vec<ShaderSource> = Vec::new();
    assert(spec_shader_kind("vert"@) == Some(ShaderKind::Vertex));
    let vert_kind = match shader_kind_for_file(names[0].as_str()) {
        Ok(kind) => kind,
        Err(e) => return Err(e),
    };
    sources.push(ShaderSource { file_name: names[0].clone(), kind: vert_kind });
    proof {
        reveal_strlit("vert");
        reveal_strlit("frag");
        assert("frag"@[0] != "vert"@[0]);
    }
    assert(spec_shader_kind("frag"@) == Some(ShaderKind::Fragment));
    let frag_kind = match shader_kind_for_file(names[1].as_str()) {
        Ok(kind) => kind,
        Err(e) => return Err(e),
    };
    sources.push(ShaderSource { file_name: names[1].clone(), kind: frag_kind });
    Ok(sources)
}

proof fn lemma_basic_extensions()
    ensures
        spec_extension("basic.vert"@) == Some("vert"@),
        spec_extension("basic.frag"@) == Some("frag"@),
{
    reveal_strlit("basic.vert");
    reveal_strlit("basic.frag");
    reveal_strlit("vert");
    reveal_strlit("frag");
    reveal_with_fuel(crate::path::last_dot, 6);
    assert(crate::path::last_dot("basic.vert"@) == 5);
    assert(crate::path::last_dot("basic.frag"@) == 5);
    assert("basic.vert"@.subrange(6, 10) =~= "vert"@);
    assert("basic.frag"@.subrange(6, 10) =~= "frag"@);
}

} // verus!
