//! Where a shader's code comes from, and which pipeline stage a GLSL file
//! is for.
use std::path::Path;
use vstd::prelude::*;

verus! {

/// The pipeline stage a GLSL shader is compiled for.
#[derive(Clone, Copy, Debug, PartialEq, Eq, Structural)]
pub enum ShaderStage {
    Vertex,
    Fragment,
    Geometry,
}

/// The source of a shader module.
#[derive(Clone, Debug)]
pub enum ShaderSource {
    /// A GLSL file at this path, for this stage.
    GLSLFile(ShaderStage, String),
    /// GLSL source text, for this stage.
    GLSLRaw(ShaderStage, String),
    /// A SPIR-V file at this path.
    SpirVFile(String),
    /// SPIR-V bytecode.
    SpirVRaw(Vec<u8>),
}

/// The extension of the file that `path` names, as `std::path::Path` finds it.
pub uninterp spec fn extension_of(path: Seq<char>) -> Option<Seq<char>>;

/// Relies on `std::path::Path::extension`: the extension of the path's file
/// name, if it has one, converted to a string (lossily, where it is not
/// UTF-8; a `&str` path always is).
#[verifier::external_body]
fn path_extension(path: &str) -> (r: Option<String>)
    ensures
        r matches Some(e) ==> extension_of(path@) == Some(e@),
        r is None ==> extension_of(path@) is None,
{
    Path::new(path).extension().map(|e| e.to_string_lossy().into_owned())
}

/// The stage that a GLSL file extension stands for.
pub open spec fn stage_for_extension(ext: Seq<char>) -> Option<ShaderStage> {
    if ext == "vert"@ || ext == "vs"@ {
        Some(ShaderStage::Vertex)
    } else if ext == "frag"@ || ext == "fs"@ {
        Some(ShaderStage::Fragment)
    } else if ext == "geom"@ || ext == "gs"@ {
        Some(ShaderStage::Geometry)
    } else {
        None
    }
}

/// The stage of the GLSL file at `path`, by its extension.
pub open spec fn stage_for_path(path: Seq<char>) -> Option<ShaderStage> {
    match extension_of(path) {
        Some(e) => stage_for_extension(e),
        None => None,
    }
}

fn stage_for(ext: &String) -> (r: Option<ShaderStage>)
    ensures
        r == stage_for_extension(ext@),
{
    if *ext == "vert".to_owned() || *ext == "vs".to_owned() {
        Some(ShaderStage::Vertex)
    } else if *ext == "frag".to_owned() || *ext == "fs".to_owned() {
        Some(ShaderStage::Fragment)
    } else if *ext == "geom".to_owned() || *ext == "gs".to_owned() {
        Some(ShaderStage::Geometry)
    } else {
        None
    }
}

impl ShaderSource {
    /// The source for the GLSL file at `path`, its stage told by the
    /// extension (`vert` or `vs`, `frag` or `fs`, `geom` or `gs`); `None`
    /// for any other extension or none.
    pub fn from_glsl_path(path: &str) -> (r: Option<ShaderSource>)
        ensures
            stage_for_path(path@) is None ==> r is None,
            stage_for_path(path@) matches Some(st) ==> r matches Some(ShaderSource::GLSLFile(s, p)) && s
                == st && p@ == path@,
    {
        let stage = match path_extension(path) {
            Some(e) => stage_for(&e),
            None => None,
        };
        match stage {
            Some(s) => Some(ShaderSource::GLSLFile(s, path.to_owned())),
            None => None,
        }
    }
}

} // verus!
