//! Shader identifiers and their on-disk paths.
//!
//! Compilation of shader source to bytecode is external work; this module
//! only fixes which shaders exist, what stage each belongs to, and where its
//! source and compiled form live.

use vstd::prelude::*;
use vstd::string::StringExecFns;

verus! {

/// Pipeline stage a shader belongs to.
#[derive(Clone, Copy, Debug, PartialEq, Eq, Structural)]
pub enum ShaderKind {
    Vertex,
    Fragment,
}

/// The shaders the renderer knows about.
#[derive(Clone, Copy, Debug, PartialEq, Eq, Structural)]
pub enum ShaderId {
    BasicVertex,
    BasicFragment,
}

impl ShaderId {
    /// Path of the shader's source file.
    pub open spec fn path_spec(self) -> Seq<char> {
        match self {
            ShaderId::BasicVertex => "shaders/basic.vert"@,
            ShaderId::BasicFragment => "shaders/basic.frag"@,
        }
    }

    /// Path of the shader's source file.
    pub fn path(&self) -> (r: String)
        ensures
            r@ == self.path_spec(),
    {
        match self {
            ShaderId::BasicVertex => "shaders/basic.vert".to_owned(),
            ShaderId::BasicFragment => "shaders/basic.frag".to_owned(),
        }
    }

    /// Path of the compiled bytecode: the source path with `.spv` appended.
    pub fn compiled_path_str(&self) -> (r: String)
        ensures
            r@ == self.path_spec() + ".spv"@,
    {
        let base = self.path();
        base.concat(".spv")
    }

    /// The stage this shader belongs to.
    pub fn kind(&self) -> (r: ShaderKind)
        ensures
            r == (match self {
                ShaderId::BasicVertex => ShaderKind::Vertex,
                ShaderId::BasicFragment => ShaderKind::Fragment,
            }),
    {
        match self {
            ShaderId::BasicVertex => ShaderKind::Vertex,
            ShaderId::BasicFragment => ShaderKind::Fragment,
        }
    }

    /// Every shader identifier, in declaration order.
    pub fn all() -> (r: Vec<ShaderId>)
        ensures
            r@ == seq![ShaderId::BasicVertex, ShaderId::BasicFragment],
    {
        let mut v: Vec<ShaderId> = Vec::new();
        v.push(ShaderId::BasicVertex);
        v.push(ShaderId::BasicFragment);
        proof {
            assert(v@ =~= seq![ShaderId::BasicVertex, ShaderId::BasicFragment]);
        }
        v
    }
}

} // verus!
