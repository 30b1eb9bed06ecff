//! The embedded shader pair. Each stage exists in two textual dialects of
//! the same program, one for older contexts (GLSL 1.20) and one for core
//! profiles (GLSL 1.50); exactly one dialect is selected at link time from
//! the shading-language version of the created context.

use vstd::prelude::*;

verus! {

/// One of the two textual dialects a shader stage is written in.
#[derive(Clone, Copy, Debug, PartialEq, Eq, Structural)]
pub enum Dialect {
    /// GLSL 1.20, for legacy contexts.
    Glsl120,
    /// GLSL 1.50 core, for core-profile contexts.
    Glsl150,
}

/// The shading-language version a GLSL 1.20 source requires.
pub const GLSL_120: u32 = 120;

/// The shading-language version a GLSL 1.50 source requires.
pub const GLSL_150: u32 = 150;

/// Which dialect a context with the given shading-language version links:
/// the newest dialect the context supports, or none when even GLSL 1.20 is
/// out of reach (linking then fails).
pub open spec fn spec_select_dialect(glsl_version: u32) -> Option<Dialect> {
    if glsl_version >= GLSL_150 {
        Some(Dialect::Glsl150)
    } else if glsl_version >= GLSL_120 {
        Some(Dialect::Glsl120)
    } else {
        None
    }
}

/// Selects the dialect to link for a context whose shading-language version
/// is `glsl_version`.
pub fn select_dialect(glsl_version: u32) -> (d: Option<Dialect>)
    ensures
        d == spec_select_dialect(glsl_version),
{
    if glsl_version >= GLSL_150 {
        Some(Dialect::Glsl150)
    } else if glsl_version >= GLSL_120 {
        Some(Dialect::Glsl120)
    } else {
        None
    }
}

/// The vertex-stage source in the given dialect.
pub open spec fn spec_vertex_source(d: Dialect) -> Seq<char> {
    match d {
        Dialect::Glsl120 => "
    #version 120

    attribute vec2 a_Pos;
    attribute vec3 a_Color;
    varying vec4 v_Color;

    void main() {
        v_Color = vec4(a_Color, 1.0);
        gl_Position = vec4(a_Pos, 0.0, 1.0);
    }
    "@,
        Dialect::Glsl150 => "
    #version 150 core

    in vec2 a_Pos;
    in vec3 a_Color;
    out vec4 v_Color;

    void main() {
        v_Color = vec4(a_Color, 1.0);
        gl_Position = vec4(a_Pos, 0.0, 1.0);
    }
    "@,
    }
}

/// The fragment-stage source in the given dialect.
pub open spec fn spec_fragment_source(d: Dialect) -> Seq<char> {
    match d {
        Dialect::Glsl120 => "
    #version 120

    varying vec4 v_Color;

    void main() {
        gl_FragColor = v_Color;
    }
    "@,
        Dialect::Glsl150 => "
    #version 150 core

    in vec4 v_Color;
    out vec4 o_Color;

    void main() {
        o_Color = v_Color;
    }
    "@,
    }
}

/// Hands out the embedded vertex-stage source for a dialect.
pub fn vertex_source(d: Dialect) -> (s: &'static str)
    ensures
        s@ == spec_vertex_source(d),
{
    match d {
        Dialect::Glsl120 => "
    #version 120

    attribute vec2 a_Pos;
    attribute vec3 a_Color;
    varying vec4 v_Color;

    void main() {
        v_Color = vec4(a_Color, 1.0);
        gl_Position = vec4(a_Pos, 0.0, 1.0);
    }
    ",
        Dialect::Glsl150 => "
    #version 150 core

    in vec2 a_Pos;
    in vec3 a_Color;
    out vec4 v_Color;

    void main() {
        v_Color = vec4(a_Color, 1.0);
        gl_Position = vec4(a_Pos, 0.0, 1.0);
    }
    ",
    }
}

/// Hands out the embedded fragment-stage source for a dialect.
pub fn fragment_source(d: Dialect) -> (s: &'static str)
    ensures
        s@ == spec_fragment_source(d),
{
    match d {
        Dialect::Glsl120 => "
    #version 120

    varying vec4 v_Color;

    void main() {
        gl_FragColor = v_Color;
    }
    ",
        Dialect::Glsl150 => "
    #version 150 core

    in vec4 v_Color;
    out vec4 o_Color;

    void main() {
        o_Color = v_Color;
    }
    ",
    }
}

/// The linked shader program: opaque GPU state to everyone else, so the
/// library keeps only what it decided, the dialect that was linked.
#[derive(Clone, Copy, Debug, PartialEq, Eq, Structural)]
pub struct Program {
    /// The dialect both stages were compiled in.
    pub dialect: Dialect,
}

/// Links the shader pair for a context with the given shading-language
/// version: both stages in the one selected dialect, or `None` when no
/// dialect fits the context.
pub fn link_program(glsl_version: u32) -> (p: Option<Program>)
    ensures
        match spec_select_dialect(glsl_version) {
            Some(d) => p == Some(Program { dialect: d }),
            None => p is None,
        },
{
    match select_dialect(glsl_version) {
        Some(d) => Some(Program { dialect: d }),
        None => None,
    }
}

/// The two dialects are genuinely different texts for both stages, so the
/// selection is an observable decision.
pub proof fn lemma_dialect_sources_differ()
    ensures
        spec_vertex_source(Dialect::Glsl120) != spec_vertex_source(Dialect::Glsl150),
        spec_fragment_source(Dialect::Glsl120) != spec_fragment_source(Dialect::Glsl150),
{
    reveal_strlit("
    #version 120

    attribute vec2 a_Pos;
    attribute vec3 a_Color;
    varying vec4 v_Color;

    void main() {
        v_Color = vec4(a_Color, 1.0);
        gl_Position = vec4(a_Pos, 0.0, 1.0);
    }
    ");
    reveal_strlit("
    #version 150 core

    in vec2 a_Pos;
    in vec3 a_Color;
    out vec4 v_Color;

    void main() {
        v_Color = vec4(a_Color, 1.0);
        gl_Position = vec4(a_Pos, 0.0, 1.0);
    }
    ");
    reveal_strlit("
    #version 120

    varying vec4 v_Color;

    void main() {
        gl_FragColor = v_Color;
    }
    ");
    reveal_strlit("
    #version 150 core

    in vec4 v_Color;
    out vec4 o_Color;

    void main() {
        o_Color = v_Color;
    }
    ");
    assert(spec_vertex_source(Dialect::Glsl120)[15] != spec_vertex_source(Dialect::Glsl150)[15]);
    assert(spec_fragment_source(Dialect::Glsl120)[15] != spec_fragment_source(
        Dialect::Glsl150,
    )[15]);
}

} // verus!
