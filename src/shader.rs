//! The shader sources of the triangle and the shading-language version they are
//! compiled with.
use vstd::prelude::*;

verus! {

/// Where the program runs: the shading-language profile depends on it.
#[derive(Clone, Copy, Debug, PartialEq, Eq, Structural)]
pub enum Target {
    /// A browser: WebGL 2, GLSL ES 3.00.
    Web,
    /// A desktop OpenGL 3.3 context.
    Desktop,
}

/// The two programmable stages the triangle uses.
#[derive(Clone, Copy, Debug, PartialEq, Eq, Structural)]
pub enum ShaderStage {
    Vertex,
    Fragment,
}

/// Version line for GLSL ES 3.00 (WebGL 2).
pub const WEB_VERSION: &'static str = "#version 300 es";

/// Version line for desktop GLSL 3.30.
pub const DESKTOP_VERSION: &'static str = "#version 330";

/// Name of the uniform that holds the rotation angle.
pub const ANGLE_UNIFORM: &'static str = "u_angle";

/// Three hard-coded points; the x coordinate is scaled by the cosine of the
/// angle, and each corner gets one of red, green and blue.
pub const VERTEX_BODY: &'static str = "
    const vec2 verts[3] = vec2[3](
        vec2(0.0, 1.0),
        vec2(-1.0, -1.0),
        vec2(1.0, -1.0)
    );
    const vec4 colors[3] = vec4[3](
        vec4(1.0, 0.0, 0.0, 1.0),
        vec4(0.0, 1.0, 0.0, 1.0),
        vec4(0.0, 0.0, 1.0, 1.0)
    );
    out vec4 v_color;
    uniform float u_angle;
    void main() {
        v_color = colors[gl_VertexID];
        gl_Position = vec4(verts[gl_VertexID], 0.0, 1.0);
        gl_Position.x *= cos(u_angle);
    }
";

/// Passes the interpolated vertex colour through.
pub const FRAGMENT_BODY: &'static str = "
    precision mediump float;
    in vec4 v_color;
    out vec4 out_color;
    void main() {
        out_color = v_color;
    }
";

pub open spec fn spec_version(target: Target) -> Seq<char> {
    match target {
        Target::Web => WEB_VERSION@,
        Target::Desktop => DESKTOP_VERSION@,
    }
}

pub open spec fn spec_body(stage: ShaderStage) -> Seq<char> {
    match stage {
        ShaderStage::Vertex => VERTEX_BODY@,
        ShaderStage::Fragment => FRAGMENT_BODY@,
    }
}

/// The full text handed to the compiler: the version line, a line break, the body.
pub open spec fn spec_source(target: Target, stage: ShaderStage) -> Seq<char> {
    spec_version(target) + seq!['\n'] + spec_body(stage)
}

/// The version line for `target`.
pub fn shader_version(target: Target) -> (r: &'static str)
    ensures
        r@ == spec_version(target),
{
    match target {
        Target::Web => WEB_VERSION,
        Target::Desktop => DESKTOP_VERSION,
    }
}

/// The body of the shader for `stage`, without its version line.
pub fn shader_body(stage: ShaderStage) -> (r: &'static str)
    ensures
        r@ == spec_body(stage),
{
    match stage {
        ShaderStage::Vertex => VERTEX_BODY,
        ShaderStage::Fragment => FRAGMENT_BODY,
    }
}

/// Relies on `std::format!`: `"{}\n{}"` writes the first string, a line break and
/// the second string.
#[verifier::external_body]
fn join_lines(first: &str, second: &str) -> (r: String)
    ensures
        r@ == first@ + seq!['\n'] + second@,
{
    format!("{}\n{}", first, second)
}

/// The complete source of the shader for `stage` when built for `target`.
pub fn shader_source(target: Target, stage: ShaderStage) -> (r: String)
    ensures
        r@ == spec_source(target, stage),
{
    join_lines(shader_version(target), shader_body(stage))
}

} // verus!
