use triangle_app::canvas::Canvas;
use triangle_app::gl::{DrawMode, GlCall, GlReply, ShaderText};
use triangle_app::setup::{BuildError, BuildStep, TriangleBuilder};
use triangle_app::shader::{shader_body, shader_source, shader_version, ShaderStage, Target};
use triangle_app::triangle::RotatingTriangle;

type Call = GlCall<u32, u32, u32, f32>;
type Reply = GlReply<u32, u32, u32>;

/// A context that hands out increasing handles and records every call.
struct MockContext {
    next_handle: u32,
    calls: Vec<Call>,
    compile_ok: bool,
    link_ok: bool,
}

impl MockContext {
    fn new() -> Self {
        MockContext { next_handle: 1, calls: Vec::new(), compile_ok: true, link_ok: true }
    }

    fn handle(&mut self) -> u32 {
        let h = self.next_handle;
        self.next_handle += 1;
        h
    }

    fn execute(&mut self, call: Call) -> Reply {
        self.calls.push(call);
        match call {
            GlCall::CreateProgram => GlReply::Program(Ok(self.handle())),
            GlCall::CreateShader(_) => GlReply::Shader(Ok(self.handle())),
            GlCall::CreateVertexArray => GlReply::VertexArray(Ok(self.handle())),
            GlCall::GetShaderCompileStatus(_) => GlReply::Status(self.compile_ok),
            GlCall::GetProgramLinkStatus(_) => GlReply::Status(self.link_ok),
            GlCall::GetShaderInfoLog(_) => GlReply::InfoLog("0:3: syntax error".to_string()),
            GlCall::GetProgramInfoLog(_) => GlReply::InfoLog("link error".to_string()),
            _ => GlReply::Done,
        }
    }

    fn count(&self, call: Call) -> usize {
        self.calls.iter().filter(|c| **c == call).count()
    }

    fn build(&mut self, target: Target) -> Result<RotatingTriangle<u32, u32>, BuildError> {
        let (mut builder, mut call) = TriangleBuilder::<u32, u32>::start::<u32, f32>(target);
        loop {
            let reply = self.execute(call);
            match builder.advance::<u32, f32>(reply) {
                BuildStep::Call(c) => call = c,
                BuildStep::Finished(t) => return Ok(t),
                BuildStep::Failed(e) => return Err(e),
            }
        }
    }
}

#[test]
fn version_line_depends_on_target() {
    assert_eq!(shader_version(Target::Web), "#version 300 es");
    assert_eq!(shader_version(Target::Desktop), "#version 330");
}

#[test]
fn source_is_version_line_then_body() {
    let s = shader_source(Target::Desktop, ShaderStage::Vertex);
    assert_eq!(s, format!("#version 330\n{}", shader_body(ShaderStage::Vertex)));
    assert!(s.contains("uniform float u_angle;"));
    assert!(s.contains("cos(u_angle)"));
    let f = shader_source(Target::Web, ShaderStage::Fragment);
    assert!(f.starts_with("#version 300 es\n"));
    assert!(f.contains("out_color = v_color;"));
}

#[test]
fn successful_build_makes_the_expected_calls() {
    let mut gl = MockContext::new();
    let t = gl.build(Target::Desktop).unwrap();
    // program 1, vertex shader 2, fragment shader 3, vertex array 4
    assert_eq!(t, RotatingTriangle { program: 1, vertex_array: 4 });
    let vs = ShaderText { target: Target::Desktop, stage: ShaderStage::Vertex };
    let fs = ShaderText { target: Target::Desktop, stage: ShaderStage::Fragment };
    let expected: Vec<Call> = vec![
        GlCall::CreateProgram,
        GlCall::CreateShader(ShaderStage::Vertex),
        GlCall::ShaderSource(2, vs),
        GlCall::CompileShader(2),
        GlCall::GetShaderCompileStatus(2),
        GlCall::AttachShader(1, 2),
        GlCall::CreateShader(ShaderStage::Fragment),
        GlCall::ShaderSource(3, fs),
        GlCall::CompileShader(3),
        GlCall::GetShaderCompileStatus(3),
        GlCall::AttachShader(1, 3),
        GlCall::LinkProgram(1),
        GlCall::GetProgramLinkStatus(1),
        GlCall::DetachShader(1, 2),
        GlCall::DeleteShader(2),
        GlCall::DetachShader(1, 3),
        GlCall::DeleteShader(3),
        GlCall::CreateVertexArray,
    ];
    assert_eq!(gl.calls, expected);
}

#[test]
fn create_then_destroy_releases_each_object_once() {
    let mut gl = MockContext::new();
    let t = gl.build(Target::Web).unwrap();
    let mut canvas = Canvas::new(t);
    for c in canvas.release::<u32, f32>(true) {
        gl.execute(c);
    }
    assert_eq!(gl.count(GlCall::DeleteProgram(t.program)), 1);
    assert_eq!(gl.count(GlCall::DeleteVertexArray(t.vertex_array)), 1);
    assert_eq!(gl.count(GlCall::DeleteShader(2)), 1);
    assert_eq!(gl.count(GlCall::DeleteShader(3)), 1);
    // a second release does nothing
    assert!(canvas.release::<u32, f32>(true).is_empty());
    assert!(canvas.released());
}

#[test]
fn release_without_context_is_skipped() {
    let t = RotatingTriangle { program: 7u32, vertex_array: 8u32 };
    let mut canvas = Canvas::new(t);
    assert!(canvas.release::<u32, f32>(false).is_empty());
    assert!(!canvas.released());
    assert_eq!(canvas.paint::<u32, f32>(1.0).len(), 4);
}

fn draw_calls(calls: &[Call]) -> Vec<Call> {
    calls.iter().copied().filter(|c| matches!(c, GlCall::DrawArrays { .. })).collect()
}

#[test]
fn paint_draws_one_triangle_for_any_angle() {
    let t = RotatingTriangle { program: 5u32, vertex_array: 6u32 };
    for angle in [0.0f32, std::f32::consts::FRAC_PI_2, -1.25, 1000.0] {
        let calls = t.paint::<u32, f32>(angle);
        assert_eq!(
            draw_calls(&calls),
            vec![GlCall::DrawArrays { mode: DrawMode::Triangles, first: 0, count: 3 }]
        );
        assert_eq!(
            calls,
            vec![
                GlCall::UseProgram(5),
                GlCall::SetUniform1 { program: 5, name: "u_angle", value: angle },
                GlCall::BindVertexArray(6),
                GlCall::DrawArrays { mode: DrawMode::Triangles, first: 0, count: 3 },
            ]
        );
    }
}

#[test]
fn destroy_deletes_program_and_vertex_array() {
    let t = RotatingTriangle { program: 5u32, vertex_array: 6u32 };
    let calls = t.destroy::<u32, f32>();
    assert_eq!(calls, vec![GlCall::DeleteProgram(5), GlCall::DeleteVertexArray(6)]);
}

#[test]
fn canvas_does_not_paint_after_release() {
    let t = RotatingTriangle { program: 5u32, vertex_array: 6u32 };
    let mut canvas = Canvas::new(t);
    assert_eq!(canvas.paint::<u32, f32>(0.5).len(), 4);
    assert_eq!(canvas.release::<u32, f32>(true).len(), 2);
    assert!(canvas.paint::<u32, f32>(0.5).is_empty());
}

#[test]
fn compile_failure_reports_the_log() {
    let mut gl = MockContext::new();
    gl.compile_ok = false;
    let e = gl.build(Target::Desktop).unwrap_err();
    assert_eq!(
        e,
        BuildError::CompileFailed { stage: ShaderStage::Vertex, log: "0:3: syntax error".to_string() }
    );
    assert_eq!(gl.calls.last(), Some(&GlCall::GetShaderInfoLog(2)));
}

#[test]
fn link_failure_reports_the_log() {
    let mut gl = MockContext::new();
    gl.link_ok = false;
    let e = gl.build(Target::Desktop).unwrap_err();
    assert_eq!(e, BuildError::LinkFailed { log: "link error".to_string() });
    assert_eq!(gl.calls.last(), Some(&GlCall::GetProgramInfoLog(1)));
}

#[test]
fn fragment_compile_failure_names_the_fragment_stage() {
    let (mut b, _) = TriangleBuilder::<u32, u32>::start::<u32, f32>(Target::Desktop);
    let replies: Vec<Reply> = vec![
        GlReply::Program(Ok(1)),
        GlReply::Shader(Ok(2)),
        GlReply::Done,
        GlReply::Done,
        GlReply::Status(true),
        GlReply::Done,
        GlReply::Shader(Ok(3)),
        GlReply::Done,
        GlReply::Done,
        GlReply::Status(false),
    ];
    for r in replies {
        assert!(matches!(b.advance::<u32, f32>(r), BuildStep::Call(_)));
    }
    let last = b.advance::<u32, f32>(GlReply::InfoLog("bad".to_string()));
    assert_eq!(
        last,
        BuildStep::Failed(BuildError::CompileFailed {
            stage: ShaderStage::Fragment,
            log: "bad".to_string()
        })
    );
}

#[test]
fn creation_errors_carry_the_driver_message() {
    let (mut b, call) = TriangleBuilder::<u32, u32>::start::<u32, f32>(Target::Web);
    assert_eq!(call, GlCall::CreateProgram);
    let s = b.advance::<u32, f32>(GlReply::Program(Err("no program".to_string())));
    assert_eq!(s, BuildStep::Failed(BuildError::CannotCreateProgram("no program".to_string())));

    let (mut b, _) = TriangleBuilder::<u32, u32>::start::<u32, f32>(Target::Web);
    b.advance::<u32, f32>(GlReply::Program(Ok(1)));
    let s = b.advance::<u32, f32>(GlReply::Shader(Err("no shader".to_string())));
    assert_eq!(
        s,
        BuildStep::Failed(BuildError::CannotCreateShader {
            stage: ShaderStage::Vertex,
            message: "no shader".to_string()
        })
    );
}

#[test]
fn vertex_array_failure_is_reported() {
    let (mut b, _) = TriangleBuilder::<u32, u32>::start::<u32, f32>(Target::Desktop);
    let replies: Vec<Reply> = vec![
        GlReply::Program(Ok(1)),
        GlReply::Shader(Ok(2)),
        GlReply::Done,
        GlReply::Done,
        GlReply::Status(true),
        GlReply::Done,
        GlReply::Shader(Ok(3)),
        GlReply::Done,
        GlReply::Done,
        GlReply::Status(true),
        GlReply::Done,
        GlReply::Done,
        GlReply::Status(true),
        GlReply::Done,
        GlReply::Done,
        GlReply::Done,
        GlReply::Done,
    ];
    for r in replies {
        assert!(matches!(b.advance::<u32, f32>(r), BuildStep::Call(_)));
    }
    let s = b.advance::<u32, f32>(GlReply::VertexArray(Err("no vao".to_string())));
    assert_eq!(s, BuildStep::Failed(BuildError::CannotCreateVertexArray("no vao".to_string())));
}

#[test]
fn unexpected_reply_fails_and_ends_the_build() {
    let (mut b, _) = TriangleBuilder::<u32, u32>::start::<u32, f32>(Target::Desktop);
    let s = b.advance::<u32, f32>(GlReply::Done);
    assert_eq!(s, BuildStep::Failed(BuildError::UnexpectedReply));
    let s = b.advance::<u32, f32>(GlReply::Program(Ok(1)));
    assert_eq!(s, BuildStep::Failed(BuildError::UnexpectedReply));
}
