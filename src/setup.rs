//! The protocol that builds a `RotatingTriangle`: create a program, compile and
//! attach a vertex and a fragment shader, link, drop the shader objects, and
//! allocate one vertex array.
//!
//! The builder issues one GL call at a time and is told what the context
//! answered; from that it decides the next call, the finished triangle, or why
//! the build failed.
use vstd::prelude::*;
use crate::gl::{GlCall, GlReply, ShaderText};
use crate::shader::{ShaderStage, Target};
use crate::triangle::RotatingTriangle;

verus! {

/// Why a triangle could not be built; each carries what the driver reported.
#[derive(Debug, PartialEq, Eq)]
pub enum BuildError {
    CannotCreateProgram(String),
    CannotCreateShader { stage: ShaderStage, message: String },
    /// The compile status of `stage` was false; `log` is its info log.
    CompileFailed { stage: ShaderStage, log: String },
    /// The link status was false; `log` is the program's info log.
    LinkFailed { log: String },
    CannotCreateVertexArray(String),
    /// The reply does not answer the call that was made, or the build is over.
    UnexpectedReply,
}

/// What the builder does after a reply.
#[derive(Debug, PartialEq, Eq)]
pub enum BuildStep<P, S, V, A> {
    /// Make this call and hand its reply to `advance`.
    Call(GlCall<P, S, V, A>),
    Finished(RotatingTriangle<P, V>),
    Failed(BuildError),
}

/// The call whose reply the builder waits for, with the objects made so far.
/// `vertex` is the vertex shader once it is attached; while it is `None` the
/// shader being handled is the vertex shader, after that the fragment shader.
#[derive(Clone, Copy, Debug, PartialEq, Eq)]
#[allow(inconsistent_fields)]
pub enum Phase<P, S> {
    CreatingProgram,
    CreatingShader { program: P, vertex: Option<S> },
    Sourcing { program: P, vertex: Option<S>, shader: S },
    Compiling { program: P, vertex: Option<S>, shader: S },
    CheckingCompile { program: P, vertex: Option<S>, shader: S },
    ReadingShaderLog { stage: ShaderStage },
    Attaching { program: P, vertex: Option<S>, shader: S },
    Linking { program: P, vertex: S, fragment: S },
    CheckingLink { program: P, vertex: S, fragment: S },
    ReadingProgramLog,
    DetachingVertex { program: P, vertex: S, fragment: S },
    DeletingVertex { program: P, fragment: S },
    DetachingFragment { program: P, fragment: S },
    DeletingFragment { program: P },
    CreatingVertexArray { program: P },
    /// Finished or failed: no call is pending.
    Over,
}

/// The stage of the shader being handled, given the vertex shader made so far.
pub open spec fn stage_of<S>(vertex: Option<S>) -> ShaderStage {
    match vertex {
        None => ShaderStage::Vertex,
        Some(_) => ShaderStage::Fragment,
    }
}

/// The protocol: from the pending call and its reply, the next phase and step.
pub open spec fn transition<P, S, V, A>(
    target: Target,
    phase: Phase<P, S>,
    reply: GlReply<P, S, V>,
) -> (Phase<P, S>, BuildStep<P, S, V, A>) {
    match (phase, reply) {
        (Phase::CreatingProgram, GlReply::Program(Ok(program))) => (
            Phase::CreatingShader { program, vertex: None },
            BuildStep::Call(GlCall::CreateShader(ShaderStage::Vertex)),
        ),
        (Phase::CreatingProgram, GlReply::Program(Err(e))) => (
            Phase::Over,
            BuildStep::Failed(BuildError::CannotCreateProgram(e)),
        ),
        (Phase::CreatingShader { program, vertex }, GlReply::Shader(Ok(shader))) => (
            Phase::Sourcing { program, vertex, shader },
            BuildStep::Call(
                GlCall::ShaderSource(shader, ShaderText { target, stage: stage_of(vertex) }),
            ),
        ),
        (Phase::CreatingShader { program, vertex }, GlReply::Shader(Err(e))) => (
            Phase::Over,
            BuildStep::Failed(BuildError::CannotCreateShader { stage: stage_of(vertex), message: e }),
        ),
        (Phase::Sourcing { program, vertex, shader }, GlReply::Done) => (
            Phase::Compiling { program, vertex, shader },
            BuildStep::Call(GlCall::CompileShader(shader)),
        ),
        (Phase::Compiling { program, vertex, shader }, GlReply::Done) => (
            Phase::CheckingCompile { program, vertex, shader },
            BuildStep::Call(GlCall::GetShaderCompileStatus(shader)),
        ),
        (Phase::CheckingCompile { program, vertex, shader }, GlReply::Status(ok)) => if ok {
            (
                Phase::Attaching { program, vertex, shader },
                BuildStep::Call(GlCall::AttachShader(program, shader)),
            )
        } else {
            (
                Phase::ReadingShaderLog { stage: stage_of(vertex) },
                BuildStep::Call(GlCall::GetShaderInfoLog(shader)),
            )
        },
        (Phase::ReadingShaderLog { stage }, GlReply::InfoLog(log)) => (
            Phase::Over,
            BuildStep::Failed(BuildError::CompileFailed { stage, log }),
        ),
        (Phase::Attaching { program, vertex, shader }, GlReply::Done) => match vertex {
            None => (
                Phase::CreatingShader { program, vertex: Some(shader) },
                BuildStep::Call(GlCall::CreateShader(ShaderStage::Fragment)),
            ),
            Some(v) => (
                Phase::Linking { program, vertex: v, fragment: shader },
                BuildStep::Call(GlCall::LinkProgram(program)),
            ),
        },
        (Phase::Linking { program, vertex, fragment }, GlReply::Done) => (
            Phase::CheckingLink { program, vertex, fragment },
            BuildStep::Call(GlCall::GetProgramLinkStatus(program)),
        ),
        (Phase::CheckingLink { program, vertex, fragment }, GlReply::Status(ok)) => if ok {
            (
                Phase::DetachingVertex { program, vertex, fragment },
                BuildStep::Call(GlCall::DetachShader(program, vertex)),
            )
        } else {
            (Phase::ReadingProgramLog, BuildStep::Call(GlCall::GetProgramInfoLog(program)))
        },
        (Phase::ReadingProgramLog, GlReply::InfoLog(log)) => (
            Phase::Over,
            BuildStep::Failed(BuildError::LinkFailed { log }),
        ),
        (Phase::DetachingVertex { program, vertex, fragment }, GlReply::Done) => (
            Phase::DeletingVertex { program, fragment },
            BuildStep::Call(GlCall::DeleteShader(vertex)),
        ),
        (Phase::DeletingVertex { program, fragment }, GlReply::Done) => (
            Phase::DetachingFragment { program, fragment },
            BuildStep::Call(GlCall::DetachShader(program, fragment)),
        ),
        (Phase::DetachingFragment { program, fragment }, GlReply::Done) => (
            Phase::DeletingFragment { program },
            BuildStep::Call(GlCall::DeleteShader(fragment)),
        ),
        (Phase::DeletingFragment { program }, GlReply::Done) => (
            Phase::CreatingVertexArray { program },
            BuildStep::Call(GlCall::CreateVertexArray),
        ),
        (Phase::CreatingVertexArray { program }, GlReply::VertexArray(Ok(vertex_array))) => (
            Phase::Over,
            BuildStep::Finished(RotatingTriangle { program, vertex_array }),
        ),
        (Phase::CreatingVertexArray { program }, GlReply::VertexArray(Err(e))) => (
            Phase::Over,
            BuildStep::Failed(BuildError::CannotCreateVertexArray(e)),
        ),
        _ => (Phase::Over, BuildStep::Failed(BuildError::UnexpectedReply)),
    }
}

/// The steps the builder takes for a sequence of replies, starting in `phase`.
pub open spec fn run<P, S, V, A>(
    target: Target,
    phase: Phase<P, S>,
    replies: Seq<GlReply<P, S, V>>,
) -> Seq<BuildStep<P, S, V, A>>
    decreases replies.len(),
{
    if replies.len() == 0 {
        Seq::empty()
    } else {
        let (next, step) = transition::<P, S, V, A>(target, phase, replies[0]);
        seq![step] + run::<P, S, V, A>(target, next, replies.drop_first())
    }
}

/// A context that hands out program `p`, shaders `vs` and `fs`, vertex array `v`,
/// and reports every compile and the link as successful.
pub open spec fn success_replies<P, S, V>(p: P, vs: S, fs: S, v: V) -> Seq<GlReply<P, S, V>> {
    seq![
        GlReply::Program(Ok(p)),
        GlReply::Shader(Ok(vs)),
        GlReply::Done,
        GlReply::Done,
        GlReply::Status(true),
        GlReply::Done,
        GlReply::Shader(Ok(fs)),
        GlReply::Done,
        GlReply::Done,
        GlReply::Status(true),
        GlReply::Done,
        GlReply::Done,
        GlReply::Status(true),
        GlReply::Done,
        GlReply::Done,
        GlReply::Done,
        GlReply::Done,
        GlReply::VertexArray(Ok(v)),
    ]
}

/// Every call of a successful build, in order, from the creation of the program
/// to the creation of the vertex array.
pub open spec fn build_calls<P, S, V, A>(target: Target, p: P, vs: S, fs: S) -> Seq<
    GlCall<P, S, V, A>,
> {
    seq![
        GlCall::CreateProgram,
        GlCall::CreateShader(ShaderStage::Vertex),
        GlCall::ShaderSource(vs, ShaderText { target, stage: ShaderStage::Vertex }),
        GlCall::CompileShader(vs),
        GlCall::GetShaderCompileStatus(vs),
        GlCall::AttachShader(p, vs),
        GlCall::CreateShader(ShaderStage::Fragment),
        GlCall::ShaderSource(fs, ShaderText { target, stage: ShaderStage::Fragment }),
        GlCall::CompileShader(fs),
        GlCall::GetShaderCompileStatus(fs),
        GlCall::AttachShader(p, fs),
        GlCall::LinkProgram(p),
        GlCall::GetProgramLinkStatus(p),
        GlCall::DetachShader(p, vs),
        GlCall::DeleteShader(vs),
        GlCall::DetachShader(p, fs),
        GlCall::DeleteShader(fs),
        GlCall::CreateVertexArray,
    ]
}

/// When every object is created and every compile and the link succeed, the
/// builder makes exactly the calls of `build_calls` (the first of them is the
/// one `start` returns) and then hands out the program and the vertex array it
/// was given.
pub proof fn lemma_successful_build<P, S, V, A>(target: Target, p: P, vs: S, fs: S, v: V)
    ensures
        run::<P, S, V, A>(target, Phase::CreatingProgram, success_replies(p, vs, fs, v))
            == build_calls::<P, S, V, A>(target, p, vs, fs).drop_first().map_values(
            |c: GlCall<P, S, V, A>| BuildStep::<P, S, V, A>::Call(c),
        ).push(BuildStep::Finished(RotatingTriangle { program: p, vertex_array: v })),
{
    reveal_with_fuel(run, 19);
    let replies = success_replies::<P, S, V>(p, vs, fs, v);
    let steps = run::<P, S, V, A>(target, Phase::CreatingProgram, replies);
    let expected = build_calls::<P, S, V, A>(target, p, vs, fs).drop_first().map_values(
        |c: GlCall<P, S, V, A>| BuildStep::<P, S, V, A>::Call(c),
    ).push(BuildStep::Finished(RotatingTriangle { program: p, vertex_array: v }));
    assert(steps =~= expected);
}

/// The program a phase holds, if it holds one.
pub open spec fn phase_program<P, S>(phase: Phase<P, S>) -> Option<P> {
    match phase {
        Phase::CreatingShader { program, .. } => Some(program),
        Phase::Sourcing { program, .. } => Some(program),
        Phase::Compiling { program, .. } => Some(program),
        Phase::CheckingCompile { program, .. } => Some(program),
        Phase::Attaching { program, .. } => Some(program),
        Phase::Linking { program, .. } => Some(program),
        Phase::CheckingLink { program, .. } => Some(program),
        Phase::DetachingVertex { program, .. } => Some(program),
        Phase::DeletingVertex { program, .. } => Some(program),
        Phase::DetachingFragment { program, .. } => Some(program),
        Phase::DeletingFragment { program } => Some(program),
        Phase::CreatingVertexArray { program } => Some(program),
        _ => None,
    }
}

proof fn lemma_run_keeps_program<P, S, V, A>(
    target: Target,
    phase: Phase<P, S>,
    replies: Seq<GlReply<P, S, V>>,
    p: P,
)
    requires
        !(phase is CreatingProgram),
        phase_program(phase) is Some ==> phase_program(phase) == Some(p),
    ensures
        forall|i: int|
            0 <= i < run::<P, S, V, A>(target, phase, replies).len() && (
            #[trigger] run::<P, S, V, A>(target, phase, replies)[i]) is Finished
                ==> run::<P, S, V, A>(target, phase, replies)[i]->Finished_0.program == p,
    decreases replies.len(),
{
    if replies.len() > 0 {
        let (next, step) = transition::<P, S, V, A>(target, phase, replies[0]);
        lemma_run_keeps_program::<P, S, V, A>(target, next, replies.drop_first(), p);
        let rest = run::<P, S, V, A>(target, next, replies.drop_first());
        assert forall|i: int|
            0 <= i < run::<P, S, V, A>(target, phase, replies).len() && (
            #[trigger] run::<P, S, V, A>(target, phase, replies)[i]) is Finished implies run::<
                P,
                S,
                V,
                A,
            >(target, phase, replies)[i]->Finished_0.program == p by {
            if i > 0 {
                assert(run::<P, S, V, A>(target, phase, replies)[i] == rest[i - 1]);
            }
        }
    }
}

/// Whatever the context answers after creating program `p`, a triangle that
/// the build hands out holds `p`.
pub proof fn lemma_finished_triangle_holds_created_program<P, S, V, A>(
    target: Target,
    p: P,
    replies: Seq<GlReply<P, S, V>>,
)
    requires
        replies.len() > 0,
        replies[0] == GlReply::<P, S, V>::Program(Ok(p)),
    ensures
        forall|i: int|
            0 <= i < run::<P, S, V, A>(target, Phase::CreatingProgram, replies).len() && (
            #[trigger] run::<P, S, V, A>(target, Phase::CreatingProgram, replies)[i]) is Finished
                ==> run::<P, S, V, A>(target, Phase::CreatingProgram, replies)[i]->Finished_0.program
                == p,
{
    let next = Phase::<P, S>::CreatingShader { program: p, vertex: None };
    lemma_run_keeps_program::<P, S, V, A>(target, next, replies.drop_first(), p);
    let rest = run::<P, S, V, A>(target, next, replies.drop_first());
    assert forall|i: int|
        0 <= i < run::<P, S, V, A>(target, Phase::CreatingProgram, replies).len() && (
        #[trigger] run::<P, S, V, A>(target, Phase::CreatingProgram, replies)[i]) is Finished
            implies run::<P, S, V, A>(
            target,
            Phase::CreatingProgram,
            replies,
        )[i]->Finished_0.program == p by {
        if i > 0 {
            assert(run::<P, S, V, A>(target, Phase::CreatingProgram, replies)[i] == rest[i - 1]);
        }
    }
}

/// Phases from which the build can only fail.
pub open spec fn doomed<P, S>(phase: Phase<P, S>) -> bool {
    phase is ReadingShaderLog || phase is ReadingProgramLog || phase is Over
}

proof fn lemma_doomed_never_finishes<P, S, V, A>(
    target: Target,
    phase: Phase<P, S>,
    replies: Seq<GlReply<P, S, V>>,
)
    requires
        doomed(phase),
    ensures
        forall|i: int|
            0 <= i < run::<P, S, V, A>(target, phase, replies).len() ==> !((
            #[trigger] run::<P, S, V, A>(target, phase, replies)[i]) is Finished),
    decreases replies.len(),
{
    if replies.len() > 0 {
        let (next, step) = transition::<P, S, V, A>(target, phase, replies[0]);
        lemma_doomed_never_finishes::<P, S, V, A>(target, next, replies.drop_first());
        let rest = run::<P, S, V, A>(target, next, replies.drop_first());
        assert forall|i: int| 0 < i < run::<P, S, V, A>(target, phase, replies).len() implies
            #[trigger] run::<P, S, V, A>(target, phase, replies)[i] == rest[i - 1] by {}
    }
}

/// A compile or link status that comes back false ends every hope of a
/// triangle: no step from that reply on hands one out, so a program that did
/// not link is never drawn with.
pub proof fn lemma_failed_status_never_finishes<P, S, V, A>(
    target: Target,
    phase: Phase<P, S>,
    replies: Seq<GlReply<P, S, V>>,
    j: int,
)
    requires
        0 <= j < replies.len(),
        replies[j] == GlReply::<P, S, V>::Status(false),
    ensures
        forall|i: int|
            j <= i < run::<P, S, V, A>(target, phase, replies).len() ==> !((
            #[trigger] run::<P, S, V, A>(target, phase, replies)[i]) is Finished),
    decreases replies.len(),
{
    let (next, step) = transition::<P, S, V, A>(target, phase, replies[0]);
    let rest = run::<P, S, V, A>(target, next, replies.drop_first());
    if j == 0 {
        lemma_doomed_never_finishes::<P, S, V, A>(target, next, replies.drop_first());
    } else {
        lemma_failed_status_never_finishes::<P, S, V, A>(
            target,
            next,
            replies.drop_first(),
            j - 1,
        );
    }
    assert forall|i: int| 0 < i < run::<P, S, V, A>(target, phase, replies).len() implies
        #[trigger] run::<P, S, V, A>(target, phase, replies)[i] == rest[i - 1] by {}
}

/// How many of the calls of `trace` from position `from` on are `call`.
pub open spec fn count_from<P, S, V, A>(
    trace: Seq<GlCall<P, S, V, A>>,
    call: GlCall<P, S, V, A>,
    from: int,
) -> nat
    decreases trace.len() - from,
{
    if from < 0 || from >= trace.len() {
        0
    } else {
        (if trace[from] == call { 1nat } else { 0nat }) + count_from(trace, call, from + 1)
    }
}

/// How many of the calls of `trace` are `call`.
pub open spec fn occurrences<P, S, V, A>(
    trace: Seq<GlCall<P, S, V, A>>,
    call: GlCall<P, S, V, A>,
) -> nat {
    count_from(trace, call, 0)
}

/// Building a triangle and destroying it right after releases each GPU object
/// exactly once: both shaders during the build, the program and the vertex
/// array when it is destroyed, and neither of these two during the build.
pub proof fn lemma_build_then_destroy_releases_once<P: Copy, S, V: Copy, A>(
    target: Target,
    p: P,
    vs: S,
    fs: S,
    v: V,
)
    requires
        vs != fs,
    ensures
        ({
            let building = build_calls::<P, S, V, A>(target, p, vs, fs);
            let triangle = RotatingTriangle { program: p, vertex_array: v };
            let trace = building + triangle.destroy_calls::<S, A>();
            &&& occurrences(building, GlCall::DeleteProgram(p)) == 0
            &&& occurrences(building, GlCall::DeleteVertexArray(v)) == 0
            &&& occurrences(trace, GlCall::DeleteProgram(p)) == 1
            &&& occurrences(trace, GlCall::DeleteVertexArray(v)) == 1
            &&& occurrences(trace, GlCall::DeleteShader(vs)) == 1
            &&& occurrences(trace, GlCall::DeleteShader(fs)) == 1
        }),
{
    reveal_with_fuel(count_from, 21);
}

/// Builds one triangle for a given target.
pub struct TriangleBuilder<P, S> {
    target: Target,
    phase: Phase<P, S>,
}

impl<P: Copy, S: Copy> TriangleBuilder<P, S> {
    pub closed spec fn target(&self) -> Target {
        self.target
    }

    pub closed spec fn phase(&self) -> Phase<P, S> {
        self.phase
    }

    /// Starts a build: the first call creates the program.
    pub fn start<V, A>(target: Target) -> (r: (Self, GlCall<P, S, V, A>))
        ensures
            r.0.target() == target,
            r.0.phase() == Phase::<P, S>::CreatingProgram,
            r.1 == GlCall::<P, S, V, A>::CreateProgram,
    {
        (TriangleBuilder { target, phase: Phase::CreatingProgram }, GlCall::CreateProgram)
    }

    /// Takes the reply to the pending call and moves the protocol one step.
    pub fn advance<V, A>(&mut self, reply: GlReply<P, S, V>) -> (r: BuildStep<P, S, V, A>)
        ensures
            final(self).target() == old(self).target(),
            (final(self).phase(), r) == transition::<P, S, V, A>(
                old(self).target(),
                old(self).phase(),
                reply,
            ),
    {
        let target = self.target;
        let (phase, step) = match (self.phase, reply) {
            (Phase::CreatingProgram, GlReply::Program(Ok(program))) => (
                Phase::CreatingShader { program, vertex: None },
                BuildStep::Call(GlCall::CreateShader(ShaderStage::Vertex)),
            ),
            (Phase::CreatingProgram, GlReply::Program(Err(e))) => (
                Phase::Over,
                BuildStep::Failed(BuildError::CannotCreateProgram(e)),
            ),
            (Phase::CreatingShader { program, vertex }, GlReply::Shader(Ok(shader))) => {
                let stage = match vertex {
                    None => ShaderStage::Vertex,
                    Some(_) => ShaderStage::Fragment,
                };
                (
                    Phase::Sourcing { program, vertex, shader },
                    BuildStep::Call(GlCall::ShaderSource(shader, ShaderText { target, stage })),
                )
            },
            (Phase::CreatingShader { program, vertex }, GlReply::Shader(Err(e))) => {
                let stage = match vertex {
                    None => ShaderStage::Vertex,
                    Some(_) => ShaderStage::Fragment,
                };
                (
                    Phase::Over,
                    BuildStep::Failed(BuildError::CannotCreateShader { stage, message: e }),
                )
            },
            (Phase::Sourcing { program, vertex, shader }, GlReply::Done) => (
                Phase::Compiling { program, vertex, shader },
                BuildStep::Call(GlCall::CompileShader(shader)),
            ),
            (Phase::Compiling { program, vertex, shader }, GlReply::Done) => (
                Phase::CheckingCompile { program, vertex, shader },
                BuildStep::Call(GlCall::GetShaderCompileStatus(shader)),
            ),
            (Phase::CheckingCompile { program, vertex, shader }, GlReply::Status(ok)) => {
                if ok {
                    (
                        Phase::Attaching { program, vertex, shader },
                        BuildStep::Call(GlCall::AttachShader(program, shader)),
                    )
                } else {
                    let stage = match vertex {
                        None => ShaderStage::Vertex,
                        Some(_) => ShaderStage::Fragment,
                    };
                    (
                        Phase::ReadingShaderLog { stage },
                        BuildStep::Call(GlCall::GetShaderInfoLog(shader)),
                    )
                }
            },
            (Phase::ReadingShaderLog { stage }, GlReply::InfoLog(log)) => (
                Phase::Over,
                BuildStep::Failed(BuildError::CompileFailed { stage, log }),
            ),
            (Phase::Attaching { program, vertex, shader }, GlReply::Done) => match vertex {
                None => (
                    Phase::CreatingShader { program, vertex: Some(shader) },
                    BuildStep::Call(GlCall::CreateShader(ShaderStage::Fragment)),
                ),
                Some(v) => (
                    Phase::Linking { program, vertex: v, fragment: shader },
                    BuildStep::Call(GlCall::LinkProgram(program)),
                ),
            },
            (Phase::Linking { program, vertex, fragment }, GlReply::Done) => (
                Phase::CheckingLink { program, vertex, fragment },
                BuildStep::Call(GlCall::GetProgramLinkStatus(program)),
            ),
            (Phase::CheckingLink { program, vertex, fragment }, GlReply::Status(ok)) => {
                if ok {
                    (
                        Phase::DetachingVertex { program, vertex, fragment },
                        BuildStep::Call(GlCall::DetachShader(program, vertex)),
                    )
                } else {
                    (Phase::ReadingProgramLog, BuildStep::Call(GlCall::GetProgramInfoLog(program)))
                }
            },
            (Phase::ReadingProgramLog, GlReply::InfoLog(log)) => (
                Phase::Over,
                BuildStep::Failed(BuildError::LinkFailed { log }),
            ),
            (Phase::DetachingVertex { program, vertex, fragment }, GlReply::Done) => (
                Phase::DeletingVertex { program, fragment },
                BuildStep::Call(GlCall::DeleteShader(vertex)),
            ),
            (Phase::DeletingVertex { program, fragment }, GlReply::Done) => (
                Phase::DetachingFragment { program, fragment },
                BuildStep::Call(GlCall::DetachShader(program, fragment)),
            ),
            (Phase::DetachingFragment { program, fragment }, GlReply::Done) => (
                Phase::DeletingFragment { program },
                BuildStep::Call(GlCall::DeleteShader(fragment)),
            ),
            (Phase::DeletingFragment { program }, GlReply::Done) => (
                Phase::CreatingVertexArray { program },
                BuildStep::Call(GlCall::CreateVertexArray),
            ),
            (
                Phase::CreatingVertexArray { program },
                GlReply::VertexArray(Ok(vertex_array)),
            ) => (Phase::Over, BuildStep::Finished(RotatingTriangle { program, vertex_array })),
            (Phase::CreatingVertexArray { program }, GlReply::VertexArray(Err(e))) => (
                Phase::Over,
                BuildStep::Failed(BuildError::CannotCreateVertexArray(e)),
            ),
            _ => (Phase::Over, BuildStep::Failed(BuildError::UnexpectedReply)),
        };
        self.phase = phase;
        step
    }
}

} // verus!
