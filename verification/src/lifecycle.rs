//! Whole-lifecycle statements: what an entire construction conversation
//! issues and yields, and the accounting of created against released
//! objects.
//!
//! [`run_from`] replays the transition table of [`Builder`] over a sequence
//! of context replies, collecting every command that goes out. The lemmas
//! below pin down the three conversations that matter: the successful one,
//! a compile failure, and a link failure.

use vstd::prelude::*;

use crate::builder::Builder;
use crate::builder::Phase;
use crate::builder::Transition;
use crate::protocol::Command;
use crate::protocol::GeometryMode;
use crate::protocol::Reply;
use crate::protocol::ShaderStage;
use crate::protocol::SurfaceError;
use crate::renderer::Renderer;

verus! {

/// How a replayed conversation ended: still waiting for replies, finished
/// with a surface, abandoned with an error, or handed a reply of a shape
/// the phase never asks for.
pub enum RunOutcome {
    Pending(Builder),
    Finished(Renderer),
    Aborted(SurfaceError),
    Stuck(Builder),
}

/// Replays the transition table from `b`, feeding it `replies[i..]` one by
/// one, and returns every command batch that goes out, concatenated, with
/// the outcome the conversation reaches.
pub open spec fn run_from(b: Builder, replies: Seq<Reply>, i: int) -> (Seq<Command>, RunOutcome)
    decreases replies.len() - i,
{
    if i < 0 || i >= replies.len() {
        (Seq::empty(), RunOutcome::Pending(b))
    } else {
        match b.step_spec(replies[i]) {
            Transition::Progress { builder, commands } => {
                let rest = run_from(builder, replies, i + 1);
                (commands + rest.0, rest.1)
            },
            Transition::Finish { commands, renderer } => (commands, RunOutcome::Finished(renderer)),
            Transition::Abort { error } => (Seq::empty(), RunOutcome::Aborted(error)),
            Transition::Reject => (Seq::empty(), RunOutcome::Stuck(b)),
        }
    }
}

/// One whole construction conversation: the opening command from
/// [`Builder::begin`] followed by everything the replies provoke.
pub open spec fn construct_run(mode: GeometryMode, replies: Seq<Reply>) -> (Seq<Command>, RunOutcome) {
    let rest = run_from(Builder { mode, phase: Phase::AwaitProgram }, replies, 0);
    (seq![Command::CreateProgram] + rest.0, rest.1)
}

/// The replies of a context on which every request succeeds: the four (or,
/// without a buffer, three) fresh handles and three positive status answers,
/// in the order construction asks for them.
pub open spec fn successful_replies(
    mode: GeometryMode,
    program: u32,
    vertex_shader: u32,
    fragment_shader: u32,
    buffer: u32,
    vertex_array: u32,
) -> Seq<Reply> {
    match mode {
        GeometryMode::Buffered => seq![
            Reply::Handle(program),
            Reply::Handle(vertex_shader),
            Reply::Status(true),
            Reply::Handle(fragment_shader),
            Reply::Status(true),
            Reply::Status(true),
            Reply::Handle(buffer),
            Reply::Handle(vertex_array),
        ],
        GeometryMode::Synthesized => seq![
            Reply::Handle(program),
            Reply::Handle(vertex_shader),
            Reply::Status(true),
            Reply::Handle(fragment_shader),
            Reply::Status(true),
            Reply::Status(true),
            Reply::Handle(vertex_array),
        ],
    }
}

/// The canonical command sequence of a successful construction: create and
/// compile both stages, attach them, link, detach and delete the stage
/// objects, activate the program, set up the geometry for the chosen mode,
/// and set the clear color.
pub open spec fn successful_trace(
    mode: GeometryMode,
    program: u32,
    vertex_shader: u32,
    fragment_shader: u32,
    buffer: u32,
    vertex_array: u32,
) -> Seq<Command> {
    let front = seq![
        Command::CreateProgram,
        Command::CreateShader { stage: ShaderStage::Vertex },
        Command::ShaderSource { shader: vertex_shader, stage: ShaderStage::Vertex },
        Command::CompileShader { shader: vertex_shader },
        Command::GetCompileStatus { shader: vertex_shader },
        Command::AttachShader { program, shader: vertex_shader },
        Command::CreateShader { stage: ShaderStage::Fragment },
        Command::ShaderSource { shader: fragment_shader, stage: ShaderStage::Fragment },
        Command::CompileShader { shader: fragment_shader },
        Command::GetCompileStatus { shader: fragment_shader },
        Command::AttachShader { program, shader: fragment_shader },
        Command::LinkProgram { program },
        Command::GetLinkStatus { program },
        Command::DetachShader { program, shader: vertex_shader },
        Command::DeleteShader { shader: vertex_shader },
        Command::DetachShader { program, shader: fragment_shader },
        Command::DeleteShader { shader: fragment_shader },
        Command::UseProgram { program },
    ];
    match mode {
        GeometryMode::Buffered => front + seq![
            Command::CreateBuffer,
            Command::BindBuffer { buffer },
            Command::UploadTriangleData,
            Command::CreateVertexArray,
            Command::BindVertexArray { vertex_array },
            Command::EnableAttribArray { index: 0 },
            Command::SetAttribPointer { index: 0, components: 2, stride: 8, offset: 0 },
            Command::SetClearColor,
        ],
        GeometryMode::Synthesized => front + seq![
            Command::CreateVertexArray,
            Command::BindVertexArray { vertex_array },
            Command::SetClearColor,
        ],
    }
}

/// The surface a successful construction yields for the given handles.
pub open spec fn successful_renderer(
    mode: GeometryMode,
    program: u32,
    buffer: u32,
    vertex_array: u32,
) -> Renderer {
    Renderer {
        program,
        vertex_array,
        vertex_buffer: match mode {
            GeometryMode::Buffered => Some(buffer),
            GeometryMode::Synthesized => None,
        },
    }
}

/// The kinds of GPU object the protocol creates and releases.
#[derive(Clone, Copy, Debug, PartialEq, Eq)]
pub enum HandleKind {
    Program,
    Shader,
    Buffer,
    VertexArray,
}

/// Whether `c` asks the context to create an object of kind `k`.
pub open spec fn allocates(c: Command, k: HandleKind) -> bool {
    match (c, k) {
        (Command::CreateProgram, HandleKind::Program) => true,
        (Command::CreateShader { .. }, HandleKind::Shader) => true,
        (Command::CreateBuffer, HandleKind::Buffer) => true,
        (Command::CreateVertexArray, HandleKind::VertexArray) => true,
        _ => false,
    }
}

/// Whether `c` asks the context to release an object of kind `k`.
pub open spec fn releases(c: Command, k: HandleKind) -> bool {
    match (c, k) {
        (Command::DeleteProgram { .. }, HandleKind::Program) => true,
        (Command::DeleteShader { .. }, HandleKind::Shader) => true,
        (Command::DeleteBuffer { .. }, HandleKind::Buffer) => true,
        (Command::DeleteVertexArray { .. }, HandleKind::VertexArray) => true,
        _ => false,
    }
}

/// How many commands of `t` from position `i` on create an object of kind `k`.
pub open spec fn allocated_from(t: Seq<Command>, k: HandleKind, i: int) -> nat
    decreases t.len() - i,
{
    if i < 0 || i >= t.len() {
        0
    } else {
        (if allocates(t[i], k) { 1nat } else { 0nat }) + allocated_from(t, k, i + 1)
    }
}

/// How many commands of `t` from position `i` on release an object of kind `k`.
pub open spec fn released_from(t: Seq<Command>, k: HandleKind, i: int) -> nat
    decreases t.len() - i,
{
    if i < 0 || i >= t.len() {
        0
    } else {
        (if releases(t[i], k) { 1nat } else { 0nat }) + released_from(t, k, i + 1)
    }
}

/// How many commands of `t` create an object of kind `k`.
pub open spec fn allocated(t: Seq<Command>, k: HandleKind) -> nat {
    allocated_from(t, k, 0)
}

/// How many commands of `t` release an object of kind `k`.
pub open spec fn released(t: Seq<Command>, k: HandleKind) -> nat {
    released_from(t, k, 0)
}

/// Law: with a context on which every request succeeds, construction issues
/// exactly the canonical command sequence — whatever handles the context
/// hands out — and completes with the surface owning those handles.
pub proof fn lemma_successful_construction(
    mode: GeometryMode,
    program: u32,
    vertex_shader: u32,
    fragment_shader: u32,
    buffer: u32,
    vertex_array: u32,
)
    ensures
        ({
            let replies = successful_replies(
                mode,
                program,
                vertex_shader,
                fragment_shader,
                buffer,
                vertex_array,
            );
            let (trace, outcome) = construct_run(mode, replies);
            &&& trace == successful_trace(
                mode,
                program,
                vertex_shader,
                fragment_shader,
                buffer,
                vertex_array,
            )
            &&& outcome == RunOutcome::Finished(
                successful_renderer(mode, program, buffer, vertex_array),
            )
        }),
{
    reveal_with_fuel(run_from, 10);
    let replies = successful_replies(
        mode,
        program,
        vertex_shader,
        fragment_shader,
        buffer,
        vertex_array,
    );
    let (trace, outcome) = construct_run(mode, replies);
    assert(trace =~= successful_trace(
        mode,
        program,
        vertex_shader,
        fragment_shader,
        buffer,
        vertex_array,
    ));
}

/// Law: a successful construction followed immediately by releasing the
/// surface leaks nothing — for every kind of GPU object, the whole
/// conversation creates exactly as many objects as it releases (the two
/// shader stage objects within construction itself; the program, the vertex
/// array, and any buffer through the release batch).
#[verifier::rlimit(100)]
pub proof fn lemma_construct_then_delete_releases_all(
    mode: GeometryMode,
    program: u32,
    vertex_shader: u32,
    fragment_shader: u32,
    buffer: u32,
    vertex_array: u32,
)
    ensures
        ({
            let replies = successful_replies(
                mode,
                program,
                vertex_shader,
                fragment_shader,
                buffer,
                vertex_array,
            );
            let (trace, outcome) = construct_run(mode, replies);
            &&& outcome matches RunOutcome::Finished(r)
            &&& forall|k: HandleKind|
                allocated(trace + r.delete_trace(), k) == released(trace + r.delete_trace(), k)
        }),
{
    lemma_successful_construction(
        mode,
        program,
        vertex_shader,
        fragment_shader,
        buffer,
        vertex_array,
    );
    let replies = successful_replies(
        mode,
        program,
        vertex_shader,
        fragment_shader,
        buffer,
        vertex_array,
    );
    let (trace, outcome) = construct_run(mode, replies);
    let r = successful_renderer(mode, program, buffer, vertex_array);
    let full = trace + r.delete_trace();
    let flat = successful_trace(
        mode,
        program,
        vertex_shader,
        fragment_shader,
        buffer,
        vertex_array,
    ) + r.delete_trace();
    assert(full =~= flat);
    assert forall|k: HandleKind|
        allocated(full, k) == released(full, k) by {
        reveal_with_fuel(allocated_from, 31);
        reveal_with_fuel(released_from, 31);
        match mode {
            GeometryMode::Buffered => {
                assert(allocated(flat, k) == released(flat, k));
            },
            GeometryMode::Synthesized => {
                assert(allocated(flat, k) == released(flat, k));
            },
        }
    }
}

/// Law: when the vertex stage fails to compile, construction stops after
/// fetching that stage's info log and aborts with `ShaderCompile` carrying
/// the diagnostic — and the program is never activated: the conversation
/// holds no `UseProgram` at all.
pub proof fn lemma_vertex_compile_failure(
    mode: GeometryMode,
    program: u32,
    vertex_shader: u32,
    diagnostic: String,
)
    ensures
        ({
            let replies = seq![
                Reply::Handle(program),
                Reply::Handle(vertex_shader),
                Reply::Status(false),
                Reply::Log(diagnostic),
            ];
            let (trace, outcome) = construct_run(mode, replies);
            &&& outcome == RunOutcome::Aborted(
                SurfaceError::ShaderCompile { stage: ShaderStage::Vertex, diagnostic },
            )
            &&& trace == seq![
                Command::CreateProgram,
                Command::CreateShader { stage: ShaderStage::Vertex },
                Command::ShaderSource { shader: vertex_shader, stage: ShaderStage::Vertex },
                Command::CompileShader { shader: vertex_shader },
                Command::GetCompileStatus { shader: vertex_shader },
                Command::GetShaderLog { shader: vertex_shader },
            ]
            &&& forall|i: int| 0 <= i < trace.len() ==> !(trace[i] is UseProgram)
        }),
{
    reveal_with_fuel(run_from, 6);
    let replies = seq![
        Reply::Handle(program),
        Reply::Handle(vertex_shader),
        Reply::Status(false),
        Reply::Log(diagnostic),
    ];
    let (trace, outcome) = construct_run(mode, replies);
    assert(trace =~= seq![
        Command::CreateProgram,
        Command::CreateShader { stage: ShaderStage::Vertex },
        Command::ShaderSource { shader: vertex_shader, stage: ShaderStage::Vertex },
        Command::CompileShader { shader: vertex_shader },
        Command::GetCompileStatus { shader: vertex_shader },
        Command::GetShaderLog { shader: vertex_shader },
    ]);
}

/// Law: when the fragment stage fails to compile, construction stops after
/// fetching that stage's info log and aborts with `ShaderCompile` carrying
/// the diagnostic — again without ever activating the program.
pub proof fn lemma_fragment_compile_failure(
    mode: GeometryMode,
    program: u32,
    vertex_shader: u32,
    fragment_shader: u32,
    diagnostic: String,
)
    ensures
        ({
            let replies = seq![
                Reply::Handle(program),
                Reply::Handle(vertex_shader),
                Reply::Status(true),
                Reply::Handle(fragment_shader),
                Reply::Status(false),
                Reply::Log(diagnostic),
            ];
            let (trace, outcome) = construct_run(mode, replies);
            &&& outcome == RunOutcome::Aborted(
                SurfaceError::ShaderCompile { stage: ShaderStage::Fragment, diagnostic },
            )
            &&& trace == seq![
                Command::CreateProgram,
                Command::CreateShader { stage: ShaderStage::Vertex },
                Command::ShaderSource { shader: vertex_shader, stage: ShaderStage::Vertex },
                Command::CompileShader { shader: vertex_shader },
                Command::GetCompileStatus { shader: vertex_shader },
                Command::AttachShader { program, shader: vertex_shader },
                Command::CreateShader { stage: ShaderStage::Fragment },
                Command::ShaderSource { shader: fragment_shader, stage: ShaderStage::Fragment },
                Command::CompileShader { shader: fragment_shader },
                Command::GetCompileStatus { shader: fragment_shader },
                Command::GetShaderLog { shader: fragment_shader },
            ]
            &&& forall|i: int| 0 <= i < trace.len() ==> !(trace[i] is UseProgram)
        }),
{
    reveal_with_fuel(run_from, 8);
    let replies = seq![
        Reply::Handle(program),
        Reply::Handle(vertex_shader),
        Reply::Status(true),
        Reply::Handle(fragment_shader),
        Reply::Status(false),
        Reply::Log(diagnostic),
    ];
    let (trace, outcome) = construct_run(mode, replies);
    assert(trace =~= seq![
        Command::CreateProgram,
        Command::CreateShader { stage: ShaderStage::Vertex },
        Command::ShaderSource { shader: vertex_shader, stage: ShaderStage::Vertex },
        Command::CompileShader { shader: vertex_shader },
        Command::GetCompileStatus { shader: vertex_shader },
        Command::AttachShader { program, shader: vertex_shader },
        Command::CreateShader { stage: ShaderStage::Fragment },
        Command::ShaderSource { shader: fragment_shader, stage: ShaderStage::Fragment },
        Command::CompileShader { shader: fragment_shader },
        Command::GetCompileStatus { shader: fragment_shader },
        Command::GetShaderLog { shader: fragment_shader },
    ]);
}

/// Law: when both stages compile but the program fails to link, construction
/// stops after fetching the program's info log and aborts with `ProgramLink`
/// carrying the diagnostic — the stage objects are not cleaned up and the
/// program is never activated.
pub proof fn lemma_link_failure(
    mode: GeometryMode,
    program: u32,
    vertex_shader: u32,
    fragment_shader: u32,
    diagnostic: String,
)
    ensures
        ({
            let replies = seq![
                Reply::Handle(program),
                Reply::Handle(vertex_shader),
                Reply::Status(true),
                Reply::Handle(fragment_shader),
                Reply::Status(true),
                Reply::Status(false),
                Reply::Log(diagnostic),
            ];
            let (trace, outcome) = construct_run(mode, replies);
            &&& outcome == RunOutcome::Aborted(SurfaceError::ProgramLink { diagnostic })
            &&& trace == seq![
                Command::CreateProgram,
                Command::CreateShader { stage: ShaderStage::Vertex },
                Command::ShaderSource { shader: vertex_shader, stage: ShaderStage::Vertex },
                Command::CompileShader { shader: vertex_shader },
                Command::GetCompileStatus { shader: vertex_shader },
                Command::AttachShader { program, shader: vertex_shader },
                Command::CreateShader { stage: ShaderStage::Fragment },
                Command::ShaderSource { shader: fragment_shader, stage: ShaderStage::Fragment },
                Command::CompileShader { shader: fragment_shader },
                Command::GetCompileStatus { shader: fragment_shader },
                Command::AttachShader { program, shader: fragment_shader },
                Command::LinkProgram { program },
                Command::GetLinkStatus { program },
                Command::GetProgramLog { program },
            ]
            &&& forall|i: int| 0 <= i < trace.len() ==> !(trace[i] is UseProgram)
        }),
{
    reveal_with_fuel(run_from, 9);
    let replies = seq![
        Reply::Handle(program),
        Reply::Handle(vertex_shader),
        Reply::Status(true),
        Reply::Handle(fragment_shader),
        Reply::Status(true),
        Reply::Status(false),
        Reply::Log(diagnostic),
    ];
    let (trace, outcome) = construct_run(mode, replies);
    assert(trace =~= seq![
        Command::CreateProgram,
        Command::CreateShader { stage: ShaderStage::Vertex },
        Command::ShaderSource { shader: vertex_shader, stage: ShaderStage::Vertex },
        Command::CompileShader { shader: vertex_shader },
        Command::GetCompileStatus { shader: vertex_shader },
        Command::AttachShader { program, shader: vertex_shader },
        Command::CreateShader { stage: ShaderStage::Fragment },
        Command::ShaderSource { shader: fragment_shader, stage: ShaderStage::Fragment },
        Command::CompileShader { shader: fragment_shader },
        Command::GetCompileStatus { shader: fragment_shader },
        Command::AttachShader { program, shader: fragment_shader },
        Command::LinkProgram { program },
        Command::GetLinkStatus { program },
        Command::GetProgramLog { program },
    ]);
}

} // verus!

