//! Drives the surface logic against a fake graphics context that records
//! every command and answers each query, and checks the recorded call
//! sequences, the error reporting, and the create/release accounting.

use glsurface::builder::BuildStep;
use glsurface::builder::Builder;
use glsurface::protocol::Command;
use glsurface::protocol::GeometryMode;
use glsurface::protocol::Reply;
use glsurface::protocol::ShaderStage;
use glsurface::protocol::SurfaceError;
use glsurface::renderer::Renderer;

/// A fake context: hands out handles 1, 2, 3, ... for create requests and
/// answers status and log queries from its configuration.
struct FakeContext {
    next_handle: u32,
    shader_handles: Vec<u32>,
    vertex_compiles: bool,
    fragment_compiles: bool,
    links: bool,
    log: String,
}

impl FakeContext {
    fn succeeding() -> FakeContext {
        FakeContext {
            next_handle: 0,
            shader_handles: Vec::new(),
            vertex_compiles: true,
            fragment_compiles: true,
            links: true,
            log: String::new(),
        }
    }

    fn respond(&mut self, cmd: &Command) -> Reply {
        match cmd {
            Command::CreateProgram | Command::CreateBuffer | Command::CreateVertexArray => {
                self.next_handle += 1;
                Reply::Handle(self.next_handle)
            }
            Command::CreateShader { .. } => {
                self.next_handle += 1;
                self.shader_handles.push(self.next_handle);
                Reply::Handle(self.next_handle)
            }
            Command::GetCompileStatus { shader } => {
                if *shader == self.shader_handles[0] {
                    Reply::Status(self.vertex_compiles)
                } else {
                    Reply::Status(self.fragment_compiles)
                }
            }
            Command::GetLinkStatus { .. } => Reply::Status(self.links),
            Command::GetShaderLog { .. } | Command::GetProgramLog { .. } => {
                Reply::Log(self.log.clone())
            }
            _ => panic!("a reply was requested for a command that is not a query"),
        }
    }
}

/// Runs a whole construction conversation, recording every command issued.
fn drive(
    mode: GeometryMode,
    ctx: &mut FakeContext,
) -> (Vec<Command>, Result<Renderer, SurfaceError>) {
    let mut trace: Vec<Command> = Vec::new();
    let (first_builder, first) = Builder::begin(mode);
    trace.push(first);
    let mut builder = first_builder;
    let mut reply = ctx.respond(&first);
    loop {
        match builder.advance(reply) {
            BuildStep::Next(next, cmds) => {
                let last = *cmds.last().expect("a progress step always issues commands");
                for c in cmds {
                    trace.push(c);
                }
                reply = ctx.respond(&last);
                builder = next;
            }
            BuildStep::Complete(cmds, renderer) => {
                for c in cmds {
                    trace.push(c);
                }
                return (trace, Ok(renderer));
            }
            BuildStep::Failed(error) => return (trace, Err(error)),
        }
    }
}

fn count(trace: &[Command], pred: fn(&Command) -> bool) -> usize {
    trace.iter().filter(|c| pred(c)).count()
}

fn assert_no_leak(trace: &[Command]) {
    let pairs: [(fn(&Command) -> bool, fn(&Command) -> bool); 4] = [
        (
            |c| matches!(c, Command::CreateProgram),
            |c| matches!(c, Command::DeleteProgram { .. }),
        ),
        (
            |c| matches!(c, Command::CreateShader { .. }),
            |c| matches!(c, Command::DeleteShader { .. }),
        ),
        (
            |c| matches!(c, Command::CreateBuffer),
            |c| matches!(c, Command::DeleteBuffer { .. }),
        ),
        (
            |c| matches!(c, Command::CreateVertexArray),
            |c| matches!(c, Command::DeleteVertexArray { .. }),
        ),
    ];
    for (created, released) in pairs {
        assert_eq!(count(trace, created), count(trace, released));
    }
}

#[test]
fn construct_then_destroy_releases_all_buffered() {
    let mut ctx = FakeContext::succeeding();
    let (mut trace, outcome) = drive(GeometryMode::Buffered, &mut ctx);
    let renderer = outcome.expect("construction succeeds on a succeeding context");
    trace.extend(renderer.delete());
    assert_eq!(
        count(&trace, |c| matches!(c, Command::CreateProgram)),
        1
    );
    assert_eq!(
        count(&trace, |c| matches!(c, Command::CreateShader { .. })),
        2
    );
    assert_eq!(count(&trace, |c| matches!(c, Command::CreateBuffer)), 1);
    assert_eq!(
        count(&trace, |c| matches!(c, Command::CreateVertexArray)),
        1
    );
    assert_no_leak(&trace);
}

#[test]
fn construct_then_destroy_releases_all_synthesized() {
    let mut ctx = FakeContext::succeeding();
    let (mut trace, outcome) = drive(GeometryMode::Synthesized, &mut ctx);
    let renderer = outcome.expect("construction succeeds on a succeeding context");
    assert_eq!(renderer.vertex_buffer, None);
    trace.extend(renderer.delete());
    assert_eq!(count(&trace, |c| matches!(c, Command::CreateBuffer)), 0);
    assert_no_leak(&trace);
}

#[test]
fn vertex_compile_failure_reports_stage_and_diagnostic() {
    let mut ctx = FakeContext::succeeding();
    ctx.vertex_compiles = false;
    ctx.log = String::from("0:3: syntax error");
    let (trace, outcome) = drive(GeometryMode::Buffered, &mut ctx);
    assert_eq!(
        outcome,
        Err(SurfaceError::ShaderCompile {
            stage: ShaderStage::Vertex,
            diagnostic: String::from("0:3: syntax error"),
        })
    );
    // No partially usable surface: the program was never activated.
    assert_eq!(count(&trace, |c| matches!(c, Command::UseProgram { .. })), 0);
    assert_eq!(
        trace,
        vec![
            Command::CreateProgram,
            Command::CreateShader { stage: ShaderStage::Vertex },
            Command::ShaderSource { shader: 2, stage: ShaderStage::Vertex },
            Command::CompileShader { shader: 2 },
            Command::GetCompileStatus { shader: 2 },
            Command::GetShaderLog { shader: 2 },
        ]
    );
}

#[test]
fn fragment_compile_failure_reports_stage_and_diagnostic() {
    let mut ctx = FakeContext::succeeding();
    ctx.fragment_compiles = false;
    ctx.log = String::from("0:5: undeclared identifier");
    let (trace, outcome) = drive(GeometryMode::Buffered, &mut ctx);
    assert_eq!(
        outcome,
        Err(SurfaceError::ShaderCompile {
            stage: ShaderStage::Fragment,
            diagnostic: String::from("0:5: undeclared identifier"),
        })
    );
    assert_eq!(count(&trace, |c| matches!(c, Command::UseProgram { .. })), 0);
}

#[test]
fn link_failure_reports_diagnostic() {
    let mut ctx = FakeContext::succeeding();
    ctx.links = false;
    ctx.log = String::from("interface mismatch between stages");
    let (trace, outcome) = drive(GeometryMode::Buffered, &mut ctx);
    assert_eq!(
        outcome,
        Err(SurfaceError::ProgramLink {
            diagnostic: String::from("interface mismatch between stages"),
        })
    );
    assert_eq!(count(&trace, |c| matches!(c, Command::UseProgram { .. })), 0);
    // Linking was attempted exactly once before the failure surfaced.
    assert_eq!(
        count(&trace, |c| matches!(c, Command::LinkProgram { .. })),
        1
    );
}

#[test]
fn render_issues_clear_then_draw() {
    let mut ctx = FakeContext::succeeding();
    let (_, outcome) = drive(GeometryMode::Buffered, &mut ctx);
    let renderer = outcome.expect("construction succeeds on a succeeding context");
    assert_eq!(
        renderer.render(),
        vec![
            Command::Clear,
            Command::DrawTriangles { first: 0, count: 3 },
        ]
    );
}

#[test]
fn delete_releases_exactly_the_owned_handles() {
    // `delete` takes the renderer by value, so a second release cannot even
    // be written; whether a double release would be tolerated by a context
    // is deliberately left open and not asserted here.
    let with_buffer = Renderer::new(10, 30, Some(20));
    assert_eq!(
        with_buffer.delete(),
        vec![
            Command::DeleteProgram { program: 10 },
            Command::DeleteVertexArray { vertex_array: 30 },
            Command::DeleteBuffer { buffer: 20 },
        ]
    );
    let without_buffer = Renderer::new(10, 30, None);
    assert_eq!(
        without_buffer.delete(),
        vec![
            Command::DeleteProgram { program: 10 },
            Command::DeleteVertexArray { vertex_array: 30 },
        ]
    );
}

#[test]
fn renderer_new_holds_the_given_handles() {
    let renderer = Renderer::new(7, 9, Some(8));
    assert_eq!(renderer.program, 7);
    assert_eq!(renderer.vertex_array, 9);
    assert_eq!(renderer.vertex_buffer, Some(8));
}

#[test]
fn end_to_end_call_sequence_buffered() {
    let mut ctx = FakeContext::succeeding();
    let (trace, outcome) = drive(GeometryMode::Buffered, &mut ctx);
    let renderer = outcome.expect("construction succeeds on a succeeding context");
    // Handles are handed out in creation order: program 1, vertex shader 2,
    // fragment shader 3, buffer 4, vertex array 5.
    assert_eq!(
        trace,
        vec![
            Command::CreateProgram,
            Command::CreateShader { stage: ShaderStage::Vertex },
            Command::ShaderSource { shader: 2, stage: ShaderStage::Vertex },
            Command::CompileShader { shader: 2 },
            Command::GetCompileStatus { shader: 2 },
            Command::AttachShader { program: 1, shader: 2 },
            Command::CreateShader { stage: ShaderStage::Fragment },
            Command::ShaderSource { shader: 3, stage: ShaderStage::Fragment },
            Command::CompileShader { shader: 3 },
            Command::GetCompileStatus { shader: 3 },
            Command::AttachShader { program: 1, shader: 3 },
            Command::LinkProgram { program: 1 },
            Command::GetLinkStatus { program: 1 },
            Command::DetachShader { program: 1, shader: 2 },
            Command::DeleteShader { shader: 2 },
            Command::DetachShader { program: 1, shader: 3 },
            Command::DeleteShader { shader: 3 },
            Command::UseProgram { program: 1 },
            Command::CreateBuffer,
            Command::BindBuffer { buffer: 4 },
            Command::UploadTriangleData,
            Command::CreateVertexArray,
            Command::BindVertexArray { vertex_array: 5 },
            Command::EnableAttribArray { index: 0 },
            Command::SetAttribPointer { index: 0, components: 2, stride: 8, offset: 0 },
            Command::SetClearColor,
        ]
    );
    assert_eq!(
        renderer,
        Renderer { program: 1, vertex_array: 5, vertex_buffer: Some(4) }
    );
    assert_eq!(
        renderer.render(),
        vec![
            Command::Clear,
            Command::DrawTriangles { first: 0, count: 3 },
        ]
    );
    assert_eq!(
        renderer.delete(),
        vec![
            Command::DeleteProgram { program: 1 },
            Command::DeleteVertexArray { vertex_array: 5 },
            Command::DeleteBuffer { buffer: 4 },
        ]
    );
}

#[test]
fn end_to_end_call_sequence_synthesized() {
    let mut ctx = FakeContext::succeeding();
    let (trace, outcome) = drive(GeometryMode::Synthesized, &mut ctx);
    let renderer = outcome.expect("construction succeeds on a succeeding context");
    // Handles: program 1, vertex shader 2, fragment shader 3, vertex array 4.
    assert_eq!(
        trace,
        vec![
            Command::CreateProgram,
            Command::CreateShader { stage: ShaderStage::Vertex },
            Command::ShaderSource { shader: 2, stage: ShaderStage::Vertex },
            Command::CompileShader { shader: 2 },
            Command::GetCompileStatus { shader: 2 },
            Command::AttachShader { program: 1, shader: 2 },
            Command::CreateShader { stage: ShaderStage::Fragment },
            Command::ShaderSource { shader: 3, stage: ShaderStage::Fragment },
            Command::CompileShader { shader: 3 },
            Command::GetCompileStatus { shader: 3 },
            Command::AttachShader { program: 1, shader: 3 },
            Command::LinkProgram { program: 1 },
            Command::GetLinkStatus { program: 1 },
            Command::DetachShader { program: 1, shader: 2 },
            Command::DeleteShader { shader: 2 },
            Command::DetachShader { program: 1, shader: 3 },
            Command::DeleteShader { shader: 3 },
            Command::UseProgram { program: 1 },
            Command::CreateVertexArray,
            Command::BindVertexArray { vertex_array: 4 },
            Command::SetClearColor,
        ]
    );
    assert_eq!(
        renderer,
        Renderer { program: 1, vertex_array: 4, vertex_buffer: None }
    );
    assert_eq!(
        renderer.delete(),
        vec![
            Command::DeleteProgram { program: 1 },
            Command::DeleteVertexArray { vertex_array: 4 },
        ]
    );
}
