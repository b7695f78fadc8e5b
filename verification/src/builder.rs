//! Step-by-step construction of a surface.
//!
//! Construction is a short conversation with the graphics context: the
//! builder hands out a batch of commands whose last command queries
//! something, the shell performs the batch and feeds the answer back, and
//! the builder decides the next batch. The conversation ends either with a
//! [`Renderer`] that owns the created objects, or with a [`SurfaceError`]
//! when a shader stage fails to compile or the program fails to link.

use vstd::prelude::*;

use crate::protocol::Command;
use crate::protocol::GeometryMode;
use crate::protocol::Reply;
use crate::protocol::ShaderStage;
use crate::protocol::SurfaceError;
use crate::renderer::Renderer;

verus! {

/// Where a construction stands: which answer it is waiting for, and which
/// handles it has been given so far.
#[derive(Clone, Copy, Debug, PartialEq, Eq)]
pub enum Phase {
    /// Waiting for the new program object's handle.
    AwaitProgram,
    /// Waiting for the vertex shader object's handle.
    AwaitVertexShader { program: u32 },
    /// Waiting for the vertex shader's compile status.
    AwaitVertexStatus { program: u32, vertex_shader: u32 },
    /// The vertex shader failed to compile; waiting for its info log.
    AwaitVertexLog { program: u32, vertex_shader: u32 },
    /// Waiting for the fragment shader object's handle.
    AwaitFragmentShader { program: u32, vertex_shader: u32 },
    /// Waiting for the fragment shader's compile status.
    AwaitFragmentStatus { program: u32, vertex_shader: u32, fragment_shader: u32 },
    /// The fragment shader failed to compile; waiting for its info log.
    AwaitFragmentLog { program: u32, vertex_shader: u32, fragment_shader: u32 },
    /// Waiting for the program's link status.
    AwaitLinkStatus { program: u32, vertex_shader: u32, fragment_shader: u32 },
    /// Linking failed; waiting for the program's info log.
    AwaitLinkLog { program: u32 },
    /// Waiting for the vertex buffer's handle (buffered geometry only).
    AwaitBuffer { program: u32 },
    /// Waiting for the vertex array object's handle.
    AwaitVertexArray { program: u32, buffer: Option<u32> },
}

/// A construction in progress.
#[derive(Clone, Copy, Debug, PartialEq, Eq)]
pub struct Builder {
    pub mode: GeometryMode,
    pub phase: Phase,
}

/// What one step of the conversation produced: more commands and a builder
/// awaiting their answer, the final commands together with the finished
/// surface, or the error that abandons construction.
#[derive(Debug)]
pub enum BuildStep {
    Next(Builder, Vec<Command>),
    Complete(Vec<Command>, Renderer),
    Failed(SurfaceError),
}

/// The specification-level image of one step: what [`Builder::advance`]
/// emits and becomes for a given phase and reply. `Reject` marks the
/// reply shapes a phase never asks for; `advance` requires them away.
pub enum Transition {
    Progress { builder: Builder, commands: Seq<Command> },
    Finish { commands: Seq<Command>, renderer: Renderer },
    Abort { error: SurfaceError },
    Reject,
}

impl Builder {
    /// Which handles may sit in which phase: the buffer-related phases only
    /// arise when the geometry is buffered, and the vertex array is
    /// configured with attributes exactly when a buffer was created.
    pub open spec fn wf(self) -> bool {
        match self.phase {
            Phase::AwaitBuffer { .. } => self.mode is Buffered,
            Phase::AwaitVertexArray { buffer, .. } => {
                buffer is Some <==> self.mode is Buffered
            },
            _ => true,
        }
    }

    /// The transition table of the whole construction: for the phase the
    /// builder is in and the context's reply, the commands that go out next
    /// and the state the construction moves to.
    pub open spec fn step_spec(self, reply: Reply) -> Transition {
        match (self.phase, reply) {
            (Phase::AwaitProgram, Reply::Handle(program)) => Transition::Progress {
                builder: Builder { mode: self.mode, phase: Phase::AwaitVertexShader { program } },
                commands: seq![Command::CreateShader { stage: ShaderStage::Vertex }],
            },
            (Phase::AwaitVertexShader { program }, Reply::Handle(shader)) => Transition::Progress {
                builder: Builder {
                    mode: self.mode,
                    phase: Phase::AwaitVertexStatus { program, vertex_shader: shader },
                },
                commands: seq![
                    Command::ShaderSource { shader, stage: ShaderStage::Vertex },
                    Command::CompileShader { shader },
                    Command::GetCompileStatus { shader },
                ],
            },
            (Phase::AwaitVertexStatus { program, vertex_shader }, Reply::Status(ok)) => {
                if ok {
                    Transition::Progress {
                        builder: Builder {
                            mode: self.mode,
                            phase: Phase::AwaitFragmentShader { program, vertex_shader },
                        },
                        commands: seq![
                            Command::AttachShader { program, shader: vertex_shader },
                            Command::CreateShader { stage: ShaderStage::Fragment },
                        ],
                    }
                } else {
                    Transition::Progress {
                        builder: Builder {
                            mode: self.mode,
                            phase: Phase::AwaitVertexLog { program, vertex_shader },
                        },
                        commands: seq![Command::GetShaderLog { shader: vertex_shader }],
                    }
                }
            },
            (Phase::AwaitVertexLog { .. }, Reply::Log(diagnostic)) => Transition::Abort {
                error: SurfaceError::ShaderCompile { stage: ShaderStage::Vertex, diagnostic },
            },
            (Phase::AwaitFragmentShader { program, vertex_shader }, Reply::Handle(shader)) => {
                Transition::Progress {
                    builder: Builder {
                        mode: self.mode,
                        phase: Phase::AwaitFragmentStatus {
                            program,
                            vertex_shader,
                            fragment_shader: shader,
                        },
                    },
                    commands: seq![
                        Command::ShaderSource { shader, stage: ShaderStage::Fragment },
                        Command::CompileShader { shader },
                        Command::GetCompileStatus { shader },
                    ],
                }
            },
            (
                Phase::AwaitFragmentStatus { program, vertex_shader, fragment_shader },
                Reply::Status(ok),
            ) => {
                if ok {
                    Transition::Progress {
                        builder: Builder {
                            mode: self.mode,
                            phase: Phase::AwaitLinkStatus { program, vertex_shader, fragment_shader },
                        },
                        commands: seq![
                            Command::AttachShader { program, shader: fragment_shader },
                            Command::LinkProgram { program },
                            Command::GetLinkStatus { program },
                        ],
                    }
                } else {
                    Transition::Progress {
                        builder: Builder {
                            mode: self.mode,
                            phase: Phase::AwaitFragmentLog { program, vertex_shader, fragment_shader },
                        },
                        commands: seq![Command::GetShaderLog { shader: fragment_shader }],
                    }
                }
            },
            (Phase::AwaitFragmentLog { .. }, Reply::Log(diagnostic)) => Transition::Abort {
                error: SurfaceError::ShaderCompile { stage: ShaderStage::Fragment, diagnostic },
            },
            (
                Phase::AwaitLinkStatus { program, vertex_shader, fragment_shader },
                Reply::Status(ok),
            ) => {
                if ok {
                    let cleanup = seq![
                        Command::DetachShader { program, shader: vertex_shader },
                        Command::DeleteShader { shader: vertex_shader },
                        Command::DetachShader { program, shader: fragment_shader },
                        Command::DeleteShader { shader: fragment_shader },
                        Command::UseProgram { program },
                    ];
                    match self.mode {
                        GeometryMode::Buffered => Transition::Progress {
                            builder: Builder { mode: self.mode, phase: Phase::AwaitBuffer { program } },
                            commands: cleanup.push(Command::CreateBuffer),
                        },
                        GeometryMode::Synthesized => Transition::Progress {
                            builder: Builder {
                                mode: self.mode,
                                phase: Phase::AwaitVertexArray { program, buffer: None },
                            },
                            commands: cleanup.push(Command::CreateVertexArray),
                        },
                    }
                } else {
                    Transition::Progress {
                        builder: Builder { mode: self.mode, phase: Phase::AwaitLinkLog { program } },
                        commands: seq![Command::GetProgramLog { program }],
                    }
                }
            },
            (Phase::AwaitLinkLog { .. }, Reply::Log(diagnostic)) => Transition::Abort {
                error: SurfaceError::ProgramLink { diagnostic },
            },
            (Phase::AwaitBuffer { program }, Reply::Handle(buffer)) => Transition::Progress {
                builder: Builder {
                    mode: self.mode,
                    phase: Phase::AwaitVertexArray { program, buffer: Some(buffer) },
                },
                commands: seq![
                    Command::BindBuffer { buffer },
                    Command::UploadTriangleData,
                    Command::CreateVertexArray,
                ],
            },
            (Phase::AwaitVertexArray { program, buffer }, Reply::Handle(vertex_array)) => {
                Transition::Finish {
                    commands: match buffer {
                        Some(_) => seq![
                            Command::BindVertexArray { vertex_array },
                            Command::EnableAttribArray { index: 0 },
                            Command::SetAttribPointer { index: 0, components: 2, stride: 8, offset: 0 },
                            Command::SetClearColor,
                        ],
                        None => seq![
                            Command::BindVertexArray { vertex_array },
                            Command::SetClearColor,
                        ],
                    },
                    renderer: Renderer { program, vertex_array, vertex_buffer: buffer },
                }
            },
            _ => Transition::Reject,
        }
    }

    /// Whether `reply` has the shape the current phase is waiting for.
    pub open spec fn accepts(self, reply: Reply) -> bool {
        !(self.step_spec(reply) is Reject)
    }

    /// Whether an executable step is the one the transition table calls for.
    pub open spec fn agrees(step: BuildStep, t: Transition) -> bool {
        match step {
            BuildStep::Next(b, cmds) => {
                &&& t matches Transition::Progress { builder, commands }
                &&& b == builder
                &&& cmds@ == commands
            },
            BuildStep::Complete(cmds, r) => {
                &&& t matches Transition::Finish { commands, renderer }
                &&& r == renderer
                &&& cmds@ == commands
            },
            BuildStep::Failed(e) => {
                &&& t matches Transition::Abort { error }
                &&& e == error
            },
        }
    }

    /// Opens a construction: the builder that waits for the program handle,
    /// and the one command the shell is to perform first.
    pub fn begin(mode: GeometryMode) -> (r: (Builder, Command))
        ensures
            r.0 == (Builder { mode, phase: Phase::AwaitProgram }),
            r.0.wf(),
            r.1 == Command::CreateProgram,
    {
        (Builder { mode, phase: Phase::AwaitProgram }, Command::CreateProgram)
    }

    /// Takes the context's answer to the previous batch and produces the
    /// next step, exactly as the transition table prescribes.
    pub fn advance(self, reply: Reply) -> (step: BuildStep)
        requires
            self.wf(),
            self.accepts(reply),
        ensures
            Builder::agrees(step, self.step_spec(reply)),
            step matches BuildStep::Next(b, _) ==> b.wf(),
    {
        let ghost t = self.step_spec(reply);
        match (self.phase, reply) {
            (Phase::AwaitProgram, Reply::Handle(program)) => {
                let next = Builder { mode: self.mode, phase: Phase::AwaitVertexShader { program } };
                let mut cmds: Vec<Command> = Vec::new();
                cmds.push(Command::CreateShader { stage: ShaderStage::Vertex });
                proof {
                    assert(cmds@ =~= t->Progress_commands);
                }
                BuildStep::Next(next, cmds)
            },
            (Phase::AwaitVertexShader { program }, Reply::Handle(shader)) => {
                let next = Builder {
                    mode: self.mode,
                    phase: Phase::AwaitVertexStatus { program, vertex_shader: shader },
                };
                let mut cmds: Vec<Command> = Vec::new();
                cmds.push(Command::ShaderSource { shader, stage: ShaderStage::Vertex });
                cmds.push(Command::CompileShader { shader });
                cmds.push(Command::GetCompileStatus { shader });
                proof {
                    assert(cmds@ =~= t->Progress_commands);
                }
                BuildStep::Next(next, cmds)
            },
            (Phase::AwaitVertexStatus { program, vertex_shader }, Reply::Status(ok)) => {
                if ok {
                    let next = Builder {
                        mode: self.mode,
                        phase: Phase::AwaitFragmentShader { program, vertex_shader },
                    };
                    let mut cmds: Vec<Command> = Vec::new();
                    cmds.push(Command::AttachShader { program, shader: vertex_shader });
                    cmds.push(Command::CreateShader { stage: ShaderStage::Fragment });
                    proof {
                        assert(cmds@ =~= t->Progress_commands);
                    }
                    BuildStep::Next(next, cmds)
                } else {
                    let next = Builder {
                        mode: self.mode,
                        phase: Phase::AwaitVertexLog { program, vertex_shader },
                    };
                    let mut cmds: Vec<Command> = Vec::new();
                    cmds.push(Command::GetShaderLog { shader: vertex_shader });
                    proof {
                        assert(cmds@ =~= t->Progress_commands);
                    }
                    BuildStep::Next(next, cmds)
                }
            },
            (Phase::AwaitVertexLog { .. }, Reply::Log(diagnostic)) => BuildStep::Failed(
                SurfaceError::ShaderCompile { stage: ShaderStage::Vertex, diagnostic },
            ),
            (Phase::AwaitFragmentShader { program, vertex_shader }, Reply::Handle(shader)) => {
                let next = Builder {
                    mode: self.mode,
                    phase: Phase::AwaitFragmentStatus {
                        program,
                        vertex_shader,
                        fragment_shader: shader,
                    },
                };
                let mut cmds: Vec<Command> = Vec::new();
                cmds.push(Command::ShaderSource { shader, stage: ShaderStage::Fragment });
                cmds.push(Command::CompileShader { shader });
                cmds.push(Command::GetCompileStatus { shader });
                proof {
                    assert(cmds@ =~= t->Progress_commands);
                }
                BuildStep::Next(next, cmds)
            },
            (
                Phase::AwaitFragmentStatus { program, vertex_shader, fragment_shader },
                Reply::Status(ok),
            ) => {
                if ok {
                    let next = Builder {
                        mode: self.mode,
                        phase: Phase::AwaitLinkStatus { program, vertex_shader, fragment_shader },
                    };
                    let mut cmds: Vec<Command> = Vec::new();
                    cmds.push(Command::AttachShader { program, shader: fragment_shader });
                    cmds.push(Command::LinkProgram { program });
                    cmds.push(Command::GetLinkStatus { program });
                    proof {
                        assert(cmds@ =~= t->Progress_commands);
                    }
                    BuildStep::Next(next, cmds)
                } else {
                    let next = Builder {
                        mode: self.mode,
                        phase: Phase::AwaitFragmentLog { program, vertex_shader, fragment_shader },
                    };
                    let mut cmds: Vec<Command> = Vec::new();
                    cmds.push(Command::GetShaderLog { shader: fragment_shader });
                    proof {
                        assert(cmds@ =~= t->Progress_commands);
                    }
                    BuildStep::Next(next, cmds)
                }
            },
            (Phase::AwaitFragmentLog { .. }, Reply::Log(diagnostic)) => BuildStep::Failed(
                SurfaceError::ShaderCompile { stage: ShaderStage::Fragment, diagnostic },
            ),
            (
                Phase::AwaitLinkStatus { program, vertex_shader, fragment_shader },
                Reply::Status(ok),
            ) => {
                if ok {
                    let mut cmds: Vec<Command> = Vec::new();
                    cmds.push(Command::DetachShader { program, shader: vertex_shader });
                    cmds.push(Command::DeleteShader { shader: vertex_shader });
                    cmds.push(Command::DetachShader { program, shader: fragment_shader });
                    cmds.push(Command::DeleteShader { shader: fragment_shader });
                    cmds.push(Command::UseProgram { program });
                    match self.mode {
                        GeometryMode::Buffered => {
                            let next = Builder {
                                mode: self.mode,
                                phase: Phase::AwaitBuffer { program },
                            };
                            cmds.push(Command::CreateBuffer);
                            proof {
                                assert(cmds@ =~= t->Progress_commands);
                            }
                            BuildStep::Next(next, cmds)
                        },
                        GeometryMode::Synthesized => {
                            let next = Builder {
                                mode: self.mode,
                                phase: Phase::AwaitVertexArray { program, buffer: None },
                            };
                            cmds.push(Command::CreateVertexArray);
                            proof {
                                assert(cmds@ =~= t->Progress_commands);
                            }
                            BuildStep::Next(next, cmds)
                        },
                    }
                } else {
                    let next = Builder { mode: self.mode, phase: Phase::AwaitLinkLog { program } };
                    let mut cmds: Vec<Command> = Vec::new();
                    cmds.push(Command::GetProgramLog { program });
                    proof {
                        assert(cmds@ =~= t->Progress_commands);
                    }
                    BuildStep::Next(next, cmds)
                }
            },
            (Phase::AwaitLinkLog { .. }, Reply::Log(diagnostic)) => BuildStep::Failed(
                SurfaceError::ProgramLink { diagnostic },
            ),
            (Phase::AwaitBuffer { program }, Reply::Handle(buffer)) => {
                let next = Builder {
                    mode: self.mode,
                    phase: Phase::AwaitVertexArray { program, buffer: Some(buffer) },
                };
                let mut cmds: Vec<Command> = Vec::new();
                cmds.push(Command::BindBuffer { buffer });
                cmds.push(Command::UploadTriangleData);
                cmds.push(Command::CreateVertexArray);
                proof {
                    assert(cmds@ =~= t->Progress_commands);
                }
                BuildStep::Next(next, cmds)
            },
            (Phase::AwaitVertexArray { program, buffer }, Reply::Handle(vertex_array)) => {
                let mut cmds: Vec<Command> = Vec::new();
                cmds.push(Command::BindVertexArray { vertex_array });
                if buffer.is_some() {
                    cmds.push(Command::EnableAttribArray { index: 0 });
                    cmds.push(Command::SetAttribPointer {
                        index: 0,
                        components: 2,
                        stride: 8,
                        offset: 0,
                    });
                }
                cmds.push(Command::SetClearColor);
                proof {
                    assert(cmds@ =~= t->Finish_commands);
                }
                BuildStep::Complete(
                    cmds,
                    Renderer { program, vertex_array, vertex_buffer: buffer },
                )
            },
            _ => vstd::pervasive::unreached(),
        }
    }
}

} // verus!
