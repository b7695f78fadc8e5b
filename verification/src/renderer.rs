//! The constructed surface: the GPU objects it owns and the command batches
//! for drawing a frame and for releasing those objects.

use vstd::prelude::*;

use crate::protocol::Command;

verus! {

/// A fully constructed surface. It owns exactly one program, one vertex
/// array, and — when the geometry was uploaded to an explicit buffer — one
/// vertex buffer. A `Renderer` only comes out of a construction whose link
/// step succeeded, so the program is always usable for drawing.
///
/// `delete` consumes the value: once the owned objects are released the
/// renderer cannot be used, or released, again.
#[derive(Clone, Copy, Debug, PartialEq, Eq)]
pub struct Renderer {
    pub program: u32,
    pub vertex_array: u32,
    pub vertex_buffer: Option<u32>,
}

impl Renderer {
    /// The commands a frame consists of: clear the color buffer, then draw
    /// three vertices as one triangle, starting at vertex zero, in that
    /// order and nothing else.
    pub open spec fn render_trace(self) -> Seq<Command> {
        seq![Command::Clear, Command::DrawTriangles { first: 0, count: 3 }]
    }

    /// The commands that release the owned objects: the program, then the
    /// vertex array, then the vertex buffer where one is owned — exactly
    /// one release per owned handle and no other command.
    pub open spec fn delete_trace(self) -> Seq<Command> {
        let base = seq![
            Command::DeleteProgram { program: self.program },
            Command::DeleteVertexArray { vertex_array: self.vertex_array },
        ];
        match self.vertex_buffer {
            Some(buffer) => base.push(Command::DeleteBuffer { buffer }),
            None => base,
        }
    }

    /// Assembles a surface from the handles it is to own.
    pub fn new(program: u32, vertex_array: u32, vertex_buffer: Option<u32>) -> (r: Renderer)
        ensures
            r == (Renderer { program, vertex_array, vertex_buffer }),
    {
        Renderer { program, vertex_array, vertex_buffer }
    }

    /// Emits one frame: exactly one clear followed by exactly one draw
    /// request for three vertices.
    pub fn render(&self) -> (cmds: Vec<Command>)
        ensures
            cmds@ == self.render_trace(),
    {
        let mut cmds: Vec<Command> = Vec::new();
        cmds.push(Command::Clear);
        cmds.push(Command::DrawTriangles { first: 0, count: 3 });
        proof {
            assert(cmds@ =~= self.render_trace());
        }
        cmds
    }

    /// Emits the release of every owned object, consuming the surface so
    /// that nothing can be released twice.
    pub fn delete(self) -> (cmds: Vec<Command>)
        ensures
            cmds@ == self.delete_trace(),
    {
        let mut cmds: Vec<Command> = Vec::new();
        cmds.push(Command::DeleteProgram { program: self.program });
        cmds.push(Command::DeleteVertexArray { vertex_array: self.vertex_array });
        if let Some(buffer) = self.vertex_buffer {
            cmds.push(Command::DeleteBuffer { buffer });
        }
        proof {
            assert(cmds@ =~= self.delete_trace());
        }
        cmds
    }
}

} // verus!
